use base64::Engine;
use password_manager::dto::SessionDTO;
use password_manager::errors::Error;

#[test]
fn transport_roundtrip_restores_the_session() {
    let key: Vec<u8> = (0u8..32).collect();
    let vault_id: u128 = 0x1234_5678_9abc_def0_1234_5678_9abc_def0;
    let dto = SessionDTO {
        username: "alice".to_string(),
        vault_id: uuid::Uuid::from_u128(vault_id).to_string(),
        vault_key: base64::engine::general_purpose::STANDARD.encode(&key),
        passphrase: "S3cret!".to_string(),
    };
    let session = dto.into_session().expect("conversion failed");
    assert_eq!(session.user.username(), "alice");
    assert_eq!(session.vault_id, vault_id);
    assert_eq!(session.vault_key, key);
    assert_eq!(session.passphrase, "S3cret!");
}

#[test]
fn invalid_key_encoding_is_refused() {
    let dto = SessionDTO {
        username: "alice".to_string(),
        vault_id: uuid::Uuid::from_u128(1).to_string(),
        vault_key: "!!! not base64 !!!".to_string(),
        passphrase: "pw".to_string(),
    };
    assert!(matches!(dto.into_session(), Err(Error::Validation)));
}

#[test]
fn invalid_vault_id_is_refused() {
    let dto = SessionDTO {
        username: "alice".to_string(),
        vault_id: "not-a-uuid".to_string(),
        vault_key: base64::engine::general_purpose::STANDARD.encode([0u8; 32]),
        passphrase: "pw".to_string(),
    };
    assert!(matches!(dto.into_session(), Err(Error::Validation)));
}

use password_manager::credential::{validate_name, Credential};
use password_manager::errors::Error;
use password_manager::user::{validate_password_hash, validate_username, User};
use password_manager::vault::{validate_vault_key, Vault};

#[test]
fn username_rules() {
    assert_eq!(validate_username("abc"), Ok(()));
    assert_eq!(validate_username("a.b-c_d"), Ok(()));
    assert_eq!(validate_username(&"a".repeat(32)), Ok(()));
    assert_eq!(validate_username(""), Err(Error::Validation));
    assert_eq!(validate_username("ab"), Err(Error::Validation));
    assert_eq!(validate_username(&"a".repeat(33)), Err(Error::Validation));
    assert_eq!(validate_username("has space"), Err(Error::Validation));
    assert_eq!(validate_username("acentuação"), Err(Error::Validation));
    assert_eq!(validate_username("semi;colon"), Err(Error::Validation));
}

#[test]
fn credential_name_rules() {
    assert_eq!(validate_name("GitHub"), Ok(()));
    assert_eq!(validate_name(&"x".repeat(64)), Ok(()));
    assert_eq!(validate_name("  padded  "), Ok(()));
    assert_eq!(validate_name(&"x".repeat(65)), Err(Error::Validation));
    assert_eq!(validate_name(""), Err(Error::Validation));
    assert_eq!(validate_name("   "), Err(Error::Validation));
    assert_eq!(validate_name("\t\r\n"), Err(Error::Validation));
}

#[test]
fn credential_name_whitespace_is_unicode_wide() {
    assert_eq!(validate_name("\u{00a0}"), Err(Error::Validation));
    assert_eq!(validate_name(" \u{00a0}\u{2003}\u{3000}\u{2028}"), Err(Error::Validation));
    assert_eq!(validate_name("\u{1680}\u{2009}\u{202f}\u{205f}\u{0085}"), Err(Error::Validation));
    assert_eq!(validate_name("\u{00a0}a\u{00a0}"), Ok(()));
    assert_eq!(validate_name("caf\u{00e9}"), Ok(()));
}

#[test]
fn password_hash_must_be_present() {
    assert_eq!(validate_password_hash(b""), Err(Error::Validation));
    assert_eq!(validate_password_hash(b"x"), Ok(()));
}

#[test]
fn vault_key_cipher_must_be_present() {
    assert_eq!(validate_vault_key(b""), Err(Error::Validation));
    assert_eq!(validate_vault_key(&[1, 2, 3]), Ok(()));
}

#[test]
fn user_constructor_applies_the_rules() {
    assert!(matches!(
        User::new("ab".to_string(), b"hash".to_vec()),
        Err(Error::Validation)
    ));
    assert!(matches!(User::new("alice".to_string(), vec![]), Err(Error::Validation)));
    let user = User::new("alice".to_string(), b"hash".to_vec()).expect("creation failed");
    assert_ne!(user.id(), 0);
    assert_eq!(user.username(), "alice");
    assert_eq!(user.password_hash(), b"hash");
}

#[test]
fn vault_constructor_applies_the_rules() {
    assert!(matches!(Vault::new(0, vec![1]), Err(Error::Validation)));
    assert!(matches!(Vault::new(5, vec![]), Err(Error::Validation)));
    let vault = Vault::new(5, vec![9, 9]).expect("creation failed");
    assert_ne!(vault.id(), 0);
    assert_eq!(vault.user_id(), 5);
    assert_eq!(vault.vault_key_cipher(), &[9, 9]);
}

#[test]
fn credential_constructor_applies_the_rules() {
    assert!(matches!(
        Credential::new(0, "GitHub".to_string(), None, None, None, None),
        Err(Error::Validation)
    ));
    assert!(matches!(
        Credential::new(3, "  ".to_string(), None, None, None, None),
        Err(Error::Validation)
    ));
    let cred = Credential::new(
        3,
        "GitHub".to_string(),
        Some("alice".to_string()),
        None,
        None,
        Some(vec![1, 2]),
    )
    .expect("creation failed");
    assert_ne!(cred.id(), 0);
    assert_eq!(cred.vault_id(), 3);
    assert_eq!(cred.name(), "GitHub");
    assert_eq!(cred.username(), Some("alice"));
    assert_eq!(cred.url(), None);
    assert_eq!(cred.notes(), None);
    assert_eq!(cred.password_cipher(), Some(&[1u8, 2u8][..]));
}

#[test]
fn setters_replace_fields() {
    let mut cred = Credential::new(3, "Mail".to_string(), None, None, None, None)
        .expect("creation failed");
    assert_eq!(cred.set_name("Email".to_string()), Ok(()));
    assert_eq!(cred.name(), "Email");
    assert_eq!(cred.set_name("  ".to_string()), Err(Error::Validation));
    assert_eq!(cred.name(), "Email");
    cred.set_username(Some("bob".to_string()));
    assert_eq!(cred.username(), Some("bob"));
    cred.set_url(Some("https://mail.test".to_string()));
    assert_eq!(cred.url(), Some("https://mail.test"));
    cred.set_notes(Some(vec![4, 5]));
    assert_eq!(cred.notes(), Some(&[4u8, 5u8][..]));
    cred.set_password_cipher(Some(vec![6]));
    assert_eq!(cred.password_cipher(), Some(&[6u8][..]));
    cred.set_password_cipher(None);
    assert_eq!(cred.password_cipher(), None);
}

#[test]
fn rehydration_keeps_fields_verbatim() {
    let user = User::from_persisted(11, "zoe".to_string(), b"h".to_vec(), 100, 200);
    assert_eq!(user.id(), 11);
    assert_eq!(user.username(), "zoe");
    assert_eq!(user.created_at(), 100);
    assert_eq!(user.updated_at(), 200);
    let vault = Vault::from_persisted(12, 11, vec![1], 100, 200);
    assert_eq!(vault.id(), 12);
    assert_eq!(vault.user_id(), 11);
    let cred = Credential::from_persisted(
        13,
        12,
        "Mail".to_string(),
        None,
        None,
        None,
        None,
        100,
        200,
    );
    assert_eq!(cred.id(), 13);
    assert_eq!(cred.vault_id(), 12);
    assert_eq!(cred.name(), "Mail");
}

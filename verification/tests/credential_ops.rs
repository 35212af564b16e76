use password_manager::auth_service::Session;
use password_manager::credential_service::{decrypt_field, encrypt_field, CredentialService};
use password_manager::errors::Error;
use password_manager::user::User;

fn session(vault_id: u128, passphrase: &str) -> Session {
    let user = User::from_persisted(vault_id, "tester".to_string(), b"h".to_vec(), 0, 0);
    Session { user, vault_id, vault_key: vec![0u8; 32], passphrase: passphrase.to_string() }
}

#[test]
fn field_roundtrip_and_foreign_session_rejection() {
    let mine = session(1, "first passphrase");
    let sealed = encrypt_field(&mine, b"hunter2").expect("sealing failed");
    assert_eq!(decrypt_field(&mine, &sealed), Ok(b"hunter2".to_vec()));
    let other = session(2, "second passphrase");
    assert_eq!(decrypt_field(&other, &sealed), Err(Error::Crypto));
}

#[test]
fn create_then_reveal_password_and_notes() {
    let s = session(1, "vault pass");
    let cred = CredentialService::create(
        &s,
        "GitHub",
        Some("alice".to_string()),
        Some("https://github.test".to_string()),
        Some(b"recovery codes in drawer".to_vec()),
        Some("hunter2"),
    )
    .expect("creation failed");
    assert_eq!(cred.vault_id(), 1);
    assert_eq!(cred.name(), "GitHub");
    assert_eq!(cred.username(), Some("alice"));
    assert_eq!(cred.url(), Some("https://github.test"));
    assert!(cred.password_cipher().is_some());
    assert!(cred.notes().is_some());
    assert_ne!(cred.password_cipher().unwrap(), b"hunter2");
    let revealed = CredentialService::reveal_password(&s, Some(&cred)).expect("reveal failed");
    assert_eq!(revealed, Some("hunter2".to_string()));
    let notes = CredentialService::reveal_notes(&s, Some(&cred)).expect("reveal failed");
    assert_eq!(notes, Some("recovery codes in drawer".to_string()));
}

#[test]
fn reveal_of_absent_fields_gives_none() {
    let s = session(1, "vault pass");
    let cred = CredentialService::create(&s, "Bare", None, None, None, None)
        .expect("creation failed");
    assert_eq!(CredentialService::reveal_password(&s, Some(&cred)), Ok(None));
    assert_eq!(CredentialService::reveal_notes(&s, Some(&cred)), Ok(None));
}

#[test]
fn foreign_records_are_not_available() {
    let a = session(1, "pass a");
    let b = session(2, "pass b");
    let cred = CredentialService::create(&a, "Mail", None, None, None, None)
        .expect("creation failed");
    assert!(matches!(
        CredentialService::get(&b, Some(cred.clone())),
        Err(Error::NotAvailable)
    ));
    assert_eq!(CredentialService::delete(&b, Some(&cred)), Err(Error::NotAvailable));
    assert_eq!(
        CredentialService::reveal_password(&b, Some(&cred)),
        Err(Error::NotAvailable)
    );
    assert_eq!(
        CredentialService::reveal_notes(&b, Some(&cred)),
        Err(Error::NotAvailable)
    );
    let got = CredentialService::get(&a, Some(cred.clone())).expect("owner lookup failed");
    assert_eq!(got.id(), cred.id());
}

#[test]
fn delete_decisions() {
    let a = session(1, "pass a");
    let cred = CredentialService::create(&a, "Mail", None, None, None, None)
        .expect("creation failed");
    assert_eq!(CredentialService::delete(&a, None), Ok(false));
    assert_eq!(CredentialService::delete(&a, Some(&cred)), Ok(true));
}

#[test]
fn missing_record_is_not_available() {
    let a = session(1, "pass a");
    assert!(matches!(CredentialService::get(&a, None), Err(Error::NotAvailable)));
    assert_eq!(CredentialService::reveal_password(&a, None), Err(Error::NotAvailable));
}

#[test]
fn update_replaces_given_parts_and_keeps_the_rest() {
    let s = session(1, "vault pass");
    let cred = CredentialService::create(
        &s,
        "Mail",
        Some("old-account".to_string()),
        None,
        None,
        None,
    )
    .expect("creation failed");
    let id = cred.id();
    let updated = CredentialService::update(
        &s,
        cred,
        Some("Email".to_string()),
        None,
        Some("https://mail.test".to_string()),
        None,
        Some("newpw"),
    )
    .expect("update failed");
    assert_eq!(updated.id(), id);
    assert_eq!(updated.name(), "Email");
    assert_eq!(updated.username(), Some("old-account"));
    assert_eq!(updated.url(), Some("https://mail.test"));
    let revealed = CredentialService::reveal_password(&s, Some(&updated)).expect("reveal failed");
    assert_eq!(revealed, Some("newpw".to_string()));
}

#[test]
fn update_refusals() {
    let a = session(1, "pass a");
    let b = session(2, "pass b");
    let cred = CredentialService::create(&a, "Mail", None, None, None, None)
        .expect("creation failed");
    assert!(matches!(
        CredentialService::update(&b, cred.clone(), None, None, None, None, None),
        Err(Error::NotAvailable)
    ));
    assert!(matches!(
        CredentialService::update(&a, cred, Some("   ".to_string()), None, None, None, None),
        Err(Error::Validation)
    ));
}

#[test]
fn create_refuses_invalid_names() {
    let s = session(1, "vault pass");
    assert!(matches!(
        CredentialService::create(&s, "", None, None, None, None),
        Err(Error::Validation)
    ));
    assert!(matches!(
        CredentialService::create(&s, " \t ", None, None, None, None),
        Err(Error::Validation)
    ));
    let long = "x".repeat(65);
    assert!(matches!(
        CredentialService::create(&s, &long, None, None, None, None),
        Err(Error::Validation)
    ));
}

#[test]
fn list_keeps_only_the_sessions_vault_in_order() {
    let a = session(1, "pass a");
    let b = session(2, "pass b");
    let c1 = CredentialService::create(&a, "GitHub", None, None, None, None).unwrap();
    let c2 = CredentialService::create(&b, "Foreign", None, None, None, None).unwrap();
    let c3 = CredentialService::create(&a, "Email", None, None, None, None).unwrap();
    let all = vec![c1.clone(), c2, c3.clone()];
    let mine = CredentialService::list(&a, all);
    assert_eq!(mine.len(), 2);
    assert_eq!(mine[0].id(), c1.id());
    assert_eq!(mine[1].id(), c3.id());
}

#[test]
fn search_is_case_insensitive_substring_on_own_vault() {
    let a = session(1, "pass a");
    let b = session(2, "pass b");
    let c1 = CredentialService::create(&a, "GitHub", None, None, None, None).unwrap();
    let c2 = CredentialService::create(&a, "gitlab", None, None, None, None).unwrap();
    let c3 = CredentialService::create(&a, "Email", None, None, None, None).unwrap();
    let c4 = CredentialService::create(&b, "GitFront", None, None, None, None).unwrap();
    let all = vec![c1.clone(), c2.clone(), c3.clone(), c4];
    let found = CredentialService::search(&a, all.clone(), "GIT");
    assert_eq!(found.len(), 2);
    assert_eq!(found[0].id(), c1.id());
    assert_eq!(found[1].id(), c2.id());
    let none = CredentialService::search(&a, all.clone(), "zzz");
    assert!(none.is_empty());
    let everything = CredentialService::search(&a, all, "");
    assert_eq!(everything.len(), 3);
}

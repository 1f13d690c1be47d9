use litterbox::{Key, Keys, LitterboxError};

#[test]
fn can_hash_and_verify_password() {
    let password = "some_random_pass";
    let keys = Keys::init_default(password).unwrap();
    let hash = keys.password_hash().to_string();
    assert_ne!(password, &hash);

    assert!(keys.check_password(password));
    assert!(!keys.check_password("wrong_pass"));
}

#[test]
fn can_encrypt_and_decrypt_password() {
    let password = "SomePassword";

    let original_key = Key::generate_private_key();

    let encrypted_key = Key::encrypt("some_key", password, &original_key);

    let decrypted_key = encrypted_key
        .decrypt(password)
        .expect("Key should have been encrypted with user password.");

    assert_eq!(&decrypted_key, original_key.private_key());
}

#[test]
fn decrypting_with_another_password_fails() {
    let original_key = Key::generate_private_key();
    let encrypted_key = Key::encrypt("some_key", "SomePassword", &original_key);
    assert!(matches!(
        encrypted_key.decrypt("OtherPassword"),
        Err(LitterboxError::DecryptKey(n)) if n == "some_key"
    ));
}

#[test]
fn generating_a_taken_name_is_refused_and_changes_nothing() {
    let mut keys = Keys::init_default("pw").unwrap();
    keys.generate("alpha", "pw").unwrap();
    let before: Vec<(String, Vec<u8>)> = keys
        .keys()
        .iter()
        .map(|k| (k.name().to_string(), k.encrypted_key().clone()))
        .collect();

    let again = keys.generate("alpha", "pw");
    assert!(matches!(again, Err(LitterboxError::KeyAlreadyExists(n)) if n == "alpha"));

    let after: Vec<(String, Vec<u8>)> = keys
        .keys()
        .iter()
        .map(|k| (k.name().to_string(), k.encrypted_key().clone()))
        .collect();
    assert_eq!(before, after);
    assert_eq!(keys.keys().len(), 1);
}

#[test]
fn generating_with_a_wrong_password_is_refused() {
    let mut keys = Keys::init_default("pw").unwrap();
    let r = keys.generate("alpha", "not-pw");
    assert!(matches!(r, Err(LitterboxError::IncorrectPassword)));
    assert_eq!(keys.keys().len(), 0);
    assert!(!keys.contains_key("alpha"));
}

#[test]
fn attach_twice_is_refused_until_detached() {
    let mut keys = Keys::init_default("pw").unwrap();
    keys.generate("alpha", "pw").unwrap();
    keys.attach("alpha", "boxA").unwrap();
    let again = keys.attach("alpha", "boxA");
    assert!(matches!(
        again,
        Err(LitterboxError::AlreadyAttachedToKey(k, l)) if k == "alpha" && l == "boxA"
    ));

    keys.detach("alpha", &vec!["boxA".to_string()]).unwrap();
    assert!(keys.keys()[0].attached_litterboxes().is_empty());
    keys.attach("alpha", "boxA").unwrap();
    assert_eq!(keys.keys()[0].attached_litterboxes(), &vec!["boxA".to_string()]);
}

#[test]
fn operations_on_a_missing_key_are_refused() {
    let mut keys = Keys::init_default("pw").unwrap();
    assert!(matches!(keys.attach("ghost", "boxA"), Err(LitterboxError::KeyDoesNotExist(n)) if n == "ghost"));
    assert!(matches!(keys.delete("ghost"), Err(LitterboxError::KeyDoesNotExist(n)) if n == "ghost"));
    assert!(matches!(
        keys.detach("ghost", &vec![]),
        Err(LitterboxError::KeyDoesNotExist(n)) if n == "ghost"
    ));
}

#[test]
fn delete_removes_only_the_named_key() {
    let mut keys = Keys::from_parts(
        "hash".to_string(),
        vec![
            Key::from_parts("a".to_string(), vec![1], vec![]),
            Key::from_parts("b".to_string(), vec![2], vec!["x".to_string()]),
            Key::from_parts("c".to_string(), vec![3], vec![]),
        ],
    )
    .unwrap();
    keys.delete("b").unwrap();
    let names: Vec<&str> = keys.keys().iter().map(|k| k.name()).collect();
    assert_eq!(names, vec!["a", "c"]);
    assert!(!keys.contains_key("b"));
}

#[test]
fn detach_keeps_the_order_of_the_rest() {
    let mut keys = Keys::from_parts(
        "hash".to_string(),
        vec![Key::from_parts(
            "a".to_string(),
            vec![],
            vec!["x".to_string(), "y".to_string(), "z".to_string()],
        )],
    )
    .unwrap();
    keys.detach("a", &vec!["y".to_string(), "w".to_string()]).unwrap();
    assert_eq!(
        keys.keys()[0].attached_litterboxes(),
        &vec!["x".to_string(), "z".to_string()]
    );
    assert_eq!(keys.keys()[0].attached_list(), "x,z");
}

#[test]
fn stored_parts_with_duplicates_are_refused() {
    let dup_names = Keys::from_parts(
        "hash".to_string(),
        vec![
            Key::from_parts("a".to_string(), vec![], vec![]),
            Key::from_parts("a".to_string(), vec![], vec![]),
        ],
    );
    assert!(matches!(dup_names, Err(LitterboxError::KeyAlreadyExists(n)) if n == "a"));

    let dup_attached = Keys::from_parts(
        "hash".to_string(),
        vec![Key::from_parts(
            "a".to_string(),
            vec![],
            vec!["x".to_string(), "x".to_string()],
        )],
    );
    assert!(matches!(
        dup_attached,
        Err(LitterboxError::AlreadyAttachedToKey(k, l)) if k == "a" && l == "x"
    ));
}

#[test]
fn session_keys_survive_storing_and_reloading() {
    let mut keys = Keys::init_default("P").unwrap();
    keys.generate("alpha", "P").unwrap();
    keys.generate("beta", "P").unwrap();
    keys.attach("alpha", "boxA").unwrap();

    let first = keys.decrypt_for_session("boxA", "P").unwrap();
    assert_eq!(first.len(), 1);
    assert_eq!(first[0].name, "alpha");

    // What a save and a load carry: the hash, and each key's parts.
    let reloaded = Keys::from_parts(
        keys.password_hash().to_string(),
        keys.keys()
            .iter()
            .map(|k| {
                Key::from_parts(
                    k.name().to_string(),
                    k.encrypted_key().clone(),
                    k.attached_litterboxes().clone(),
                )
            })
            .collect(),
    )
    .unwrap();
    let second = reloaded.decrypt_for_session("boxA", "P").unwrap();
    assert_eq!(second.len(), 1);
    assert_eq!(second[0].name, "alpha");
    assert_eq!(second[0].key, first[0].key);

    assert!(matches!(
        reloaded.decrypt_for_session("boxA", "P2"),
        Err(LitterboxError::IncorrectPassword)
    ));
    assert!(reloaded.decrypt_for_session("boxB", "P").unwrap().is_empty());
}

#[test]
fn stored_hash_is_an_argon2id_phc_string() {
    let keys = Keys::init_default("$argon2id$lookalike").unwrap();
    assert!(keys.password_hash().starts_with("$argon2id$"));
    assert_ne!(keys.password_hash(), "$argon2id$lookalike");
    assert!(keys.check_password("$argon2id$lookalike"));
}

#[test]
fn generated_key_decrypts_under_the_vault_password() {
    let mut keys = Keys::init_default("pw").unwrap();
    keys.generate("alpha", "pw").unwrap();
    assert!(keys.keys()[0].decrypt("pw").is_ok());
}

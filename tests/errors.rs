use litterbox::LitterboxError;

#[test]
fn error_messages() {
    assert_eq!(
        LitterboxError::KeyAlreadyExists("alpha".to_string()).message(),
        "Key named alpha already exists."
    );
    assert_eq!(
        LitterboxError::AlreadyAttachedToKey("alpha".to_string(), "boxA".to_string()).message(),
        "Litterbox named boxA already attached to key named alpha."
    );
    assert_eq!(
        LitterboxError::RunCommand("not found".to_string(), "podman".to_string()).message(),
        "Could not run podman command. Perhaps it is not installed?"
    );
    assert_eq!(
        LitterboxError::NoContainerForName.message(),
        "A container with the specified Litterbox name could not be found."
    );
    assert_eq!(
        LitterboxError::EnvVarUndefined("HOME".to_string()).message(),
        "Environment variable not defined: HOME."
    );
}

#[test]
fn error_details_for_the_log() {
    assert_eq!(
        LitterboxError::RunCommand("not found".to_string(), "podman".to_string()).detail(),
        Some("not found".to_string())
    );
    assert_eq!(
        LitterboxError::PodmanError("1".to_string(), "bad".to_string()).detail(),
        Some("bad".to_string())
    );
    assert_eq!(LitterboxError::KeyDoesNotExist("a".to_string()).detail(), None);
}

use litterbox::settings::{parse_u32, SETTINGS_VERSION};
use litterbox::{default_false, LitterboxError, LitterboxSettings, NetworkMode};

#[test]
fn network_modes() {
    assert_eq!(NetworkMode::Pasta.podman_args(), "pasta");
    assert_eq!(NetworkMode::PastaWithForwarding.podman_args(), "pasta:-t,auto,-u,auto");
    assert_eq!(NetworkMode::Host.podman_args(), "host");
    assert_eq!(NetworkMode::Host.name(), "Host networking (i.e. NO ISOLATION)");
    assert_eq!(NetworkMode::PastaWithForwarding.index(), 1);
}

#[test]
fn shared_memory_answer() {
    assert_eq!(LitterboxSettings::parse_shm_size("").unwrap(), None);
    assert_eq!(LitterboxSettings::parse_shm_size("  \t").unwrap(), None);
    assert_eq!(LitterboxSettings::parse_shm_size(" 8 ").unwrap(), Some(8));
    assert_eq!(LitterboxSettings::parse_shm_size("+16\n").unwrap(), Some(16));
    assert!(matches!(
        LitterboxSettings::parse_shm_size("8G"),
        Err(LitterboxError::InvalidInput(_))
    ));
    assert!(LitterboxSettings::parse_shm_size("-1").is_err());
    assert!(LitterboxSettings::parse_shm_size("4294967296").is_err());
}

#[test]
fn decimal_reading_matches_std() {
    for s in ["0", "7", "+7", "4294967295", "4294967296", "", "+", "1a", "-3", "00012", "99999999999"] {
        assert_eq!(parse_u32(s), s.parse::<u32>().ok(), "{s}");
    }
}

#[test]
fn settings_defaults() {
    let fresh = LitterboxSettings::prompt_defaults(None);
    assert_eq!(fresh.version, SETTINGS_VERSION);
    assert_eq!(fresh.network_mode, NetworkMode::Pasta);
    assert!(!fresh.support_ping && !fresh.keep_groups && !fresh.unconfine_seccomp);
    assert_eq!(fresh.shm_size_gb, None);
    assert!(!default_false());

    let mut existing = fresh;
    existing.version = 0;
    existing.network_mode = NetworkMode::Host;
    existing.unconfine_seccomp = true;
    existing.shm_size_gb = Some(4);
    let again = LitterboxSettings::prompt_defaults(Some(&existing));
    assert_eq!(again.version, 1);
    assert_eq!(again.network_mode, NetworkMode::Host);
    assert!(again.unconfine_seccomp);
    assert_eq!(again.shm_size_gb, Some(4));
}

#[test]
fn trimming_matches_std() {
    for s in ["", "  ", " a ", "\u{3000}x y\u{2029}", "\t\n8\r", "\u{85}\u{a0}z", "no-space", "\u{200b}k"] {
        assert_eq!(litterbox::text::trim(s), s.trim(), "{s:?}");
    }
}

use litterbox::devices::{device_dest_path, device_sub_path};
use litterbox::{
    dockerfile_path, home_dir, keyfile_path, lbx_home_path, settings_path, wayland_display,
    xdg_runtime_dir, EnvValue, LitterboxError, SocketStep, SshSockFile,
};

#[test]
fn project_files_live_under_the_litterbox_root() {
    assert_eq!(
        dockerfile_path("/home/u", "box"),
        "/home/u/Litterbox/definitions/box.Dockerfile"
    );
    assert_eq!(keyfile_path("/home/u"), "/home/u/Litterbox/keys.ron");
    assert_eq!(lbx_home_path("/home/u/", "box"), "/home/u/Litterbox/homes/box");
    assert_eq!(settings_path("/home/u", "box"), "/home/u/Litterbox/settings/box.ron");
}

#[test]
fn socket_path_is_derived_from_the_sandbox_name() {
    let sock = SshSockFile::new("/home/u", "box");
    assert_eq!(sock.path(), "/home/u/Litterbox/.ssh/box.sock");
}

#[test]
fn stale_socket_is_removed_before_binding() {
    assert_eq!(SshSockFile::preparation(true, false), vec![SocketStep::RemoveStale]);
    assert_eq!(SshSockFile::preparation(true, true), vec![SocketStep::RemoveStale]);
    assert_eq!(SshSockFile::preparation(false, false), vec![SocketStep::CreateDir]);
    assert_eq!(
        SshSockFile::preparation(false, true),
        vec![SocketStep::CreateDir, SocketStep::CreatePlaceholder]
    );
}

#[test]
fn environment_values_map_to_errors() {
    assert_eq!(home_dir(EnvValue::Value("/home/u".to_string())).unwrap(), "/home/u");
    assert!(matches!(
        wayland_display(EnvValue::Unset),
        Err(LitterboxError::EnvVarUndefined(n)) if n == "WAYLAND_DISPLAY"
    ));
    assert!(matches!(
        xdg_runtime_dir(EnvValue::NotUnicode("x\u{fffd}".to_string())),
        Err(LitterboxError::EnvVarInvalid(n, v)) if n == "XDG_RUNTIME_DIR" && v == "x\u{fffd}"
    ));
}

#[test]
fn device_paths_must_be_under_dev() {
    assert_eq!(device_sub_path("/dev/kvm").unwrap(), "kvm");
    assert_eq!(device_sub_path("/dev/net/tun").unwrap(), "net/tun");
    assert!(matches!(
        device_sub_path("/tmp/kvm"),
        Err(LitterboxError::InvalidDevicePath(p)) if p == "/tmp/kvm"
    ));
    assert!(device_sub_path("/dev").is_err());
    assert_eq!(device_dest_path("/h/box", "net/tun"), "/h/box/dev/net/tun");
}

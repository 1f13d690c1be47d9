//! Policy core of an SSH agent gatekeeper for sandboxed workspaces, and the
//! password-protected vault that supplies its keys.

pub mod agent;
pub mod bindings;
pub mod devices;
pub mod env;
pub mod errors;
pub mod files;
pub mod keys;
pub mod podman;
pub mod settings;
pub mod text;

pub use agent::{AgentState, Decision, UserRequest, UserResponse};
pub use env::{home_dir, wayland_display, xdg_runtime_dir, EnvValue};
pub use errors::LitterboxError;
pub use files::{dockerfile_path, keyfile_path, lbx_home_path, settings_path, SocketStep, SshSockFile};
pub use bindings::Ed25519Key;
pub use keys::{Key, Keys, SessionKey};
pub use podman::{
    AllContainers, AllImages, ContainerDetails, ContainerRow, CreateOptions, ImageDetails,
    LitterboxLabels, Template,
};
pub use settings::{default_false, LitterboxSettings, NetworkMode};

//! What the project asks of the container runtime: the argument lists of
//! its commands, and how their output is read.
use vstd::prelude::*;
use vstd::utf8::{decode_utf8, valid_utf8};
use crate::bindings::{random_name, utf8_to_string};
use crate::errors::LitterboxError;
use crate::settings::NetworkMode;
use crate::text::{concat, concat3, join, join_with, prefix_chars, push_str, push_string, string_views};

verus! {

/// The label that marks a container or image as a sandbox's.
pub struct LitterboxLabels {
    pub name: String,
}

/// One container, as the runtime lists it.
pub struct ContainerDetails {
    pub id: String,
    pub image: String,
    pub image_id: String,
    pub names: Vec<String>,
    pub labels: LitterboxLabels,
}

pub struct AllContainers(pub Vec<ContainerDetails>);

/// One image, as the runtime lists it.
pub struct ImageDetails {
    pub id: String,
}

pub struct AllImages(pub Vec<ImageDetails>);

/// The one container found for a sandbox: none and several are errors.
pub fn single_container_id(containers: &AllContainers) -> (r: Result<String, LitterboxError>)
    ensures
        containers.0@.len() == 0 ==> r matches Err(LitterboxError::NoContainerForName),
        containers.0@.len() == 1 ==> (r matches Ok(id) && id@ == containers.0@[0].id@),
        containers.0@.len() > 1 ==> r matches Err(LitterboxError::MultipleContainersForName),
{
    let n = containers.0.len();
    if n == 0 {
        Err(LitterboxError::NoContainerForName)
    } else if n == 1 {
        Ok(containers.0[0].id.clone())
    } else {
        Err(LitterboxError::MultipleContainersForName)
    }
}

/// The one image found for a sandbox: none and several are errors.
pub fn single_image_id(images: &AllImages) -> (r: Result<String, LitterboxError>)
    ensures
        images.0@.len() == 0 ==> r matches Err(LitterboxError::NoImageForName),
        images.0@.len() == 1 ==> (r matches Ok(id) && id@ == images.0@[0].id@),
        images.0@.len() > 1 ==> r matches Err(LitterboxError::MultipleImagesForName),
{
    let n = images.0.len();
    if n == 0 {
        Err(LitterboxError::NoImageForName)
    } else if n == 1 {
        Ok(images.0[0].id.clone())
    } else {
        Err(LitterboxError::MultipleImagesForName)
    }
}

/// Before building: an image that already exists is an error, a missing
/// one is what is wanted, and a failed lookup is passed on.
pub fn require_no_image(lookup: Result<String, LitterboxError>) -> (r: Result<(), LitterboxError>)
    ensures
        lookup matches Ok(id) ==> (r matches Err(LitterboxError::ImageAlreadyExists(i)) && i@
            == id@),
        lookup matches Err(LitterboxError::NoImageForName) ==> r is Ok,
        lookup matches Err(e) ==> !(e is NoImageForName) ==> r == Err::<(), LitterboxError>(e),
{
    match lookup {
        Ok(id) => Err(LitterboxError::ImageAlreadyExists(id)),
        Err(LitterboxError::NoImageForName) => Ok(()),
        Err(other) => Err(other),
    }
}

/// Before creating: a container that already exists is an error, a
/// missing one is what is wanted, and a failed lookup is passed on.
pub fn require_no_container(lookup: Result<String, LitterboxError>) -> (r: Result<(), LitterboxError>)
    ensures
        lookup matches Ok(id) ==> (r matches Err(LitterboxError::ContainerAlreadyExists(i)) && i@
            == id@),
        lookup matches Err(LitterboxError::NoContainerForName) ==> r is Ok,
        lookup matches Err(e) ==> !(e is NoContainerForName) ==> r == Err::<(), LitterboxError>(e),
{
    match lookup {
        Ok(id) => Err(LitterboxError::ContainerAlreadyExists(id)),
        Err(LitterboxError::NoContainerForName) => Ok(()),
        Err(other) => Err(other),
    }
}

/// How a finished runtime command ended: an unsuccessful exit is an error
/// that carries its status.
pub fn exit_result(success: bool, status: String) -> (r: Result<(), LitterboxError>)
    ensures
        success ==> r is Ok,
        !success ==> (r matches Err(LitterboxError::CommandFailed(st, cmd)) && st@ == status@
            && cmd@ == "podman"@),
{
    if success {
        Ok(())
    } else {
        Err(LitterboxError::CommandFailed(status, String::from_str("podman")))
    }
}

/// What a finished command printed: its standard output as text when it
/// succeeded, otherwise an error with its status and its error output.
pub fn extract_stdout(success: bool, status: String, stdout: Vec<u8>, stderr: String) -> (r: Result<
    String,
    LitterboxError,
>)
    ensures
        !success ==> (r matches Err(LitterboxError::PodmanError(st, e)) && st@ == status@ && e@
            == stderr@),
        success && valid_utf8(stdout@) ==> (r matches Ok(s) && s@ == decode_utf8(stdout@)),
        success && !valid_utf8(stdout@) ==> r matches Err(LitterboxError::ParseOutput(_)),
{
    if !success {
        return Err(LitterboxError::PodmanError(status, stderr));
    }
    match utf8_to_string(stdout) {
        Ok(s) => Ok(s),
        Err(_) => Err(LitterboxError::ParseOutput(String::from_str("standard output is not UTF-8"))),
    }
}

/// A fresh random name for an image or a container: `lbx-` and a word
/// pair with a number.
pub fn gen_random_name() -> (r: String)
    ensures
        r@.take(4) == "lbx-"@,
{
    let word = match random_name() {
        Some(w) => w,
        None => String::new(),
    };
    let r = concat("lbx-", word.as_str());
    proof {
        reveal_strlit("lbx-");
    }
    r
}

/// One line of the sandbox listing.
pub struct ContainerRow {
    pub name: String,
    pub container_id: String,
    pub container_names: String,
    pub image: String,
    pub image_id: String,
}

impl ContainerRow {
    /// The listing line of `value`: ids are cut to twelve characters and
    /// names joined with commas.
    pub fn from_details(value: &ContainerDetails) -> (r: ContainerRow)
        ensures
            r.name@ == value.labels.name@,
            r.container_id@ == value.id@.take(
                if value.id@.len() < 12 {
                    value.id@.len() as int
                } else {
                    12
                },
            ),
            r.container_names@ == join_with(string_views(value.names@), ","@),
            r.image@ == value.image@,
            r.image_id@ == value.image_id@.take(
                if value.image_id@.len() < 12 {
                    value.image_id@.len() as int
                } else {
                    12
                },
            ),
    {
        ContainerRow {
            name: value.labels.name.clone(),
            container_id: prefix_chars(value.id.as_str(), 12),
            container_names: join(&value.names, ","),
            image: value.image.clone(),
            image_id: prefix_chars(value.image_id.as_str(), 12),
        }
    }
}

/// The arguments of the command that builds a sandbox's image.
pub open spec fn build_args_spec(
    user: Seq<char>,
    password: Seq<char>,
    image_name: Seq<char>,
    lbx_name: Seq<char>,
    dockerfile: Seq<char>,
) -> Seq<Seq<char>> {
    seq![
        "build"@,
        "--build-arg"@,
        "USER="@ + user,
        "--build-arg"@,
        "PASSWORD="@ + password,
        "-t"@,
        image_name,
        "--label"@,
        "work.litterbox.name="@ + lbx_name,
        "-f"@,
        dockerfile,
    ]
}

pub fn build_args(user: &str, password: &str, image_name: &str, lbx_name: &str, dockerfile: &str) -> (r:
    Vec<String>)
    ensures
        string_views(r@) == build_args_spec(user@, password@, image_name@, lbx_name@, dockerfile@),
{
    let mut v: Vec<String> = Vec::new();
    push_str(&mut v, "build");
    push_str(&mut v, "--build-arg");
    push_string(&mut v, concat("USER=", user));
    push_str(&mut v, "--build-arg");
    push_string(&mut v, concat("PASSWORD=", password));
    push_str(&mut v, "-t");
    push_str(&mut v, image_name);
    push_str(&mut v, "--label");
    push_string(&mut v, concat("work.litterbox.name=", lbx_name));
    push_str(&mut v, "-f");
    push_str(&mut v, dockerfile);
    v
}

/// What the command that creates a sandbox's container is made from.
pub struct CreateOptions {
    pub container_name: String,
    pub lbx_name: String,
    pub network_mode: NetworkMode,
    pub ssh_sock_path: String,
    pub wayland_display: String,
    pub xdg_runtime_dir: String,
    pub home_path: String,
    pub user: String,
    pub support_tuntap: bool,
    pub support_ping: bool,
    pub packet_forwarding: bool,
    pub image_id: String,
}

pub open spec fn create_base_args(o: CreateOptions) -> Seq<Seq<char>> {
    seq![
        "create"@,
        "--tty"@,
        "--name"@,
        o.container_name@,
        "--userns=keep-id"@,
        "--device"@,
        "/dev/dri"@,
        "--hostname"@,
        "lbx-"@ + o.lbx_name@,
        "--network"@,
        o.network_mode.spec_podman_args(),
        "--security-opt=label=disable"@,
        "-e"@,
        "SSH_AUTH_SOCK=/tmp/ssh-agent.sock"@,
        "-v"@,
        o.ssh_sock_path@ + ":/tmp/ssh-agent.sock"@,
        "-e"@,
        "WAYLAND_DISPLAY="@ + o.wayland_display@,
        "-e"@,
        "XDG_RUNTIME_DIR=/tmp"@,
        "-v"@,
        o.xdg_runtime_dir@ + "/"@ + o.wayland_display@ + ":/tmp/"@ + o.wayland_display@,
        "-v"@,
        "/dev/dri:/dev/dri"@,
        "-v"@,
        o.home_path@ + ":/home/"@ + o.user@,
        "--label"@,
        "work.litterbox.name="@ + o.lbx_name@,
    ]
}

/// The arguments of the command that creates a sandbox's container: the
/// fixed ones, those of each capability asked for, and the image last.
pub open spec fn create_args_spec(o: CreateOptions) -> Seq<Seq<char>> {
    create_base_args(o) + (if o.support_tuntap {
        seq!["--cap-add=NET_ADMIN"@, "--device"@, "/dev/net/tun"@]
    } else {
        seq![]
    }) + (if o.support_ping {
        seq!["--cap-add=NET_RAW"@]
    } else {
        seq![]
    }) + (if o.packet_forwarding {
        seq![
            "--sysctl"@,
            "net.ipv4.ip_forward=1"@,
            "--sysctl"@,
            "net.ipv6.conf.all.forwarding=1"@,
        ]
    } else {
        seq![]
    }) + seq![o.image_id@]
}

pub fn create_args(o: &CreateOptions) -> (r: Vec<String>)
    ensures
        string_views(r@) == create_args_spec(*o),
{
    let mut v: Vec<String> = Vec::new();
    push_str(&mut v, "create");
    push_str(&mut v, "--tty");
    push_str(&mut v, "--name");
    push_str(&mut v, o.container_name.as_str());
    push_str(&mut v, "--userns=keep-id");
    push_str(&mut v, "--device");
    push_str(&mut v, "/dev/dri");
    push_str(&mut v, "--hostname");
    push_string(&mut v, concat("lbx-", o.lbx_name.as_str()));
    push_str(&mut v, "--network");
    push_str(&mut v, o.network_mode.podman_args());
    push_str(&mut v, "--security-opt=label=disable");
    push_str(&mut v, "-e");
    push_str(&mut v, "SSH_AUTH_SOCK=/tmp/ssh-agent.sock");
    push_str(&mut v, "-v");
    push_string(&mut v, concat(o.ssh_sock_path.as_str(), ":/tmp/ssh-agent.sock"));
    push_str(&mut v, "-e");
    push_string(&mut v, concat("WAYLAND_DISPLAY=", o.wayland_display.as_str()));
    push_str(&mut v, "-e");
    push_str(&mut v, "XDG_RUNTIME_DIR=/tmp");
    push_str(&mut v, "-v");
    let display_src = concat3(o.xdg_runtime_dir.as_str(), "/", o.wayland_display.as_str());
    push_string(&mut v, concat3(display_src.as_str(), ":/tmp/", o.wayland_display.as_str()));
    push_str(&mut v, "-v");
    push_str(&mut v, "/dev/dri:/dev/dri");
    push_str(&mut v, "-v");
    push_string(&mut v, concat3(o.home_path.as_str(), ":/home/", o.user.as_str()));
    push_str(&mut v, "--label");
    push_string(&mut v, concat("work.litterbox.name=", o.lbx_name.as_str()));
    let ghost base = string_views(v@);
    assert(base == create_base_args(*o));
    if o.support_tuntap {
        push_str(&mut v, "--cap-add=NET_ADMIN");
        push_str(&mut v, "--device");
        push_str(&mut v, "/dev/net/tun");
    }
    let ghost with_tuntap = string_views(v@);
    assert(with_tuntap =~= base + (if o.support_tuntap {
        seq!["--cap-add=NET_ADMIN"@, "--device"@, "/dev/net/tun"@]
    } else {
        seq![]
    }));
    if o.support_ping {
        push_str(&mut v, "--cap-add=NET_RAW");
    }
    let ghost with_ping = string_views(v@);
    assert(with_ping =~= with_tuntap + (if o.support_ping {
        seq!["--cap-add=NET_RAW"@]
    } else {
        seq![]
    }));
    if o.packet_forwarding {
        push_str(&mut v, "--sysctl");
        push_str(&mut v, "net.ipv4.ip_forward=1");
        push_str(&mut v, "--sysctl");
        push_str(&mut v, "net.ipv6.conf.all.forwarding=1");
    }
    let ghost with_forwarding = string_views(v@);
    assert(with_forwarding =~= with_ping + (if o.packet_forwarding {
        seq![
            "--sysctl"@,
            "net.ipv4.ip_forward=1"@,
            "--sysctl"@,
            "net.ipv6.conf.all.forwarding=1"@,
        ]
    } else {
        seq![]
    }));
    push_str(&mut v, o.image_id.as_str());
    assert(string_views(v@) =~= create_args_spec(*o));
    v
}

/// The dockerfile templates offered for a new sandbox.
#[derive(PartialEq, Eq, Structural, Clone, Copy, Debug)]
pub enum Template {
    OpenSuseTumbleweed,
    UbuntuLts,
}

impl Template {
    pub open spec fn spec_name(self) -> Seq<char> {
        match self {
            Template::OpenSuseTumbleweed => "OpenSUSE Tumbleweed"@,
            Template::UbuntuLts => "Ubuntu LTS"@,
        }
    }

    /// The name shown when choosing a template.
    pub fn name(&self) -> (r: &'static str)
        ensures
            r@ == self.spec_name(),
    {
        match self {
            Template::OpenSuseTumbleweed => "OpenSUSE Tumbleweed",
            Template::UbuntuLts => "Ubuntu LTS",
        }
    }
}

} // verus!

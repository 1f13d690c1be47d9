use litterbox::podman::{
    build_args, create_args, exit_result, extract_stdout, gen_random_name, require_no_container,
    require_no_image, single_container_id, single_image_id,
};
use litterbox::{
    AllContainers, AllImages, ContainerDetails, ContainerRow, CreateOptions, ImageDetails,
    LitterboxError, LitterboxLabels, NetworkMode, Template,
};

fn container(id: &str) -> ContainerDetails {
    ContainerDetails {
        id: id.to_string(),
        image: "localhost/lbx-img:latest".to_string(),
        image_id: "0123456789abcdef0123".to_string(),
        names: vec!["one".to_string(), "two".to_string()],
        labels: LitterboxLabels { name: "box".to_string() },
    }
}

#[test]
fn exactly_one_container_or_image_is_expected() {
    assert!(matches!(
        single_container_id(&AllContainers(vec![])),
        Err(LitterboxError::NoContainerForName)
    ));
    assert_eq!(single_container_id(&AllContainers(vec![container("c1")])).unwrap(), "c1");
    assert!(matches!(
        single_container_id(&AllContainers(vec![container("c1"), container("c2")])),
        Err(LitterboxError::MultipleContainersForName)
    ));
    assert!(matches!(single_image_id(&AllImages(vec![])), Err(LitterboxError::NoImageForName)));
    assert_eq!(
        single_image_id(&AllImages(vec![ImageDetails { id: "i1".to_string() }])).unwrap(),
        "i1"
    );
    assert!(matches!(
        single_image_id(&AllImages(vec![
            ImageDetails { id: "i1".to_string() },
            ImageDetails { id: "i2".to_string() }
        ])),
        Err(LitterboxError::MultipleImagesForName)
    ));
}

#[test]
fn existing_image_or_container_blocks_a_build() {
    assert!(matches!(
        require_no_image(Ok("i1".to_string())),
        Err(LitterboxError::ImageAlreadyExists(i)) if i == "i1"
    ));
    assert!(require_no_image(Err(LitterboxError::NoImageForName)).is_ok());
    assert!(matches!(
        require_no_image(Err(LitterboxError::MultipleImagesForName)),
        Err(LitterboxError::MultipleImagesForName)
    ));
    assert!(matches!(
        require_no_container(Ok("c1".to_string())),
        Err(LitterboxError::ContainerAlreadyExists(c)) if c == "c1"
    ));
    assert!(require_no_container(Err(LitterboxError::NoContainerForName)).is_ok());
}

#[test]
fn listing_rows_shorten_ids_and_join_names() {
    let row = ContainerRow::from_details(&container("fedcba9876543210"));
    assert_eq!(row.name, "box");
    assert_eq!(row.container_id, "fedcba987654");
    assert_eq!(row.container_names, "one,two");
    assert_eq!(row.image, "localhost/lbx-img:latest");
    assert_eq!(row.image_id, "0123456789ab");
    let short = ContainerRow::from_details(&container("abc"));
    assert_eq!(short.container_id, "abc");
}

#[test]
fn build_arguments() {
    assert_eq!(
        build_args("user", "secret", "lbx-img", "box", "/d/box.Dockerfile"),
        vec![
            "build",
            "--build-arg",
            "USER=user",
            "--build-arg",
            "PASSWORD=secret",
            "-t",
            "lbx-img",
            "--label",
            "work.litterbox.name=box",
            "-f",
            "/d/box.Dockerfile"
        ]
    );
}

#[test]
fn create_arguments_follow_the_options() {
    let mut o = CreateOptions {
        container_name: "lbx-c".to_string(),
        lbx_name: "box".to_string(),
        network_mode: NetworkMode::PastaWithForwarding,
        ssh_sock_path: "/h/Litterbox/.ssh/box.sock".to_string(),
        wayland_display: "wayland-0".to_string(),
        xdg_runtime_dir: "/run/user/1000".to_string(),
        home_path: "/h/Litterbox/homes/box".to_string(),
        user: "user".to_string(),
        support_tuntap: false,
        support_ping: false,
        packet_forwarding: false,
        image_id: "img".to_string(),
    };
    let plain = create_args(&o);
    assert_eq!(plain.len(), 29);
    assert_eq!(plain[8], "lbx-box");
    assert_eq!(plain[10], "pasta:-t,auto,-u,auto");
    assert_eq!(plain[15], "/h/Litterbox/.ssh/box.sock:/tmp/ssh-agent.sock");
    assert_eq!(plain[21], "/run/user/1000/wayland-0:/tmp/wayland-0");
    assert_eq!(plain[25], "/h/Litterbox/homes/box:/home/user");
    assert_eq!(plain[27], "work.litterbox.name=box");
    assert_eq!(plain[28], "img");

    o.support_tuntap = true;
    o.support_ping = true;
    o.packet_forwarding = true;
    let all = create_args(&o);
    assert_eq!(
        all[28..].to_vec(),
        vec![
            "--cap-add=NET_ADMIN",
            "--device",
            "/dev/net/tun",
            "--cap-add=NET_RAW",
            "--sysctl",
            "net.ipv4.ip_forward=1",
            "--sysctl",
            "net.ipv6.conf.all.forwarding=1",
            "img"
        ]
    );
}

#[test]
fn command_output_is_read_as_text() {
    assert_eq!(
        extract_stdout(true, "0".to_string(), b"[]\n".to_vec(), String::new()).unwrap(),
        "[]\n"
    );
    assert!(matches!(
        extract_stdout(true, "0".to_string(), vec![0xff, 0xfe], String::new()),
        Err(LitterboxError::ParseOutput(_))
    ));
    assert!(matches!(
        extract_stdout(false, "exit status: 125".to_string(), vec![], "boom".to_string()),
        Err(LitterboxError::PodmanError(s, e)) if s == "exit status: 125" && e == "boom"
    ));
}

#[test]
fn random_names_carry_the_prefix() {
    let name = gen_random_name();
    assert!(name.starts_with("lbx-"));
    assert!(name.len() > "lbx-".len());
}

#[test]
fn template_names() {
    assert_eq!(Template::OpenSuseTumbleweed.name(), "OpenSUSE Tumbleweed");
    assert_eq!(Template::UbuntuLts.name(), "Ubuntu LTS");
}

#[test]
fn unsuccessful_exit_is_an_error() {
    assert!(exit_result(true, "exit status: 0".to_string()).is_ok());
    assert!(matches!(
        exit_result(false, "exit status: 1".to_string()),
        Err(LitterboxError::CommandFailed(s, c)) if s == "exit status: 1" && c == "podman"
    ));
}

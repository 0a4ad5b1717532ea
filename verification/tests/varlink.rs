use bcvk::launch::{
    CommonPodmanOptions, CommonVmOpts, Format, InstallOptions, MemoryOpts, RunEphemeralOpts,
    RunOutcome, ToDiskAdditionalOpts, ToDiskOpts,
};
use bcvk::varlink_ipc::{
    disk_format, ephemeral_join_err, instance_type, unknown_instance_type_error,
    unsupported_format_error, BcvkService, ContainerListEntry, EphemeralError, EphemeralRunOpts,
    GetSshConnectionInfoReply, ImageListEntry, ImagesError, ListReply, PsReply, RunReply,
    ToDiskError, ToDiskReply, VARLINK_API_VERSION,
};
use camino::Utf8PathBuf;
use color_eyre::eyre::Report;
use tokio::task::JoinError;

fn service() -> BcvkService {
    BcvkService {
        default_memory: "4G".to_string(),
        container_statedir: "/var/lib/state".to_string(),
    }
}

fn strings(texts: &[&str]) -> Vec<String> {
    texts.iter().map(|text| text.to_string()).collect()
}

/// What comes of a task that panics.
fn panicked() -> JoinError {
    let runtime = tokio::runtime::Builder::new_current_thread()
        .build()
        .unwrap();
    runtime.block_on(async {
        tokio::task::spawn_blocking(|| panic!("boom"))
            .await
            .unwrap_err()
    })
}

fn failure() -> Report {
    Report::msg("no such image").wrap_err("podman failed")
}

#[test]
fn varlink_version_is_consistent() {
    assert_eq!(
        VARLINK_API_VERSION, "0.1.0",
        "VARLINK_API_VERSION must match the #[zlink::service] version attribute"
    );
}

#[test]
fn images_are_listed_by_name_in_order() {
    let entries = vec![
        ImageListEntry {
            names: Some(strings(&["quay.io/a:1", "quay.io/a:latest"])),
        },
        ImageListEntry { names: None },
        ImageListEntry {
            names: Some(Vec::new()),
        },
        ImageListEntry {
            names: Some(strings(&["quay.io/b:1"])),
        },
    ];
    assert_eq!(
        service().list(Ok(Ok(entries))),
        Ok(ListReply {
            images: strings(&["quay.io/a:1", "quay.io/a:latest", "quay.io/b:1"])
        })
    );
    assert_eq!(
        service().list(Ok(Ok(Vec::new()))),
        Ok(ListReply { images: Vec::new() })
    );
}

#[test]
fn image_listing_failures_are_podman_errors() {
    assert_eq!(
        service().list(Ok(Err(failure()))),
        Err(ImagesError::PodmanError {
            message: "podman failed".to_string()
        })
    );
    let error = panicked();
    let message = error.to_string();
    assert!(message.contains("panicked"), "{message}");
    assert_eq!(
        service().list(Err(error)),
        Err(ImagesError::PodmanError { message })
    );
}

#[test]
fn containers_are_listed_by_id() {
    let containers = vec![
        ContainerListEntry {
            id: "abc".to_string(),
        },
        ContainerListEntry {
            id: "def".to_string(),
        },
    ];
    assert_eq!(
        service().ps(Ok(Ok(containers))),
        Ok(PsReply {
            container_ids: strings(&["abc", "def"])
        })
    );
}

#[test]
fn container_listing_failures_are_podman_errors() {
    assert_eq!(
        service().ps(Ok(Err(failure()))),
        Err(EphemeralError::PodmanError {
            message: "podman failed".to_string()
        })
    );
    let error = panicked();
    let message = error.to_string();
    assert_eq!(
        service().ps(Err(error)),
        Err(EphemeralError::PodmanError { message })
    );
}

#[test]
fn join_error_keeps_its_text() {
    let error = panicked();
    let message = error.to_string();
    assert!(message.contains("boom"), "{message}");
    assert_eq!(
        ephemeral_join_err(error),
        EphemeralError::PodmanError { message }
    );
}

/// The launch that a call without options asks for.
fn plain_launch() -> RunEphemeralOpts<String> {
    RunEphemeralOpts {
        image: "quay.io/a:1".to_string(),
        common: CommonVmOpts {
            itype: None,
            memory: MemoryOpts {
                memory: "4G".to_string(),
            },
            vcpus: None,
            console: false,
            ssh_keygen: false,
        },
        podman: CommonPodmanOptions {
            detach: true,
            name: None,
            label: Vec::new(),
            network: None,
            env: Vec::new(),
            rm: false,
        },
        debug_entrypoint: None,
        bind_mounts: Vec::new(),
        ro_bind_mounts: Vec::new(),
        systemd_units_dir: None,
        bind_storage_ro: false,
        add_swap: None,
        mount_disk_files: Vec::new(),
        kernel_args: Vec::new(),
        ignition_config: None,
        host_dns_servers: None,
    }
}

fn no_types(_name: &str) -> Result<String, ()> {
    Err(())
}

#[test]
fn run_options_are_optional() {
    let image = "quay.io/a:1";
    assert_eq!(
        service().run(image.to_string(), None, no_types),
        Ok(plain_launch())
    );
    assert_eq!(
        service().run(
            image.to_string(),
            Some(EphemeralRunOpts::default()),
            no_types
        ),
        Ok(plain_launch())
    );
}

#[test]
fn every_run_option_is_passed_on() {
    let opts = EphemeralRunOpts {
        ssh_keygen: Some(true),
        name: Some("vm".to_string()),
        label: Some(strings(&["a=b"])),
        network: Some("host".to_string()),
        env: Some(strings(&["X=1", "Y=2"])),
        rm: Some(true),
        itype: Some("u1.small".to_string()),
        memory: Some("2048M".to_string()),
        vcpus: Some(2),
        console: Some(true),
        bind: Some(strings(&["/rw:rw"])),
        ro_bind: Some(strings(&["/ro"])),
        mount_disk_files: Some(strings(&["/disk:d"])),
        kargs: Some(strings(&["quiet"])),
        add_swap: Some("1G".to_string()),
    };
    let launch = service()
        .run("quay.io/b:1".to_string(), Some(opts), |name| {
            Ok::<String, ()>(format!("type {name}"))
        })
        .unwrap();
    assert_eq!(
        launch,
        RunEphemeralOpts {
            image: "quay.io/b:1".to_string(),
            common: CommonVmOpts {
                itype: Some("type u1.small".to_string()),
                memory: MemoryOpts {
                    memory: "2048M".to_string(),
                },
                vcpus: Some(2),
                console: true,
                ssh_keygen: true,
            },
            podman: CommonPodmanOptions {
                detach: true,
                name: Some("vm".to_string()),
                label: strings(&["a=b"]),
                network: Some("host".to_string()),
                env: strings(&["X=1", "Y=2"]),
                rm: true,
            },
            bind_mounts: strings(&["/rw:rw"]),
            ro_bind_mounts: strings(&["/ro"]),
            add_swap: Some("1G".to_string()),
            mount_disk_files: strings(&["/disk:d"]),
            kernel_args: strings(&["quiet"]),
            ..plain_launch()
        }
    );
}

#[test]
fn unknown_instance_type_is_refused() {
    let opts = EphemeralRunOpts {
        itype: Some("u9.\"huge\"".to_string()),
        ..Default::default()
    };
    assert_eq!(
        service().run("a".to_string(), Some(opts), no_types),
        Err(EphemeralError::PodmanError {
            message: r#"unknown instance type: "u9.\"huge\"", try e.g. "u1.small""#.to_string()
        })
    );
    assert_eq!(instance_type::<u8, ()>("u1.small", Ok(7)), Ok(7));
    assert_eq!(
        instance_type::<u8, ()>("x", Err(())),
        Err(unknown_instance_type_error("\"x\""))
    );
}

#[test]
fn launched_container_is_reported() {
    assert_eq!(
        service().run_reply(Ok(Ok("abc".to_string()))),
        Ok(RunReply {
            container_id: "abc".to_string()
        })
    );
}

#[test]
fn launch_failures_are_podman_errors() {
    assert_eq!(
        service().run_reply(Ok(Err(failure()))),
        Err(EphemeralError::PodmanError {
            message: "podman failed".to_string()
        })
    );
    let error = panicked();
    let message = error.to_string();
    assert_eq!(
        service().run_reply(Err(error)),
        Err(EphemeralError::PodmanError { message })
    );
}

#[test]
fn ssh_connection_follows_the_conventions() {
    assert_eq!(
        service().get_ssh_connection_info("abc".to_string()),
        Ok(GetSshConnectionInfoReply {
            container_id: "abc".to_string(),
            key_path: "/run/tmproot/var/lib/state/ssh".to_string(),
            user: "root".to_string(),
            host: "127.0.0.1".to_string(),
            port: 2222,
        })
    );
}

#[test]
fn disk_formats_are_raw_and_qcow2() {
    assert_eq!(disk_format(None), Ok(Format::Raw));
    assert_eq!(disk_format(Some("raw".to_string())), Ok(Format::Raw));
    assert_eq!(disk_format(Some("qcow2".to_string())), Ok(Format::Qcow2));
    for name in ["", "RAW", "raw ", "qcow", "vdi"] {
        let refused = disk_format(Some(name.to_string()));
        assert_eq!(refused, Err(unsupported_format_error(&format!("{name:?}"))));
    }
}

#[test]
fn unsupported_disk_format_is_refused() {
    let refused = service().to_disk(
        "anything:latest".to_string(),
        "/disk.img",
        Some("vdi".to_string()),
        None,
        None,
        None,
        None,
    );
    assert_eq!(
        refused,
        Err(ToDiskError::Failed {
            message: r#"unsupported disk format: "vdi", expected "raw" or "qcow2""#.to_string()
        })
    );
}

#[test]
fn every_disk_parameter_is_passed_on() {
    let request = service().to_disk(
        "quay.io/a:1".to_string(),
        "/disk.qcow2",
        Some("qcow2".to_string()),
        Some("10G".to_string()),
        Some("ext4".to_string()),
        Some("8G".to_string()),
        Some(strings(&["quiet"])),
    );
    assert_eq!(
        request,
        Ok(ToDiskOpts {
            source_image: "quay.io/a:1".to_string(),
            target_disk: Utf8PathBuf::from("/disk.qcow2"),
            install: InstallOptions {
                filesystem: Some("ext4".to_string()),
                root_size: Some("8G".to_string()),
                karg: strings(&["quiet"]),
            },
            additional: ToDiskAdditionalOpts {
                disk_size: Some("10G".to_string()),
                format: Format::Qcow2,
                memory: MemoryOpts {
                    memory: "4G".to_string(),
                },
            },
        })
    );
}

#[test]
fn disk_parameters_are_optional() {
    let request = service().to_disk("a".to_string(), "/d", None, None, None, None, None);
    assert_eq!(
        request,
        Ok(ToDiskOpts {
            source_image: "a".to_string(),
            target_disk: Utf8PathBuf::from("/d"),
            install: InstallOptions {
                filesystem: None,
                root_size: None,
                karg: Vec::new(),
            },
            additional: ToDiskAdditionalOpts {
                disk_size: None,
                format: Format::Raw,
                memory: MemoryOpts {
                    memory: "4G".to_string(),
                },
            },
        })
    );
}

#[test]
fn disk_reply_says_whether_the_disk_was_reused() {
    for (outcome, cached) in [(RunOutcome::Created, false), (RunOutcome::Cached, true)] {
        assert_eq!(
            service().to_disk_reply("/disk.img".to_string(), Ok(Ok(outcome))),
            Ok(ToDiskReply {
                path: "/disk.img".to_string(),
                cached
            })
        );
    }
}

#[test]
fn disk_failures_tell_their_causes() {
    assert_eq!(
        service().to_disk_reply("/disk.img".to_string(), Ok(Err(failure()))),
        Err(ToDiskError::Failed {
            message: "podman failed: no such image".to_string()
        })
    );
    let error = panicked();
    let message = error.to_string();
    assert_eq!(
        service().to_disk_reply("/disk.img".to_string(), Err(error)),
        Err(ToDiskError::Failed { message })
    );
}

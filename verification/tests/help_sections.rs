use bcvk::activation::try_activated_listener;
use bcvk::podman_hint::{with_hint_if, HINT_NOTE};
use bcvk::varlink_ipc::{BcvkService, EphemeralError, ToDiskError};
use camino::Utf8Path;
use color_eyre::eyre::Report;
use libsystemd::errors::SdError;

fn hint_adds_a_note_and_a_suggestion() {
    let stderr = "Error: statfs /usr/bin/bcvk: no such file or directory\n";
    let r = with_hint_if(Report::msg("podman failed"), stderr, |_: &Utf8Path| true);
    let printed = format!("{r:?}");
    let note = "This happens when bcvk runs in a toolbox or distrobox container and podman is \
                forwarded to the host, or when podman is a remote client. bcvk needs to run \
                where podman runs.";
    let suggestion = "Install bcvk on the host alongside podman and QEMU (e.g. `sudo dnf install bcvk`, \
                      or add it to your image on image-based systems) and run it there; from a toolbox \
                      you can use `flatpak-spawn --host bcvk ...`, and from a distrobox \
                      `distrobox-host-exec bcvk ...`. See \
                      https://github.com/bootc-dev/bcvk/blob/main/docs/src/installation.md#toolbox-distrobox-and-remote-podman";
    assert_eq!(HINT_NOTE, note);
    let note_at = printed.find(note).unwrap();
    let suggestion_at = printed.find(suggestion).unwrap();
    assert!(note_at < suggestion_at);
}

fn no_hint_adds_no_sections() {
    let stderr = "Error: statfs /usr/bin/bcvk: no such file or directory\n";
    let r = with_hint_if(Report::msg("podman failed"), stderr, |_: &Utf8Path| false);
    let printed = format!("{r:?}");
    assert!(!printed.contains("This happens"));
    assert!(!printed.contains("Install bcvk"));
}

fn client_is_told_the_hint() {
    let service = BcvkService {
        default_memory: "4G".to_string(),
        container_statedir: "/state".to_string(),
    };
    let stderr = "statfs /b: no such file or directory";
    let hint = "podman could not find /b, but bcvk can see it: podman is not seeing bcvk's filesystem";
    let failure = with_hint_if(Report::msg("podman failed"), stderr, |_: &Utf8Path| true);
    assert_eq!(
        service.run_reply(Ok(Err(failure))),
        Err(EphemeralError::PodmanError {
            message: hint.to_string()
        })
    );
    let failure = with_hint_if(Report::msg("podman failed"), stderr, |_: &Utf8Path| true);
    assert_eq!(
        service.to_disk_reply("/d".to_string(), Ok(Err(failure))),
        Err(ToDiskError::Failed {
            message: format!("{hint}: podman failed")
        })
    );
}

fn activation_failure_has_no_sections() {
    let failed = try_activated_listener::<i32>(Err(SdError::from("bad LISTEN_FDS")));
    let printed = format!("{:?}", failed.unwrap_err());
    assert!(printed.contains("Failed to receive activation fds"));
    assert!(!printed.contains("Note"));
    assert!(!printed.contains("Suggestion"));
}

/// The hook can be installed once in a process, and before the first report is
/// made, so all that depends on it is tested here.
#[test]
fn reports_with_color_eyre() {
    color_eyre::install().unwrap();
    hint_adds_a_note_and_a_suggestion();
    no_hint_adds_no_sections();
    client_is_told_the_hint();
    activation_failure_has_no_sections();
}

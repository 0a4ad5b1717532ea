//! Varlink IPC interface for bcvk.
//!
//! Exposes image listing, ephemeral VM launching, and disk image creation
//! using the Varlink protocol. Three interfaces are provided:
//!
//! - `io.bootc.vk.images` -- list bootc container image names
//! - `io.bootc.vk.ephemeral` -- list and launch ephemeral VM containers
//! - `io.bootc.vk.todisk` -- create bootable disk images from container images
//!
//! The API is intentionally minimal: it exposes only the operations that
//! require bcvk-specific knowledge (filtering by label, constructing the
//! right `podman run` invocation, orchestrating `bootc install`). Everything
//! else -- inspecting images, removing containers, executing commands -- is
//! left to `podman` directly.
//!
//! A call is answered in two steps where it needs work that blocks. The first
//! step turns the parameters into a request to the rest of bcvk, or refuses
//! them. The request is then carried out on a thread of its own, and the second
//! step turns what came of it into the reply.
use crate::external::{
    collects_help, join_error_text, join_error_to_string, quote, quoted, report_chain, report_text,
    report_text_with_causes, report_to_string, report_to_string_with_causes, utf8_path_buf,
};
use crate::launch::{
    creates_disk, or_empty, or_off, CommonPodmanOptions, CommonVmOpts, Format, InstallOptions,
    MemoryOpts, RunEphemeralOpts, RunOutcome, ToDiskAdditionalOpts, ToDiskOpts,
};
use crate::podman_hint::{hint_message, hinted, law_hint_keeps_the_error};
use crate::text::{join, occurs_at};
use color_eyre::eyre::Report;
use tokio::task::JoinError;
use vstd::prelude::*;

verus! {

/// Version of the varlink API itself (independent of the crate version).
pub const VARLINK_API_VERSION: &'static str = "0.1.0";

/// Reply for the images `List` method.
#[derive(Debug, PartialEq, Eq)]
pub struct ListReply {
    /// Image names/tags that have `containers.bootc=1`.
    /// Each entry is a full image reference (e.g. `quay.io/centos-bootc/centos-bootc:stream9`).
    /// Dangling images (no tags) are omitted.
    pub images: Vec<String>,
}

/// Reply for the ephemeral `Ps` method.
#[derive(Debug, PartialEq, Eq)]
pub struct PsReply {
    /// Container IDs of running ephemeral VMs (label `bcvk.ephemeral=1`).
    /// Use `podman inspect` for further details.
    pub container_ids: Vec<String>,
}

/// Optional configuration for launching an ephemeral VM.
///
/// All fields are optional and default to sensible values.
/// The VM always runs detached (no TTY/interactive mode).
#[derive(Debug, PartialEq, Eq)]
pub struct EphemeralRunOpts {
    /// Generate SSH keypair and inject into the VM.
    pub ssh_keygen: Option<bool>,
    /// Assign a name to the container.
    pub name: Option<String>,
    /// Metadata labels in `key=value` form.
    pub label: Option<Vec<String>>,
    /// Podman network configuration.
    pub network: Option<String>,
    /// Environment variables in `key=value` form.
    pub env: Option<Vec<String>>,
    /// Automatically remove container when it exits.
    pub rm: Option<bool>,
    /// Instance type (e.g. `"u1.small"`, `"u1.medium"`).
    pub itype: Option<String>,
    /// Memory size (e.g. `"4G"`, `"2048M"`); overridden by `itype`.
    pub memory: Option<String>,
    /// Number of vCPUs; overridden by `itype`.
    pub vcpus: Option<u32>,
    /// Connect QEMU console to container stdio (visible via `podman logs`/`attach`).
    pub console: Option<bool>,
    /// Read-write host bind mounts (`HOST_PATH[:NAME]`).
    pub bind: Option<Vec<String>>,
    /// Read-only host bind mounts (`HOST_PATH[:NAME]`).
    pub ro_bind: Option<Vec<String>>,
    /// Disk files as virtio-blk devices (`FILE[:NAME]`).
    pub mount_disk_files: Option<Vec<String>>,
    /// Additional kernel command line arguments.
    pub kargs: Option<Vec<String>>,
    /// Allocate swap of the given size (e.g. `"1G"`).
    pub add_swap: Option<String>,
}

/// The configuration in which nothing is asked for.
pub open spec fn no_run_opts() -> EphemeralRunOpts {
    EphemeralRunOpts {
        ssh_keygen: None,
        name: None,
        label: None,
        network: None,
        env: None,
        rm: None,
        itype: None,
        memory: None,
        vcpus: None,
        console: None,
        bind: None,
        ro_bind: None,
        mount_disk_files: None,
        kargs: None,
        add_swap: None,
    }
}

impl Default for EphemeralRunOpts {
    fn default() -> (opts: Self)
        ensures
            opts == no_run_opts(),
    {
        EphemeralRunOpts {
            ssh_keygen: None,
            name: None,
            label: None,
            network: None,
            env: None,
            rm: None,
            itype: None,
            memory: None,
            vcpus: None,
            console: None,
            bind: None,
            ro_bind: None,
            mount_disk_files: None,
            kargs: None,
            add_swap: None,
        }
    }
}

/// Reply for the ephemeral `Run` method.
#[derive(Debug, PartialEq, Eq)]
pub struct RunReply {
    /// Container ID of the launched ephemeral VM.
    pub container_id: String,
}

/// Reply for the ephemeral `GetSshConnectionInfo` method.
#[derive(Debug, PartialEq, Eq)]
pub struct GetSshConnectionInfoReply {
    /// Container ID to use with `podman exec`.
    pub container_id: String,
    /// Path to the SSH private key *inside* the container.
    pub key_path: String,
    /// SSH user to connect as.
    pub user: String,
    /// SSH host (inside the container).
    pub host: String,
    /// SSH port.
    pub port: u16,
}

/// Reply for the `io.bootc.vk.todisk` `ToDisk` method.
#[derive(Debug, PartialEq, Eq)]
pub struct ToDiskReply {
    /// Absolute path to the created (or reused) disk image.
    pub path: String,
    /// Whether an existing cached disk image was reused.
    pub cached: bool,
}

/// Errors returned by the images interface.
#[derive(Debug, PartialEq, Eq)]
pub enum ImagesError {
    /// An error occurred when calling podman.
    PodmanError {
        /// Human-readable error description.
        message: String,
    },
}

/// Errors returned by the ephemeral interface.
#[derive(Debug, PartialEq, Eq)]
pub enum EphemeralError {
    /// An error occurred when calling podman.
    PodmanError {
        /// Human-readable error description.
        message: String,
    },
}

/// Errors returned by the todisk interface.
#[derive(Debug, PartialEq, Eq)]
pub enum ToDiskError {
    /// The disk image creation failed.
    Failed {
        /// Human-readable error description.
        message: String,
    },
}

/// A container image with the label `containers.bootc=1`.
#[derive(Debug, PartialEq, Eq)]
pub struct ImageListEntry {
    /// Names/tags of the image; a dangling image has none, or an empty list.
    pub names: Option<Vec<String>>,
}

/// A running container with the label `bcvk.ephemeral=1`.
#[derive(Debug, PartialEq, Eq)]
pub struct ContainerListEntry {
    /// ID of the container.
    pub id: String,
}

/// The names of all the images, in order.
pub open spec fn image_names(entries: Seq<ImageListEntry>) -> Seq<String> {
    entries.map_values(|entry: ImageListEntry| or_empty(entry.names)).flatten()
}

/// What a client that asks for an instance type that does not exist is told.
/// `quotation` is the name that it gave, in quotation marks.
pub open spec fn unknown_instance_type(quotation: Seq<char>) -> Seq<char> {
    "unknown instance type: "@ + quotation + ", try e.g. \"u1.small\""@
}

/// What a client that asks for a disk format that does not exist is told.
/// `quotation` is the name that it gave, in quotation marks.
pub open spec fn unsupported_format(quotation: Seq<char>) -> Seq<char> {
    "unsupported disk format: "@ + quotation + ", expected \"raw\" or \"qcow2\""@
}

/// A client that is told `message` is told what the report says: the error
/// itself, without its causes, where the report has `color_eyre`'s handler.
pub open spec fn tells(message: Seq<char>, report: Report) -> bool {
    &&& message == report_text(report)
    &&& collects_help(report) ==> seq![message].is_prefix_of(report_chain(report))
}

/// A client that is told `message` is told what the report says in full: the
/// error and all its causes, where the report has `color_eyre`'s handler.
pub open spec fn tells_with_causes(message: Seq<char>, report: Report) -> bool {
    &&& message == report_text_with_causes(report)
    &&& collects_help(report) ==> message == join(report_chain(report), ": "@)
}

/// The disk format of that name. Where none is named it is the raw one.
pub open spec fn named_format(name: Option<Seq<char>>) -> Option<Format> {
    match name {
        None => Some(Format::Raw),
        Some(name) => if name == "raw"@ {
            Some(Format::Raw)
        } else if name == "qcow2"@ {
            Some(Format::Qcow2)
        } else {
            None
        },
    }
}

/// The options to go by, of those that came with a `Run` call.
pub open spec fn given_opts(opts: Option<EphemeralRunOpts>) -> EphemeralRunOpts {
    match opts {
        Some(opts) => opts,
        None => no_run_opts(),
    }
}

/// `request` is the launch that `opts` asks for: detached, with what `opts`
/// sets, and with the rest of what a request names off or absent. Options of
/// the VM and of podman that a request does not name stay at their defaults.
pub open spec fn launches<I>(
    request: RunEphemeralOpts<I>,
    image: String,
    opts: EphemeralRunOpts,
    itype: Option<I>,
    default_memory: Seq<char>,
) -> bool {
    &&& request.image == image
    &&& request.common.itype == itype
    &&& request.common.memory.memory@ == match opts.memory {
        Some(memory) => memory@,
        None => default_memory,
    }
    &&& request.common.vcpus == opts.vcpus
    &&& request.common.console == or_off(opts.console)
    &&& request.common.ssh_keygen == or_off(opts.ssh_keygen)
    &&& request.podman.detach
    &&& request.podman.name == opts.name
    &&& request.podman.label@ == or_empty(opts.label)
    &&& request.podman.network == opts.network
    &&& request.podman.env@ == or_empty(opts.env)
    &&& request.podman.rm == or_off(opts.rm)
    &&& request.debug_entrypoint is None
    &&& request.bind_mounts@ == or_empty(opts.bind)
    &&& request.ro_bind_mounts@ == or_empty(opts.ro_bind)
    &&& request.systemd_units_dir is None
    &&& !request.bind_storage_ro
    &&& request.add_swap == opts.add_swap
    &&& request.mount_disk_files@ == or_empty(opts.mount_disk_files)
    &&& request.kernel_args@ == or_empty(opts.kargs)
    &&& request.ignition_config is None
    &&& request.host_dns_servers is None
}

/// The error of a `Run` call that asks for an instance type that does not
/// exist. `quotation` is the name that it gave, in quotation marks.
pub fn unknown_instance_type_error(quotation: &str) -> (error: EphemeralError)
    ensures
        error matches EphemeralError::PodmanError { message } && message@ == unknown_instance_type(
            quotation@,
        ),
{
    let mut message: String = String::new();
    message.append("unknown instance type: ");
    message.append(quotation);
    message.append(", try e.g. \"u1.small\"");
    proof {
        assert(message@ =~= unknown_instance_type(quotation@));
    }
    EphemeralError::PodmanError { message }
}

/// The error of a `ToDisk` call that asks for a disk format that does not
/// exist. `quotation` is the name that it gave, in quotation marks.
pub fn unsupported_format_error(quotation: &str) -> (error: ToDiskError)
    ensures
        error matches ToDiskError::Failed { message } && message@ == unsupported_format(
            quotation@,
        ),
{
    let mut message: String = String::new();
    message.append("unsupported disk format: ");
    message.append(quotation);
    message.append(", expected \"raw\" or \"qcow2\"");
    proof {
        assert(message@ =~= unsupported_format(quotation@));
    }
    ToDiskError::Failed { message }
}

/// The instance type of a VM, once its name has been parsed.
pub fn instance_type<I, E>(name: &str, parsed: Result<I, E>) -> (itype: Result<I, EphemeralError>)
    ensures
        match parsed {
            Ok(known) => itype == Ok::<I, EphemeralError>(known),
            Err(_) => itype matches Err(EphemeralError::PodmanError { message }) && message@
                == unknown_instance_type(quoted(name@)),
        },
{
    match parsed {
        Ok(known) => Ok(known),
        Err(_) => Err(unknown_instance_type_error(quote(name).as_str())),
    }
}

/// The disk format of that name, `"raw"` (default) or `"qcow2"`.
pub fn disk_format(name: Option<String>) -> (format: Result<Format, ToDiskError>)
    ensures
        match named_format(match name {
            Some(name) => Some(name@),
            None => None,
        }) {
            Some(known) => format == Ok::<Format, ToDiskError>(known),
            None => format matches Err(ToDiskError::Failed { message }) && message@
                == unsupported_format(quoted(name->0@)),
        },
{
    match name {
        None => Ok(Format::Raw),
        Some(name) => {
            if name == "raw".to_owned() {
                Ok(Format::Raw)
            } else if name == "qcow2".to_owned() {
                Ok(Format::Qcow2)
            } else {
                Err(unsupported_format_error(quote(name.as_str()).as_str()))
            }
        },
    }
}

/// Map a `JoinError` (from a blocking task) to an `EphemeralError`.
pub fn ephemeral_join_err(e: JoinError) -> (error: EphemeralError)
    ensures
        error matches EphemeralError::PodmanError { message } && message@ == join_error_text(e),
{
    EphemeralError::PodmanError { message: join_error_to_string(&e) }
}

/// Combined varlink service exposing images, ephemeral, and todisk interfaces.
#[derive(Debug)]
pub struct BcvkService {
    /// Memory size of a VM where the client gives none.
    pub default_memory: String,
    /// Directory inside the container in which bcvk keeps its state.
    pub container_statedir: String,
}

impl BcvkService {
    /// List bootc image names (those with `containers.bootc=1`), given what
    /// came of listing the images.
    pub fn list(
        &self,
        outcome: Result<Result<Vec<ImageListEntry>, Report>, JoinError>,
    ) -> (reply: Result<ListReply, ImagesError>)
        ensures
            match outcome {
                Ok(Ok(entries)) => reply matches Ok(list) && list.images@ == image_names(entries@),
                Ok(Err(e)) => reply matches Err(ImagesError::PodmanError { message }) && tells(message@, e),
                Err(e) => reply matches Err(ImagesError::PodmanError { message }) && message@
                    == join_error_text(e),
            },
    {
        let entries: Vec<ImageListEntry> = match outcome {
            Ok(Ok(entries)) => entries,
            Ok(Err(e)) => {
                return Err(ImagesError::PodmanError { message: report_to_string(&e) });
            },
            Err(e) => {
                return Err(ImagesError::PodmanError { message: join_error_to_string(&e) });
            },
        };
        let ghost all = entries@;
        let mut images: Vec<String> = Vec::new();
        for entry in listed: entries
            invariant
                listed.seq() == all,
                images@ == image_names(all.take(listed.index())),
        {
            proof {
                lemma_image_names_push(all.take(listed.index()), entry);
                assert(all.take(listed.index() + 1) =~= all.take(listed.index()).push(entry));
            }
            match entry.names {
                Some(names) => {
                    let mut names: Vec<String> = names;
                    images.append(&mut names);
                },
                None => {},
            }
        }
        proof {
            assert(all.take(all.len() as int) =~= all);
        }
        Ok(ListReply { images })
    }

    /// List ephemeral VM container IDs (those with `bcvk.ephemeral=1`), given
    /// what came of listing the containers.
    ///
    /// Returns only the container IDs; use `podman inspect <id>` for
    /// further details like state, image, or creation time.
    pub fn ps(
        &self,
        outcome: Result<Result<Vec<ContainerListEntry>, Report>, JoinError>,
    ) -> (reply: Result<PsReply, EphemeralError>)
        ensures
            match outcome {
                Ok(Ok(containers)) => reply matches Ok(list) && list.container_ids@
                    == containers@.map_values(|container: ContainerListEntry| container.id),
                Ok(Err(e)) => reply matches Err(EphemeralError::PodmanError { message })
                    && tells(message@, e),
                Err(e) => reply matches Err(EphemeralError::PodmanError { message }) && message@
                    == join_error_text(e),
            },
    {
        let containers: Vec<ContainerListEntry> = match outcome {
            Ok(Ok(containers)) => containers,
            Ok(Err(e)) => {
                return Err(EphemeralError::PodmanError { message: report_to_string(&e) });
            },
            Err(e) => {
                return Err(ephemeral_join_err(e));
            },
        };
        let ghost all = containers@;
        let mut container_ids: Vec<String> = Vec::new();
        for container in listed: containers
            invariant
                listed.seq() == all,
                container_ids@ == all.take(listed.index()).map_values(
                    |container: ContainerListEntry| container.id,
                ),
        {
            container_ids.push(container.id);
        }
        proof {
            assert(all.take(all.len() as int) =~= all);
        }
        Ok(PsReply { container_ids })
    }

    /// Launch an ephemeral VM in detached mode: what to launch.
    ///
    /// Always runs detached. See [`EphemeralRunOpts`] for additional options.
    /// `parse` finds the instance type of a name; it is asked only where `opts`
    /// names one.
    pub fn run<I, E>(
        &self,
        image: String,
        opts: Option<EphemeralRunOpts>,
        parse: impl Fn(&str) -> Result<I, E>,
    ) -> (request: Result<RunEphemeralOpts<I>, EphemeralError>)
        requires
            forall|name: &str| call_requires(parse, (name,)),
        ensures
            match given_opts(opts).itype {
                None => request matches Ok(launch) && launches(
                    launch,
                    image,
                    given_opts(opts),
                    None,
                    self.default_memory@,
                ),
                Some(itype) => exists|name: &str, parsed: Result<I, E>|
                    {
                        &&& name@ == itype@
                        &&& #[trigger] call_ensures(parse, (name,), parsed)
                        &&& match parsed {
                            Ok(known) => request matches Ok(launch) && launches(
                                launch,
                                image,
                                given_opts(opts),
                                Some(known),
                                self.default_memory@,
                            ),
                            Err(_) => request matches Err(EphemeralError::PodmanError { message })
                                && message@ == unknown_instance_type(quoted(itype@)),
                        }
                    },
            },
    {
        let opts: EphemeralRunOpts = match opts {
            Some(opts) => opts,
            None => EphemeralRunOpts::default(),
        };
        let itype: Option<I> = match opts.itype {
            Some(name) => {
                let parsed = parse(name.as_str());
                match instance_type(name.as_str(), parsed) {
                    Ok(known) => Some(known),
                    Err(error) => {
                        return Err(error);
                    },
                }
            },
            None => None,
        };
        Ok(
            RunEphemeralOpts {
                image,
                common: CommonVmOpts {
                    itype,
                    memory: MemoryOpts {
                        memory: match opts.memory {
                            Some(memory) => memory,
                            None => self.default_memory.clone(),
                        },
                    },
                    vcpus: opts.vcpus,
                    console: opts.console.unwrap_or(false),
                    ssh_keygen: opts.ssh_keygen.unwrap_or(false),
                },
                podman: CommonPodmanOptions {
                    detach: true,
                    name: opts.name,
                    label: strings_or_none(opts.label),
                    network: opts.network,
                    env: strings_or_none(opts.env),
                    rm: opts.rm.unwrap_or(false),
                },
                debug_entrypoint: None,
                bind_mounts: strings_or_none(opts.bind),
                ro_bind_mounts: strings_or_none(opts.ro_bind),
                systemd_units_dir: None,
                bind_storage_ro: false,
                add_swap: opts.add_swap,
                mount_disk_files: strings_or_none(opts.mount_disk_files),
                kernel_args: strings_or_none(opts.kargs),
                ignition_config: None,
                host_dns_servers: None,
            },
        )
    }

    /// Launch an ephemeral VM in detached mode: the reply, given what came of
    /// the launch.
    ///
    /// The returned container ID can be used with `podman inspect`,
    /// `podman rm -f`, or passed to `GetSshConnectionInfo`.
    pub fn run_reply(&self, outcome: Result<Result<String, Report>, JoinError>) -> (reply: Result<
        RunReply,
        EphemeralError,
    >)
        ensures
            match outcome {
                Ok(Ok(id)) => reply == Ok::<RunReply, EphemeralError>(
                    (RunReply { container_id: id }),
                ),
                Ok(Err(e)) => reply matches Err(EphemeralError::PodmanError { message })
                    && tells(message@, e),
                Err(e) => reply matches Err(EphemeralError::PodmanError { message }) && message@
                    == join_error_text(e),
            },
    {
        match outcome {
            Ok(Ok(container_id)) => Ok(RunReply { container_id }),
            Ok(Err(e)) => Err(EphemeralError::PodmanError { message: report_to_string(&e) }),
            Err(e) => Err(ephemeral_join_err(e)),
        }
    }

    /// Return the SSH connection details for an ephemeral VM.
    ///
    /// Given a container ID (from `Run` or `Ps`), returns the information
    /// needed to connect via SSH. The caller can then construct:
    ///
    /// ```text
    /// podman exec <container_id> ssh -i <key_path> -p <port> \
    ///     -o StrictHostKeyChecking=no -o UserKnownHostsFile=/dev/null \
    ///     <user>@<host> [command...]
    /// ```
    ///
    /// This does not verify that SSH is actually ready -- the caller
    /// should retry on connection failure.
    pub fn get_ssh_connection_info(&self, container_id: String) -> (reply: Result<
        GetSshConnectionInfoReply,
        EphemeralError,
    >)
        ensures
            reply matches Ok(info) && {
                &&& info.container_id == container_id
                &&& info.key_path@ == "/run/tmproot"@ + self.container_statedir@ + "/ssh"@
                &&& info.user@ == "root"@
                &&& info.host@ == "127.0.0.1"@
                &&& info.port == 2222
            },
    {
        // These are fixed conventions in bcvk's SSH setup.
        // The key path is inside the container (under the tmproot bind mount).
        let mut key_path: String = String::new();
        key_path.append("/run/tmproot");
        key_path.append(self.container_statedir.as_str());
        key_path.append("/ssh");
        proof {
            assert(key_path@ =~= "/run/tmproot"@ + self.container_statedir@ + "/ssh"@);
        }
        Ok(
            GetSshConnectionInfoReply {
                container_id,
                key_path,
                user: "root".to_owned(),
                host: "127.0.0.1".to_owned(),
                port: 2222,
            },
        )
    }

    /// Create a bootable disk image from a container image: what to create.
    ///
    /// Parameters:
    /// - `source_image`: container image reference to install
    /// - `target_disk`: absolute path for the output disk image
    /// - `format`: disk format, either `"raw"` (default) or `"qcow2"`
    /// - `disk_size`: optional size string (e.g. `"10G"`, `"5120M"`)
    /// - `filesystem`: optional root filesystem type (e.g. `"ext4"`, `"xfs"`)
    /// - `root_size`: optional root partition size (e.g. `"8G"`)
    /// - `kargs`: optional kernel arguments
    pub fn to_disk(
        &self,
        source_image: String,
        target_disk: &str,
        format: Option<String>,
        disk_size: Option<String>,
        filesystem: Option<String>,
        root_size: Option<String>,
        kargs: Option<Vec<String>>,
    ) -> (request: Result<ToDiskOpts, ToDiskError>)
        ensures
            match named_format(match format {
                Some(name) => Some(name@),
                None => None,
            }) {
                Some(known) => request matches Ok(opts) && creates_disk(
                    opts,
                    source_image,
                    target_disk@,
                    known,
                    disk_size,
                    filesystem,
                    root_size,
                    kargs,
                    self.default_memory@,
                ),
                None => request matches Err(ToDiskError::Failed { message }) && message@
                    == unsupported_format(quoted(format->0@)),
            },
    {
        let format: Format = match disk_format(format) {
            Ok(known) => known,
            Err(error) => {
                return Err(error);
            },
        };
        Ok(
            ToDiskOpts {
                source_image,
                target_disk: utf8_path_buf(target_disk),
                install: InstallOptions { filesystem, root_size, karg: strings_or_none(kargs) },
                additional: ToDiskAdditionalOpts {
                    disk_size,
                    format,
                    memory: MemoryOpts { memory: self.default_memory.clone() },
                },
            },
        )
    }

    /// Create a bootable disk image from a container image: the reply, given
    /// what came of the request.
    ///
    /// Supports caching: if a disk already exists at `target_disk` with
    /// matching metadata, it is reused without reinstalling.
    pub fn to_disk_reply(
        &self,
        target_disk: String,
        outcome: Result<Result<RunOutcome, Report>, JoinError>,
    ) -> (reply: Result<ToDiskReply, ToDiskError>)
        ensures
            match outcome {
                Ok(Ok(done)) => reply == Ok::<ToDiskReply, ToDiskError>(
                    (ToDiskReply { path: target_disk, cached: done == RunOutcome::Cached }),
                ),
                Ok(Err(e)) => reply matches Err(ToDiskError::Failed { message }) && tells_with_causes(message@, e),
                Err(e) => reply matches Err(ToDiskError::Failed { message }) && message@
                    == join_error_text(e),
            },
    {
        match outcome {
            Ok(Ok(done)) => Ok(
                ToDiskReply { path: target_disk, cached: done == RunOutcome::Cached },
            ),
            Ok(Err(e)) => Err(ToDiskError::Failed { message: report_to_string_with_causes(&e) }),
            Err(e) => Err(ToDiskError::Failed { message: join_error_to_string(&e) }),
        }
    }
}

/// The strings of a list that may be absent.
fn strings_or_none(list: Option<Vec<String>>) -> (strings: Vec<String>)
    ensures
        strings@ == or_empty(list),
{
    match list {
        Some(strings) => strings,
        None => Vec::new(),
    }
}

/// One more image adds its names at the end.
proof fn lemma_image_names_push(entries: Seq<ImageListEntry>, entry: ImageListEntry)
    ensures
        image_names(entries.push(entry)) == image_names(entries) + or_empty(entry.names),
{
    let names = |entry: ImageListEntry| or_empty(entry.names);
    entries.map_values(names).lemma_flatten_push(or_empty(entry.names));
    assert(entries.push(entry).map_values(names) =~= entries.map_values(names).push(
        or_empty(entry.names),
    ));
}

/// Launching without options is launching with options that ask for nothing:
/// the VM gets the default memory, and whatever else a request names is off or
/// absent.
pub proof fn law_run_options_are_optional<I>(
    request: RunEphemeralOpts<I>,
    image: String,
    default_memory: Seq<char>,
)
    ensures
        given_opts(None) == given_opts(Some(no_run_opts())),
        launches(request, image, given_opts(None), None, default_memory) ==> {
            &&& request.common.memory.memory@ == default_memory
            &&& request.common.itype is None && request.common.vcpus is None
            &&& !request.common.console && !request.common.ssh_keygen
            &&& request.podman.name is None && request.podman.network is None
            &&& request.podman.label@.len() == 0 && request.podman.env@.len() == 0
            &&& !request.podman.rm
            &&& request.bind_mounts@.len() == 0 && request.ro_bind_mounts@.len() == 0
            &&& request.mount_disk_files@.len() == 0 && request.kernel_args@.len() == 0
            &&& request.add_swap is None
        },
{
}

/// Whatever the options, the VM runs detached, boots the image that was asked
/// for, and has no entrypoint for debugging, no units, host storage, Ignition
/// configuration or DNS servers of its own.
pub proof fn law_run_is_always_detached<I>(
    request: RunEphemeralOpts<I>,
    image: String,
    opts: Option<EphemeralRunOpts>,
    itype: Option<I>,
    default_memory: Seq<char>,
)
    requires
        launches(request, image, given_opts(opts), itype, default_memory),
    ensures
        request.podman.detach,
        request.image == image,
        request.debug_entrypoint is None,
        request.systemd_units_dir is None,
        !request.bind_storage_ro,
        request.ignition_config is None,
        request.host_dns_servers is None,
{
}

/// Two launches that the same call asks for are the same.
pub proof fn law_run_request_is_determined<I>(
    one: RunEphemeralOpts<I>,
    other: RunEphemeralOpts<I>,
    image: String,
    opts: EphemeralRunOpts,
    itype: Option<I>,
    default_memory: Seq<char>,
)
    requires
        launches(one, image, opts, itype, default_memory),
        launches(other, image, opts, itype, default_memory),
    ensures
        one.image == other.image,
        one.common.itype == other.common.itype,
        one.common.memory.memory@ == other.common.memory.memory@,
        one.common.vcpus == other.common.vcpus,
        one.common.console == other.common.console,
        one.common.ssh_keygen == other.common.ssh_keygen,
        one.podman.detach == other.podman.detach,
        one.podman.name == other.podman.name,
        one.podman.label@ == other.podman.label@,
        one.podman.network == other.podman.network,
        one.podman.env@ == other.podman.env@,
        one.podman.rm == other.podman.rm,
        one.debug_entrypoint == other.debug_entrypoint,
        one.bind_mounts@ == other.bind_mounts@,
        one.ro_bind_mounts@ == other.ro_bind_mounts@,
        one.systemd_units_dir == other.systemd_units_dir,
        one.bind_storage_ro == other.bind_storage_ro,
        one.add_swap == other.add_swap,
        one.mount_disk_files@ == other.mount_disk_files@,
        one.kernel_args@ == other.kernel_args@,
        one.ignition_config == other.ignition_config,
        one.host_dns_servers == other.host_dns_servers,
{
}

/// The names of one image are all the names that it has, in their order; no
/// images have no names.
pub proof fn law_image_names_of_one(entry: ImageListEntry)
    ensures
        image_names(Seq::empty()).len() == 0,
        entry.names matches Some(names) ==> image_names(seq![entry]) == names@,
        entry.names is None ==> image_names(seq![entry]).len() == 0,
{
    assert(image_names(Seq::empty()) =~= Seq::empty());
    lemma_image_names_push(Seq::empty(), entry);
    assert(Seq::empty().push(entry) =~= seq![entry]);
    assert(image_names(seq![entry]) =~= or_empty(entry.names));
}

/// The names of two lists of images are those of the one, then those of the
/// other.
pub proof fn law_image_names_concat(one: Seq<ImageListEntry>, other: Seq<ImageListEntry>)
    ensures
        image_names(one + other) == image_names(one) + image_names(other),
{
    let names = |entry: ImageListEntry| or_empty(entry.names);
    vstd::seq_lib::lemma_flatten_concat(one.map_values(names), other.map_values(names));
    assert((one + other).map_values(names) =~= one.map_values(names) + other.map_values(names));
}

/// A dangling image, one that has no names or an empty list of them, leaves no
/// trace in the list.
pub proof fn law_dangling_images_are_omitted(
    above: Seq<ImageListEntry>,
    dangling: ImageListEntry,
    below: Seq<ImageListEntry>,
)
    requires
        dangling.names matches Some(names) ==> names@.len() == 0,
    ensures
        image_names(above.push(dangling) + below) == image_names(above + below),
{
    law_image_names_concat(above.push(dangling), below);
    law_image_names_concat(above, below);
    lemma_image_names_push(above, dangling);
    assert(image_names(above) + or_empty(dangling.names) =~= image_names(above));
}

/// A name is in the list if and only if it is the name of one of the images.
pub proof fn law_listed_names_are_image_names(entries: Seq<ImageListEntry>, name: String)
    ensures
        image_names(entries).contains(name) <==> exists|i: int|
            0 <= i < entries.len() && (#[trigger] entries[i]).names is Some
                && entries[i].names->0@.contains(name),
    decreases entries.len(),
{
    if entries.len() == 0 {
        assert(image_names(entries) =~= Seq::empty());
    } else {
        let front = entries.drop_last();
        let entry = entries.last();
        let names = or_empty(entry.names);
        assert(entries =~= front.push(entry));
        lemma_image_names_push(front, entry);
        law_listed_names_are_image_names(front, name);
        let listed = image_names(front) + names;
        if listed.contains(name) {
            let k = choose|k: int| 0 <= k < listed.len() && listed[k] == name;
            if k < image_names(front).len() {
                assert(image_names(front).contains(name));
                let i = choose|i: int|
                    0 <= i < front.len() && (#[trigger] front[i]).names is Some
                        && front[i].names->0@.contains(name);
                assert(entries[i] == front[i]);
            } else {
                assert(names[k - image_names(front).len()] == name);
                assert(entries[entries.len() - 1].names->0@.contains(name));
            }
        }
        if exists|i: int|
            0 <= i < entries.len() && (#[trigger] entries[i]).names is Some
                && entries[i].names->0@.contains(name) {
            let i = choose|i: int|
                0 <= i < entries.len() && (#[trigger] entries[i]).names is Some
                    && entries[i].names->0@.contains(name);
            if i < front.len() {
                assert(front[i].names->0@.contains(name));
                let k = choose|k: int|
                    0 <= k < image_names(front).len() && image_names(front)[k] == name;
                assert(listed[k] == name);
            } else {
                let k = choose|k: int| 0 <= k < names.len() && names[k] == name;
                assert(listed[image_names(front).len() + k] == name);
            }
        }
    }
}

/// The disk formats are `raw`, which is also the default, and `qcow2`; every
/// other name is refused.
pub proof fn law_disk_formats(name: Seq<char>)
    ensures
        named_format(None) == named_format(Some("raw"@)),
        named_format(Some("raw"@)) == Some(Format::Raw),
        named_format(Some("qcow2"@)) == Some(Format::Qcow2),
        named_format(Some(name)) is None <==> name != "raw"@ && name != "qcow2"@,
{
    reveal_strlit("raw");
    reveal_strlit("qcow2");
    assert("raw"@.len() != "qcow2"@.len());
}

/// A client whose disk format is refused is told so, and is told which format
/// it was.
pub proof fn law_refusal_names_the_format(quotation: Seq<char>)
    ensures
        occurs_at(unsupported_format(quotation), "unsupported disk format"@, 0),
        exists|at: int| occurs_at(unsupported_format(quotation), quotation, at),
{
    reveal_strlit("unsupported disk format: ");
    reveal_strlit("unsupported disk format");
    let message = unsupported_format(quotation);
    let at = "unsupported disk format: "@.len() as int;
    assert(message.subrange(0, "unsupported disk format"@.len() as int)
        =~= "unsupported disk format"@);
    assert(message.subrange(at, at + quotation.len()) =~= quotation);
    assert(occurs_at(message, quotation, at));
}

/// Where podman failed because it does not see bcvk's filesystem, that is what
/// the client is told; in full it is also told what podman said.
pub proof fn law_client_is_told_the_hint(
    failure: Report,
    path: Seq<char>,
    explained: Report,
    message: Seq<char>,
    full_message: Seq<char>,
)
    requires
        collects_help(failure),
        report_chain(failure).len() > 0,
        hinted(failure, path, explained),
        tells(message, explained),
        tells_with_causes(full_message, explained),
    ensures
        message == hint_message(path),
        full_message == hint_message(path) + ": "@ + join(report_chain(failure), ": "@),
{
    law_hint_keeps_the_error(failure, path, explained);
    assert(seq![message][0] == message);
    assert(report_chain(explained)[0] == hint_message(path));
}

} // verus!

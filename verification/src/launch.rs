//! What the rest of bcvk is asked to do: launch an ephemeral VM, or create a
//! disk image.
//!
//! A request names what a client can decide and what is decided for all of
//! them. Whatever it does not name stays at its default.
use crate::external::path_buf_text;
use camino::Utf8PathBuf;
use vstd::prelude::*;

verus! {

/// How much memory a VM gets.
#[derive(Debug, PartialEq, Eq)]
pub struct MemoryOpts {
    /// Memory size (e.g. `"4G"`, `"2048M"`).
    pub memory: String,
}

/// How a VM is configured. `I` is an instance type. Options of a VM that are
/// not named here stay at their defaults.
#[derive(Debug, PartialEq, Eq)]
pub struct CommonVmOpts<I> {
    /// Instance type; overrides memory and vCPUs.
    pub itype: Option<I>,
    /// Memory size.
    pub memory: MemoryOpts,
    /// Number of vCPUs.
    pub vcpus: Option<u32>,
    /// Connect QEMU console to container stdio.
    pub console: bool,
    /// Generate SSH keypair and inject into the VM.
    pub ssh_keygen: bool,
}

/// How podman runs the container of a VM. Options of podman that are not named
/// here stay at their defaults.
#[derive(Debug, PartialEq, Eq)]
pub struct CommonPodmanOptions {
    /// Run the container in the background.
    pub detach: bool,
    /// Name of the container.
    pub name: Option<String>,
    /// Metadata labels in `key=value` form.
    pub label: Vec<String>,
    /// Podman network configuration.
    pub network: Option<String>,
    /// Environment variables in `key=value` form.
    pub env: Vec<String>,
    /// Automatically remove container when it exits.
    pub rm: bool,
}

/// An ephemeral VM to launch.
#[derive(Debug, PartialEq, Eq)]
pub struct RunEphemeralOpts<I> {
    /// The container image to boot.
    pub image: String,
    /// The VM.
    pub common: CommonVmOpts<I>,
    /// The container that it runs in.
    pub podman: CommonPodmanOptions,
    /// A command to run in place of the VM.
    pub debug_entrypoint: Option<String>,
    /// Read-write host bind mounts (`HOST_PATH[:NAME]`).
    pub bind_mounts: Vec<String>,
    /// Read-only host bind mounts (`HOST_PATH[:NAME]`).
    pub ro_bind_mounts: Vec<String>,
    /// Directory of additional systemd units.
    pub systemd_units_dir: Option<String>,
    /// Give the VM the host's container storage, read-only.
    pub bind_storage_ro: bool,
    /// Allocate swap of the given size (e.g. `"1G"`).
    pub add_swap: Option<String>,
    /// Disk files as virtio-blk devices (`FILE[:NAME]`).
    pub mount_disk_files: Vec<String>,
    /// Additional kernel command line arguments.
    pub kernel_args: Vec<String>,
    /// Ignition configuration file.
    pub ignition_config: Option<String>,
    /// DNS servers of the host.
    pub host_dns_servers: Option<Vec<String>>,
}

/// Format of a disk image.
#[derive(Debug, Clone, Copy, PartialEq, Eq, Structural)]
pub enum Format {
    /// The plain contents of the disk.
    Raw,
    /// QEMU's copy-on-write format.
    Qcow2,
}

/// How the image is installed to the disk. Options of the installation that are
/// not named here stay at their defaults.
#[derive(Debug, PartialEq, Eq)]
pub struct InstallOptions {
    /// Root filesystem type (e.g. `"ext4"`, `"xfs"`).
    pub filesystem: Option<String>,
    /// Root partition size (e.g. `"8G"`).
    pub root_size: Option<String>,
    /// Kernel arguments.
    pub karg: Vec<String>,
}

/// The disk, and the VM that installs to it. Options of either that are not
/// named here stay at their defaults.
#[derive(Debug, PartialEq, Eq)]
pub struct ToDiskAdditionalOpts {
    /// Disk size (e.g. `"10G"`, `"5120M"`).
    pub disk_size: Option<String>,
    /// Disk format.
    pub format: Format,
    /// Memory of the VM.
    pub memory: MemoryOpts,
}

/// A disk image to create.
#[derive(Debug, PartialEq, Eq)]
pub struct ToDiskOpts {
    /// The container image to install.
    pub source_image: String,
    /// The disk image file.
    pub target_disk: Utf8PathBuf,
    /// How to install.
    pub install: InstallOptions,
    /// The disk, and the VM that installs to it.
    pub additional: ToDiskAdditionalOpts,
}

/// How a disk image came to be at its place.
#[derive(Debug, Clone, Copy, PartialEq, Eq, Structural)]
pub enum RunOutcome {
    /// One that matches was there already.
    Cached,
    /// It was created.
    Created,
}

/// The strings of a list that may be absent; an absent one has none.
pub open spec fn or_empty(list: Option<Vec<String>>) -> Seq<String> {
    match list {
        Some(strings) => strings@,
        None => Seq::empty(),
    }
}

/// A switch that may be absent; an absent one is off.
pub open spec fn or_off(switch: Option<bool>) -> bool {
    match switch {
        Some(on) => on,
        None => false,
    }
}

/// `opts` asks for the disk image that the arguments describe.
pub open spec fn creates_disk(
    opts: ToDiskOpts,
    source_image: String,
    target_disk: Seq<char>,
    format: Format,
    disk_size: Option<String>,
    filesystem: Option<String>,
    root_size: Option<String>,
    kargs: Option<Vec<String>>,
    memory: Seq<char>,
) -> bool {
    &&& opts.source_image == source_image
    &&& path_buf_text(opts.target_disk) == target_disk
    &&& opts.install.filesystem == filesystem
    &&& opts.install.root_size == root_size
    &&& opts.install.karg@ == or_empty(kargs)
    &&& opts.additional.disk_size == disk_size
    &&& opts.additional.format == format
    &&& opts.additional.memory.memory@ == memory
}

} // verus!

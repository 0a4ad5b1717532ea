//! Parts of bcvk, which runs bootable container images as virtual machines:
//! the explanation of podman failures that come of podman not seeing bcvk's
//! filesystem, and the varlink service.
//!
//! - [`podman_hint`] reads podman's error output and explains it.
//! - [`varlink_ipc`] answers the calls of the varlink service; [`launch`] holds
//!   what it asks the rest of bcvk to do.
//! - [`activation`] decides whether and how the service is run on a socket that
//!   the process was started with.
//! - [`text`] says what lines, occurrences and trailing white space are.
//! - [`laws`] says what can be relied on of each operation, call by call.
//! - [`external`] holds what is relied on of other crates.
pub mod activation;
pub mod external;
pub mod launch;
pub mod laws;
pub mod podman_hint;
pub mod text;
pub mod varlink_ipc;

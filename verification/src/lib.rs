//! The decisions behind safe file mutation under a directory handle and behind
//! handing descriptors to a child process, with every one of them proved.
//!
//! Nothing here touches a file system or a process. A driver performs each
//! primitive (open, stat, create, link, rename, duplicate a descriptor, change
//! directory) and hands its outcome to a function of this crate, which says
//! what the outcome means and what to do next.
//!
//! - [`error`]: the kinds of failure and the values that carry them
//! - [`dirext`]: probes that report absence, and directories made at most once
//! - [`tempfile`]: a staged file, and the two ways to publish it under a name
//! - [`cmdext`]: what a child process is given before its program starts
//! - [`namespace`]: a model of one name in a directory, against which the
//!   protocols above are proved
pub mod error;
pub mod metadata;
pub mod dirext;
pub mod tempfile;
pub mod cmdext;
pub mod namespace;

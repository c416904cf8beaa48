//! A single filesystem view over a content-addressed store (`/ipfs`, `/ipns`)
//! and its mutable file tree (`/mfs`): path routing, metadata, error mapping
//! and the read/write handle state machines, with the remote calls left to
//! the caller.
pub mod error;
pub mod framing;
pub mod ipfs_fs;
pub mod laws;
pub mod metadata;
pub mod mfs;
pub mod path;
pub mod read;
pub mod rootfs;
pub mod write;

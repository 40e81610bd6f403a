//! A safe, low-level FUSE interface.
//!
//! Filesystem authors implement [`NodeFs`]; a [`Runtime`] owns the identity and
//! the lifetime of their nodes and the open handles, and the functions of
//! [`session`] turn the kernel's requests into calls of it and its results into
//! replies. Nothing here does I/O: sending and receiving is left to whoever
//! drives the library.

pub mod attr;
pub mod conn;
pub mod dirbuf;
pub mod errno;
pub mod file_type;
pub mod filesystem;
pub mod handles;
pub mod lifetime;
pub mod mount;
pub mod node;
pub mod node_fs;
pub mod open;
pub mod reply;
pub mod requests;
pub mod runtime;
pub mod session;
pub mod table;
pub mod text;
pub mod time;
pub mod way_back;

pub use attr::{Entry, FileAttr, NodeAttr, SetAttr, SetAttrs, StatFs, TimeOrNow};
pub use conn::{Caller, ConnInfo, ConnectionCapability, Request};
pub use dirbuf::{DirBuffer, DirPlusBuffer};
pub use errno::Errno;
pub use file_type::{FileKind, FileType, Inode, ROOT_INODE};
pub use filesystem::Filesystem;
pub use mount::{Error, MountOption};
pub use node::{DirSink, NodeId, XattrReply};
pub use node_fs::{NodeFs, ReadDir};
pub use open::{AccessMode, FileInfo, OpenHints, OpenReply, Opened};
pub use runtime::{EntryReply, LookupReply, Runtime};
pub use table::{Cx, NodeRef, NodeTable};

# fuse3

A safe, low-level FUSE interface whose node bookkeeping, value conversions and
request protocol are verified with Verus.

## What is where

- `src/` is the library, all of it verified.
  - `node_fs`, `filesystem`: the traits that filesystem authors implement. Every
    method but `NodeFs::root` and `NodeFs::getattr` has a default, so a
    filesystem writes only what it supports.
  - `table`, `lifetime`: inode numbers, generations and the references that keep
    a node alive, with the laws that hold of them.
  - `handles`: open file and directory handles.
  - `runtime`: the nodes, handles and callbacks of one filesystem together.
  - `session`, `reply`: each kernel request and what it is answered. Names are
    UTF-8 only: any other name is refused with `EILSEQ` before the filesystem
    sees it.
  - `mount`: mount options, session arguments and errors.
  - `attr`, `open`, `conn`, `dirbuf`, `node`, `file_type`, `errno`, `time`,
    `text`: values, and the raw structures they become.
- `app/` is ordinary Rust around it: libfuse's C interface on Linux, and the
  session that mounts and runs the event loop.
- `tests/` runs the library.

## What is assumed

The library calls `libc` for its constants and `std` for clocks, UTF-8 decoding,
number formatting and the channel on which dropped leases come back. Each such
call stands behind an item whose comment says what is claimed of it; everything
else is proved.

A lease on a node (`NodeRef`) lasts as long as it is kept. One that is dropped
sends itself back to the nodes it came from, and every operation on them takes in
what was sent before it looks. Which leases were dropped is not known to the
proofs. So a contract speaks of the nodes after leases came back that their own receiver
gave, when it was asked until it gave none (`takes_in`). A node on which none came
in is as it was, and so are all where no lease is out. Counters that are full are
reported: `EIO` where a request would overflow one, a precondition where a
callback would.

## A filesystem

```rust
use fuse3::{Caller, DirSink, Errno, NodeAttr, NodeFs, ReadDir, Runtime};

struct Empty;

impl NodeFs for Empty {
    type Node = ();
    type Handle = ();
    type DirHandle = ();

    fn root(&mut self) {}

    fn getattr(&self, _node: &(), _caller: &Caller) -> Result<NodeAttr, Errno> {
        Ok(NodeAttr::default())
    }
}

// A session also lists directories.
impl<S: DirSink> ReadDir<S> for Empty {}

let mut rt = Runtime::new(Empty);
assert!(rt.getattr(1, &Caller::default()).is_ok());
```

//! The kernel connection and the process behind a request.

use vstd::prelude::*;

verus! {

/// Credentials of the process that issued the current request.
#[derive(Clone, Copy, PartialEq, Eq, Debug, Structural)]
pub struct Caller {
    pub uid: u32,
    pub gid: u32,
    pub pid: u32,
    pub umask: u32,
}

impl Default for Caller {
    fn default() -> (r: Caller)
        ensures
            r == (Caller { uid: 0, gid: 0, pid: 0, umask: 0 }),
    {
        Caller { uid: 0, gid: 0, pid: 0, umask: 0 }
    }
}

/// An in-flight FUSE request, exposing the calling process's credentials and
/// whether the kernel wants the operation interrupted. `ask` is what finds that
/// out, each time anew: an interrupt may come while the request is worked on.
pub struct Request<I: Fn() -> bool> {
    caller: Caller,
    ask: I,
}

impl<I: Fn() -> bool> Request<I> {
    #[verifier::type_invariant]
    closed spec fn can_ask(self) -> bool {
        self.ask.requires(())
    }

    /// The credentials of the calling process.
    pub closed spec fn credentials(self) -> Caller {
        self.caller
    }

    /// What finds out whether an interrupt is pending.
    pub closed spec fn asker(self) -> I {
        self.ask
    }

    pub fn new(caller: Caller, ask: I) -> (r: Request<I>)
        requires
            ask.requires(()),
        ensures
            r.credentials() == caller,
            r.asker() == ask,
    {
        Request { caller, ask }
    }

    /// User ID of the calling process.
    pub fn uid(&self) -> (r: u32)
        ensures
            r == self.credentials().uid,
    {
        self.caller.uid
    }

    /// Group ID of the calling process.
    pub fn gid(&self) -> (r: u32)
        ensures
            r == self.credentials().gid,
    {
        self.caller.gid
    }

    /// Process ID (thread group ID) of the calling process.
    pub fn pid(&self) -> (r: u32)
        ensures
            r == self.credentials().pid,
    {
        self.caller.pid
    }

    /// Umask of the calling process.
    pub fn umask(&self) -> (r: u32)
        ensures
            r == self.credentials().umask,
    {
        self.caller.umask
    }

    /// Whether the kernel has requested, up to now, that this operation be
    /// interrupted.
    pub fn interrupted(&self) -> (r: bool)
        ensures
            self.asker().ensures((), r),
    {
        proof {
            use_type_invariant(self);
        }
        (self.ask)()
    }
}

/// A capability of the connection that a filesystem may switch on.
#[derive(Clone, Copy, PartialEq, Eq, Debug, Structural)]
pub enum ConnectionCapability {
    /// The kernel may send lookups and listings of one directory in parallel.
    ParallelDirectoryOperations,
}

/// Connection parameters, read from (and, for the mutable ones, written back
/// into) the kernel connection when a filesystem is initialised.
#[derive(Clone, Copy, PartialEq, Eq, Debug, Structural)]
pub struct ConnInfo {
    pub proto_major: u32,
    pub proto_minor: u32,
    pub max_write: u32,
    pub max_readahead: u32,
    pub parallel_directory_operations: bool,
}

impl Default for ConnInfo {
    fn default() -> (r: ConnInfo)
        ensures
            r == (ConnInfo {
                proto_major: 0,
                proto_minor: 0,
                max_write: 0,
                max_readahead: 0,
                parallel_directory_operations: false,
            }),
    {
        ConnInfo {
            proto_major: 0,
            proto_minor: 0,
            max_write: 0,
            max_readahead: 0,
            parallel_directory_operations: false,
        }
    }
}

impl ConnInfo {
    pub fn proto_major(&self) -> (r: u32)
        ensures
            r == self.proto_major,
    {
        self.proto_major
    }

    pub fn proto_minor(&self) -> (r: u32)
        ensures
            r == self.proto_minor,
    {
        self.proto_minor
    }

    pub fn max_write(&self) -> (r: u32)
        ensures
            r == self.max_write,
    {
        self.max_write
    }

    pub fn max_readahead(&self) -> (r: u32)
        ensures
            r == self.max_readahead,
    {
        self.max_readahead
    }

    pub fn set_max_write(&mut self, value: u32)
        ensures
            *final(self) == (ConnInfo { max_write: value, ..*old(self) }),
    {
        self.max_write = value;
    }

    pub fn set_max_readahead(&mut self, value: u32)
        ensures
            *final(self) == (ConnInfo { max_readahead: value, ..*old(self) }),
    {
        self.max_readahead = value;
    }

    /// Switches a capability on or off.
    pub fn set_enabled(&mut self, capability: ConnectionCapability, enabled: bool)
        ensures
            *final(self) == (ConnInfo { parallel_directory_operations: enabled, ..*old(self) }),
    {
        match capability {
            ConnectionCapability::ParallelDirectoryOperations => {
                self.parallel_directory_operations = enabled;
            },
        }
    }
}

/// A request tells the credentials that it was made with, each under its name.
pub proof fn law_request_tells_its_caller<I: Fn() -> bool>(
    caller: Caller,
    ask: I,
    req: Request<I>,
    uid: u32,
    gid: u32,
    pid: u32,
    umask: u32,
    interrupted: bool,
)
    requires
        call_ensures(Request::<I>::new, (caller, ask), req),
        call_ensures(Request::<I>::uid, (&req,), uid),
        call_ensures(Request::<I>::gid, (&req,), gid),
        call_ensures(Request::<I>::pid, (&req,), pid),
        call_ensures(Request::<I>::umask, (&req,), umask),
        call_ensures(Request::<I>::interrupted, (&req,), interrupted),
    ensures
        uid == caller.uid && gid == caller.gid && pid == caller.pid && umask == caller.umask,
        ask.ensures((), interrupted),
{
}

/// The connection's parameters are told as they stand.
pub proof fn law_connection_is_told_as_it_stands(
    conn: ConnInfo,
    major: u32,
    minor: u32,
    max_write: u32,
    max_readahead: u32,
    caller: Caller,
    empty: ConnInfo,
)
    requires
        call_ensures(ConnInfo::proto_major, (&conn,), major),
        call_ensures(ConnInfo::proto_minor, (&conn,), minor),
        call_ensures(ConnInfo::max_write, (&conn,), max_write),
        call_ensures(ConnInfo::max_readahead, (&conn,), max_readahead),
        call_ensures(Caller::default, (), caller),
        call_ensures(ConnInfo::default, (), empty),
    ensures
        major == conn.proto_major && minor == conn.proto_minor,
        max_write == conn.max_write && max_readahead == conn.max_readahead,
        caller.uid == 0 && caller.gid == 0 && caller.pid == 0 && caller.umask == 0,
        empty.proto_major == 0 && empty.proto_minor == 0 && empty.max_write == 0,
        empty.max_readahead == 0 && !empty.parallel_directory_operations,
{
}

/// Setting a parameter of the connection sets that one alone.
pub proof fn law_connection_is_set_one_by_one(value: u32, on: bool)
    ensures
        forall|c: &mut ConnInfo| #[trigger]
            call_ensures(ConnInfo::set_max_write, (c, value), ()) ==> {
                &&& final(c).max_write == value
                &&& *final(c) == (ConnInfo { max_write: value, ..*c })
            },
        forall|c: &mut ConnInfo| #[trigger]
            call_ensures(ConnInfo::set_max_readahead, (c, value), ()) ==> {
                &&& final(c).max_readahead == value
                &&& *final(c) == (ConnInfo { max_readahead: value, ..*c })
            },
        forall|c: &mut ConnInfo| #[trigger]
            call_ensures(
                ConnInfo::set_enabled,
                (c, ConnectionCapability::ParallelDirectoryOperations, on),
                (),
            ) ==> *final(c) == (ConnInfo { parallel_directory_operations: on, ..*c }),
{
}

} // verus!

//! Mount options, and what the steps of a session's life come to.

use vstd::prelude::*;

use crate::text;

verus! {

/// A libfuse mount option, rendered to a `-o key[=value]` argument.
#[derive(Clone, Debug, PartialEq, Eq)]
pub enum MountOption {
    ReadOnly,
    AllowOther,
    AutoUnmount,
    DefaultPermissions,
    FsName(String),
    Subtype(String),
    Custom(String),
}

impl MountOption {
    /// The option as libfuse reads it.
    pub open spec fn rendered(self) -> Seq<char> {
        match self {
            MountOption::ReadOnly => "ro"@,
            MountOption::AllowOther => "allow_other"@,
            MountOption::AutoUnmount => "auto_unmount"@,
            MountOption::DefaultPermissions => "default_permissions"@,
            MountOption::FsName(name) => "fsname="@ + name@,
            MountOption::Subtype(name) => "subtype="@ + name@,
            MountOption::Custom(opt) => opt@,
        }
    }

    pub fn render(&self) -> (s: String)
        ensures
            s@ == self.rendered(),
    {
        match self {
            MountOption::ReadOnly => String::from_str("ro"),
            MountOption::AllowOther => String::from_str("allow_other"),
            MountOption::AutoUnmount => String::from_str("auto_unmount"),
            MountOption::DefaultPermissions => String::from_str("default_permissions"),
            MountOption::FsName(name) => {
                let mut s = String::from_str("fsname=");
                s.append(name.as_str());
                s
            },
            MountOption::Subtype(name) => {
                let mut s = String::from_str("subtype=");
                s.append(name.as_str());
                s
            },
            MountOption::Custom(opt) => String::from_str(opt.as_str()),
        }
    }
}

/// Options rendered one after the other, with commas between them.
pub open spec fn joined(options: Seq<MountOption>) -> Seq<char>
    decreases options.len(),
{
    if options.len() == 0 {
        Seq::empty()
    } else if options.len() == 1 {
        options[0].rendered()
    } else {
        joined(options.drop_last()) + ","@ + options.last().rendered()
    }
}

/// The arguments that a session is created with: the program's name, and all
/// options as one argument behind `-o`, if there are any.
pub open spec fn arguments(options: Seq<MountOption>) -> Seq<Seq<char>> {
    if options.len() == 0 {
        seq!["fuse3"@]
    } else {
        seq!["fuse3"@, "-o"@, joined(options)]
    }
}

fn join(options: &[MountOption]) -> (s: String)
    requires
        options@.len() > 0,
    ensures
        s@ == joined(options@),
{
    let mut s = options[0].render();
    let mut i: usize = 1;
    assert(options@.take(1) =~= seq![options@[0]]);
    while i < options.len()
        invariant
            1 <= i <= options@.len(),
            s@ == joined(options@.take(i as int)),
        decreases options@.len() - i,
    {
        let rendered = options[i].render();
        s.append(",");
        s.append(rendered.as_str());
        assert(options@.take(i + 1).drop_last() =~= options@.take(i as int));
        i = i + 1;
    }
    assert(options@.take(i as int) =~= options@);
    s
}

/// Builds the arguments that a session is created with.
pub fn session_args(options: &[MountOption]) -> (args: Vec<String>)
    ensures
        args@.len() == arguments(options@).len(),
        forall|i: int| 0 <= i < args@.len() ==> (#[trigger] args@[i])@ == arguments(options@)[i],
{
    let mut args = Vec::new();
    args.push(String::from_str("fuse3"));
    if options.len() > 0 {
        args.push(String::from_str("-o"));
        args.push(join(options));
    }
    args
}

/// Errors of setting a session up and running it.
#[derive(Debug)]
pub enum Error {
    SessionNew,
    Mount,
    SignalHandlers,
    Loop(i32),
    InvalidMountpoint(String),
}

impl Error {
    /// What is said of the error.
    pub open spec fn message(self) -> Seq<char> {
        match self {
            Error::SessionNew => "failed to create the FUSE session"@,
            Error::Mount => "failed to mount the FUSE session"@,
            Error::SignalHandlers => "failed to install FUSE signal handlers"@,
            Error::Loop(rc) => "FUSE session loop exited with code "@ + text::decimal(rc as int),
            Error::InvalidMountpoint(mp) => "invalid mountpoint (contains a NUL byte): "@
                + text::debug_quoted(mp@),
        }
    }

    pub fn to_string(&self) -> (s: String)
        ensures
            s@ == self.message(),
    {
        match self {
            Error::SessionNew => String::from_str("failed to create the FUSE session"),
            Error::Mount => String::from_str("failed to mount the FUSE session"),
            Error::SignalHandlers => String::from_str("failed to install FUSE signal handlers"),
            Error::Loop(rc) => {
                let mut s = String::from_str("FUSE session loop exited with code ");
                let code = text::i32_to_string(*rc);
                s.append(code.as_str());
                s
            },
            Error::InvalidMountpoint(mp) => {
                let mut s = String::from_str("invalid mountpoint (contains a NUL byte): ");
                let quoted = text::debug_string(mp.as_str());
                s.append(quoted.as_str());
                s
            },
        }
    }
}

/// How far a session has come.
pub struct SessionState {
    mounted: bool,
}

impl SessionState {
    /// Whether the session is mounted.
    pub closed spec fn is_mounted(self) -> bool {
        self.mounted
    }

    /// The state of a session that libfuse was asked for: an error if it gave
    /// none.
    pub fn created(given: bool) -> (r: Result<SessionState, Error>)
        ensures
            given ==> r is Ok && !r->Ok_0.is_mounted(),
            !given ==> r is Err && r->Err_0 == Error::SessionNew,
    {
        if given {
            Ok(SessionState { mounted: false })
        } else {
            Err(Error::SessionNew)
        }
    }

    /// Refuses a mountpoint that no C string can hold.
    pub fn check_mountpoint(mountpoint: &str) -> (r: Result<(), Error>)
        ensures
            text::nul_free(mountpoint@) ==> r is Ok,
            !text::nul_free(mountpoint@) ==> (r matches Err(Error::InvalidMountpoint(mp)) && mp@
                == mountpoint@),
    {
        if text::contains_nul(mountpoint) {
            Err(Error::InvalidMountpoint(String::from_str(mountpoint)))
        } else {
            Ok(())
        }
    }

    /// Takes in the return code of an attempt to mount.
    pub fn mounted(&mut self, rc: i32) -> (r: Result<(), Error>)
        ensures
            rc == 0 ==> r is Ok && final(self).is_mounted(),
            rc != 0 ==> r is Err && r->Err_0 == Error::Mount && *final(self) == *old(self),
    {
        if rc != 0 {
            return Err(Error::Mount);
        }
        self.mounted = true;
        Ok(())
    }

    /// Takes in the return code of installing the signal handlers.
    pub fn handlers_installed(rc: i32) -> (r: Result<(), Error>)
        ensures
            rc == 0 ==> r is Ok,
            rc != 0 ==> r is Err && r->Err_0 == Error::SignalHandlers,
    {
        if rc != 0 {
            return Err(Error::SignalHandlers);
        }
        Ok(())
    }

    /// Takes in the return code of the session loop.
    pub fn loop_ended(rc: i32) -> (r: Result<(), Error>)
        ensures
            rc == 0 ==> r is Ok,
            rc != 0 ==> r is Err && r->Err_0 == Error::Loop(rc),
    {
        if rc != 0 {
            return Err(Error::Loop(rc));
        }
        Ok(())
    }

    /// Whether the session has to be unmounted before it is destroyed.
    pub fn must_unmount(&self) -> (r: bool)
        ensures
            r == self.is_mounted(),
    {
        self.mounted
    }
}

/// An option is rendered as libfuse spells it; a name follows the sign, and an
/// option of one's own is passed on as it is.
pub proof fn law_options_are_spelled_as_libfuse_reads_them(option: MountOption, s: String)
    requires
        call_ensures(MountOption::render, (&option,), s),
    ensures
        option is ReadOnly ==> s@ == "ro"@,
        option is AllowOther ==> s@ == "allow_other"@,
        option is AutoUnmount ==> s@ == "auto_unmount"@,
        option is DefaultPermissions ==> s@ == "default_permissions"@,
        option matches MountOption::FsName(name) ==> s@ == "fsname="@ + name@,
        option matches MountOption::Subtype(name) ==> s@ == "subtype="@ + name@,
        option matches MountOption::Custom(own) ==> s@ == own@,
{
}

/// A session without options gets the program's name alone. One with options gets
/// them as one argument behind `-o`: a single one as it is rendered, and each
/// further one behind a comma, in order.
pub proof fn law_arguments_grow_by_one_option(
    options: &[MountOption],
    more: &[MountOption],
    option: MountOption,
    args: Vec<String>,
    longer: Vec<String>,
    rendered: String,
)
    requires
        more@ == options@.push(option),
        call_ensures(session_args, (options,), args),
        call_ensures(session_args, (more,), longer),
        call_ensures(MountOption::render, (&option,), rendered),
    ensures
        args@.len() == if options@.len() == 0 {
            1nat
        } else {
            3nat
        },
        args@[0]@ == "fuse3"@,
        longer@.len() == 3,
        longer@[0]@ == "fuse3"@,
        longer@[1]@ == "-o"@,
        options@.len() == 0 ==> longer@[2]@ == rendered@,
        options@.len() > 0 ==> longer@[2]@ == args@[2]@ + ","@ + rendered@,
{
    assert(more@.drop_last() =~= options@);
    assert(more@.last() == option);
    assert(longer@[0]@ == arguments(more@)[0]);
    assert(longer@[1]@ == arguments(more@)[1]);
    assert(longer@[2]@ == arguments(more@)[2]);
    assert(args@[0]@ == arguments(options@)[0]);
    if options@.len() > 0 {
        assert(args@[2]@ == arguments(options@)[2]);
    }
}

/// Each step of a session's life succeeds exactly if its return code says so, and
/// fails with its own error, which keeps the code or the mountpoint.
pub proof fn law_steps_fail_with_their_own_error(
    rc: i32,
    given: bool,
    created: Result<SessionState, Error>,
    handlers: Result<(), Error>,
    ended: Result<(), Error>,
    mountpoint: &str,
    checked: Result<(), Error>,
    mounted: Result<(), Error>,
)
    requires
        call_ensures(SessionState::created, (given,), created),
        call_ensures(SessionState::handlers_installed, (rc,), handlers),
        call_ensures(SessionState::loop_ended, (rc,), ended),
        call_ensures(SessionState::check_mountpoint, (mountpoint,), checked),
    ensures
        match created {
            Ok(state) => given && !state.is_mounted(),
            Err(e) => !given && e is SessionNew,
        },
        match handlers {
            Ok(_) => rc == 0,
            Err(e) => rc != 0 && e is SignalHandlers,
        },
        match ended {
            Ok(_) => rc == 0,
            Err(e) => rc != 0 && e == Error::Loop(rc),
        },
        match checked {
            Ok(_) => forall|i: int| 0 <= i < mountpoint@.len() ==> mountpoint@[i] != '\0',
            Err(e) => {
                &&& exists|i: int| 0 <= i < mountpoint@.len() && mountpoint@[i] == '\0'
                &&& e matches Error::InvalidMountpoint(mp)
                &&& mp@ == mountpoint@
            },
        },
        forall|state: &mut SessionState| #[trigger]
            call_ensures(SessionState::mounted, (state, rc), mounted) ==> match mounted {
                Ok(_) => rc == 0 && final(state).is_mounted(),
                Err(e) => rc != 0 && e is Mount && final(state).is_mounted()
                    == state.is_mounted(),
            },
{
}

/// A session is unmounted exactly if it was mounted.
pub proof fn law_what_is_mounted_is_unmounted(state: SessionState, r: bool)
    requires
        call_ensures(SessionState::must_unmount, (&state,), r),
    ensures
        r == state.is_mounted(),
{
}

/// What is said of an error names the step that failed, and the code or the
/// mountpoint.
pub proof fn law_errors_say_what_failed(e: Error, s: String)
    requires
        call_ensures(Error::to_string, (&e,), s),
    ensures
        e is SessionNew ==> s@ == "failed to create the FUSE session"@,
        e is Mount ==> s@ == "failed to mount the FUSE session"@,
        e is SignalHandlers ==> s@ == "failed to install FUSE signal handlers"@,
        e matches Error::Loop(rc) ==> s@ == "FUSE session loop exited with code "@
            + text::decimal(rc as int),
        e matches Error::InvalidMountpoint(mp) ==> s@
            == "invalid mountpoint (contains a NUL byte): "@ + text::debug_quoted(mp@),
{
}

} // verus!

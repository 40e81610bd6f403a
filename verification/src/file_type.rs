//! The kinds of filesystem entries and their mode bits.

use vstd::prelude::*;

verus! {

/// The fixed FUSE inode number type.
pub type Inode = u64;

/// The inode number of the filesystem root (`FUSE_ROOT_ID`).
pub const ROOT_INODE: Inode = 1;

/// The bits of a mode that hold the file type.
pub const TYPE_MASK: u32 = 0o170000;

/// The type of a filesystem entry, corresponding to the `S_IFMT` bits of
/// `st_mode`.
#[derive(Clone, Copy, PartialEq, Eq, Debug, Hash, Structural)]
pub enum FileType {
    RegularFile,
    Directory,
    Symlink,
    CharDevice,
    BlockDevice,
    NamedPipe,
    Socket,
}

/// The name under which the node interface knows [`FileType`].
pub type FileKind = FileType;

/// The values of `libc`'s file type constants.
struct TypeBits {
    mask: u32,
    reg: u32,
    dir: u32,
    lnk: u32,
    chr: u32,
    blk: u32,
    fifo: u32,
    sock: u32,
}

/// Reads `libc`'s `S_IFMT` and the file types that it masks out. Their values
/// are the same on Linux and macOS.
#[verifier::external_body]
fn libc_type_bits() -> (b: TypeBits)
    ensures
        b.mask == 0o170000 && b.reg == 0o100000 && b.dir == 0o040000 && b.lnk == 0o120000,
        b.chr == 0o020000 && b.blk == 0o060000 && b.fifo == 0o010000 && b.sock == 0o140000,
{
    TypeBits {
        mask: libc::S_IFMT as u32,
        reg: libc::S_IFREG as u32,
        dir: libc::S_IFDIR as u32,
        lnk: libc::S_IFLNK as u32,
        chr: libc::S_IFCHR as u32,
        blk: libc::S_IFBLK as u32,
        fifo: libc::S_IFIFO as u32,
        sock: libc::S_IFSOCK as u32,
    }
}

impl FileType {
    /// The `S_IFMT` bits of a file type.
    pub open spec fn mode_bits(self) -> u32 {
        match self {
            FileType::RegularFile => 0o100000,
            FileType::Directory => 0o040000,
            FileType::Symlink => 0o120000,
            FileType::CharDevice => 0o020000,
            FileType::BlockDevice => 0o060000,
            FileType::NamedPipe => 0o010000,
            FileType::Socket => 0o140000,
        }
    }

    /// Returns the `S_IFMT` bits corresponding to this file type.
    pub fn to_mode_bits(self) -> (bits: u32)
        ensures
            bits == self.mode_bits(),
    {
        let b = libc_type_bits();
        match self {
            FileType::RegularFile => b.reg,
            FileType::Directory => b.dir,
            FileType::Symlink => b.lnk,
            FileType::CharDevice => b.chr,
            FileType::BlockDevice => b.blk,
            FileType::NamedPipe => b.fifo,
            FileType::Socket => b.sock,
        }
    }

    /// Decodes a file type from the `S_IFMT` bits of a mode value.
    pub fn from_mode_bits(mode: u32) -> (r: Option<FileType>)
        ensures
            r matches Some(kind) ==> mode & TYPE_MASK == kind.mode_bits(),
            r is None ==> forall|kind: FileType|
                #![trigger kind.mode_bits()]
                mode & TYPE_MASK != kind.mode_bits(),
    {
        let b = libc_type_bits();
        let m: u32 = mode & b.mask;
        if m == b.reg {
            Some(FileType::RegularFile)
        } else if m == b.dir {
            Some(FileType::Directory)
        } else if m == b.lnk {
            Some(FileType::Symlink)
        } else if m == b.chr {
            Some(FileType::CharDevice)
        } else if m == b.blk {
            Some(FileType::BlockDevice)
        } else if m == b.fifo {
            Some(FileType::NamedPipe)
        } else if m == b.sock {
            Some(FileType::Socket)
        } else {
            None
        }
    }
}

impl Default for FileType {
    fn default() -> (kind: FileType)
        ensures
            kind == FileType::RegularFile,
    {
        FileType::RegularFile
    }
}

/// Different file types have different mode bits, and all of them lie in the
/// type mask, so permission bits mixed in do not affect decoding.
pub proof fn law_mode_bits_round_trip(kind: FileType, other: FileType, perm: u32)
    requires
        perm & TYPE_MASK == 0,
    ensures
        (kind.mode_bits() | perm) & TYPE_MASK == kind.mode_bits(),
        kind.mode_bits() == other.mode_bits() ==> kind == other,
{
    let bits = kind.mode_bits();
    assert(bits & 0o170000 == bits) by {
        assert(0o100000u32 & 0o170000 == 0o100000) by (bit_vector);
        assert(0o040000u32 & 0o170000 == 0o040000) by (bit_vector);
        assert(0o120000u32 & 0o170000 == 0o120000) by (bit_vector);
        assert(0o020000u32 & 0o170000 == 0o020000) by (bit_vector);
        assert(0o060000u32 & 0o170000 == 0o060000) by (bit_vector);
        assert(0o010000u32 & 0o170000 == 0o010000) by (bit_vector);
        assert(0o140000u32 & 0o170000 == 0o140000) by (bit_vector);
    }
    assert((bits | perm) & 0o170000 == bits) by (bit_vector)
        requires
            bits & 0o170000 == bits,
            perm & 0o170000 == 0,
    ;
}

/// The mode bits of each file type are those that POSIX systems use.
pub proof fn law_kinds_have_their_bits(kind: FileType, bits: u32)
    requires
        call_ensures(FileType::to_mode_bits, (kind,), bits),
    ensures
        kind is RegularFile <==> bits == 0o100000,
        kind is Directory <==> bits == 0o040000,
        kind is Symlink <==> bits == 0o120000,
        kind is CharDevice <==> bits == 0o020000,
        kind is BlockDevice <==> bits == 0o060000,
        kind is NamedPipe <==> bits == 0o010000,
        kind is Socket <==> bits == 0o140000,
{
}

/// The file type that nothing is said of has the mode bits of a regular file.
pub proof fn law_default_kind_is_a_regular_file(kind: FileType, bits: u32)
    requires
        call_ensures(FileType::default, (), kind),
        call_ensures(FileType::to_mode_bits, (kind,), bits),
    ensures
        bits == 0o100000,
{
}

/// A mode decodes to a file type exactly if its type bits are those of the file
/// type, whatever its other bits are; so what was encoded is decoded again.
pub proof fn law_mode_decodes_to_what_it_encodes(
    mode: u32,
    r: Option<FileType>,
    kind: FileType,
    bits: u32,
)
    requires
        call_ensures(FileType::from_mode_bits, (mode,), r),
        call_ensures(FileType::to_mode_bits, (kind,), bits),
    ensures
        r == Some(kind) <==> mode & 0o170000 == bits,
{
    assert(0u32 & 0o170000 == 0) by (bit_vector);
    if let Some(other) = r {
        law_mode_bits_round_trip(kind, other, 0);
    }
}

} // verus!

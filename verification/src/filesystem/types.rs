//! What the filesystem interface speaks of.
use vstd::prelude::*;

verus! {

/// Names an open file, directory or background task that the embedder holds.
pub type Handle = u64;

/// A size or an offset in a file.
pub type Filesize = u64;

/// What a filesystem operation tells the guest when it fails.
#[derive(Clone, Copy, Debug, PartialEq, Eq, Structural)]
pub enum ErrorCode {
    Access,
    Already,
    BadDescriptor,
    Busy,
    Exist,
    FileTooLarge,
    IllegalByteSequence,
    InProgress,
    InsufficientMemory,
    InsufficientSpace,
    Interrupted,
    Invalid,
    InvalidSeek,
    Io,
    IsDirectory,
    Loop,
    NameTooLong,
    NoEntry,
    NotDirectory,
    NotEmpty,
    NotPermitted,
    Overflow,
    Pipe,
    TooManyLinks,
    Unsupported,
}

/// The kind of thing a path or a descriptor refers to.
#[derive(Clone, Copy, Debug, PartialEq, Eq, Structural)]
pub enum DescriptorType {
    Unknown,
    BlockDevice,
    CharacterDevice,
    Directory,
    SymbolicLink,
    RegularFile,
}

/// Advice on how a file will be accessed.
#[derive(Clone, Copy, Debug, PartialEq, Eq, Structural)]
pub enum Advice {
    Normal,
    Sequential,
    Random,
    WillNeed,
    DontNeed,
    NoReuse,
}

/// A point in time, from the Unix epoch on.
#[derive(Clone, Copy, Debug, PartialEq, Eq, Structural)]
pub struct Datetime {
    pub seconds: u64,
    pub nanoseconds: u32,
}

/// What to do to a timestamp.
#[derive(Clone, Copy, Debug, PartialEq, Eq, Structural)]
pub enum NewTimestamp {
    NoChange,
    Now,
    Timestamp(Datetime),
}

/// The time to give a file.
#[derive(Clone, Copy, Debug, PartialEq, Eq, Structural)]
pub enum TimeSpec {
    SymbolicNow,
    Absolute(Datetime),
}

/// An entry of a directory.
#[derive(Clone, Debug, PartialEq, Eq)]
pub struct DirectoryEntry {
    pub type_: DescriptorType,
    pub name: String,
}

/// What the guest learns of a file or a directory.
#[derive(Clone, Copy, Debug, PartialEq, Eq, Structural)]
pub struct DescriptorStat {
    pub type_: DescriptorType,
    pub link_count: u64,
    pub size: Filesize,
    pub data_access_timestamp: Option<Datetime>,
    pub data_modification_timestamp: Option<Datetime>,
    pub status_change_timestamp: Option<Datetime>,
}

/// A hash of the identity of a file or a directory.
#[derive(Clone, Copy, Debug, PartialEq, Eq, Structural)]
pub struct MetadataHashValue {
    pub lower: u64,
    pub upper: u64,
}

/// The answers of the operating system on what a file is. More than one may
/// be given.
#[derive(Clone, Copy, Debug, PartialEq, Eq, Structural)]
pub struct FileType {
    pub is_dir: bool,
    pub is_symlink: bool,
    pub is_block_device: bool,
    pub is_char_device: bool,
    pub is_file: bool,
}

/// What the operating system tells of a file or a directory. A timestamp is
/// missing where it does not keep it.
#[derive(Clone, Copy, Debug, PartialEq, Eq, Structural)]
pub struct Metadata {
    pub file_type: FileType,
    pub dev: u64,
    pub ino: u64,
    pub nlink: u64,
    pub len: u64,
    pub accessed: Option<Datetime>,
    pub modified: Option<Datetime>,
    pub created: Option<Datetime>,
}

/// The synchronisation flags that the operating system reports of an open
/// file.
#[derive(Clone, Copy, Debug, PartialEq, Eq, Structural)]
pub struct FdFlags {
    pub dsync: bool,
    pub rsync: bool,
    pub sync: bool,
}

/// How the operating system is to open a path.
#[derive(Clone, Copy, Debug, PartialEq, Eq, Structural)]
pub struct OpenOptions {
    pub read: bool,
    pub write: bool,
    pub create: bool,
    pub create_new: bool,
    pub truncate: bool,
    /// The path may name a directory.
    pub maybe_dir: bool,
    /// Follow a symbolic link at the end of the path.
    pub follow: bool,
}

/// Whether a path's last component is followed where it is a symbolic link.
#[derive(Clone, Copy, Debug, PartialEq, Eq, Structural)]
pub enum Follow {
    Yes,
    No,
}

/// One call on the operating system, on a file or a directory that is open.
#[derive(Clone, Debug, PartialEq, Eq)]
pub enum FsCall {
    Advise { file: Handle, offset: Filesize, length: Filesize, advice: Advice },
    /// Write a file's data out.
    SyncFileData { file: Handle },
    /// Open a directory as a file and write its data out.
    SyncDirData { dir: Handle },
    /// Write a file's data and metadata out.
    SyncFile { file: Handle },
    /// Open a directory as a file and write its data and metadata out.
    SyncDir { dir: Handle },
    FileFlags { file: Handle },
    DirFlags { dir: Handle },
    FileMetadata { file: Handle },
    DirMetadata { dir: Handle },
    SetLen { file: Handle, size: Filesize },
    SetFileTimes { file: Handle, atim: Option<TimeSpec>, mtim: Option<TimeSpec> },
    SetDirTimes { dir: Handle, atim: Option<TimeSpec>, mtim: Option<TimeSpec> },
    /// Read at most `len` bytes from `offset` on.
    ReadAt { file: Handle, len: usize, offset: Filesize },
    WriteAt { file: Handle, buf: Vec<u8>, offset: Filesize },
    Entries { dir: Handle },
    CreateDir { dir: Handle, path: String },
    MetadataAt { dir: Handle, path: String, follow: Follow },
    SetTimesAt {
        dir: Handle,
        path: String,
        follow: Follow,
        atim: Option<TimeSpec>,
        mtim: Option<TimeSpec>,
    },
    HardLink { dir: Handle, old_path: String, new_dir: Handle, new_path: String },
    Open { dir: Handle, path: String, options: OpenOptions },
    ReadLink { dir: Handle, path: String },
    RemoveDir { dir: Handle, path: String },
    Rename { dir: Handle, old_path: String, new_dir: Handle, new_path: String },
    Symlink { dir: Handle, src_path: String, dest_path: String },
    RemoveFileOrSymlink { dir: Handle, path: String },
}

/// Where a blocking call is made.
#[derive(Clone, Copy, Debug, PartialEq, Eq, Structural)]
pub enum BlockingPlace {
    /// On the thread that asked.
    CurrentThread,
    /// On a thread that is kept for blocking calls; the answer comes later.
    BackgroundThread,
}

} // verus!

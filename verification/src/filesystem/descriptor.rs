//! What may be done with an open file or directory.
use super::flags;
use super::flags::{DescriptorFlags, DirPerms, FilePerms, OpenFlags, OpenMode, PathFlags};
use super::streams::{FileInputStream, FileOutputMode, FileOutputStream};
use super::times::systemtimespec_from;
use super::types::{
    Advice, BlockingPlace, DescriptorType, ErrorCode, FdFlags, Filesize, Follow, FsCall, Handle,
    NewTimestamp, OpenOptions, TimeSpec,
};
use super::windows;
use crate::errno::Platform;
use crate::error::IoError;
use vstd::prelude::*;

verus! {

/// An open file.
#[derive(Clone, Copy, Debug, PartialEq, Eq, Structural)]
pub struct File {
    /// The operating system file this struct is mediating access to.
    pub file: Handle,
    /// Permissions to enforce on access to the file, prior to any enforced by
    /// the underlying operating system.
    pub perms: FilePerms,
    /// The mode the file was opened under: bits for reading, and writing.
    pub open_mode: OpenMode,
    /// Blocking calls may be made on the thread that asks for them.
    pub allow_blocking_current_thread: bool,
}

impl File {
    pub fn new(
        file: Handle,
        perms: FilePerms,
        open_mode: OpenMode,
        allow_blocking_current_thread: bool,
    ) -> (r: File)
        ensures
            r == (File { file, perms, open_mode, allow_blocking_current_thread }),
    {
        File { file, perms, open_mode, allow_blocking_current_thread }
    }

    /// Returns `Some` when the current thread is allowed to block in filesystem
    /// operations, and otherwise returns `None` to indicate that the call must
    /// be made on a background thread.
    pub fn as_blocking_file(&self) -> (r: Option<Handle>)
        ensures
            r == if self.allow_blocking_current_thread {
                Some(self.file)
            } else {
                None
            },
    {
        if self.allow_blocking_current_thread {
            Some(self.file)
        } else {
            None
        }
    }

    /// Where a blocking call on this file is made.
    pub fn spawn_blocking(&self) -> (r: BlockingPlace)
        ensures
            r == if self.allow_blocking_current_thread {
                BlockingPlace::CurrentThread
            } else {
                BlockingPlace::BackgroundThread
            },
    {
        match self.as_blocking_file() {
            Some(_) => BlockingPlace::CurrentThread,
            None => BlockingPlace::BackgroundThread,
        }
    }
}

/// An open directory.
#[derive(Clone, Copy, Debug, PartialEq, Eq, Structural)]
pub struct RealDir {
    /// The operating system file descriptor this struct is mediating access
    /// to.
    pub dir: Handle,
    /// Permissions to enforce on access to this directory, prior to any
    /// enforced by the underlying operating system.
    ///
    /// These permissions are also enforced on any directories opened under
    /// this directory.
    pub perms: DirPerms,
    /// Permissions to enforce on any files opened under this directory.
    pub file_perms: FilePerms,
    /// The mode the directory was opened under: bits for reading, and writing.
    pub open_mode: OpenMode,
    /// Blocking calls may be made on the thread that asks for them.
    pub allow_blocking_current_thread: bool,
}

/// What an opened path turned out to be.
#[derive(Clone, Copy, Debug, PartialEq, Eq, Structural)]
pub enum OpenedKind {
    Dir,
    /// Not a directory, though a directory was asked for. It is closed again.
    NotDir,
    /// A file, on which reads and writes are to be made non-blocking.
    File,
}

impl RealDir {
    pub fn new(
        dir: Handle,
        perms: DirPerms,
        file_perms: FilePerms,
        open_mode: OpenMode,
        allow_blocking_current_thread: bool,
    ) -> (r: RealDir)
        ensures
            r == (RealDir { dir, perms, file_perms, open_mode, allow_blocking_current_thread }),
    {
        RealDir { dir, perms, file_perms, open_mode, allow_blocking_current_thread }
    }

    /// Where a blocking call on this directory is made.
    pub fn spawn_blocking(&self) -> (r: BlockingPlace)
        ensures
            r == if self.allow_blocking_current_thread {
                BlockingPlace::CurrentThread
            } else {
                BlockingPlace::BackgroundThread
            },
    {
        if self.allow_blocking_current_thread {
            BlockingPlace::CurrentThread
        } else {
            BlockingPlace::BackgroundThread
        }
    }

    /// Why opening a path under this directory is refused before the
    /// operating system is asked; nothing where it is not.
    pub open spec fn open_refusal(self, oflags: OpenFlags, flags: DescriptorFlags) -> Option<
        ErrorCode,
    > {
        if !self.perms.contains(DirPerms::read()) {
            Some(ErrorCode::NotPermitted)
        } else if !self.perms.contains(DirPerms::mutate()) && (oflags.contains(OpenFlags::create())
            || oflags.contains(OpenFlags::truncate()) || flags.contains(DescriptorFlags::write())) {
            Some(ErrorCode::NotPermitted)
        } else if flags.contains(DescriptorFlags::file_integrity_sync()) || flags.contains(
            DescriptorFlags::data_integrity_sync(),
        ) || flags.contains(DescriptorFlags::requested_write_sync()) {
            Some(ErrorCode::Unsupported)
        } else if oflags.contains(OpenFlags::directory()) && (oflags.contains(OpenFlags::create())
            || oflags.contains(OpenFlags::exclusive()) || oflags.contains(OpenFlags::truncate())) {
            Some(ErrorCode::Invalid)
        } else if !self.file_perms.contains(FilePerms::write()) && (oflags.contains(
            OpenFlags::create(),
        ) || oflags.contains(OpenFlags::truncate()) || flags.contains(DescriptorFlags::write())) {
            Some(ErrorCode::NotPermitted)
        } else {
            None
        }
    }

    /// The descriptor for what was opened under this directory: it has the
    /// permissions that this directory passes on. An error where a directory
    /// was asked for and something else was found.
    pub open spec fn opened_as(
        self,
        kind: OpenedKind,
        handle: Handle,
        open_mode: OpenMode,
    ) -> Result<Descriptor, ErrorCode> {
        match kind {
            OpenedKind::Dir => Ok(Descriptor::Dir(RealDir { dir: handle, open_mode, ..self })),
            OpenedKind::File => Ok(
                Descriptor::File(
                    File {
                        file: handle,
                        perms: self.file_perms,
                        open_mode,
                        allow_blocking_current_thread: self.allow_blocking_current_thread,
                    },
                ),
            ),
            OpenedKind::NotDir => Err(ErrorCode::NotDirectory),
        }
    }

    /// See [`RealDir::opened_as`].
    pub fn opened(&self, kind: OpenedKind, handle: Handle, open_mode: OpenMode) -> (r: Result<
        Descriptor,
        ErrorCode,
    >)
        ensures
            r == self.opened_as(kind, handle, open_mode),
    {
        match kind {
            OpenedKind::Dir => Ok(
                Descriptor::Dir(
                    RealDir::new(
                        handle,
                        self.perms,
                        self.file_perms,
                        open_mode,
                        self.allow_blocking_current_thread,
                    ),
                ),
            ),
            OpenedKind::File => Ok(
                Descriptor::File(
                    File::new(
                        handle,
                        self.file_perms,
                        open_mode,
                        self.allow_blocking_current_thread,
                    ),
                ),
            ),
            OpenedKind::NotDir => Err(ErrorCode::NotDirectory),
        }
    }
}

/// What to make of an opened path, by whether it is a directory and by what
/// was asked for.
pub fn opened_kind(is_dir: bool, oflags: OpenFlags) -> (r: OpenedKind)
    ensures
        r == if is_dir {
            OpenedKind::Dir
        } else if oflags.contains(OpenFlags::directory()) {
            OpenedKind::NotDir
        } else {
            OpenedKind::File
        },
{
    if is_dir {
        OpenedKind::Dir
    } else if oflags.contains(OpenFlags::directory()) {
        OpenedKind::NotDir
    } else {
        OpenedKind::File
    }
}

/// The options under which a path is opened.
pub open spec fn open_options(
    path_flags: PathFlags,
    oflags: OpenFlags,
    flags: DescriptorFlags,
) -> OpenOptions {
    let create = oflags.contains(OpenFlags::create());
    let exclusive = oflags.contains(OpenFlags::exclusive());
    let truncate = oflags.contains(OpenFlags::truncate());
    let write = flags.contains(DescriptorFlags::write());
    OpenOptions {
        // Where it is not opened for writing it is opened for reading, so
        // that the operating system opens it at all.
        read: flags.contains(DescriptorFlags::read()) || !write,
        write: create || truncate || write,
        create: create && !exclusive,
        create_new: create && exclusive,
        truncate,
        maybe_dir: true,
        follow: path_flags.contains(PathFlags::symlink_follow()),
    }
}

/// The mode that is kept of an opened path.
pub open spec fn open_mode(oflags: OpenFlags, flags: DescriptorFlags) -> OpenMode {
    OpenMode::of(
        flags.contains(DescriptorFlags::read()) || !flags.contains(DescriptorFlags::write()),
        oflags.contains(OpenFlags::create()) || flags.contains(DescriptorFlags::write()),
    )
}

/// How far a path's last component is followed.
pub open spec fn follow_spec(path_flags: PathFlags) -> Follow {
    if path_flags.contains(PathFlags::symlink_follow()) {
        Follow::Yes
    } else {
        Follow::No
    }
}

/// The type of a descriptor, or the call whose answer tells it.
#[derive(Clone, Debug, PartialEq, Eq)]
pub enum TypeQuery {
    Known(DescriptorType),
    Ask(FsCall),
}

/// A file or a directory that the guest has open.
#[derive(Clone, Copy, Debug, PartialEq, Eq, Structural)]
pub enum Descriptor {
    File(File),
    Dir(RealDir),
}

impl Descriptor {
    /// The file, where it is one.
    pub open spec fn file_spec(self) -> Result<File, ErrorCode> {
        match self {
            Descriptor::File(f) => Ok(f),
            Descriptor::Dir(_) => Err(ErrorCode::BadDescriptor),
        }
    }

    /// The directory, where it is one.
    pub open spec fn dir_spec(self) -> Result<RealDir, ErrorCode> {
        match self {
            Descriptor::Dir(d) => Ok(d),
            Descriptor::File(_) => Err(ErrorCode::NotDirectory),
        }
    }

    /// The file, where it is one that grants `perms`.
    pub open spec fn permitted_file(self, perms: FilePerms) -> Result<File, ErrorCode> {
        match self.file_spec() {
            Ok(f) => if f.perms.contains(perms) {
                Ok(f)
            } else {
                Err(ErrorCode::NotPermitted)
            },
            Err(e) => Err(e),
        }
    }

    /// The directory, where it is one that grants `perms`.
    pub open spec fn permitted_dir(self, perms: DirPerms) -> Result<RealDir, ErrorCode> {
        match self.dir_spec() {
            Ok(d) => if d.perms.contains(perms) {
                Ok(d)
            } else {
                Err(ErrorCode::NotPermitted)
            },
            Err(e) => Err(e),
        }
    }

    pub fn file(&self) -> (r: Result<&File, ErrorCode>)
        ensures
            match self.file_spec() {
                Ok(f) => r matches Ok(g) && *g == f,
                Err(e) => r == Err::<&File, ErrorCode>(e),
            },
    {
        match self {
            Descriptor::File(f) => Ok(f),
            Descriptor::Dir(_) => Err(ErrorCode::BadDescriptor),
        }
    }

    pub fn dir(&self) -> (r: Result<&RealDir, ErrorCode>)
        ensures
            match self.dir_spec() {
                Ok(d) => r matches Ok(g) && *g == d,
                Err(e) => r == Err::<&RealDir, ErrorCode>(e),
            },
    {
        match self {
            Descriptor::Dir(d) => Ok(d),
            Descriptor::File(_) => Err(ErrorCode::NotDirectory),
        }
    }

    fn file_with(&self, perms: FilePerms) -> (r: Result<&File, ErrorCode>)
        ensures
            match self.permitted_file(perms) {
                Ok(f) => r matches Ok(g) && *g == f,
                Err(e) => r == Err::<&File, ErrorCode>(e),
            },
    {
        let f: &File = self.file()?;
        if !f.perms.contains(perms) {
            return Err(ErrorCode::NotPermitted);
        }
        Ok(f)
    }

    fn dir_with(&self, perms: DirPerms) -> (r: Result<&RealDir, ErrorCode>)
        ensures
            match self.permitted_dir(perms) {
                Ok(d) => r matches Ok(g) && *g == d,
                Err(e) => r == Err::<&RealDir, ErrorCode>(e),
            },
    {
        let d: &RealDir = self.dir()?;
        if !d.perms.contains(perms) {
            return Err(ErrorCode::NotPermitted);
        }
        Ok(d)
    }

    pub fn is_file(&self) -> (r: bool)
        ensures
            r == (self is File),
    {
        match self {
            Descriptor::File(_) => true,
            Descriptor::Dir(_) => false,
        }
    }

    pub fn is_dir(&self) -> (r: bool)
        ensures
            r == (self is Dir),
    {
        match self {
            Descriptor::File(_) => false,
            Descriptor::Dir(_) => true,
        }
    }

    pub fn advise(&self, offset: Filesize, len: Filesize, advice: Advice) -> (r: Result<
        FsCall,
        ErrorCode,
    >)
        ensures
            r == match self.file_spec() {
                Ok(f) => Ok::<FsCall, ErrorCode>(
                    FsCall::Advise { file: f.file, offset, length: len, advice },
                ),
                Err(e) => Err(e),
            },
    {
        let f: &File = self.file()?;
        Ok(FsCall::Advise { file: f.file, offset, length: len, advice })
    }

    pub fn sync_data(&self) -> (r: FsCall)
        ensures
            r == match self {
                Descriptor::File(f) => FsCall::SyncFileData { file: f.file },
                Descriptor::Dir(d) => FsCall::SyncDirData { dir: d.dir },
            },
    {
        match self {
            Descriptor::File(f) => FsCall::SyncFileData { file: f.file },
            Descriptor::Dir(d) => FsCall::SyncDirData { dir: d.dir },
        }
    }

    pub fn sync(&self) -> (r: FsCall)
        ensures
            r == match self {
                Descriptor::File(f) => FsCall::SyncFile { file: f.file },
                Descriptor::Dir(d) => FsCall::SyncDir { dir: d.dir },
            },
    {
        match self {
            Descriptor::File(f) => FsCall::SyncFile { file: f.file },
            Descriptor::Dir(d) => FsCall::SyncDir { dir: d.dir },
        }
    }

    /// What the guest is told once the descriptor is synchronized. On Windows
    /// a file that is not open for writing cannot be flushed, which is
    /// overlooked; a directory's failure never is.
    pub fn synced(&self, platform: &Platform, outcome: Result<(), IoError>) -> (r: Result<
        (),
        ErrorCode,
    >)
        ensures
            match outcome {
                Ok(_) => r is Ok,
                Err(e) => if *self is File && platform.windows && windows::sync_was_denied(e) {
                    r is Ok
                } else {
                    r == Err::<(), ErrorCode>(platform.filesystem_error_spec(e))
                },
            },
    {
        match self {
            Descriptor::File(_) => platform.sync_result(outcome),
            Descriptor::Dir(_) => platform.filesystem_result(outcome),
        }
    }

    /// Asks for the flags that [`Descriptor::flags_from`] completes.
    pub fn get_flags(&self) -> (r: FsCall)
        ensures
            r == match self {
                Descriptor::File(f) => FsCall::FileFlags { file: f.file },
                Descriptor::Dir(d) => FsCall::DirFlags { dir: d.dir },
            },
    {
        match self {
            Descriptor::File(f) => FsCall::FileFlags { file: f.file },
            Descriptor::Dir(d) => FsCall::DirFlags { dir: d.dir },
        }
    }

    /// The mode under which the descriptor was opened.
    pub open spec fn mode(self) -> OpenMode {
        match self {
            Descriptor::File(f) => f.open_mode,
            Descriptor::Dir(d) => d.open_mode,
        }
    }

    /// The flags of the descriptor: those that the operating system reports
    /// and those of the mode it was opened under. To write to a directory is
    /// to mutate it.
    pub open spec fn all_flags(self, reported: FdFlags) -> DescriptorFlags {
        DescriptorFlags::empty().union(
            DescriptorFlags::requested_write_sync().when(reported.dsync),
        ).union(DescriptorFlags::data_integrity_sync().when(reported.rsync)).union(
            DescriptorFlags::file_integrity_sync().when(reported.sync),
        ).union(DescriptorFlags::read().when(self.mode().contains(OpenMode::read()))).union(
            match self {
                Descriptor::File(_) => DescriptorFlags::write(),
                Descriptor::Dir(_) => DescriptorFlags::mutate_directory(),
            }.when(self.mode().contains(OpenMode::write())),
        )
    }

    /// See [`Descriptor::all_flags`].
    pub fn flags_from(&self, reported: FdFlags) -> (r: DescriptorFlags)
        ensures
            r == self.all_flags(reported),
    {
        let mut flags: DescriptorFlags = get_from_fdflags(reported);
        match self {
            Descriptor::File(f) => {
                if f.open_mode.contains(OpenMode::read()) {
                    flags = flags.union(DescriptorFlags::read());
                } else {
                    proof {
                        flags::lemma_union_with_none(flags);
                    }
                }
                if f.open_mode.contains(OpenMode::write()) {
                    flags = flags.union(DescriptorFlags::write());
                } else {
                    proof {
                        flags::lemma_union_with_none(flags);
                    }
                }
            },
            Descriptor::Dir(d) => {
                if d.open_mode.contains(OpenMode::read()) {
                    flags = flags.union(DescriptorFlags::read());
                } else {
                    proof {
                        flags::lemma_union_with_none(flags);
                    }
                }
                if d.open_mode.contains(OpenMode::write()) {
                    flags = flags.union(DescriptorFlags::mutate_directory());
                } else {
                    proof {
                        flags::lemma_union_with_none(flags);
                    }
                }
            },
        }
        flags
    }

    /// A directory is a directory; what a file is, its metadata tells.
    pub fn get_type(&self) -> (r: TypeQuery)
        ensures
            r == match self {
                Descriptor::File(f) => TypeQuery::Ask(FsCall::FileMetadata { file: f.file }),
                Descriptor::Dir(_) => TypeQuery::Known(DescriptorType::Directory),
            },
    {
        match self {
            Descriptor::File(f) => TypeQuery::Ask(FsCall::FileMetadata { file: f.file }),
            Descriptor::Dir(_) => TypeQuery::Known(DescriptorType::Directory),
        }
    }

    pub fn set_size(&self, size: Filesize) -> (r: Result<FsCall, ErrorCode>)
        ensures
            r == match self.permitted_file(FilePerms::write()) {
                Ok(f) => Ok::<FsCall, ErrorCode>(FsCall::SetLen { file: f.file, size }),
                Err(e) => Err(e),
            },
    {
        let f: &File = self.file_with(FilePerms::write())?;
        Ok(FsCall::SetLen { file: f.file, size })
    }

    /// The descriptor grants changing its own timestamps.
    pub open spec fn may_set_times(self) -> bool {
        match self {
            Descriptor::File(f) => f.perms.contains(FilePerms::write()),
            Descriptor::Dir(d) => d.perms.contains(DirPerms::mutate()),
        }
    }

    /// The call that sets the two times, where they could be made.
    pub open spec fn set_times_spec(
        self,
        atim: Result<Option<TimeSpec>, ErrorCode>,
        mtim: Result<Option<TimeSpec>, ErrorCode>,
    ) -> Result<FsCall, ErrorCode> {
        if !self.may_set_times() {
            Err(ErrorCode::NotPermitted)
        } else {
            match (atim, mtim) {
                (Err(e), _) => Err(e),
                (Ok(_), Err(e)) => Err(e),
                (Ok(atim), Ok(mtim)) => match self {
                    Descriptor::File(f) => Ok(FsCall::SetFileTimes { file: f.file, atim, mtim }),
                    Descriptor::Dir(d) => Ok(FsCall::SetDirTimes { dir: d.dir, atim, mtim }),
                },
            }
        }
    }

    /// Sets the two times, each given as what became of it.
    pub fn set_times_given(
        &self,
        atim: Result<Option<TimeSpec>, ErrorCode>,
        mtim: Result<Option<TimeSpec>, ErrorCode>,
    ) -> (r: Result<FsCall, ErrorCode>)
        ensures
            r == self.set_times_spec(atim, mtim),
    {
        match self {
            Descriptor::File(f) => {
                if !f.perms.contains(FilePerms::write()) {
                    return Err(ErrorCode::NotPermitted);
                }
                let atim: Option<TimeSpec> = atim?;
                let mtim: Option<TimeSpec> = mtim?;
                Ok(FsCall::SetFileTimes { file: f.file, atim, mtim })
            },
            Descriptor::Dir(d) => {
                if !d.perms.contains(DirPerms::mutate()) {
                    return Err(ErrorCode::NotPermitted);
                }
                let atim: Option<TimeSpec> = atim?;
                let mtim: Option<TimeSpec> = mtim?;
                Ok(FsCall::SetDirTimes { dir: d.dir, atim, mtim })
            },
        }
    }

    /// Sets the two times. Whether this machine can represent a time is for
    /// it to say.
    pub fn set_times(&self, atim: NewTimestamp, mtim: NewTimestamp) -> (r: Result<
        FsCall,
        ErrorCode,
    >)
        requires
            self.may_set_times() ==> atim.is_valid() && mtim.is_valid(),
        ensures
            !self.may_set_times() ==> r == Err::<FsCall, ErrorCode>(ErrorCode::NotPermitted),
            self.may_set_times() ==> exists|atim_fits: bool, mtim_fits: bool|
                {
                    &&& #[trigger] atim.machine_says(atim_fits)
                    &&& #[trigger] mtim.machine_says(mtim_fits)
                    &&& r == self.set_times_spec(
                        atim.timespec(atim_fits),
                        mtim.timespec(mtim_fits),
                    )
                },
    {
        let permitted: bool = match self {
            Descriptor::File(f) => f.perms.contains(FilePerms::write()),
            Descriptor::Dir(d) => d.perms.contains(DirPerms::mutate()),
        };
        if !permitted {
            return Err(ErrorCode::NotPermitted);
        }
        let atim_spec: Result<Option<TimeSpec>, ErrorCode> = systemtimespec_from(atim);
        let mtim_spec: Result<Option<TimeSpec>, ErrorCode> = systemtimespec_from(mtim);
        self.set_times_given(atim_spec, mtim_spec)
    }

    /// Reads `len` bytes, or as many as memory can address, from `offset` on.
    pub fn read(&self, len: Filesize, offset: Filesize) -> (r: Result<FsCall, ErrorCode>)
        ensures
            r == match self.permitted_file(FilePerms::read()) {
                Ok(f) => Ok::<FsCall, ErrorCode>(
                    FsCall::ReadAt {
                        file: f.file,
                        len: if len <= usize::MAX {
                            len as usize
                        } else {
                            usize::MAX
                        },
                        offset,
                    },
                ),
                Err(e) => Err(e),
            },
    {
        let f: &File = self.file_with(FilePerms::read())?;
        let len: usize = if len <= usize::MAX as u64 {
            len as usize
        } else {
            usize::MAX
        };
        Ok(FsCall::ReadAt { file: f.file, len, offset })
    }

    pub fn write(&self, buf: Vec<u8>, offset: Filesize) -> (r: Result<FsCall, ErrorCode>)
        ensures
            r == match self.permitted_file(FilePerms::write()) {
                Ok(f) => Ok::<FsCall, ErrorCode>(FsCall::WriteAt { file: f.file, buf, offset }),
                Err(e) => Err(e),
            },
    {
        let f: &File = self.file_with(FilePerms::write())?;
        Ok(FsCall::WriteAt { file: f.file, buf, offset })
    }

    pub fn read_directory(&self) -> (r: Result<FsCall, ErrorCode>)
        ensures
            r == match self.permitted_dir(DirPerms::read()) {
                Ok(d) => Ok::<FsCall, ErrorCode>(FsCall::Entries { dir: d.dir }),
                Err(e) => Err(e),
            },
    {
        let d: &RealDir = self.dir_with(DirPerms::read())?;
        Ok(FsCall::Entries { dir: d.dir })
    }

    pub fn create_directory_at(&self, path: String) -> (r: Result<FsCall, ErrorCode>)
        ensures
            r == match self.permitted_dir(DirPerms::mutate()) {
                Ok(d) => Ok::<FsCall, ErrorCode>(FsCall::CreateDir { dir: d.dir, path }),
                Err(e) => Err(e),
            },
    {
        let d: &RealDir = self.dir_with(DirPerms::mutate())?;
        Ok(FsCall::CreateDir { dir: d.dir, path })
    }

    /// The call for the metadata of what is open.
    pub open spec fn metadata_request(self) -> FsCall {
        match self {
            Descriptor::File(f) => FsCall::FileMetadata { file: f.file },
            Descriptor::Dir(d) => FsCall::DirMetadata { dir: d.dir },
        }
    }

    /// Asks for the metadata of what is open. It takes no permission: what is
    /// open may be looked at.
    pub fn stat(&self) -> (r: FsCall)
        ensures
            r == self.metadata_request(),
    {
        match self {
            Descriptor::File(f) => FsCall::FileMetadata { file: f.file },
            Descriptor::Dir(d) => FsCall::DirMetadata { dir: d.dir },
        }
    }

    pub fn stat_at(&self, path_flags: PathFlags, path: String) -> (r: Result<FsCall, ErrorCode>)
        ensures
            r == match self.permitted_dir(DirPerms::read()) {
                Ok(d) => Ok::<FsCall, ErrorCode>(
                    FsCall::MetadataAt { dir: d.dir, path, follow: follow_spec(path_flags) },
                ),
                Err(e) => Err(e),
            },
    {
        let d: &RealDir = self.dir_with(DirPerms::read())?;
        Ok(FsCall::MetadataAt { dir: d.dir, path, follow: symlink_follow(path_flags) })
    }

    /// The call that sets the two times of a path, where they could be made.
    pub open spec fn set_times_at_spec(
        self,
        path_flags: PathFlags,
        path: String,
        atim: Result<Option<TimeSpec>, ErrorCode>,
        mtim: Result<Option<TimeSpec>, ErrorCode>,
    ) -> Result<FsCall, ErrorCode> {
        match self.permitted_dir(DirPerms::mutate()) {
            Err(e) => Err(e),
            Ok(d) => match (atim, mtim) {
                (Err(e), _) => Err(e),
                (Ok(_), Err(e)) => Err(e),
                (Ok(atim), Ok(mtim)) => Ok(
                    FsCall::SetTimesAt {
                        dir: d.dir,
                        path,
                        follow: follow_spec(path_flags),
                        atim,
                        mtim,
                    },
                ),
            },
        }
    }

    /// Sets the two times of a path, each given as what became of it.
    pub fn set_times_at_given(
        &self,
        path_flags: PathFlags,
        path: String,
        atim: Result<Option<TimeSpec>, ErrorCode>,
        mtim: Result<Option<TimeSpec>, ErrorCode>,
    ) -> (r: Result<FsCall, ErrorCode>)
        ensures
            r == self.set_times_at_spec(path_flags, path, atim, mtim),
    {
        let d: &RealDir = self.dir_with(DirPerms::mutate())?;
        let atim: Option<TimeSpec> = atim?;
        let mtim: Option<TimeSpec> = mtim?;
        Ok(
            FsCall::SetTimesAt {
                dir: d.dir,
                path,
                follow: symlink_follow(path_flags),
                atim,
                mtim,
            },
        )
    }

    /// Sets the two times of a path. Whether this machine can represent a
    /// time is for it to say.
    pub fn set_times_at(
        &self,
        path_flags: PathFlags,
        path: String,
        atim: NewTimestamp,
        mtim: NewTimestamp,
    ) -> (r: Result<FsCall, ErrorCode>)
        requires
            self.permitted_dir(DirPerms::mutate()) is Ok ==> atim.is_valid() && mtim.is_valid(),
        ensures
            match self.permitted_dir(DirPerms::mutate()) {
                Err(e) => r == Err::<FsCall, ErrorCode>(e),
                Ok(_) => exists|atim_fits: bool, mtim_fits: bool|
                    {
                        &&& #[trigger] atim.machine_says(atim_fits)
                        &&& #[trigger] mtim.machine_says(mtim_fits)
                        &&& r == self.set_times_at_spec(
                            path_flags,
                            path,
                            atim.timespec(atim_fits),
                            mtim.timespec(mtim_fits),
                        )
                    },
            },
    {
        match self.dir_with(DirPerms::mutate()) {
            Err(e) => return Err(e),
            Ok(_) => {},
        }
        let atim_spec: Result<Option<TimeSpec>, ErrorCode> = systemtimespec_from(atim);
        let mtim_spec: Result<Option<TimeSpec>, ErrorCode> = systemtimespec_from(mtim);
        self.set_times_at_given(path_flags, path, atim_spec, mtim_spec)
    }

    /// Links a path under this directory to one under another. A link at the
    /// end of the old path cannot be followed.
    pub open spec fn link_request(
        self,
        old_path_flags: PathFlags,
        old_path: String,
        new_descriptor: Descriptor,
        new_path: String,
    ) -> Result<FsCall, ErrorCode> {
        match (
            self.permitted_dir(DirPerms::mutate()),
            new_descriptor.permitted_dir(DirPerms::mutate()),
        ) {
            (Err(e), _) => Err(e),
            (Ok(_), Err(e)) => Err(e),
            (Ok(old), Ok(new)) => if old_path_flags.contains(PathFlags::symlink_follow()) {
                Err(ErrorCode::Invalid)
            } else {
                Ok(FsCall::HardLink { dir: old.dir, old_path, new_dir: new.dir, new_path })
            },
        }
    }

    /// See [`Descriptor::link_request`].
    pub fn link_at(
        &self,
        old_path_flags: PathFlags,
        old_path: String,
        new_descriptor: &Descriptor,
        new_path: String,
    ) -> (r: Result<FsCall, ErrorCode>)
        ensures
            r == self.link_request(old_path_flags, old_path, *new_descriptor, new_path),
    {
        let old_dir: &RealDir = self.dir_with(DirPerms::mutate())?;
        let new_dir: &RealDir = new_descriptor.dir_with(DirPerms::mutate())?;
        if old_path_flags.contains(PathFlags::symlink_follow()) {
            return Err(ErrorCode::Invalid);
        }
        Ok(FsCall::HardLink { dir: old_dir.dir, old_path, new_dir: new_dir.dir, new_path })
    }

    /// Opens a path under this directory: what the operating system is to do,
    /// and the mode to keep of it.
    pub open spec fn open_request(
        self,
        path_flags: PathFlags,
        path: String,
        oflags: OpenFlags,
        flags: DescriptorFlags,
    ) -> Result<(FsCall, OpenMode), ErrorCode> {
        match self.dir_spec() {
            Err(e) => Err(e),
            Ok(d) => match d.open_refusal(oflags, flags) {
                Some(e) => Err(e),
                None => Ok(
                    (
                        FsCall::Open {
                            dir: d.dir,
                            path,
                            options: open_options(path_flags, oflags, flags),
                        },
                        open_mode(oflags, flags),
                    ),
                ),
            },
        }
    }

    /// See [`Descriptor::open_request`].
    pub fn open_at(
        &self,
        path_flags: PathFlags,
        path: String,
        oflags: OpenFlags,
        flags: DescriptorFlags,
    ) -> (r: Result<(FsCall, OpenMode), ErrorCode>)
        ensures
            r == self.open_request(path_flags, path, oflags, flags),
    {
        let d: &RealDir = self.dir()?;
        if !d.perms.contains(DirPerms::read()) {
            return Err(ErrorCode::NotPermitted);
        }
        if !d.perms.contains(DirPerms::mutate()) {
            if oflags.contains(OpenFlags::create()) || oflags.contains(OpenFlags::truncate()) {
                return Err(ErrorCode::NotPermitted);
            }
            if flags.contains(DescriptorFlags::write()) {
                return Err(ErrorCode::NotPermitted);
            }
        }
        // Track whether we are creating file, for permission check:
        let mut create: bool = false;
        // Track open mode, for permission check and recording in created descriptor:
        let mut mode: OpenMode = OpenMode::empty();
        // The options to give the operating system:
        let mut options: OpenOptions = OpenOptions {
            read: false,
            write: false,
            create: false,
            create_new: false,
            truncate: false,
            maybe_dir: true,
            follow: false,
        };
        proof {
            flags::lemma_open_mode(false, false);
            flags::lemma_open_mode(true, false);
            flags::lemma_open_mode(false, true);
            flags::lemma_open_mode(true, true);
        }
        if oflags.contains(OpenFlags::create()) {
            if oflags.contains(OpenFlags::exclusive()) {
                options.create_new = true;
            } else {
                options.create = true;
            }
            create = true;
            options.write = true;
            mode = mode.union(OpenMode::write());
        }
        if oflags.contains(OpenFlags::truncate()) {
            options.truncate = true;
            options.write = true;
        }
        if flags.contains(DescriptorFlags::read()) {
            options.read = true;
            mode = mode.union(OpenMode::read());
        }
        if flags.contains(DescriptorFlags::write()) {
            options.write = true;
            mode = mode.union(OpenMode::write());
        } else {
            // If not opened write, open read. This way the OS lets us open
            // the file, but we can use perms to reject use of the file later.
            options.read = true;
            mode = mode.union(OpenMode::read());
        }
        options.follow = path_flags.contains(PathFlags::symlink_follow());
        // The operating system is not asked for these:
        if flags.contains(DescriptorFlags::file_integrity_sync()) || flags.contains(
            DescriptorFlags::data_integrity_sync(),
        ) || flags.contains(DescriptorFlags::requested_write_sync()) {
            return Err(ErrorCode::Unsupported);
        }
        if oflags.contains(OpenFlags::directory()) {
            if oflags.contains(OpenFlags::create()) || oflags.contains(OpenFlags::exclusive())
                || oflags.contains(OpenFlags::truncate()) {
                return Err(ErrorCode::Invalid);
            }
        }
        // Now enforce the permissions before letting the OS have its shot:
        if !d.perms.contains(DirPerms::mutate()) && create {
            return Err(ErrorCode::NotPermitted);
        }
        // To truncate a file is to write to it, though the mode does not keep that.
        if !d.file_perms.contains(FilePerms::write()) && (mode.contains(OpenMode::write())
            || options.truncate) {
            return Err(ErrorCode::NotPermitted);
        }
        Ok((FsCall::Open { dir: d.dir, path, options }, mode))
    }

    pub fn readlink_at(&self, path: String) -> (r: Result<FsCall, ErrorCode>)
        ensures
            r == match self.permitted_dir(DirPerms::read()) {
                Ok(d) => Ok::<FsCall, ErrorCode>(FsCall::ReadLink { dir: d.dir, path }),
                Err(e) => Err(e),
            },
    {
        let d: &RealDir = self.dir_with(DirPerms::read())?;
        Ok(FsCall::ReadLink { dir: d.dir, path })
    }

    pub fn remove_directory_at(&self, path: String) -> (r: Result<FsCall, ErrorCode>)
        ensures
            r == match self.permitted_dir(DirPerms::mutate()) {
                Ok(d) => Ok::<FsCall, ErrorCode>(FsCall::RemoveDir { dir: d.dir, path }),
                Err(e) => Err(e),
            },
    {
        let d: &RealDir = self.dir_with(DirPerms::mutate())?;
        Ok(FsCall::RemoveDir { dir: d.dir, path })
    }

    /// Moves a path under this directory to one under another.
    pub open spec fn rename_request(
        self,
        old_path: String,
        new_fd: Descriptor,
        new_path: String,
    ) -> Result<FsCall, ErrorCode> {
        match (
            self.permitted_dir(DirPerms::mutate()),
            new_fd.permitted_dir(DirPerms::mutate()),
        ) {
            (Err(e), _) => Err(e),
            (Ok(_), Err(e)) => Err(e),
            (Ok(old), Ok(new)) => Ok(
                FsCall::Rename { dir: old.dir, old_path, new_dir: new.dir, new_path },
            ),
        }
    }

    /// See [`Descriptor::rename_request`].
    pub fn rename_at(&self, old_path: String, new_fd: &Descriptor, new_path: String) -> (r: Result<
        FsCall,
        ErrorCode,
    >)
        ensures
            r == self.rename_request(old_path, *new_fd, new_path),
    {
        let old_dir: &RealDir = self.dir_with(DirPerms::mutate())?;
        let new_dir: &RealDir = new_fd.dir_with(DirPerms::mutate())?;
        Ok(FsCall::Rename { dir: old_dir.dir, old_path, new_dir: new_dir.dir, new_path })
    }

    pub fn symlink_at(&self, src_path: String, dest_path: String) -> (r: Result<FsCall, ErrorCode>)
        ensures
            r == match self.permitted_dir(DirPerms::mutate()) {
                Ok(d) => Ok::<FsCall, ErrorCode>(
                    FsCall::Symlink { dir: d.dir, src_path, dest_path },
                ),
                Err(e) => Err(e),
            },
    {
        let d: &RealDir = self.dir_with(DirPerms::mutate())?;
        Ok(FsCall::Symlink { dir: d.dir, src_path, dest_path })
    }

    pub fn unlink_file_at(&self, path: String) -> (r: Result<FsCall, ErrorCode>)
        ensures
            r == match self.permitted_dir(DirPerms::mutate()) {
                Ok(d) => Ok::<FsCall, ErrorCode>(FsCall::RemoveFileOrSymlink { dir: d.dir, path }),
                Err(e) => Err(e),
            },
    {
        let d: &RealDir = self.dir_with(DirPerms::mutate())?;
        Ok(FsCall::RemoveFileOrSymlink { dir: d.dir, path })
    }

    /// The file that a stream is to be made over, where the descriptor is a
    /// file that grants `perms`. To a stream, one that does not grant them is
    /// a bad descriptor.
    pub open spec fn streamable_file(self, perms: FilePerms) -> Result<File, ErrorCode> {
        match self.file_spec() {
            Ok(f) => if f.perms.contains(perms) {
                Ok(f)
            } else {
                Err(ErrorCode::BadDescriptor)
            },
            Err(e) => Err(e),
        }
    }

    /// The stream over the file.
    pub open spec fn read_stream(self, offset: Filesize) -> Result<FileInputStream, ErrorCode> {
        match self.streamable_file(FilePerms::read()) {
            Ok(file) => Ok(FileInputStream { file, position: offset }),
            Err(e) => Err(e),
        }
    }

    pub fn read_via_stream(&self, offset: Filesize) -> (r: Result<FileInputStream, ErrorCode>)
        ensures
            r == self.read_stream(offset),
    {
        let f: &File = self.file()?;
        if !f.perms.contains(FilePerms::read()) {
            return Err(ErrorCode::BadDescriptor);
        }
        Ok(FileInputStream::new(f, offset))
    }

    /// The stream over the file.
    pub open spec fn write_stream(self, offset: Filesize) -> Result<FileOutputStream, ErrorCode> {
        match self.streamable_file(FilePerms::write()) {
            Ok(file) => Ok(FileOutputStream::at_position(file, offset)),
            Err(e) => Err(e),
        }
    }

    pub fn write_via_stream(&self, offset: Filesize) -> (r: Result<FileOutputStream, ErrorCode>)
        ensures
            r == self.write_stream(offset),
    {
        let f: &File = self.file()?;
        if !f.perms.contains(FilePerms::write()) {
            return Err(ErrorCode::BadDescriptor);
        }
        Ok(FileOutputStream::write_at(f, offset))
    }

    /// The stream over the file.
    pub open spec fn append_stream(self) -> Result<FileOutputStream, ErrorCode> {
        match self.streamable_file(FilePerms::write()) {
            Ok(file) => Ok(FileOutputStream::at_end(file)),
            Err(e) => Err(e),
        }
    }

    pub fn append_via_stream(&self) -> (r: Result<FileOutputStream, ErrorCode>)
        ensures
            r == self.append_stream(),
    {
        let f: &File = self.file()?;
        if !f.perms.contains(FilePerms::write()) {
            return Err(ErrorCode::BadDescriptor);
        }
        Ok(FileOutputStream::append(f))
    }

    /// Asks for the metadata whose hash identifies a path. It takes no
    /// permission: what is under an open directory may be looked at.
    pub fn metadata_hash_at(&self, path_flags: PathFlags, path: String) -> (r: Result<
        FsCall,
        ErrorCode,
    >)
        ensures
            r == match self.dir_spec() {
                Ok(d) => Ok::<FsCall, ErrorCode>(
                    FsCall::MetadataAt { dir: d.dir, path, follow: follow_spec(path_flags) },
                ),
                Err(e) => Err(e),
            },
    {
        let d: &RealDir = self.dir()?;
        Ok(FsCall::MetadataAt { dir: d.dir, path, follow: symlink_follow(path_flags) })
    }
}

/// The flags that the operating system reports, as the guest knows them.
fn get_from_fdflags(flags: FdFlags) -> (r: DescriptorFlags)
    ensures
        r == DescriptorFlags::empty().union(
            DescriptorFlags::requested_write_sync().when(flags.dsync),
        ).union(DescriptorFlags::data_integrity_sync().when(flags.rsync)).union(
            DescriptorFlags::file_integrity_sync().when(flags.sync),
        ),
{
    let mut out: DescriptorFlags = DescriptorFlags::empty();
    if flags.dsync {
        out = out.union(DescriptorFlags::requested_write_sync());
    } else {
        proof {
            flags::lemma_union_with_none(out);
        }
    }
    if flags.rsync {
        out = out.union(DescriptorFlags::data_integrity_sync());
    } else {
        proof {
            flags::lemma_union_with_none(out);
        }
    }
    if flags.sync {
        out = out.union(DescriptorFlags::file_integrity_sync());
    } else {
        proof {
            flags::lemma_union_with_none(out);
        }
    }
    out
}

fn symlink_follow(path_flags: PathFlags) -> (r: Follow)
    ensures
        r == follow_spec(path_flags),
{
    if path_flags.contains(PathFlags::symlink_follow()) {
        Follow::Yes
    } else {
        Follow::No
    }
}

/// What a read came to: the bytes that were read, and whether the end of the
/// file was met.
pub fn read_outcome(buffer: Vec<u8>, bytes_read: usize) -> (r: (Vec<u8>, bool))
    ensures
        r.0@ == if bytes_read <= buffer@.len() {
            buffer@.take(bytes_read as int)
        } else {
            buffer@
        },
        r.1 == (bytes_read == 0),
{
    let mut buffer: Vec<u8> = buffer;
    let ghost all = buffer@;
    let at_end: bool = bytes_read == 0;
    buffer.truncate(bytes_read);
    assert(buffer@ =~= if bytes_read <= all.len() {
        all.take(bytes_read as int)
    } else {
        all
    });
    (buffer, at_end)
}

/// What the guest is told of a link's target, which must be text.
pub fn link_target(target: Option<String>) -> (r: Result<String, ErrorCode>)
    ensures
        r == match target {
            Some(text) => Ok::<String, ErrorCode>(text),
            None => Err(ErrorCode::IllegalByteSequence),
        },
{
    match target {
        Some(text) => Ok(text),
        None => Err(ErrorCode::IllegalByteSequence),
    }
}

/// A directory that may not be mutated stays as it is: no path under it is
/// created, removed, moved, linked or given other times, its own times are not
/// changed, and what is opened under it is opened for nothing but reading.
pub proof fn law_readonly_directory(
    d: RealDir,
    other: Descriptor,
    path_flags: PathFlags,
    path: String,
    new_path: String,
    oflags: OpenFlags,
    flags: DescriptorFlags,
)
    requires
        !d.perms.contains(DirPerms::mutate()),
    ensures
        ({
            let dir = Descriptor::Dir(d);
            &&& dir.permitted_dir(DirPerms::mutate()) == Err::<RealDir, _>(ErrorCode::NotPermitted)
            &&& dir.rename_request(path, other, new_path) == Err::<FsCall, _>(
                ErrorCode::NotPermitted,
            )
            &&& dir.link_request(path_flags, path, other, new_path) == Err::<FsCall, _>(
                ErrorCode::NotPermitted,
            )
            &&& other.rename_request(path, dir, new_path) is Err
            &&& other.link_request(path_flags, path, dir, new_path) is Err
            &&& !dir.may_set_times()
            &&& dir.open_request(path_flags, path, oflags, flags) matches Ok(
                (FsCall::Open { options, .. }, mode),
            ) ==> {
                &&& options.read
                &&& !options.write
                &&& !options.create
                &&& !options.create_new
                &&& !options.truncate
                &&& !mode.contains(OpenMode::write())
            }
        }),
{
    flags::lemma_open_mode(true, false);
    flags::lemma_open_mode(false, false);
}

/// Under a directory whose files may not be written, no file is opened to be
/// written, created or truncated; and what is opened under it can neither be
/// written nor resized, whatever it was opened for.
pub proof fn law_readonly_files(
    d: RealDir,
    path_flags: PathFlags,
    path: String,
    oflags: OpenFlags,
    flags: DescriptorFlags,
    handle: Handle,
    mode: OpenMode,
    offset: Filesize,
)
    requires
        !d.file_perms.contains(FilePerms::write()),
    ensures
        Descriptor::Dir(d).open_request(path_flags, path, oflags, flags) matches Ok(
            (FsCall::Open { options, .. }, mode),
        ) ==> {
            &&& options.read
            &&& !options.write
            &&& !options.create
            &&& !options.create_new
            &&& !options.truncate
            &&& !mode.contains(OpenMode::write())
        },
        d.opened_as(OpenedKind::File, handle, mode) matches Ok(opened) && {
            &&& opened.permitted_file(FilePerms::write()) == Err::<File, _>(
                ErrorCode::NotPermitted,
            )
            &&& opened.write_stream(offset) == Err::<FileOutputStream, _>(ErrorCode::BadDescriptor)
            &&& opened.append_stream() == Err::<FileOutputStream, _>(ErrorCode::BadDescriptor)
            &&& !opened.may_set_times()
        },
{
    flags::lemma_open_mode(true, false);
    flags::lemma_open_mode(false, false);
}

/// The permissions of a directory are those of every directory that is opened
/// under it, and the permissions for its files are those of every file.
pub proof fn law_permissions_pass_down(d: RealDir, kind: OpenedKind, handle: Handle, mode: OpenMode)
    ensures
        match d.opened_as(kind, handle, mode) {
            Ok(Descriptor::Dir(opened)) => opened.perms == d.perms && opened.file_perms
                == d.file_perms,
            Ok(Descriptor::File(opened)) => opened.perms == d.file_perms,
            Err(_) => kind is NotDir,
        },
{
}

impl RealDir {
    /// The directory that is reached from this one by opening one directory
    /// after the other, each under the one before.
    pub open spec fn descended(self, path: Seq<(Handle, OpenMode)>) -> RealDir
        decreases path.len(),
    {
        if path.len() == 0 {
            self
        } else {
            match self.descended(path.drop_last()).opened_as(
                OpenedKind::Dir,
                path.last().0,
                path.last().1,
            ) {
                Ok(Descriptor::Dir(opened)) => opened,
                _ => self,
            }
        }
    }
}

/// However deep under a directory, what is opened has the permissions of that
/// directory, or those for its files. Whether a call on it may block the
/// thread is passed down as well.
pub proof fn law_permissions_pass_down_a_path(
    d: RealDir,
    path: Seq<(Handle, OpenMode)>,
    kind: OpenedKind,
    handle: Handle,
    mode: OpenMode,
)
    ensures
        match d.descended(path).opened_as(kind, handle, mode) {
            Ok(Descriptor::Dir(opened)) => {
                &&& opened.perms == d.perms
                &&& opened.file_perms == d.file_perms
                &&& opened.allow_blocking_current_thread == d.allow_blocking_current_thread
            },
            Ok(Descriptor::File(opened)) => {
                &&& opened.perms == d.file_perms
                &&& opened.allow_blocking_current_thread == d.allow_blocking_current_thread
            },
            Err(_) => kind is NotDir,
        },
    decreases path.len(),
{
    if path.len() > 0 {
        law_permissions_pass_down_a_path(
            d,
            path.drop_last(),
            OpenedKind::Dir,
            path.last().0,
            path.last().1,
        );
    }
}

/// A descriptor has each flag exactly where it ought to: the synchronization
/// flags as they are reported, the others by the mode it was opened under.
pub proof fn law_descriptor_flags(descriptor: Descriptor, reported: FdFlags)
    ensures
        ({
            let all = descriptor.all_flags(reported);
            let writes = descriptor.mode().contains(OpenMode::write());
            &&& all.contains(DescriptorFlags::requested_write_sync()) == reported.dsync
            &&& all.contains(DescriptorFlags::data_integrity_sync()) == reported.rsync
            &&& all.contains(DescriptorFlags::file_integrity_sync()) == reported.sync
            &&& all.contains(DescriptorFlags::read()) == descriptor.mode().contains(
                OpenMode::read(),
            )
            &&& all.contains(DescriptorFlags::write()) == (descriptor is File && writes)
            &&& all.contains(DescriptorFlags::mutate_directory()) == (descriptor is Dir && writes)
        }),
{
    let a: u8 = DescriptorFlags::requested_write_sync().when(reported.dsync).bits;
    let b: u8 = DescriptorFlags::data_integrity_sync().when(reported.rsync).bits;
    let c: u8 = DescriptorFlags::file_integrity_sync().when(reported.sync).bits;
    let d: u8 = DescriptorFlags::read().when(descriptor.mode().contains(OpenMode::read())).bits;
    let e: u8 = match descriptor {
        Descriptor::File(_) => DescriptorFlags::write(),
        Descriptor::Dir(_) => DescriptorFlags::mutate_directory(),
    }.when(descriptor.mode().contains(OpenMode::write())).bits;
    assert({
        let all = 0u8 | a | b | c | d | e;
        &&& (all & 16 == 16) == (a == 16)
        &&& (all & 8 == 8) == (b == 8)
        &&& (all & 4 == 4) == (c == 4)
        &&& (all & 1 == 1) == (d == 1)
        &&& (all & 2 == 2) == (e == 2)
        &&& (all & 32 == 32) == (e == 32)
    }) by (bit_vector)
        requires
            a == 0 || a == 16,
            b == 0 || b == 8,
            c == 0 || c == 4,
            d == 0 || d == 1,
            e == 0 || e == 2 || e == 32,
    ;
}

/// Where opening a path is not refused, the operating system is asked to open
/// that path, under the directory that it was asked for, for what the guest
/// has asked for and for nothing else; and the mode that is kept of it has the
/// access that the guest has asked for.
pub proof fn law_open_asks_for_what_was_wanted(
    descriptor: Descriptor,
    path_flags: PathFlags,
    path: String,
    oflags: OpenFlags,
    flags: DescriptorFlags,
    r: Result<(FsCall, OpenMode), ErrorCode>,
)
    requires
        call_ensures(Descriptor::open_at, (&descriptor, path_flags, path, oflags, flags), r),
    ensures
        r matches Ok((call, mode)) ==> {
            let wants_read = flags.contains(DescriptorFlags::read());
            let wants_write = flags.contains(DescriptorFlags::write());
            let creates = oflags.contains(OpenFlags::create());
            let is_new = oflags.contains(OpenFlags::exclusive());
            let truncates = oflags.contains(OpenFlags::truncate());
            &&& call matches FsCall::Open { dir, path: opened, options }
            &&& descriptor matches Descriptor::Dir(d) && dir == d.dir
            &&& opened == path
            // Access is asked for where the guest wants it, and only there.
            &&& wants_read ==> options.read && mode.contains(OpenMode::read())
            &&& wants_write ==> options.write && mode.contains(OpenMode::write())
            &&& creates ==> options.write && mode.contains(OpenMode::write())
            &&& truncates ==> options.write
            &&& options.write ==> wants_write || creates || truncates
            &&& mode.contains(OpenMode::write()) ==> wants_write || creates
            // What is not wanted for writing can at least be read.
            &&& !wants_write ==> options.read && mode.contains(OpenMode::read())
            &&& options.read ==> wants_read || !wants_write
            &&& mode.contains(OpenMode::read()) ==> options.read
            // What is to be there already, and what is not to be.
            &&& options.create || options.create_new <==> creates
            &&& options.create_new ==> is_new
            &&& options.create ==> !is_new
            &&& options.truncate <==> truncates
            &&& options.follow <==> path_flags.contains(PathFlags::symlink_follow())
            &&& options.maybe_dir
        },
{
    flags::lemma_open_mode(true, true);
    flags::lemma_open_mode(true, false);
    flags::lemma_open_mode(false, true);
    flags::lemma_open_mode(false, false);
}

/// Opening a path is refused exactly where a permission is missing, where
/// synchronization is asked for, or where what is asked for is a directory and
/// yet to be made. It takes the directory's permission to be read; to write,
/// create or truncate takes the permission to mutate it and that for writing
/// its files.
pub proof fn law_open_is_refused_where_it_must_be(
    descriptor: Descriptor,
    path_flags: PathFlags,
    path: String,
    oflags: OpenFlags,
    flags: DescriptorFlags,
    r: Result<(FsCall, OpenMode), ErrorCode>,
)
    requires
        call_ensures(Descriptor::open_at, (&descriptor, path_flags, path, oflags, flags), r),
    ensures
        descriptor is File <==> r == Err::<(FsCall, OpenMode), _>(ErrorCode::NotDirectory),
        descriptor matches Descriptor::Dir(d) ==> {
            let changes = oflags.contains(OpenFlags::create()) || oflags.contains(
                OpenFlags::truncate(),
            ) || flags.contains(DescriptorFlags::write());
            let permitted = d.perms.contains(DirPerms::read()) && (changes ==> d.perms.contains(
                DirPerms::mutate(),
            ) && d.file_perms.contains(FilePerms::write()));
            let syncs = flags.contains(DescriptorFlags::file_integrity_sync()) || flags.contains(
                DescriptorFlags::data_integrity_sync(),
            ) || flags.contains(DescriptorFlags::requested_write_sync());
            let contradicts = oflags.contains(OpenFlags::directory()) && (oflags.contains(
                OpenFlags::create(),
            ) || oflags.contains(OpenFlags::exclusive()) || oflags.contains(OpenFlags::truncate()));
            &&& r is Ok <==> permitted && !syncs && !contradicts
            &&& r == Err::<(FsCall, OpenMode), _>(ErrorCode::NotPermitted) ==> !permitted
            &&& r == Err::<(FsCall, OpenMode), _>(ErrorCode::Unsupported) ==> syncs
            &&& r == Err::<(FsCall, OpenMode), _>(ErrorCode::Invalid) ==> contradicts && !syncs
            &&& permitted && syncs ==> r == Err::<(FsCall, OpenMode), _>(ErrorCode::Unsupported)
            &&& permitted && !syncs && contradicts ==> r == Err::<(FsCall, OpenMode), _>(
                ErrorCode::Invalid,
            )
            &&& !d.perms.contains(DirPerms::read()) ==> r == Err::<(FsCall, OpenMode), _>(
                ErrorCode::NotPermitted,
            )
            &&& changes && !d.perms.contains(DirPerms::mutate()) ==> r == Err::<
                (FsCall, OpenMode),
                _,
            >(ErrorCode::NotPermitted)
            &&& !permitted && !syncs && !contradicts ==> r == Err::<(FsCall, OpenMode), _>(
                ErrorCode::NotPermitted,
            )
        },
{
}

/// What was opened is made into a descriptor of its own kind, for the very
/// thing that was opened, with the mode that it was opened under. It is an
/// error to find no directory where one was asked for, and only that is.
pub proof fn law_opened_is_what_was_found(
    d: RealDir,
    is_dir: bool,
    oflags: OpenFlags,
    kind: OpenedKind,
    handle: Handle,
    mode: OpenMode,
    r: Result<Descriptor, ErrorCode>,
)
    requires
        call_ensures(opened_kind, (is_dir, oflags), kind),
        call_ensures(RealDir::opened, (&d, kind, handle, mode), r),
    ensures
        match r {
            Ok(Descriptor::Dir(opened)) => {
                &&& is_dir
                &&& opened.dir == handle
                &&& opened.open_mode == mode
                &&& opened.perms == d.perms
                &&& opened.file_perms == d.file_perms
                &&& opened.allow_blocking_current_thread == d.allow_blocking_current_thread
            },
            Ok(Descriptor::File(opened)) => {
                &&& !is_dir
                &&& !oflags.contains(OpenFlags::directory())
                &&& opened.file == handle
                &&& opened.open_mode == mode
                &&& opened.perms == d.file_perms
                &&& opened.allow_blocking_current_thread == d.allow_blocking_current_thread
            },
            Err(e) => {
                &&& !is_dir
                &&& oflags.contains(OpenFlags::directory())
                &&& e == ErrorCode::NotDirectory
            },
        },
{
}

/// A move and a link go from the directory they are asked of to the directory
/// that is given, from the old path to the new one, be the two directories the
/// same or different. Both directories must grant to be mutated.
pub proof fn law_moves_and_links_go_from_the_old_to_the_new(
    old_descriptor: Descriptor,
    old_path_flags: PathFlags,
    old_path: String,
    new_descriptor: Descriptor,
    new_path: String,
    renamed: Result<FsCall, ErrorCode>,
    linked: Result<FsCall, ErrorCode>,
)
    requires
        call_ensures(
            Descriptor::rename_at,
            (&old_descriptor, old_path, &new_descriptor, new_path),
            renamed,
        ),
        call_ensures(
            Descriptor::link_at,
            (&old_descriptor, old_path_flags, old_path, &new_descriptor, new_path),
            linked,
        ),
    ensures
        renamed matches Ok(call) ==> {
            &&& call matches FsCall::Rename { dir, old_path: from, new_dir, new_path: to }
            &&& old_descriptor matches Descriptor::Dir(source) && dir == source.dir
                && source.perms.contains(DirPerms::mutate())
            &&& new_descriptor matches Descriptor::Dir(target) && new_dir == target.dir
                && target.perms.contains(DirPerms::mutate())
            &&& from == old_path
            &&& to == new_path
        },
        linked matches Ok(call) ==> {
            &&& call matches FsCall::HardLink { dir, old_path: from, new_dir, new_path: to }
            &&& old_descriptor matches Descriptor::Dir(source) && dir == source.dir
                && source.perms.contains(DirPerms::mutate())
            &&& new_descriptor matches Descriptor::Dir(target) && new_dir == target.dir
                && target.perms.contains(DirPerms::mutate())
            &&& from == old_path
            &&& to == new_path
            &&& !old_path_flags.contains(PathFlags::symlink_follow())
        },
        // Neither is refused without a reason.
        (old_descriptor matches Descriptor::Dir(source) && source.perms.contains(
            DirPerms::mutate(),
        )) && (new_descriptor matches Descriptor::Dir(target) && target.perms.contains(
            DirPerms::mutate(),
        )) ==> renamed is Ok && (if old_path_flags.contains(PathFlags::symlink_follow()) {
            linked == Err::<FsCall, _>(ErrorCode::Invalid)
        } else {
            linked is Ok
        }),
        renamed matches Err(e) ==> e == ErrorCode::NotDirectory && (old_descriptor is File
            || new_descriptor is File) || e == ErrorCode::NotPermitted,
        old_descriptor is File ==> {
            &&& renamed == Err::<FsCall, _>(ErrorCode::NotDirectory)
            &&& linked == Err::<FsCall, _>(ErrorCode::NotDirectory)
        },
{
}

/// What is asked for a path under a directory that may be mutated is asked of
/// the operating system, for that path and that directory: to create and to
/// remove a directory, to remove a file, and to make a symbolic link, whose
/// target is the first and whose place is the second of its two paths. Of any
/// other descriptor nothing is.
pub proof fn law_mutations_are_of_the_path_that_is_given(
    descriptor: Descriptor,
    path: String,
    dest_path: String,
    created: Result<FsCall, ErrorCode>,
    removed: Result<FsCall, ErrorCode>,
    unlinked: Result<FsCall, ErrorCode>,
    symlinked: Result<FsCall, ErrorCode>,
)
    requires
        call_ensures(Descriptor::create_directory_at, (&descriptor, path), created),
        call_ensures(Descriptor::remove_directory_at, (&descriptor, path), removed),
        call_ensures(Descriptor::unlink_file_at, (&descriptor, path), unlinked),
        call_ensures(Descriptor::symlink_at, (&descriptor, path, dest_path), symlinked),
    ensures
        match descriptor {
            Descriptor::Dir(d) => if d.perms.contains(DirPerms::mutate()) {
                &&& created == Ok::<_, ErrorCode>(FsCall::CreateDir { dir: d.dir, path })
                &&& removed == Ok::<_, ErrorCode>(FsCall::RemoveDir { dir: d.dir, path })
                &&& unlinked == Ok::<_, ErrorCode>(
                    FsCall::RemoveFileOrSymlink { dir: d.dir, path },
                )
                &&& symlinked == Ok::<_, ErrorCode>(
                    FsCall::Symlink { dir: d.dir, src_path: path, dest_path },
                )
            } else {
                &&& created == Err::<FsCall, _>(ErrorCode::NotPermitted)
                &&& removed == created
                &&& unlinked == created
                &&& symlinked == created
            },
            Descriptor::File(_) => {
                &&& created == Err::<FsCall, _>(ErrorCode::NotDirectory)
                &&& removed == created
                &&& unlinked == created
                &&& symlinked == created
            },
        },
{
}

/// A directory that may be read is listed, and links and metadata of the paths
/// under it are had; a link at the end of a path is followed exactly where the
/// guest asks for that. The metadata that identifies a path takes no
/// permission, but a directory.
pub proof fn law_lookups_are_of_the_path_that_is_given(
    descriptor: Descriptor,
    path_flags: PathFlags,
    path: String,
    listed: Result<FsCall, ErrorCode>,
    linked: Result<FsCall, ErrorCode>,
    found: Result<FsCall, ErrorCode>,
    identified: Result<FsCall, ErrorCode>,
)
    requires
        call_ensures(Descriptor::read_directory, (&descriptor,), listed),
        call_ensures(Descriptor::readlink_at, (&descriptor, path), linked),
        call_ensures(Descriptor::stat_at, (&descriptor, path_flags, path), found),
        call_ensures(Descriptor::metadata_hash_at, (&descriptor, path_flags, path), identified),
    ensures
        match descriptor {
            Descriptor::Dir(d) => {
                &&& identified matches Ok(FsCall::MetadataAt { dir, path: p, follow })
                &&& dir == d.dir
                &&& p == path
                &&& follow is Yes <==> path_flags.contains(PathFlags::symlink_follow())
                &&& if d.perms.contains(DirPerms::read()) {
                    &&& listed == Ok::<_, ErrorCode>(FsCall::Entries { dir: d.dir })
                    &&& linked == Ok::<_, ErrorCode>(FsCall::ReadLink { dir: d.dir, path })
                    &&& found == identified
                } else {
                    &&& listed == Err::<FsCall, _>(ErrorCode::NotPermitted)
                    &&& linked == listed
                    &&& found == listed
                }
            },
            Descriptor::File(_) => {
                &&& listed == Err::<FsCall, _>(ErrorCode::NotDirectory)
                &&& linked == listed
                &&& found == listed
                &&& identified == listed
            },
        },
{
}

/// A file that may be read is read, and one that may be written is written and
/// resized: at the offset and with the bytes or the size that are given. No
/// more is read than was asked for, and less only where memory cannot address
/// that much.
pub proof fn law_file_access_is_as_asked(
    descriptor: Descriptor,
    len: Filesize,
    offset: Filesize,
    buf: Vec<u8>,
    advice: Advice,
    read: Result<FsCall, ErrorCode>,
    written: Result<FsCall, ErrorCode>,
    resized: Result<FsCall, ErrorCode>,
    advised: Result<FsCall, ErrorCode>,
)
    requires
        call_ensures(Descriptor::read, (&descriptor, len, offset), read),
        call_ensures(Descriptor::write, (&descriptor, buf, offset), written),
        call_ensures(Descriptor::set_size, (&descriptor, len), resized),
        call_ensures(Descriptor::advise, (&descriptor, offset, len, advice), advised),
    ensures
        match descriptor {
            Descriptor::Dir(_) => {
                &&& read == Err::<FsCall, _>(ErrorCode::BadDescriptor)
                &&& written == read
                &&& resized == read
                &&& advised == read
            },
            Descriptor::File(f) => {
                &&& advised == Ok::<_, ErrorCode>(
                    FsCall::Advise { file: f.file, offset, length: len, advice },
                )
                &&& if f.perms.contains(FilePerms::read()) {
                    &&& read matches Ok(FsCall::ReadAt { file, len: most, offset: from })
                    &&& file == f.file
                    &&& from == offset
                    &&& most <= len
                    &&& most < len ==> most == usize::MAX
                } else {
                    read == Err::<FsCall, _>(ErrorCode::NotPermitted)
                }
                &&& if f.perms.contains(FilePerms::write()) {
                    &&& written == Ok::<_, ErrorCode>(
                        FsCall::WriteAt { file: f.file, buf, offset },
                    )
                    &&& resized == Ok::<_, ErrorCode>(FsCall::SetLen { file: f.file, size: len })
                } else {
                    &&& written == Err::<FsCall, _>(ErrorCode::NotPermitted)
                    &&& resized == written
                }
            },
        },
{
}

/// What is asked of an open file or directory as a whole is asked of that very
/// one, by calls for its kind: to synchronize its data, or its metadata too,
/// and for its flags and its metadata. The type of a directory is known.
pub proof fn law_open_objects_are_asked_themselves(
    descriptor: Descriptor,
    data: FsCall,
    all: FsCall,
    flags: FsCall,
    metadata: FsCall,
    type_: TypeQuery,
)
    requires
        call_ensures(Descriptor::sync_data, (&descriptor,), data),
        call_ensures(Descriptor::sync, (&descriptor,), all),
        call_ensures(Descriptor::get_flags, (&descriptor,), flags),
        call_ensures(Descriptor::stat, (&descriptor,), metadata),
        call_ensures(Descriptor::get_type, (&descriptor,), type_),
    ensures
        match descriptor {
            Descriptor::File(f) => {
                &&& data == (FsCall::SyncFileData { file: f.file })
                &&& all == (FsCall::SyncFile { file: f.file })
                &&& flags == (FsCall::FileFlags { file: f.file })
                &&& metadata == (FsCall::FileMetadata { file: f.file })
                &&& type_ == TypeQuery::Ask(metadata)
            },
            Descriptor::Dir(d) => {
                &&& data == (FsCall::SyncDirData { dir: d.dir })
                &&& all == (FsCall::SyncDir { dir: d.dir })
                &&& flags == (FsCall::DirFlags { dir: d.dir })
                &&& metadata == (FsCall::DirMetadata { dir: d.dir })
                &&& type_ == TypeQuery::Known(DescriptorType::Directory)
            },
        },
{
}

/// The times that are set are the two that were given, each in its place, of
/// the file or the directory itself, or of the path under it. Setting them
/// takes the permission to write the file, or to mutate the directory; a time
/// that could not be made is told, the first one first.
pub proof fn law_times_are_set_as_given(
    descriptor: Descriptor,
    path_flags: PathFlags,
    path: String,
    atim: Result<Option<TimeSpec>, ErrorCode>,
    mtim: Result<Option<TimeSpec>, ErrorCode>,
    own: Result<FsCall, ErrorCode>,
    at: Result<FsCall, ErrorCode>,
)
    requires
        call_ensures(Descriptor::set_times_given, (&descriptor, atim, mtim), own),
        call_ensures(
            Descriptor::set_times_at_given,
            (&descriptor, path_flags, path, atim, mtim),
            at,
        ),
    ensures
        match (descriptor, atim, mtim) {
            (Descriptor::File(f), Ok(a), Ok(m)) => if f.perms.contains(FilePerms::write()) {
                own == Ok::<_, ErrorCode>(
                    FsCall::SetFileTimes { file: f.file, atim: a, mtim: m },
                )
            } else {
                own == Err::<FsCall, _>(ErrorCode::NotPermitted)
            },
            (Descriptor::Dir(d), Ok(a), Ok(m)) => if d.perms.contains(DirPerms::mutate()) {
                &&& own == Ok::<_, ErrorCode>(
                    FsCall::SetDirTimes { dir: d.dir, atim: a, mtim: m },
                )
                &&& at matches Ok(
                    FsCall::SetTimesAt { dir, path: p, follow, atim: first, mtim: second },
                )
                &&& dir == d.dir
                &&& p == path
                &&& follow is Yes <==> path_flags.contains(PathFlags::symlink_follow())
                &&& first == a
                &&& second == m
            } else {
                &&& own == Err::<FsCall, _>(ErrorCode::NotPermitted)
                &&& at == own
            },
            (Descriptor::File(f), _, _) => own is Err && (f.perms.contains(FilePerms::write())
                ==> own->Err_0 == (if atim is Err {
                atim->Err_0
            } else {
                mtim->Err_0
            })),
            (Descriptor::Dir(d), _, _) => own is Err && at == own && (d.perms.contains(
                DirPerms::mutate(),
            ) ==> own->Err_0 == (if atim is Err {
                atim->Err_0
            } else {
                mtim->Err_0
            })),
        },
        descriptor is File ==> at == Err::<FsCall, _>(ErrorCode::NotDirectory),
        descriptor matches Descriptor::File(f) ==> (!f.perms.contains(FilePerms::write()) ==> own
            == Err::<FsCall, _>(ErrorCode::NotPermitted)),
        descriptor matches Descriptor::Dir(d) ==> (!d.perms.contains(DirPerms::mutate()) ==> own
            == Err::<FsCall, _>(ErrorCode::NotPermitted) && at == own),
{
}

/// Streams are over the very file that they are asked for, and begin where they
/// are to: at the offset, or at the end. Reading takes the permission to read,
/// writing and appending that to write; what lacks it is a bad descriptor, as a
/// directory is.
pub proof fn law_file_streams_are_over_the_file(
    descriptor: Descriptor,
    offset: Filesize,
    reads: Result<FileInputStream, ErrorCode>,
    writes: Result<FileOutputStream, ErrorCode>,
    appends: Result<FileOutputStream, ErrorCode>,
)
    requires
        call_ensures(Descriptor::read_via_stream, (&descriptor, offset), reads),
        call_ensures(Descriptor::write_via_stream, (&descriptor, offset), writes),
        call_ensures(Descriptor::append_via_stream, (&descriptor,), appends),
    ensures
        reads matches Ok(stream) ==> {
            &&& descriptor == Descriptor::File(stream.file)
            &&& stream.file.perms.contains(FilePerms::read())
            &&& stream.position == offset
        },
        writes matches Ok(stream) ==> {
            &&& descriptor == Descriptor::File(stream.file)
            &&& stream.file.perms.contains(FilePerms::write())
            &&& stream.mode == FileOutputMode::Position(offset)
            &&& stream.state is Ready
        },
        appends matches Ok(stream) ==> {
            &&& descriptor == Descriptor::File(stream.file)
            &&& stream.file.perms.contains(FilePerms::write())
            &&& stream.mode is Append
            &&& stream.state is Ready
        },
        reads is Ok <==> (descriptor matches Descriptor::File(f) && f.perms.contains(
            FilePerms::read(),
        )),
        writes is Ok <==> (descriptor matches Descriptor::File(f) && f.perms.contains(
            FilePerms::write(),
        )),
        appends is Ok <==> writes is Ok,
        reads matches Err(e) ==> e == ErrorCode::BadDescriptor,
        writes matches Err(e) ==> e == ErrorCode::BadDescriptor,
        appends matches Err(e) ==> e == ErrorCode::BadDescriptor,
{
}

/// A descriptor is a file or a directory, gives itself out as just that, and
/// is the one that it was made of.
pub proof fn law_descriptors_are_what_they_are(
    descriptor: Descriptor,
    is_file: bool,
    is_dir: bool,
    file: Result<&File, ErrorCode>,
    dir: Result<&RealDir, ErrorCode>,
)
    requires
        call_ensures(Descriptor::is_file, (&descriptor,), is_file),
        call_ensures(Descriptor::is_dir, (&descriptor,), is_dir),
        call_ensures(Descriptor::file, (&descriptor,), file),
        call_ensures(Descriptor::dir, (&descriptor,), dir),
    ensures
        is_file <==> !is_dir,
        is_file <==> file is Ok,
        is_dir <==> dir is Ok,
        file matches Ok(f) ==> descriptor == Descriptor::File(*f),
        dir matches Ok(d) ==> descriptor == Descriptor::Dir(*d),
        file matches Err(e) ==> e == ErrorCode::BadDescriptor,
        dir matches Err(e) ==> e == ErrorCode::NotDirectory,
{
}

/// A file or a directory that may block the thread that asks is asked there,
/// and only such a one is; a file is handed out for that, and it is itself.
pub proof fn law_blocking_needs_leave(
    file: File,
    dir: RealDir,
    handed: Option<Handle>,
    file_place: BlockingPlace,
    dir_place: BlockingPlace,
)
    requires
        call_ensures(File::as_blocking_file, (&file,), handed),
        call_ensures(File::spawn_blocking, (&file,), file_place),
        call_ensures(RealDir::spawn_blocking, (&dir,), dir_place),
    ensures
        handed is Some <==> file.allow_blocking_current_thread,
        handed matches Some(handle) ==> handle == file.file,
        file_place is CurrentThread <==> file.allow_blocking_current_thread,
        dir_place is CurrentThread <==> dir.allow_blocking_current_thread,
{
}

/// Files and directories keep what they are made of.
pub proof fn law_new_descriptors_keep_their_parts(
    handle: Handle,
    file_perms: FilePerms,
    dir_perms: DirPerms,
    mode: OpenMode,
    allow: bool,
    file: File,
    dir: RealDir,
)
    requires
        call_ensures(File::new, (handle, file_perms, mode, allow), file),
        call_ensures(RealDir::new, (handle, dir_perms, file_perms, mode, allow), dir),
    ensures
        file.file == handle && dir.dir == handle,
        file.perms == file_perms && dir.file_perms == file_perms,
        dir.perms == dir_perms,
        file.open_mode == mode && dir.open_mode == mode,
        file.allow_blocking_current_thread == allow && dir.allow_blocking_current_thread == allow,
{
}

/// A read gives as many bytes as were read, from the beginning of the buffer
/// on, and has met the end of the file exactly where there were none.
pub proof fn law_read_gives_what_was_read(buffer: Vec<u8>, bytes_read: usize, r: (Vec<u8>, bool))
    requires
        call_ensures(read_outcome, (buffer, bytes_read), r),
    ensures
        bytes_read <= buffer@.len() ==> r.0@.len() == bytes_read,
        bytes_read > buffer@.len() ==> r.0@.len() == buffer@.len(),
        forall|i: int| 0 <= i < r.0@.len() ==> #[trigger] r.0@[i] == buffer@[i],
        r.1 <==> bytes_read == 0,
{
}

/// A link's target is told as it is; one that is no text cannot be.
pub proof fn law_link_targets_are_told_as_they_are(
    target: Option<String>,
    r: Result<String, ErrorCode>,
)
    requires
        call_ensures(link_target, (target,), r),
    ensures
        r is Ok <==> target is Some,
        r matches Ok(text) ==> target == Some(text),
        r matches Err(e) ==> e == ErrorCode::IllegalByteSequence,
{
}

/// That a descriptor could not be synchronized is told, but for a file on
/// Windows that is denied it.
pub proof fn law_failed_synchronization_is_told(
    descriptor: Descriptor,
    platform: Platform,
    outcome: Result<(), IoError>,
    r: Result<(), ErrorCode>,
    code: ErrorCode,
)
    requires
        call_ensures(Descriptor::synced, (&descriptor, &platform, outcome), r),
        outcome matches Err(e) ==> call_ensures(Platform::filesystem_error, (&platform, e), code),
    ensures
        outcome is Ok ==> r is Ok,
        outcome matches Err(e) ==> if platform.windows && descriptor is File && e.raw_os_error
            == Some(5i32) {
            r is Ok
        } else {
            r == Err::<(), ErrorCode>(code)
        },
{
}

/// What the guest learns of a descriptor's flags is what the operating system
/// reports, and the access that it was opened with: what was opened to be read
/// or written says so.
pub proof fn law_flags_tell_the_access(
    descriptor: Descriptor,
    reported: FdFlags,
    r: DescriptorFlags,
)
    requires
        call_ensures(Descriptor::flags_from, (&descriptor, reported), r),
    ensures
        ({
            let mode = match descriptor {
                Descriptor::File(f) => f.open_mode,
                Descriptor::Dir(d) => d.open_mode,
            };
            &&& r.contains(DescriptorFlags::read()) <==> mode.contains(OpenMode::read())
            &&& r.contains(DescriptorFlags::write()) <==> descriptor is File && mode.contains(
                OpenMode::write(),
            )
            &&& r.contains(DescriptorFlags::mutate_directory()) <==> descriptor is Dir
                && mode.contains(OpenMode::write())
            &&& r.contains(DescriptorFlags::requested_write_sync()) <==> reported.dsync
            &&& r.contains(DescriptorFlags::data_integrity_sync()) <==> reported.rsync
            &&& r.contains(DescriptorFlags::file_integrity_sync()) <==> reported.sync
        }),
{
    law_descriptor_flags(descriptor, reported);
}

/// The times that are set are the ones asked for, each in its place: one that is
/// not to change is left out, the present is for the machine to take, and a time
/// is handed on as it is. Where the machine cannot represent one that is all
/// that can go wrong, and no other object or path is touched.
pub proof fn law_times_are_set_as_asked(
    descriptor: Descriptor,
    path_flags: PathFlags,
    path: String,
    atim: NewTimestamp,
    mtim: NewTimestamp,
    own: Result<FsCall, ErrorCode>,
    at: Result<FsCall, ErrorCode>,
)
    requires
        call_ensures(Descriptor::set_times, (&descriptor, atim, mtim), own),
        call_ensures(Descriptor::set_times_at, (&descriptor, path_flags, path, atim, mtim), at),
    ensures
        own matches Ok(call) ==> match (call, descriptor) {
            (FsCall::SetFileTimes { file, atim: a, mtim: m }, Descriptor::File(f)) => {
                &&& f.perms.contains(FilePerms::write())
                &&& file == f.file
                &&& is_asked(atim, a) && is_asked(mtim, m)
            },
            (FsCall::SetDirTimes { dir, atim: a, mtim: m }, Descriptor::Dir(d)) => {
                &&& d.perms.contains(DirPerms::mutate())
                &&& dir == d.dir
                &&& is_asked(atim, a) && is_asked(mtim, m)
            },
            _ => false,
        },
        at matches Ok(call) ==> {
            &&& call matches FsCall::SetTimesAt { dir, path: p, follow, atim: a, mtim: m }
            &&& descriptor matches Descriptor::Dir(d)
            &&& d.perms.contains(DirPerms::mutate())
            &&& dir == d.dir && p == path
            &&& follow is Yes <==> path_flags.contains(PathFlags::symlink_follow())
            &&& is_asked(atim, a) && is_asked(mtim, m)
        },
        match descriptor {
            Descriptor::File(f) => {
                &&& at == Err::<FsCall, _>(ErrorCode::NotDirectory)
                &&& !f.perms.contains(FilePerms::write()) ==> own == Err::<FsCall, _>(
                    ErrorCode::NotPermitted,
                )
                &&& f.perms.contains(FilePerms::write()) && !(atim is Timestamp)
                    && !(mtim is Timestamp) ==> own is Ok
            },
            Descriptor::Dir(d) => {
                &&& !d.perms.contains(DirPerms::mutate()) ==> own == Err::<FsCall, _>(
                    ErrorCode::NotPermitted,
                ) && at == own
                &&& d.perms.contains(DirPerms::mutate()) && !(atim is Timestamp)
                    && !(mtim is Timestamp) ==> own is Ok && at is Ok
            },
        },
        descriptor matches Descriptor::File(f) ==> (f.perms.contains(FilePerms::write()) && own is Err
            ==> own == Err::<FsCall, _>(ErrorCode::Overflow)),
        descriptor matches Descriptor::Dir(d) ==> (d.perms.contains(DirPerms::mutate()) ==> (own is Err
            ==> own == Err::<FsCall, _>(ErrorCode::Overflow)) && (at is Err ==> at == Err::<
            FsCall,
            _,
        >(ErrorCode::Overflow))),
{
}

/// `time` is the one to give a file where `asked` was asked for.
pub open spec fn is_asked(asked: NewTimestamp, time: Option<TimeSpec>) -> bool {
    match asked {
        NewTimestamp::NoChange => time is None,
        NewTimestamp::Now => time == Some(TimeSpec::SymbolicNow),
        NewTimestamp::Timestamp(t) => time == Some(TimeSpec::Absolute(t)),
    }
}

} // verus!

use bytes::Bytes;
use rustix::io::Errno;
use std::collections::hash_map::DefaultHasher;
use std::collections::VecDeque;
use std::hash::Hasher;
use wasi_host::errno::{Errnos, Platform};
use wasi_host::error::{Failure, IoError, IoErrorKind, StreamError};
use wasi_host::filesystem::descriptor::{
    link_target, opened_kind, read_outcome, Descriptor, File, OpenedKind, RealDir, TypeQuery,
};
use wasi_host::filesystem::errors::from_raw_os_error;
use wasi_host::filesystem::flags::{
    DescriptorFlags, DirPerms, FilePerms, OpenFlags, OpenMode, PathFlags,
};
use wasi_host::filesystem::host;
use wasi_host::filesystem::host::FsError;
use wasi_host::filesystem::readdir::{FoundEntry, ReaddirIterator};
use wasi_host::filesystem::streams::{
    read_result, FileInputStream, FileOutputMode, FileOutputStream, OutputState, SpawnBlocking,
    WriteJob, WriteJobStep, FILE_WRITE_CAPACITY,
};
use wasi_host::filesystem::times::{
    calculate_metadata_hash, descriptorstat_from, descriptortype_from, is_same_object,
    systemtimespec_from, systemtimespec_given,
};
use wasi_host::filesystem::types::{
    Advice, BlockingPlace, Datetime, DescriptorType, DirectoryEntry, ErrorCode, FdFlags, FileType,
    Follow, FsCall, Metadata, NewTimestamp, OpenOptions, TimeSpec,
};
use wasi_host::filesystem::windows;
use wasi_host::table::TableError;
use wasmtime::component::ResourceTable;
use windows_sys::Win32::Foundation;

#[test]
fn table_readdir_works() {
    let mut table = ResourceTable::new();
    let ix = table.push(ReaddirIterator::new(VecDeque::new())).unwrap();
    let _ = table.get(&ix).unwrap();
    table.delete(ix).unwrap();
}

const NO_TYPE: FileType = FileType {
    is_dir: false,
    is_symlink: false,
    is_block_device: false,
    is_char_device: false,
    is_file: false,
};

fn io(kind: IoErrorKind, raw: Option<i32>) -> IoError {
    IoError { kind, raw_os_error: raw }
}

fn all_dir_perms() -> DirPerms {
    DirPerms::read().union(DirPerms::mutate())
}

fn all_file_perms() -> FilePerms {
    FilePerms::read().union(FilePerms::write())
}

fn dir(handle: u64, perms: DirPerms, file_perms: FilePerms) -> Descriptor {
    Descriptor::Dir(RealDir::new(handle, perms, file_perms, OpenMode::read(), false))
}

fn file(handle: u64, perms: FilePerms) -> Descriptor {
    Descriptor::File(File::new(handle, perms, OpenMode::read(), false))
}

fn metadata(dev: u64, ino: u64) -> Metadata {
    Metadata {
        file_type: NO_TYPE,
        dev,
        ino,
        nlink: 3,
        len: 77,
        accessed: None,
        modified: Some(Datetime { seconds: 1, nanoseconds: 2 }),
        created: None,
    }
}

#[test]
fn descriptors_are_files_or_directories() {
    let f = file(1, all_file_perms());
    let d = dir(2, all_dir_perms(), all_file_perms());
    assert!(f.is_file() && !f.is_dir());
    assert!(d.is_dir() && !d.is_file());
    assert_eq!(f.dir().unwrap_err(), ErrorCode::NotDirectory);
    assert_eq!(d.file().unwrap_err(), ErrorCode::BadDescriptor);
    assert_eq!(f.file().unwrap().file, 1);
    assert_eq!(d.dir().unwrap().dir, 2);
    assert_eq!(d.get_type(), TypeQuery::Known(DescriptorType::Directory));
    assert_eq!(f.get_type(), TypeQuery::Ask(FsCall::FileMetadata { file: 1 }));
    assert_eq!(f.sync(), FsCall::SyncFile { file: 1 });
    assert_eq!(f.sync_data(), FsCall::SyncFileData { file: 1 });
    assert_eq!(d.sync(), FsCall::SyncDir { dir: 2 });
    assert_eq!(d.sync_data(), FsCall::SyncDirData { dir: 2 });
    assert_eq!(f.stat(), FsCall::FileMetadata { file: 1 });
    assert_eq!(d.stat(), FsCall::DirMetadata { dir: 2 });
    assert_eq!(f.get_flags(), FsCall::FileFlags { file: 1 });
    assert_eq!(d.get_flags(), FsCall::DirFlags { dir: 2 });
}

#[test]
fn blocking_calls_are_made_where_they_may() {
    let mut f = File::new(1, all_file_perms(), OpenMode::read(), true);
    assert_eq!(f.as_blocking_file(), Some(1));
    assert_eq!(f.spawn_blocking(), BlockingPlace::CurrentThread);
    f.allow_blocking_current_thread = false;
    assert_eq!(f.as_blocking_file(), None);
    assert_eq!(f.spawn_blocking(), BlockingPlace::BackgroundThread);
    let d = RealDir::new(2, all_dir_perms(), all_file_perms(), OpenMode::read(), true);
    assert_eq!(d.spawn_blocking(), BlockingPlace::CurrentThread);
}

#[test]
fn file_operations_take_permissions() {
    let reader = file(1, FilePerms::read());
    let writer = file(2, FilePerms::write());
    let d = dir(3, all_dir_perms(), all_file_perms());
    assert_eq!(
        reader.advise(5, 6, Advice::WillNeed),
        Ok(FsCall::Advise { file: 1, offset: 5, length: 6, advice: Advice::WillNeed })
    );
    assert_eq!(d.advise(5, 6, Advice::Normal), Err(ErrorCode::BadDescriptor));
    assert_eq!(reader.set_size(9), Err(ErrorCode::NotPermitted));
    assert_eq!(writer.set_size(9), Ok(FsCall::SetLen { file: 2, size: 9 }));
    assert_eq!(d.set_size(9), Err(ErrorCode::BadDescriptor));
    assert_eq!(reader.read(10, 20), Ok(FsCall::ReadAt { file: 1, len: 10, offset: 20 }));
    assert_eq!(
        reader.read(u64::MAX, 0),
        Ok(FsCall::ReadAt { file: 1, len: usize::MAX, offset: 0 })
    );
    assert_eq!(writer.read(10, 20), Err(ErrorCode::NotPermitted));
    assert_eq!(reader.write(vec![1, 2], 3), Err(ErrorCode::NotPermitted));
    assert_eq!(
        writer.write(vec![1, 2], 3),
        Ok(FsCall::WriteAt { file: 2, buf: vec![1, 2], offset: 3 })
    );
}

#[test]
fn reads_end_at_the_end_of_a_file() {
    assert_eq!(read_outcome(vec![1, 2, 3, 0, 0], 3), (vec![1, 2, 3], false));
    assert_eq!(read_outcome(vec![0, 0], 0), (vec![], true));
}

#[test]
fn directory_operations_take_permissions() {
    let all = dir(1, all_dir_perms(), all_file_perms());
    let read_only = dir(2, DirPerms::read(), all_file_perms());
    let f = file(3, all_file_perms());
    let p = || "p".to_string();
    let q = || "q".to_string();
    let none = PathFlags::empty();
    let follow = PathFlags::symlink_follow();

    assert_eq!(all.read_directory(), Ok(FsCall::Entries { dir: 1 }));
    assert_eq!(
        dir(9, DirPerms::mutate(), all_file_perms()).read_directory(),
        Err(ErrorCode::NotPermitted)
    );
    assert_eq!(f.read_directory(), Err(ErrorCode::NotDirectory));

    assert_eq!(all.create_directory_at(p()), Ok(FsCall::CreateDir { dir: 1, path: p() }));
    assert_eq!(read_only.create_directory_at(p()), Err(ErrorCode::NotPermitted));
    assert_eq!(f.create_directory_at(p()), Err(ErrorCode::NotDirectory));

    assert_eq!(
        read_only.stat_at(follow, p()),
        Ok(FsCall::MetadataAt { dir: 2, path: p(), follow: Follow::Yes })
    );
    assert_eq!(
        read_only.stat_at(none, p()),
        Ok(FsCall::MetadataAt { dir: 2, path: p(), follow: Follow::No })
    );
    let blind = dir(9, DirPerms::empty(), all_file_perms());
    assert_eq!(blind.stat_at(none, p()), Err(ErrorCode::NotPermitted));
    assert_eq!(
        blind.metadata_hash_at(none, p()),
        Ok(FsCall::MetadataAt { dir: 9, path: p(), follow: Follow::No })
    );

    assert_eq!(
        all.link_at(none, p(), &all, q()),
        Ok(FsCall::HardLink { dir: 1, old_path: p(), new_dir: 1, new_path: q() })
    );
    assert_eq!(all.link_at(follow, p(), &all, q()), Err(ErrorCode::Invalid));
    assert_eq!(all.link_at(follow, p(), &read_only, q()), Err(ErrorCode::NotPermitted));
    assert_eq!(read_only.link_at(none, p(), &f, q()), Err(ErrorCode::NotPermitted));
    assert_eq!(all.link_at(none, p(), &f, q()), Err(ErrorCode::NotDirectory));

    assert_eq!(
        all.rename_at(p(), &all, q()),
        Ok(FsCall::Rename { dir: 1, old_path: p(), new_dir: 1, new_path: q() })
    );
    assert_eq!(all.rename_at(p(), &read_only, q()), Err(ErrorCode::NotPermitted));
    assert_eq!(f.rename_at(p(), &all, q()), Err(ErrorCode::NotDirectory));

    assert_eq!(
        all.symlink_at(p(), q()),
        Ok(FsCall::Symlink { dir: 1, src_path: p(), dest_path: q() })
    );
    assert_eq!(read_only.symlink_at(p(), q()), Err(ErrorCode::NotPermitted));
    assert_eq!(all.unlink_file_at(p()), Ok(FsCall::RemoveFileOrSymlink { dir: 1, path: p() }));
    assert_eq!(read_only.unlink_file_at(p()), Err(ErrorCode::NotPermitted));
    assert_eq!(all.remove_directory_at(p()), Ok(FsCall::RemoveDir { dir: 1, path: p() }));
    assert_eq!(read_only.remove_directory_at(p()), Err(ErrorCode::NotPermitted));
    assert_eq!(read_only.readlink_at(p()), Ok(FsCall::ReadLink { dir: 2, path: p() }));
    assert_eq!(blind.readlink_at(p()), Err(ErrorCode::NotPermitted));
    assert_eq!(link_target(Some(q())), Ok(q()));
    assert_eq!(link_target(None), Err(ErrorCode::IllegalByteSequence));
}

#[test]
fn opening_is_refused_in_order() {
    let create = OpenFlags::create();
    let truncate = OpenFlags::truncate();
    let none = OpenFlags::empty();
    let write = DescriptorFlags::write();
    let read = DescriptorFlags::read();
    let open = |d: &Descriptor, o: OpenFlags, f: DescriptorFlags| {
        d.open_at(PathFlags::empty(), "p".to_string(), o, f).unwrap_err()
    };
    assert_eq!(open(&file(1, all_file_perms()), none, read), ErrorCode::NotDirectory);
    let blind = dir(1, DirPerms::mutate(), all_file_perms());
    assert_eq!(open(&blind, none, read), ErrorCode::NotPermitted);
    let read_only = dir(1, DirPerms::read(), all_file_perms());
    assert_eq!(open(&read_only, create, read), ErrorCode::NotPermitted);
    assert_eq!(open(&read_only, truncate, read), ErrorCode::NotPermitted);
    assert_eq!(open(&read_only, none, write), ErrorCode::NotPermitted);
    let all = dir(1, all_dir_perms(), all_file_perms());
    for sync in [
        DescriptorFlags::file_integrity_sync(),
        DescriptorFlags::data_integrity_sync(),
        DescriptorFlags::requested_write_sync(),
    ] {
        assert_eq!(open(&all, none, sync.union(read)), ErrorCode::Unsupported);
        assert_eq!(
            open(&all, OpenFlags::directory().union(create), sync),
            ErrorCode::Unsupported
        );
    }
    for other in [create, OpenFlags::exclusive(), truncate] {
        assert_eq!(open(&all, OpenFlags::directory().union(other), read), ErrorCode::Invalid);
    }
    let read_only_files = dir(1, all_dir_perms(), FilePerms::read());
    assert_eq!(open(&read_only_files, create, read), ErrorCode::NotPermitted);
    assert_eq!(open(&read_only_files, none, write), ErrorCode::NotPermitted);
    assert_eq!(open(&read_only_files, truncate, read), ErrorCode::NotPermitted);
    assert_eq!(open(&read_only_files, truncate, write), ErrorCode::NotPermitted);
    assert_eq!(open(&read_only_files, truncate.union(create), read), ErrorCode::NotPermitted);
    assert!(read_only_files.open_at(PathFlags::empty(), "p".to_string(), none, read).is_ok());
}

#[test]
fn opening_asks_for_what_is_needed() {
    let all = dir(7, all_dir_perms(), all_file_perms());
    let base = OpenOptions {
        read: true,
        write: false,
        create: false,
        create_new: false,
        truncate: false,
        maybe_dir: true,
        follow: false,
    };
    let open = |p: PathFlags, o: OpenFlags, f: DescriptorFlags| {
        match all.open_at(p, "p".to_string(), o, f) {
            Ok((FsCall::Open { dir, path, options }, mode)) => {
                assert_eq!(dir, 7);
                assert_eq!(path, "p");
                (options, mode)
            }
            other => panic!("{:?}", other),
        }
    };
    let none = PathFlags::empty();
    let rw = OpenMode::read().union(OpenMode::write());
    assert_eq!(open(none, OpenFlags::empty(), DescriptorFlags::read()), (base, OpenMode::read()));
    assert_eq!(
        open(PathFlags::symlink_follow(), OpenFlags::empty(), DescriptorFlags::empty()),
        (OpenOptions { follow: true, ..base }, OpenMode::read())
    );
    assert_eq!(
        open(none, OpenFlags::empty(), DescriptorFlags::write()),
        (OpenOptions { read: false, write: true, ..base }, OpenMode::write())
    );
    assert_eq!(
        open(none, OpenFlags::create(), DescriptorFlags::read()),
        (OpenOptions { write: true, create: true, ..base }, rw)
    );
    assert_eq!(
        open(none, OpenFlags::create().union(OpenFlags::exclusive()), DescriptorFlags::read()),
        (OpenOptions { write: true, create_new: true, ..base }, rw)
    );
    assert_eq!(
        open(none, OpenFlags::truncate(), DescriptorFlags::read()),
        (OpenOptions { write: true, truncate: true, ..base }, OpenMode::read())
    );
    assert_eq!(
        open(none, OpenFlags::directory(), DescriptorFlags::read()),
        (base, OpenMode::read())
    );
}

#[test]
fn what_is_opened_inherits_permissions() {
    let d = RealDir::new(1, DirPerms::read(), FilePerms::write(), OpenMode::read(), true);
    assert_eq!(opened_kind(true, OpenFlags::empty()), OpenedKind::Dir);
    assert_eq!(opened_kind(true, OpenFlags::directory()), OpenedKind::Dir);
    assert_eq!(opened_kind(false, OpenFlags::directory()), OpenedKind::NotDir);
    assert_eq!(opened_kind(false, OpenFlags::empty()), OpenedKind::File);
    assert_eq!(
        d.opened(OpenedKind::Dir, 5, OpenMode::write()),
        Ok(Descriptor::Dir(RealDir::new(
            5,
            DirPerms::read(),
            FilePerms::write(),
            OpenMode::write(),
            true
        )))
    );
    assert_eq!(
        d.opened(OpenedKind::File, 5, OpenMode::write()),
        Ok(Descriptor::File(File::new(5, FilePerms::write(), OpenMode::write(), true)))
    );
    assert_eq!(
        d.opened(OpenedKind::NotDir, 5, OpenMode::write()),
        Err(ErrorCode::NotDirectory)
    );
    let mut deep = d;
    for handle in 10..20 {
        deep = match deep.opened(OpenedKind::Dir, handle, OpenMode::read()) {
            Ok(Descriptor::Dir(opened)) => opened,
            other => panic!("{:?}", other),
        };
    }
    assert_eq!((deep.dir, deep.perms, deep.file_perms), (19, d.perms, d.file_perms));
}

#[test]
fn flags_tell_mode_and_synchronization() {
    let rw = OpenMode::read().union(OpenMode::write());
    let f = Descriptor::File(File::new(1, all_file_perms(), rw, false));
    let d = Descriptor::Dir(RealDir::new(1, all_dir_perms(), all_file_perms(), rw, false));
    let none = FdFlags { dsync: false, rsync: false, sync: false };
    assert_eq!(f.flags_from(none).bits, 0b11);
    assert_eq!(d.flags_from(none).bits, 0b100001);
    assert_eq!(f.flags_from(FdFlags { dsync: true, ..none }).bits, 0b10011);
    assert_eq!(f.flags_from(FdFlags { rsync: true, ..none }).bits, 0b1011);
    assert_eq!(f.flags_from(FdFlags { sync: true, ..none }).bits, 0b111);
    let closed = Descriptor::File(File::new(1, all_file_perms(), OpenMode::empty(), false));
    assert_eq!(closed.flags_from(none).bits, 0);
}

#[test]
fn times_are_set_where_permitted() {
    let t = Datetime { seconds: 3, nanoseconds: 4 };
    let writer = file(1, FilePerms::write());
    assert_eq!(
        writer.set_times(NewTimestamp::Now, NewTimestamp::Timestamp(t)),
        Ok(FsCall::SetFileTimes {
            file: 1,
            atim: Some(TimeSpec::SymbolicNow),
            mtim: Some(TimeSpec::Absolute(t)),
        })
    );
    assert_eq!(
        file(1, FilePerms::read()).set_times(NewTimestamp::Now, NewTimestamp::Now),
        Err(ErrorCode::NotPermitted)
    );
    let d = dir(2, DirPerms::mutate(), all_file_perms());
    assert_eq!(
        d.set_times(NewTimestamp::NoChange, NewTimestamp::Now),
        Ok(FsCall::SetDirTimes { dir: 2, atim: None, mtim: Some(TimeSpec::SymbolicNow) })
    );
    assert_eq!(
        dir(2, DirPerms::read(), all_file_perms())
            .set_times(NewTimestamp::NoChange, NewTimestamp::Now),
        Err(ErrorCode::NotPermitted)
    );
    assert_eq!(
        d.set_times_at(
            PathFlags::symlink_follow(),
            "p".to_string(),
            NewTimestamp::Now,
            NewTimestamp::NoChange
        ),
        Ok(FsCall::SetTimesAt {
            dir: 2,
            path: "p".to_string(),
            follow: Follow::Yes,
            atim: Some(TimeSpec::SymbolicNow),
            mtim: None,
        })
    );
    assert_eq!(
        d.set_times_given(Err(ErrorCode::Overflow), Err(ErrorCode::Io)),
        Err(ErrorCode::Overflow)
    );
    assert_eq!(d.set_times_given(Ok(None), Err(ErrorCode::Io)), Err(ErrorCode::Io));
    assert_eq!(
        d.set_times_at_given(PathFlags::empty(), "p".to_string(), Err(ErrorCode::Overflow), Ok(None)),
        Err(ErrorCode::Overflow)
    );
    assert_eq!(
        file(1, FilePerms::write()).set_times_at(
            PathFlags::empty(),
            "p".to_string(),
            NewTimestamp::Now,
            NewTimestamp::Now
        ),
        Err(ErrorCode::NotDirectory)
    );
}

#[test]
fn timestamps_overflow_where_the_machine_says_so() {
    let t = Datetime { seconds: 1, nanoseconds: 999_999_999 };
    assert_eq!(
        systemtimespec_given(NewTimestamp::Timestamp(t), true),
        Ok(Some(TimeSpec::Absolute(t)))
    );
    assert_eq!(
        systemtimespec_given(NewTimestamp::Timestamp(t), false),
        Err(ErrorCode::Overflow)
    );
    assert_eq!(systemtimespec_given(NewTimestamp::NoChange, false), Ok(None));
    assert_eq!(
        systemtimespec_from(NewTimestamp::Timestamp(t)),
        Ok(Some(TimeSpec::Absolute(t)))
    );
    let far = Datetime { seconds: u64::MAX, nanoseconds: 0 };
    assert_eq!(systemtimespec_from(NewTimestamp::Timestamp(far)), Err(ErrorCode::Overflow));
}

#[test]
fn file_types_are_told_apart() {
    let all = FileType {
        is_dir: true,
        is_symlink: true,
        is_block_device: true,
        is_char_device: true,
        is_file: true,
    };
    assert_eq!(descriptortype_from(all), DescriptorType::Directory);
    let all = FileType { is_dir: false, ..all };
    assert_eq!(descriptortype_from(all), DescriptorType::SymbolicLink);
    let all = FileType { is_symlink: false, ..all };
    assert_eq!(descriptortype_from(all), DescriptorType::BlockDevice);
    let all = FileType { is_block_device: false, ..all };
    assert_eq!(descriptortype_from(all), DescriptorType::CharacterDevice);
    let all = FileType { is_char_device: false, ..all };
    assert_eq!(descriptortype_from(all), DescriptorType::RegularFile);
    assert_eq!(descriptortype_from(NO_TYPE), DescriptorType::Unknown);
    let stat = descriptorstat_from(metadata(1, 2));
    assert_eq!(stat.type_, DescriptorType::Unknown);
    assert_eq!(stat.link_count, 3);
    assert_eq!(stat.size, 77);
    assert_eq!(stat.data_access_timestamp, None);
    assert_eq!(stat.data_modification_timestamp, Some(Datetime { seconds: 1, nanoseconds: 2 }));
    assert_eq!(stat.status_change_timestamp, None);
}

#[test]
fn metadata_hashes_identify_objects() {
    let a = metadata(0x0102030405060708, 0xfffefdfcfbfaf9f8);
    let hash = calculate_metadata_hash(&a);
    let mut hasher = DefaultHasher::new();
    hasher.write_u64(a.dev);
    hasher.write_u64(a.ino);
    let lower = hasher.finish();
    assert_eq!(hash.lower, lower);
    assert_eq!(hash.upper, lower ^ std::f64::consts::PI.to_bits());
    assert_ne!(hash.lower, hash.upper);
    let same = Metadata { len: 0, ..a };
    assert!(is_same_object(&a, &same));
    assert_eq!(calculate_metadata_hash(&same), hash);
    assert!(!is_same_object(&a, &metadata(a.dev, 1)));
    assert!(!is_same_object(&a, &metadata(1, a.ino)));
}

#[test]
fn streams_need_permissions() {
    let f = file(1, FilePerms::read());
    assert_eq!(f.read_via_stream(5).unwrap().position, 5);
    assert_eq!(f.write_via_stream(5), Err(ErrorCode::BadDescriptor));
    assert_eq!(f.append_via_stream(), Err(ErrorCode::BadDescriptor));
    let w = file(1, FilePerms::write());
    assert_eq!(w.read_via_stream(5), Err(ErrorCode::BadDescriptor));
    assert_eq!(w.write_via_stream(5).unwrap().mode, FileOutputMode::Position(5));
    assert_eq!(w.append_via_stream().unwrap().mode, FileOutputMode::Append);
    let d = dir(1, all_dir_perms(), all_file_perms());
    assert_eq!(d.read_via_stream(0), Err(ErrorCode::BadDescriptor));
}

#[test]
fn file_reads_move_on() {
    let f = File::new(1, FilePerms::read(), OpenMode::read(), false);
    let mut stream = FileInputStream::new(&f, 10);
    let read = stream.read(4);
    assert_eq!((read.file, read.position), (1, 10));
    assert_eq!(&read.buf[..], &[0, 0, 0, 0]);
    let mut buf = read.buf;
    buf[..3].copy_from_slice(b"abc");
    assert_eq!(stream.read_done(buf, Ok(3), 4), Ok(Bytes::from_static(b"abc")));
    assert_eq!(stream.position, 13);
    let buf = stream.read(2).buf;
    assert_eq!(stream.skip_done(buf, Ok(2), 2), Ok(2));
    assert_eq!(stream.position, 15);
    let buf = stream.read(2).buf;
    assert_eq!(stream.read_done(buf, Ok(0), 2), Err(StreamError::Closed));
    let e = io(IoErrorKind::Interrupted, Some(4));
    let buf = stream.read(2).buf;
    assert_eq!(stream.read_done(buf, Err(e), 2), Ok(Bytes::new()));
    let e = io(IoErrorKind::Other, Some(5));
    assert_eq!(
        read_result(Err(e), 2),
        Err(StreamError::LastOperationFailed(Failure::Io(e)))
    );
    assert_eq!(read_result(Ok(0), 0), Ok(0));
    assert_eq!(stream.position, 15);
}

#[test]
fn write_jobs_write_in_order() {
    let mut job = WriteJob::new(FileOutputMode::Position(100), Bytes::from_static(b"abcdef"));
    assert_eq!(job.step(Ok(2)), WriteJobStep::Write);
    assert_eq!(&job.buf[..], b"cdef");
    assert_eq!(job.mode, FileOutputMode::Position(102));
    assert_eq!(job.step(Ok(0)), WriteJobStep::Write);
    assert_eq!(job.step(Ok(4)), WriteJobStep::Done(Ok(6)));
    assert_eq!(job.mode, FileOutputMode::Position(106));
    let mut job = WriteJob::new(FileOutputMode::Append, Bytes::from_static(b"ab"));
    let e = io(IoErrorKind::Other, None);
    assert_eq!(job.step(Ok(1)), WriteJobStep::Write);
    assert_eq!(job.step(Err(e)), WriteJobStep::Done(Err(e)));
    let mut job = WriteJob::new(FileOutputMode::Append, Bytes::new());
    assert_eq!(job.step(Ok(0)), WriteJobStep::Done(Ok(0)));
}

#[test]
fn file_writes_report_failures_once() {
    let f = File::new(1, FilePerms::write(), OpenMode::write(), false);
    let mut s = FileOutputStream::write_at(&f, 7);
    assert_eq!(FILE_WRITE_CAPACITY, 1024 * 1024);
    assert_eq!(s.check_write(), Ok(FILE_WRITE_CAPACITY));
    let job = s.write(Bytes::from_static(b"ab")).unwrap();
    assert_eq!(job.mode, FileOutputMode::Position(7));
    s.write_spawned(SpawnBlocking::Done(Ok(2)));
    assert_eq!(s.mode, FileOutputMode::Position(9));
    assert_eq!(s.state, OutputState::Ready);
    s.write_spawned(SpawnBlocking::Spawned(55));
    assert_eq!(s.pending(), Some(55));
    assert_eq!(s.check_write(), Ok(0));
    assert_eq!(s.flush(), Ok(()));
    assert_eq!(
        s.write(Bytes::new()).unwrap_err(),
        StreamError::Trap("write not permitted: check_write not called first".to_string())
    );
    s.ready(Ok(3));
    assert_eq!(s.mode, FileOutputMode::Position(12));
    assert_eq!(s.pending(), None);
    let e = io(IoErrorKind::Other, Some(28));
    s.write_spawned(SpawnBlocking::Spawned(56));
    s.ready(Err(e));
    let failed = StreamError::LastOperationFailed(Failure::Io(e));
    assert_eq!(s.clone().flush(), Err(failed.clone()));
    assert_eq!(s.check_write(), Err(failed));
    assert_eq!(s.check_write(), Err(StreamError::Closed));
    assert_eq!(s.flush(), Err(StreamError::Closed));
    assert_eq!(s.write(Bytes::new()).unwrap_err(), StreamError::Closed);
}

fn posix() -> Platform {
    Platform { errnos: Errnos::host(), windows: false }
}

fn on_windows() -> Platform {
    Platform { errnos: Errnos { bounded: false, ..Errnos::host() }, windows: true }
}

#[test]
fn directories_are_listed_in_order() {
    let host = Errnos::host();
    let found = vec![
        Ok(FoundEntry {
            file_type: FileType { is_file: true, ..NO_TYPE },
            name: Some("a".to_string()),
        }),
        Ok(FoundEntry { file_type: NO_TYPE, name: None }),
        Err(io(IoErrorKind::NotFound, Some(host.noent))),
        Ok(FoundEntry {
            file_type: FileType { is_dir: true, ..NO_TYPE },
            name: Some("b".to_string()),
        }),
    ];
    let mut entries = posix().read_directory(found);
    assert_eq!(
        entries.next(),
        Ok(Some(DirectoryEntry { type_: DescriptorType::RegularFile, name: "a".to_string() }))
    );
    assert_eq!(entries.next(), Err(ErrorCode::IllegalByteSequence));
    assert_eq!(entries.next(), Err(ErrorCode::NoEntry));
    assert_eq!(
        entries.next(),
        Ok(Some(DirectoryEntry { type_: DescriptorType::Directory, name: "b".to_string() }))
    );
    assert_eq!(entries.next(), Ok(None));
    assert_eq!(entries.next(), Ok(None));
    assert!(entries.into_iter().is_empty());
}

#[test]
fn the_hosts_error_numbers() {
    let host = Errnos::host();
    for (field, errno) in [
        (host.access, Errno::ACCESS),
        (host.addrinuse, Errno::ADDRINUSE),
        (host.addrnotavail, Errno::ADDRNOTAVAIL),
        (host.afnosupport, Errno::AFNOSUPPORT),
        (host.again, Errno::AGAIN),
        (host.already, Errno::ALREADY),
        (host.badf, Errno::BADF),
        (host.badfd, Errno::BADFD),
        (host.busy, Errno::BUSY),
        (host.connaborted, Errno::CONNABORTED),
        (host.connrefused, Errno::CONNREFUSED),
        (host.connreset, Errno::CONNRESET),
        (host.destaddrreq, Errno::DESTADDRREQ),
        (host.exist, Errno::EXIST),
        (host.fault, Errno::FAULT),
        (host.fbig, Errno::FBIG),
        (host.hostdown, Errno::HOSTDOWN),
        (host.hostunreach, Errno::HOSTUNREACH),
        (host.ilseq, Errno::ILSEQ),
        (host.inprogress, Errno::INPROGRESS),
        (host.intr, Errno::INTR),
        (host.inval, Errno::INVAL),
        (host.io, Errno::IO),
        (host.isconn, Errno::ISCONN),
        (host.isdir, Errno::ISDIR),
        (host.looped, Errno::LOOP),
        (host.mfile, Errno::MFILE),
        (host.mlink, Errno::MLINK),
        (host.msgsize, Errno::MSGSIZE),
        (host.nametoolong, Errno::NAMETOOLONG),
        (host.netdown, Errno::NETDOWN),
        (host.netreset, Errno::NETRESET),
        (host.netunreach, Errno::NETUNREACH),
        (host.nfile, Errno::NFILE),
        (host.nobufs, Errno::NOBUFS),
        (host.noent, Errno::NOENT),
        (host.nomem, Errno::NOMEM),
        (host.nonet, Errno::NONET),
        (host.noprotoopt, Errno::NOPROTOOPT),
        (host.nospc, Errno::NOSPC),
        (host.nosys, Errno::NOSYS),
        (host.notconn, Errno::NOTCONN),
        (host.notdir, Errno::NOTDIR),
        (host.notempty, Errno::NOTEMPTY),
        (host.notsock, Errno::NOTSOCK),
        (host.notsup, Errno::NOTSUP),
        (host.opnotsupp, Errno::OPNOTSUPP),
        (host.overflow, Errno::OVERFLOW),
        (host.perm, Errno::PERM),
        (host.pfnosupport, Errno::PFNOSUPPORT),
        (host.pipe, Errno::PIPE),
        (host.proto, Errno::PROTO),
        (host.protonosupport, Errno::PROTONOSUPPORT),
        (host.prototype, Errno::PROTOTYPE),
        (host.socktnosupport, Errno::SOCKTNOSUPPORT),
        (host.spipe, Errno::SPIPE),
        (host.timedout, Errno::TIMEDOUT),
        (host.wouldblock, Errno::WOULDBLOCK),
    ] {
        assert_eq!(field, errno.raw_os_error());
    }
}

#[test]
fn filesystem_errors_are_told_apart() {
    let p = posix();
    let h = p.errnos;
    for (raw, code) in [
        (h.pipe, ErrorCode::Pipe),
        (h.perm, ErrorCode::NotPermitted),
        (h.noent, ErrorCode::NoEntry),
        (h.nomem, ErrorCode::InsufficientMemory),
        (h.io, ErrorCode::Io),
        (h.badf, ErrorCode::BadDescriptor),
        (h.busy, ErrorCode::Busy),
        (h.access, ErrorCode::Access),
        (h.notdir, ErrorCode::NotDirectory),
        (h.isdir, ErrorCode::IsDirectory),
        (h.inval, ErrorCode::Invalid),
        (h.exist, ErrorCode::Exist),
        (h.fbig, ErrorCode::FileTooLarge),
        (h.nospc, ErrorCode::InsufficientSpace),
        (h.spipe, ErrorCode::InvalidSeek),
        (h.mlink, ErrorCode::TooManyLinks),
        (h.nametoolong, ErrorCode::NameTooLong),
        (h.notempty, ErrorCode::NotEmpty),
        (h.looped, ErrorCode::Loop),
        (h.overflow, ErrorCode::Overflow),
        (h.ilseq, ErrorCode::IllegalByteSequence),
        (h.notsup, ErrorCode::Unsupported),
        (h.already, ErrorCode::Already),
        (h.inprogress, ErrorCode::InProgress),
        (h.intr, ErrorCode::Interrupted),
        (h.opnotsupp, ErrorCode::Unsupported),
    ] {
        assert_eq!(h.filesystem_code(raw), Some(code));
        assert_eq!(p.filesystem_code(Some(raw)), Some(code));
        assert_eq!(from_raw_os_error(Some(raw)), Some(code));
        assert_eq!(p.filesystem_error(io(IoErrorKind::Other, Some(raw))), code);
        assert_eq!(p.random_error(Some(raw)), code);
    }
    assert_eq!(from_raw_os_error(None), None);
    for raw in [i32::MIN, -1, 0, 4096, i32::MAX] {
        assert_eq!(from_raw_os_error(Some(raw)), None);
    }
    assert_eq!(from_raw_os_error(Some(h.connreset)), None);
    for (kind, code) in [
        (IoErrorKind::NotFound, ErrorCode::NoEntry),
        (IoErrorKind::PermissionDenied, ErrorCode::NotPermitted),
        (IoErrorKind::AlreadyExists, ErrorCode::Exist),
        (IoErrorKind::InvalidInput, ErrorCode::Invalid),
        (IoErrorKind::TimedOut, ErrorCode::Io),
    ] {
        assert_eq!(p.filesystem_error(io(kind, None)), code);
        assert_eq!(p.filesystem_error(io(kind, Some(h.connreset))), code);
    }
    assert_eq!(p.random_error(None), ErrorCode::Io);
    assert_eq!(p.random_error(Some(h.connreset)), ErrorCode::Io);
    assert_eq!(p.filesystem_result(Ok(1)), Ok(1));
    assert_eq!(
        p.filesystem_result::<u8>(Err(io(IoErrorKind::Other, Some(h.busy)))),
        Err(ErrorCode::Busy)
    );
    let too_large = u8::try_from(300).unwrap_err();
    assert_eq!(ErrorCode::from(too_large), ErrorCode::Overflow);
}

#[test]
fn windows_errors_are_told_apart() {
    for (raw, code) in [
        (Foundation::ERROR_FILE_NOT_FOUND, ErrorCode::NoEntry),
        (Foundation::ERROR_PATH_NOT_FOUND, ErrorCode::NoEntry),
        (Foundation::ERROR_ACCESS_DENIED, ErrorCode::Access),
        (Foundation::ERROR_SHARING_VIOLATION, ErrorCode::Access),
        (Foundation::ERROR_PRIVILEGE_NOT_HELD, ErrorCode::NotPermitted),
        (Foundation::ERROR_INVALID_HANDLE, ErrorCode::BadDescriptor),
        (Foundation::ERROR_INVALID_NAME, ErrorCode::NoEntry),
        (Foundation::ERROR_NOT_ENOUGH_MEMORY, ErrorCode::InsufficientMemory),
        (Foundation::ERROR_OUTOFMEMORY, ErrorCode::InsufficientMemory),
        (Foundation::ERROR_DIR_NOT_EMPTY, ErrorCode::NotEmpty),
        (Foundation::ERROR_NOT_READY, ErrorCode::Busy),
        (Foundation::ERROR_BUSY, ErrorCode::Busy),
        (Foundation::ERROR_NOT_SUPPORTED, ErrorCode::Unsupported),
        (Foundation::ERROR_FILE_EXISTS, ErrorCode::Exist),
        (Foundation::ERROR_BROKEN_PIPE, ErrorCode::Pipe),
        (Foundation::ERROR_BUFFER_OVERFLOW, ErrorCode::NameTooLong),
        (Foundation::ERROR_NOT_A_REPARSE_POINT, ErrorCode::Invalid),
        (Foundation::ERROR_NEGATIVE_SEEK, ErrorCode::Invalid),
        (Foundation::ERROR_DIRECTORY, ErrorCode::NotDirectory),
        (Foundation::ERROR_ALREADY_EXISTS, ErrorCode::Exist),
        (Foundation::ERROR_STOPPED_ON_SYMLINK, ErrorCode::Loop),
        (Foundation::ERROR_DIRECTORY_NOT_SUPPORTED, ErrorCode::IsDirectory),
    ] {
        assert_eq!(windows::from_raw_os_error(Some(raw as i32)), Some(code));
        assert_eq!(on_windows().filesystem_code(Some(raw as i32)), Some(code));
        assert_eq!(
            on_windows().filesystem_error(io(IoErrorKind::Other, Some(raw as i32))),
            code
        );
        assert_eq!(on_windows().random_error(Some(raw as i32)), code);
    }
    assert_eq!(windows::from_raw_os_error(None), None);
    assert_eq!(windows::from_raw_os_error(Some(1)), None);
    assert_eq!(on_windows().filesystem_error(io(IoErrorKind::NotFound, None)), ErrorCode::NoEntry);
    assert_eq!(on_windows().filesystem_error(io(IoErrorKind::TimedOut, Some(1))), ErrorCode::Io);
}

#[test]
fn windows_denials_are_overlooked() {
    let denied = io(IoErrorKind::PermissionDenied, Some(Foundation::ERROR_ACCESS_DENIED as i32));
    let shared = io(IoErrorKind::Other, Some(Foundation::ERROR_SHARING_VIOLATION as i32));
    let busy = io(IoErrorKind::Other, Some(Foundation::ERROR_BUSY as i32));
    assert_eq!(windows::sync_outcome(Ok(())), Ok(()));
    assert_eq!(windows::sync_outcome(Err(denied)), Ok(()));
    assert_eq!(windows::sync_outcome(Err(shared)), Err(shared));
    assert_eq!(on_windows().sync_result(Ok(())), Ok(()));
    assert_eq!(on_windows().sync_result(Err(denied)), Ok(()));
    assert_eq!(on_windows().sync_result(Err(busy)), Err(ErrorCode::Busy));
    assert_eq!(posix().sync_result(Ok(())), Ok(()));
    let io_error = io(IoErrorKind::Other, Some(posix().errnos.io));
    assert_eq!(posix().sync_result(Err(io_error)), Err(ErrorCode::Io));
    let f = file(1, all_file_perms());
    let d = dir(2, all_dir_perms(), all_file_perms());
    assert_eq!(f.synced(&on_windows(), Err(denied)), Ok(()));
    assert_eq!(d.synced(&on_windows(), Err(denied)), Err(ErrorCode::Access));
    assert_eq!(d.synced(&on_windows(), Ok(())), Ok(()));
    assert_eq!(f.synced(&posix(), Err(io_error)), Err(ErrorCode::Io));
    let mut entries = on_windows().read_directory(vec![Err(denied), Err(busy), Err(shared)]);
    assert_eq!(entries.next(), Err(ErrorCode::Busy));
    assert_eq!(entries.next(), Ok(None));
    assert_eq!(posix().read_directory(vec![Err(denied), Err(busy)]).into_iter().len(), 2);
    let entry = FoundEntry { file_type: NO_TYPE, name: Some("a".to_string()) };
    assert_eq!(
        windows::listed_entries(vec![
            Err(denied),
            Ok(entry.clone()),
            Err(busy),
            Err(shared),
            Err(io(IoErrorKind::Other, None)),
        ]),
        vec![Ok(entry), Err(busy), Err(io(IoErrorKind::Other, None))]
    );
}

#[test]
fn the_host_keeps_descriptors_in_its_table() {
    let platform = posix();
    let errnos = platform.errnos;
    let mut table = ResourceTable::new();
    let root = RealDir::new(1, all_dir_perms(), all_file_perms(), OpenMode::read(), false);
    let other = RealDir::new(2, DirPerms::read(), FilePerms::read(), OpenMode::read(), false);
    let preopens = vec![(root, "/".to_string()), (other, "/other".to_string())];
    let dirs = host::get_directories(&mut table, &preopens).unwrap();
    assert_eq!(dirs.len(), 2);
    assert_eq!(dirs[0].1, "/");
    assert_eq!(dirs[1].1, "/other");
    assert_ne!(dirs[0].0, dirs[1].0);
    let fd = dirs[0].0;
    assert_eq!(*host::descriptor(&table, fd).unwrap(), Descriptor::Dir(root));
    assert_eq!(*host::descriptor(&table, dirs[1].0).unwrap(), Descriptor::Dir(other));
    let missing = FsError::Trap(TableError::NotPresent);
    assert_eq!(host::descriptor(&table, 99).unwrap_err(), missing);
    assert_eq!(host::get_directories(&mut table, &vec![]).unwrap(), vec![]);

    let (call, mode) = host::open_at(
        &table,
        fd,
        PathFlags::empty(),
        "f".to_string(),
        OpenFlags::create(),
        DescriptorFlags::write(),
    )
    .unwrap();
    assert!(matches!(call, FsCall::Open { dir: 1, .. }));
    let f = host::opened_at(&mut table, &platform, fd, Ok((OpenedKind::File, 10)), mode).unwrap();
    assert_eq!(
        *host::descriptor(&table, f).unwrap(),
        Descriptor::File(File::new(10, all_file_perms(), OpenMode::write(), false))
    );
    assert_eq!(
        host::opened_at(
            &mut table,
            &platform,
            fd,
            Err(io(IoErrorKind::NotFound, Some(errnos.noent))),
            mode
        ),
        Err(FsError::Code(ErrorCode::NoEntry))
    );
    assert_eq!(
        host::opened_at(&mut table, &platform, fd, Ok((OpenedKind::NotDir, 10)), mode),
        Err(FsError::Code(ErrorCode::NotDirectory))
    );
    assert_eq!(
        host::opened_at(&mut table, &platform, f, Ok((OpenedKind::File, 10)), mode),
        Err(FsError::Code(ErrorCode::NotDirectory))
    );
    assert_eq!(
        host::opened_at(&mut table, &platform, 99, Ok((OpenedKind::File, 10)), mode),
        Err(missing)
    );

    assert_eq!(
        host::is_same_object(&table, fd, f),
        Ok((FsCall::DirMetadata { dir: 1 }, FsCall::FileMetadata { file: 10 }))
    );
    assert_eq!(
        host::rename_at(&table, fd, "a".to_string(), dirs[1].0, "b".to_string()),
        Err(FsError::Code(ErrorCode::NotPermitted))
    );
    assert_eq!(
        host::link_at(
            &table,
            fd,
            PathFlags::empty(),
            "a".to_string(),
            fd,
            "b".to_string()
        ),
        Ok(FsCall::HardLink {
            dir: 1,
            old_path: "a".to_string(),
            new_dir: 1,
            new_path: "b".to_string()
        })
    );
    assert_eq!(
        host::link_at(&table, fd, PathFlags::empty(), "a".to_string(), 99, "b".to_string()),
        Err(missing)
    );

    let r = host::read_via_stream(&mut table, f, 3).unwrap();
    let w = host::write_via_stream(&mut table, f, 3).unwrap();
    let a = host::append_via_stream(&mut table, f).unwrap();
    assert!(r != w && w != a && r != a);
    assert_eq!(host::descriptor(&table, r).unwrap_err(), FsError::Trap(TableError::WrongType));
    assert_eq!(
        host::read_via_stream(&mut table, fd, 3),
        Err(FsError::Code(ErrorCode::BadDescriptor))
    );
    assert_eq!(host::drop_descriptor(&mut table, f), Ok(()));
    assert_eq!(host::drop_descriptor(&mut table, f), Err(TableError::NotPresent));
    assert_eq!(host::drop_descriptor(&mut table, r), Err(TableError::WrongType));
    assert_eq!(host::drop_descriptor(&mut table, r), Err(TableError::NotPresent));
}

#[test]
fn the_host_hands_out_directory_entries() {
    let platform = posix();
    let errnos = platform.errnos;
    let mut table = ResourceTable::new();
    let e = io(IoErrorKind::Other, Some(errnos.access));
    assert_eq!(
        host::directory_read(&mut table, &platform, Err(e)),
        Err(FsError::Code(ErrorCode::Access))
    );
    let found = vec![
        Ok(FoundEntry { file_type: NO_TYPE, name: Some("a".to_string()) }),
        Err(e),
    ];
    let stream = host::directory_read(&mut table, &platform, Ok(found)).unwrap();
    assert_eq!(
        host::read_directory_entry(&mut table, stream),
        Ok(Some(DirectoryEntry { type_: DescriptorType::Unknown, name: "a".to_string() }))
    );
    assert_eq!(
        host::read_directory_entry(&mut table, stream),
        Err(FsError::Code(ErrorCode::Access))
    );
    assert_eq!(host::read_directory_entry(&mut table, stream), Ok(None));
    assert_eq!(
        host::read_directory_entry(&mut table, 77),
        Err(FsError::Trap(TableError::NotPresent))
    );
    let foreign = table.push("no entry".to_string()).unwrap().rep();
    assert_eq!(
        host::read_directory_entry(&mut table, foreign),
        Err(FsError::Trap(TableError::WrongType))
    );
    assert_eq!(host::drop_directory_entry_stream(&mut table, stream), Ok(()));
    assert_eq!(
        host::convert_error_code(FsError::Code(ErrorCode::Access)),
        Ok(ErrorCode::Access)
    );
    assert_eq!(
        host::convert_error_code(FsError::Trap(TableError::Full)),
        Err(TableError::Full)
    );
}

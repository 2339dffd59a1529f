//! Timestamps and identity of files.
use super::types::{
    Datetime, DescriptorStat, DescriptorType, ErrorCode, FileType, Metadata, MetadataHashValue,
    NewTimestamp, TimeSpec,
};
use crate::call::call2;
use std::collections::hash_map::DefaultHasher;
use std::hash::Hasher;
use std::time::{Duration, SystemTime};
use vstd::prelude::*;
use vstd::std_specs::hash::*;

verus! {

impl Datetime {
    /// The whole seconds fit in 64 bits once the nanoseconds are carried over.
    pub open spec fn is_valid(self) -> bool {
        self.seconds + self.nanoseconds / 1_000_000_000 <= u64::MAX
    }
}

impl NewTimestamp {
    pub open spec fn is_valid(self) -> bool {
        self matches NewTimestamp::Timestamp(t) ==> t.is_valid()
    }

    /// The time to set, by whether the machine can represent it.
    pub open spec fn timespec(self, fits: bool) -> Result<Option<TimeSpec>, ErrorCode> {
        match self {
            NewTimestamp::NoChange => Ok(None),
            NewTimestamp::Now => Ok(Some(TimeSpec::SymbolicNow)),
            NewTimestamp::Timestamp(t) => if fits {
                Ok(Some(TimeSpec::Absolute(t)))
            } else {
                Err(ErrorCode::Overflow)
            },
        }
    }
}

/// `SystemTime::checked_add`, from the Unix epoch on: whether the sum can be
/// represented as a `SystemTime`, which depends on the machine.
///
/// `Duration::new`, which makes the argument, panics where the seconds
/// overflow.
#[verifier::external_body]
fn epoch_offset_fits(seconds: u64, nanoseconds: u32) -> bool
    requires
        seconds + nanoseconds / 1_000_000_000 <= u64::MAX,
{
    SystemTime::UNIX_EPOCH.checked_add(Duration::new(seconds, nanoseconds)).is_some()
}

/// The time to set, given whether the machine can represent it.
pub fn systemtimespec_given(t: NewTimestamp, fits: bool) -> (r: Result<Option<TimeSpec>, ErrorCode>)
    ensures
        r == t.timespec(fits),
{
    match t {
        NewTimestamp::NoChange => Ok(None),
        NewTimestamp::Now => Ok(Some(TimeSpec::SymbolicNow)),
        NewTimestamp::Timestamp(t) => if fits {
            Ok(Some(TimeSpec::Absolute(t)))
        } else {
            Err(ErrorCode::Overflow)
        },
    }
}

impl NewTimestamp {
    /// The machine, asked whether it can represent the time, says `fits`.
    /// Where no time is given, it need not be asked.
    pub closed spec fn machine_says(self, fits: bool) -> bool {
        match self {
            NewTimestamp::Timestamp(t) => call_ensures(
                epoch_offset_fits,
                (t.seconds, t.nanoseconds),
                fits,
            ),
            _ => fits,
        }
    }
}

/// The time to set. Only a time that is given can overflow, and whether it
/// does is for the machine to say.
pub fn systemtimespec_from(t: NewTimestamp) -> (r: Result<Option<TimeSpec>, ErrorCode>)
    requires
        t.is_valid(),
    ensures
        exists|fits: bool| #[trigger] t.machine_says(fits) && r == t.timespec(fits),
        !(t is Timestamp) ==> r == t.timespec(true),
{
    let fits: bool = match t {
        NewTimestamp::NoChange => true,
        NewTimestamp::Now => true,
        NewTimestamp::Timestamp(t) => call2(epoch_offset_fits, t.seconds, t.nanoseconds),
    };
    assert(t.machine_says(fits));
    systemtimespec_given(t, fits)
}

/// What a file is, by the first of the answers that is given.
pub open spec fn descriptortype_spec(ft: FileType) -> DescriptorType {
    if ft.is_dir {
        DescriptorType::Directory
    } else if ft.is_symlink {
        DescriptorType::SymbolicLink
    } else if ft.is_block_device {
        DescriptorType::BlockDevice
    } else if ft.is_char_device {
        DescriptorType::CharacterDevice
    } else if ft.is_file {
        DescriptorType::RegularFile
    } else {
        DescriptorType::Unknown
    }
}

pub fn descriptortype_from(ft: FileType) -> (r: DescriptorType)
    ensures
        r == descriptortype_spec(ft),
{
    if ft.is_dir {
        DescriptorType::Directory
    } else if ft.is_symlink {
        DescriptorType::SymbolicLink
    } else if ft.is_block_device {
        DescriptorType::BlockDevice
    } else if ft.is_char_device {
        DescriptorType::CharacterDevice
    } else if ft.is_file {
        DescriptorType::RegularFile
    } else {
        DescriptorType::Unknown
    }
}

pub fn descriptorstat_from(meta: Metadata) -> (r: DescriptorStat)
    ensures
        r == (DescriptorStat {
            type_: descriptortype_spec(meta.file_type),
            link_count: meta.nlink,
            size: meta.len,
            data_access_timestamp: meta.accessed,
            data_modification_timestamp: meta.modified,
            status_change_timestamp: meta.created,
        }),
{
    DescriptorStat {
        type_: descriptortype_from(meta.file_type),
        link_count: meta.nlink,
        size: meta.len,
        data_access_timestamp: meta.accessed,
        data_modification_timestamp: meta.modified,
        status_change_timestamp: meta.created,
    }
}

/// Distinguishes the upper half of a metadata hash from the lower: the bits
/// of the double that is closest to pi.
pub const UPPER_HALF_MASK: u64 = 4614256656552045848;

/// The hash of a file's identity. There are 64 bits of it; the upper half is
/// the lower one under a mask.
pub open spec fn metadata_hash_spec(dev: u64, ino: u64) -> MetadataHashValue {
    let lower = DefaultHasher::spec_finish(
        seq![vstd::bytes::spec_u64_to_le_bytes(dev), vstd::bytes::spec_u64_to_le_bytes(ino)],
    );
    MetadataHashValue { lower, upper: lower ^ UPPER_HALF_MASK }
}

pub fn calculate_metadata_hash(meta: &Metadata) -> (r: MetadataHashValue)
    ensures
        r == metadata_hash_spec(meta.dev, meta.ino),
{
    let mut hasher: DefaultHasher = DefaultHasher::new();
    let dev: Vec<u8> = vstd::bytes::u64_to_le_bytes(meta.dev);
    let ino: Vec<u8> = vstd::bytes::u64_to_le_bytes(meta.ino);
    hasher.write(dev.as_slice());
    hasher.write(ino.as_slice());
    proof {
        assert(hasher@ =~= seq![vstd::bytes::spec_u64_to_le_bytes(meta.dev), vstd::bytes::spec_u64_to_le_bytes(meta.ino)]);
    }
    let lower: u64 = hasher.finish();
    let upper: u64 = lower ^ UPPER_HALF_MASK;
    MetadataHashValue { lower, upper }
}

/// Two descriptors refer to the same object where device and inode agree.
pub fn is_same_object(meta_a: &Metadata, meta_b: &Metadata) -> (r: bool)
    ensures
        r == (meta_a.dev == meta_b.dev && meta_a.ino == meta_b.ino),
{
    meta_a.dev == meta_b.dev && meta_a.ino == meta_b.ino
}

/// Descriptors that refer to the same object have the same metadata hash.
pub proof fn law_same_object_same_hash(meta_a: Metadata, meta_b: Metadata)
    requires
        meta_a.dev == meta_b.dev && meta_a.ino == meta_b.ino,
    ensures
        metadata_hash_spec(meta_a.dev, meta_a.ino) == metadata_hash_spec(meta_b.dev, meta_b.ino),
{
}

/// The two halves of a metadata hash are never equal.
pub proof fn law_hash_halves_differ(dev: u64, ino: u64)
    ensures
        metadata_hash_spec(dev, ino).lower != metadata_hash_spec(dev, ino).upper,
{
    let lower = metadata_hash_spec(dev, ino).lower;
    assert(lower != lower ^ 4614256656552045848u64) by (bit_vector);
}

/// A time is set as it was given, to the second and the nanosecond; to change
/// nothing and to take the present time are kept apart from that. Only a time
/// that was given can overflow, and does exactly where it does not fit.
pub proof fn law_times_are_made_as_given(
    t: NewTimestamp,
    fits: bool,
    given: Result<Option<TimeSpec>, ErrorCode>,
    made: Result<Option<TimeSpec>, ErrorCode>,
)
    requires
        call_ensures(systemtimespec_given, (t, fits), given),
        call_ensures(systemtimespec_from, (t,), made),
    ensures
        t is NoChange ==> given == Ok::<Option<TimeSpec>, ErrorCode>(None) && made == given,
        t is Now ==> given == Ok::<Option<TimeSpec>, ErrorCode>(Some(TimeSpec::SymbolicNow))
            && made == given,
        t matches NewTimestamp::Timestamp(time) ==> {
            &&& fits ==> (given matches Ok(Some(TimeSpec::Absolute(to))) && to.seconds
                == time.seconds && to.nanoseconds == time.nanoseconds)
            &&& !fits ==> given == Err::<Option<TimeSpec>, ErrorCode>(ErrorCode::Overflow)
            &&& made matches Ok(spec) ==> spec == Some(TimeSpec::Absolute(time))
                && t.machine_says(true)
            &&& made matches Err(e) ==> e == ErrorCode::Overflow && t.machine_says(false)
        },
{
}

/// A file is what the first of the answers says that is given, in this order: a
/// directory, a symbolic link, a block device, a character device, a regular
/// file. Where none is given, nothing is known.
pub proof fn law_file_types(ft: FileType, r: DescriptorType)
    requires
        call_ensures(descriptortype_from, (ft,), r),
    ensures
        r is Directory <==> ft.is_dir,
        r is SymbolicLink <==> ft.is_symlink && !ft.is_dir,
        r is BlockDevice <==> ft.is_block_device && !ft.is_dir && !ft.is_symlink,
        r is CharacterDevice <==> ft.is_char_device && !ft.is_dir && !ft.is_symlink
            && !ft.is_block_device,
        r is RegularFile <==> ft.is_file && !ft.is_dir && !ft.is_symlink && !ft.is_block_device
            && !ft.is_char_device,
{
}

/// What the guest learns of a file is what its metadata says: its type, how
/// many links it has, its size, and when it was read, changed and created.
pub proof fn law_stat_tells_the_metadata(meta: Metadata, type_: DescriptorType, r: DescriptorStat)
    requires
        call_ensures(descriptortype_from, (meta.file_type,), type_),
        call_ensures(descriptorstat_from, (meta,), r),
    ensures
        r.type_ == type_,
        r.link_count == meta.nlink,
        r.size == meta.len,
        r.data_access_timestamp == meta.accessed,
        r.data_modification_timestamp == meta.modified,
        r.status_change_timestamp == meta.created,
{
}

/// Files are the same object exactly where they have the same device and the
/// same inode, whatever else is known of them; and then they have the same
/// metadata hash, whose halves differ by the same mask for every file. The hash
/// is that of the device and then of the inode.
pub proof fn law_identity_is_device_and_inode(
    a: Metadata,
    b: Metadata,
    same: bool,
    hash_a: MetadataHashValue,
    hash_b: MetadataHashValue,
)
    requires
        call_ensures(is_same_object, (&a, &b), same),
        call_ensures(calculate_metadata_hash, (&a,), hash_a),
        call_ensures(calculate_metadata_hash, (&b,), hash_b),
    ensures
        same <==> a.dev == b.dev && a.ino == b.ino,
        same ==> hash_a == hash_b,
        hash_a.lower ^ hash_a.upper == 4614256656552045848,
        hash_a.lower != hash_a.upper,
        hash_a.lower == DefaultHasher::spec_finish(
            seq![vstd::bytes::spec_u64_to_le_bytes(a.dev), vstd::bytes::spec_u64_to_le_bytes(a.ino)],
        ),
{
    let x = hash_a.lower;
    assert(x ^ (x ^ 4614256656552045848u64) == 4614256656552045848u64) by (bit_vector);
    assert(x != x ^ 4614256656552045848u64) by (bit_vector);
}

} // verus!

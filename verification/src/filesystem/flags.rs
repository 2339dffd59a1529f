//! Sets of flags, one bit each.
use vstd::prelude::*;

verus! {

/// Permission bits for operating on a file.
#[derive(Clone, Copy, Debug, PartialEq, Eq, Structural)]
pub struct FilePerms {
    pub bits: usize,
}

impl FilePerms {
    #[verifier::allow_in_spec]
    pub fn empty() -> FilePerms
        returns
            (FilePerms { bits: 0 }),
    {
        FilePerms { bits: 0 }
    }

    /// The file may be read.
    #[verifier::allow_in_spec]
    pub fn read() -> FilePerms
        returns
            (FilePerms { bits: 0b1 }),
    {
        FilePerms { bits: 0b1 }
    }

    /// The file may be written.
    #[verifier::allow_in_spec]
    pub fn write() -> FilePerms
        returns
            (FilePerms { bits: 0b10 }),
    {
        FilePerms { bits: 0b10 }
    }

    /// Every flag of `other` is in `self`.
    #[verifier::allow_in_spec]
    pub fn contains(self, other: FilePerms) -> bool
        returns
            self.bits & other.bits == other.bits,
    {
        self.bits & other.bits == other.bits
    }

    /// The flags of `self` and those of `other`.
    #[verifier::allow_in_spec]
    pub fn union(self, other: FilePerms) -> FilePerms
        returns
            (FilePerms { bits: self.bits | other.bits }),
    {
        FilePerms { bits: self.bits | other.bits }
    }
}

/// Permission bits for operating on a directory.
///
/// Directories can be limited to being readonly. This will restrict what
/// can be done with them, for example preventing creation of new files.
#[derive(Clone, Copy, Debug, PartialEq, Eq, Structural)]
pub struct DirPerms {
    pub bits: usize,
}

impl DirPerms {
    #[verifier::allow_in_spec]
    pub fn empty() -> DirPerms
        returns
            (DirPerms { bits: 0 }),
    {
        DirPerms { bits: 0 }
    }

    /// This directory can be read, for example its entries can be iterated
    /// over and files can be opened.
    #[verifier::allow_in_spec]
    pub fn read() -> DirPerms
        returns
            (DirPerms { bits: 0b1 }),
    {
        DirPerms { bits: 0b1 }
    }

    /// This directory can be mutated, for example by creating new files
    /// within it.
    #[verifier::allow_in_spec]
    pub fn mutate() -> DirPerms
        returns
            (DirPerms { bits: 0b10 }),
    {
        DirPerms { bits: 0b10 }
    }

    /// Every flag of `other` is in `self`.
    #[verifier::allow_in_spec]
    pub fn contains(self, other: DirPerms) -> bool
        returns
            self.bits & other.bits == other.bits,
    {
        self.bits & other.bits == other.bits
    }

    /// The flags of `self` and those of `other`.
    #[verifier::allow_in_spec]
    pub fn union(self, other: DirPerms) -> DirPerms
        returns
            (DirPerms { bits: self.bits | other.bits }),
    {
        DirPerms { bits: self.bits | other.bits }
    }
}

/// The mode a descriptor was opened under.
#[derive(Clone, Copy, Debug, PartialEq, Eq, Structural)]
pub struct OpenMode {
    pub bits: usize,
}

impl OpenMode {
    /// The mode with the named flags and no other.
    pub open spec fn of(read: bool, write: bool) -> OpenMode {
        if read && write {
            OpenMode { bits: 0b11 }
        } else if read {
            OpenMode { bits: 0b1 }
        } else if write {
            OpenMode { bits: 0b10 }
        } else {
            OpenMode { bits: 0 }
        }
    }

    #[verifier::allow_in_spec]
    pub fn empty() -> OpenMode
        returns
            (OpenMode { bits: 0 }),
    {
        OpenMode { bits: 0 }
    }

    #[verifier::allow_in_spec]
    pub fn read() -> OpenMode
        returns
            (OpenMode { bits: 0b1 }),
    {
        OpenMode { bits: 0b1 }
    }

    #[verifier::allow_in_spec]
    pub fn write() -> OpenMode
        returns
            (OpenMode { bits: 0b10 }),
    {
        OpenMode { bits: 0b10 }
    }

    /// Every flag of `other` is in `self`.
    #[verifier::allow_in_spec]
    pub fn contains(self, other: OpenMode) -> bool
        returns
            self.bits & other.bits == other.bits,
    {
        self.bits & other.bits == other.bits
    }

    /// The flags of `self` and those of `other`.
    #[verifier::allow_in_spec]
    pub fn union(self, other: OpenMode) -> OpenMode
        returns
            (OpenMode { bits: self.bits | other.bits }),
    {
        OpenMode { bits: self.bits | other.bits }
    }
}

/// How adding a flag to a mode, and asking for one, read on the two flags.
pub proof fn lemma_open_mode(read: bool, write: bool)
    ensures
        OpenMode::empty() == OpenMode::of(false, false),
        OpenMode::of(read, write).union(OpenMode::read()) == OpenMode::of(true, write),
        OpenMode::of(read, write).union(OpenMode::write()) == OpenMode::of(read, true),
        OpenMode::of(read, write).contains(OpenMode::read()) == read,
        OpenMode::of(read, write).contains(OpenMode::write()) == write,
{
    assert(0usize | 1 == 1 && 1usize | 1 == 1 && 2usize | 1 == 3 && 3usize | 1 == 3) by (bit_vector);
    assert(0usize | 2 == 2 && 1usize | 2 == 3 && 2usize | 2 == 2 && 3usize | 2 == 3) by (bit_vector);
    assert(0usize & 1 == 0 && 1usize & 1 == 1 && 2usize & 1 == 0 && 3usize & 1 == 1) by (bit_vector);
    assert(0usize & 2 == 0 && 1usize & 2 == 0 && 2usize & 2 == 2 && 3usize & 2 == 2) by (bit_vector);
}

/// How a path is to be opened.
#[derive(Clone, Copy, Debug, PartialEq, Eq, Structural)]
pub struct OpenFlags {
    pub bits: u8,
}

impl OpenFlags {
    #[verifier::allow_in_spec]
    pub fn empty() -> OpenFlags
        returns
            (OpenFlags { bits: 0 }),
    {
        OpenFlags { bits: 0 }
    }

    #[verifier::allow_in_spec]
    pub fn create() -> OpenFlags
        returns
            (OpenFlags { bits: 0b1 }),
    {
        OpenFlags { bits: 0b1 }
    }

    #[verifier::allow_in_spec]
    pub fn directory() -> OpenFlags
        returns
            (OpenFlags { bits: 0b10 }),
    {
        OpenFlags { bits: 0b10 }
    }

    #[verifier::allow_in_spec]
    pub fn exclusive() -> OpenFlags
        returns
            (OpenFlags { bits: 0b100 }),
    {
        OpenFlags { bits: 0b100 }
    }

    #[verifier::allow_in_spec]
    pub fn truncate() -> OpenFlags
        returns
            (OpenFlags { bits: 0b1000 }),
    {
        OpenFlags { bits: 0b1000 }
    }

    /// Every flag of `other` is in `self`.
    #[verifier::allow_in_spec]
    pub fn contains(self, other: OpenFlags) -> bool
        returns
            self.bits & other.bits == other.bits,
    {
        self.bits & other.bits == other.bits
    }

    /// The flags of `self` and those of `other`.
    #[verifier::allow_in_spec]
    pub fn union(self, other: OpenFlags) -> OpenFlags
        returns
            (OpenFlags { bits: self.bits | other.bits }),
    {
        OpenFlags { bits: self.bits | other.bits }
    }
}

/// What a descriptor was opened for.
#[derive(Clone, Copy, Debug, PartialEq, Eq, Structural)]
pub struct DescriptorFlags {
    pub bits: u8,
}

impl DescriptorFlags {
    #[verifier::allow_in_spec]
    pub fn empty() -> DescriptorFlags
        returns
            (DescriptorFlags { bits: 0 }),
    {
        DescriptorFlags { bits: 0 }
    }

    #[verifier::allow_in_spec]
    pub fn read() -> DescriptorFlags
        returns
            (DescriptorFlags { bits: 0b1 }),
    {
        DescriptorFlags { bits: 0b1 }
    }

    #[verifier::allow_in_spec]
    pub fn write() -> DescriptorFlags
        returns
            (DescriptorFlags { bits: 0b10 }),
    {
        DescriptorFlags { bits: 0b10 }
    }

    #[verifier::allow_in_spec]
    pub fn file_integrity_sync() -> DescriptorFlags
        returns
            (DescriptorFlags { bits: 0b100 }),
    {
        DescriptorFlags { bits: 0b100 }
    }

    #[verifier::allow_in_spec]
    pub fn data_integrity_sync() -> DescriptorFlags
        returns
            (DescriptorFlags { bits: 0b1000 }),
    {
        DescriptorFlags { bits: 0b1000 }
    }

    #[verifier::allow_in_spec]
    pub fn requested_write_sync() -> DescriptorFlags
        returns
            (DescriptorFlags { bits: 0b10000 }),
    {
        DescriptorFlags { bits: 0b10000 }
    }

    #[verifier::allow_in_spec]
    pub fn mutate_directory() -> DescriptorFlags
        returns
            (DescriptorFlags { bits: 0b100000 }),
    {
        DescriptorFlags { bits: 0b100000 }
    }

    /// Every flag of `other` is in `self`.
    #[verifier::allow_in_spec]
    pub fn contains(self, other: DescriptorFlags) -> bool
        returns
            self.bits & other.bits == other.bits,
    {
        self.bits & other.bits == other.bits
    }

    /// The flags of `self` and those of `other`.
    #[verifier::allow_in_spec]
    pub fn union(self, other: DescriptorFlags) -> DescriptorFlags
        returns
            (DescriptorFlags { bits: self.bits | other.bits }),
    {
        DescriptorFlags { bits: self.bits | other.bits }
    }

    /// `self` where `condition` holds, nothing otherwise.
    pub open spec fn when(self, condition: bool) -> DescriptorFlags {
        if condition {
            self
        } else {
            DescriptorFlags { bits: 0 }
        }
    }
}

/// Adding no flag changes nothing.
pub proof fn lemma_union_with_none(flags: DescriptorFlags)
    ensures
        flags.union(DescriptorFlags::empty()) == flags,
{
    let bits = flags.bits;
    assert(bits | 0 == bits) by (bit_vector);
}

/// How a path is to be followed.
#[derive(Clone, Copy, Debug, PartialEq, Eq, Structural)]
pub struct PathFlags {
    pub bits: u8,
}

impl PathFlags {
    #[verifier::allow_in_spec]
    pub fn empty() -> PathFlags
        returns
            (PathFlags { bits: 0 }),
    {
        PathFlags { bits: 0 }
    }

    #[verifier::allow_in_spec]
    pub fn symlink_follow() -> PathFlags
        returns
            (PathFlags { bits: 0b1 }),
    {
        PathFlags { bits: 0b1 }
    }

    /// Every flag of `other` is in `self`.
    #[verifier::allow_in_spec]
    pub fn contains(self, other: PathFlags) -> bool
        returns
            self.bits & other.bits == other.bits,
    {
        self.bits & other.bits == other.bits
    }
}

proof fn lemma_bits_small(x: u8, y: u8, z: u8)
    by (bit_vector)
    ensures
        (x | y) & x == x,
        (x | y) & y == y,
        (z & x == x && z & y == y) <==> z & (x | y) == (x | y),
        (x & y == y && y & x == x) ==> x == y,
        x & 0 == 0,
        0 & x == 0,
        1u8 & 2 == 0 && 1u8 & 4 == 0 && 1u8 & 8 == 0 && 1u8 & 16 == 0 && 1u8 & 32 == 0,
        2u8 & 1 == 0 && 2u8 & 4 == 0 && 2u8 & 8 == 0 && 2u8 & 16 == 0 && 2u8 & 32 == 0,
        4u8 & 1 == 0 && 4u8 & 2 == 0 && 4u8 & 8 == 0 && 4u8 & 16 == 0 && 4u8 & 32 == 0,
        8u8 & 1 == 0 && 8u8 & 2 == 0 && 8u8 & 4 == 0 && 8u8 & 16 == 0 && 8u8 & 32 == 0,
        16u8 & 1 == 0 && 16u8 & 2 == 0 && 16u8 & 4 == 0 && 16u8 & 8 == 0 && 16u8 & 32 == 0,
        32u8 & 1 == 0 && 32u8 & 2 == 0 && 32u8 & 4 == 0 && 32u8 & 8 == 0 && 32u8 & 16 == 0,
{
}

proof fn lemma_bits_wide(x: usize, y: usize, z: usize)
    by (bit_vector)
    ensures
        (x | y) & x == x,
        (x | y) & y == y,
        (z & x == x && z & y == y) <==> z & (x | y) == (x | y),
        (x & y == y && y & x == x) ==> x == y,
        x & 0 == 0,
        0 & x == 0,
        1usize & 2 == 0 && 2usize & 1 == 0,
{
}

/// Permissions for a file form sets: a set contains no more and no less than what
/// was put into it, two sets that contain each other are the same, and each
/// name stands for a flag of its own, which is the bit that the guest's
/// interface has for it.
pub proof fn law_file_permissions_form_sets(x: FilePerms, y: FilePerms, z: FilePerms)
    ensures
        x.union(y).contains(x),
        x.union(y).contains(y),
        z.contains(x.union(y)) <==> z.contains(x) && z.contains(y),
        x.contains(y) && y.contains(x) ==> x == y,
        x.contains(FilePerms::empty()),
        FilePerms::read().bits == 1,
        !FilePerms::empty().contains(FilePerms::read()),
        FilePerms::write().bits == 2,
        !FilePerms::empty().contains(FilePerms::write()),
        !FilePerms::read().contains(FilePerms::write()),
        !FilePerms::write().contains(FilePerms::read()),
{
    lemma_bits_wide(x.bits, y.bits, z.bits);
    lemma_bits_wide(FilePerms::read().bits, 0, 0);
    lemma_bits_wide(FilePerms::write().bits, 0, 0);
}

/// Permissions for a directory form sets: a set contains no more and no less than what
/// was put into it, two sets that contain each other are the same, and each
/// name stands for a flag of its own, which is the bit that the guest's
/// interface has for it.
pub proof fn law_directory_permissions_form_sets(x: DirPerms, y: DirPerms, z: DirPerms)
    ensures
        x.union(y).contains(x),
        x.union(y).contains(y),
        z.contains(x.union(y)) <==> z.contains(x) && z.contains(y),
        x.contains(y) && y.contains(x) ==> x == y,
        x.contains(DirPerms::empty()),
        DirPerms::read().bits == 1,
        !DirPerms::empty().contains(DirPerms::read()),
        DirPerms::mutate().bits == 2,
        !DirPerms::empty().contains(DirPerms::mutate()),
        !DirPerms::read().contains(DirPerms::mutate()),
        !DirPerms::mutate().contains(DirPerms::read()),
{
    lemma_bits_wide(x.bits, y.bits, z.bits);
    lemma_bits_wide(DirPerms::read().bits, 0, 0);
    lemma_bits_wide(DirPerms::mutate().bits, 0, 0);
}

/// Modes form sets: a set contains no more and no less than what
/// was put into it, two sets that contain each other are the same, and each
/// name stands for a flag of its own, which is the bit that the guest's
/// interface has for it.
pub proof fn law_open_modes_form_sets(x: OpenMode, y: OpenMode, z: OpenMode)
    ensures
        x.union(y).contains(x),
        x.union(y).contains(y),
        z.contains(x.union(y)) <==> z.contains(x) && z.contains(y),
        x.contains(y) && y.contains(x) ==> x == y,
        x.contains(OpenMode::empty()),
        OpenMode::read().bits == 1,
        !OpenMode::empty().contains(OpenMode::read()),
        OpenMode::write().bits == 2,
        !OpenMode::empty().contains(OpenMode::write()),
        !OpenMode::read().contains(OpenMode::write()),
        !OpenMode::write().contains(OpenMode::read()),
{
    lemma_bits_wide(x.bits, y.bits, z.bits);
    lemma_bits_wide(OpenMode::read().bits, 0, 0);
    lemma_bits_wide(OpenMode::write().bits, 0, 0);
}

/// Flags for opening form sets: a set contains no more and no less than what
/// was put into it, two sets that contain each other are the same, and each
/// name stands for a flag of its own, which is the bit that the guest's
/// interface has for it.
pub proof fn law_open_flags_form_sets(x: OpenFlags, y: OpenFlags, z: OpenFlags)
    ensures
        x.union(y).contains(x),
        x.union(y).contains(y),
        z.contains(x.union(y)) <==> z.contains(x) && z.contains(y),
        x.contains(y) && y.contains(x) ==> x == y,
        x.contains(OpenFlags::empty()),
        OpenFlags::create().bits == 1,
        !OpenFlags::empty().contains(OpenFlags::create()),
        OpenFlags::directory().bits == 2,
        !OpenFlags::empty().contains(OpenFlags::directory()),
        OpenFlags::exclusive().bits == 4,
        !OpenFlags::empty().contains(OpenFlags::exclusive()),
        OpenFlags::truncate().bits == 8,
        !OpenFlags::empty().contains(OpenFlags::truncate()),
        !OpenFlags::create().contains(OpenFlags::directory()),
        !OpenFlags::create().contains(OpenFlags::exclusive()),
        !OpenFlags::create().contains(OpenFlags::truncate()),
        !OpenFlags::directory().contains(OpenFlags::create()),
        !OpenFlags::directory().contains(OpenFlags::exclusive()),
        !OpenFlags::directory().contains(OpenFlags::truncate()),
        !OpenFlags::exclusive().contains(OpenFlags::create()),
        !OpenFlags::exclusive().contains(OpenFlags::directory()),
        !OpenFlags::exclusive().contains(OpenFlags::truncate()),
        !OpenFlags::truncate().contains(OpenFlags::create()),
        !OpenFlags::truncate().contains(OpenFlags::directory()),
        !OpenFlags::truncate().contains(OpenFlags::exclusive()),
{
    lemma_bits_small(x.bits, y.bits, z.bits);
    lemma_bits_small(OpenFlags::create().bits, 0, 0);
    lemma_bits_small(OpenFlags::directory().bits, 0, 0);
    lemma_bits_small(OpenFlags::exclusive().bits, 0, 0);
    lemma_bits_small(OpenFlags::truncate().bits, 0, 0);
}

/// Flags of descriptors form sets: a set contains no more and no less than what
/// was put into it, two sets that contain each other are the same, and each
/// name stands for a flag of its own, which is the bit that the guest's
/// interface has for it.
pub proof fn law_descriptor_flags_form_sets(x: DescriptorFlags, y: DescriptorFlags, z: DescriptorFlags)
    ensures
        x.union(y).contains(x),
        x.union(y).contains(y),
        z.contains(x.union(y)) <==> z.contains(x) && z.contains(y),
        x.contains(y) && y.contains(x) ==> x == y,
        x.contains(DescriptorFlags::empty()),
        DescriptorFlags::read().bits == 1,
        !DescriptorFlags::empty().contains(DescriptorFlags::read()),
        DescriptorFlags::write().bits == 2,
        !DescriptorFlags::empty().contains(DescriptorFlags::write()),
        DescriptorFlags::file_integrity_sync().bits == 4,
        !DescriptorFlags::empty().contains(DescriptorFlags::file_integrity_sync()),
        DescriptorFlags::data_integrity_sync().bits == 8,
        !DescriptorFlags::empty().contains(DescriptorFlags::data_integrity_sync()),
        DescriptorFlags::requested_write_sync().bits == 16,
        !DescriptorFlags::empty().contains(DescriptorFlags::requested_write_sync()),
        DescriptorFlags::mutate_directory().bits == 32,
        !DescriptorFlags::empty().contains(DescriptorFlags::mutate_directory()),
        !DescriptorFlags::read().contains(DescriptorFlags::write()),
        !DescriptorFlags::read().contains(DescriptorFlags::file_integrity_sync()),
        !DescriptorFlags::read().contains(DescriptorFlags::data_integrity_sync()),
        !DescriptorFlags::read().contains(DescriptorFlags::requested_write_sync()),
        !DescriptorFlags::read().contains(DescriptorFlags::mutate_directory()),
        !DescriptorFlags::write().contains(DescriptorFlags::read()),
        !DescriptorFlags::write().contains(DescriptorFlags::file_integrity_sync()),
        !DescriptorFlags::write().contains(DescriptorFlags::data_integrity_sync()),
        !DescriptorFlags::write().contains(DescriptorFlags::requested_write_sync()),
        !DescriptorFlags::write().contains(DescriptorFlags::mutate_directory()),
        !DescriptorFlags::file_integrity_sync().contains(DescriptorFlags::read()),
        !DescriptorFlags::file_integrity_sync().contains(DescriptorFlags::write()),
        !DescriptorFlags::file_integrity_sync().contains(DescriptorFlags::data_integrity_sync()),
        !DescriptorFlags::file_integrity_sync().contains(DescriptorFlags::requested_write_sync()),
        !DescriptorFlags::file_integrity_sync().contains(DescriptorFlags::mutate_directory()),
        !DescriptorFlags::data_integrity_sync().contains(DescriptorFlags::read()),
        !DescriptorFlags::data_integrity_sync().contains(DescriptorFlags::write()),
        !DescriptorFlags::data_integrity_sync().contains(DescriptorFlags::file_integrity_sync()),
        !DescriptorFlags::data_integrity_sync().contains(DescriptorFlags::requested_write_sync()),
        !DescriptorFlags::data_integrity_sync().contains(DescriptorFlags::mutate_directory()),
        !DescriptorFlags::requested_write_sync().contains(DescriptorFlags::read()),
        !DescriptorFlags::requested_write_sync().contains(DescriptorFlags::write()),
        !DescriptorFlags::requested_write_sync().contains(DescriptorFlags::file_integrity_sync()),
        !DescriptorFlags::requested_write_sync().contains(DescriptorFlags::data_integrity_sync()),
        !DescriptorFlags::requested_write_sync().contains(DescriptorFlags::mutate_directory()),
        !DescriptorFlags::mutate_directory().contains(DescriptorFlags::read()),
        !DescriptorFlags::mutate_directory().contains(DescriptorFlags::write()),
        !DescriptorFlags::mutate_directory().contains(DescriptorFlags::file_integrity_sync()),
        !DescriptorFlags::mutate_directory().contains(DescriptorFlags::data_integrity_sync()),
        !DescriptorFlags::mutate_directory().contains(DescriptorFlags::requested_write_sync()),
{
    lemma_bits_small(x.bits, y.bits, z.bits);
    lemma_bits_small(DescriptorFlags::read().bits, 0, 0);
    lemma_bits_small(DescriptorFlags::write().bits, 0, 0);
    lemma_bits_small(DescriptorFlags::file_integrity_sync().bits, 0, 0);
    lemma_bits_small(DescriptorFlags::data_integrity_sync().bits, 0, 0);
    lemma_bits_small(DescriptorFlags::requested_write_sync().bits, 0, 0);
    lemma_bits_small(DescriptorFlags::mutate_directory().bits, 0, 0);
}

/// Flags for paths form sets: a set contains no more and no less than what
/// was put into it, two sets that contain each other are the same, and each
/// name stands for a flag of its own, which is the bit that the guest's
/// interface has for it.
pub proof fn law_path_flags_form_sets(x: PathFlags, y: PathFlags, z: PathFlags)
    ensures
        x.contains(y) && y.contains(x) ==> x == y,
        x.contains(PathFlags::empty()),
        PathFlags::symlink_follow().bits == 1,
        !PathFlags::empty().contains(PathFlags::symlink_follow()),
{
    lemma_bits_small(x.bits, y.bits, z.bits);
    lemma_bits_small(PathFlags::symlink_follow().bits, 0, 0);
}

} // verus!

//! Disk back-end: the registers of the sector-addressed disk image and the
//! error code that every operation leaves behind.
//!
//! The image file itself stays with the host. Each operation that touches the
//! file comes as a pair: a query that says what the host has to do, and the
//! operation proper, which takes what the host found and updates the registers.

use vstd::prelude::*;

verus! {

/// Number of tracks of a disk image.
pub const TRACKS: u16 = 512;

/// Number of sectors of a track.
pub const SECTORS: u8 = 32;

/// Number of bytes of a sector.
pub const SECTOR_SIZE: u16 = 512;

/// Number of bytes of a whole disk image.
pub const DISK_SIZE: u64 = 8_388_608;

/// Highest disk set that names an image file.
pub const MAX_DISK_SET: u8 = 9;

/// Highest disk number that names an image file.
pub const MAX_DISK_NUMBER: u8 = 99;

/// Outcome of the last disk operation, as the guest reads it back.
#[derive(Clone, Copy, PartialEq, Eq, Debug, Structural)]
pub enum FsError {
    NoError,
    DiskError,
    NoFile,
    NotOpened,
    IllegalDiskNumber,
    IllegalTrackNumber,
    IllegalSectorNumber,
}

impl FsError {
    /// The byte that stands for this outcome on the wire.
    pub open spec fn code(self) -> u8 {
        match self {
            FsError::NoError => 0,
            FsError::DiskError => 1,
            FsError::NoFile => 3,
            FsError::NotOpened => 4,
            FsError::IllegalDiskNumber => 16,
            FsError::IllegalTrackNumber => 17,
            FsError::IllegalSectorNumber => 18,
        }
    }

    /// The byte that stands for this outcome on the wire.
    pub fn to_code(self) -> (c: u8)
        ensures
            c == self.code(),
    {
        match self {
            FsError::NoError => 0,
            FsError::DiskError => 1,
            FsError::NoFile => 3,
            FsError::NotOpened => 4,
            FsError::IllegalDiskNumber => 16,
            FsError::IllegalTrackNumber => 17,
            FsError::IllegalSectorNumber => 18,
        }
    }
}

/// What the host found when it tried to open a disk image.
#[derive(Clone, Copy, PartialEq, Eq, Debug, Structural)]
pub enum OpenOutcome {
    /// The image is open for reading and writing.
    Opened,
    /// There is no such file, and no image is open.
    NotFound,
    /// Opening failed for another reason, and no image is open.
    Failed,
}

/// Whether a disk set and a disk number name an image file.
pub open spec fn names_disk(disk_set: u8, disk_number: u8) -> bool {
    disk_set <= MAX_DISK_SET && disk_number <= MAX_DISK_NUMBER
}

/// Byte offset of a sector within a disk image.
pub open spec fn sector_offset(track: u16, sector: u8) -> int {
    (track * 32 + sector) * 512
}

/// The registers of the disk back-end as plain values.
pub struct DiskState {
    /// Whether the host holds an open image.
    pub opened: bool,
    pub track: u16,
    pub sector: u8,
    pub last_error: FsError,
}

impl DiskState {
    /// The selected track and sector lie on the disk.
    pub open spec fn wf(self) -> bool {
        self.track < TRACKS && self.sector < SECTORS
    }

    /// Byte offset of the selected sector.
    pub open spec fn offset(self) -> int {
        sector_offset(self.track, self.sector)
    }

    /// The registers before any operation: no image, the first sector, no
    /// error.
    pub open spec fn initial() -> DiskState {
        DiskState { opened: false, track: 0, sector: 0, last_error: FsError::NoError }
    }

    /// The registers after a disk was selected, `outcome` telling what opening
    /// its image came to. The image that was open before is given up first,
    /// so that an image is open afterwards only if the new one was opened. A
    /// disk set above 9 or a disk number above 99 is refused, whatever the
    /// outcome says.
    pub open spec fn select_disk(
        self,
        disk_set: u8,
        disk_number: u8,
        outcome: OpenOutcome,
    ) -> DiskState {
        if !names_disk(disk_set, disk_number) {
            DiskState { opened: false, last_error: FsError::IllegalDiskNumber, ..self }
        } else {
            match outcome {
                OpenOutcome::Opened => DiskState {
                    opened: true,
                    last_error: FsError::NoError,
                    ..self
                },
                OpenOutcome::NotFound => DiskState {
                    opened: false,
                    last_error: FsError::NoFile,
                    ..self
                },
                OpenOutcome::Failed => DiskState {
                    opened: false,
                    last_error: FsError::DiskError,
                    ..self
                },
            }
        }
    }

    /// The registers after a track was selected: stored if it is below 512,
    /// refused otherwise.
    pub open spec fn select_track(self, track: u16) -> DiskState {
        if track < TRACKS {
            DiskState { track, last_error: FsError::NoError, ..self }
        } else {
            DiskState { last_error: FsError::IllegalTrackNumber, ..self }
        }
    }

    /// The registers after a sector was selected: stored if it is below 32,
    /// refused otherwise.
    pub open spec fn select_sector(self, sector: u8) -> DiskState {
        if sector < SECTORS {
            DiskState { sector, last_error: FsError::NoError, ..self }
        } else {
            DiskState { last_error: FsError::IllegalSectorNumber, ..self }
        }
    }

    /// Where the host has to position the image before a sector transfer,
    /// if it holds one.
    pub open spec fn seek_target(self) -> Option<u64> {
        if self.opened {
            Some(self.offset() as u64)
        } else {
            None
        }
    }

    /// The registers after the image was positioned at the selected sector,
    /// `positioned` telling whether the host's seek succeeded.
    pub open spec fn seek(self, positioned: bool) -> DiskState {
        if !self.opened {
            DiskState { last_error: FsError::NotOpened, ..self }
        } else if positioned {
            DiskState { last_error: FsError::NoError, ..self }
        } else {
            DiskState { last_error: FsError::DiskError, ..self }
        }
    }

    /// Whether a byte transfer reaches the image at all: nothing has failed
    /// since the last successful operation and an image is open.
    pub open spec fn transfers(self) -> bool {
        self.last_error == FsError::NoError && self.opened
    }

    /// The registers after a byte was read, and the byte for the guest. `byte`
    /// is what the host read, `None` when its read failed. After an error
    /// nothing is read and the guest gets 0.
    pub open spec fn read(self, byte: Option<u8>) -> (DiskState, u8) {
        if self.last_error != FsError::NoError {
            (self, 0)
        } else if !self.opened {
            (DiskState { last_error: FsError::NotOpened, ..self }, 0)
        } else {
            match byte {
                Some(b) => (self, b),
                None => (DiskState { last_error: FsError::DiskError, ..self }, 0),
            }
        }
    }

    /// The registers after a byte was written, `written` telling whether the
    /// host's write succeeded. After an error nothing is written.
    pub open spec fn write(self, written: bool) -> DiskState {
        if self.last_error != FsError::NoError {
            self
        } else if !self.opened {
            DiskState { last_error: FsError::NotOpened, ..self }
        } else if written {
            self
        } else {
            DiskState { last_error: FsError::DiskError, ..self }
        }
    }
}

/// The disk back-end's registers.
#[derive(Clone, Copy, Debug)]
pub struct FileSystem {
    opened: bool,
    track: u16,
    sector: u8,
    last_error: FsError,
}

impl View for FileSystem {
    type V = DiskState;

    closed spec fn view(&self) -> DiskState {
        DiskState {
            opened: self.opened,
            track: self.track,
            sector: self.sector,
            last_error: self.last_error,
        }
    }
}

impl FileSystem {
    #[verifier::type_invariant]
    spec fn inv(self) -> bool {
        self.track < TRACKS && self.sector < SECTORS
    }

    /// Whether a disk set and a disk number name an image file.
    pub fn names_disk(disk_set: u8, disk_number: u8) -> (yes: bool)
        ensures
            yes == names_disk(disk_set, disk_number),
    {
        disk_set <= MAX_DISK_SET && disk_number <= MAX_DISK_NUMBER
    }

    /// The disk back-end before any operation.
    pub fn new() -> (fs: FileSystem)
        ensures
            fs@ == DiskState::initial(),
            fs@.wf(),
    {
        FileSystem { opened: false, track: 0, sector: 0, last_error: FsError::NoError }
    }

    /// The code of the last operation's outcome.
    pub fn get_last_error(&self) -> (code: u8)
        ensures
            code == self@.last_error.code(),
            self@.wf(),
    {
        proof {
            use_type_invariant(self);
        }
        self.last_error.to_code()
    }

    /// Stores the outcome of opening the image `sd/DS{set}N{number}.DSK`.
    ///
    /// The host gives up the image that it held before it opens the new one,
    /// so an image is open afterwards only if `outcome` says so. A disk set
    /// or number that names no image is refused without looking at `outcome`;
    /// the host then only gives up its image, and it is asked to open a file
    /// only when [`disk_image_path`] returns a path.
    pub fn select_disk(&mut self, disk_set: u8, disk_number: u8, outcome: OpenOutcome)
        ensures
            final(self)@ == old(self)@.select_disk(disk_set, disk_number, outcome),
            final(self)@.wf(),
    {
        proof {
            use_type_invariant(&*self);
        }
        self.opened = false;
        if !FileSystem::names_disk(disk_set, disk_number) {
            self.last_error = FsError::IllegalDiskNumber;
        } else {
            match outcome {
                OpenOutcome::Opened => {
                    self.opened = true;
                    self.last_error = FsError::NoError;
                },
                OpenOutcome::NotFound => {
                    self.last_error = FsError::NoFile;
                },
                OpenOutcome::Failed => {
                    self.last_error = FsError::DiskError;
                },
            }
        }
    }

    /// Selects a track below 512; any other is refused with
    /// [`FsError::IllegalTrackNumber`].
    pub fn select_track(&mut self, track: u16)
        ensures
            final(self)@ == old(self)@.select_track(track),
            final(self)@.wf(),
    {
        proof {
            use_type_invariant(&*self);
        }
        if track < TRACKS {
            self.track = track;
            self.last_error = FsError::NoError;
        } else {
            self.last_error = FsError::IllegalTrackNumber;
        }
    }

    /// Selects a sector below 32; any other is refused with
    /// [`FsError::IllegalSectorNumber`].
    pub fn select_sector(&mut self, sector: u8)
        ensures
            final(self)@ == old(self)@.select_sector(sector),
            final(self)@.wf(),
    {
        proof {
            use_type_invariant(&*self);
        }
        if sector < SECTORS {
            self.sector = sector;
            self.last_error = FsError::NoError;
        } else {
            self.last_error = FsError::IllegalSectorNumber;
        }
    }

    /// Byte offset of the selected sector within the image.
    pub fn sector_pos(&self) -> (pos: u64)
        ensures
            pos == self@.offset(),
            pos + SECTOR_SIZE <= DISK_SIZE,
            self@.wf(),
    {
        proof {
            use_type_invariant(self);
        }
        let track: u64 = self.track as u64;
        let sector: u64 = self.sector as u64;
        (track * 32 + sector) * 512
    }

    /// Where the host has to position the image for [`FileSystem::seek`];
    /// `None` when no image is open, and the host then does nothing.
    pub fn seek_target(&self) -> (target: Option<u64>)
        ensures
            target == self@.seek_target(),
            self@.wf(),
    {
        if self.opened {
            Some(self.sector_pos())
        } else {
            proof {
                use_type_invariant(self);
            }
            None
        }
    }

    /// Stores the outcome of positioning the image at the selected sector.
    /// `positioned` tells whether the host's seek succeeded.
    pub fn seek(&mut self, positioned: bool)
        ensures
            final(self)@ == old(self)@.seek(positioned),
            final(self)@.wf(),
    {
        proof {
            use_type_invariant(&*self);
        }
        if !self.opened {
            self.last_error = FsError::NotOpened;
        } else if positioned {
            self.last_error = FsError::NoError;
        } else {
            self.last_error = FsError::DiskError;
        }
    }

    /// Whether a byte transfer reaches the image. When it does not, the host
    /// does nothing for [`FileSystem::read`] and [`FileSystem::write`].
    pub fn transfers(&self) -> (yes: bool)
        ensures
            yes == self@.transfers(),
            self@.wf(),
    {
        proof {
            use_type_invariant(self);
        }
        self.last_error == FsError::NoError && self.opened
    }

    /// Takes the byte that the host read at the image's cursor, `None` when
    /// its read failed, and returns the byte for the guest.
    pub fn read(&mut self, byte: Option<u8>) -> (value: u8)
        ensures
            (final(self)@, value) == old(self)@.read(byte),
            final(self)@.wf(),
    {
        proof {
            use_type_invariant(&*self);
        }
        if self.last_error != FsError::NoError {
            return 0;
        }
        if !self.opened {
            self.last_error = FsError::NotOpened;
            return 0;
        }
        match byte {
            Some(b) => b,
            None => {
                self.last_error = FsError::DiskError;
                0
            },
        }
    }

    /// Stores the outcome of writing one byte at the image's cursor.
    /// `written` tells whether the host's write succeeded.
    pub fn write(&mut self, written: bool)
        ensures
            final(self)@ == old(self)@.write(written),
            final(self)@.wf(),
    {
        proof {
            use_type_invariant(&*self);
        }
        if self.last_error != FsError::NoError {
            return ;
        }
        if !self.opened {
            self.last_error = FsError::NotOpened;
        } else if !written {
            self.last_error = FsError::DiskError;
        }
    }

    /// Whether the host holds an open image.
    pub fn is_opened(&self) -> (opened: bool)
        ensures
            opened == self@.opened,
    {
        self.opened
    }

    /// The selected track.
    pub fn track(&self) -> (track: u16)
        ensures
            track == self@.track,
            track < TRACKS,
    {
        proof {
            use_type_invariant(self);
        }
        self.track
    }

    /// The selected sector.
    pub fn sector(&self) -> (sector: u8)
        ensures
            sector == self@.sector,
            sector < SECTORS,
    {
        proof {
            use_type_invariant(self);
        }
        self.sector
    }
}

/// One decimal digit as text.
pub open spec fn decimal_digit(d: u8) -> Seq<char>
    recommends
        d <= 9,
{
    match d {
        0 => "0"@,
        1 => "1"@,
        2 => "2"@,
        3 => "3"@,
        4 => "4"@,
        5 => "5"@,
        6 => "6"@,
        7 => "7"@,
        8 => "8"@,
        _ => "9"@,
    }
}

/// Path of the image file of a disk: the set as one digit, the number as two.
pub open spec fn disk_image_name(disk_set: u8, disk_number: u8) -> Seq<char>
    recommends
        disk_set <= MAX_DISK_SET,
        disk_number <= MAX_DISK_NUMBER,
{
    "sd/DS"@ + decimal_digit(disk_set) + "N"@ + decimal_digit(disk_number / 10) + decimal_digit(
        disk_number % 10,
    ) + ".DSK"@
}

fn digit_text(d: u8) -> (text: &'static str)
    requires
        d <= 9,
    ensures
        text@ == decimal_digit(d),
{
    match d {
        0 => "0",
        1 => "1",
        2 => "2",
        3 => "3",
        4 => "4",
        5 => "5",
        6 => "6",
        7 => "7",
        8 => "8",
        _ => "9",
    }
}

/// Path of the image file that [`FileSystem::select_disk`] stands for, or
/// `None` when the disk set or number names no image.
pub fn disk_image_path(disk_set: u8, disk_number: u8) -> (path: Option<String>)
    ensures
        path is Some <==> names_disk(disk_set, disk_number),
        path matches Some(p) ==> p@ == disk_image_name(disk_set, disk_number),
{
    if !FileSystem::names_disk(disk_set, disk_number) {
        return None;
    }
    let mut path = String::from_str("sd/DS");
    path.append(digit_text(disk_set));
    path.append("N");
    path.append(digit_text(disk_number / 10));
    path.append(digit_text(disk_number % 10));
    path.append(".DSK");
    Some(path)
}

/// The offset of every sector on the disk, with the sector's 512 bytes, lies
/// within the image.
pub proof fn sector_offset_in_range(track: u16, sector: u8)
    requires
        track < TRACKS,
        sector < SECTORS,
    ensures
        sector_offset(track, sector) == (track * 32 + sector) * 512,
        0 <= sector_offset(track, sector) < DISK_SIZE,
        sector_offset(track, sector) + SECTOR_SIZE <= DISK_SIZE,
{
}

/// A disk selection that fails leaves no image open: whatever was open
/// before, a seek then ends as "not opened", no byte transfer reaches an
/// image, and a read returns 0. Only a selection that opens its image leaves
/// one open.
pub proof fn failed_selection_closes(
    disk: DiskState,
    disk_set: u8,
    disk_number: u8,
    outcome: OpenOutcome,
    positioned: bool,
    byte: Option<u8>,
)
    ensures
        ({
            let after = disk.select_disk(disk_set, disk_number, outcome);
            &&& after.opened <==> names_disk(disk_set, disk_number) && outcome
                == OpenOutcome::Opened
            &&& after.opened <==> after.last_error == FsError::NoError
            &&& !after.opened ==> {
                &&& after.seek_target() is None
                &&& !after.transfers()
                &&& after.seek(positioned).last_error == FsError::NotOpened
                &&& after.seek(positioned).read(byte).1 == 0
                &&& !after.seek(positioned).write(positioned).opened
            }
        }),
{
}

/// Two sectors of a disk do not overlap.
pub proof fn sector_offsets_disjoint(t1: u16, s1: u8, t2: u16, s2: u8)
    requires
        t1 < TRACKS,
        s1 < SECTORS,
        t2 < TRACKS,
        s2 < SECTORS,
        t1 != t2 || s1 != s2,
    ensures
        sector_offset(t1, s1) + SECTOR_SIZE <= sector_offset(t2, s2) || sector_offset(t2, s2)
            + SECTOR_SIZE <= sector_offset(t1, s1),
{
}

} // verus!

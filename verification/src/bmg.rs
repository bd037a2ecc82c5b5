//! The BMG container: an 8-byte magic that selects the byte order, a fixed
//! file header, and a run of tagged, length-delimited sections aligned to
//! 32-byte boundaries.
use crate::binary::BmgError;
use crate::binary::Endian;
use crate::binary::read_u16;
use crate::binary::read_u32;
use crate::binary::u16_bytes;
use crate::binary::u16_of;
use crate::binary::u32_bytes;
use crate::binary::u32_of;
use vstd::prelude::*;

verus! {

/// The magic that marks a big-endian file: the bytes of `MESGbmg1`.
pub open spec fn be_magic() -> Seq<u8> {
    seq![0x4Du8, 0x45u8, 0x53u8, 0x47u8, 0x62u8, 0x6Du8, 0x67u8, 0x31u8]
}

/// The byte-reversal of `be_magic`, marking a little-endian file.
pub open spec fn le_magic() -> Seq<u8> {
    seq![0x47u8, 0x53u8, 0x45u8, 0x4Du8, 0x31u8, 0x67u8, 0x6Du8, 0x62u8]
}

/// The byte order a magic selects: the known magic for each order, and
/// little-endian as the default for anything else (never a failure).
pub open spec fn endian_of_magic(magic: Seq<u8>) -> Endian {
    if magic == be_magic() {
        Endian::Big
    } else if magic == le_magic() {
        Endian::Little
    } else {
        Endian::Little
    }
}

/// The fixed file header: magic, flow-section offset, section count and
/// reserved padding. Immutable once read; its magic fixes the byte order of
/// every later multi-byte field.
#[derive(Debug, Clone)]
pub struct FileHeader {
    pub magic: Vec<u8>,
    pub flw1offset: u32,
    pub sectioncount: u32,
    pub padding: Vec<u8>,
}

pub struct FileHeaderView {
    pub magic: Seq<u8>,
    pub flw1offset: u32,
    pub sectioncount: u32,
    pub padding: Seq<u8>,
}

impl View for FileHeader {
    type V = FileHeaderView;

    open spec fn view(&self) -> FileHeaderView {
        FileHeaderView {
            magic: self.magic@,
            flw1offset: self.flw1offset,
            sectioncount: self.sectioncount,
            padding: self.padding@,
        }
    }
}

/// What decoding the 32-byte file header from `data` yields: the header and
/// the detected byte order, or the container error on a short buffer.
pub open spec fn spec_read_file_header(data: Seq<u8>) -> Result<(FileHeaderView, Endian), BmgError> {
    if data.len() < 32 {
        Err(BmgError::MalformedContainer)
    } else {
        let magic = data.subrange(0, 8);
        let e = endian_of_magic(magic);
        Ok(
            (
                FileHeaderView {
                    magic,
                    flw1offset: u32_of(e, data[8], data[9], data[10], data[11]),
                    sectioncount: u32_of(e, data[12], data[13], data[14], data[15]),
                    padding: data.subrange(16, 32),
                },
                e,
            ),
        )
    }
}

/// For every buffer that holds the 32-byte header, header decoding succeeds
/// whatever the magic: the known magic selects big-endian, its byte-reversal
/// selects little-endian, and any other magic falls back to the default
/// order rather than failing; every multi-byte header field is then read in
/// the selected order.
pub proof fn lemma_magic_selects_order(data: Seq<u8>)
    requires
        data.len() >= 32,
    ensures
        spec_read_file_header(data) is Ok,
        ({
            let (h, e) = spec_read_file_header(data)->Ok_0;
            &&& e == endian_of_magic(data.subrange(0, 8))
            &&& (data.subrange(0, 8) == be_magic() ==> e == Endian::Big)
            &&& (data.subrange(0, 8) == le_magic() ==> e == Endian::Little)
            &&& (data.subrange(0, 8) != be_magic() && data.subrange(0, 8) != le_magic() ==> e
                == Endian::Little)
            &&& h.flw1offset == u32_of(e, data[8], data[9], data[10], data[11])
            &&& h.sectioncount == u32_of(e, data[12], data[13], data[14], data[15])
        }),
{
}

/// Copies `data[start..end]` into a fresh buffer.
pub fn copy_bytes(data: &[u8], start: usize, end: usize) -> (r: Vec<u8>)
    requires
        start <= end <= data@.len(),
    ensures
        r@ == data@.subrange(start as int, end as int),
{
    let mut v: Vec<u8> = Vec::new();
    let mut i: usize = start;
    while i < end
        invariant
            start <= i <= end <= data@.len(),
            v@ == data@.subrange(start as int, i as int),
        decreases end - i,
    {
        v.push(data[i]);
        i = i + 1;
        proof {
            assert(v@ =~= data@.subrange(start as int, i as int));
        }
    }
    v
}

impl FileHeader {
    /// Detects the byte order and reads the file header; a buffer shorter
    /// than the 32-byte header is a malformed container. An unknown magic is
    /// not an error: the default order is used.
    pub fn read(data: &[u8]) -> (r: Result<(FileHeader, Endian), BmgError>)
        ensures
            match r {
                Ok((h, e)) => spec_read_file_header(data@) == Ok::<_, BmgError>((h@, e)),
                Err(er) => spec_read_file_header(data@) == Err::<(FileHeaderView, Endian), _>(er),
            },
    {
        if data.len() < 32 {
            return Err(BmgError::MalformedContainer);
        }
        let magic = copy_bytes(data, 0, 8);
        let e = if data[0] == 0x4D && data[1] == 0x45 && data[2] == 0x53 && data[3] == 0x47
            && data[4] == 0x62 && data[5] == 0x6D && data[6] == 0x67 && data[7] == 0x31 {
            proof {
                assert(data@.subrange(0, 8) =~= be_magic());
            }
            Endian::Big
        } else {
            proof {
                assert(data@.subrange(0, 8) != be_magic());
            }
            Endian::Little
        };
        let flw1offset = read_u32(data, 8, e);
        let sectioncount = read_u32(data, 12, e);
        let padding = copy_bytes(data, 16, 32);
        Ok((FileHeader { magic, flw1offset, sectioncount, padding }, e))
    }

    /// The byte order this header's magic selects.
    pub fn endian(&self) -> (e: Endian)
        ensures
            e == endian_of_magic(self@.magic),
    {
        if self.magic.len() == 8 {
            let m = &self.magic;
            if m[0] == 0x4D && m[1] == 0x45 && m[2] == 0x53 && m[3] == 0x47 && m[4] == 0x62
                && m[5] == 0x6D && m[6] == 0x67 && m[7] == 0x31 {
                proof {
                    assert(self@.magic =~= be_magic());
                }
                return Endian::Big;
            }
        }
        proof {
            assert(self@.magic != be_magic());
        }
        Endian::Little
    }
}

/// The four known section tags.
#[derive(Debug, Clone, Copy, PartialEq, Eq, Structural)]
pub enum SectionMagic {
    INF1,
    DAT1,
    FLW1,
    FLI1,
}

/// The section tag the four bytes spell, if any; the tag bytes are stored in
/// a fixed order regardless of the file's detected order.
pub open spec fn spec_section_magic(b0: u8, b1: u8, b2: u8, b3: u8) -> Option<SectionMagic> {
    if b0 == 0x49 && b1 == 0x4E && b2 == 0x46 && b3 == 0x31 {
        Some(SectionMagic::INF1)
    } else if b0 == 0x44 && b1 == 0x41 && b2 == 0x54 && b3 == 0x31 {
        Some(SectionMagic::DAT1)
    } else if b0 == 0x46 && b1 == 0x4C && b2 == 0x57 && b3 == 0x31 {
        Some(SectionMagic::FLW1)
    } else if b0 == 0x46 && b1 == 0x4C && b2 == 0x49 && b3 == 0x31 {
        Some(SectionMagic::FLI1)
    } else {
        None
    }
}

/// A section header: a tag in fixed byte order and a size in the detected
/// order, measured from the start of the section header itself.
#[derive(Debug, Clone, Copy)]
pub struct SectionHeader {
    pub magic: SectionMagic,
    pub size: u32,
}

/// What decoding a section header at `pos` yields: the header and the
/// position just after it, or the container error on a short buffer or an
/// unknown tag.
pub open spec fn spec_read_section_header(data: Seq<u8>, pos: int, e: Endian) -> Result<
    (SectionHeader, int),
    BmgError,
> {
    if pos + 8 > data.len() {
        Err(BmgError::MalformedContainer)
    } else {
        match spec_section_magic(data[pos], data[pos + 1], data[pos + 2], data[pos + 3]) {
            None => Err(BmgError::MalformedContainer),
            Some(m) => Ok(
                (
                    SectionHeader {
                        magic: m,
                        size: spec_section_size(data, pos, e),
                    },
                    pos + 8,
                ),
            ),
        }
    }
}

/// The size field of the section header at `pos`.
pub open spec fn spec_section_size(data: Seq<u8>, pos: int, e: Endian) -> u32 {
    u32_of(e, data[pos + 4], data[pos + 5], data[pos + 6], data[pos + 7])
}

impl SectionHeader {
    /// Reads the tag (fixed byte order) and the size (detected order);
    /// an unknown tag is a malformed container.
    pub fn read(data: &[u8], pos: usize, e: Endian) -> (r: Result<(SectionHeader, usize), BmgError>)
        ensures
            match r {
                Ok((h, next)) => spec_read_section_header(data@, pos as int, e) == Ok::<
                    _,
                    BmgError,
                >((h, next as int)),
                Err(er) => spec_read_section_header(data@, pos as int, e) == Err::<
                    (SectionHeader, int),
                    _,
                >(er),
            },
    {
        if pos > data.len() || data.len() - pos < 8 {
            return Err(BmgError::MalformedContainer);
        }
        let b0 = data[pos];
        let b1 = data[pos + 1];
        let b2 = data[pos + 2];
        let b3 = data[pos + 3];
        let magic = if b0 == 0x49 && b1 == 0x4E && b2 == 0x46 && b3 == 0x31 {
            SectionMagic::INF1
        } else if b0 == 0x44 && b1 == 0x41 && b2 == 0x54 && b3 == 0x31 {
            SectionMagic::DAT1
        } else if b0 == 0x46 && b1 == 0x4C && b2 == 0x57 && b3 == 0x31 {
            SectionMagic::FLW1
        } else if b0 == 0x46 && b1 == 0x4C && b2 == 0x49 && b3 == 0x31 {
            SectionMagic::FLI1
        } else {
            return Err(BmgError::MalformedContainer);
        };
        let size = read_u32(data, pos + 4, e);
        Ok((SectionHeader { magic, size }, pos + 8))
    }
}

/// The end of a section that begins at `pos` and declares `size` bytes,
/// rounded up to the next 32-byte boundary.
pub open spec fn spec_padded_end(pos: int, size: u32) -> int {
    let end = pos + size;
    end + ((32 - end % 32) % 32)
}

/// How a message is delivered. An out-of-range byte decodes to the default
/// rather than failing.
#[derive(Debug, Clone, Copy, PartialEq, Eq, Structural)]
pub enum MessageType {
    Talk,
    Shout,
    Auto,
    Crash,
    Empty,
}

/// The message type a byte decodes to.
pub open spec fn spec_message_type(b: u8) -> MessageType {
    if b == 1 {
        MessageType::Shout
    } else if b == 2 {
        MessageType::Auto
    } else if b == 3 {
        MessageType::Crash
    } else if b == 4 {
        MessageType::Empty
    } else {
        MessageType::Talk
    }
}

impl MessageType {
    /// Decodes a message-type byte; anything out of range degrades to Talk.
    pub fn from_byte(b: u8) -> (r: MessageType)
        ensures
            r == spec_message_type(b),
    {
        match b {
            1 => MessageType::Shout,
            2 => MessageType::Auto,
            3 => MessageType::Crash,
            4 => MessageType::Empty,
            _ => MessageType::Talk,
        }
    }
}

/// The message box drawn around a message; the stored byte is 0 for Normal
/// and 4 for SignBoard, and any other byte decodes to Normal, never an error.
#[derive(Debug, Clone, Copy, PartialEq, Eq, Structural)]
pub enum MessageBoxType {
    Normal,
    SignBoard,
}

/// The message-box type a byte decodes to.
pub open spec fn spec_message_box_type(b: u8) -> MessageBoxType {
    if b == 4 {
        MessageBoxType::SignBoard
    } else {
        MessageBoxType::Normal
    }
}

impl MessageBoxType {
    /// Decodes a message-box-type byte: 0 is Normal, 4 is SignBoard, and any
    /// other value decodes to Normal rather than failing.
    pub fn from_byte(b: u8) -> (r: MessageBoxType)
        ensures
            r == spec_message_box_type(b),
    {
        match b {
            4 => MessageBoxType::SignBoard,
            _ => MessageBoxType::Normal,
        }
    }

    /// The byte a message-box type is stored as.
    pub fn to_byte(&self) -> (r: u8)
        ensures
            r == spec_message_box_byte(*self),
    {
        match self {
            MessageBoxType::Normal => 0,
            MessageBoxType::SignBoard => 4,
        }
    }
}

/// The byte a message-box type is stored as.
pub open spec fn spec_message_box_byte(t: MessageBoxType) -> u8 {
    match t {
        MessageBoxType::Normal => 0,
        MessageBoxType::SignBoard => 4,
    }
}

/// Decoding a message-box-type byte and storing the result again yields 0
/// for every byte except 4, which round-trips; no byte is rejected.
pub proof fn lemma_message_box_round_trip(b: u8)
    ensures
        spec_message_box_type(b) == (if b == 4 {
            MessageBoxType::SignBoard
        } else {
            MessageBoxType::Normal
        }),
        spec_message_box_byte(spec_message_box_type(b)) == (if b == 4 {
            4u8
        } else {
            0u8
        }),
{
}

/// How the camera behaves for a message. An out-of-range byte decodes to the
/// default rather than failing.
#[derive(Debug, Clone, Copy, PartialEq, Eq, Structural)]
pub enum CameraType {
    Normal,
    CameraId,
    NoCam,
}

/// The camera type a byte decodes to.
pub open spec fn spec_camera_type(b: u8) -> CameraType {
    if b == 1 {
        CameraType::CameraId
    } else if b == 2 {
        CameraType::NoCam
    } else {
        CameraType::Normal
    }
}

impl CameraType {
    /// Decodes a camera-type byte; anything out of range degrades to Normal.
    pub fn from_byte(b: u8) -> (r: CameraType)
        ensures
            r == spec_camera_type(b),
    {
        match b {
            1 => CameraType::CameraId,
            2 => CameraType::NoCam,
            _ => CameraType::Normal,
        }
    }
}

/// One fixed-size message record: an offset into the text blob plus
/// per-message metadata. Array position is the message's identity.
#[derive(Debug, Clone, Copy)]
pub struct INF1Entry {
    pub textaddress: u32,
    pub cameraid: u16,
    pub soundid: u8,
    pub camtype: CameraType,
    pub messagetype: MessageType,
    pub messageboxtype: MessageBoxType,
    pub messageareaid: u8,
    pub padding: u8,
}

/// The number of bytes one message record occupies.
pub open spec fn inf1_entry_bytes() -> int {
    12
}

/// The message record stored at `pos` (the caller bounds `pos`).
pub open spec fn spec_read_inf1_entry(data: Seq<u8>, pos: int, e: Endian) -> INF1Entry {
    INF1Entry {
        textaddress: u32_of(e, data[pos], data[pos + 1], data[pos + 2], data[pos + 3]),
        cameraid: u16_of(e, data[pos + 4], data[pos + 5]),
        soundid: data[pos + 6],
        camtype: spec_camera_type(data[pos + 7]),
        messagetype: spec_message_type(data[pos + 8]),
        messageboxtype: spec_message_box_type(data[pos + 9]),
        messageareaid: data[pos + 10],
        padding: data[pos + 11],
    }
}

impl INF1Entry {
    /// Reads one fixed-size message record at `pos`.
    pub fn read(data: &[u8], pos: usize, e: Endian) -> (r: Result<(INF1Entry, usize), BmgError>)
        ensures
            match r {
                Ok((entry, next)) => pos + inf1_entry_bytes() <= data@.len() && entry
                    == spec_read_inf1_entry(data@, pos as int, e) && next == pos
                    + inf1_entry_bytes(),
                Err(er) => pos + inf1_entry_bytes() > data@.len() && er
                    == BmgError::TruncatedRecord,
            },
    {
        if pos > data.len() || data.len() - pos < 12 {
            return Err(BmgError::TruncatedRecord);
        }
        let entry = INF1Entry {
            textaddress: read_u32(data, pos, e),
            cameraid: read_u16(data, pos + 4, e),
            soundid: data[pos + 6],
            camtype: CameraType::from_byte(data[pos + 7]),
            messagetype: MessageType::from_byte(data[pos + 8]),
            messageboxtype: MessageBoxType::from_byte(data[pos + 9]),
            messageareaid: data[pos + 10],
            padding: data[pos + 11],
        };
        Ok((entry, pos + 12))
    }
}

/// The message table: a declared count and per-entry size, then that many
/// fixed-size records.
#[derive(Debug, Clone)]
pub struct INF1 {
    pub entrynum: u16,
    pub entrysize: u16,
    pub padding: u32,
    pub entries: Vec<INF1Entry>,
}

pub struct INF1View {
    pub entrynum: u16,
    pub entrysize: u16,
    pub padding: u32,
    pub entries: Seq<INF1Entry>,
}

impl View for INF1 {
    type V = INF1View;

    open spec fn view(&self) -> INF1View {
        INF1View {
            entrynum: self.entrynum,
            entrysize: self.entrysize,
            padding: self.padding,
            entries: self.entries@,
        }
    }
}

/// The run of `n` message records starting at `pos`, or the record error at
/// the first record that does not fit in the buffer.
pub open spec fn spec_read_inf1_entries(data: Seq<u8>, pos: int, n: nat, e: Endian) -> Result<
    Seq<INF1Entry>,
    BmgError,
>
    decreases n,
{
    if n == 0 {
        Ok(Seq::empty())
    } else if pos + inf1_entry_bytes() > data.len() {
        Err(BmgError::TruncatedRecord)
    } else {
        match spec_read_inf1_entries(data, pos + inf1_entry_bytes(), (n - 1) as nat, e) {
            Ok(rest) => Ok(seq![spec_read_inf1_entry(data, pos, e)] + rest),
            Err(er) => Err(er),
        }
    }
}

/// What decoding the message table at `pos` yields: a truncated table header
/// is a malformed container, a record that does not fit is a truncated
/// record.
pub open spec fn spec_read_inf1(data: Seq<u8>, pos: int, e: Endian) -> Result<INF1View, BmgError> {
    if pos + 8 > data.len() {
        Err(BmgError::MalformedContainer)
    } else {
        let entrynum = u16_of(e, data[pos], data[pos + 1]);
        let entrysize = u16_of(e, data[pos + 2], data[pos + 3]);
        let padding = u32_of(e, data[pos + 4], data[pos + 5], data[pos + 6], data[pos + 7]);
        match spec_read_inf1_entries(data, pos + 8, entrynum as nat, e) {
            Ok(entries) => Ok(INF1View { entrynum, entrysize, padding, entries }),
            Err(er) => Err(er),
        }
    }
}

impl INF1 {
    /// Reads the table header, then exactly `entrynum` records.
    #[verifier::loop_isolation(false)]
    pub fn read(data: &[u8], pos: usize, e: Endian) -> (r: Result<INF1, BmgError>)
        ensures
            match r {
                Ok(t) => spec_read_inf1(data@, pos as int, e) == Ok::<_, BmgError>(t@),
                Err(er) => spec_read_inf1(data@, pos as int, e) == Err::<INF1View, _>(er),
            },
    {
        if pos > data.len() || data.len() - pos < 8 {
            return Err(BmgError::MalformedContainer);
        }
        let entrynum = read_u16(data, pos, e);
        let entrysize = read_u16(data, pos + 2, e);
        let padding = read_u32(data, pos + 4, e);
        let mut entries: Vec<INF1Entry> = Vec::new();
        let mut i: u16 = 0;
        let mut cur: usize = pos + 8;
        while i < entrynum
            invariant
                i <= entrynum,
                cur == pos + 8 + (i as int) * inf1_entry_bytes(),
                pos + 8 <= cur <= data@.len(),
                entries@.len() == i as nat,
                spec_read_inf1_entries(data@, pos + 8, entrynum as nat, e) == match spec_read_inf1_entries(
                    data@,
                    cur as int,
                    (entrynum - i) as nat,
                    e,
                ) {
                    Ok(rest) => Ok::<_, BmgError>(entries@ + rest),
                    Err(er) => Err::<Seq<INF1Entry>, _>(er),
                },
            decreases entrynum - i,
        {
            let ghost entries0 = entries@;
            let ghost cur0 = cur as int;
            let ghost n0 = (entrynum - i) as nat;
            match INF1Entry::read(data, cur, e) {
                Ok((entry, next)) => {
                    entries.push(entry);
                    cur = next;
                    i = i + 1;
                    proof {
                        let rest1 = spec_read_inf1_entries(data@, cur0 + 12, (n0 - 1) as nat, e);
                        assert(entries@ =~= entries0 + seq![entry]);
                        if rest1 is Ok {
                            let r = rest1->Ok_0;
                            assert(entries0 + (seq![entry] + r) =~= entries@ + r);
                        }
                    }
                },
                Err(er) => {
                    proof {
                        assert(spec_read_inf1_entries(data@, cur0, n0, e) == Err::<
                            Seq<INF1Entry>,
                            BmgError,
                        >(er));
                        assert(spec_read_inf1_entries(data@, pos as int + 8, entrynum as nat, e)
                            == Err::<Seq<INF1Entry>, BmgError>(er));
                    }
                    return Err(er);
                },
            }
        }
        proof {
            assert(entries@ + Seq::<INF1Entry>::empty() =~= entries@);
        }
        Ok(INF1 { entrynum, entrysize, padding, entries })
    }
}

/// The raw text blob: one leading padding byte, then the bytes of the
/// section's range copied verbatim; message text offsets index into `data`.
#[derive(Debug, Clone)]
pub struct DAT1 {
    pub padding: u8,
    pub data: Vec<u8>,
}

pub struct DAT1View {
    pub padding: u8,
    pub data: Seq<u8>,
}

impl View for DAT1 {
    type V = DAT1View;

    open spec fn view(&self) -> DAT1View {
        DAT1View { padding: self.padding, data: self.data@ }
    }
}

/// What decoding the text blob between `pos` and `end` yields: the padding
/// byte, then everything up to `end` verbatim.
pub open spec fn spec_read_dat1(data: Seq<u8>, pos: int, end: int) -> Result<DAT1View, BmgError> {
    if pos + 1 > end || end > data.len() {
        Err(BmgError::MalformedContainer)
    } else {
        Ok(DAT1View { padding: data[pos], data: data.subrange(pos + 1, end) })
    }
}

impl DAT1 {
    /// Reads the padding byte and copies the rest of the section's byte
    /// range; interpretation is left to the text decoder.
    pub fn read(data: &[u8], pos: usize, end: usize) -> (r: Result<DAT1, BmgError>)
        ensures
            match r {
                Ok(d) => spec_read_dat1(data@, pos as int, end as int) == Ok::<_, BmgError>(d@),
                Err(er) => spec_read_dat1(data@, pos as int, end as int) == Err::<DAT1View, _>(er),
            },
    {
        if pos >= end || end > data.len() {
            return Err(BmgError::MalformedContainer);
        }
        let padding = data[pos];
        let body = copy_bytes(data, pos + 1, end);
        Ok(DAT1 { padding, data: body })
    }
}

/// The small fixed FLI1 header: structurally decoded, unused by the text and
/// flow algorithms.
#[derive(Debug, Clone)]
pub struct FLI1 {
    pub entrynum: u16,
    pub entrylength: u8,
    pub padding: Vec<u8>,
}

pub struct FLI1View {
    pub entrynum: u16,
    pub entrylength: u8,
    pub padding: Seq<u8>,
}

impl View for FLI1 {
    type V = FLI1View;

    open spec fn view(&self) -> FLI1View {
        FLI1View {
            entrynum: self.entrynum,
            entrylength: self.entrylength,
            padding: self.padding@,
        }
    }
}

/// What decoding the 8-byte FLI1 body at `pos` yields.
pub open spec fn spec_read_fli1(data: Seq<u8>, pos: int, e: Endian) -> Result<FLI1View, BmgError> {
    if pos + 8 > data.len() {
        Err(BmgError::MalformedContainer)
    } else {
        Ok(
            FLI1View {
                entrynum: u16_of(e, data[pos], data[pos + 1]),
                entrylength: data[pos + 2],
                padding: data.subrange(pos + 3, pos + 8),
            },
        )
    }
}

/// The three kinds of flow node.
#[derive(Debug, Clone, Copy, PartialEq, Eq, Structural)]
pub enum FlowType {
    Text,
    Condition,
    Event,
}

/// The tag byte each flow-node kind is stored as.
pub open spec fn spec_flow_tag(t: FlowType) -> u8 {
    match t {
        FlowType::Text => 1,
        FlowType::Condition => 2,
        FlowType::Event => 3,
    }
}

/// A text node: the message it represents and its successor in the graph.
/// `textid` is a message index and `nexttextid` a graph-array position: two
/// distinct namespaces. The successor sentinel is the maximum value.
#[derive(Debug, Clone, Copy, PartialEq, Eq, Structural)]
pub struct EntryText {
    pub unk: u8,
    pub textid: u16,
    pub nexttextid: u16,
    pub validity: u8,
    pub unk2: u8,
}

/// A condition node: its branch-table index addresses the pair of
/// consecutive entries holding the true target and the false target.
#[derive(Debug, Clone, Copy, PartialEq, Eq, Structural)]
pub struct EntryCondition {
    pub unk: u8,
    pub conditiontype: u16,
    pub arg: u16,
    pub branchnodeid: u16,
}

/// An event node: its branch-table index addresses the single entry holding
/// the next target.
#[derive(Debug, Clone, Copy, PartialEq, Eq, Structural)]
pub struct EntryEvent {
    pub event_type: u8,
    pub branchnodeid: u16,
    pub arg: u32,
}

/// One flow node: a tagged variant whose tag byte is read before the
/// payload.
#[derive(Debug, Clone, Copy, PartialEq, Eq, Structural)]
pub enum FLW1Entry {
    Text(EntryText),
    Condition(EntryCondition),
    Event(EntryEvent),
}

/// What decoding the 8-byte flow node at `pos` yields: a node that does not
/// fit is a truncated record, an unknown tag a malformed container.
pub open spec fn spec_read_flow_entry(data: Seq<u8>, pos: int, e: Endian) -> Result<
    FLW1Entry,
    BmgError,
> {
    if pos + 1 > data.len() {
        Err(BmgError::TruncatedRecord)
    } else if data[pos] != 1 && data[pos] != 2 && data[pos] != 3 {
        Err(BmgError::MalformedContainer)
    } else if pos + 8 > data.len() {
        Err(BmgError::TruncatedRecord)
    } else if data[pos] == 1 {
        Ok(
            FLW1Entry::Text(
                EntryText {
                    unk: data[pos + 1],
                    textid: u16_of(e, data[pos + 2], data[pos + 3]),
                    nexttextid: u16_of(e, data[pos + 4], data[pos + 5]),
                    validity: data[pos + 6],
                    unk2: data[pos + 7],
                },
            ),
        )
    } else if data[pos] == 2 {
        Ok(
            FLW1Entry::Condition(
                EntryCondition {
                    unk: data[pos + 1],
                    conditiontype: u16_of(e, data[pos + 2], data[pos + 3]),
                    arg: u16_of(e, data[pos + 4], data[pos + 5]),
                    branchnodeid: u16_of(e, data[pos + 6], data[pos + 7]),
                },
            ),
        )
    } else {
        Ok(
            FLW1Entry::Event(
                EntryEvent {
                    event_type: data[pos + 1],
                    branchnodeid: u16_of(e, data[pos + 2], data[pos + 3]),
                    arg: u32_of(e, data[pos + 4], data[pos + 5], data[pos + 6], data[pos + 7]),
                },
            ),
        )
    }
}

/// The bytes a flow node is stored as: its tag byte, then its payload in
/// order `e`.
pub open spec fn spec_encode_flow_entry(en: FLW1Entry, e: Endian) -> Seq<u8> {
    match en {
        FLW1Entry::Text(t) => seq![1u8, t.unk] + u16_bytes(e, t.textid) + u16_bytes(
            e,
            t.nexttextid,
        ) + seq![t.validity, t.unk2],
        FLW1Entry::Condition(c) => seq![2u8, c.unk] + u16_bytes(e, c.conditiontype) + u16_bytes(
            e,
            c.arg,
        ) + u16_bytes(e, c.branchnodeid),
        FLW1Entry::Event(ev) => seq![3u8, ev.event_type] + u16_bytes(e, ev.branchnodeid)
            + u32_bytes(e, ev.arg),
    }
}

impl FLW1Entry {
    /// Reads the tag byte, then the matching 7-byte payload.
    pub fn read(data: &[u8], pos: usize, e: Endian) -> (r: Result<(FLW1Entry, usize), BmgError>)
        ensures
            match r {
                Ok((en, next)) => spec_read_flow_entry(data@, pos as int, e) == Ok::<_, BmgError>(
                    en,
                ) && next == pos + 8,
                Err(er) => spec_read_flow_entry(data@, pos as int, e) == Err::<FLW1Entry, _>(er),
            },
    {
        if pos >= data.len() {
            return Err(BmgError::TruncatedRecord);
        }
        let tag = data[pos];
        if tag != 1 && tag != 2 && tag != 3 {
            return Err(BmgError::MalformedContainer);
        }
        if data.len() - pos < 8 {
            return Err(BmgError::TruncatedRecord);
        }
        if tag == 1 {
            Ok(
                (
                    FLW1Entry::Text(
                        EntryText {
                            unk: data[pos + 1],
                            textid: read_u16(data, pos + 2, e),
                            nexttextid: read_u16(data, pos + 4, e),
                            validity: data[pos + 6],
                            unk2: data[pos + 7],
                        },
                    ),
                    pos + 8,
                ),
            )
        } else if tag == 2 {
            Ok(
                (
                    FLW1Entry::Condition(
                        EntryCondition {
                            unk: data[pos + 1],
                            conditiontype: read_u16(data, pos + 2, e),
                            arg: read_u16(data, pos + 4, e),
                            branchnodeid: read_u16(data, pos + 6, e),
                        },
                    ),
                    pos + 8,
                ),
            )
        } else {
            Ok(
                (
                    FLW1Entry::Event(
                        EntryEvent {
                            event_type: data[pos + 1],
                            branchnodeid: read_u16(data, pos + 2, e),
                            arg: read_u32(data, pos + 4, e),
                        },
                    ),
                    pos + 8,
                ),
            )
        }
    }

    /// The kind of this node.
    pub fn flow_type(&self) -> (t: FlowType)
        ensures
            t == spec_flow_type(*self),
    {
        match self {
            FLW1Entry::Text(_) => FlowType::Text,
            FLW1Entry::Condition(_) => FlowType::Condition,
            FLW1Entry::Event(_) => FlowType::Event,
        }
    }

    /// Appends this node's stored form: the tag byte, then the payload in
    /// order `e` (the structural round-trip of an already-parsed node).
    pub fn write(&self, out: &mut Vec<u8>, e: Endian)
        ensures
            final(out)@ == old(out)@ + spec_encode_flow_entry(*self, e),
    {
        match self {
            FLW1Entry::Text(t) => {
                out.push(1);
                out.push(t.unk);
                crate::binary::push_u16(out, t.textid, e);
                crate::binary::push_u16(out, t.nexttextid, e);
                out.push(t.validity);
                out.push(t.unk2);
            },
            FLW1Entry::Condition(c) => {
                out.push(2);
                out.push(c.unk);
                crate::binary::push_u16(out, c.conditiontype, e);
                crate::binary::push_u16(out, c.arg, e);
                crate::binary::push_u16(out, c.branchnodeid, e);
            },
            FLW1Entry::Event(ev) => {
                out.push(3);
                out.push(ev.event_type);
                crate::binary::push_u16(out, ev.branchnodeid, e);
                crate::binary::push_u32(out, ev.arg, e);
            },
        }
        proof {
            assert(final(out)@ =~= old(out)@ + spec_encode_flow_entry(*self, e));
        }
    }
}

/// The kind of a flow node.
pub open spec fn spec_flow_type(en: FLW1Entry) -> FlowType {
    match en {
        FLW1Entry::Text(_) => FlowType::Text,
        FLW1Entry::Condition(_) => FlowType::Condition,
        FLW1Entry::Event(_) => FlowType::Event,
    }
}

/// The two bytes that store a 16-bit value read back in the same order give
/// the value itself.
pub proof fn lemma_u16_round_trip(e: Endian, v: u16)
    ensures
        u16_of(e, u16_bytes(e, v)[0], u16_bytes(e, v)[1]) == v,
{
}

/// The four bytes that store a 32-bit value read back in the same order
/// give the value itself.
pub proof fn lemma_u32_round_trip(e: Endian, v: u32)
    ensures
        u32_of(
            e,
            u32_bytes(e, v)[0],
            u32_bytes(e, v)[1],
            u32_bytes(e, v)[2],
            u32_bytes(e, v)[3],
        ) == v,
{
}

/// The structural round-trip of an already-parsed flow node: decoding the
/// bytes a node is written as, in the same byte order, yields the node
/// itself.
pub proof fn lemma_flow_entry_round_trip(en: FLW1Entry, e: Endian)
    ensures
        spec_read_flow_entry(spec_encode_flow_entry(en, e), 0, e) == Ok::<FLW1Entry, BmgError>(en),
{
    let bs = spec_encode_flow_entry(en, e);
    match en {
        FLW1Entry::Text(t) => {
            lemma_u16_round_trip(e, t.textid);
            lemma_u16_round_trip(e, t.nexttextid);
            assert(bs.len() == 8);
            assert(bs[2] == u16_bytes(e, t.textid)[0] && bs[3] == u16_bytes(e, t.textid)[1]);
            assert(bs[4] == u16_bytes(e, t.nexttextid)[0] && bs[5] == u16_bytes(
                e,
                t.nexttextid,
            )[1]);
            assert(spec_read_flow_entry(bs, 0, e)->Ok_0 == en);
        },
        FLW1Entry::Condition(c) => {
            lemma_u16_round_trip(e, c.conditiontype);
            lemma_u16_round_trip(e, c.arg);
            lemma_u16_round_trip(e, c.branchnodeid);
            assert(bs.len() == 8);
            assert(bs[2] == u16_bytes(e, c.conditiontype)[0] && bs[3] == u16_bytes(
                e,
                c.conditiontype,
            )[1]);
            assert(bs[4] == u16_bytes(e, c.arg)[0] && bs[5] == u16_bytes(e, c.arg)[1]);
            assert(bs[6] == u16_bytes(e, c.branchnodeid)[0] && bs[7] == u16_bytes(
                e,
                c.branchnodeid,
            )[1]);
            assert(spec_read_flow_entry(bs, 0, e)->Ok_0 == en);
        },
        FLW1Entry::Event(ev) => {
            lemma_u16_round_trip(e, ev.branchnodeid);
            lemma_u32_round_trip(e, ev.arg);
            assert(bs.len() == 8);
            assert(bs[2] == u16_bytes(e, ev.branchnodeid)[0] && bs[3] == u16_bytes(
                e,
                ev.branchnodeid,
            )[1]);
            assert(bs[4] == u32_bytes(e, ev.arg)[0] && bs[5] == u32_bytes(e, ev.arg)[1] && bs[6]
                == u32_bytes(e, ev.arg)[2] && bs[7] == u32_bytes(e, ev.arg)[3]);
            assert(spec_read_flow_entry(bs, 0, e)->Ok_0 == en);
        },
    }
}

/// The flow graph: the node array (array position is a node's graph
/// identity) and the branch table its condition and event nodes index.
#[derive(Debug, Clone)]
pub struct FLW1 {
    pub nodenum: u16,
    pub branchnodenum: u16,
    pub padding: u32,
    pub entries: Vec<FLW1Entry>,
    pub branch_nodes: Vec<u16>,
}

pub struct FLW1View {
    pub nodenum: u16,
    pub branchnodenum: u16,
    pub padding: u32,
    pub entries: Seq<FLW1Entry>,
    pub branch_nodes: Seq<u16>,
}

impl View for FLW1 {
    type V = FLW1View;

    open spec fn view(&self) -> FLW1View {
        FLW1View {
            nodenum: self.nodenum,
            branchnodenum: self.branchnodenum,
            padding: self.padding,
            entries: self.entries@,
            branch_nodes: self.branch_nodes@,
        }
    }
}

impl FLW1View {
    /// A decoded graph's counts match its arrays.
    pub open spec fn wf(&self) -> bool {
        self.entries.len() == self.nodenum as nat && self.branch_nodes.len()
            == self.branchnodenum as nat
    }
}

/// The run of `n` flow nodes starting at `pos`, or the first node's error.
pub open spec fn spec_read_flow_entries(data: Seq<u8>, pos: int, n: nat, e: Endian) -> Result<
    Seq<FLW1Entry>,
    BmgError,
>
    decreases n,
{
    if n == 0 {
        Ok(Seq::empty())
    } else {
        match spec_read_flow_entry(data, pos, e) {
            Ok(en) => match spec_read_flow_entries(data, pos + 8, (n - 1) as nat, e) {
                Ok(rest) => Ok(seq![en] + rest),
                Err(er) => Err(er),
            },
            Err(er) => Err(er),
        }
    }
}

/// The run of `n` branch-table entries (16-bit node indices) at `pos`.
pub open spec fn spec_read_branch_nodes(data: Seq<u8>, pos: int, n: nat, e: Endian) -> Result<
    Seq<u16>,
    BmgError,
>
    decreases n,
{
    if n == 0 {
        Ok(Seq::empty())
    } else if pos + 2 > data.len() {
        Err(BmgError::TruncatedRecord)
    } else {
        match spec_read_branch_nodes(data, pos + 2, (n - 1) as nat, e) {
            Ok(rest) => Ok(seq![u16_of(e, data[pos], data[pos + 1])] + rest),
            Err(er) => Err(er),
        }
    }
}

/// What decoding the flow section at `pos` yields: counts, the node array,
/// then the branch table stored immediately after the nodes.
pub open spec fn spec_read_flw1(data: Seq<u8>, pos: int, e: Endian) -> Result<FLW1View, BmgError> {
    if pos + 8 > data.len() {
        Err(BmgError::MalformedContainer)
    } else {
        let nodenum = u16_of(e, data[pos], data[pos + 1]);
        let branchnodenum = u16_of(e, data[pos + 2], data[pos + 3]);
        let padding = u32_of(e, data[pos + 4], data[pos + 5], data[pos + 6], data[pos + 7]);
        match spec_read_flow_entries(data, pos + 8, nodenum as nat, e) {
            Ok(entries) => match spec_read_branch_nodes(
                data,
                pos + 8 + (nodenum as int) * 8,
                branchnodenum as nat,
                e,
            ) {
                Ok(branch_nodes) => Ok(
                    FLW1View { nodenum, branchnodenum, padding, entries, branch_nodes },
                ),
                Err(er) => Err(er),
            },
            Err(er) => Err(er),
        }
    }
}

impl FLW1 {
    /// Reads the counts, then `nodenum` tagged nodes, then `branchnodenum`
    /// branch-table entries.
    #[verifier::loop_isolation(false)]
    #[verifier::rlimit(60)]
    #[verifier::spinoff_prover]
    pub fn read(data: &[u8], pos: usize, e: Endian) -> (r: Result<FLW1, BmgError>)
        ensures
            match r {
                Ok(f) => spec_read_flw1(data@, pos as int, e) == Ok::<_, BmgError>(f@) && f@.wf(),
                Err(er) => spec_read_flw1(data@, pos as int, e) == Err::<FLW1View, _>(er),
            },
    {
        if pos > data.len() || data.len() - pos < 8 {
            return Err(BmgError::MalformedContainer);
        }
        let nodenum = read_u16(data, pos, e);
        let branchnodenum = read_u16(data, pos + 2, e);
        let padding = read_u32(data, pos + 4, e);
        let mut entries: Vec<FLW1Entry> = Vec::new();
        let mut i: u16 = 0;
        let mut cur: usize = pos + 8;
        while i < nodenum
            invariant
                i <= nodenum,
                cur == pos + 8 + (i as int) * 8,
                pos + 8 <= cur <= data@.len() + 8,
                entries@.len() == i as nat,
                spec_read_flow_entries(data@, pos + 8, nodenum as nat, e) == match spec_read_flow_entries(
                    data@,
                    cur as int,
                    (nodenum - i) as nat,
                    e,
                ) {
                    Ok(rest) => Ok::<_, BmgError>(entries@ + rest),
                    Err(er) => Err::<Seq<FLW1Entry>, _>(er),
                },
            decreases nodenum - i,
        {
            let ghost entries0 = entries@;
            let ghost cur0 = cur as int;
            let ghost n0 = (nodenum - i) as nat;
            match FLW1Entry::read(data, cur, e) {
                Ok((en, next)) => {
                    entries.push(en);
                    cur = next;
                    i = i + 1;
                    proof {
                        let rest1 = spec_read_flow_entries(data@, cur0 + 8, (n0 - 1) as nat, e);
                        assert(entries@ =~= entries0 + seq![en]);
                        if rest1 is Ok {
                            let r = rest1->Ok_0;
                            assert(entries0 + (seq![en] + r) =~= entries@ + r);
                        }
                    }
                },
                Err(er) => {
                    proof {
                        assert(spec_read_flow_entries(data@, cur0, n0, e) == Err::<
                            Seq<FLW1Entry>,
                            BmgError,
                        >(er));
                    }
                    return Err(er);
                },
            }
        }
        proof {
            assert(entries@ + Seq::<FLW1Entry>::empty() =~= entries@);
        }
        let mut branch_nodes: Vec<u16> = Vec::new();
        let mut b: u16 = 0;
        let ghost bstart = cur as int;
        while b < branchnodenum
            invariant
                b <= branchnodenum,
                cur == bstart + (b as int) * 2,
                bstart <= cur,
                branch_nodes@.len() == b as nat,
                spec_read_branch_nodes(data@, bstart, branchnodenum as nat, e) == match spec_read_branch_nodes(
                    data@,
                    cur as int,
                    (branchnodenum - b) as nat,
                    e,
                ) {
                    Ok(rest) => Ok::<_, BmgError>(branch_nodes@ + rest),
                    Err(er) => Err::<Seq<u16>, _>(er),
                },
            decreases branchnodenum - b,
        {
            let ghost branch0 = branch_nodes@;
            let ghost cur0 = cur as int;
            let ghost n0 = (branchnodenum - b) as nat;
            if cur > data.len() || data.len() - cur < 2 {
                proof {
                    assert(spec_read_branch_nodes(data@, cur0, n0, e) == Err::<Seq<u16>, BmgError>(
                        BmgError::TruncatedRecord,
                    ));
                }
                return Err(BmgError::TruncatedRecord);
            }
            let v = read_u16(data, cur, e);
            branch_nodes.push(v);
            cur = cur + 2;
            b = b + 1;
            proof {
                let rest1 = spec_read_branch_nodes(data@, cur0 + 2, (n0 - 1) as nat, e);
                assert(branch_nodes@ =~= branch0 + seq![v]);
                if rest1 is Ok {
                    let r = rest1->Ok_0;
                    assert(branch0 + (seq![v] + r) =~= branch_nodes@ + r);
                }
            }
        }
        proof {
            assert(branch_nodes@ + Seq::<u16>::empty() =~= branch_nodes@);
        }
        Ok(FLW1 { nodenum, branchnodenum, padding, entries, branch_nodes })
    }
}

impl FLI1 {
    /// Reads the fixed FLI1 body.
    pub fn read(data: &[u8], pos: usize, e: Endian) -> (r: Result<FLI1, BmgError>)
        ensures
            match r {
                Ok(f) => spec_read_fli1(data@, pos as int, e) == Ok::<_, BmgError>(f@),
                Err(er) => spec_read_fli1(data@, pos as int, e) == Err::<FLI1View, _>(er),
            },
    {
        if pos > data.len() || data.len() - pos < 8 {
            return Err(BmgError::MalformedContainer);
        }
        let entrynum = read_u16(data, pos, e);
        let entrylength = data[pos + 2];
        let padding = copy_bytes(data, pos + 3, pos + 8);
        Ok(FLI1 { entrynum, entrylength, padding })
    }
}

/// One decoded section.
#[derive(Debug, Clone)]
pub enum Section {
    INF1(INF1),
    DAT1(DAT1),
    FLW1(FLW1),
    FLI1(FLI1),
}

pub enum SectionView {
    INF1(INF1View),
    DAT1(DAT1View),
    FLW1(FLW1View),
    FLI1(FLI1View),
}

impl View for Section {
    type V = SectionView;

    open spec fn view(&self) -> SectionView {
        match self {
            Section::INF1(x) => SectionView::INF1(x@),
            Section::DAT1(x) => SectionView::DAT1(x@),
            Section::FLW1(x) => SectionView::FLW1(x@),
            Section::FLI1(x) => SectionView::FLI1(x@),
        }
    }
}

/// What decoding the section at `pos` yields: its header, a bound check
/// against the buffer for the 32-byte-padded end, the tag-specific body, and
/// the padded end the reader seeks to whatever the body consumed.
pub open spec fn spec_read_section(data: Seq<u8>, pos: int, e: Endian) -> Result<
    (SectionView, int),
    BmgError,
> {
    match spec_read_section_header(data, pos, e) {
        Err(er) => Err(er),
        Ok((sh, body)) => {
            let pend = spec_padded_end(pos, sh.size);
            if pend > data.len() {
                Err(BmgError::MalformedContainer)
            } else {
                match sh.magic {
                    SectionMagic::INF1 => match spec_read_inf1(data, body, e) {
                        Ok(v) => Ok((SectionView::INF1(v), pend)),
                        Err(er) => Err(er),
                    },
                    SectionMagic::DAT1 => match spec_read_dat1(data, body, pend) {
                        Ok(v) => Ok((SectionView::DAT1(v), pend)),
                        Err(er) => Err(er),
                    },
                    SectionMagic::FLW1 => match spec_read_flw1(data, body, e) {
                        Ok(v) => Ok((SectionView::FLW1(v), pend)),
                        Err(er) => Err(er),
                    },
                    SectionMagic::FLI1 => match spec_read_fli1(data, body, e) {
                        Ok(v) => Ok((SectionView::FLI1(v), pend)),
                        Err(er) => Err(er),
                    },
                }
            }
        },
    }
}

/// Computes the 32-byte-padded end of a section of `size` bytes starting at
/// `pos`, or nothing when that end lies past a buffer of `len` bytes.
fn padded_end(len: usize, pos: usize, size: u32) -> (r: Option<usize>)
    requires
        pos <= len,
    ensures
        match r {
            Some(p) => spec_padded_end(pos as int, size) == p && p <= len,
            None => spec_padded_end(pos as int, size) > len,
        },
{
    let size = size as usize;
    if size > len - pos {
        return None;
    }
    let end = pos + size;
    let rem = end % 32;
    let pad: usize = if rem == 0 {
        0
    } else {
        32 - rem
    };
    if pad > len - end {
        return None;
    }
    Some(end + pad)
}

impl Section {
    /// Reads one section at `pos`: header, body by tag, then the position of
    /// the padded section end, which the container seeks to regardless of
    /// how many bytes the body consumed.
    pub fn read(data: &[u8], pos: usize, e: Endian) -> (r: Result<(Section, usize), BmgError>)
        ensures
            match r {
                Ok((s, pend)) => spec_read_section(data@, pos as int, e) == Ok::<_, BmgError>(
                    (s@, pend as int),
                ) && pend <= data@.len(),
                Err(er) => spec_read_section(data@, pos as int, e) == Err::<(SectionView, int), _>(
                    er,
                ),
            },
    {
        let (sh, body) = match SectionHeader::read(data, pos, e) {
            Ok(x) => x,
            Err(er) => {
                return Err(er);
            },
        };
        let pend = match padded_end(data.len(), pos, sh.size) {
            Some(p) => p,
            None => {
                return Err(BmgError::MalformedContainer);
            },
        };
        match sh.magic {
            SectionMagic::INF1 => match INF1::read(data, body, e) {
                Ok(v) => Ok((Section::INF1(v), pend)),
                Err(er) => Err(er),
            },
            SectionMagic::DAT1 => match DAT1::read(data, body, pend) {
                Ok(v) => Ok((Section::DAT1(v), pend)),
                Err(er) => Err(er),
            },
            SectionMagic::FLW1 => match FLW1::read(data, body, e) {
                Ok(v) => Ok((Section::FLW1(v), pend)),
                Err(er) => Err(er),
            },
            SectionMagic::FLI1 => match FLI1::read(data, body, e) {
                Ok(v) => Ok((Section::FLI1(v), pend)),
                Err(er) => Err(er),
            },
        }
    }
}

/// A whole decoded container: the file header and its sections in file
/// order.
#[derive(Debug, Clone)]
pub struct BMG {
    pub header: FileHeader,
    pub sections: Vec<Section>,
}

pub struct BMGView {
    pub header: FileHeaderView,
    pub sections: Seq<SectionView>,
}

impl View for BMG {
    type V = BMGView;

    open spec fn view(&self) -> BMGView {
        BMGView { header: self.header@, sections: self.sections@.map_values(|s: Section| s@) }
    }
}

/// The run of `n` sections starting at `pos`, each read from the previous
/// one's padded end.
pub open spec fn spec_read_sections(data: Seq<u8>, pos: int, n: nat, e: Endian) -> Result<
    Seq<SectionView>,
    BmgError,
>
    decreases n,
{
    if n == 0 {
        Ok(Seq::empty())
    } else {
        match spec_read_section(data, pos, e) {
            Ok((s, pend)) => match spec_read_sections(data, pend, (n - 1) as nat, e) {
                Ok(rest) => Ok(seq![s] + rest),
                Err(er) => Err(er),
            },
            Err(er) => Err(er),
        }
    }
}

/// What decoding a whole container yields: the header fixes the byte order,
/// then `sectioncount` sections follow from offset 32.
pub open spec fn spec_read_bmg(data: Seq<u8>) -> Result<BMGView, BmgError> {
    match spec_read_file_header(data) {
        Err(er) => Err(er),
        Ok((header, e)) => match spec_read_sections(data, 32, header.sectioncount as nat, e) {
            Ok(sections) => Ok(BMGView { header, sections }),
            Err(er) => Err(er),
        },
    }
}

impl BMG {
    /// Decodes a whole container from a raw byte buffer.
    #[verifier::loop_isolation(false)]
    pub fn read(data: &[u8]) -> (r: Result<BMG, BmgError>)
        ensures
            match r {
                Ok(b) => spec_read_bmg(data@) == Ok::<_, BmgError>(b@),
                Err(er) => spec_read_bmg(data@) == Err::<BMGView, _>(er),
            },
    {
        let (header, e) = match FileHeader::read(data) {
            Ok(x) => x,
            Err(er) => {
                return Err(er);
            },
        };
        let mut sections: Vec<Section> = Vec::new();
        let mut i: u32 = 0;
        let mut cur: usize = 32;
        let n = header.sectioncount;
        while i < n
            invariant
                i <= n,
                cur <= data@.len() || i == 0,
                spec_read_sections(data@, 32, n as nat, e) == match spec_read_sections(
                    data@,
                    cur as int,
                    (n - i) as nat,
                    e,
                ) {
                    Ok(rest) => Ok::<_, BmgError>(
                        sections@.map_values(|s: Section| s@) + rest,
                    ),
                    Err(er) => Err::<Seq<SectionView>, _>(er),
                },
            decreases n - i,
        {
            let ghost sections0 = sections@.map_values(|s: Section| s@);
            let ghost cur0 = cur as int;
            let ghost n0 = (n - i) as nat;
            match Section::read(data, cur, e) {
                Ok((s, pend)) => {
                    sections.push(s);
                    cur = pend;
                    i = i + 1;
                    proof {
                        let rest1 = spec_read_sections(data@, cur as int, (n0 - 1) as nat, e);
                        assert(sections@.map_values(|s2: Section| s2@) =~= sections0 + seq![s@]);
                        if rest1 is Ok {
                            let r = rest1->Ok_0;
                            assert(sections0 + (seq![s@] + r) =~= sections@.map_values(
                                |s2: Section| s2@,
                            ) + r);
                        }
                    }
                },
                Err(er) => {
                    proof {
                        assert(spec_read_sections(data@, cur0, n0, e) == Err::<
                            Seq<SectionView>,
                            BmgError,
                        >(er));
                    }
                    return Err(er);
                },
            }
        }
        proof {
            assert(sections@.map_values(|s: Section| s@) + Seq::<SectionView>::empty()
                =~= sections@.map_values(|s: Section| s@));
        }
        Ok(BMG { header, sections })
    }
}

/// The first message table among the sections, if any.
pub open spec fn spec_first_inf1(ss: Seq<SectionView>) -> Option<INF1View>
    decreases ss.len(),
{
    if ss.len() == 0 {
        None
    } else {
        match ss[0] {
            SectionView::INF1(v) => Some(v),
            _ => spec_first_inf1(ss.drop_first()),
        }
    }
}

/// The first text blob among the sections, if any.
pub open spec fn spec_first_dat1(ss: Seq<SectionView>) -> Option<DAT1View>
    decreases ss.len(),
{
    if ss.len() == 0 {
        None
    } else {
        match ss[0] {
            SectionView::DAT1(v) => Some(v),
            _ => spec_first_dat1(ss.drop_first()),
        }
    }
}

/// The first flow graph among the sections, if any.
pub open spec fn spec_first_flw1(ss: Seq<SectionView>) -> Option<FLW1View>
    decreases ss.len(),
{
    if ss.len() == 0 {
        None
    } else {
        match ss[0] {
            SectionView::FLW1(v) => Some(v),
            _ => spec_first_flw1(ss.drop_first()),
        }
    }
}

impl BMG {
    /// The first message table in the container, if any.
    #[verifier::loop_isolation(false)]
    pub fn get_inf1(&self) -> (r: Option<&INF1>)
        ensures
            match r {
                Some(v) => spec_first_inf1(self@.sections) == Some(v@),
                None => spec_first_inf1(self@.sections) is None,
            },
    {
        let n = self.sections.len();
        let mut i: usize = 0;
        proof {
            assert(self@.sections.skip(0) =~= self@.sections);
        }
        while i < n
            invariant
                i <= n,
                n == self.sections@.len(),
                spec_first_inf1(self@.sections) == spec_first_inf1(
                    self@.sections.skip(i as int),
                ),
            decreases n - i,
        {
            proof {
                assert(self@.sections.skip(i as int).drop_first() =~= self@.sections.skip(
                    i as int + 1,
                ));
                assert(self@.sections.skip(i as int)[0] == self@.sections[i as int]);
            }
            if let Section::INF1(v) = &self.sections[i] {
                return Some(v);
            }
            i = i + 1;
        }
        proof {
            assert(self@.sections.skip(n as int).len() == 0);
        }
        None
    }

    /// The first text blob in the container, if any.
    #[verifier::loop_isolation(false)]
    pub fn get_dat1(&self) -> (r: Option<&DAT1>)
        ensures
            match r {
                Some(v) => spec_first_dat1(self@.sections) == Some(v@),
                None => spec_first_dat1(self@.sections) is None,
            },
    {
        let n = self.sections.len();
        let mut i: usize = 0;
        proof {
            assert(self@.sections.skip(0) =~= self@.sections);
        }
        while i < n
            invariant
                i <= n,
                n == self.sections@.len(),
                spec_first_dat1(self@.sections) == spec_first_dat1(
                    self@.sections.skip(i as int),
                ),
            decreases n - i,
        {
            proof {
                assert(self@.sections.skip(i as int).drop_first() =~= self@.sections.skip(
                    i as int + 1,
                ));
                assert(self@.sections.skip(i as int)[0] == self@.sections[i as int]);
            }
            if let Section::DAT1(v) = &self.sections[i] {
                return Some(v);
            }
            i = i + 1;
        }
        proof {
            assert(self@.sections.skip(n as int).len() == 0);
        }
        None
    }

    /// The first flow graph in the container, if any.
    #[verifier::loop_isolation(false)]
    pub fn get_flw1(&self) -> (r: Option<&FLW1>)
        ensures
            match r {
                Some(v) => spec_first_flw1(self@.sections) == Some(v@),
                None => spec_first_flw1(self@.sections) is None,
            },
    {
        let n = self.sections.len();
        let mut i: usize = 0;
        proof {
            assert(self@.sections.skip(0) =~= self@.sections);
        }
        while i < n
            invariant
                i <= n,
                n == self.sections@.len(),
                spec_first_flw1(self@.sections) == spec_first_flw1(
                    self@.sections.skip(i as int),
                ),
            decreases n - i,
        {
            proof {
                assert(self@.sections.skip(i as int).drop_first() =~= self@.sections.skip(
                    i as int + 1,
                ));
                assert(self@.sections.skip(i as int)[0] == self@.sections[i as int]);
            }
            if let Section::FLW1(v) = &self.sections[i] {
                return Some(v);
            }
            i = i + 1;
        }
        proof {
            assert(self@.sections.skip(n as int).len() == 0);
        }
        None
    }
}

} // verus!

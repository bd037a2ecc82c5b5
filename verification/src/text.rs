//! The escape-code text decoder: walks a text payload two bytes at a time,
//! copying ordinary UTF-16 code units and expanding embedded variable-length
//! control records into bracketed tags, until the zero terminator.
use crate::binary::BmgError;
use crate::binary::Endian;
use crate::binary::read_u16;
use crate::binary::read_u32;
use crate::binary::u16_of;
use crate::binary::u32_of;
use crate::bmg::CameraType;
use crate::bmg::DAT1;
use crate::bmg::INF1;
use crate::bmg::INF1Entry;
use crate::bmg::MessageBoxType;
use crate::bmg::MessageType;
use crate::font::push_color_text;
use crate::font::push_icon_text;
use crate::font::spec_color_text;
use crate::font::spec_icon_text;
use crate::font::spec_sound_string;
use crate::font::SoundId;
use crate::textutil::dec_units;
use crate::textutil::push_dec_units;
use crate::textutil::push_str_units;
use crate::textutil::str_units;
use crate::textutil::utf16_lossy;
use crate::textutil::utf16_lossy_of;
use vstd::prelude::*;
use vstd::string::StringExecFns;

verus! {

/// The remaining bytes of an inline-sound record reinterpreted as 16-bit
/// code units; a lone trailing byte yields a zero unit.
pub open spec fn sound_units(bytes: Seq<u8>, e: Endian) -> Seq<u16>
    decreases bytes.len(),
{
    if bytes.len() == 0 {
        Seq::empty()
    } else if bytes.len() == 1 {
        seq![0u16]
    } else {
        seq![u16_of(e, bytes[0], bytes[1])] + sound_units(bytes.skip(2), e)
    }
}

/// What expanding the control record whose length byte sits at `p` yields:
/// the emitted code units and the cursor position after the record (the
/// record's declared length counts from the escape marker one byte earlier,
/// so the cursor advances by that length minus one). An unknown control kind
/// emits nothing; a record whose fixed fields run past the buffer, or whose
/// length byte is zero, is a truncated record.
pub open spec fn spec_control(data: Seq<u8>, p: int, e: Endian) -> Result<
    (Seq<u16>, int),
    BmgError,
> {
    if p + 4 > data.len() {
        Err(BmgError::TruncatedRecord)
    } else if data[p] == 0 {
        Err(BmgError::TruncatedRecord)
    } else {
        let size = data[p] - 1;
        let kind = data[p + 1];
        let value = u16_of(Endian::Big, data[p + 2], data[p + 3]);
        let next = p + size;
        if kind == 1 {
            if value == 0 {
                if p + 5 > data.len() {
                    Err(BmgError::TruncatedRecord)
                } else {
                    Ok(
                        (
                            str_units("[waittime:") + dec_units(data[p + 4] as nat) + str_units(
                                "]",
                            ),
                            next,
                        ),
                    )
                }
            } else if value == 1 {
                Ok((str_units("[newline]"), next))
            } else if value == 3 {
                Ok((str_units("[center]"), next))
            } else {
                Ok((Seq::empty(), next))
            }
        } else if kind == 2 {
            if size < 5 || p + size > data.len() {
                Err(BmgError::TruncatedRecord)
            } else {
                Ok(
                    (
                        str_units("[sound:") + sound_units(data.subrange(p + 5, p + size), e)
                            + seq![0x5Du16],
                        next,
                    ),
                )
            }
        } else if kind == 3 {
            Ok((spec_icon_text(value), next))
        } else if kind == 4 {
            if value == 0 {
                Ok((str_units("[fontsize:small]"), next))
            } else if value == 1 {
                Ok((str_units("[fontsize:normal]"), next))
            } else if value == 2 {
                Ok((str_units("[fontsize:large]"), next))
            } else {
                Ok((str_units("[fontsize:") + dec_units(value as nat) + str_units("]"), next))
            }
        } else if kind == 5 {
            if value == 0 {
                if p + 5 > data.len() {
                    Err(BmgError::TruncatedRecord)
                } else {
                    let nt = data[p + 4];
                    if nt == 0 {
                        Ok((str_units("[playername:normal]"), next))
                    } else if nt == 1 {
                        Ok((str_units("[playername:formal]"), next))
                    } else if nt == 2 {
                        Ok((str_units("[playername:moustache]"), next))
                    } else {
                        Ok(
                            (
                                str_units("[playername:") + dec_units(nt as nat) + str_units("]"),
                                next,
                            ),
                        )
                    }
                }
            } else {
                Ok((Seq::empty(), next))
            }
        } else if kind == 6 || kind == 7 {
            if p + 12 > data.len() {
                Err(BmgError::TruncatedRecord)
            } else {
                let a2 = u32_of(Endian::Big, data[p + 4], data[p + 5], data[p + 6], data[p + 7]);
                let a3 = u32_of(Endian::Big, data[p + 8], data[p + 9], data[p + 10], data[p + 11]);
                let head = if kind == 6 {
                    str_units("[valint:")
                } else {
                    str_units("[valstr:")
                };
                Ok(
                    (
                        head + dec_units(value as nat) + str_units(",") + dec_units(a2 as nat)
                            + str_units(",") + dec_units(a3 as nat) + str_units("]"),
                        next,
                    ),
                )
            }
        } else if kind == 255 {
            if value == 0 {
                if p + 5 > data.len() {
                    Err(BmgError::TruncatedRecord)
                } else {
                    Ok((spec_color_text(data[p + 4]), next))
                }
            } else {
                Ok((Seq::empty(), next))
            }
        } else {
            Ok((Seq::empty(), next))
        }
    }
}

/// A control record, once readable, never moves the cursor back before its
/// length byte (the marker byte one position earlier supplies the strict
/// progress).
#[verifier::rlimit(100)]
pub proof fn lemma_control_advances(data: Seq<u8>, p: int, e: Endian)
    ensures
        spec_control(data, p, e) is Ok ==> spec_control(data, p, e)->Ok_0.1 >= p,
{
}

/// What decoding the message text starting at `i` yields: code units up to
/// but not including the zero terminator, with control records expanded;
/// the message also ends where the data does, and a record that jumps past
/// the end ends it too. A lone trailing byte is a truncated record.
pub open spec fn spec_decode_units(data: Seq<u8>, i: int, e: Endian) -> Result<Seq<u16>, BmgError>
    decreases data.len() - i,
{
    if i >= data.len() {
        Ok(Seq::empty())
    } else if i + 2 > data.len() {
        Err(BmgError::TruncatedRecord)
    } else if data[i] == 0 && data[i + 1] == 0 {
        Ok(Seq::empty())
    } else if data[i] == 0x1A {
        match spec_control(data, i + 1, e) {
            Ok((em, next)) => if next <= data.len() {
                proof {
                    lemma_control_advances(data, i + 1, e);
                }
                match spec_decode_units(data, next, e) {
                    Ok(rest) => Ok(em + rest),
                    Err(x) => Err(x),
                }
            } else {
                Ok(em)
            },
            Err(x) => Err(x),
        }
    } else if data[i] == 0x26 && data[i + 1] == 0x6A {
        match spec_decode_units(data, i + 2, e) {
            Ok(rest) => Ok(seq![0x266Au16] + rest),
            Err(x) => Err(x),
        }
    } else {
        match spec_decode_units(data, i + 2, e) {
            Ok(rest) => Ok(seq![u16_of(e, data[i], data[i + 1])] + rest),
            Err(x) => Err(x),
        }
    }
}

/// Appends a wait-time tag for the given duration.
fn push_waittime(string: &mut Vec<u16>, wait: u8)
    ensures
        final(string)@ == old(string)@ + str_units("[waittime:") + dec_units(wait as nat)
            + str_units("]"),
{
    push_str_units(string, "[waittime:");
    push_dec_units(string, wait as u64);
    push_str_units(string, "]");
    proof {
        assert(string@ =~= old(string)@ + str_units("[waittime:") + dec_units(wait as nat)
            + str_units("]"));
    }
}

/// Appends a font-size tag carrying a raw size value.
fn push_fontsize_raw(string: &mut Vec<u16>, value: u16)
    ensures
        final(string)@ == old(string)@ + str_units("[fontsize:") + dec_units(value as nat)
            + str_units("]"),
{
    push_str_units(string, "[fontsize:");
    push_dec_units(string, value as u64);
    push_str_units(string, "]");
    proof {
        assert(string@ =~= old(string)@ + str_units("[fontsize:") + dec_units(value as nat)
            + str_units("]"));
    }
}

/// Appends a player-name tag carrying a raw style value.
fn push_playername_raw(string: &mut Vec<u16>, nt: u8)
    ensures
        final(string)@ == old(string)@ + str_units("[playername:") + dec_units(nt as nat)
            + str_units("]"),
{
    push_str_units(string, "[playername:");
    push_dec_units(string, nt as u64);
    push_str_units(string, "]");
    proof {
        assert(string@ =~= old(string)@ + str_units("[playername:") + dec_units(nt as nat)
            + str_units("]"));
    }
}

/// Appends an argument-triple tag: the head, then the three values separated
/// by commas.
fn push_triple(string: &mut Vec<u16>, head: &str, value: u16, a2: u32, a3: u32)
    ensures
        final(string)@ == old(string)@ + str_units(head) + dec_units(value as nat) + str_units(",")
            + dec_units(a2 as nat) + str_units(",") + dec_units(a3 as nat) + str_units("]"),
{
    push_str_units(string, head);
    push_dec_units(string, value as u64);
    push_str_units(string, ",");
    push_dec_units(string, a2 as u64);
    push_str_units(string, ",");
    push_dec_units(string, a3 as u64);
    push_str_units(string, "]");
    proof {
        assert(string@ =~= old(string)@ + str_units(head) + dec_units(value as nat) + str_units(
            ",",
        ) + dec_units(a2 as nat) + str_units(",") + dec_units(a3 as nat) + str_units("]"));
    }
}

/// Appends an inline-sound tag: the given byte range reinterpreted as code
/// units in order `e`, bracketed.
#[verifier::loop_isolation(false)]
fn push_sound(string: &mut Vec<u16>, data: &[u8], from: usize, to: usize, e: Endian)
    requires
        from <= to <= data@.len(),
    ensures
        final(string)@ == old(string)@ + str_units("[sound:") + sound_units(
            data@.subrange(from as int, to as int),
            e,
        ) + seq![0x5Du16],
{
    push_str_units(string, "[sound:");
    let ghost pre = string@;
    let ghost full = sound_units(data@.subrange(from as int, to as int), e);
    let ghost mut em = Seq::<u16>::empty();
    let mut j = from;
    while j < to
        invariant
            from <= j <= to <= data@.len(),
            string@ == pre + em,
            full == em + sound_units(data@.subrange(j as int, to as int), e),
        decreases to - j,
    {
        if to - j >= 2 {
            let u = read_u16(data, j, e);
            string.push(u);
            proof {
                assert(data@.subrange(j as int, to as int).skip(2) =~= data@.subrange(
                    j + 2,
                    to as int,
                ));
                em = em + seq![u];
                assert(string@ =~= pre + em);
            }
            j = j + 2;
        } else {
            string.push(0);
            proof {
                assert(data@.subrange(j as int, to as int).len() == 1);
                em = em + seq![0u16];
                assert(string@ =~= pre + em);
                assert(data@.subrange(j + 1, to as int).len() == 0);
            }
            j = j + 1;
        }
    }
    proof {
        assert(data@.subrange(to as int, to as int).len() == 0);
        assert(em == full);
    }
    string.push(0x5D);
    proof {
        assert(string@ =~= old(string)@ + str_units("[sound:") + full + seq![0x5Du16]);
    }
}

/// Expands the control record whose length byte sits at `position`,
/// appending its tag text to `string` and returning the position the cursor
/// advances to.
#[verifier::loop_isolation(false)]
#[verifier::rlimit(100)]
pub fn create_event_text(data: &[u8], string: &mut Vec<u16>, position: usize, e: Endian) -> (r:
    Result<usize, BmgError>)
    requires
        data@.len() <= usize::MAX - 300,
    ensures
        match r {
            Ok(next) => {
                &&& spec_control(data@, position as int, e) is Ok
                &&& final(string)@ == old(string)@ + spec_control(
                    data@,
                    position as int,
                    e,
                )->Ok_0.0
                &&& next as int == spec_control(data@, position as int, e)->Ok_0.1
            },
            Err(er) => spec_control(data@, position as int, e) == Err::<(Seq<u16>, int), _>(er)
                && final(string)@ == old(string)@,
        },
{
    if data.len() < 4 || position > data.len() - 4 {
        return Err(BmgError::TruncatedRecord);
    }
    let lenbyte = data[position];
    if lenbyte == 0 {
        return Err(BmgError::TruncatedRecord);
    }
    let size = (lenbyte - 1) as usize;
    let kind = data[position + 1];
    let value = read_u16(data, position + 2, Endian::Big);
    let next = position + size;
    if kind == 1 {
        if value == 0 {
            if data.len() - position < 5 {
                return Err(BmgError::TruncatedRecord);
            }
            push_waittime(string, data[position + 4]);
        } else if value == 1 {
            push_str_units(string, "[newline]");
        } else if value == 3 {
            push_str_units(string, "[center]");
        }
        Ok(next)
    } else if kind == 2 {
        if size < 5 || size > data.len() - position {
            return Err(BmgError::TruncatedRecord);
        }
        push_sound(string, data, position + 5, position + size, e);
        proof {
            assert(string@ =~= old(string)@ + (str_units("[sound:") + sound_units(
                data@.subrange(position + 5, position + size),
                e,
            ) + seq![0x5Du16]));
        }
        Ok(next)
    } else if kind == 3 {
        push_icon_text(string, value);
        Ok(next)
    } else if kind == 4 {
        if value == 0 {
            push_str_units(string, "[fontsize:small]");
        } else if value == 1 {
            push_str_units(string, "[fontsize:normal]");
        } else if value == 2 {
            push_str_units(string, "[fontsize:large]");
        } else {
            push_fontsize_raw(string, value);
        }
        Ok(next)
    } else if kind == 5 {
        if value == 0 {
            if data.len() - position < 5 {
                return Err(BmgError::TruncatedRecord);
            }
            let nt = data[position + 4];
            if nt == 0 {
                push_str_units(string, "[playername:normal]");
            } else if nt == 1 {
                push_str_units(string, "[playername:formal]");
            } else if nt == 2 {
                push_str_units(string, "[playername:moustache]");
            } else {
                push_playername_raw(string, nt);
            }
        }
        Ok(next)
    } else if kind == 6 || kind == 7 {
        if data.len() - position < 12 {
            return Err(BmgError::TruncatedRecord);
        }
        let a2 = read_u32(data, position + 4, Endian::Big);
        let a3 = read_u32(data, position + 8, Endian::Big);
        if kind == 6 {
            push_triple(string, "[valint:", value, a2, a3);
        } else {
            push_triple(string, "[valstr:", value, a2, a3);
        }
        Ok(next)
    } else if kind == 255 {
        if value == 0 {
            if data.len() - position < 5 {
                return Err(BmgError::TruncatedRecord);
            }
            push_color_text(string, data[position + 4]);
        }
        Ok(next)
    } else {
        Ok(next)
    }
}

/// Decodes the code units of the message starting at `start`: ordinary
/// units are copied, the two-byte musical-note literal becomes the eighth
/// note, control records expand to tags, and the zero terminator (not
/// emitted) or the end of the data ends the message.
#[verifier::loop_isolation(false)]
#[verifier::rlimit(100)]
pub fn decode_units(data: &[u8], start: usize, e: Endian) -> (r: Result<Vec<u16>, BmgError>)
    requires
        data@.len() <= usize::MAX - 300,
    ensures
        match r {
            Ok(out) => spec_decode_units(data@, start as int, e) == Ok::<_, BmgError>(out@),
            Err(er) => spec_decode_units(data@, start as int, e) == Err::<Seq<u16>, _>(er),
        },
{
    let mut out: Vec<u16> = Vec::new();
    let mut i: usize = start;
    while i < data.len()
        invariant
            match spec_decode_units(data@, i as int, e) {
                Ok(rest) => spec_decode_units(data@, start as int, e) == Ok::<_, BmgError>(
                    out@ + rest,
                ),
                Err(x) => spec_decode_units(data@, start as int, e) == Err::<Seq<u16>, _>(x),
            },
        decreases data@.len() - i,
    {
        let ghost i0 = i as int;
        let ghost out0 = out@;
        if data.len() - i < 2 {
            return Err(BmgError::TruncatedRecord);
        }
        let b0 = data[i];
        let b1 = data[i + 1];
        if b0 == 0 && b1 == 0 {
            proof {
                assert(out@ + Seq::<u16>::empty() =~= out@);
            }
            return Ok(out);
        }
        if b0 == 0x1A {
            match create_event_text(data, &mut out, i + 1, e) {
                Ok(next) => {
                    proof {
                        let em = spec_control(data@, i0 + 1, e)->Ok_0.0;
                        let rest1 = spec_decode_units(data@, next as int, e);
                        if next <= data.len() && rest1 is Ok {
                            assert(out0 + (em + rest1->Ok_0) =~= out@ + rest1->Ok_0);
                        }
                        if next > data.len() {
                            assert(out0 + em =~= out@);
                            assert(out@ + Seq::<u16>::empty() =~= out@);
                        }
                    }
                    if next > data.len() {
                        i = data.len();
                    } else {
                        i = next;
                    }
                },
                Err(er) => {
                    return Err(er);
                },
            }
        } else if b0 == 0x26 && b1 == 0x6A {
            out.push(0x266A);
            i = i + 2;
            proof {
                let rest1 = spec_decode_units(data@, i as int, e);
                if rest1 is Ok {
                    assert(out0 + (seq![0x266Au16] + rest1->Ok_0) =~= out@ + rest1->Ok_0);
                }
            }
        } else {
            let u = read_u16(data, i, e);
            out.push(u);
            i = i + 2;
            proof {
                let rest1 = spec_decode_units(data@, i as int, e);
                if rest1 is Ok {
                    assert(out0 + (seq![u] + rest1->Ok_0) =~= out@ + rest1->Ok_0);
                }
            }
        }
    }
    proof {
        assert(out@ + Seq::<u16>::empty() =~= out@);
    }
    Ok(out)
}

impl INF1 {
    /// The text of message `index`: the code units decoded from its offset
    /// into the text blob, rendered leniently as a string.
    pub fn get_string(&self, index: usize, dat1: &DAT1, e: Endian) -> (r: Result<String, BmgError>)
        requires
            index < self.entries@.len(),
            dat1.data@.len() <= usize::MAX - 300,
        ensures
            match r {
                Ok(s) => spec_decode_units(
                    dat1.data@,
                    self.entries@[index as int].textaddress as int,
                    e,
                ) is Ok && s@ == utf16_lossy_of(
                    spec_decode_units(
                        dat1.data@,
                        self.entries@[index as int].textaddress as int,
                        e,
                    )->Ok_0,
                ),
                Err(er) => spec_decode_units(
                    dat1.data@,
                    self.entries@[index as int].textaddress as int,
                    e,
                ) == Err::<Seq<u16>, _>(er),
            },
    {
        let addr = self.entries[index].textaddress as usize;
        match decode_units(dat1.data.as_slice(), addr, e) {
            Ok(units) => Ok(utf16_lossy(&units)),
            Err(er) => Err(er),
        }
    }
}

/// The bracketed per-message metadata line: message type, box type, sound
/// name and camera type.
pub open spec fn spec_get_info(en: INF1Entry) -> Seq<char> {
    "[type:"@ + spec_message_type_chars(en.messagetype) + "][boxtype:"@
        + spec_box_type_chars(en.messageboxtype) + "][sound:"@ + spec_sound_string(en.soundid)
        + "][cam:"@ + spec_camera_type_chars(en.camtype) + "]"@
}

/// The name a message type renders as.
pub open spec fn spec_message_type_chars(t: MessageType) -> Seq<char> {
    match t {
        MessageType::Talk => "Talk"@,
        MessageType::Shout => "Shout"@,
        MessageType::Auto => "Auto"@,
        MessageType::Crash => "Crash"@,
        MessageType::Empty => "Empty"@,
    }
}

/// The name a message-box type renders as.
pub open spec fn spec_box_type_chars(t: MessageBoxType) -> Seq<char> {
    match t {
        MessageBoxType::Normal => "Normal"@,
        MessageBoxType::SignBoard => "SignBoard"@,
    }
}

/// The name a camera type renders as.
pub open spec fn spec_camera_type_chars(t: CameraType) -> Seq<char> {
    match t {
        CameraType::Normal => "Normal"@,
        CameraType::CameraId => "CameraId"@,
        CameraType::NoCam => "NoCam"@,
    }
}

impl INF1Entry {
    /// This record's bracketed metadata line.
    pub fn get_info(&self) -> (r: String)
        ensures
            r@ == spec_get_info(*self),
    {
        let mut s = String::new();
        s.append("[type:");
        match self.messagetype {
            MessageType::Talk => s.append("Talk"),
            MessageType::Shout => s.append("Shout"),
            MessageType::Auto => s.append("Auto"),
            MessageType::Crash => s.append("Crash"),
            MessageType::Empty => s.append("Empty"),
        }
        s.append("][boxtype:");
        match self.messageboxtype {
            MessageBoxType::Normal => s.append("Normal"),
            MessageBoxType::SignBoard => s.append("SignBoard"),
        }
        s.append("][sound:");
        let sound = SoundId::as_string(self.soundid);
        s.append(sound.as_str());
        s.append("][cam:");
        match self.camtype {
            CameraType::Normal => s.append("Normal"),
            CameraType::CameraId => s.append("CameraId"),
            CameraType::NoCam => s.append("NoCam"),
        }
        s.append("]");
        proof {
            assert(s@ =~= spec_get_info(*self));
        }
        s
    }

    /// Whether this message has any text: false exactly when the code unit
    /// at its offset is the terminator.
    pub fn has_text(&self, dat1: &DAT1) -> (r: bool)
        requires
            self.textaddress as int + 2 <= dat1.data@.len(),
        ensures
            r == !(dat1.data@[self.textaddress as int] == 0 && dat1.data@[self.textaddress as int
                + 1] == 0),
    {
        let n = dat1.data.len();
        let addr = self.textaddress as usize;
        assert(addr + 2 <= n);
        !(dat1.data[addr] == 0 && dat1.data[addr + 1] == 0)
    }
}

} // verus!

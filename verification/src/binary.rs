//! Byte order and primitive integer reads over a raw byte buffer.
//!
//! The container's magic selects a byte order at runtime; every multi-byte
//! field after that is read in the selected order, so the order is threaded
//! explicitly through every decode operation.
use vstd::prelude::*;

verus! {

/// Byte order detected from the container magic.
#[derive(Clone, Copy, Debug, PartialEq, Eq, Structural)]
pub enum Endian {
    Big,
    Little,
}

/// Structural decode failures; symbolic out-of-range values never raise
/// errors (they degrade to defaults or decimal renderings).
#[derive(Clone, Copy, Debug, PartialEq, Eq, Structural)]
pub enum BmgError {
    /// Unknown section tag, truncated header or section body, or a section
    /// extending past the end of the buffer.
    MalformedContainer,
    /// A fixed-size record (message record, flow node, control record) that
    /// cannot be fully read within its bounds.
    TruncatedRecord,
}

/// The 16-bit value stored as the two bytes `b0, b1` in order `e`.
pub open spec fn u16_of(e: Endian, b0: u8, b1: u8) -> u16 {
    match e {
        Endian::Big => ((b0 as int) * 256 + (b1 as int)) as u16,
        Endian::Little => ((b1 as int) * 256 + (b0 as int)) as u16,
    }
}

/// The 32-bit value stored as the four bytes `b0..b3` in order `e`.
pub open spec fn u32_of(e: Endian, b0: u8, b1: u8, b2: u8, b3: u8) -> u32 {
    match e {
        Endian::Big => ((b0 as int) * 0x1000000 + (b1 as int) * 0x10000 + (b2 as int) * 0x100
            + (b3 as int)) as u32,
        Endian::Little => ((b3 as int) * 0x1000000 + (b2 as int) * 0x10000 + (b1 as int) * 0x100
            + (b0 as int)) as u32,
    }
}

/// The two bytes that store `v` in order `e`.
pub open spec fn u16_bytes(e: Endian, v: u16) -> Seq<u8> {
    match e {
        Endian::Big => seq![(v / 256) as u8, (v % 256) as u8],
        Endian::Little => seq![(v % 256) as u8, (v / 256) as u8],
    }
}

/// The four bytes that store `v` in order `e`.
pub open spec fn u32_bytes(e: Endian, v: u32) -> Seq<u8> {
    match e {
        Endian::Big => seq![
            (v / 0x1000000) as u8,
            ((v / 0x10000) % 256) as u8,
            ((v / 0x100) % 256) as u8,
            (v % 256) as u8,
        ],
        Endian::Little => seq![
            (v % 256) as u8,
            ((v / 0x100) % 256) as u8,
            ((v / 0x10000) % 256) as u8,
            (v / 0x1000000) as u8,
        ],
    }
}

/// Reads the 16-bit field at `pos` in order `e`.
pub fn read_u16(data: &[u8], pos: usize, e: Endian) -> (r: u16)
    requires
        pos + 2 <= data@.len(),
    ensures
        r == u16_of(e, data@[pos as int], data@[pos as int + 1]),
{
    let b0 = data[pos];
    let b1 = data[pos + 1];
    match e {
        Endian::Big => (b0 as u16) * 256 + (b1 as u16),
        Endian::Little => (b1 as u16) * 256 + (b0 as u16),
    }
}

/// Reads the 32-bit field at `pos` in order `e`.
pub fn read_u32(data: &[u8], pos: usize, e: Endian) -> (r: u32)
    requires
        pos + 4 <= data@.len(),
    ensures
        r == u32_of(
            e,
            data@[pos as int],
            data@[pos as int + 1],
            data@[pos as int + 2],
            data@[pos as int + 3],
        ),
{
    let b0 = data[pos] as u32;
    let b1 = data[pos + 1] as u32;
    let b2 = data[pos + 2] as u32;
    let b3 = data[pos + 3] as u32;
    match e {
        Endian::Big => b0 * 0x1000000 + b1 * 0x10000 + b2 * 0x100 + b3,
        Endian::Little => b3 * 0x1000000 + b2 * 0x10000 + b1 * 0x100 + b0,
    }
}

/// Appends the two bytes that store `v` in order `e`.
pub fn push_u16(out: &mut Vec<u8>, v: u16, e: Endian)
    ensures
        final(out)@ == old(out)@ + u16_bytes(e, v),
{
    let hi = (v / 256) as u8;
    let lo = (v % 256) as u8;
    match e {
        Endian::Big => {
            out.push(hi);
            out.push(lo);
        },
        Endian::Little => {
            out.push(lo);
            out.push(hi);
        },
    }
    proof {
        assert(final(out)@ =~= old(out)@ + u16_bytes(e, v));
    }
}

/// Appends the four bytes that store `v` in order `e`.
pub fn push_u32(out: &mut Vec<u8>, v: u32, e: Endian)
    ensures
        final(out)@ == old(out)@ + u32_bytes(e, v),
{
    let b0 = (v / 0x1000000) as u8;
    let b1 = ((v / 0x10000) % 256) as u8;
    let b2 = ((v / 0x100) % 256) as u8;
    let b3 = (v % 256) as u8;
    match e {
        Endian::Big => {
            out.push(b0);
            out.push(b1);
            out.push(b2);
            out.push(b3);
        },
        Endian::Little => {
            out.push(b3);
            out.push(b2);
            out.push(b1);
            out.push(b0);
        },
    }
    proof {
        assert(final(out)@ =~= old(out)@ + u32_bytes(e, v));
    }
}

} // verus!

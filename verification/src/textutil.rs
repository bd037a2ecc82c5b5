//! Helpers that build the decoder's output: UTF-16 code-unit buffers for
//! message text, character strings for metadata and flow traces, and decimal
//! renderings of numeric fallbacks.
use vstd::prelude::*;
use vstd::string::StringExecFns;
use vstd::string::StringSliceAdditionalSpecFns;

verus! {

/// Each byte widened to a 16-bit code unit.
pub open spec fn byte_units(bs: Seq<u8>) -> Seq<u16> {
    Seq::new(bs.len(), |i: int| bs[i] as u16)
}

/// The UTF-16 code units of a string slice's UTF-8 bytes; for the ASCII
/// literals used as tags this is one unit per character. Opaque: the
/// contracts only ever compare whole tags.
#[verifier::opaque]
pub open spec fn str_units(s: &str) -> Seq<u16> {
    byte_units(s.spec_bytes())
}

/// The decimal digit character for `d` (0 through 9).
pub open spec fn digit_char(d: nat) -> char {
    if d == 0 {
        '0'
    } else if d == 1 {
        '1'
    } else if d == 2 {
        '2'
    } else if d == 3 {
        '3'
    } else if d == 4 {
        '4'
    } else if d == 5 {
        '5'
    } else if d == 6 {
        '6'
    } else if d == 7 {
        '7'
    } else if d == 8 {
        '8'
    } else {
        '9'
    }
}

/// The decimal rendering of `n`, most significant digit first.
pub open spec fn dec_chars(n: nat) -> Seq<char>
    decreases n,
{
    if n < 10 {
        seq![digit_char(n)]
    } else {
        dec_chars(n / 10) + seq![digit_char(n % 10)]
    }
}

/// The decimal rendering of `n` as 16-bit code units.
pub open spec fn dec_units(n: nat) -> Seq<u16>
    decreases n,
{
    if n < 10 {
        seq![(48 + n % 10) as u16]
    } else {
        dec_units(n / 10) + seq![(48 + n % 10) as u16]
    }
}

/// Appends the code units of `s`'s bytes to `v`.
pub fn push_str_units(v: &mut Vec<u16>, s: &str)
    ensures
        final(v)@ == old(v)@ + str_units(s),
{
    let bs = s.as_bytes();
    let n = bs.len();
    let mut i: usize = 0;
    while i < n
        invariant
            n == bs@.len(),
            bs@ == s.spec_bytes(),
            i <= n,
            v@ == old(v)@ + byte_units(bs@.take(i as int)),
        decreases n - i,
    {
        v.push(bs[i] as u16);
        i = i + 1;
        proof {
            assert(v@ =~= old(v)@ + byte_units(bs@.take(i as int)));
        }
    }
    proof {
        reveal(str_units);
        assert(bs@.take(n as int) =~= bs@);
    }
}

/// The code units of `s`'s bytes as a fresh buffer.
pub fn units_of_str(s: &str) -> (r: Vec<u16>)
    ensures
        r@ == str_units(s),
{
    let mut v: Vec<u16> = Vec::new();
    push_str_units(&mut v, s);
    proof {
        assert(v@ =~= str_units(s));
    }
    v
}

/// Appends the decimal rendering of `n` to `v` as code units.
pub fn push_dec_units(v: &mut Vec<u16>, n: u64)
    ensures
        final(v)@ == old(v)@ + dec_units(n as nat),
    decreases n,
{
    if n >= 10 {
        push_dec_units(v, n / 10);
    }
    v.push(48 + (n % 10) as u16);
    proof {
        assert(final(v)@ =~= old(v)@ + dec_units(n as nat));
    }
}

/// The decimal digit string for `d` (0 through 9).
pub fn digit_str(d: u64) -> (r: &'static str)
    requires
        d < 10,
    ensures
        r@ == seq![digit_char(d as nat)],
{
    proof {
        reveal_strlit("0");
        reveal_strlit("1");
        reveal_strlit("2");
        reveal_strlit("3");
        reveal_strlit("4");
        reveal_strlit("5");
        reveal_strlit("6");
        reveal_strlit("7");
        reveal_strlit("8");
        reveal_strlit("9");
    }
    match d {
        0 => "0",
        1 => "1",
        2 => "2",
        3 => "3",
        4 => "4",
        5 => "5",
        6 => "6",
        7 => "7",
        8 => "8",
        _ => "9",
    }
}

/// Appends the decimal rendering of `n` to `s`.
pub fn push_dec_chars(s: &mut String, n: u64)
    ensures
        final(s)@ == old(s)@ + dec_chars(n as nat),
    decreases n,
{
    if n >= 10 {
        push_dec_chars(s, n / 10);
    }
    s.append(digit_str(n % 10));
    proof {
        assert(final(s)@ =~= old(s)@ + dec_chars(n as nat));
    }
}

/// The characters that lenient UTF-16 decoding yields for a sequence of code
/// units: a function of the units alone.
pub uninterp spec fn utf16_lossy_of(units: Seq<u16>) -> Seq<char>;

/// Relies on String::from_utf16_lossy: decodes UTF-16 code units, replacing
/// ill-formed parts with the replacement character; a unit outside the
/// surrogate range is a character of the same code, so a surrogate-free
/// input maps unit for unit.
#[verifier::external_body]
pub fn utf16_lossy(units: &Vec<u16>) -> (r: String)
    ensures
        r@ == utf16_lossy_of(units@),
        (forall|i: int|
            0 <= i < units@.len() ==> !(0xD800 <= #[trigger] units@[i] < 0xE000)) ==> (r@.len()
            == units@.len() && (forall|i: int|
            0 <= i < units@.len() ==> #[trigger] r@[i] as u32 == units@[i] as u32)),
{
    String::from_utf16_lossy(units.as_slice())
}

} // verus!

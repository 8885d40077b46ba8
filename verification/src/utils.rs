use vstd::prelude::*;
use vstd::string::StringExecFns;

use crate::error::PipelineError;
use crate::strutil::{spec_dec_digits, spec_digit_char, u64_to_string};

verus! {

/// Relies on std::path's Path::exists: asks the filesystem whether `path`
/// names an existing entry. The answer depends on the state of the disk.
#[verifier::external_body]
fn path_exists(path: &str) -> bool {
    std::path::Path::new(path).exists()
}

/// Turns the answer of an existence probe into the run's verdict on its
/// input path: an existing path passes, a missing one is the
/// `InputPathNotFound` error.
pub fn classify_existence(exists: bool) -> (r: Result<(), PipelineError>)
    ensures
        r is Ok <==> exists,
        r matches Err(e) ==> e == PipelineError::InputPathNotFound,
{
    if exists {
        Ok(())
    } else {
        Err(PipelineError::InputPathNotFound)
    }
}

/// Checks that `path` exists on disk; a missing path is reported as
/// `InputPathNotFound`, the error that aborts a run before any traversal.
pub fn validate_path_exists(path: &str) -> (r: Result<(), PipelineError>)
    ensures
        r matches Err(e) ==> e == PipelineError::InputPathNotFound,
{
    classify_existence(path_exists(path))
}

/// The decimal rendering of `n`, with a leading '-' when negative.
pub open spec fn spec_i64_digits(n: int) -> Seq<char> {
    if n < 0 {
        seq!['-'] + spec_dec_digits((-n) as nat)
    } else {
        spec_dec_digits(n as nat)
    }
}

/// The suffix `s` of a digit string of total length `total`, with a comma
/// before every position where a group of three digits begins (positions
/// other than the very first whose distance to the end is a multiple of 3).
pub open spec fn spec_commas_suffix(s: Seq<char>, total: nat) -> Seq<char>
    decreases s.len(),
{
    if s.len() == 0 {
        Seq::empty()
    } else {
        (if s.len() < total && s.len() % 3 == 0 {
            seq![',']
        } else {
            Seq::<char>::empty()
        }) + seq![s.first()] + spec_commas_suffix(s.drop_first(), total)
    }
}

/// What `format_number` returns: the decimal rendering of `n`, grouped with
/// thousands separators once it is longer than three characters.
pub open spec fn spec_format_number(n: int) -> Seq<char> {
    let d = spec_i64_digits(n);
    if d.len() <= 3 {
        d
    } else {
        spec_commas_suffix(d, d.len())
    }
}

/// Adds thousands separators to make large numbers more readable.
pub fn format_number(n: i64) -> (r: String)
    ensures
        r@ == spec_format_number(n as int),
{
    let m: u64 = if n < 0 {
        (-(n as i128)) as u64
    } else {
        n as u64
    };
    let digits: String = if n < 0 {
        proof {
            reveal_strlit("-");
        }
        let mut t = String::from_str("-");
        let rest = u64_to_string(m);
        t.append(rest.as_str());
        t
    } else {
        u64_to_string(m)
    };
    proof {
        assert(digits@ =~= spec_i64_digits(n as int));
    }
    let len = digits.as_str().unicode_len();
    if len <= 3 {
        return digits;
    }
    let s = digits.as_str();
    let mut out = String::new();
    let mut i: usize = 0;
    proof {
        assert(s@.skip(0) =~= s@);
    }
    while i < len
        invariant
            i <= len,
            len == s@.len(),
            spec_commas_suffix(s@, len as nat) == out@ + spec_commas_suffix(
                s@.skip(i as int),
                len as nat,
            ),
        decreases len - i,
    {
        proof {
            assert(s@.skip(i as int).first() == s@[i as int]);
            assert(s@.skip(i as int).drop_first() =~= s@.skip(i as int + 1));
            assert(s@.skip(i as int).len() == len - i);
        }
        if i > 0 && (len - i) % 3 == 0 {
            push_comma(&mut out);
        }
        push_any(&mut out, s.get_char(i));
        i = i + 1;
    }
    proof {
        assert(s@.skip(len as int) =~= Seq::<char>::empty());
        assert(out@ =~= spec_commas_suffix(s@, len as nat));
    }
    out
}

fn push_comma(out: &mut String)
    ensures
        final(out)@ == old(out)@ + seq![','],
{
    crate::strutil::push_char(out, ',');
    proof {
        assert(out@ =~= old(out)@ + seq![',']);
    }
}

fn push_any(out: &mut String, c: char)
    ensures
        final(out)@ == old(out)@ + seq![c],
{
    crate::strutil::push_char(out, c);
    proof {
        assert(out@ =~= old(out)@ + seq![c]);
    }
}

/// 1024 raised to `e`, for the six supported size units.
pub open spec fn spec_pow1024(e: nat) -> nat {
    if e == 0 {
        1
    } else if e == 1 {
        0x400
    } else if e == 2 {
        0x100000
    } else if e == 3 {
        0x40000000
    } else if e == 4 {
        0x10000000000
    } else {
        0x4000000000000
    }
}

/// The unit exponent for a byte count: the largest power of 1024 that fits,
/// capped at the largest supported unit.
pub open spec fn spec_byte_exponent(bytes: nat) -> nat {
    if bytes < 0x400 {
        0
    } else if bytes < 0x100000 {
        1
    } else if bytes < 0x40000000 {
        2
    } else if bytes < 0x10000000000 {
        3
    } else if bytes < 0x4000000000000 {
        4
    } else {
        5
    }
}

pub open spec fn spec_unit_suffix(e: nat) -> Seq<char> {
    if e == 0 {
        " B"@
    } else if e == 1 {
        " KB"@
    } else if e == 2 {
        " MB"@
    } else if e == 3 {
        " GB"@
    } else if e == 4 {
        " TB"@
    } else {
        " PB"@
    }
}

/// `bytes / 1024^e` in tenths, rounded to the nearest tenth with ties going
/// to the even tenth.
pub open spec fn spec_size_tenths(bytes: nat, e: nat) -> nat {
    let num = bytes * 10;
    let den = spec_pow1024(e);
    let q = num / den;
    let r = num % den;
    if 2 * r > den {
        q + 1
    } else if 2 * r == den && q % 2 == 1 {
        q + 1
    } else {
        q
    }
}

/// What `format_bytes` returns: the raw count with " B" below one KB, and
/// otherwise the count scaled by the matching power of 1024 with one
/// decimal place and the unit's suffix.
pub open spec fn spec_format_bytes(bytes: nat) -> Seq<char> {
    let e = spec_byte_exponent(bytes);
    if e == 0 {
        spec_dec_digits(bytes) + spec_unit_suffix(0)
    } else {
        let t = spec_size_tenths(bytes, e);
        spec_dec_digits(t / 10) + seq!['.', spec_digit_char(t % 10)] + spec_unit_suffix(e)
    }
}

fn unit_suffix(e: u32) -> (r: &'static str)
    requires
        e <= 5,
    ensures
        r@ == spec_unit_suffix(e as nat),
{
    proof {
        reveal_strlit(" B");
        reveal_strlit(" KB");
        reveal_strlit(" MB");
        reveal_strlit(" GB");
        reveal_strlit(" TB");
        reveal_strlit(" PB");
    }
    match e {
        0 => " B",
        1 => " KB",
        2 => " MB",
        3 => " GB",
        4 => " TB",
        _ => " PB",
    }
}

fn pow1024(e: u32) -> (r: u64)
    requires
        e <= 5,
    ensures
        r as nat == spec_pow1024(e as nat),
{
    match e {
        0 => 1,
        1 => 0x400,
        2 => 0x100000,
        3 => 0x40000000,
        4 => 0x10000000000,
        _ => 0x4000000000000,
    }
}

/// Converts a byte count to a human-readable size such as "1.5 KB".
///
/// The scaled value is computed in tenths with exact integer arithmetic,
/// rounding ties to the even tenth.
pub fn format_bytes(bytes: usize) -> (r: String)
    ensures
        r@ == spec_format_bytes(bytes as nat),
{
    let b64: u64 = bytes as u64;
    let e: u32 = if b64 < 0x400 {
        0
    } else if b64 < 0x100000 {
        1
    } else if b64 < 0x40000000 {
        2
    } else if b64 < 0x10000000000 {
        3
    } else if b64 < 0x4000000000000 {
        4
    } else {
        5
    };
    if e == 0 {
        let mut s = u64_to_string(b64);
        s.append(unit_suffix(0));
        proof {
            assert(s@ =~= spec_format_bytes(bytes as nat));
        }
        return s;
    }
    let num: u128 = (b64 as u128) * 10;
    let den: u128 = pow1024(e) as u128;
    let q: u128 = num / den;
    let rem: u128 = num % den;
    proof {
        assert(q * den <= num) by (nonlinear_arith)
            requires
                den > 0,
                q == num / den,
        ;
        assert(q * 0x400 <= q * den) by (nonlinear_arith)
            requires
                den >= 0x400,
                q >= 0,
        ;
    }
    let t: u64 = if 2 * rem > den {
        (q + 1) as u64
    } else if 2 * rem == den && q % 2 == 1 {
        (q + 1) as u64
    } else {
        q as u64
    };
    proof {
        assert(t as nat == spec_size_tenths(bytes as nat, e as nat));
    }
    let mut s = u64_to_string(t / 10);
    push_any(&mut s, '.');
    s.append(crate::strutil::digit_str(t % 10));
    s.append(unit_suffix(e));
    proof {
        assert(s@ =~= spec_format_bytes(bytes as nat));
    }
    s
}

} // verus!

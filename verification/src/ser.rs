//! Serialization of JSON values to wire bytes.
//!
//! The rendering is canonical: no whitespace, integers in plain decimal,
//! strings with `"` and `\` escaped and every character outside the printable
//! ASCII range written as a `\uXXXX` escape (two escapes, a surrogate pair,
//! for characters beyond the basic plane). The output is therefore pure
//! ASCII, and each spec function below states the exact bytes.

use vstd::prelude::*;
use crate::json::{Json, JsonV, Member, json_view, seq_view, members_view, lemma_seq_view,
    lemma_members_view};

verus! {

broadcast use vstd::std_specs::vec::group_vec_axioms, vstd::seq::group_seq_axioms,
    vstd::utf8::char_is_scalar;

/// Decimal digits of `n`, most significant first.
pub open spec fn dec_digits(n: nat) -> Seq<u8>
    decreases n,
{
    if n < 10 {
        seq![(48 + n) as u8]
    } else {
        dec_digits(n / 10).push((48 + n % 10) as u8)
    }
}

/// Decimal rendering of an integer, with a leading minus sign when negative.
pub open spec fn ser_int(i: int) -> Seq<u8> {
    if i < 0 {
        seq![45u8] + dec_digits((-i) as nat)
    } else {
        dec_digits(i as nat)
    }
}

/// Lower-case hexadecimal digit for `0 <= n < 16`.
pub open spec fn hex_digit(n: int) -> u8 {
    if n < 10 {
        (48 + n) as u8
    } else {
        (87 + n) as u8
    }
}

/// Four hexadecimal digits of `0 <= n < 0x10000`, most significant first.
pub open spec fn hex4(n: int) -> Seq<u8> {
    seq![
        hex_digit((n / 0x1000) % 16),
        hex_digit((n / 0x100) % 16),
        hex_digit((n / 16) % 16),
        hex_digit(n % 16),
    ]
}

/// The escape `\uXXXX` for a code unit.
pub open spec fn unicode_escape(n: int) -> Seq<u8> {
    seq![92u8, 117u8] + hex4(n)
}

/// The bytes a character contributes inside a string literal.
pub open spec fn esc_char(c: char) -> Seq<u8> {
    let n = c as u32;
    if c == '"' {
        seq![92u8, 34u8]
    } else if c == '\\' {
        seq![92u8, 92u8]
    } else if 0x20 <= n && n <= 0x7E {
        seq![n as u8]
    } else if n < 0x10000 {
        unicode_escape(n as int)
    } else {
        unicode_escape(0xD800 + ((n - 0x10000) as int) / 0x400) + unicode_escape(
            0xDC00 + ((n - 0x10000) as int) % 0x400,
        )
    }
}

/// The escaped bytes of the characters of `s` from index `i` on.
pub open spec fn esc_str_from(s: Seq<char>, i: int) -> Seq<u8>
    decreases s.len() - i,
{
    if i < 0 || i >= s.len() {
        Seq::empty()
    } else {
        esc_char(s[i]) + esc_str_from(s, i + 1)
    }
}

/// A quoted, escaped string literal.
pub open spec fn quoted(s: Seq<char>) -> Seq<u8> {
    seq![34u8] + esc_str_from(s, 0) + seq![34u8]
}

/// A number's decimal text taken over byte-for-byte; characters outside
/// ASCII (which no number rendering contains) fall to `?`.
pub open spec fn raw_ascii(s: Seq<char>) -> Seq<u8> {
    Seq::new(s.len(), |i: int| if (s[i] as u32) < 128 {
        (s[i] as u32) as u8
    } else {
        63u8
    })
}

/// The canonical wire bytes of a JSON value.
pub open spec fn ser_json(v: JsonV) -> Seq<u8>
    decreases v, 0int,
    via ser_json_decreases
{
    match v {
        JsonV::Null => seq![110u8, 117u8, 108u8, 108u8],
        JsonV::Bool(b) => if b {
            seq![116u8, 114u8, 117u8, 101u8]
        } else {
            seq![102u8, 97u8, 108u8, 115u8, 101u8]
        },
        JsonV::Int(i) => ser_int(i),
        JsonV::NumStr(s) => raw_ascii(s),
        JsonV::Str(s) => quoted(s),
        JsonV::Arr(xs) => seq![91u8] + ser_elems_from(xs, 0) + seq![93u8],
        JsonV::Obj(ps) => seq![123u8] + ser_membs_from(ps, 0) + seq![125u8],
    }
}

#[via_fn]
proof fn ser_json_decreases(v: JsonV) {
    match v {
        JsonV::Arr(xs) => {
            assert(decreases_to!(v => xs));
        },
        JsonV::Obj(ps) => {
            assert(decreases_to!(v => ps));
        },
        _ => {},
    }
}

/// The comma-separated renderings of the elements of `xs` from index `i` on.
pub open spec fn ser_elems_from(xs: Seq<JsonV>, i: int) -> Seq<u8>
    decreases xs, xs.len() - i,
    via ser_elems_from_decreases
{
    if i < 0 || i >= xs.len() {
        Seq::empty()
    } else if i == xs.len() - 1 {
        ser_json(xs[i])
    } else {
        ser_json(xs[i]) + seq![44u8] + ser_elems_from(xs, i + 1)
    }
}

#[via_fn]
proof fn ser_elems_from_decreases(xs: Seq<JsonV>, i: int) {
    if 0 <= i < xs.len() {
        assert(decreases_to!(xs => xs[i]));
    }
}

/// The comma-separated `"key":value` renderings of the pairs of `ps` from
/// index `i` on.
pub open spec fn ser_membs_from(ps: Seq<(Seq<char>, JsonV)>, i: int) -> Seq<u8>
    decreases ps, ps.len() - i,
    via ser_membs_from_decreases
{
    if i < 0 || i >= ps.len() {
        Seq::empty()
    } else {
        let head = quoted(ps[i].0) + seq![58u8] + ser_json(ps[i].1);
        if i == ps.len() - 1 {
            head
        } else {
            head + seq![44u8] + ser_membs_from(ps, i + 1)
        }
    }
}

#[via_fn]
proof fn ser_membs_from_decreases(ps: Seq<(Seq<char>, JsonV)>, i: int) {
    if 0 <= i < ps.len() {
        assert(decreases_to!(ps => ps[i]));
        assert(decreases_to!(ps[i] => ps[i].1));
    }
}

/// Writes the decimal digits of `n`.
fn write_digits(n: u64, out: &mut Vec<u8>)
    ensures
        final(out)@ == old(out)@ + dec_digits(n as nat),
    decreases n,
{
    if n < 10 {
        out.push(48 + n as u8);
        proof {
            assert(out@ =~= old(out)@ + dec_digits(n as nat));
        }
    } else {
        write_digits(n / 10, out);
        out.push(48 + (n % 10) as u8);
        proof {
            assert(out@ =~= old(out)@ + dec_digits(n as nat));
        }
    }
}

/// Writes the decimal rendering of `i`.
fn write_i64(i: i64, out: &mut Vec<u8>)
    ensures
        final(out)@ == old(out)@ + ser_int(i as int),
{
    if i < 0 {
        out.push(45);
        let wide: i128 = i as i128;
        let m: u64 = (-wide) as u64;
        write_digits(m, out);
        proof {
            assert(m as nat == (-(i as int)) as nat);
            assert(out@ =~= old(out)@ + ser_int(i as int));
        }
    } else {
        write_digits(i as u64, out);
    }
}

/// Lower-case hexadecimal digit for `n < 16`.
fn hex_digit_of(n: u32) -> (r: u8)
    requires
        n < 16,
    ensures
        r == hex_digit(n as int),
{
    if n < 10 {
        (48 + n) as u8
    } else {
        (87 + n) as u8
    }
}

/// Writes four hexadecimal digits of a code unit.
fn write_hex4(n: u32, out: &mut Vec<u8>)
    requires
        n < 0x10000,
    ensures
        final(out)@ == old(out)@ + hex4(n as int),
{
    out.push(hex_digit_of((n / 0x1000) % 16));
    out.push(hex_digit_of((n / 0x100) % 16));
    out.push(hex_digit_of((n / 16) % 16));
    out.push(hex_digit_of(n % 16));
    proof {
        assert(out@ =~= old(out)@ + hex4(n as int));
    }
}

/// Writes the bytes a character contributes inside a string literal.
fn write_char(c: char, out: &mut Vec<u8>)
    ensures
        final(out)@ == old(out)@ + esc_char(c),
{
    if c == '"' {
        out.push(92);
        out.push(34);
        proof {
            assert(out@ =~= old(out)@ + esc_char(c));
        }
    } else if c == '\\' {
        out.push(92);
        out.push(92);
        proof {
            assert(out@ =~= old(out)@ + esc_char(c));
        }
    } else {
        let n = c as u32;
        if 0x20 <= n && n <= 0x7E {
            out.push(n as u8);
            proof {
                assert(out@ =~= old(out)@ + esc_char(c));
            }
        } else if n < 0x10000 {
            out.push(92);
            out.push(117);
            write_hex4(n, out);
            proof {
                assert(out@ =~= old(out)@ + esc_char(c));
            }
        } else {
            let hi: u32 = 0xD800 + (n - 0x10000) / 0x400;
            let lo: u32 = 0xDC00 + (n - 0x10000) % 0x400;
            out.push(92);
            out.push(117);
            write_hex4(hi, out);
            out.push(92);
            out.push(117);
            write_hex4(lo, out);
            proof {
                assert(out@ =~= old(out)@ + esc_char(c));
            }
        }
    }
}

/// Writes the escaped characters of `s` from index `i` on.
fn write_str_from(s: &str, i: usize, out: &mut Vec<u8>)
    ensures
        final(out)@ == old(out)@ + esc_str_from(s@, i as int),
    decreases s@.len() - i,
{
    let n = s.unicode_len();
    if i < n {
        write_char(s.get_char(i), out);
        write_str_from(s, i + 1, out);
        proof {
            assert(out@ =~= old(out)@ + esc_str_from(s@, i as int));
        }
    }
}

/// Writes a quoted, escaped string literal.
fn write_quoted(s: &str, out: &mut Vec<u8>)
    ensures
        final(out)@ == old(out)@ + quoted(s@),
{
    out.push(34);
    write_str_from(s, 0, out);
    out.push(34);
    proof {
        assert(out@ =~= old(out)@ + quoted(s@));
    }
}

/// Writes a number's decimal text byte for byte.
fn write_raw_ascii(s: &str, out: &mut Vec<u8>)
    ensures
        final(out)@ == old(out)@ + raw_ascii(s@),
{
    let n = s.unicode_len();
    for i in 0..n
        invariant
            n == s@.len(),
            out@ == old(out)@ + raw_ascii(s@).subrange(0, i as int),
    {
        let c = s.get_char(i);
        let w = c as u32;
        if w < 128 {
            out.push(w as u8);
        } else {
            out.push(63);
        }
        proof {
            assert(out@ =~= old(out)@ + raw_ascii(s@).subrange(0, i + 1));
        }
    }
    proof {
        assert(raw_ascii(s@).subrange(0, s@.len() as int) =~= raw_ascii(s@));
    }
}

/// Writes the canonical wire bytes of a JSON value.
pub fn write_json(j: &Json, out: &mut Vec<u8>)
    ensures
        final(out)@ == old(out)@ + ser_json(j@),
    decreases j, 0int,
{
    match j {
        Json::Null => {
            out.push(110);
            out.push(117);
            out.push(108);
            out.push(108);
            proof {
                assert(out@ =~= old(out)@ + ser_json(j@));
            }
        },
        Json::Bool(b) => {
            if *b {
                out.push(116);
                out.push(114);
                out.push(117);
                out.push(101);
            } else {
                out.push(102);
                out.push(97);
                out.push(108);
                out.push(115);
                out.push(101);
            }
            proof {
                assert(out@ =~= old(out)@ + ser_json(j@));
            }
        },
        Json::Int(i) => {
            write_i64(*i, out);
        },
        Json::NumStr(s) => {
            write_raw_ascii(s.as_str(), out);
        },
        Json::Str(s) => {
            write_quoted(s.as_str(), out);
        },
        Json::Arr(xs) => {
            out.push(91);
            write_elems_from(xs, 0, out);
            out.push(93);
            proof {
                assert(out@ =~= old(out)@ + ser_json(j@));
            }
        },
        Json::Obj(ps) => {
            out.push(123);
            write_membs_from(ps, 0, out);
            out.push(125);
            proof {
                assert(out@ =~= old(out)@ + ser_json(j@));
            }
        },
    }
}

/// Writes the comma-separated elements of an array from index `i` on.
fn write_elems_from(xs: &Vec<Json>, i: usize, out: &mut Vec<u8>)
    ensures
        final(out)@ == old(out)@ + ser_elems_from(seq_view(xs@), i as int),
    decreases xs, xs@.len() - i,
{
    proof {
        lemma_seq_view(xs@);
    }
    if i < xs.len() {
        proof {
            assert(decreases_to!(xs => xs@));
            assert(decreases_to!(xs@ => xs@[i as int]));
        }
        write_json(&xs[i], out);
        if i + 1 < xs.len() {
            out.push(44);
        }
        write_elems_from(xs, i + 1, out);
        proof {
            assert(out@ =~= old(out)@ + ser_elems_from(seq_view(xs@), i as int));
        }
    }
}

/// Writes the comma-separated `"key":value` pairs of an object from index
/// `i` on.
fn write_membs_from(ps: &Vec<Member>, i: usize, out: &mut Vec<u8>)
    ensures
        final(out)@ == old(out)@ + ser_membs_from(members_view(ps@), i as int),
    decreases ps, ps@.len() - i,
{
    proof {
        lemma_members_view(ps@);
    }
    if i < ps.len() {
        proof {
            assert(decreases_to!(ps => ps@));
            assert(decreases_to!(ps@ => ps@[i as int]));
            assert(decreases_to!(ps@[i as int] => ps@[i as int].value));
        }
        write_quoted(ps[i].key.as_str(), out);
        out.push(58);
        write_json(&ps[i].value, out);
        if i + 1 < ps.len() {
            out.push(44);
        }
        write_membs_from(ps, i + 1, out);
        proof {
            assert(out@ =~= old(out)@ + ser_membs_from(members_view(ps@), i as int));
        }
    }
}

/// The canonical wire bytes of a JSON value, as a fresh vector.
pub fn json_to_bytes(j: &Json) -> (r: Vec<u8>)
    ensures
        r@ == ser_json(j@),
{
    let mut out: Vec<u8> = Vec::new();
    write_json(j, &mut out);
    out
}

} // verus!

//! Rendering of numbers into text: decimal for pids and weights, and the
//! canonical lowercase hyphenated form of 128-bit identifiers.
//!
//! Job and owner identifiers are 128-bit values; every human string renders
//! them as 32 lowercase hexadecimal digits in groups of 8-4-4-4-12 separated
//! by hyphens.

use vstd::prelude::*;

verus! {

/// Relies on `String::push`: appends the character to the end of the string.
pub assume_specification[ String::push ](s: &mut String, ch: char)
    ensures
        final(s)@ == old(s)@.push(ch),
;

/// The decimal digit character for a value below ten.
pub open spec fn dec_digit(d: int) -> char {
    if d == 0 {
        '0'
    } else if d == 1 {
        '1'
    } else if d == 2 {
        '2'
    } else if d == 3 {
        '3'
    } else if d == 4 {
        '4'
    } else if d == 5 {
        '5'
    } else if d == 6 {
        '6'
    } else if d == 7 {
        '7'
    } else if d == 8 {
        '8'
    } else {
        '9'
    }
}

/// The lowercase hexadecimal digit character for a value below sixteen.
pub open spec fn hex_digit(d: int) -> char {
    if d < 10 {
        dec_digit(d)
    } else if d == 10 {
        'a'
    } else if d == 11 {
        'b'
    } else if d == 12 {
        'c'
    } else if d == 13 {
        'd'
    } else if d == 14 {
        'e'
    } else {
        'f'
    }
}

/// The decimal rendering of `n`, without leading zeroes (`0` renders as "0").
pub open spec fn dec_str(n: nat) -> Seq<char>
    decreases n,
{
    if n < 10 {
        seq![dec_digit(n as int)]
    } else {
        dec_str(n / 10).push(dec_digit((n % 10) as int))
    }
}

/// The hexadecimal rendering of the low `width` digits of `n`, zero-padded
/// to exactly `width` characters.
pub open spec fn hex_str(n: u128, width: nat) -> Seq<char>
    decreases width,
{
    if width == 0 {
        Seq::empty()
    } else {
        hex_str(n / 16, (width - 1) as nat).push(hex_digit((n % 16) as int))
    }
}

/// The canonical hyphenated lowercase form of a 128-bit identifier:
/// 32 hexadecimal digits in groups of 8-4-4-4-12.
pub open spec fn id_str(n: u128) -> Seq<char> {
    hex_str(n >> 96, 8) + seq!['-'] + hex_str((n >> 80) & 0xffff, 4) + seq!['-'] + hex_str(
        (n >> 64) & 0xffff,
        4,
    ) + seq!['-'] + hex_str((n >> 48) & 0xffff, 4) + seq!['-'] + hex_str(
        n & 0xffff_ffff_ffff,
        12,
    )
}

fn dec_char(d: u8) -> (c: char)
    requires
        d < 10,
    ensures
        c == dec_digit(d as int),
{
    match d {
        0 => '0',
        1 => '1',
        2 => '2',
        3 => '3',
        4 => '4',
        5 => '5',
        6 => '6',
        7 => '7',
        8 => '8',
        _ => '9',
    }
}

fn hex_char(d: u8) -> (c: char)
    requires
        d < 16,
    ensures
        c == hex_digit(d as int),
{
    if d < 10 {
        dec_char(d)
    } else {
        match d {
            10 => 'a',
            11 => 'b',
            12 => 'c',
            13 => 'd',
            14 => 'e',
            _ => 'f',
        }
    }
}

/// Every fixed-width hexadecimal rendering has exactly its width.
pub proof fn lemma_hex_str_len(n: u128, width: nat)
    ensures
        hex_str(n, width).len() == width,
    decreases width,
{
    if width > 0 {
        lemma_hex_str_len(n / 16, (width - 1) as nat);
    }
}

/// Appends the decimal rendering of `n` to `out`.
pub fn push_dec(n: u64, out: &mut String)
    ensures
        final(out)@ == old(out)@ + dec_str(n as nat),
    decreases n,
{
    if n >= 10 {
        push_dec(n / 10, out);
        out.push(dec_char((n % 10) as u8));
        proof {
            assert(out@ =~= old(out)@ + dec_str(n as nat));
        }
    } else {
        out.push(dec_char((n % 10) as u8));
        proof {
            assert(out@ =~= old(out)@ + dec_str(n as nat));
        }
    }
}

/// The decimal rendering of `n`.
pub fn dec_string(n: u64) -> (r: String)
    ensures
        r@ == dec_str(n as nat),
{
    let mut out = String::new();
    push_dec(n, &mut out);
    proof {
        assert(out@ =~= dec_str(n as nat));
    }
    out
}

/// Appends exactly `width` hexadecimal digits of `n` to `out`, zero-padded.
fn push_hex(n: u128, width: u32, out: &mut String)
    ensures
        final(out)@ == old(out)@ + hex_str(n, width as nat),
    decreases width,
{
    if width > 0 {
        push_hex(n / 16, width - 1, out);
        out.push(hex_char((n % 16) as u8));
        proof {
            assert(out@ =~= old(out)@ + hex_str(n, width as nat));
        }
    } else {
        proof {
            assert(old(out)@ + hex_str(n, 0) =~= old(out)@);
        }
    }
}

/// The canonical hyphenated lowercase form of a 128-bit identifier.
pub fn id_string(n: u128) -> (r: String)
    ensures
        r@ == id_str(n),
{
    let mut out = String::new();
    push_hex(n >> 96, 8, &mut out);
    out.push('-');
    push_hex((n >> 80) & 0xffff, 4, &mut out);
    out.push('-');
    push_hex((n >> 64) & 0xffff, 4, &mut out);
    out.push('-');
    push_hex((n >> 48) & 0xffff, 4, &mut out);
    out.push('-');
    push_hex(n & 0xffff_ffff_ffff, 12, &mut out);
    proof {
        lemma_hex_str_len(n >> 96, 8);
        lemma_hex_str_len((n >> 80) & 0xffff, 4);
        lemma_hex_str_len((n >> 64) & 0xffff, 4);
        lemma_hex_str_len((n >> 48) & 0xffff, 4);
        lemma_hex_str_len(n & 0xffff_ffff_ffff, 12);
        assert(out@ =~= id_str(n));
    }
    out
}

} // verus!

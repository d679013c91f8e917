//! Human-readable formatting of durations and truncation of long strings.

use vstd::prelude::*;

use crate::utils::text::{chars_of, dec, owned, push_char, push_dec, push_str};

verus! {

/// Text of a duration in seconds: `Ns`, `Nm Ns`, `Nh Nm` or `Nd Nh`.
pub open spec fn format_duration_spec(s: nat) -> Seq<char> {
    if s < 60 {
        dec(s) + "s"@
    } else if s < 3600 {
        dec(s / 60) + "m "@ + dec(s % 60) + "s"@
    } else if s < 86400 {
        dec(s / 3600) + "h "@ + dec((s % 3600) / 60) + "m"@
    } else {
        dec(s / 86400) + "d "@ + dec((s % 86400) / 3600) + "h"@
    }
}

pub fn format_duration(seconds: u64) -> (r: String)
    ensures
        r@ == format_duration_spec(seconds as nat),
{
    let mut out = String::new();
    if seconds < 60 {
        push_dec(&mut out, seconds);
        push_str(&mut out, "s");
    } else if seconds < 3600 {
        push_dec(&mut out, seconds / 60);
        push_str(&mut out, "m ");
        push_dec(&mut out, seconds % 60);
        push_str(&mut out, "s");
    } else if seconds < 86400 {
        push_dec(&mut out, seconds / 3600);
        push_str(&mut out, "h ");
        push_dec(&mut out, (seconds % 3600) / 60);
        push_str(&mut out, "m");
    } else {
        push_dec(&mut out, seconds / 86400);
        push_str(&mut out, "d ");
        push_dec(&mut out, (seconds % 86400) / 3600);
        push_str(&mut out, "h");
    }
    proof {
        assert(out@ =~= format_duration_spec(seconds as nat));
    }
    out
}

/// Number of bytes of a character in UTF-8.
pub open spec fn utf8_len(c: char) -> nat {
    if (c as u32) < 0x80 {
        1
    } else if (c as u32) < 0x800 {
        2
    } else if (c as u32) < 0x10000 {
        3
    } else {
        4
    }
}

/// Number of bytes of a character sequence in UTF-8 (what `str::len` returns).
pub open spec fn utf8_size(s: Seq<char>) -> nat
    decreases s.len(),
{
    if s.len() == 0 {
        0
    } else {
        utf8_size(s.drop_last()) + utf8_len(s.last())
    }
}

/// Number of leading characters whose UTF-8 encoding fits in `budget` bytes,
/// i.e. the last character boundary at or before byte `budget`.
pub open spec fn fit_prefix(s: Seq<char>, budget: nat) -> nat
    decreases s.len(),
{
    if s.len() == 0 || utf8_len(s[0]) > budget {
        0
    } else {
        1 + fit_prefix(s.drop_first(), (budget - utf8_len(s[0])) as nat)
    }
}

/// Result of `truncate_string`: unchanged when it fits in `max_len` bytes;
/// otherwise cut at the last character boundary at or before byte
/// `max_len - 3` (saturating) and followed by `...`.
pub open spec fn truncate_spec(s: Seq<char>, max_len: nat) -> Seq<char> {
    if utf8_size(s) <= max_len {
        s
    } else {
        let budget: nat = if max_len >= 3 {
            (max_len - 3) as nat
        } else {
            0
        };
        s.take(fit_prefix(s, budget) as int) + "..."@
    }
}

fn utf8_len_exec(c: char) -> (r: usize)
    ensures
        r == utf8_len(c),
{
    let u = c as u32;
    if u < 0x80 {
        1
    } else if u < 0x800 {
        2
    } else if u < 0x10000 {
        3
    } else {
        4
    }
}

proof fn lemma_utf8_size_push(s: Seq<char>, c: char)
    ensures
        utf8_size(s.push(c)) == utf8_size(s) + utf8_len(c),
{
    assert(s.push(c).drop_last() =~= s);
}

proof fn lemma_fit_prefix_step(s: Seq<char>, i: int, budget: nat)
    requires
        0 <= i < s.len(),
    ensures
        s.skip(i).drop_first() == s.skip(i + 1),
        s.skip(i)[0] == s[i],
{
    assert(s.skip(i).drop_first() =~= s.skip(i + 1));
}

/// Truncates `s` to at most `max_len` bytes, cutting only at a character
/// boundary and ending with `...`; strings that fit are returned unchanged.
pub fn truncate_string(s: &str, max_len: usize) -> (r: String)
    ensures
        r@ == truncate_spec(s@, max_len as nat),
{
    let v = chars_of(s);
    // total size in bytes, saturated just above max_len
    let mut total: usize = 0;
    let mut i: usize = 0;
    let mut over = false;
    while i < v.len()
        invariant
            v@ == s@,
            i <= v.len(),
            !over ==> total == utf8_size(v@.take(i as int)) && total <= max_len,
            over ==> utf8_size(v@.take(i as int)) > max_len,
        decreases v.len() - i,
    {
        let l = utf8_len_exec(v[i]);
        proof {
            assert(v@.take(i as int + 1) =~= v@.take(i as int).push(v@[i as int]));
            lemma_utf8_size_push(v@.take(i as int), v@[i as int]);
        }
        if !over {
            if l > max_len - total {
                over = true;
            } else {
                total = total + l;
            }
        }
        i = i + 1;
    }
    proof {
        assert(v@.take(v.len() as int) =~= s@);
    }
    if !over {
        return String::from_str(s);
    }
    let budget: usize = if max_len >= 3 {
        max_len - 3
    } else {
        0
    };
    let mut out = String::new();
    let mut k: usize = 0;
    let mut left: usize = budget;
    proof {
        assert(v@.skip(0) =~= v@);
    }
    while k < v.len() && utf8_len_exec(v[k]) <= left
        invariant
            v@ == s@,
            k <= v.len(),
            left <= budget,
            out@ == v@.take(k as int),
            fit_prefix(s@, budget as nat) == k + fit_prefix(v@.skip(k as int), left as nat),
        decreases v.len() - k,
    {
        proof {
            lemma_fit_prefix_step(v@, k as int, left as nat);
            assert(v@.take(k as int + 1) =~= v@.take(k as int).push(v@[k as int]));
        }
        left = left - utf8_len_exec(v[k]);
        push_char(&mut out, v[k]);
        k = k + 1;
    }
    proof {
        if k < v.len() {
            assert(v@.skip(k as int)[0] == v@[k as int]);
        }
        assert(fit_prefix(v@.skip(k as int), left as nat) == 0);
    }
    push_str(&mut out, "...");
    out
}


/// Whether the UTF-8 encoding of the characters is longer than `max`
/// bytes.
pub fn utf8_longer_than(v: &Vec<char>, max: usize) -> (r: bool)
    ensures
        r == (utf8_size(v@) > max),
{
    let mut total: usize = 0;
    let mut i: usize = 0;
    let mut over = false;
    while i < v.len()
        invariant
            i <= v.len(),
            !over ==> total == utf8_size(v@.take(i as int)) && total <= max,
            over ==> utf8_size(v@.take(i as int)) > max,
        decreases v.len() - i,
    {
        let l = utf8_len_exec(v[i]);
        proof {
            assert(v@.take(i as int + 1) =~= v@.take(i as int).push(v@[i as int]));
            lemma_utf8_size_push(v@.take(i as int), v@[i as int]);
        }
        if !over {
            if l > max - total {
                over = true;
            } else {
                total = total + l;
            }
        }
        i = i + 1;
    }
    proof {
        assert(v@.take(v.len() as int) =~= v@);
    }
    over
}


/// `b` rounded to a multiple of `p` (a power of two), halves to the even
/// multiple.
pub open spec fn round_to(b: nat, p: nat) -> nat {
    let q = b / p;
    let r = b % p;
    if 2 * r > p || (2 * r == p && q % 2 == 1) {
        ((q + 1) * p) as nat
    } else {
        (q * p) as nat
    }
}

/// The value of an integer below 2^64 as a double: exact below 2^53,
/// above that rounded to 53 significant bits, ties to even.
pub open spec fn double_of(b: nat) -> nat {
    if b < 0x20_0000_0000_0000 {
        b
    } else if b < 0x40_0000_0000_0000 {
        round_to(b, 2)
    } else if b < 0x80_0000_0000_0000 {
        round_to(b, 4)
    } else if b < 0x100_0000_0000_0000 {
        round_to(b, 8)
    } else if b < 0x200_0000_0000_0000 {
        round_to(b, 16)
    } else if b < 0x400_0000_0000_0000 {
        round_to(b, 32)
    } else if b < 0x800_0000_0000_0000 {
        round_to(b, 64)
    } else if b < 0x1000_0000_0000_0000 {
        round_to(b, 128)
    } else if b < 0x2000_0000_0000_0000 {
        round_to(b, 256)
    } else if b < 0x4000_0000_0000_0000 {
        round_to(b, 512)
    } else if b < 0x8000_0000_0000_0000 {
        round_to(b, 1024)
    } else {
        round_to(b, 2048)
    }
}

/// The unit of a byte count: its divisor and name, the largest of B, KB,
/// MB, GB, TB (powers of 1024) that the count reaches.
pub open spec fn byte_unit(v: nat) -> (nat, Seq<char>) {
    if v >= 0x100_0000_0000 {
        (0x100_0000_0000, "TB"@)
    } else if v >= 0x4000_0000 {
        (0x4000_0000, "GB"@)
    } else if v >= 0x10_0000 {
        (0x10_0000, "MB"@)
    } else if v >= 1024 {
        (1024, "KB"@)
    } else {
        (1, "B"@)
    }
}

/// `v / d` in tenths, rounded to nearest, halves to even.
pub open spec fn tenths(v: nat, d: nat) -> nat {
    let q = v * 10 / d;
    let r = v * 10 % d;
    if 2 * r > d || (2 * r == d && q % 2 == 1) {
        q + 1
    } else {
        q
    }
}

/// Text of a byte count in the largest unit it reaches, with one decimal:
/// the count is taken as a double, divided by the unit, and rounded to
/// tenths with halves to even.
pub open spec fn format_bytes_spec(b: nat) -> Seq<char> {
    if b == 0 {
        "0 B"@
    } else {
        let v = double_of(b);
        let t = tenths(v, byte_unit(v).0);
        dec(t / 10) + "."@ + dec(t % 10) + " "@ + byte_unit(v).1
    }
}

fn round_exec(b: u128, p: u128) -> (r: u128)
    requires
        0 < p <= 2048,
        b < 0x1_0000_0000_0000_0000,
    ensures
        r == round_to(b as nat, p as nat),
        r <= b + p,
{
    let q = b / p;
    let rem = b % p;
    assert(q * p + rem == b) by (nonlinear_arith)
        requires
            q == b / p,
            rem == b % p,
            p > 0,
    ;
    if 2 * rem > p || (2 * rem == p && q % 2 == 1) {
        assert((q + 1) * p == q * p + p) by (nonlinear_arith);
        (q + 1) * p
    } else {
        q * p
    }
}

fn double_exec(b: u64) -> (r: u128)
    ensures
        r == double_of(b as nat),
        r <= 0x1_0000_0000_0000_0800,
{
    let w = b as u128;
    if b < 0x20_0000_0000_0000 {
        return w;
    }
    let p: u128 = if b < 0x40_0000_0000_0000 {
        2
    } else if b < 0x80_0000_0000_0000 {
        4
    } else if b < 0x100_0000_0000_0000 {
        8
    } else if b < 0x200_0000_0000_0000 {
        16
    } else if b < 0x400_0000_0000_0000 {
        32
    } else if b < 0x800_0000_0000_0000 {
        64
    } else if b < 0x1000_0000_0000_0000 {
        128
    } else if b < 0x2000_0000_0000_0000 {
        256
    } else if b < 0x4000_0000_0000_0000 {
        512
    } else if b < 0x8000_0000_0000_0000 {
        1024
    } else {
        2048
    };
    round_exec(w, p)
}

fn tenths_exec(v: u128, d: u128) -> (t: u128)
    requires
        d == 1 || d == 1024 || d == 0x10_0000 || d == 0x4000_0000 || d == 0x100_0000_0000,
        v <= 0x1_0000_0000_0000_0800,
        v < 1024 * d || d == 0x100_0000_0000,
    ensures
        t == tenths(v as nat, d as nat),
        t <= 0x1000_0000,
{
    let q = v * 10 / d;
    let rem = v * 10 % d;
    assert(q < 0x1000_0000) by {
        if d == 1 {
        } else if d == 1024 {
        } else if d == 0x10_0000 {
        } else if d == 0x4000_0000 {
        } else {
        }
    }
    if 2 * rem > d || (2 * rem == d && q % 2 == 1) {
        q + 1
    } else {
        q
    }
}

/// Human-readable size of a byte count: one decimal and the largest unit
/// of B, KB, MB, GB, TB that it reaches, as the count formats when taken
/// as a double (`0 B` for zero).
pub fn format_bytes(bytes: u64) -> (r: String)
    ensures
        r@ == format_bytes_spec(bytes as nat),
{
    if bytes == 0 {
        return owned("0 B");
    }
    let v = double_exec(bytes);
    let (d, unit): (u128, &str) = if v >= 0x100_0000_0000 {
        (0x100_0000_0000, "TB")
    } else if v >= 0x4000_0000 {
        (0x4000_0000, "GB")
    } else if v >= 0x10_0000 {
        (0x10_0000, "MB")
    } else if v >= 1024 {
        (1024, "KB")
    } else {
        (1, "B")
    };
    assert(byte_unit(v as nat).0 == d && byte_unit(v as nat).1 == unit@);
    let t = tenths_exec(v, d);
    let mut out = String::new();
    push_dec(&mut out, (t / 10) as u64);
    push_str(&mut out, ".");
    push_dec(&mut out, (t % 10) as u64);
    push_str(&mut out, " ");
    push_str(&mut out, unit);
    out
}

} // verus!

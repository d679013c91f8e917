//! Kubernetes resource Quantity strings to numbers: memory to bytes.

use vstd::prelude::*;

use crate::utils::text::{parse_i64, parse_i64_vec, string_of, trim, trim_end_char, trim_str};

verus! {

/// The characters of `s` other than `i`.
pub open spec fn drop_i(s: Seq<char>) -> Seq<char>
    decreases s.len(),
{
    if s.len() == 0 {
        s
    } else if s.last() == 'i' {
        drop_i(s.drop_last())
    } else {
        drop_i(s.drop_last()).push(s.last())
    }
}

/// Multiplier of a binary-suffix letter.
pub open spec fn unit_of(c: char) -> i64 {
    if c == 'K' {
        1024i64
    } else if c == 'M' {
        1048576i64
    } else if c == 'G' {
        1073741824i64
    } else if c == 'T' {
        1099511627776i64
    } else if c == 'P' {
        1125899906842624i64
    } else {
        0i64
    }
}

pub open spec fn is_unit_letter(c: char) -> bool {
    c == 'K' || c == 'M' || c == 'G' || c == 'T' || c == 'P'
}

/// Result of `parse_memory_str`: the trimmed text with every `i` removed;
/// a trailing unit letter (K, M, G, T, P) and its repeats are stripped and
/// the rest parsed as an `i64` and multiplied by the unit, `None` where the
/// product does not fit in an `i64`; with no unit letter the whole text is
/// parsed as an `i64`.
pub open spec fn parse_memory_spec(s: Seq<char>) -> Option<i64> {
    let t = trim(s);
    if t.len() == 0 {
        None
    } else {
        let u = drop_i(t);
        if u.len() > 0 && is_unit_letter(u.last()) {
            match parse_i64(trim_end_char(u, u.last())) {
                Some(n) => {
                    let p = n * unit_of(u.last());
                    if i64::MIN <= p <= i64::MAX {
                        Some(p as i64)
                    } else {
                        None
                    }
                },
                None => None,
            }
        } else {
            parse_i64(u)
        }
    }
}

/// Parse memory quantity string (e.g. "256Mi", "1Gi") to bytes.
pub fn parse_memory_str(s: &str) -> (r: Option<i64>)
    ensures
        r == parse_memory_spec(s@),
{
    let t = trim_str(s);
    if t.len() == 0 {
        return None;
    }
    // remove every 'i'
    let mut u: Vec<char> = Vec::new();
    let mut i: usize = 0;
    while i < t.len()
        invariant
            i <= t.len(),
            u@ == drop_i(t@.take(i as int)),
        decreases t.len() - i,
    {
        proof {
            assert(t@.take(i as int + 1).drop_last() =~= t@.take(i as int));
        }
        if t[i] != 'i' {
            u.push(t[i]);
        }
        i = i + 1;
    }
    proof {
        assert(t@.take(t.len() as int) =~= t@);
    }
    if u.len() > 0 {
        let c = u[u.len() - 1];
        if c == 'K' || c == 'M' || c == 'G' || c == 'T' || c == 'P' {
            let unit: i64 = if c == 'K' {
                1024
            } else if c == 'M' {
                1024 * 1024
            } else if c == 'G' {
                1024 * 1024 * 1024
            } else if c == 'T' {
                1024 * 1024 * 1024 * 1024
            } else {
                1024 * 1024 * 1024 * 1024 * 1024
            };
            let mut j: usize = u.len();
            proof {
                assert(u@.take(j as int) =~= u@);
            }
            while j > 0 && u[j - 1] == c
                invariant
                    j <= u.len(),
                    trim_end_char(u@, c) == trim_end_char(u@.take(j as int), c),
                decreases j,
            {
                proof {
                    assert(u@.take(j as int).drop_last() =~= u@.take(j - 1));
                }
                j = j - 1;
            }
            let mut num: Vec<char> = Vec::new();
            let mut k: usize = 0;
            while k < j
                invariant
                    k <= j <= u.len(),
                    num@ == u@.take(k as int),
                decreases j - k,
            {
                num.push(u[k]);
                proof {
                    assert(u@.take(k as int + 1) =~= u@.take(k as int).push(u@[k as int]));
                }
                k = k + 1;
            }
            proof {
                assert(trim_end_char(u@.take(j as int), c) == u@.take(j as int));
            }
            return match parse_i64_vec(&num) {
                Some(n) => n.checked_mul(unit),
                None => None,
            };
        }
    }
    parse_i64_vec(&u)
}


/// A CPU quantity as read before any floating-point step: nothing, a
/// whole number of millicores (`500m`), or the trimmed text of a number of
/// cores, fractions allowed, for a floating-point reading.
#[derive(Debug, Clone)]
pub enum CpuQuantity {
    Empty,
    Millicores(i64),
    Cores(String),
}

/// Reads a CPU quantity: after trimming, empty text is nothing; text that
/// ends in `m` with an `i64` before it is that many millicores; any other
/// text is left to be read as cores.
pub fn read_cpu_quantity(s: &str) -> (r: CpuQuantity)
    ensures
        ({
            let t = trim(s@);
            if t.len() == 0 {
                r is Empty
            } else if t.last() == 'm' && parse_i64(t.drop_last()) is Some {
                r == CpuQuantity::Millicores(parse_i64(t.drop_last())->0)
            } else {
                r matches CpuQuantity::Cores(c) && c@ == t
            }
        }),
{
    let t = trim_str(s);
    if t.len() == 0 {
        return CpuQuantity::Empty;
    }
    if t[t.len() - 1] == 'm' {
        let mut head: Vec<char> = Vec::new();
        let mut k: usize = 0;
        while k < t.len() - 1
            invariant
                k <= t.len() - 1,
                t.len() > 0,
                head@ == t@.take(k as int),
            decreases t.len() - 1 - k,
        {
            head.push(t[k]);
            proof {
                assert(t@.take(k as int + 1) =~= t@.take(k as int).push(t@[k as int]));
            }
            k = k + 1;
        }
        proof {
            assert(head@ =~= t@.drop_last());
        }
        match parse_i64_vec(&head) {
            Some(n) => return CpuQuantity::Millicores(n),
            None => {},
        }
    }
    CpuQuantity::Cores(string_of(&t))
}

} // verus!

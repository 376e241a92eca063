//! Display-value conversions for normalized items: the comma-grouped size
//! quirk ("1,015 KB" becomes "1.01 MB"), a size-string-to-byte-count reading,
//! shortened download counts, and URL protocol defaulting.

use vstd::prelude::*;

use crate::strutil::{
    all_digits, dec_of, dec_val, digit_val, digits_only, filter_digits, find_char, first_idx,
    lower_char, lower_seq, starts_with_str, str_eq, to_lower, u64_to_dec,
};

verus! {

/// The unit one step above `u` (lower case), for the comma-grouped size quirk.
pub open spec fn next_unit(u: Seq<char>) -> Seq<char> {
    if u == "b"@ {
        "kB"@
    } else if u == "kb"@ {
        "MB"@
    } else if u == "mb"@ {
        "GB"@
    } else if u == "gb"@ {
        "TB"@
    } else {
        "??"@
    }
}

/// A size string with a comma-grouped number, such as "1,015 KB", reread as
/// the next larger unit with two-decimal precision, "1.01 MB"; any other
/// string is unchanged.
pub open spec fn normalized_size(s: Seq<char>) -> Seq<char> {
    let i = first_idx(s, ',');
    if i < 0 {
        s
    } else {
        let x = s.take(i);
        let y = s.skip(i + 1);
        let j = first_idx(y, ' ');
        if j < 0 {
            s
        } else {
            let frac = y.take(j);
            let unit = y.skip(j + 1);
            let f2 = if frac.len() >= 2 {
                frac.take(2)
            } else {
                "00"@
            };
            x + "."@ + f2 + " "@ + next_unit(lower_seq(unit))
        }
    }
}

/// Applies the comma-grouped size normalization.
pub fn normalize_size(size: &str) -> (r: String)
    ensures
        r@ == normalized_size(size@),
{
    let i = match find_char(size, ',') {
        Option::None => {
            return size.to_owned();
        },
        Option::Some(i) => i,
    };
    let n = size.unicode_len();
    let x = size.substring_char(0, i);
    let y = size.substring_char(i + 1, n);
    proof {
        assert(x@ =~= size@.take(i as int));
        assert(y@ =~= size@.skip(i + 1));
    }
    let j = match find_char(y, ' ') {
        Option::None => {
            return size.to_owned();
        },
        Option::Some(j) => j,
    };
    let yn = y.unicode_len();
    let frac = y.substring_char(0, j);
    let unit = y.substring_char(j + 1, yn);
    proof {
        assert(frac@ =~= y@.take(j as int));
        assert(unit@ =~= y@.skip(j + 1));
    }
    let f2: String = if frac.unicode_len() >= 2 {
        let h = frac.substring_char(0, 2);
        proof {
            assert(h@ =~= frac@.take(2));
        }
        h.to_owned()
    } else {
        String::from_str("00")
    };
    let lu = to_lower(unit);
    let nu: &str = if str_eq(lu.as_str(), "b") {
        "kB"
    } else if str_eq(lu.as_str(), "kb") {
        "MB"
    } else if str_eq(lu.as_str(), "mb") {
        "GB"
    } else if str_eq(lu.as_str(), "gb") {
        "TB"
    } else {
        "??"
    };
    let mut r = x.to_owned();
    r.append(".");
    r.append(f2.as_str());
    r.append(" ");
    r.append(nu);
    r
}

/// Byte multiplier for a size unit, by its (lowered) first letter.
pub open spec fn unit_mult(c: char) -> int {
    if c == 't' {
        0x10000000000
    } else if c == 'g' {
        0x40000000
    } else if c == 'm' {
        0x100000
    } else if c == 'k' {
        0x400
    } else {
        1
    }
}

/// The byte count read from a display size string such as "1.01 MB":
/// the number (two decimals kept) times the unit's power of 1024,
/// clamped to `usize::MAX`; 0 where no number can be read.
pub open spec fn bytes_of(s: Seq<char>) -> int {
    let sp = first_idx(s, ' ');
    if sp < 0 {
        0
    } else {
        let num = s.take(sp);
        let unit = s.skip(sp + 1);
        let m = if unit.len() == 0 {
            1
        } else {
            unit_mult(lower_char(unit[0]))
        };
        let dot = first_idx(num, '.');
        let ip = if dot < 0 {
            num
        } else {
            num.take(dot)
        };
        let fp = if dot < 0 {
            Seq::<char>::empty()
        } else {
            num.skip(dot + 1)
        };
        if !(ip.len() > 0 && all_digits(ip) && dec_val(ip) <= u64::MAX) {
            0
        } else {
            let f2 = if fp.len() >= 2 {
                fp.take(2)
            } else {
                fp
            };
            let fv = if f2.len() > 0 && all_digits(f2) && dec_val(f2) <= u64::MAX {
                if f2.len() == 2 {
                    dec_val(f2)
                } else {
                    dec_val(f2) * 10
                }
            } else {
                0
            };
            let b = (dec_val(ip) * 100 + fv) * m / 100;
            if b > usize::MAX {
                usize::MAX as int
            } else {
                b
            }
        }
    }
}

/// Reads a display size string back into bytes.
pub fn to_bytes(size: &str) -> (r: usize)
    ensures
        r == bytes_of(size@),
{
    let sp = match find_char(size, ' ') {
        Option::None => {
            return 0;
        },
        Option::Some(i) => i,
    };
    let n = size.unicode_len();
    let num = size.substring_char(0, sp);
    let unit = size.substring_char(sp + 1, n);
    proof {
        assert(num@ =~= size@.take(sp as int));
        assert(unit@ =~= size@.skip(sp + 1));
    }
    let m: u64 = if unit.unicode_len() == 0 {
        1
    } else {
        let c0 = unit.get_char(0);
        let v: u32 = c0 as u32;
        let lc: char = if 65 <= v && v <= 90 {
            ((v + 32) as u8) as char
        } else {
            c0
        };
        if lc == 't' {
            0x10000000000
        } else if lc == 'g' {
            0x40000000
        } else if lc == 'm' {
            0x100000
        } else if lc == 'k' {
            0x400
        } else {
            1
        }
    };
    proof {
        assert(unit@.len() > 0 ==> m == unit_mult(lower_char(unit@[0])));
    }
    let nn = num.unicode_len();
    let (ip, fp): (&str, &str) = match find_char(num, '.') {
        Option::None => (num, ""),
        Option::Some(d) => (num.substring_char(0, d), num.substring_char(d + 1, nn)),
    };
    proof {
        reveal_strlit("");
        if first_idx(num@, '.') < 0 {
            assert(ip@ =~= num@);
            assert(fp@ =~= Seq::<char>::empty());
        } else {
            assert(ip@ =~= num@.take(first_idx(num@, '.')));
            assert(fp@ =~= num@.skip(first_idx(num@, '.') + 1));
        }
    }
    let iv: u64 = match crate::strutil::parse_u64(ip) {
        Option::None => {
            return 0;
        },
        Option::Some(v) => v,
    };
    let f2: &str = if fp.unicode_len() >= 2 {
        let h = fp.substring_char(0, 2);
        proof {
            assert(h@ =~= fp@.take(2));
        }
        h
    } else {
        fp
    };
    proof {
        assert(f2@.len() <= 2);
    }
    let fv: u64 = match crate::strutil::parse_u64(f2) {
        Option::None => 0,
        Option::Some(v) => {
            proof {
                lemma_dec_val_small(f2@);
            }
            if f2.unicode_len() == 2 {
                v
            } else {
                v * 10
            }
        },
    };
    proof {
        assert(0 <= (iv as int * 100 + fv as int) * (m as int) <= u128::MAX) by (nonlinear_arith)
            requires
                0 <= iv as int <= u64::MAX,
                0 <= fv as int <= 99,
                0 <= m as int <= 0x10000000000,
        ;
    }
    let big: u128 = ((iv as u128) * 100 + (fv as u128)) * (m as u128) / 100;
    if big > usize::MAX as u128 {
        usize::MAX
    } else {
        big as usize
    }
}

/// A digit string of at most two places values at most 99.
proof fn lemma_dec_val_small(s: Seq<char>)
    requires
        all_digits(s),
        s.len() <= 2,
    ensures
        0 <= dec_val(s) <= 99,
        s.len() <= 1 ==> dec_val(s) <= 9,
{
    reveal_with_fuel(dec_val, 4);
    if s.len() > 0 {
        let d = s.drop_last();
        assert(all_digits(d));
        if d.len() > 0 {
            assert(d.drop_last() =~= Seq::<char>::empty());
            assert(dec_val(d.drop_last()) == 0);
            assert(0 <= digit_val(d.last()) <= 9);
            assert(dec_val(d) <= 9);
        }
        assert(0 <= digit_val(s.last()) <= 9);
    }
}

/// A download count shortened for display: counts of 10000 and above show
/// as thousands with a "K" suffix.
pub open spec fn shortened(n: u32) -> Seq<char> {
    if n >= 10000 {
        dec_of((n / 1000) as nat) + "K"@
    } else {
        dec_of(n as nat)
    }
}

/// Shortens a count for display.
pub fn shorten_number(n: u32) -> (r: String)
    ensures
        r@ == shortened(n),
{
    if n >= 10000 {
        u64_to_dec((n / 1000) as u64).concat("K")
    } else {
        u64_to_dec(n as u64)
    }
}

/// `u` with a protocol prepended where it names none.
pub open spec fn with_protocol(u: Seq<char>, default_https: bool) -> Seq<char> {
    if (u.len() >= 7 && u.take(7) == "http://"@) || (u.len() >= 8 && u.take(8) == "https://"@) {
        u
    } else if default_https {
        "https://"@ + u
    } else {
        "http://"@ + u
    }
}

/// Prepends "https://" (or "http://") where the URL names no protocol.
pub fn add_protocol(url: String, default_https: bool) -> (r: String)
    ensures
        r@ == with_protocol(url@, default_https),
{
    proof {
        reveal_strlit("http://");
        reveal_strlit("https://");
    }
    if starts_with_str(url.as_str(), "http://") || starts_with_str(url.as_str(), "https://") {
        url
    } else if default_https {
        String::from_str("https://").concat(url.as_str())
    } else {
        String::from_str("http://").concat(url.as_str())
    }
}

/// The digits of `s` read as a count, 0 where they make none.
pub open spec fn digit_count_of(s: Seq<char>) -> int {
    let d = filter_digits(s);
    if d.len() > 0 && dec_val(d) <= u32::MAX {
        dec_val(d)
    } else {
        0
    }
}

/// Reads a count out of unreliable markup text: keeps the digits and parses
/// them, with 0 for anything unusable. A missing field handed in as "0" or
/// "-" therefore reads as 0.
pub fn parse_count(s: &str) -> (r: u32)
    ensures
        r == digit_count_of(s@),
{
    let d = digits_only(s);
    proof {
        crate::strutil::lemma_filter_digits_all(s@);
    }
    match crate::strutil::parse_u64(d.as_str()) {
        Option::None => 0,
        Option::Some(v) => {
            if v <= 0xffffffff {
                v as u32
            } else {
                0
            }
        },
    }
}

} // verus!

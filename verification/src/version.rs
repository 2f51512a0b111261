//! The version negotiation guard: a request is admitted only when its
//! `X-Broker-API-Version` header is present, parses as `major.minor`, and is
//! at least the broker's configured minimum.  The guard is stateless and runs
//! before any other component sees the request.

use vstd::prelude::*;
use vstd::string::StrSliceExecFns;

verus! {

pub open spec fn is_digit(c: char) -> bool {
    c == '0' || c == '1' || c == '2' || c == '3' || c == '4' || c == '5' || c == '6' || c == '7'
        || c == '8' || c == '9'
}

pub open spec fn digit_val(c: char) -> u64 {
    if c == '0' {
        0
    } else if c == '1' {
        1
    } else if c == '2' {
        2
    } else if c == '3' {
        3
    } else if c == '4' {
        4
    } else if c == '5' {
        5
    } else if c == '6' {
        6
    } else if c == '7' {
        7
    } else if c == '8' {
        8
    } else {
        9
    }
}

/// Scanning the major part: digits, then a dot, then the minor part.  A value
/// that would not fit a `u64` is rejected like any other malformed header.
pub open spec fn scan_major(s: Seq<char>, i: int, maj: u64, any: bool) -> Option<(u64, u64)>
    decreases s.len() - i, 1int,
{
    if i < 0 || i >= s.len() {
        None
    } else if s[i] == '.' {
        if any {
            scan_minor(s, i + 1, maj, 0, false)
        } else {
            None
        }
    } else if is_digit(s[i]) {
        if maj > (u64::MAX - digit_val(s[i])) / 10 {
            None
        } else {
            scan_major(s, i + 1, (maj * 10 + digit_val(s[i])) as u64, true)
        }
    } else {
        None
    }
}

/// Scanning the minor part: digits to the end of the header.
pub open spec fn scan_minor(s: Seq<char>, i: int, maj: u64, min: u64, any: bool) -> Option<
    (u64, u64),
>
    decreases s.len() - i, 0int,
{
    if i < 0 {
        None
    } else if i >= s.len() {
        if any {
            Some((maj, min))
        } else {
            None
        }
    } else if is_digit(s[i]) {
        if min > (u64::MAX - digit_val(s[i])) / 10 {
            None
        } else {
            scan_minor(s, i + 1, maj, (min * 10 + digit_val(s[i])) as u64, true)
        }
    } else {
        None
    }
}

/// What a version header denotes: `major.minor`, both parts non-empty runs of
/// digits, or nothing.
pub open spec fn spec_parse_version(s: Seq<char>) -> Option<(u64, u64)> {
    scan_major(s, 0, 0, false)
}

/// Lexicographic order on versions.
pub open spec fn spec_version_at_least(v: (u64, u64), min: (u64, u64)) -> bool {
    v.0 > min.0 || (v.0 == min.0 && v.1 >= min.1)
}

fn digit_of(c: char) -> (r: Option<u64>)
    ensures
        r == if is_digit(c) {
            Some(digit_val(c))
        } else {
            None::<u64>
        },
{
    if c == '0' {
        Some(0)
    } else if c == '1' {
        Some(1)
    } else if c == '2' {
        Some(2)
    } else if c == '3' {
        Some(3)
    } else if c == '4' {
        Some(4)
    } else if c == '5' {
        Some(5)
    } else if c == '6' {
        Some(6)
    } else if c == '7' {
        Some(7)
    } else if c == '8' {
        Some(8)
    } else if c == '9' {
        Some(9)
    } else {
        None
    }
}

/// Parses a version header.
pub fn parse_api_version(s: &str) -> (r: Option<(u64, u64)>)
    ensures
        r == spec_parse_version(s@),
{
    let n = s.unicode_len();
    let mut i: usize = 0;
    let mut maj: u64 = 0;
    let mut min: u64 = 0;
    let mut any: bool = false;
    let mut in_minor: bool = false;
    while i < n
        invariant
            n == s@.len(),
            i <= n,
            if in_minor {
                scan_minor(s@, i as int, maj, min, any) == spec_parse_version(s@)
            } else {
                min == 0 && scan_major(s@, i as int, maj, any) == spec_parse_version(s@)
            },
        decreases n - i,
    {
        let c = s.get_char(i);
        if !in_minor {
            if c == '.' {
                if !any {
                    return None;
                }
                in_minor = true;
                any = false;
            } else {
                match digit_of(c) {
                    Some(d) => {
                        if maj > (u64::MAX - d) / 10 {
                            return None;
                        }
                        proof {
                            assert(maj * 10 + d <= u64::MAX) by {
                                assert(maj <= (u64::MAX - d) / 10);
                                assert(maj * 10 <= ((u64::MAX - d) / 10) * 10) by (nonlinear_arith)
                                    requires maj <= (u64::MAX - d) / 10;
                                assert(((u64::MAX - d) / 10) * 10 <= u64::MAX - d);
                            }
                        }
                        maj = maj * 10 + d;
                        any = true;
                    },
                    None => {
                        return None;
                    },
                }
            }
        } else {
            match digit_of(c) {
                Some(d) => {
                    if min > (u64::MAX - d) / 10 {
                        return None;
                    }
                    proof {
                        assert(min * 10 + d <= u64::MAX) by {
                            assert(min <= (u64::MAX - d) / 10);
                            assert(min * 10 <= ((u64::MAX - d) / 10) * 10) by (nonlinear_arith)
                                requires min <= (u64::MAX - d) / 10;
                            assert(((u64::MAX - d) / 10) * 10 <= u64::MAX - d);
                        }
                    }
                    min = min * 10 + d;
                    any = true;
                },
                None => {
                    return None;
                },
            }
        }
        i = i + 1;
    }
    if in_minor && any {
        Some((maj, min))
    } else {
        None
    }
}

/// The guard itself: the broker's minimum supported protocol version.
pub struct VersionGuard {
    pub min_major: u64,
    pub min_minor: u64,
}

impl VersionGuard {
    /// Whether a request carrying this header is admitted.
    pub open spec fn spec_accepts(&self, header: Option<Seq<char>>) -> bool {
        match header {
            None => false,
            Some(h) => match spec_parse_version(h) {
                None => false,
                Some(v) => spec_version_at_least(v, (self.min_major, self.min_minor)),
            },
        }
    }

    /// Admits the request iff the header is present, parses as a version, and
    /// is at least the configured minimum; a malformed header is treated
    /// exactly like an absent one.
    pub fn accepts(&self, header: Option<&str>) -> (r: bool)
        ensures
            r == self.spec_accepts(
                match header {
                    Some(h) => Some(h@),
                    None => None,
                },
            ),
    {
        match header {
            None => false,
            Some(h) => match parse_api_version(h) {
                None => false,
                Some((ma, mi)) => ma > self.min_major || (ma == self.min_major && mi
                    >= self.min_minor),
            },
        }
    }
}

} // verus!

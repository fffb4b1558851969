//! Platform version tags and the compatibility policy between them.

use vstd::prelude::*;

use crate::strutil::{all_digits, dec_val, parse_u32, split_char, split_seq, str_eq};
use crate::strutil::is_digit_char;

verus! {

/// Release channel of a platform build.
#[derive(Debug, Hash, Eq, PartialEq, Ord, PartialOrd, Clone, Copy, Structural)]
pub enum AisCode {
    /// Production build.
    Production,
    /// Production candidate build.
    ProductionCandidate,
    /// Beta build.
    Beta,
    /// Alpha build.
    Alpha,
    /// Quick patch issued outside the normal release train; a tag on
    /// either side of a compatibility check short-circuits it to true.
    Patched,
}

/// String suffix of a release channel.
pub open spec fn code_suffix_spec(c: AisCode) -> Seq<char> {
    match c {
        AisCode::Production => "P"@,
        AisCode::ProductionCandidate => "RC"@,
        AisCode::Beta => "b"@,
        AisCode::Alpha => "a"@,
        AisCode::Patched => "*"@,
    }
}

impl AisCode {
    /// The suffix that closes a version tag's string form.
    pub fn suffix(&self) -> (r: &'static str)
        ensures
            r@ == code_suffix_spec(*self),
    {
        match self {
            AisCode::Production => "P",
            AisCode::ProductionCandidate => "RC",
            AisCode::Beta => "b",
            AisCode::Alpha => "a",
            AisCode::Patched => "*",
        }
    }
}

/// A version tag: dotted number and release channel.
#[derive(Debug, Hash, Eq, PartialEq)]
pub struct Version {
    pub number: String,
    pub code: AisCode,
}

/// Number of the build this library was cut from.
pub open spec fn local_version_number() -> Seq<char> {
    "1.0.0"@
}

/// Channel of the build this library was cut from.
pub open spec fn local_version_code() -> AisCode {
    AisCode::Patched
}

/// A well-formed dotted-decimal part: non-empty digits fitting `u32`.
pub open spec fn is_u32_digits(q: Seq<char>) -> bool {
    q.len() > 0 && all_digits(q) && dec_val(q) <= u32::MAX as int
}

/// Major and minor components of a dotted version number, when the
/// number has exactly three dot-separated parts whose first two are
/// well-formed decimals.
pub open spec fn parse_version_spec(s: Seq<char>) -> Option<(int, int)> {
    let ps = split_seq(s, '.');
    if ps.len() == 3 && is_u32_digits(ps[0]) && is_u32_digits(ps[1]) {
        Some((dec_val(ps[0]), dec_val(ps[1])))
    } else {
        None
    }
}

/// The compatibility table over channel pairs. A `Patched` tag on
/// either side short-circuits to true; otherwise both numbers must
/// parse, alpha and beta accept one another, a production candidate
/// meets its own kind on major match, and production pairings demand
/// major and minor match.
pub open spec fn compatible_spec(
    inum: Seq<char>,
    icode: AisCode,
    lnum: Seq<char>,
    lcode: AisCode,
) -> bool {
    if icode == AisCode::Patched || lcode == AisCode::Patched {
        true
    } else {
        match (parse_version_spec(inum), parse_version_spec(lnum)) {
            (Some(ip), Some(lp)) => match (icode, lcode) {
                (AisCode::Alpha, AisCode::Alpha) => true,
                (AisCode::Alpha, AisCode::Beta) => true,
                (AisCode::Beta, AisCode::Alpha) => true,
                (AisCode::Beta, AisCode::Beta) => true,
                (AisCode::ProductionCandidate, AisCode::ProductionCandidate) => ip.0 == lp.0,
                (AisCode::ProductionCandidate, AisCode::Production) => ip.0 == lp.0 && ip.1 == lp.1,
                (AisCode::Production, AisCode::ProductionCandidate) => ip.0 == lp.0 && ip.1 == lp.1,
                (AisCode::Production, AisCode::Production) => ip.0 == lp.0 && ip.1 == lp.1,
                _ => false,
            },
            _ => false,
        }
    }
}

/// First index of `s` holding neither a digit nor a dot, or -1.
pub open spec fn first_code_idx(s: Seq<char>) -> int
    decreases s.len(),
{
    if s.len() == 0 {
        -1
    } else if !(is_digit_char(s[0]) || s[0] == '.') {
        0
    } else {
        let r = first_code_idx(s.skip(1));
        if r == -1 {
            -1
        } else {
            1 + r
        }
    }
}

proof fn lemma_first_code_idx(s: Seq<char>)
    ensures
        first_code_idx(s) >= -1,
        first_code_idx(s) == -1 ==> forall|i: int|
            0 <= i < s.len() ==> is_digit_char(#[trigger] s[i]) || s[i] == '.',
        first_code_idx(s) >= 0 ==> {
            let p = first_code_idx(s);
            &&& p < s.len()
            &&& !(is_digit_char(s[p]) || s[p] == '.')
            &&& forall|i: int| 0 <= i < p ==> is_digit_char(#[trigger] s[i]) || s[i] == '.'
        },
    decreases s.len(),
{
    if s.len() > 0 && (is_digit_char(s[0]) || s[0] == '.') {
        lemma_first_code_idx(s.skip(1));
        let t = s.skip(1);
        if first_code_idx(s) == -1 {
            assert(first_code_idx(t) == -1);
            assert forall|i: int| 0 <= i < s.len() implies is_digit_char(#[trigger] s[i]) || s[i]
                == '.' by {
                if i > 0 {
                    assert(is_digit_char(t[i - 1]) || t[i - 1] == '.');
                    assert(t[i - 1] == s[i]);
                }
            };
        } else {
            let p = first_code_idx(s);
            let q = first_code_idx(t);
            assert(q >= 0 && p == 1 + q);
            assert(t[q] == s[p]);
            assert forall|i: int| 0 <= i < p implies is_digit_char(#[trigger] s[i]) || s[i]
                == '.' by {
                if i > 0 {
                    assert(is_digit_char(t[i - 1]) || t[i - 1] == '.');
                    assert(t[i - 1] == s[i]);
                }
            };
        }
    }
}

/// Index of the channel suffix in a version string: the first position
/// holding neither a digit nor a dot.
fn find_code_idx(sref: &str) -> (r: Option<usize>)
    ensures
        match r {
            Some(p) => first_code_idx(sref@) == p as int,
            None => first_code_idx(sref@) == -1,
        },
{
    let len = sref.unicode_len();
    proof {
        lemma_first_code_idx(sref@);
    }
    let mut i: usize = 0;
    while i < len
        invariant
            0 <= i <= len,
            len == sref@.len(),
            forall|j: int| 0 <= j < i ==> is_digit_char(#[trigger] sref@[j]) || sref@[j] == '.',
        decreases len - i,
    {
        let c = sref.get_char(i);
        if !('0' <= c && c <= '9') && c != '.' {
            proof {
                lemma_first_code_idx(sref@);
                let q = first_code_idx(sref@);
                if q == -1 {
                    assert(is_digit_char(sref@[i as int]) || sref@[i as int] == '.');
                } else {
                    if q < i as int {
                        assert(is_digit_char(sref@[q]) || sref@[q] == '.');
                    }
                    if q > i as int {
                        assert(is_digit_char(sref@[i as int]) || sref@[i as int] == '.');
                    }
                }
            }
            return Some(i);
        }
        i = i + 1;
    }
    proof {
        lemma_first_code_idx(sref@);
        if first_code_idx(sref@) >= 0 {
            let q = first_code_idx(sref@);
            assert(is_digit_char(sref@[q]) || sref@[q] == '.');
        }
    }
    None
}

/// The parsed form of a version tag's string: its number and channel.
pub open spec fn from_string_spec(s: Seq<char>) -> Option<(Seq<char>, AisCode)> {
    let p = first_code_idx(s);
    if p == -1 {
        None
    } else {
        let num = s.take(p);
        let code = s.skip(p);
        if code == "P"@ {
            Some((num, AisCode::Production))
        } else if code == "RC"@ {
            Some((num, AisCode::ProductionCandidate))
        } else if code == "b"@ {
            Some((num, AisCode::Beta))
        } else if code == "a"@ {
            Some((num, AisCode::Alpha))
        } else if code == "*"@ {
            Some((num, AisCode::Patched))
        } else {
            None
        }
    }
}

impl Clone for Version {
    fn clone(&self) -> (r: Version)
        ensures
            r == *self,
    {
        Version { number: self.number.clone(), code: self.code }
    }
}

impl Version {
    /// The version tag of this build.
    pub fn get_raw() -> (r: Version)
        ensures
            r.number@ == local_version_number(),
            r.code == local_version_code(),
    {
        Version { number: String::from_str("1.0.0"), code: AisCode::Patched }
    }

    /// The string form of this build's version tag.
    pub fn get() -> (r: String)
        ensures
            r@ == local_version_number() + code_suffix_spec(local_version_code()),
    {
        Version::get_raw().to_string()
    }

    /// String form of a version tag: number followed by channel suffix.
    pub fn to_string(self) -> (r: String)
        ensures
            r@ == self.number@ + code_suffix_spec(self.code),
    {
        let suffix = self.code.suffix();
        self.number.concat(suffix)
    }

    /// Major and minor components of a dotted version number.
    pub fn parse_version(v: &str) -> (r: Option<(u32, u32)>)
        ensures
            r is Some <==> parse_version_spec(v@) is Some,
            match (r, parse_version_spec(v@)) {
                (Some(p), Some(q)) => p.0 as int == q.0 && p.1 as int == q.1,
                (None, None) => true,
                _ => false,
            },
    {
        let parts = split_char(v, '.');
        let ghost ps = split_seq(v@, '.');
        if parts.len() != 3 {
            return None;
        }
        proof {
            assert(parts.deep_view()[0] == parts@[0]@);
            assert(parts.deep_view()[1] == parts@[1]@);
        }
        let major = match parse_u32(parts[0].as_str()) {
            Some(m) => m,
            None => {
                return None;
            },
        };
        let minor = match parse_u32(parts[1].as_str()) {
            Some(m) => m,
            None => {
                return None;
            },
        };
        Some((major, minor))
    }

    /// The compatibility decision between an incoming tag and a local
    /// tag, exactly the channel-pair table.
    pub fn compatible(incoming: &Version, local: &Version) -> (r: bool)
        ensures
            r == compatible_spec(incoming.number@, incoming.code, local.number@, local.code),
    {
        if matches!(incoming.code, AisCode::Patched) || matches!(local.code, AisCode::Patched) {
            return true;
        }
        let ip = match Self::parse_version(incoming.number.as_str()) {
            Some(p) => p,
            None => {
                return false;
            },
        };
        let lp = match Self::parse_version(local.number.as_str()) {
            Some(p) => p,
            None => {
                return false;
            },
        };
        match (incoming.code, local.code) {
            (AisCode::Alpha, AisCode::Alpha) => true,
            (AisCode::Alpha, AisCode::Beta) => true,
            (AisCode::Beta, AisCode::Alpha) => true,
            (AisCode::Beta, AisCode::Beta) => true,
            (AisCode::ProductionCandidate, AisCode::ProductionCandidate) => ip.0 == lp.0,
            (AisCode::ProductionCandidate, AisCode::Production) => ip.0 == lp.0 && ip.1 == lp.1,
            (AisCode::Production, AisCode::ProductionCandidate) => ip.0 == lp.0 && ip.1 == lp.1,
            (AisCode::Production, AisCode::Production) => ip.0 == lp.0 && ip.1 == lp.1,
            _ => false,
        }
    }

    /// Compatibility of an incoming tag with this build's own tag.
    pub fn comp_raw(incoming: Version) -> (r: bool)
        ensures
            r == compatible_spec(
                incoming.number@,
                incoming.code,
                local_version_number(),
                local_version_code(),
            ),
    {
        let local = Self::get_raw();
        Self::compatible(&incoming, &local)
    }

    /// Parses a version string and checks it against this build's tag;
    /// a string that does not parse is incompatible.
    pub fn comp(data: String) -> (r: bool)
        ensures
            r == match from_string_spec(data@) {
                Some(v) => compatible_spec(v.0, v.1, local_version_number(), local_version_code()),
                None => false,
            },
    {
        let version = match Self::from_string(data) {
            Some(d) => d,
            None => {
                return false;
            },
        };
        Self::comp_raw(version)
    }

    /// Parses the string form of a version tag: the longest leading run
    /// of digits and dots is the number, the rest must be a channel
    /// suffix. A string without a suffix, or with an unknown one, is
    /// rejected.
    pub fn from_string(s: String) -> (r: Option<Version>)
        ensures
            r is Some <==> from_string_spec(s@) is Some,
            match (r, from_string_spec(s@)) {
                (Some(v), Some(q)) => v.number@ == q.0 && v.code == q.1,
                (None, None) => true,
                _ => false,
            },
    {
        let sref = s.as_str();
        let len = sref.unicode_len();
        let pos = find_code_idx(sref);
        match pos {
            None => None,
            Some(p) => {
                proof {
                    lemma_first_code_idx(s@);
                }
                let number = sref.substring_char(0, p).to_owned();
                let code_str = sref.substring_char(p, len);
                proof {
                    assert(number@ =~= s@.take(p as int));
                    assert(code_str@ =~= s@.skip(p as int));
                }
                let code = if str_eq(code_str, "P") {
                    AisCode::Production
                } else if str_eq(code_str, "RC") {
                    AisCode::ProductionCandidate
                } else if str_eq(code_str, "b") {
                    AisCode::Beta
                } else if str_eq(code_str, "a") {
                    AisCode::Alpha
                } else if str_eq(code_str, "*") {
                    AisCode::Patched
                } else {
                    return None;
                };
                Some(Version { number, code })
            },
        }
    }
}

/// A version tag is compatible with itself whenever its number parses;
/// this holds on every channel.
pub proof fn lemma_compatible_reflexive(num: Seq<char>, code: AisCode)
    requires
        parse_version_spec(num) is Some,
    ensures
        compatible_spec(num, code, num, code),
{
}

} // verus!

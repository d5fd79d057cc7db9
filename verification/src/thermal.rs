//! Recognising the thermal zones that report CPU temperature.
use vstd::prelude::*;

verus! {

/// Unicode lower-casing of a string, as `str::to_lowercase` performs it.
pub uninterp spec fn unicode_lowercase(s: Seq<char>) -> Seq<char>;

/// Calls `str::to_lowercase`. Trusted: the result is the Unicode
/// lower-casing of `s` (named, not stated).
#[verifier::external_body]
fn to_lowercase(s: &str) -> (l: String)
    ensures
        l@ == unicode_lowercase(s@),
{
    s.to_lowercase()
}

/// `needle` occurs in `hay` at position `i`.
pub open spec fn occurs_at(hay: Seq<char>, needle: Seq<char>, i: int) -> bool {
    0 <= i && i + needle.len() <= hay.len() && hay.subrange(i, i + needle.len()) == needle
}

pub open spec fn contains_seq(hay: Seq<char>, needle: Seq<char>) -> bool {
    exists|i: int| #[trigger] occurs_at(hay, needle, i)
}

/// Whether `needle` occurs in `hay`.
pub fn contains(hay: &str, needle: &str) -> (b: bool)
    ensures
        b == contains_seq(hay@, needle@),
{
    let n = hay.unicode_len();
    let m = needle.unicode_len();
    if m > n {
        proof {
            assert forall|i: int| !#[trigger] occurs_at(hay@, needle@, i) by {}
        }
        return false;
    }
    let last = n - m;
    let mut i: usize = 0;
    loop
        invariant
            n == hay@.len(),
            m == needle@.len(),
            m <= n,
            last == n - m,
            i <= last,
            forall|k: int| 0 <= k < i ==> !#[trigger] occurs_at(hay@, needle@, k),
        decreases last - i,
    {
        let mut j: usize = 0;
        let mut same = true;
        while j < m
            invariant
                n == hay@.len(),
                m == needle@.len(),
                i + m <= n,
                j <= m,
                same ==> forall|t: int| 0 <= t < j ==> hay@[i + t] == needle@[t],
                !same ==> !occurs_at(hay@, needle@, i as int),
            decreases m - j,
        {
            if same && hay.get_char(i + j) != needle.get_char(j) {
                same = false;
                proof {
                    assert(hay@.subrange(i as int, i + m)[j as int] == hay@[i + j]);
                }
            }
            j = j + 1;
        }
        if same {
            proof {
                assert(hay@.subrange(i as int, i + m) =~= needle@);
                assert(occurs_at(hay@, needle@, i as int));
            }
            return true;
        }
        if i == last {
            proof {
                assert forall|k: int| !#[trigger] occurs_at(hay@, needle@, k) by {
                    if k > i {
                        assert(k + m > n);
                    }
                }
            }
            return false;
        }
        i = i + 1;
    }
}

/// A thermal zone reports CPU temperature when its type, lower-cased,
/// mentions `cpu` or `x86_pkg_temp`.
pub open spec fn is_cpu_zone_type(zone_type: Seq<char>) -> bool {
    contains_seq(unicode_lowercase(zone_type), "cpu"@) || contains_seq(
        unicode_lowercase(zone_type),
        "x86_pkg_temp"@,
    )
}

/// Whether an already lower-cased zone type mentions `cpu` or
/// `x86_pkg_temp`.
pub fn mentions_cpu_zone(lowered: &str) -> (b: bool)
    ensures
        b == (contains_seq(lowered@, "cpu"@) || contains_seq(lowered@, "x86_pkg_temp"@)),
{
    contains(lowered, "cpu") || contains(lowered, "x86_pkg_temp")
}

/// Whether a thermal zone of this type reports CPU temperature.
pub fn is_cpu_thermal_zone(zone_type: &str) -> (b: bool)
    ensures
        b == is_cpu_zone_type(zone_type@),
{
    let lower = to_lowercase(zone_type);
    mentions_cpu_zone(lower.as_str())
}

} // verus!

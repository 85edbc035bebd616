//! Version comparison for the update check: a version text is split on
//! dots, the numeric segments are read as numbers, and two versions
//! compare piece by piece with missing pieces counting as zero.

use vstd::prelude::*;
use vstd::string::StrSliceExecFns;

verus! {

/// Whether `c` is a decimal digit.
pub open spec fn spec_is_digit(c: char) -> bool {
    48 <= c as u32 <= 57
}

/// The numeric value of a digit.
pub open spec fn spec_digit_value(c: char) -> int {
    c as u32 - 48
}

/// Whether every character of `ds` is a decimal digit.
pub open spec fn spec_all_digits(ds: Seq<char>) -> bool {
    forall|i: int| 0 <= i < ds.len() ==> spec_is_digit(#[trigger] ds[i])
}

/// The number the digit text `ds` denotes.
pub open spec fn spec_digits_value(ds: Seq<char>) -> int
    decreases ds.len(),
{
    if ds.len() == 0 {
        0
    } else {
        spec_digits_value(ds.drop_last()) * 10 + spec_digit_value(ds.last())
    }
}

/// The digit part of a segment: everything after one optional leading
/// plus sign.
pub open spec fn spec_seg_digits(seg: Seq<char>) -> Seq<char> {
    if seg.len() > 0 && seg[0] == '+' {
        seg.drop_first()
    } else {
        seg
    }
}

/// Whether a segment reads as a number: at least one digit, digits only,
/// and a value that fits the numeric range.
pub open spec fn spec_seg_is_numeric(seg: Seq<char>) -> bool {
    let ds = spec_seg_digits(seg);
    ds.len() > 0 && spec_all_digits(ds) && spec_digits_value(ds) <= u32::MAX
}

/// The number a numeric segment denotes.
pub open spec fn spec_seg_value(seg: Seq<char>) -> int {
    spec_digits_value(spec_seg_digits(seg))
}

/// Index of the first dot, or the length if there is none.
pub open spec fn spec_dot_or_end(s: Seq<char>) -> int
    decreases s.len(),
{
    if s.len() == 0 {
        0
    } else if s[0] == '.' {
        0
    } else {
        1 + spec_dot_or_end(s.drop_first())
    }
}

proof fn lemma_dot_or_end(s: Seq<char>)
    ensures
        0 <= spec_dot_or_end(s) <= s.len(),
        forall|j: int| 0 <= j < spec_dot_or_end(s) ==> s[j] != '.',
        spec_dot_or_end(s) < s.len() ==> s[spec_dot_or_end(s)] == '.',
    decreases s.len(),
{
    if s.len() > 0 && s[0] != '.' {
        let rest = s.drop_first();
        lemma_dot_or_end(rest);
        assert forall|j: int| 0 <= j < spec_dot_or_end(s) implies s[j] != '.' by {
            if j > 0 {
                assert(rest[j - 1] != '.');
            }
        }
    }
}

proof fn lemma_dot_or_end_unique(s: Seq<char>, m: int)
    requires
        0 <= m <= s.len(),
        forall|j: int| 0 <= j < m ==> s[j] != '.',
        m < s.len() ==> s[m] == '.',
    ensures
        spec_dot_or_end(s) == m,
    decreases s.len(),
{
    if s.len() > 0 && s[0] != '.' {
        let rest = s.drop_first();
        assert forall|j: int| 0 <= j < m - 1 implies rest[j] != '.' by {
            assert(s[j + 1] != '.');
        }
        lemma_dot_or_end_unique(rest, m - 1);
    }
}

/// The numeric pieces of a dot-separated version text, in order;
/// segments that do not read as numbers are passed over.
pub open spec fn spec_components(s: Seq<char>) -> Seq<u32>
    decreases s.len(),
    via spec_components_decreases
{
    let k = spec_dot_or_end(s);
    let seg = s.subrange(0, k);
    let head: Seq<u32> = if spec_seg_is_numeric(seg) {
        seq![spec_seg_value(seg) as u32]
    } else {
        Seq::empty()
    };
    if k == s.len() {
        head
    } else {
        head + spec_components(s.subrange(k + 1, s.len() as int))
    }
}

#[via_fn]
proof fn spec_components_decreases(s: Seq<char>) {
    lemma_dot_or_end(s);
}

/// The rest of a piece list, with an empty list staying empty.
pub open spec fn spec_rest(s: Seq<u32>) -> Seq<u32> {
    if s.len() == 0 {
        s
    } else {
        s.drop_first()
    }
}

/// Whether `lat` names a strictly newer version than `cur`, comparing
/// piece by piece with missing pieces counting as zero.
pub open spec fn spec_newer(cur: Seq<u32>, lat: Seq<u32>) -> bool
    decreases cur.len() + lat.len(),
{
    if cur.len() == 0 && lat.len() == 0 {
        false
    } else {
        let c: u32 = if cur.len() > 0 {
            cur[0]
        } else {
            0
        };
        let l: u32 = if lat.len() > 0 {
            lat[0]
        } else {
            0
        };
        if l > c {
            true
        } else if l < c {
            false
        } else {
            spec_newer(spec_rest(cur), spec_rest(lat))
        }
    }
}

/// Whether the version text `latest` names a strictly newer version than
/// the version text `current`.
pub open spec fn spec_version_newer(current: Seq<char>, latest: Seq<char>) -> bool {
    spec_newer(spec_components(current), spec_components(latest))
}

proof fn lemma_digits_value_nonneg(ds: Seq<char>)
    requires
        spec_all_digits(ds),
    ensures
        spec_digits_value(ds) >= 0,
    decreases ds.len(),
{
    if ds.len() > 0 {
        assert(spec_all_digits(ds.drop_last())) by {
            assert(forall|i: int|
                0 <= i < ds.len() - 1 ==> #[trigger] ds.drop_last()[i] == ds[i]);
        }
        lemma_digits_value_nonneg(ds.drop_last());
    }
}

/// A digit text's value never shrinks as more digits are appended.
proof fn lemma_digits_value_prefix(ds: Seq<char>, m: int)
    requires
        spec_all_digits(ds),
        0 <= m <= ds.len(),
    ensures
        spec_digits_value(ds.subrange(0, m)) <= spec_digits_value(ds),
    decreases ds.len() - m,
{
    if m == ds.len() {
        assert(ds.subrange(0, m) =~= ds);
    } else {
        let shorter = ds.subrange(0, m);
        let longer = ds.subrange(0, m + 1);
        assert(longer.drop_last() =~= shorter);
        assert(spec_all_digits(shorter)) by {
            assert(forall|i: int| 0 <= i < m ==> #[trigger] shorter[i] == ds[i]);
        }
        lemma_digits_value_nonneg(shorter);
        assert(spec_digits_value(longer) == spec_digits_value(shorter) * 10 + spec_digit_value(
            longer.last(),
        ));
        assert(spec_digits_value(shorter) <= spec_digits_value(longer));
        lemma_digits_value_prefix(ds, m + 1);
    }
}

/// Read the segment `s[start, end)` as a number: its value if it is
/// numeric, nothing otherwise.
fn parse_segment(s: &str, start: usize, end: usize) -> (r: Option<u32>)
    requires
        start <= end <= s@.len(),
    ensures
        r is Some <==> spec_seg_is_numeric(s@.subrange(start as int, end as int)),
        r matches Some(v) ==> v == spec_seg_value(s@.subrange(start as int, end as int)),
{
    let ghost seg = s@.subrange(start as int, end as int);
    let digits_start: usize = if start < end && s.get_char(start) == '+' {
        start + 1
    } else {
        start
    };
    let ghost ds = s@.subrange(digits_start as int, end as int);
    proof {
        assert(spec_seg_digits(seg) =~= ds);
    }
    if digits_start == end {
        assert(ds.len() == 0);
        return None;
    }
    let mut value: u64 = 0;
    let mut j: usize = digits_start;
    while j < end
        invariant
            start <= digits_start <= j <= end <= s@.len(),
            ds == s@.subrange(digits_start as int, end as int),
            spec_seg_digits(s@.subrange(start as int, end as int)) == ds,
            spec_all_digits(ds.subrange(0, j - digits_start)),
            value == spec_digits_value(ds.subrange(0, j - digits_start)),
            value <= u32::MAX,
        decreases end - j,
    {
        let c = s.get_char(j);
        let code = c as u32;
        proof {
            assert(ds[j - digits_start] == s@[j as int]);
        }
        if code < 48 || code > 57 {
            proof {
                assert(!spec_is_digit(ds[j - digits_start]));
            }
            return None;
        }
        let d = (code - 48) as u64;
        value = value * 10 + d;
        proof {
            let pre = ds.subrange(0, j - digits_start);
            let now = ds.subrange(0, j + 1 - digits_start);
            assert(now.drop_last() =~= pre);
            assert(now.last() == ds[j - digits_start]);
            assert(spec_is_digit(ds[j - digits_start]));
            assert forall|t: int| 0 <= t < now.len() implies spec_is_digit(now[t]) by {
                if t < now.len() - 1 {
                    assert(now[t] == pre[t]);
                } else {
                    assert(now[t] == ds[j - digits_start]);
                }
            }
            assert(spec_digits_value(now) == spec_digits_value(pre) * 10 + spec_digit_value(
                ds[j - digits_start],
            ));
        }
        if value > 0xFFFF_FFFF {
            proof {
                let now = ds.subrange(0, j + 1 - digits_start);
                assert(spec_digits_value(now) > u32::MAX);
                if spec_all_digits(ds) {
                    lemma_digits_value_prefix(ds, j + 1 - digits_start);
                }
                assert(!spec_seg_is_numeric(s@.subrange(start as int, end as int)));
            }
            return None;
        }
        j = j + 1;
    }
    proof {
        assert(ds.subrange(0, end - digits_start) =~= ds);
    }
    Some(value as u32)
}

/// The numeric pieces of a dot-separated version text, in order.
pub fn parse_components(s: &str) -> (r: Vec<u32>)
    ensures
        r@ == spec_components(s@),
{
    let len = s.unicode_len();
    let mut result: Vec<u32> = Vec::new();
    let mut i: usize = 0;
    proof {
        assert(s@.subrange(0, len as int) =~= s@);
    }
    loop
        invariant
            i <= len,
            len == s@.len(),
            spec_components(s@) == result@ + spec_components(s@.subrange(i as int, len as int)),
        decreases len - i + 1,
    {
        let ghost rest = s@.subrange(i as int, len as int);
        let mut k: usize = i;
        loop
            invariant
                i <= k <= len,
                len == s@.len(),
                forall|j: int| i <= j < k ==> s@[j] != '.',
            ensures
                i <= k <= len,
                forall|j: int| i <= j < k ==> s@[j] != '.',
                k == len || s@[k as int] == '.',
            decreases len - k,
        {
            if k == len {
                break ;
            }
            if s.get_char(k) == '.' {
                break ;
            }
            k = k + 1;
        }
        proof {
            assert forall|j: int| 0 <= j < k - i implies rest[j] != '.' by {
                assert(rest[j] == s@[i + j]);
            }
            assert(k < len ==> rest[k - i] == s@[k as int]);
            lemma_dot_or_end_unique(rest, k - i);
            assert(rest.subrange(0, k - i) =~= s@.subrange(i as int, k as int));
        }
        let seg_value = parse_segment(s, i, k);
        match seg_value {
            Some(v) => {
                result.push(v);
            },
            None => {},
        }
        if k == len {
            proof {
                assert(spec_components(rest) == (match seg_value {
                    Some(v) => seq![v],
                    None => Seq::<u32>::empty(),
                }));
                assert(spec_components(s@.subrange(len as int, len as int)) =~= Seq::<
                    u32,
                >::empty()) by {
                    lemma_dot_or_end(s@.subrange(len as int, len as int));
                }
                assert(spec_components(s@) =~= result@);
            }
            return result;
        }
        proof {
            assert(rest.subrange(k - i + 1, rest.len() as int) =~= s@.subrange(
                k + 1,
                len as int,
            ));
            assert(spec_components(rest) == (match seg_value {
                Some(v) => seq![v],
                None => Seq::<u32>::empty(),
            }) + spec_components(s@.subrange(k + 1, len as int)));
        }
        i = k + 1;
    }
}

/// The rest of a piece list from `i` on, with everything past the end
/// counting as empty.
pub open spec fn spec_from(s: Seq<u32>, i: int) -> Seq<u32> {
    if i <= s.len() {
        s.subrange(i, s.len() as int)
    } else {
        Seq::empty()
    }
}

fn newer_components(cur: &Vec<u32>, lat: &Vec<u32>) -> (r: bool)
    ensures
        r == spec_newer(cur@, lat@),
{
    let max_len: usize = if cur.len() > lat.len() {
        cur.len()
    } else {
        lat.len()
    };
    proof {
        assert(spec_from(cur@, 0) =~= cur@);
        assert(spec_from(lat@, 0) =~= lat@);
    }
    let mut i: usize = 0;
    while i < max_len
        invariant
            i <= max_len,
            max_len == if cur@.len() > lat@.len() {
                cur@.len()
            } else {
                lat@.len()
            },
            spec_newer(cur@, lat@) == spec_newer(spec_from(cur@, i as int), spec_from(lat@, i as int)),
        decreases max_len - i,
    {
        let c: u32 = if i < cur.len() {
            cur[i]
        } else {
            0
        };
        let l: u32 = if i < lat.len() {
            lat[i]
        } else {
            0
        };
        proof {
            let cf = spec_from(cur@, i as int);
            let lf = spec_from(lat@, i as int);
            assert(cf.len() > 0 ==> cf[0] == cur@[i as int]);
            assert(lf.len() > 0 ==> lf[0] == lat@[i as int]);
            assert(spec_rest(cf) =~= spec_from(cur@, i + 1));
            assert(spec_rest(lf) =~= spec_from(lat@, i + 1));
        }
        if l > c {
            return true;
        }
        if l < c {
            return false;
        }
        i = i + 1;
    }
    proof {
        assert(spec_from(cur@, i as int) =~= Seq::<u32>::empty());
        assert(spec_from(lat@, i as int) =~= Seq::<u32>::empty());
    }
    false
}

/// Whether `latest` names a strictly newer version than `current`.
pub fn compare_versions(current: &str, latest: &str) -> (r: bool)
    ensures
        r == spec_version_newer(current@, latest@),
{
    let cur = parse_components(current);
    let lat = parse_components(latest);
    newer_components(&cur, &lat)
}

/// The update check's answer to its caller.
pub struct UpdateInfo {
    pub current_version: String,
    pub latest_version: String,
    pub has_update: bool,
    pub download_url: String,
}

/// Assemble the update check's answer from the two version texts and
/// the release page, deciding `has_update` by the version comparison.
pub fn build_update_info(current_version: String, latest_version: String, download_url: String) -> (info:
    UpdateInfo)
    ensures
        info.current_version@ == current_version@,
        info.latest_version@ == latest_version@,
        info.download_url@ == download_url@,
        info.has_update == spec_version_newer(current_version@, latest_version@),
{
    let has_update = compare_versions(current_version.as_str(), latest_version.as_str());
    UpdateInfo { current_version, latest_version, has_update, download_url }
}

} // verus!

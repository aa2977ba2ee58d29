//! The version string: three decimal numbers, each a single byte, joined by
//! dots.

use vstd::prelude::*;

verus! {

/// The byte that separates the parts of a version.
pub const DOT: u8 = 0x2E;

/// An ASCII decimal digit.
pub open spec fn is_digit(b: u8) -> bool {
    0x30 <= b <= 0x39
}

/// Every byte of `s` is a decimal digit.
pub open spec fn all_digits(s: Seq<u8>) -> bool {
    forall|k: int| 0 <= k < s.len() ==> is_digit(#[trigger] s[k])
}

/// The number that a run of digits writes in base ten.
pub open spec fn decimal(s: Seq<u8>) -> nat
    decreases s.len(),
{
    if s.len() == 0 {
        0
    } else {
        10 * decimal(s.drop_last()) + (s.last() - 0x30) as nat
    }
}

/// One part of a version: at least one digit, nothing but digits, and a
/// value that fits a byte. Leading zeros are digits like any other.
pub open spec fn is_part(s: Seq<u8>) -> bool {
    s.len() > 0 && all_digits(s) && decimal(s) <= 255
}

/// `s` is a version whose two dots stand at `i` and `j`.
pub open spec fn splits_at(s: Seq<u8>, i: int, j: int) -> bool {
    &&& 0 <= i < j < s.len()
    &&& s[i] == DOT
    &&& s[j] == DOT
    &&& is_part(s.subrange(0, i))
    &&& is_part(s.subrange(i + 1, j))
    &&& is_part(s.subrange(j + 1, s.len() as int))
}

/// The three numbers of a version whose dots stand at `i` and `j`.
pub open spec fn numbers_at(s: Seq<u8>, i: int, j: int) -> (u8, u8, u8) {
    (
        decimal(s.subrange(0, i)) as u8,
        decimal(s.subrange(i + 1, j)) as u8,
        decimal(s.subrange(j + 1, s.len() as int)) as u8,
    )
}

/// `s` reads "major.minor.patch" with exactly three parts.
pub open spec fn is_version(s: Seq<u8>) -> bool {
    exists|i: int, j: int| splits_at(s, i, j)
}

/// What a version string says: its three numbers, or nothing where it is
/// malformed.
pub open spec fn version_of(s: Seq<u8>) -> Option<(u8, u8, u8)> {
    if is_version(s) {
        let (i, j) = choose|i: int, j: int| splits_at(s, i, j);
        Some(numbers_at(s, i, j))
    } else {
        None
    }
}

/// Where a run of digits that starts at `start` ends: at the end of `s` or
/// at the first byte that is no digit.
pub open spec fn digits_end(s: Seq<u8>, start: int, end: int) -> bool {
    &&& 0 <= start <= end <= s.len()
    &&& all_digits(s.subrange(start, end))
    &&& (end == s.len() || !is_digit(s[end]))
}

proof fn lemma_decimal_push(s: Seq<u8>, start: int, end: int)
    requires
        0 <= start <= end < s.len(),
    ensures
        decimal(s.subrange(start, end + 1)) == 10 * decimal(s.subrange(start, end)) + (s[end]
            - 0x30) as nat,
{
    let longer = s.subrange(start, end + 1);
    assert(longer.drop_last() =~= s.subrange(start, end));
    assert(longer.last() == s[end]);
}

/// A run of digits has one end only.
proof fn lemma_digits_end_unique(s: Seq<u8>, start: int, e1: int, e2: int)
    requires
        digits_end(s, start, e1),
        0 <= start <= e2 <= s.len(),
        all_digits(s.subrange(start, e2)),
        e2 == s.len() || !is_digit(s[e2]),
    ensures
        e1 == e2,
{
    if e1 < e2 {
        assert(s.subrange(start, e2)[e1 - start] == s[e1]);
    } else if e2 < e1 {
        assert(s.subrange(start, e1)[e2 - start] == s[e2]);
    }
}

/// The dots of a version stand where its runs of digits end, so a string
/// splits in one way at most.
proof fn lemma_split_is_forced(s: Seq<u8>, i: int, j: int, e1: int, e2: int, e3: int)
    requires
        splits_at(s, i, j),
        digits_end(s, 0, e1),
        e1 < s.len() ==> digits_end(s, e1 + 1, e2),
        e1 < s.len() && e2 < s.len() ==> digits_end(s, e2 + 1, e3),
    ensures
        i == e1,
        j == e2,
        e3 == s.len(),
{
    lemma_digits_end_unique(s, 0, e1, i);
    lemma_digits_end_unique(s, e1 + 1, e2, j);
    lemma_digits_end_unique(s, e2 + 1, e3, s.len() as int);
}

/// A version has one reading: wherever its dots are found, the numbers are
/// those of `version_of`.
pub proof fn lemma_version_unique(s: Seq<u8>, i: int, j: int)
    requires
        splits_at(s, i, j),
    ensures
        version_of(s) == Some(numbers_at(s, i, j)),
{
    let (ci, cj) = choose|i: int, j: int| splits_at(s, i, j);
    lemma_digits_end_unique(s, 0, i, ci);
    lemma_digits_end_unique(s, i + 1, j, cj);
}

/// Reads the run of digits that starts at `start`. Returns where it ends
/// and, where the run is a part of a version, its value.
fn scan_part(s: &[u8], start: usize) -> (r: (usize, Option<u8>))
    requires
        start <= s.len(),
    ensures
        digits_end(s@, start as int, r.0 as int),
        r.1 is Some <==> is_part(s@.subrange(start as int, r.0 as int)),
        r.1 is Some ==> r.1->Some_0 == decimal(s@.subrange(start as int, r.0 as int)),
{
    let mut end: usize = start;
    let mut value: u32 = 0;
    while end < s.len() && 0x30 <= s[end] && s[end] <= 0x39
        invariant
            start <= end <= s.len(),
            all_digits(s@.subrange(start as int, end as int)),
            value <= 256,
            value <= 255 ==> value == decimal(s@.subrange(start as int, end as int)),
            value == 256 ==> decimal(s@.subrange(start as int, end as int)) > 255,
        decreases s.len() - end,
    {
        proof {
            lemma_decimal_push(s@, start as int, end as int);
            let longer = s@.subrange(start as int, end + 1);
            assert forall|k: int| 0 <= k < longer.len() implies is_digit(#[trigger] longer[k]) by {
                if k < end - start {
                    assert(longer[k] == s@.subrange(start as int, end as int)[k]);
                }
            }
        }
        if value <= 255 {
            value = value * 10 + (s[end] - 0x30) as u32;
            if value > 255 {
                value = 256;
            }
        }
        end = end + 1;
    }
    if end > start && value <= 255 {
        (end, Some(value as u8))
    } else {
        (end, None)
    }
}

/// Parses "major.minor.patch": exactly three parts, each a decimal number
/// from 0 to 255 written with digits alone. Anything else is malformed.
pub fn parse_version(s: &[u8]) -> (version: Option<(u8, u8, u8)>)
    ensures
        version == version_of(s@),
{
    let (e1, major) = scan_part(s, 0);
    if major.is_none() || e1 >= s.len() || s[e1] != DOT {
        proof {
            if is_version(s@) {
                let (i, j) = choose|i: int, j: int| splits_at(s@, i, j);
                lemma_digits_end_unique(s@, 0, e1 as int, i);
            }
        }
        return None;
    }
    let (e2, minor) = scan_part(s, e1 + 1);
    if minor.is_none() || e2 >= s.len() || s[e2] != DOT {
        proof {
            if is_version(s@) {
                let (i, j) = choose|i: int, j: int| splits_at(s@, i, j);
                lemma_digits_end_unique(s@, 0, e1 as int, i);
                lemma_digits_end_unique(s@, e1 + 1, e2 as int, j);
            }
        }
        return None;
    }
    let (e3, patch) = scan_part(s, e2 + 1);
    if patch.is_none() || e3 != s.len() {
        proof {
            if is_version(s@) {
                let (i, j) = choose|i: int, j: int| splits_at(s@, i, j);
                lemma_split_is_forced(s@, i, j, e1 as int, e2 as int, e3 as int);
            }
        }
        return None;
    }
    proof {
        assert(splits_at(s@, e1 as int, e2 as int));
        lemma_version_unique(s@, e1 as int, e2 as int);
    }
    Some((major.unwrap(), minor.unwrap(), patch.unwrap()))
}

} // verus!

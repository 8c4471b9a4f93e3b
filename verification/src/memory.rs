//! Byte-pattern scanning over a region of module memory.
//!
//! A pattern is an ordered sequence of elements, each either an exact byte
//! (`Some(b)`) or a wildcard (`None`) that matches any byte. Scanning walks
//! the region from its lowest offset and reports the first offset at which
//! every pattern element matches.

use vstd::prelude::*;

verus! {

/// The pattern matches the bytes at `offset`: the whole pattern lies within
/// the region, and every exact element equals the byte at its position
/// (wildcard elements always match).
pub open spec fn pattern_matches_at(bytes: Seq<u8>, pattern: Seq<Option<u8>>, offset: int) -> bool {
    &&& 0 <= offset
    &&& offset + pattern.len() <= bytes.len()
    &&& forall|j: int|
        0 <= j < pattern.len() ==> (#[trigger] pattern[j] matches Some(b) ==> bytes[offset + j]
            == b)
}

/// No offset strictly below `offset` is a match.
pub open spec fn no_match_below(bytes: Seq<u8>, pattern: Seq<Option<u8>>, offset: int) -> bool {
    forall|o: int| 0 <= o < offset ==> !pattern_matches_at(bytes, pattern, o)
}

/// The lowest match at or above `from` among the offsets below `length`,
/// if any.
pub open spec fn spec_scan_from(
    bytes: Seq<u8>,
    pattern: Seq<Option<u8>>,
    length: int,
    from: int,
) -> Option<int>
    decreases length - from,
{
    if from < 0 || from >= length {
        None
    } else if pattern_matches_at(bytes, pattern, from) {
        Some(from)
    } else {
        spec_scan_from(bytes, pattern, length, from + 1)
    }
}

/// The lowest offset below `length` at which the pattern matches, if any:
/// what a scan of the region returns, as an offset from its base.
pub open spec fn spec_pattern_scan(bytes: Seq<u8>, pattern: Seq<Option<u8>>, length: int) -> Option<
    int,
> {
    spec_scan_from(bytes, pattern, length, 0)
}

/// Tests whether every pattern element matches the bytes at `offset`.
fn matches_here(bytes: &[u8], pattern: &[Option<u8>], offset: usize) -> (r: bool)
    requires
        offset + pattern@.len() <= bytes@.len(),
    ensures
        r == pattern_matches_at(bytes@, pattern@, offset as int),
{
    let bytes_len = bytes.len();
    let pattern_len = pattern.len();
    let mut j: usize = 0;
    while j < pattern_len
        invariant
            offset + pattern@.len() <= bytes@.len(),
            bytes_len == bytes@.len(),
            pattern_len == pattern@.len(),
            j <= pattern_len,
            forall|k: int|
                0 <= k < j ==> (#[trigger] pattern@[k] matches Some(b) ==> bytes@[offset + k]
                    == b),
        decreases pattern_len - j,
    {
        match pattern[j] {
            Some(b) => {
                if bytes[offset + j] != b {
                    return false;
                }
            },
            None => {},
        }
        j += 1;
    }
    true
}

/// A hit reported by the scan lies below `length` and is a match, and no
/// offset below it is one.
pub proof fn lemma_scan_from_hit(bytes: Seq<u8>, pattern: Seq<Option<u8>>, length: int, from: int)
    ensures
        spec_scan_from(bytes, pattern, length, from) matches Some(o) ==> {
            &&& from <= o < length
            &&& pattern_matches_at(bytes, pattern, o)
            &&& forall|o2: int| from <= o2 < o ==> !pattern_matches_at(bytes, pattern, o2)
        },
    decreases length - from,
{
    if from < 0 || from >= length {
    } else if pattern_matches_at(bytes, pattern, from) {
    } else {
        lemma_scan_from_hit(bytes, pattern, length, from + 1);
    }
}

/// A hit reported by the whole scan lies below `length` and is the lowest
/// match.
pub proof fn lemma_pattern_scan_hit(bytes: Seq<u8>, pattern: Seq<Option<u8>>, length: int)
    ensures
        spec_pattern_scan(bytes, pattern, length) matches Some(o) ==> {
            &&& 0 <= o < length
            &&& pattern_matches_at(bytes, pattern, o)
            &&& no_match_below(bytes, pattern, o)
        },
{
    lemma_scan_from_hit(bytes, pattern, length, 0);
}

/// Scans the first `length` offsets of a region of memory for a pattern of
/// bytes and returns the absolute address of the first match, if there is any.
///
/// `base` is the absolute address of `bytes[0]`; `bytes` is the readable
/// memory of the region; `length` is the maximum number of offsets to try;
/// `pattern` is the pattern of bytes to find, `None` marking a wildcard.
///
/// The scan is read-only and returns the lowest matching address: `Some(a)`
/// means the pattern matches at offset `a - base`, nothing matches below it,
/// and `a - base < length`; `None` means no offset below `length` matches.
pub fn pattern_scan(base: usize, bytes: &[u8], length: usize, pattern: &[Option<u8>]) -> (r: Option<
    usize,
>)
    requires
        length <= bytes@.len(),
        base + bytes@.len() <= usize::MAX,
    ensures
        r matches Some(a) ==> {
            &&& base <= a < base + length
            &&& pattern_matches_at(bytes@, pattern@, a - base)
            &&& no_match_below(bytes@, pattern@, a - base)
        },
        r is None ==> forall|o: int| 0 <= o < length ==> !pattern_matches_at(bytes@, pattern@, o),
        r == match spec_pattern_scan(bytes@, pattern@, length as int) {
            Some(o) => Some((base + o) as usize),
            None => None,
        },
{
    let pattern_len = pattern.len();
    let mut offset: usize = 0;
    while offset < length
        invariant
            length <= bytes@.len(),
            base + bytes@.len() <= usize::MAX,
            pattern_len == pattern@.len(),
            offset <= length,
            no_match_below(bytes@, pattern@, offset as int),
            spec_pattern_scan(bytes@, pattern@, length as int) == spec_scan_from(
                bytes@,
                pattern@,
                length as int,
                offset as int,
            ),
        decreases length - offset,
    {
        if pattern_len <= bytes.len() - offset {
            if matches_here(bytes, pattern, offset) {
                return Some(base + offset);
            }
        }
        offset += 1;
    }
    None
}

} // verus!

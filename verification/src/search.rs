//! Byte-level searching primitives used by both sides of the handshake:
//! substring search, byte classification, and line-oriented scanning.

use vstd::prelude::*;

verus! {

/// `needle` occurs in `hay` starting exactly at index `i`.
pub open spec fn match_at(hay: Seq<u8>, needle: Seq<u8>, i: int) -> bool {
    0 <= i && i + needle.len() <= hay.len() && hay.subrange(i, i + needle.len()) == needle
}

/// `needle` occurs somewhere in `hay`.
pub open spec fn contains_bytes(hay: Seq<u8>, needle: Seq<u8>) -> bool {
    exists|i: int| match_at(hay, needle, i)
}

/// Index of the first occurrence of `needle` in `hay` at or after `i`.
pub open spec fn find_from(hay: Seq<u8>, needle: Seq<u8>, i: int) -> Option<int>
    decreases hay.len() - i,
{
    if i < 0 || i + needle.len() > hay.len() {
        None
    } else if hay.subrange(i, i + needle.len()) =~= needle {
        Some(i)
    } else {
        find_from(hay, needle, i + 1)
    }
}

/// Index of the first occurrence of `needle` in `hay`.
pub open spec fn find_bytes(hay: Seq<u8>, needle: Seq<u8>) -> Option<int> {
    find_from(hay, needle, 0)
}

pub proof fn lemma_find_from_some(hay: Seq<u8>, needle: Seq<u8>, i: int)
    requires
        find_from(hay, needle, i) is Some,
    ensures
        match_at(hay, needle, find_from(hay, needle, i).unwrap()),
        find_from(hay, needle, i).unwrap() >= i,
    decreases hay.len() - i,
{
    if i < 0 || i + needle.len() > hay.len() {
    } else if hay.subrange(i, i + needle.len()) =~= needle {
    } else {
        lemma_find_from_some(hay, needle, i + 1);
    }
}

pub proof fn lemma_find_from_none(hay: Seq<u8>, needle: Seq<u8>, i: int, j: int)
    requires
        0 <= i <= j,
        find_from(hay, needle, i) is None,
    ensures
        !match_at(hay, needle, j),
    decreases j - i,
{
    if i + needle.len() > hay.len() {
    } else if j > i {
        lemma_find_from_none(hay, needle, i + 1, j);
    }
}

/// Does `needle` occur in `hay` starting at `i`? Runtime counterpart of `match_at`.
pub fn is_match_at(hay: &[u8], needle: &[u8], i: usize) -> (r: bool)
    requires
        i + needle@.len() <= hay@.len(),
    ensures
        r == match_at(hay@, needle@, i as int),
{
    let n = needle.len();
    let h = hay.len();
    let mut j: usize = 0;
    while j < n
        invariant
            j <= n,
            n == needle@.len(),
            h == hay@.len(),
            i + n <= h,
            forall|k: int| 0 <= k < j ==> hay@[i + k] == needle@[k],
        decreases n - j,
    {
        if hay[i + j] != needle[j] {
            proof {
                if match_at(hay@, needle@, i as int) {
                    assert(hay@.subrange(i as int, i + needle@.len())[j as int] == needle@[j as int]);
                }
            }
            return false;
        }
        j += 1;
    }
    proof {
        assert(hay@.subrange(i as int, i + needle@.len()) =~= needle@);
    }
    true
}

/// First occurrence of `needle` in `hay`, if any. Runtime counterpart of `find_bytes`.
pub fn find_subsequence(hay: &[u8], needle: &[u8]) -> (r: Option<usize>)
    ensures
        r is Some <==> find_bytes(hay@, needle@) is Some,
        r matches Some(i) ==> find_bytes(hay@, needle@) == Some(i as int),
{
    let n = needle.len();
    let h = hay.len();
    if n > h {
        return None;
    }
    if n == 0 {
        proof {
            assert(hay@.subrange(0, 0) =~= needle@);
        }
        return Some(0);
    }
    let mut i: usize = 0;
    while i <= h - n
        invariant
            1 <= n <= h,
            h == hay@.len(),
            n == needle@.len(),
            i <= h - n + 1,
            find_bytes(hay@, needle@) == find_from(hay@, needle@, i as int),
        decreases h + 1 - i,
    {
        if is_match_at(hay, needle, i) {
            assert(find_from(hay@, needle@, i as int) == Some(i as int));
            return Some(i);
        }
        assert(find_from(hay@, needle@, i as int) == find_from(hay@, needle@, i + 1));
        i += 1;
    }
    assert(find_from(hay@, needle@, i as int) is None);
    None
}

/// Does `needle` occur anywhere in `hay`? Runtime counterpart of `contains_bytes`.
pub fn contains_subseq(hay: &[u8], needle: &[u8]) -> (r: bool)
    ensures
        r == contains_bytes(hay@, needle@),
{
    match find_subsequence(hay, needle) {
        Some(_) => {
            proof {
                lemma_find_from_some(hay@, needle@, 0);
            }
            true
        },
        None => {
            proof {
                assert forall|j: int| !match_at(hay@, needle@, j) by {
                    if 0 <= j {
                        lemma_find_from_none(hay@, needle@, 0, j);
                    }
                }
            }
            false
        },
    }
}

/// Are the two byte slices equal?
pub fn slice_eq(a: &[u8], b: &[u8]) -> (r: bool)
    ensures
        r == (a@ == b@),
{
    if a.len() != b.len() {
        return false;
    }
    let n = a.len();
    let mut i: usize = 0;
    while i < n
        invariant
            i <= n,
            n == a@.len(),
            n == b@.len(),
            forall|k: int| 0 <= k < i ==> a@[k] == b@[k],
        decreases n - i,
    {
        if a[i] != b[i] {
            return false;
        }
        i += 1;
    }
    proof {
        assert(a@ =~= b@);
    }
    true
}

/// Index `i` begins a line of `s`: it is the very start, or the previous
/// byte ends a line.
pub open spec fn at_line_start(s: Seq<u8>, i: int) -> bool {
    i == 0 || (0 < i <= s.len() && is_line_break(s[i - 1]))
}

/// Index of the first line-anchored occurrence of `needle` in `hay` at or
/// after `i`: one that begins a line of `hay`.
pub open spec fn find_anchored_from(hay: Seq<u8>, needle: Seq<u8>, i: int) -> Option<int>
    decreases hay.len() + 1 - i,
{
    if i < 0 || i + needle.len() > hay.len() {
        None
    } else if at_line_start(hay, i) && hay.subrange(i, i + needle.len()) =~= needle {
        Some(i)
    } else {
        find_anchored_from(hay, needle, i + 1)
    }
}

/// Index of the first line-anchored occurrence of `needle` in `hay`.
pub open spec fn find_anchored_bytes(hay: Seq<u8>, needle: Seq<u8>) -> Option<int> {
    find_anchored_from(hay, needle, 0)
}

pub proof fn lemma_find_anchored_from_some(hay: Seq<u8>, needle: Seq<u8>, i: int)
    requires
        find_anchored_from(hay, needle, i) is Some,
    ensures
        match_at(hay, needle, find_anchored_from(hay, needle, i).unwrap()),
        at_line_start(hay, find_anchored_from(hay, needle, i).unwrap()),
        find_anchored_from(hay, needle, i).unwrap() >= i,
    decreases hay.len() + 1 - i,
{
    if i < 0 || i + needle.len() > hay.len() {
    } else if at_line_start(hay, i) && hay.subrange(i, i + needle.len()) =~= needle {
    } else {
        lemma_find_anchored_from_some(hay, needle, i + 1);
    }
}

/// First line-anchored occurrence of `needle` in `hay`, if any. Runtime
/// counterpart of `find_anchored_bytes`.
pub fn find_anchored_subsequence(hay: &[u8], needle: &[u8]) -> (r: Option<usize>)
    ensures
        r is Some <==> find_anchored_bytes(hay@, needle@) is Some,
        r matches Some(i) ==> find_anchored_bytes(hay@, needle@) == Some(i as int),
{
    let n = needle.len();
    let h = hay.len();
    if n > h {
        return None;
    }
    if n == 0 {
        proof {
            assert(hay@.subrange(0, 0) =~= needle@);
        }
        return Some(0);
    }
    let mut i: usize = 0;
    while i <= h - n
        invariant
            1 <= n <= h,
            h == hay@.len(),
            n == needle@.len(),
            i <= h - n + 1,
            find_anchored_bytes(hay@, needle@) == find_anchored_from(hay@, needle@, i as int),
        decreases h + 1 - i,
    {
        let anchored = if i == 0 {
            true
        } else {
            let p = hay[i - 1];
            p == 13 || p == 10
        };
        if anchored {
            if is_match_at(hay, needle, i) {
                assert(find_anchored_from(hay@, needle@, i as int) == Some(i as int));
                return Some(i);
            }
        }
        assert(find_anchored_from(hay@, needle@, i as int) == find_anchored_from(
            hay@,
            needle@,
            i + 1,
        ));
        i += 1;
    }
    assert(find_anchored_from(hay@, needle@, i as int) is None);
    None
}

/// Carriage return or line feed: the bytes that end a header line.
pub open spec fn is_line_break(b: u8) -> bool {
    b == 13 || b == 10
}

/// Space or horizontal tab: the whitespace that separates header tokens.
pub open spec fn is_space(b: u8) -> bool {
    b == 32 || b == 9
}

/// Index of the first line break in `s` at or after `i`.
pub open spec fn find_break_from(s: Seq<u8>, i: int) -> Option<int>
    decreases s.len() - i,
{
    if i < 0 || i >= s.len() {
        None
    } else if is_line_break(s[i]) {
        Some(i)
    } else {
        find_break_from(s, i + 1)
    }
}

/// First index in `[i, end)` that is not a space, or `end` if all are.
pub open spec fn skip_spaces_from(s: Seq<u8>, i: int, end: int) -> int
    decreases end - i,
{
    if i < 0 || i >= end {
        end
    } else if is_space(s[i]) {
        skip_spaces_from(s, i + 1, end)
    } else {
        i
    }
}

/// First index in `[i, end)` that is a space, or `end` if none is.
pub open spec fn find_space_from(s: Seq<u8>, i: int, end: int) -> int
    decreases end - i,
{
    if i < 0 || i >= end {
        end
    } else if is_space(s[i]) {
        i
    } else {
        find_space_from(s, i + 1, end)
    }
}

/// The end of `[start, end)` once trailing spaces are stripped: the smallest
/// boundary at or after `start` such that everything between it and `end` is
/// a space.
pub open spec fn rstrip_spaces_from(s: Seq<u8>, start: int, end: int) -> int
    decreases end - start,
{
    if end <= start {
        start
    } else if is_space(s[end - 1]) {
        rstrip_spaces_from(s, start, end - 1)
    } else {
        end
    }
}

/// Runtime counterpart of `rstrip_spaces_from`.
pub fn rstrip_spaces(s: &[u8], start: usize, end: usize) -> (r: usize)
    requires
        start <= end,
        end <= s@.len(),
    ensures
        r == rstrip_spaces_from(s@, start as int, end as int),
        start <= r <= end,
{
    let mut j = end;
    while j > start
        invariant
            start <= j <= end,
            end <= s@.len(),
            rstrip_spaces_from(s@, start as int, end as int) == rstrip_spaces_from(
                s@,
                start as int,
                j as int,
            ),
        decreases j,
    {
        let b = s[j - 1];
        if b == 32 || b == 9 {
            j -= 1;
        } else {
            return j;
        }
    }
    j
}

/// Runtime counterpart of `find_break_from`.
pub fn find_line_break(s: &[u8], from: usize) -> (r: Option<usize>)
    ensures
        r is Some <==> find_break_from(s@, from as int) is Some,
        r matches Some(i) ==> find_break_from(s@, from as int) == Some(i as int) && from <= i
            < s@.len(),
{
    let mut i = from;
    while i < s.len()
        invariant
            from <= i,
            find_break_from(s@, from as int) == find_break_from(s@, i as int),
        decreases s@.len() - i,
    {
        if s[i] == 13 || s[i] == 10 {
            return Some(i);
        }
        i += 1;
    }
    None
}

/// Runtime counterpart of `skip_spaces_from`.
pub fn skip_spaces(s: &[u8], from: usize, end: usize) -> (r: usize)
    requires
        from <= end,
        end <= s@.len(),
    ensures
        r == skip_spaces_from(s@, from as int, end as int),
        from <= r <= end,
    {
    let mut i = from;
    while i < end
        invariant
            from <= i <= end,
            end <= s@.len(),
            skip_spaces_from(s@, from as int, end as int) == skip_spaces_from(s@, i as int, end as int),
        decreases end - i,
    {
        if !(s[i] == 32 || s[i] == 9) {
            return i;
        }
        i += 1;
    }
    end
}

/// Runtime counterpart of `find_space_from`.
pub fn find_space(s: &[u8], from: usize, end: usize) -> (r: usize)
    requires
        from <= end,
        end <= s@.len(),
    ensures
        r == find_space_from(s@, from as int, end as int),
        from <= r <= end,
    {
    let mut i = from;
    while i < end
        invariant
            from <= i <= end,
            end <= s@.len(),
            find_space_from(s@, from as int, end as int) == find_space_from(s@, i as int, end as int),
        decreases end - i,
    {
        if s[i] == 32 || s[i] == 9 {
            return i;
        }
        i += 1;
    }
    end
}

/// Appends every byte of `s` to `v`, in order.
pub fn append_slice(v: &mut Vec<u8>, s: &[u8])
    ensures
        final(v)@ == old(v)@ + s@,
{
    let n = s.len();
    let mut i: usize = 0;
    while i < n
        invariant
            i <= n,
            n == s@.len(),
            v@ == old(v)@ + s@.subrange(0, i as int),
        decreases n - i,
    {
        let b = s[i];
        v.push(b);
        proof {
            assert(old(v)@ + s@.subrange(0, i as int) + seq![s@[i as int]] =~= old(v)@ + s@.subrange(
                0,
                i + 1,
            ));
        }
        i += 1;
    }
    proof {
        assert(s@.subrange(0, n as int) =~= s@);
    }
}

} // verus!

//! Trimming of ASCII whitespace at both ends of a byte string.

use vstd::prelude::*;
use vstd::slice::slice_subrange;

verus! {

/// The ASCII whitespace bytes: space, tab, line feed, vertical tab, form feed
/// and carriage return.
pub open spec fn is_whitespace(b: u8) -> bool {
    b == 0x20 || (0x09 <= b && b <= 0x0d)
}

/// Every byte of `s` is whitespace.
pub open spec fn all_whitespace(s: Seq<u8>) -> bool {
    forall|i: int| 0 <= i < s.len() ==> is_whitespace(#[trigger] s[i])
}

/// `s` neither begins nor ends with whitespace.
pub open spec fn is_trimmed(s: Seq<u8>) -> bool {
    s.len() == 0 || (!is_whitespace(s.first()) && !is_whitespace(s.last()))
}

/// `s` without its leading whitespace.
pub open spec fn trim_start(s: Seq<u8>) -> Seq<u8>
    decreases s.len(),
{
    if s.len() > 0 && is_whitespace(s.first()) {
        trim_start(s.drop_first())
    } else {
        s
    }
}

/// `s` without its trailing whitespace.
pub open spec fn trim_end(s: Seq<u8>) -> Seq<u8>
    decreases s.len(),
{
    if s.len() > 0 && is_whitespace(s.last()) {
        trim_end(s.drop_last())
    } else {
        s
    }
}

/// `s` without its leading and trailing whitespace. Whitespace inside is kept.
pub open spec fn trimmed(s: Seq<u8>) -> Seq<u8> {
    trim_end(trim_start(s))
}

/// `t` is what is left of `s` when whitespace, and nothing else, is cut off at
/// both ends for as long as there is any.
pub open spec fn is_trim_of(s: Seq<u8>, t: Seq<u8>) -> bool {
    exists|i: int, j: int|
        #![trigger s.subrange(i, j)]
        0 <= i <= j <= s.len() && t == s.subrange(i, j) && all_whitespace(s.subrange(0, i))
            && all_whitespace(s.subrange(j, s.len() as int)) && is_trimmed(t)
}

/// Tells whether `b` is an ASCII whitespace byte.
pub fn is_whitespace_byte(b: u8) -> (r: bool)
    ensures
        r == is_whitespace(b),
{
    b == 0x20 || (0x09 <= b && b <= 0x0d)
}

/// Cutting leading whitespace yields a suffix of `s` that does not begin with
/// whitespace, and only whitespace was cut.
pub proof fn lemma_trim_start(s: Seq<u8>)
    ensures
        trim_start(s).len() <= s.len(),
        trim_start(s) == s.subrange(s.len() - trim_start(s).len(), s.len() as int),
        all_whitespace(s.subrange(0, s.len() - trim_start(s).len())),
        trim_start(s).len() > 0 ==> !is_whitespace(trim_start(s).first()),
    decreases s.len(),
{
    if s.len() > 0 && is_whitespace(s.first()) {
        let rest = s.drop_first();
        lemma_trim_start(rest);
        let t = trim_start(rest);
        let cut = s.len() - t.len();
        assert(rest.subrange(rest.len() - t.len(), rest.len() as int) =~= s.subrange(
            cut,
            s.len() as int,
        ));
        assert forall|i: int| 0 <= i < cut implies is_whitespace(
            #[trigger] s.subrange(0, cut)[i],
        ) by {
            if i > 0 {
                assert(s.subrange(0, cut)[i] == rest.subrange(0, cut - 1)[i - 1]);
            }
        }
    } else {
        assert(s.subrange(0, s.len() as int) =~= s);
    }
}

/// Cutting trailing whitespace yields a prefix of `s` that does not end with
/// whitespace, and only whitespace was cut.
pub proof fn lemma_trim_end(s: Seq<u8>)
    ensures
        trim_end(s).len() <= s.len(),
        trim_end(s) == s.subrange(0, trim_end(s).len() as int),
        all_whitespace(s.subrange(trim_end(s).len() as int, s.len() as int)),
        trim_end(s).len() > 0 ==> !is_whitespace(trim_end(s).last()),
    decreases s.len(),
{
    if s.len() > 0 && is_whitespace(s.last()) {
        let rest = s.drop_last();
        lemma_trim_end(rest);
        let t = trim_end(rest);
        let kept = t.len() as int;
        assert(rest.subrange(0, kept) =~= s.subrange(0, kept));
        assert forall|i: int| 0 <= i < s.len() - kept implies is_whitespace(
            #[trigger] s.subrange(kept, s.len() as int)[i],
        ) by {
            if i < s.len() - kept - 1 {
                assert(s.subrange(kept, s.len() as int)[i] == rest.subrange(
                    kept,
                    rest.len() as int,
                )[i]);
            }
        }
    } else {
        assert(s.subrange(0, s.len() as int) =~= s);
    }
}

/// `trimmed(s)` is a trim of `s`: a part of `s` between two runs of whitespace
/// that itself has no whitespace at either end.
pub proof fn lemma_trimmed_is_trim_of(s: Seq<u8>)
    ensures
        is_trim_of(s, trimmed(s)),
        is_trimmed(trimmed(s)),
        trimmed(s).len() <= s.len(),
{
    let ts = trim_start(s);
    let t = trim_end(ts);
    lemma_trim_start(s);
    lemma_trim_end(ts);
    let i = s.len() - ts.len();
    let j = i + t.len();
    assert(t =~= s.subrange(i, j));
    assert(ts.subrange(t.len() as int, ts.len() as int) =~= s.subrange(j, s.len() as int));
    if t.len() > 0 {
        assert(t.first() == ts.first());
    }
}

/// A byte string has one trim only.
pub proof fn lemma_trim_unique(s: Seq<u8>, t1: Seq<u8>, t2: Seq<u8>)
    requires
        is_trim_of(s, t1),
        is_trim_of(s, t2),
    ensures
        t1 == t2,
{
    let (i1, j1) = choose|i: int, j: int|
        #![trigger s.subrange(i, j)]
        0 <= i <= j <= s.len() && t1 == s.subrange(i, j) && all_whitespace(s.subrange(0, i))
            && all_whitespace(s.subrange(j, s.len() as int)) && is_trimmed(t1);
    let (i2, j2) = choose|i: int, j: int|
        #![trigger s.subrange(i, j)]
        0 <= i <= j <= s.len() && t2 == s.subrange(i, j) && all_whitespace(s.subrange(0, i))
            && all_whitespace(s.subrange(j, s.len() as int)) && is_trimmed(t2);
    lemma_bounds_agree(s, i1, j1, i2, j2);
    lemma_bounds_agree(s, i2, j2, i1, j1);
    assert(t1 =~= t2);
}

/// If `s[i1..j1]` is a trim of `s` and is not empty, no other trim `s[i2..j2]`
/// starts later or ends earlier.
proof fn lemma_bounds_agree(s: Seq<u8>, i1: int, j1: int, i2: int, j2: int)
    requires
        0 <= i1 <= j1 <= s.len(),
        0 <= i2 <= j2 <= s.len(),
        is_trimmed(s.subrange(i1, j1)),
        all_whitespace(s.subrange(0, i2)),
        all_whitespace(s.subrange(j2, s.len() as int)),
    ensures
        i1 < j1 ==> i2 <= i1 && j1 <= j2,
{
    if i1 < j1 {
        let t = s.subrange(i1, j1);
        assert(t.first() == s[i1]);
        assert(t.last() == s[j1 - 1]);
        if i1 < i2 {
            assert(s.subrange(0, i2)[i1] == s[i1]);
        }
        if j2 < j1 {
            assert(s.subrange(j2, s.len() as int)[j1 - 1 - j2] == s[j1 - 1]);
        }
    }
}

/// Whitespace added before and after a byte string does not change what it
/// trims to.
pub proof fn lemma_trim_ignores_padding(before: Seq<u8>, s: Seq<u8>, after: Seq<u8>)
    requires
        all_whitespace(before),
        all_whitespace(after),
    ensures
        trimmed(before + s + after) == trimmed(s),
{
    let padded = before + s + after;
    let t = trimmed(s);
    lemma_trimmed_is_trim_of(s);
    lemma_trimmed_is_trim_of(padded);
    let (i, j) = choose|i: int, j: int|
        #![trigger s.subrange(i, j)]
        0 <= i <= j <= s.len() && t == s.subrange(i, j) && all_whitespace(s.subrange(0, i))
            && all_whitespace(s.subrange(j, s.len() as int)) && is_trimmed(t);
    let pi = before.len() + i;
    let pj = before.len() + j;
    assert(padded.subrange(pi, pj) =~= t);
    assert forall|k: int| 0 <= k < pi implies is_whitespace(
        #[trigger] padded.subrange(0, pi)[k],
    ) by {
        if k >= before.len() {
            assert(padded[k] == s.subrange(0, i)[k - before.len()]);
        }
    }
    assert forall|k: int| 0 <= k < padded.len() - pj implies is_whitespace(
        #[trigger] padded.subrange(pj, padded.len() as int)[k],
    ) by {
        if k < s.len() - j {
            assert(padded[pj + k] == s.subrange(j, s.len() as int)[k]);
        } else {
            assert(padded[pj + k] == after[k - (s.len() - j)]);
        }
    }
    assert(is_trim_of(padded, t));
    lemma_trim_unique(padded, trimmed(padded), t);
}

/// Nothing is left of a byte string exactly when it is all whitespace.
pub proof fn lemma_trim_blank(s: Seq<u8>)
    ensures
        trimmed(s).len() == 0 <==> all_whitespace(s),
{
    lemma_trimmed_is_trim_of(s);
    let (i, j) = choose|i: int, j: int|
        #![trigger s.subrange(i, j)]
        0 <= i <= j <= s.len() && trimmed(s) == s.subrange(i, j) && all_whitespace(
            s.subrange(0, i),
        ) && all_whitespace(s.subrange(j, s.len() as int)) && is_trimmed(trimmed(s));
    if all_whitespace(s) {
        if i < j {
            assert(s.subrange(i, j).first() == s[i]);
        }
    } else {
        let k = choose|k: int| 0 <= k < s.len() && !is_whitespace(#[trigger] s[k]);
        if k < i {
            assert(s.subrange(0, i)[k] == s[k]);
        } else if k >= j {
            assert(s.subrange(j, s.len() as int)[k - j] == s[k]);
        }
    }
}

/// Cuts the ASCII whitespace off both ends of `bytes`.
pub fn trim(bytes: &[u8]) -> (r: &[u8])
    ensures
        r@ == trimmed(bytes@),
{
    let len = bytes.len();
    let mut start: usize = 0;
    proof {
        assert(bytes@.subrange(0, len as int) =~= bytes@);
    }
    while start < len && is_whitespace_byte(bytes[start])
        invariant
            start <= len,
            len == bytes@.len(),
            trim_start(bytes@) == trim_start(bytes@.subrange(start as int, len as int)),
        decreases len - start,
    {
        proof {
            let rest = bytes@.subrange(start as int, len as int);
            assert(rest.drop_first() =~= bytes@.subrange(start + 1, len as int));
        }
        start += 1;
    }
    proof {
        let rest = bytes@.subrange(start as int, len as int);
        if start < len {
            assert(rest.first() == bytes@[start as int]);
        }
        assert(trim_start(rest) == rest);
    }
    let mut end: usize = len;
    while end > start && is_whitespace_byte(bytes[end - 1])
        invariant
            start <= end <= len,
            len == bytes@.len(),
            trimmed(bytes@) == trim_end(bytes@.subrange(start as int, end as int)),
        decreases end - start,
    {
        proof {
            let rest = bytes@.subrange(start as int, end as int);
            assert(rest.drop_last() =~= bytes@.subrange(start as int, end - 1));
        }
        end -= 1;
    }
    slice_subrange(bytes, start, end)
}

} // verus!

//! Byte-buffer primitives: blank trimming and sub-sequence search.

use vstd::prelude::*;

verus! {

/// A tab or a space.  No other byte counts as blank: line feeds, carriage
/// returns and form feeds are content.
pub open spec fn is_blank(b: u8) -> bool {
    b == 0x09 || b == 0x20
}

/// Number of blank bytes at the front of `s`.
pub open spec fn leading_blanks(s: Seq<u8>) -> nat
    decreases s.len(),
{
    if s.len() == 0 || !is_blank(s.first()) {
        0
    } else {
        1 + leading_blanks(s.drop_first())
    }
}

/// Number of blank bytes at the back of `s`.
pub open spec fn trailing_blanks(s: Seq<u8>) -> nat
    decreases s.len(),
{
    if s.len() == 0 || !is_blank(s.last()) {
        0
    } else {
        1 + trailing_blanks(s.drop_last())
    }
}

/// `s` without its leading and trailing blanks.
pub open spec fn trimmed(s: Seq<u8>) -> Seq<u8> {
    if leading_blanks(s) == s.len() {
        Seq::empty()
    } else {
        s.subrange(leading_blanks(s) as int, s.len() - trailing_blanks(s))
    }
}

/// The leading blanks are exactly the bytes before the first non-blank one.
pub proof fn lemma_leading_blanks(s: Seq<u8>)
    ensures
        leading_blanks(s) <= s.len(),
        forall|k: int| 0 <= k < leading_blanks(s) ==> is_blank(#[trigger] s[k]),
        leading_blanks(s) < s.len() ==> !is_blank(s[leading_blanks(s) as int]),
    decreases s.len(),
{
    if s.len() != 0 && is_blank(s.first()) {
        let rest = s.drop_first();
        lemma_leading_blanks(rest);
        assert forall|k: int| 0 <= k < leading_blanks(s) implies is_blank(#[trigger] s[k]) by {
            if k > 0 {
                assert(s[k] == rest[k - 1]);
            }
        }
        if leading_blanks(s) < s.len() {
            assert(s[leading_blanks(s) as int] == rest[leading_blanks(rest) as int]);
        }
    }
}

/// The trailing blanks are exactly the bytes after the last non-blank one.
pub proof fn lemma_trailing_blanks(s: Seq<u8>)
    ensures
        trailing_blanks(s) <= s.len(),
        forall|k: int| s.len() - trailing_blanks(s) <= k < s.len() ==> is_blank(#[trigger] s[k]),
        trailing_blanks(s) < s.len() ==> !is_blank(s[s.len() - trailing_blanks(s) - 1]),
    decreases s.len(),
{
    if s.len() != 0 && is_blank(s.last()) {
        let rest = s.drop_last();
        lemma_trailing_blanks(rest);
        assert forall|k: int| s.len() - trailing_blanks(s) <= k < s.len() implies is_blank(
            #[trigger] s[k],
        ) by {
            if k < s.len() - 1 {
                assert(s[k] == rest[k]);
            }
        }
        if trailing_blanks(s) < s.len() {
            assert(s[s.len() - trailing_blanks(s) - 1] == rest[rest.len() - trailing_blanks(rest)
                - 1]);
        }
    }
}

/// A run of blanks at the front, followed by a non-blank byte or the end,
/// is the whole of the leading blanks.
pub proof fn lemma_leading_blanks_is(s: Seq<u8>, n: int)
    requires
        0 <= n <= s.len(),
        forall|k: int| 0 <= k < n ==> is_blank(#[trigger] s[k]),
        n < s.len() ==> !is_blank(s[n]),
    ensures
        leading_blanks(s) == n,
    decreases s.len(),
{
    if n > 0 {
        let rest = s.drop_first();
        assert(is_blank(s[0]));
        assert forall|k: int| 0 <= k < n - 1 implies is_blank(#[trigger] rest[k]) by {
            assert(rest[k] == s[k + 1]);
        }
        if n - 1 < rest.len() {
            assert(rest[n - 1] == s[n]);
        }
        lemma_leading_blanks_is(rest, n - 1);
    }
}

/// A run of blanks at the back, preceded by a non-blank byte or the start,
/// is the whole of the trailing blanks.
pub proof fn lemma_trailing_blanks_is(s: Seq<u8>, n: int)
    requires
        0 <= n <= s.len(),
        forall|k: int| s.len() - n <= k < s.len() ==> is_blank(#[trigger] s[k]),
        n < s.len() ==> !is_blank(s[s.len() - n - 1]),
    ensures
        trailing_blanks(s) == n,
    decreases s.len(),
{
    if n > 0 {
        let rest = s.drop_last();
        assert(is_blank(s[s.len() - 1]));
        assert forall|k: int| rest.len() - (n - 1) <= k < rest.len() implies is_blank(
            #[trigger] rest[k],
        ) by {
            assert(rest[k] == s[k]);
        }
        if n - 1 < rest.len() {
            assert(rest[rest.len() - (n - 1) - 1] == s[s.len() - n - 1]);
        }
        lemma_trailing_blanks_is(rest, n - 1);
    }
}

/// Copies `bytes` without its leading and trailing tabs and spaces.
pub fn trim(bytes: &[u8]) -> (out: Vec<u8>)
    ensures
        out@ == trimmed(bytes@),
{
    let n = bytes.len();
    let mut first: usize = 0;
    while first < n && (bytes[first] == 0x09 || bytes[first] == 0x20)
        invariant
            first <= n,
            n == bytes@.len(),
            forall|k: int| 0 <= k < first ==> is_blank(#[trigger] bytes@[k]),
        decreases n - first,
    {
        first += 1;
    }
    proof {
        lemma_leading_blanks_is(bytes@, first as int);
    }
    let mut out: Vec<u8> = Vec::new();
    if first == n {
        return out;
    }
    let mut end: usize = n;
    while end > first + 1 && (bytes[end - 1] == 0x09 || bytes[end - 1] == 0x20)
        invariant
            first < end <= n,
            n == bytes@.len(),
            !is_blank(bytes@[first as int]),
            forall|k: int| end <= k < n ==> is_blank(#[trigger] bytes@[k]),
        decreases end,
    {
        end -= 1;
    }
    proof {
        lemma_trailing_blanks_is(bytes@, n - end);
    }
    let mut i: usize = first;
    while i < end
        invariant
            first <= i <= end <= n,
            n == bytes@.len(),
            out@ == bytes@.subrange(first as int, i as int),
        decreases end - i,
    {
        out.push(bytes[i]);
        i += 1;
    }
    out
}

/// Trimming keeps one contiguous stretch of the input and drops nothing but
/// blanks; what is left neither starts nor ends with a blank.
pub proof fn lemma_trim_keeps_tight_slice(s: Seq<u8>)
    ensures
        exists|i: int, j: int|
            {
                &&& 0 <= i <= j <= s.len()
                &&& #[trigger] s.subrange(i, j) == trimmed(s)
                &&& forall|k: int| 0 <= k < i ==> is_blank(#[trigger] s[k])
                &&& forall|k: int| j <= k < s.len() ==> is_blank(#[trigger] s[k])
            },
        trimmed(s).len() > 0 ==> !is_blank(trimmed(s).first()) && !is_blank(trimmed(s).last()),
{
    lemma_leading_blanks(s);
    lemma_trailing_blanks(s);
    let i = leading_blanks(s) as int;
    if i == s.len() {
        assert(s.subrange(i, i) =~= trimmed(s));
    } else {
        let j = s.len() - trailing_blanks(s);
        if j <= i {
            assert(is_blank(s[i]));
        }
        assert(s.subrange(i, j) == trimmed(s));
    }
}

/// Trimming twice is trimming once.
pub proof fn lemma_trim_idempotent(s: Seq<u8>)
    ensures
        trimmed(trimmed(s)) == trimmed(s),
{
    lemma_trim_keeps_tight_slice(s);
    let t = trimmed(s);
    if t.len() > 0 {
        lemma_leading_blanks_is(t, 0);
        lemma_trailing_blanks_is(t, 0);
        assert(t.subrange(0, t.len() as int) =~= t);
    }
}

/// `s` with every line feed removed and all else kept in order.
pub open spec fn without_line_feeds(s: Seq<u8>) -> Seq<u8>
    decreases s.len(),
{
    if s.len() == 0 {
        Seq::empty()
    } else if s.last() == 0x0a {
        without_line_feeds(s.drop_last())
    } else {
        without_line_feeds(s.drop_last()).push(s.last())
    }
}

/// Copies `bytes`, leaving out each line feed.
pub fn strip_line_feeds(bytes: &[u8]) -> (out: Vec<u8>)
    ensures
        out@ == without_line_feeds(bytes@),
{
    let mut out: Vec<u8> = Vec::new();
    let mut i: usize = 0;
    while i < bytes.len()
        invariant
            i <= bytes@.len(),
            out@ == without_line_feeds(bytes@.take(i as int)),
        decreases bytes@.len() - i,
    {
        proof {
            assert(bytes@.take(i + 1).drop_last() =~= bytes@.take(i as int));
        }
        if bytes[i] != 0x0a {
            out.push(bytes[i]);
        }
        i += 1;
    }
    proof {
        assert(bytes@.take(bytes@.len() as int) =~= bytes@);
    }
    out
}

/// A fresh copy of `bytes`.
pub fn copy_of(bytes: &[u8]) -> (out: Vec<u8>)
    ensures
        out@ == bytes@,
{
    let mut out: Vec<u8> = Vec::new();
    let mut i: usize = 0;
    while i < bytes.len()
        invariant
            i <= bytes@.len(),
            out@ == bytes@.take(i as int),
        decreases bytes@.len() - i,
    {
        out.push(bytes[i]);
        proof {
            assert(bytes@.take(i + 1) =~= bytes@.take(i as int).push(bytes@[i as int]));
        }
        i += 1;
    }
    proof {
        assert(bytes@.take(bytes@.len() as int) =~= bytes@);
    }
    out
}

/// Whether two buffers hold the same bytes.
pub fn same_bytes(a: &[u8], b: &[u8]) -> (same: bool)
    ensures
        same == (a@ == b@),
{
    if a.len() != b.len() {
        return false;
    }
    let mut i: usize = 0;
    while i < a.len()
        invariant
            i <= a@.len(),
            a@.len() == b@.len(),
            a@.take(i as int) == b@.take(i as int),
        decreases a@.len() - i,
    {
        if a[i] != b[i] {
            proof {
                assert(a@[i as int] != b@[i as int]);
            }
            return false;
        }
        proof {
            assert(a@.take(i + 1) =~= a@.take(i as int).push(a@[i as int]));
            assert(b@.take(i + 1) =~= b@.take(i as int).push(b@[i as int]));
        }
        i += 1;
    }
    proof {
        assert(a@.take(a@.len() as int) =~= a@);
        assert(b@.take(b@.len() as int) =~= b@);
    }
    true
}

} // verus!

//! Reading the list of public keys that the service publishes for a user:
//! one key to a line.

use vstd::prelude::*;
use vstd::string::StrSliceExecFns;
use crate::text::chars_of;

verus! {

/// Whether `c` is white space: a character with the Unicode property
/// `White_Space`.
pub open spec fn is_space(c: char) -> bool {
    let code = c as u32;
    ||| 0x09 <= code <= 0x0d
    ||| code == 0x20
    ||| code == 0x85
    ||| code == 0xa0
    ||| code == 0x1680
    ||| 0x2000 <= code <= 0x200a
    ||| code == 0x2028
    ||| code == 0x2029
    ||| code == 0x202f
    ||| code == 0x205f
    ||| code == 0x3000
}

/// Number of white-space characters at the front of `s`.
pub open spec fn leading_spaces(s: Seq<char>) -> nat
    decreases s.len(),
{
    if s.len() == 0 || !is_space(s.first()) {
        0
    } else {
        1 + leading_spaces(s.drop_first())
    }
}

/// Number of white-space characters at the back of `s`.
pub open spec fn trailing_spaces(s: Seq<char>) -> nat
    decreases s.len(),
{
    if s.len() == 0 || !is_space(s.last()) {
        0
    } else {
        1 + trailing_spaces(s.drop_last())
    }
}

/// `s` without its leading and trailing white space.
pub open spec fn stripped(s: Seq<char>) -> Seq<char> {
    if leading_spaces(s) == s.len() {
        Seq::empty()
    } else {
        s.subrange(leading_spaces(s) as int, s.len() - trailing_spaces(s))
    }
}

/// Length of the first line of `s`: the characters before its first line
/// feed, or all of them.
pub open spec fn first_line_len(s: Seq<char>) -> nat
    decreases s.len(),
{
    if s.len() == 0 || s.first() == '\n' {
        0
    } else {
        1 + first_line_len(s.drop_first())
    }
}

/// The keys listed in `body`: its lines, each without the white space
/// around it, leaving out those that are empty.
pub open spec fn listed_keys(body: Seq<char>) -> Seq<Seq<char>>
    decreases body.len(),
{
    if body.len() == 0 {
        Seq::empty()
    } else {
        let n = first_line_len(body) as int;
        let key = stripped(body.take(n));
        let rest = if n < body.len() {
            listed_keys(body.skip(n + 1))
        } else {
            Seq::empty()
        };
        if key.len() > 0 {
            seq![key] + rest
        } else {
            rest
        }
    }
}

/// The keys of a list, each by its view.
pub open spec fn keys_view(keys: Seq<String>) -> Seq<Seq<char>> {
    keys.map_values(|key: String| key@)
}

/// Address of the list of public keys of the user `handle`.
pub open spec fn keys_address(handle: Seq<char>) -> Seq<char> {
    "https://github.com/"@ + handle + ".keys"@
}

/// A stretch free of line feeds that ends at a line feed or at the end is
/// the first line.
proof fn lemma_first_line_len_is(s: Seq<char>, n: int)
    requires
        0 <= n <= s.len(),
        forall|k: int| 0 <= k < n ==> #[trigger] s[k] != '\n',
        n < s.len() ==> s[n] == '\n',
    ensures
        first_line_len(s) == n,
    decreases s.len(),
{
    if n > 0 {
        let rest = s.drop_first();
        assert(s[0] != '\n');
        assert forall|k: int| 0 <= k < n - 1 implies #[trigger] rest[k] != '\n' by {
            assert(rest[k] == s[k + 1]);
        }
        if n - 1 < rest.len() {
            assert(rest[n - 1] == s[n]);
        }
        lemma_first_line_len_is(rest, n - 1);
    }
}

proof fn lemma_leading_spaces_is(s: Seq<char>, n: int)
    requires
        0 <= n <= s.len(),
        forall|k: int| 0 <= k < n ==> is_space(#[trigger] s[k]),
        n < s.len() ==> !is_space(s[n]),
    ensures
        leading_spaces(s) == n,
    decreases s.len(),
{
    if n > 0 {
        let rest = s.drop_first();
        assert(is_space(s[0]));
        assert forall|k: int| 0 <= k < n - 1 implies is_space(#[trigger] rest[k]) by {
            assert(rest[k] == s[k + 1]);
        }
        if n - 1 < rest.len() {
            assert(rest[n - 1] == s[n]);
        }
        lemma_leading_spaces_is(rest, n - 1);
    }
}

proof fn lemma_trailing_spaces_is(s: Seq<char>, n: int)
    requires
        0 <= n <= s.len(),
        forall|k: int| s.len() - n <= k < s.len() ==> is_space(#[trigger] s[k]),
        n < s.len() ==> !is_space(s[s.len() - n - 1]),
    ensures
        trailing_spaces(s) == n,
    decreases s.len(),
{
    if n > 0 {
        let rest = s.drop_last();
        assert(is_space(s[s.len() - 1]));
        assert forall|k: int| rest.len() - (n - 1) <= k < rest.len() implies is_space(
            #[trigger] rest[k],
        ) by {
            assert(rest[k] == s[k]);
        }
        if n - 1 < rest.len() {
            assert(rest[rest.len() - (n - 1) - 1] == s[s.len() - n - 1]);
        }
        lemma_trailing_spaces_is(rest, n - 1);
    }
}

/// Whether `c` is white space.
pub fn is_white_space(c: char) -> (space: bool)
    ensures
        space == is_space(c),
{
    let code = c as u32;
    (0x09 <= code && code <= 0x0d) || code == 0x20 || code == 0x85 || code == 0xa0 || code
        == 0x1680 || (0x2000 <= code && code <= 0x200a) || code == 0x2028 || code == 0x2029 || code
        == 0x202f || code == 0x205f || code == 0x3000
}

/// The bounds, within `chars`, of the line `chars[from..to]` without the
/// white space around it; equal bounds where nothing is left.
fn strip_bounds(chars: &Vec<char>, from: usize, to: usize) -> (bounds: (usize, usize))
    requires
        from <= to <= chars@.len(),
    ensures
        from <= bounds.0 <= bounds.1 <= to,
        chars@.subrange(bounds.0 as int, bounds.1 as int) == stripped(
            chars@.subrange(from as int, to as int),
        ),
{
    let ghost line = chars@.subrange(from as int, to as int);
    let mut first = from;
    while first < to && is_white_space(chars[first])
        invariant
            from <= first <= to <= chars@.len(),
            line == chars@.subrange(from as int, to as int),
            forall|k: int| 0 <= k < first - from ==> is_space(#[trigger] line[k]),
        decreases to - first,
    {
        first += 1;
    }
    proof {
        lemma_leading_spaces_is(line, first - from);
    }
    if first == to {
        proof {
            assert(chars@.subrange(first as int, first as int) =~= Seq::<char>::empty());
        }
        return (first, first);
    }
    let mut end = to;
    while end > first + 1 && is_white_space(chars[end - 1])
        invariant
            from <= first < end <= to <= chars@.len(),
            line == chars@.subrange(from as int, to as int),
            !is_space(line[first - from]),
            forall|k: int| end - from <= k < line.len() ==> is_space(#[trigger] line[k]),
        decreases end,
    {
        end -= 1;
    }
    proof {
        lemma_trailing_spaces_is(line, to - end);
        assert(chars@.subrange(first as int, end as int) =~= line.subrange(
            first - from,
            line.len() - (to - end),
        ));
    }
    (first, end)
}

/// The keys listed in `body`, one to a line: each line without the white
/// space around it, leaving out the lines that are empty.
pub fn get_github_user_public_ssh_keys(body: &str) -> (keys: Vec<String>)
    ensures
        keys_view(keys@) == listed_keys(body@),
{
    let chars = chars_of(body);
    let n = chars.len();
    let mut keys: Vec<String> = Vec::new();
    let mut at: usize = 0;
    proof {
        assert(body@.skip(0) =~= body@);
        assert(keys_view(keys@) + listed_keys(body@) =~= listed_keys(body@));
    }
    while at < n
        invariant
            at <= n,
            n == body@.len(),
            chars@ == body@,
            keys_view(keys@) + listed_keys(body@.skip(at as int)) == listed_keys(body@),
        decreases n - at,
    {
        let ghost rest = body@.skip(at as int);
        let mut end = at;
        while end < n && chars[end] != '\n'
            invariant
                at <= end <= n,
                n == chars@.len(),
                chars@ == body@,
                rest == body@.skip(at as int),
                forall|k: int| 0 <= k < end - at ==> #[trigger] rest[k] != '\n',
            decreases n - end,
        {
            end += 1;
        }
        proof {
            lemma_first_line_len_is(rest, end - at);
            assert(rest.take(end - at) =~= chars@.subrange(at as int, end as int));
        }
        let (first, last) = strip_bounds(&chars, at, end);
        let ghost before = keys_view(keys@);
        let ghost key = chars@.subrange(first as int, last as int);
        if first < last {
            keys.push(body.substring_char(first, last).to_owned());
            proof {
                assert(keys_view(keys@) =~= before.push(key));
            }
        }
        let next = if end < n {
            end + 1
        } else {
            end
        };
        proof {
            let later = if end < n {
                listed_keys(rest.skip(end - at + 1))
            } else {
                Seq::empty()
            };
            if end < n {
                assert(rest.skip(end - at + 1) =~= body@.skip(next as int));
            } else {
                assert(body@.skip(next as int).len() == 0);
            }
            assert(later == listed_keys(body@.skip(next as int)));
            if first < last {
                assert(before.push(key) + later =~= before + (seq![key] + later));
            }
        }
        at = next;
    }
    proof {
        assert(keys_view(keys@) + Seq::<Seq<char>>::empty() =~= keys_view(keys@));
    }
    keys
}

/// The address of the list of public keys of the user `handle`.
pub fn keys_url(handle: &str) -> (url: String)
    ensures
        url@ == keys_address(handle@),
{
    let mut url = String::from_str("https://github.com/");
    url.append(handle);
    url.append(".keys");
    url
}

} // verus!

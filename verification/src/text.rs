//! Text helpers: byte-bounded truncation that keeps whole characters.

use vstd::prelude::*;
use vstd::string::StrSliceExecFns;

verus! {

broadcast use vstd::string::group_string_axioms;

/// The number of bytes of a character's UTF-8 encoding.
pub open spec fn utf8_width(c: char) -> nat {
    if (c as u32) < 0x80 {
        1
    } else if (c as u32) < 0x800 {
        2
    } else if (c as u32) < 0x10000 {
        3
    } else {
        4
    }
}

/// The number of bytes of the UTF-8 encoding of a text.
pub open spec fn utf8_len(s: Seq<char>) -> nat
    decreases s.len(),
{
    if s.len() == 0 {
        0
    } else {
        utf8_width(s[0]) + utf8_len(s.drop_first())
    }
}

/// The longest prefix of `s` whose UTF-8 encoding takes at most
/// `max_bytes` bytes.
pub open spec fn truncate_chars(s: Seq<char>, max_bytes: nat) -> Seq<char>
    decreases s.len(),
{
    if s.len() == 0 {
        s
    } else if utf8_width(s[0]) > max_bytes {
        Seq::empty()
    } else {
        seq![s[0]] + truncate_chars(s.drop_first(), (max_bytes - utf8_width(s[0])) as nat)
    }
}

/// The number of bytes of a character's UTF-8 encoding.
pub fn char_width(c: char) -> (w: usize)
    ensures
        w == utf8_width(c),
{
    let v = c as u32;
    if v < 0x80 {
        1
    } else if v < 0x800 {
        2
    } else if v < 0x10000 {
        3
    } else {
        4
    }
}

/// Truncation keeps the longest prefix that fits: its encoding takes at
/// most `max_bytes` bytes, and where a character was cut, adding it back
/// would not fit.
pub proof fn lemma_truncate_fits(s: Seq<char>, max_bytes: nat)
    ensures
        utf8_len(truncate_chars(s, max_bytes)) <= max_bytes,
        truncate_chars(s, max_bytes).len() < s.len() ==> utf8_len(truncate_chars(s, max_bytes)) + utf8_width(
            s[truncate_chars(s, max_bytes).len() as int],
        ) > max_bytes,
    decreases s.len(),
{
    if s.len() > 0 && utf8_width(s[0]) <= max_bytes {
        let rest = (max_bytes - utf8_width(s[0])) as nat;
        lemma_truncate_fits(s.drop_first(), rest);
        let t = truncate_chars(s.drop_first(), rest);
        assert((seq![s[0]] + t).drop_first() =~= t);
        assert((seq![s[0]] + t)[0] == s[0]);
        if t.len() < s.drop_first().len() {
            assert(s[t.len() as int + 1] == s.drop_first()[t.len() as int]);
        }
    }
}

/// `truncate_chars` keeps a prefix.
pub proof fn lemma_truncate_prefix(s: Seq<char>, max_bytes: nat)
    ensures
        truncate_chars(s, max_bytes).len() <= s.len(),
        truncate_chars(s, max_bytes) == s.subrange(0, truncate_chars(s, max_bytes).len() as int),
    decreases s.len(),
{
    if s.len() > 0 && utf8_width(s[0]) <= max_bytes {
        lemma_truncate_prefix(s.drop_first(), (max_bytes - utf8_width(s[0])) as nat);
        let t = truncate_chars(s.drop_first(), (max_bytes - utf8_width(s[0])) as nat);
        assert(seq![s[0]] + t =~= s.subrange(0, t.len() as int + 1));
    } else if s.len() > 0 {
        assert(Seq::<char>::empty() =~= s.subrange(0, 0));
    }
}

/// Peeling the first `i` characters off `s` and its budget.
pub proof fn lemma_truncate_step(s: Seq<char>, max_bytes: nat, i: int, used: nat)
    requires
        0 <= i < s.len(),
        used + utf8_len(s.subrange(i, s.len() as int)) >= 0,
        truncate_chars(s, max_bytes) == s.subrange(0, i) + truncate_chars(
            s.subrange(i, s.len() as int),
            (max_bytes - used) as nat,
        ),
        used <= max_bytes,
        used + utf8_width(s[i]) <= max_bytes,
    ensures
        truncate_chars(s, max_bytes) == s.subrange(0, i + 1) + truncate_chars(
            s.subrange(i + 1, s.len() as int),
            (max_bytes - (used + utf8_width(s[i]))) as nat,
        ),
{
    let rest = s.subrange(i, s.len() as int);
    assert(rest[0] == s[i]);
    assert(rest.drop_first() =~= s.subrange(i + 1, s.len() as int));
    assert(s.subrange(0, i) + (seq![s[i]] + truncate_chars(
        s.subrange(i + 1, s.len() as int),
        (max_bytes - (used + utf8_width(s[i]))) as nat,
    )) =~= s.subrange(0, i + 1) + truncate_chars(
        s.subrange(i + 1, s.len() as int),
        (max_bytes - (used + utf8_width(s[i]))) as nat,
    ));
}

/// Truncate a string to at most `max_bytes` bytes without splitting a
/// character: the longest prefix whose UTF-8 encoding fits.
pub fn truncate_str(s: &str, max_bytes: usize) -> (t: &str)
    ensures
        t@ == truncate_chars(s@, max_bytes as nat),
{
    let n = s.unicode_len();
    let mut chars = s.chars();
    let mut i: usize = 0;
    let mut used: usize = 0;
    proof {
        assert(s@.subrange(0, 0) + s@.subrange(0, s@.len() as int) =~= s@);
        assert(s@.subrange(0, s@.len() as int) =~= s@);
    }
    while i < n
        invariant
            n == s@.len(),
            i <= n,
            used <= max_bytes,
            vstd::std_specs::iter::IteratorSpec::obeys_prophetic_iter_laws(&chars),
            vstd::std_specs::iter::IteratorSpec::remaining(&chars) == s@.subrange(i as int, s@.len() as int),
            truncate_chars(s@, max_bytes as nat) == s@.subrange(0, i as int) + truncate_chars(
                s@.subrange(i as int, s@.len() as int),
                (max_bytes - used) as nat,
            ),
        decreases n - i,
    {
        let next = chars.next();
        let c = match next {
            Some(c) => c,
            None => {
                return s;
            },
        };
        assert(c == s@[i as int]);
        assert(vstd::std_specs::iter::IteratorSpec::remaining(&chars) =~= s@.subrange(i + 1, s@.len() as int));
        let w = char_width(c);
        if w > max_bytes - used {
            proof {
                let rest = s@.subrange(i as int, s@.len() as int);
                assert(rest[0] == c);
                assert(s@.subrange(0, i as int) + Seq::<char>::empty() =~= s@.subrange(0, i as int));
            }
            return s.substring_char(0, i);
        }
        proof {
            lemma_truncate_step(s@, max_bytes as nat, i as int, used as nat);
        }
        used = used + w;
        i = i + 1;
    }
    proof {
        assert(s@.subrange(n as int, s@.len() as int) =~= Seq::<char>::empty());
        assert(s@.subrange(0, n as int) + Seq::<char>::empty() =~= s@);
    }
    s
}


/// Whether a character has the Unicode `White_Space` property, which is
/// what `char::is_whitespace` tests.
pub open spec fn is_ws(c: char) -> bool {
    let v = c as u32;
    (0x9 <= v && v <= 0xd) || v == 0x20 || v == 0x85 || v == 0xa0 || v == 0x1680 || (0x2000 <= v
        && v <= 0x200a) || v == 0x2028 || v == 0x2029 || v == 0x202f || v == 0x205f || v == 0x3000
}

/// Whether a character is whitespace (Unicode `White_Space`).
pub fn is_whitespace(c: char) -> (ws: bool)
    ensures
        ws == is_ws(c),
{
    let v = c as u32;
    (0x9 <= v && v <= 0xd) || v == 0x20 || v == 0x85 || v == 0xa0 || v == 0x1680 || (0x2000 <= v
        && v <= 0x200a) || v == 0x2028 || v == 0x2029 || v == 0x202f || v == 0x205f || v == 0x3000
}

/// The number of leading whitespace characters of `s`.
pub open spec fn leading_ws(s: Seq<char>) -> nat
    decreases s.len(),
{
    if s.len() == 0 || !is_ws(s[0]) {
        0
    } else {
        1 + leading_ws(s.drop_first())
    }
}

/// The number of trailing whitespace characters of `s`.
pub open spec fn trailing_ws(s: Seq<char>) -> nat
    decreases s.len(),
{
    if s.len() == 0 || !is_ws(s.last()) {
        0
    } else {
        1 + trailing_ws(s.drop_last())
    }
}

/// `s` without its leading and trailing whitespace.
pub open spec fn trim_chars(s: Seq<char>) -> Seq<char> {
    let t = s.subrange(leading_ws(s) as int, s.len() as int);
    t.subrange(0, t.len() - trailing_ws(t))
}

/// The words of `s` (runs of non-whitespace) joined by single spaces;
/// `emitted` tells whether a word came before, `pending` whether a
/// separator is owed before the next word.
pub open spec fn collapse_from(s: Seq<char>, emitted: bool, pending: bool) -> Seq<char>
    decreases s.len(),
{
    if s.len() == 0 {
        Seq::empty()
    } else if is_ws(s[0]) {
        collapse_from(s.drop_first(), emitted, emitted)
    } else {
        (if pending {
            seq![' ', s[0]]
        } else {
            seq![s[0]]
        }) + collapse_from(s.drop_first(), true, false)
    }
}

/// The words of `s` joined by single spaces.
pub open spec fn collapse_whitespace(s: Seq<char>) -> Seq<char> {
    collapse_from(s, false, false)
}

/// Leading whitespace is a prefix of whitespace characters.
pub proof fn lemma_leading_ws(s: Seq<char>)
    ensures
        leading_ws(s) <= s.len(),
        forall|i: int| 0 <= i < leading_ws(s) ==> is_ws(#[trigger] s[i]),
        leading_ws(s) < s.len() ==> !is_ws(s[leading_ws(s) as int]),
    decreases s.len(),
{
    if s.len() > 0 && is_ws(s[0]) {
        lemma_leading_ws(s.drop_first());
        assert forall|i: int| 0 <= i < leading_ws(s) implies is_ws(#[trigger] s[i]) by {
            if i > 0 {
                assert(s[i] == s.drop_first()[i - 1]);
            }
        }
    }
}

/// Trailing whitespace is a suffix of whitespace characters.
pub proof fn lemma_trailing_ws(s: Seq<char>)
    ensures
        trailing_ws(s) <= s.len(),
        forall|i: int| s.len() - trailing_ws(s) <= i < s.len() ==> is_ws(#[trigger] s[i]),
        trailing_ws(s) < s.len() ==> !is_ws(s[s.len() - trailing_ws(s) - 1]),
    decreases s.len(),
{
    if s.len() > 0 && is_ws(s.last()) {
        lemma_trailing_ws(s.drop_last());
        assert forall|i: int| s.len() - trailing_ws(s) <= i < s.len() implies is_ws(#[trigger] s[i]) by {
            if i < s.len() - 1 {
                assert(s[i] == s.drop_last()[i]);
            }
        }
    }
}

/// Counting leading whitespace from index `i` on.
proof fn lemma_leading_ws_from(s: Seq<char>, i: int)
    requires
        0 <= i < s.len(),
        is_ws(s[i]),
    ensures
        leading_ws(s.subrange(i, s.len() as int)) == 1 + leading_ws(s.subrange(i + 1, s.len() as int)),
{
    assert(s.subrange(i, s.len() as int).drop_first() =~= s.subrange(i + 1, s.len() as int));
}

/// Counting trailing whitespace up to index `j`.
proof fn lemma_trailing_ws_upto(s: Seq<char>, j: int)
    requires
        0 < j <= s.len(),
        is_ws(s[j - 1]),
    ensures
        trailing_ws(s.subrange(0, j)) == 1 + trailing_ws(s.subrange(0, j - 1)),
{
    assert(s.subrange(0, j).drop_last() =~= s.subrange(0, j - 1));
}

/// `s` without its leading and trailing whitespace (as `str::trim`).
pub fn trim(s: &str) -> (t: &str)
    ensures
        t@ == trim_chars(s@),
{
    let n = s.unicode_len();
    let mut start: usize = 0;
    proof {
        assert(s@.subrange(0, n as int) =~= s@);
    }
    while start < n && is_whitespace(s.get_char(start))
        invariant
            n == s@.len(),
            start <= n,
            leading_ws(s@) == start + leading_ws(s@.subrange(start as int, n as int)),
        decreases n - start,
    {
        proof {
            lemma_leading_ws_from(s@, start as int);
        }
        start = start + 1;
    }
    proof {
        if start < n {
            assert(s@.subrange(start as int, n as int)[0] == s@[start as int]);
        } else {
            assert(s@.subrange(start as int, n as int).len() == 0);
        }
        assert(leading_ws(s@) == start);
    }
    let rest = s.substring_char(start, n);
    let m = n - start;
    let mut end: usize = m;
    proof {
        assert(rest@.subrange(0, m as int) =~= rest@);
    }
    while end > 0 && is_whitespace(rest.get_char(end - 1))
        invariant
            m == rest@.len(),
            end <= m,
            trailing_ws(rest@) == (m - end) + trailing_ws(rest@.subrange(0, end as int)),
        decreases end,
    {
        proof {
            lemma_trailing_ws_upto(rest@, end as int);
        }
        end = end - 1;
    }
    proof {
        if end > 0 {
            assert(rest@.subrange(0, end as int).last() == rest@[end - 1]);
        }
        assert(trailing_ws(rest@) == m - end);
    }
    rest.substring_char(0, end)
}

/// A text made of the given characters.
///
/// Collects the characters into a `String` (std's `FromIterator<char>`),
/// which holds exactly them, in order.
#[verifier::external_body]
pub(crate) fn string_from_chars(chars: &Vec<char>) -> (s: String)
    ensures
        s@ == chars@,
{
    chars.iter().collect::<String>()
}

/// The characters of a text.
pub fn chars_of(s: &str) -> (v: Vec<char>)
    ensures
        v@ == s@,
{
    let n = s.unicode_len();
    let mut chars = s.chars();
    let mut v: Vec<char> = Vec::new();
    let mut i: usize = 0;
    proof {
        assert(s@.subrange(0, s@.len() as int) =~= s@);
    }
    while i < n
        invariant
            n == s@.len(),
            i <= n,
            vstd::std_specs::iter::IteratorSpec::obeys_prophetic_iter_laws(&chars),
            vstd::std_specs::iter::IteratorSpec::remaining(&chars) == s@.subrange(i as int, s@.len() as int),
            v@ == s@.subrange(0, i as int),
        decreases n - i,
    {
        let next = chars.next();
        match next {
            Some(c) => {
                assert(c == s@[i as int]);
                assert(vstd::std_specs::iter::IteratorSpec::remaining(&chars) =~= s@.subrange(i + 1, s@.len() as int));
                v.push(c);
                i = i + 1;
                proof {
                    assert(v@ =~= s@.subrange(0, i as int));
                }
            },
            None => {
                assert(false);
                return v;
            },
        }
    }
    proof {
        assert(v@ =~= s@);
    }
    v
}

/// The words of a text joined by single spaces (as
/// `split_whitespace().collect::<Vec<_>>().join(" ")`).
pub fn collapse_ws(s: &str) -> (t: String)
    ensures
        t@ == collapse_whitespace(s@),
{
    let chars = chars_of(s);
    let mut out: Vec<char> = Vec::new();
    let mut emitted = false;
    let mut pending = false;
    let mut i: usize = 0;
    proof {
        assert(chars@.subrange(0, chars@.len() as int) =~= chars@);
        assert(out@ + collapse_from(chars@.subrange(0, chars@.len() as int), false, false) =~= collapse_whitespace(s@));
    }
    while i < chars.len()
        invariant
            chars@ == s@,
            i <= chars@.len(),
            out@ + collapse_from(chars@.subrange(i as int, chars@.len() as int), emitted, pending)
                == collapse_whitespace(s@),
        decreases chars.len() - i,
    {
        let c = chars[i];
        let ghost rest = chars@.subrange(i as int, chars@.len() as int);
        proof {
            assert(rest[0] == c);
            assert(rest.drop_first() =~= chars@.subrange(i + 1, chars@.len() as int));
        }
        if is_whitespace(c) {
            pending = emitted;
        } else {
            let ghost before = out@;
            if pending {
                out.push(' ');
            }
            out.push(c);
            proof {
                let tail = collapse_from(chars@.subrange(i + 1, chars@.len() as int), true, false);
                if pending {
                    assert(out@ =~= before + seq![' ', c]);
                } else {
                    assert(out@ =~= before + seq![c]);
                }
                assert(before + ((if pending { seq![' ', c] } else { seq![c] }) + tail) =~= out@ + tail);
            }
            emitted = true;
            pending = false;
        }
        i = i + 1;
    }
    proof {
        assert(chars@.subrange(chars@.len() as int, chars@.len() as int) =~= Seq::<char>::empty());
        assert(out@ + Seq::<char>::empty() =~= out@);
    }
    string_from_chars(&out)
}

/// An optional text cut to at most `max_bytes` bytes.
pub open spec fn opt_truncated(t: Option<Seq<char>>, max_bytes: nat) -> Option<Seq<char>> {
    match t {
        Some(t) => Some(truncate_chars(t, max_bytes)),
        None => None,
    }
}

/// The view of an optional string slice.
pub open spec fn opt_view(t: Option<&str>) -> Option<Seq<char>> {
    match t {
        Some(t) => Some(t@),
        None => None,
    }
}

/// An optional string slice cut to at most `max_bytes` bytes, as an owned
/// text.
pub fn opt_truncate(t: Option<&str>, max_bytes: usize) -> (r: Option<String>)
    ensures
        r.deep_view() == opt_truncated(opt_view(t), max_bytes as nat),
{
    match t {
        Some(t) => Some(truncate_str(t, max_bytes).to_owned()),
        None => None,
    }
}

} // verus!

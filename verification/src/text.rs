//! Small verified helpers on strings.

use vstd::prelude::*;
use vstd::string::*;

verus! {

/// The view of an optional owned string.
pub open spec fn opt_view(o: Option<String>) -> Option<Seq<char>> {
    match o {
        Some(t) => Some(t@),
        None => None,
    }
}

/// `i` is the position of the first `sep` in `s`.
pub open spec fn is_first_index(s: Seq<char>, sep: char, i: int) -> bool {
    &&& 0 <= i < s.len()
    &&& s[i] == sep
    &&& !s.take(i).contains(sep)
}

/// What `splitn(2, sep)` yields on `s`: the text before the first `sep`
/// (all of `s` when there is none) and, when there is one, the text after it.
pub open spec fn split_once(s: Seq<char>, sep: char) -> (Seq<char>, Option<Seq<char>>) {
    if s.contains(sep) {
        let i = choose|i: int| is_first_index(s, sep, i);
        (s.take(i), Some(s.skip(i + 1)))
    } else {
        (s, None)
    }
}

/// The first occurrence of a character is unique.
pub proof fn lemma_first_index_unique(s: Seq<char>, sep: char, i: int, j: int)
    requires
        is_first_index(s, sep, i),
        is_first_index(s, sep, j),
    ensures
        i == j,
{
    if i < j {
        assert(s.take(j)[i] == sep);
    } else if j < i {
        assert(s.take(i)[j] == sep);
    }
}

/// A character that occurs has a first occurrence.
pub proof fn lemma_first_index_exists(s: Seq<char>, sep: char)
    requires
        s.contains(sep),
    ensures
        exists|i: int| is_first_index(s, sep, i),
    decreases s.len(),
{
    if s[0] == sep {
        assert(s.take(0) =~= Seq::<char>::empty());
        assert(is_first_index(s, sep, 0));
    } else {
        let k = choose|k: int| 0 <= k < s.len() && s[k] == sep;
        assert(s.drop_first()[k - 1] == sep);
        lemma_first_index_exists(s.drop_first(), sep);
        let j = choose|j: int| is_first_index(s.drop_first(), sep, j);
        assert(s.take(j + 1) =~= seq![s[0]] + s.drop_first().take(j));
        assert(is_first_index(s, sep, j + 1));
    }
}

/// The text before the first separator holds no separator.
pub proof fn lemma_split_once_head(s: Seq<char>, sep: char)
    ensures
        !split_once(s, sep).0.contains(sep),
        split_once(s, sep).1 is Some <==> s.contains(sep),
{
    if s.contains(sep) {
        lemma_first_index_exists(s, sep);
    }
}

/// Both parts of a split hold no character that the whole text lacks.
pub proof fn lemma_split_once_keeps_out(s: Seq<char>, sep: char, c: char)
    requires
        !s.contains(c),
    ensures
        !split_once(s, sep).0.contains(c),
        split_once(s, sep).1 matches Some(t) ==> !t.contains(c),
{
    if s.contains(sep) {
        lemma_first_index_exists(s, sep);
        let i = choose|i: int| is_first_index(s, sep, i);
        assert forall|k: int| 0 <= k < s.take(i).len() implies s.take(i)[k] != c by {
            assert(s.take(i)[k] == s[k]);
        }
        let t = s.skip(i + 1);
        assert forall|k: int| 0 <= k < t.len() implies t[k] != c by {
            assert(s.skip(i + 1)[k] == s[k + i + 1]);
        }
    }
}

/// Where the first separator stands decides the split.
pub proof fn lemma_split_once_at(s: Seq<char>, sep: char, i: int)
    requires
        is_first_index(s, sep, i),
    ensures
        split_once(s, sep) == (s.take(i), Some(s.skip(i + 1))),
{
    assert(s.contains(sep));
    let k = choose|k: int| is_first_index(s, sep, k);
    lemma_first_index_unique(s, sep, i, k);
}

/// Text that holds no separator, followed by a separator and any text,
/// splits into those two parts.
pub proof fn lemma_split_once_joined(head: Seq<char>, sep: char, tail: Seq<char>)
    requires
        !head.contains(sep),
    ensures
        split_once(head + seq![sep] + tail, sep) == (head, Some(tail)),
{
    let s = head + seq![sep] + tail;
    assert(s.take(head.len() as int) =~= head);
    assert(s.skip(head.len() + 1int) =~= tail);
    lemma_split_once_at(s, sep, head.len() as int);
}

/// Whether two string slices hold the same characters.
pub fn same_text(a: &str, b: &str) -> (r: bool)
    ensures
        r == (a@ == b@),
{
    let x = a.to_owned();
    let y = b.to_owned();
    x == y
}

/// The position of the first `sep` in `s`, if there is one.
pub fn first_index(s: &str, sep: char) -> (r: Option<usize>)
    ensures
        match r {
            Some(i) => is_first_index(s@, sep, i as int),
            None => !s@.contains(sep),
        },
{
    let n = s.unicode_len();
    let mut i: usize = 0;
    while i < n
        invariant
            n == s@.len(),
            i <= n,
            !s@.take(i as int).contains(sep),
        decreases n - i,
    {
        if s.get_char(i) == sep {
            return Some(i);
        }
        assert(s@.take(i + 1) =~= s@.take(i as int).push(s@[i as int]));
        i += 1;
    }
    assert(s@.take(n as int) =~= s@);
    None
}

/// Split `s` at its first `sep`, as `splitn(2, sep)` does.
pub fn split_once_at(s: &str, sep: char) -> (r: (String, Option<String>))
    ensures
        (r.0@, opt_view(r.1)) == split_once(s@, sep),
{
    let n = s.unicode_len();
    match first_index(s, sep) {
        Some(i) => {
            proof {
                lemma_split_once_at(s@, sep, i as int);
            }
            let head = s.substring_char(0, i).to_owned();
            let tail = s.substring_char(i + 1, n).to_owned();
            assert(tail@ =~= s@.skip(i + 1));
            (head, Some(tail))
        },
        None => (s.to_owned(), None),
    }
}

/// Whether a character has the Unicode `White_Space` property, which is
/// what `char::is_whitespace` answers.
pub open spec fn is_white_space(c: char) -> bool {
    let v = c as u32;
    ||| 0x9 <= v <= 0xD
    ||| v == 0x20
    ||| v == 0x85
    ||| v == 0xA0
    ||| v == 0x1680
    ||| 0x2000 <= v <= 0x200A
    ||| v == 0x2028
    ||| v == 0x2029
    ||| v == 0x202F
    ||| v == 0x205F
    ||| v == 0x3000
}

/// Whether `c` has the Unicode `White_Space` property.
pub fn char_is_whitespace(c: char) -> (r: bool)
    ensures
        r == is_white_space(c),
{
    let v = c as u32;
    (0x9 <= v && v <= 0xD) || v == 0x20 || v == 0x85 || v == 0xA0 || v == 0x1680 || (0x2000 <= v
        && v <= 0x200A) || v == 0x2028 || v == 0x2029 || v == 0x202F || v == 0x205F || v == 0x3000
}

/// `s` without its leading whitespace.
pub open spec fn trim_start(s: Seq<char>) -> Seq<char>
    decreases s.len(),
{
    if s.len() > 0 && is_white_space(s[0]) {
        trim_start(s.drop_first())
    } else {
        s
    }
}

/// `s` without its trailing whitespace.
pub open spec fn trim_end(s: Seq<char>) -> Seq<char>
    decreases s.len(),
{
    if s.len() > 0 && is_white_space(s.last()) {
        trim_end(s.drop_last())
    } else {
        s
    }
}

/// `s` without leading and trailing whitespace, as `str::trim` gives it.
pub open spec fn trimmed(s: Seq<char>) -> Seq<char> {
    trim_end(trim_start(s))
}

/// `s` without leading and trailing whitespace.
pub fn trim_text(s: &str) -> (r: String)
    ensures
        r@ == trimmed(s@),
{
    let n = s.unicode_len();
    let mut i: usize = 0;
    assert(s@.skip(0) =~= s@);
    while i < n && char_is_whitespace(s.get_char(i))
        invariant
            n == s@.len(),
            i <= n,
            trim_start(s@) == trim_start(s@.skip(i as int)),
        decreases n - i,
    {
        assert(s@.skip(i as int).drop_first() =~= s@.skip(i + 1));
        i += 1;
    }
    assert(trim_start(s@) == s@.subrange(i as int, n as int)) by {
        if i == n {
            assert(s@.skip(i as int) =~= Seq::<char>::empty());
        }
        assert(s@.skip(i as int) =~= s@.subrange(i as int, n as int));
    }
    let mut j: usize = n;
    while j > i && char_is_whitespace(s.get_char(j - 1))
        invariant
            n == s@.len(),
            i <= j <= n,
            trim_end(s@.subrange(i as int, n as int)) == trim_end(s@.subrange(i as int, j as int)),
        decreases j - i,
    {
        assert(s@.subrange(i as int, j as int).drop_last() =~= s@.subrange(i as int, j - 1));
        j -= 1;
    }
    s.substring_char(i, j).to_owned()
}

/// A text that starts and ends with non-whitespace loses only the
/// whitespace appended to it.
pub proof fn lemma_trim_appended(s: Seq<char>, c: char)
    requires
        s.len() > 0,
        !is_white_space(s[0]),
        !is_white_space(s.last()),
        is_white_space(c),
    ensures
        trimmed(s.push(c)) == s,
{
    assert(s.push(c)[0] == s[0]);
    assert(trim_start(s.push(c)) == s.push(c));
    assert(s.push(c).last() == c);
    assert(s.push(c).drop_last() =~= s);
    assert(trim_end(s.push(c)) == trim_end(s));
    assert(trim_end(s) == s);
}

/// `line` followed by a newline, as it goes on the wire.
pub fn frame_line(line: &str) -> (r: String)
    ensures
        r@ == line@.push('\n'),
{
    proof {
        reveal_strlit("\n");
    }
    let r = line.to_owned().concat("\n");
    assert(r@ =~= line@.push('\n'));
    r
}

} // verus!

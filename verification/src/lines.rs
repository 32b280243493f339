//! Splitting text into lines, words and fields, as `str::lines`,
//! `str::split_whitespace`, `str::trim` and `str::split` do.
use vstd::prelude::*;
use crate::text::{chars_of, find_char, string_from_chars, subvec};

verus! {

/// The characters with the Unicode `White_Space` property, which is what
/// `char::is_whitespace` tests: tab through carriage return, space, next
/// line, no-break space, ogham space mark, the spaces from en quad to hair
/// space, line and paragraph separators, narrow no-break space, medium
/// mathematical space and ideographic space.
pub open spec fn whitespace(c: char) -> bool {
    let n = c as int;
    ||| 0x9 <= n <= 0xD
    ||| n == 0x20
    ||| n == 0x85
    ||| n == 0xA0
    ||| n == 0x1680
    ||| 0x2000 <= n <= 0x200A
    ||| n == 0x2028
    ||| n == 0x2029
    ||| n == 0x202F
    ||| n == 0x205F
    ||| n == 0x3000
}

/// ASCII whitespace as `char::is_whitespace` counts it: tab, line feed,
/// vertical tab, form feed, carriage return and space.
pub open spec fn ascii_whitespace(c: char) -> bool {
    c == ' ' || c == '\t' || c == '\n' || c == '\r' || c as int == 11 || c as int == 12
}

/// Whether `c` is whitespace in the sense of `char::is_whitespace`.
pub(crate) fn is_whitespace(c: char) -> (r: bool)
    ensures
        r == whitespace(c),
        c as int <= 127 ==> (r <==> ascii_whitespace(c)),
{
    let n = c as u32;
    (0x9 <= n && n <= 0xD) || n == 0x20 || n == 0x85 || n == 0xA0 || n == 0x1680 || (0x2000 <= n
        && n <= 0x200A) || n == 0x2028 || n == 0x2029 || n == 0x202F || n == 0x205F || n == 0x3000
}

/// A line without the `\r` of a `\r\n` ending.
pub open spec fn strip_cr(l: Seq<char>) -> Seq<char> {
    if l.len() > 0 && l.last() == '\r' {
        l.drop_last()
    } else {
        l
    }
}

/// The lines of a text, as `str::lines` gives them: split at `\n`, a `\r`
/// before the `\n` removed, and no empty line after a final `\n`.
pub open spec fn lines_of(s: Seq<char>) -> Seq<Seq<char>>
    decreases s.len(),
{
    if s.len() == 0 {
        Seq::empty()
    } else {
        let i = find_char(s, '\n');
        proof {
            crate::text::lemma_find_char_bound(s, '\n');
        }
        if i == s.len() {
            seq![s]
        } else {
            seq![strip_cr(s.subrange(0, i as int))] + lines_of(s.subrange((i + 1) as int, s.len() as int))
        }
    }
}

/// The whitespace-separated words of a text, as `str::split_whitespace`
/// gives them.
pub open spec fn words_of(s: Seq<char>) -> Seq<Seq<char>>
    decreases s.len(),
{
    if s.len() == 0 {
        Seq::empty()
    } else if whitespace(s[0]) {
        words_of(s.drop_first())
    } else {
        let n = word_len(s);
        proof {
            lemma_word_len(s);
            assert(n > 0) by {
                assert(word_len(s) == 1 + word_len(s.drop_first()));
            }
        }
        seq![s.subrange(0, n as int)] + words_of(s.subrange(n as int, s.len() as int))
    }
}

/// The length of the run of non-whitespace characters `s` starts with.
pub open spec fn word_len(s: Seq<char>) -> nat
    decreases s.len(),
{
    if s.len() == 0 || whitespace(s[0]) {
        0
    } else {
        1 + word_len(s.drop_first())
    }
}

/// `word_len` stays within the text and ends at whitespace or the end.
pub proof fn lemma_word_len(s: Seq<char>)
    ensures
        word_len(s) <= s.len(),
        forall|j: int| 0 <= j < word_len(s) ==> !whitespace(#[trigger] s[j]),
        word_len(s) < s.len() ==> whitespace(s[word_len(s) as int]),
    decreases s.len(),
{
    if s.len() > 0 && !whitespace(s[0]) {
        lemma_word_len(s.drop_first());
        assert forall|j: int| 0 <= j < word_len(s) implies !whitespace(#[trigger] s[j]) by {
            if j > 0 {
                assert(s[j] == s.drop_first()[j - 1]);
            }
        }
        if word_len(s) < s.len() {
            assert(s[word_len(s) as int] == s.drop_first()[word_len(s) - 1]);
        }
    }
}

/// A run that ends at whitespace or the end is the word length.
pub proof fn lemma_word_len_is(s: Seq<char>, k: int)
    requires
        0 <= k <= s.len(),
        forall|j: int| 0 <= j < k ==> !whitespace(#[trigger] s[j]),
        k < s.len() ==> whitespace(s[k]),
    ensures
        word_len(s) == k,
    decreases s.len(),
{
    if k > 0 {
        assert forall|j: int| 0 <= j < k - 1 implies !whitespace(#[trigger] s.drop_first()[j]) by {
            assert(s.drop_first()[j] == s[j + 1]);
        }
        if k - 1 < s.drop_first().len() {
            assert(s.drop_first()[k - 1] == s[k]);
        }
        lemma_word_len_is(s.drop_first(), k - 1);
    }
}

/// Fields written one after another, each after a single space.
pub open spec fn spaced(fs: Seq<Seq<char>>) -> Seq<char>
    decreases fs.len(),
{
    if fs.len() == 0 {
        Seq::empty()
    } else {
        seq![' '] + fs[0] + spaced(fs.drop_first())
    }
}

/// A field: at least one character, none of them whitespace.
pub open spec fn plain_field(w: Seq<char>) -> bool {
    w.len() > 0 && forall|j: int| 0 <= j < w.len() ==> !whitespace(#[trigger] w[j])
}

/// Splitting space-separated fields into words gives the fields back.
pub proof fn lemma_words_of_spaced(fs: Seq<Seq<char>>)
    requires
        forall|k: int| 0 <= k < fs.len() ==> plain_field(#[trigger] fs[k]),
    ensures
        words_of(spaced(fs)) == fs,
    decreases fs.len(),
{
    if fs.len() > 0 {
        let w = fs[0];
        let tail = fs.drop_first();
        assert forall|k: int| 0 <= k < tail.len() implies plain_field(#[trigger] tail[k]) by {
            assert(tail[k] == fs[k + 1]);
        }
        lemma_words_of_spaced(tail);
        let rest = spaced(tail);
        let s = spaced(fs);
        assert(s[0] == ' ');
        assert(whitespace(' '));
        let t = s.drop_first();
        assert(t =~= w + rest);
        assert(plain_field(fs[0]));
        assert forall|j: int| 0 <= j < w.len() implies !whitespace(#[trigger] t[j]) by {
            assert(t[j] == w[j]);
        }
        if w.len() < t.len() {
            assert(tail.len() > 0);
            assert(rest[0] == ' ');
            assert(t[w.len() as int] == rest[0]);
        }
        lemma_word_len_is(t, w.len() as int);
        assert(t.subrange(0, w.len() as int) =~= w);
        assert(t.subrange(w.len() as int, t.len() as int) =~= rest);
        assert(words_of(s) == words_of(t));
        assert(words_of(t) == seq![w] + words_of(rest));
        assert(fs =~= seq![w] + tail);
    }
}

/// Moving the start over leading characters: words of a suffix.
proof fn lemma_words_skip_ws(s: Seq<char>, i: int)
    requires
        0 <= i < s.len(),
        whitespace(s[i]),
    ensures
        words_of(s.subrange(i, s.len() as int)) == words_of(s.subrange(i + 1, s.len() as int)),
{
    let t = s.subrange(i, s.len() as int);
    assert(t[0] == s[i]);
    assert(t.drop_first() =~= s.subrange(i + 1, s.len() as int));
}

/// The words of a text (see `words_of`).
pub fn split_whitespace(s: &str) -> (r: Vec<String>)
    ensures
        r.deep_view() == words_of(s@),
{
    let v = chars_of(s);
    let n = v.len();
    let mut r: Vec<String> = Vec::new();
    let mut i: usize = 0;
    assert(v@.subrange(0, n as int) =~= v@);
    while i < n
        invariant
            i <= n,
            n == v@.len(),
            v@ == s@,
            r.deep_view() + words_of(v@.subrange(i as int, n as int)) == words_of(v@),
        decreases n - i,
    {
        if is_whitespace(v[i]) {
            proof {
                lemma_words_skip_ws(v@, i as int);
            }
            i = i + 1;
        } else {
            let mut j: usize = i;
            while j < n && !is_whitespace(v[j])
                invariant
                    i <= j <= n,
                    n == v@.len(),
                    forall|k: int| i <= k < j ==> !whitespace(#[trigger] v@[k]),
                decreases n - j,
            {
                j = j + 1;
            }
            let ghost t = v@.subrange(i as int, n as int);
            proof {
                assert forall|k: int| 0 <= k < j - i implies !whitespace(#[trigger] t[k]) by {
                    assert(t[k] == v@[i + k]);
                }
                if j < n {
                    assert(t[j - i] == v@[j as int]);
                }
                lemma_word_len_is(t, j - i);
                assert(t[0] == v@[i as int]);
                assert(t.subrange(0, j - i) =~= v@.subrange(i as int, j as int));
                assert(t.subrange(j - i, t.len() as int) =~= v@.subrange(j as int, n as int));
            }
            let ghost before = r.deep_view();
            let w = string_from_chars(&subvec(&v, i, j));
            r.push(w);
            proof {
                assert(r.deep_view() =~= before.push(v@.subrange(i as int, j as int)));
                assert(words_of(t) == seq![v@.subrange(i as int, j as int)] + words_of(
                    v@.subrange(j as int, n as int),
                ));
                assert(r.deep_view() + words_of(v@.subrange(j as int, n as int)) =~= before
                    + words_of(t));
            }
            i = j;
        }
    }
    proof {
        assert(v@.subrange(n as int, n as int) =~= Seq::<char>::empty());
        assert(r.deep_view() + Seq::<Seq<char>>::empty() =~= r.deep_view());
    }
    r
}

/// The lines of a text (see `lines_of`).
pub fn lines(s: &str) -> (r: Vec<String>)
    ensures
        r.deep_view() == lines_of(s@),
{
    let v = chars_of(s);
    let n = v.len();
    let mut r: Vec<String> = Vec::new();
    let mut i: usize = 0;
    assert(v@.subrange(0, n as int) =~= v@);
    while i < n
        invariant
            i <= n,
            n == v@.len(),
            v@ == s@,
            r.deep_view() + lines_of(v@.subrange(i as int, n as int)) == lines_of(v@),
        decreases n - i,
    {
        let ghost t = v@.subrange(i as int, n as int);
        let mut j: usize = i;
        while j < n && v[j] != '\n'
            invariant
                i <= j <= n,
                n == v@.len(),
                forall|k: int| i <= k < j ==> v@[k] != '\n',
            decreases n - j,
        {
            j = j + 1;
        }
        proof {
            assert forall|k: int| 0 <= k < j - i implies t[k] != '\n' by {
                assert(t[k] == v@[i + k]);
            }
            if j < n {
                assert(t[j - i] == v@[j as int]);
            }
            crate::text::lemma_find_char(t, '\n', j - i);
        }
        let end = if j > i && v[j - 1] == '\r' && j < n {
            j - 1
        } else {
            j
        };
        let ghost before = r.deep_view();
        let line = string_from_chars(&subvec(&v, i, end));
        r.push(line);
        proof {
            assert(t.subrange(0, j - i) =~= v@.subrange(i as int, j as int));
            if j < n {
                assert(strip_cr(t.subrange(0, j - i)) =~= v@.subrange(i as int, end as int));
                assert(t.subrange(j - i + 1, t.len() as int) =~= v@.subrange(j + 1, n as int));
            } else {
                assert(t =~= v@.subrange(i as int, end as int));
            }
            assert(r.deep_view() =~= before.push(v@.subrange(i as int, end as int)));
        }
        if j < n {
            proof {
                assert(r.deep_view() + lines_of(v@.subrange(j + 1, n as int)) =~= before
                    + lines_of(t));
            }
            i = j + 1;
        } else {
            proof {
                assert(lines_of(t) == seq![t]);
                assert(v@.subrange(n as int, n as int) =~= Seq::<char>::empty());
                assert(r.deep_view() + lines_of(v@.subrange(n as int, n as int)) =~= before
                    + lines_of(t));
            }
            i = n;
        }
    }
    proof {
        assert(v@.subrange(n as int, n as int) =~= Seq::<char>::empty());
        assert(r.deep_view() + Seq::<Seq<char>>::empty() =~= r.deep_view());
    }
    r
}


/// A text without its leading whitespace.
pub open spec fn trim_start_spec(s: Seq<char>) -> Seq<char>
    decreases s.len(),
{
    if s.len() > 0 && whitespace(s[0]) {
        trim_start_spec(s.drop_first())
    } else {
        s
    }
}

/// A text without its trailing whitespace.
pub open spec fn trim_end_spec(s: Seq<char>) -> Seq<char>
    decreases s.len(),
{
    if s.len() > 0 && whitespace(s.last()) {
        trim_end_spec(s.drop_last())
    } else {
        s
    }
}

/// A text without leading and trailing whitespace, as `str::trim` gives it.
pub open spec fn trim_spec(s: Seq<char>) -> Seq<char> {
    trim_end_spec(trim_start_spec(s))
}

/// A text without leading and trailing whitespace (see `trim_spec`).
pub fn trim(s: &str) -> (r: String)
    ensures
        r@ == trim_spec(s@),
{
    let v = chars_of(s);
    let n = v.len();
    let mut a: usize = 0;
    assert(v@.subrange(0, n as int) =~= v@);
    while a < n && is_whitespace(v[a])
        invariant
            a <= n,
            n == v@.len(),
            v@ == s@,
            trim_start_spec(s@) == trim_start_spec(v@.subrange(a as int, n as int)),
        decreases n - a,
    {
        proof {
            let t = v@.subrange(a as int, n as int);
            assert(t[0] == v@[a as int]);
            assert(t.drop_first() =~= v@.subrange(a + 1, n as int));
        }
        a = a + 1;
    }
    let ghost start = v@.subrange(a as int, n as int);
    proof {
        if a < n {
            assert(start[0] == v@[a as int]);
        }
        assert(trim_start_spec(start) == start);
    }
    let mut b: usize = n;
    assert(start.subrange(0, (b - a) as int) =~= start);
    while b > a && is_whitespace(v[b - 1])
        invariant
            a <= b <= n,
            n == v@.len(),
            start == v@.subrange(a as int, n as int),
            trim_end_spec(start) == trim_end_spec(v@.subrange(a as int, b as int)),
        decreases b - a,
    {
        proof {
            let t = v@.subrange(a as int, b as int);
            assert(t.last() == v@[b - 1]);
            assert(t.drop_last() =~= v@.subrange(a as int, b - 1));
        }
        b = b - 1;
    }
    proof {
        let t = v@.subrange(a as int, b as int);
        if b > a {
            assert(t.last() == v@[b - 1]);
        }
        assert(trim_end_spec(t) == t);
    }
    string_from_chars(&subvec(&v, a, b))
}

} // verus!

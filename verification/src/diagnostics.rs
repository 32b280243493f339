//! Reading the results of `ping`: the packet loss and the round-trip
//! statistics of its summary.
use vstd::prelude::*;
use crate::decimal::{parse_decimal_spec, Decimal};
use crate::lines::{lemma_word_len, lemma_word_len_is, lines, lines_of, split_whitespace, strip_cr, whitespace, word_len, words_of};
use crate::text::{
    chars_of, contains_seq, find_char, find_first, is_digit, lemma_find_char, nat_digits,
    occurs_at, owned, push_str, push_u64, str_contains, string_from_chars, subvec,
};

verus! {

/// The percentage a word states: the word less one final `%`, read as a
/// decimal.
pub open spec fn pct_word(w: Seq<char>) -> Option<(int, nat)> {
    if w.len() > 0 && w.last() == '%' {
        parse_decimal_spec(w.drop_last())
    } else {
        None
    }
}

/// The first word that states a percentage.
pub open spec fn first_pct(words: Seq<Seq<char>>) -> Option<(int, nat)>
    decreases words.len(),
{
    if words.len() == 0 {
        None
    } else {
        match pct_word(words[0]) {
            Some(x) => Some(x),
            None => first_pct(words.drop_first()),
        }
    }
}

/// The packet loss of ping output: the first percentage on the first line
/// mentioning `packet loss` that states one.
pub open spec fn loss_in_lines(ls: Seq<Seq<char>>) -> Option<(int, nat)>
    decreases ls.len(),
{
    if ls.len() == 0 {
        None
    } else if contains_seq(ls[0], "packet loss"@) && first_pct(words_of(ls[0])) is Some {
        first_pct(words_of(ls[0]))
    } else {
        loss_in_lines(ls.drop_first())
    }
}

/// The first percentage among words.
fn first_percentage(words: &Vec<String>) -> (r: Option<Decimal>)
    ensures
        match first_pct(words.deep_view()) {
            Some((u, s)) => r matches Some(d) && d.num() == u && d.exp() == s,
            None => r is None,
        },
{
    let mut i: usize = 0;
    assert(words.deep_view().subrange(0, words@.len() as int) =~= words.deep_view());
    while i < words.len()
        invariant
            i <= words@.len(),
            first_pct(words.deep_view()) == first_pct(
                words.deep_view().subrange(i as int, words@.len() as int),
            ),
        decreases words.len() - i,
    {
        let ghost rest = words.deep_view().subrange(i as int, words@.len() as int);
        proof {
            assert(rest[0] == words@[i as int]@);
            assert(rest.drop_first() =~= words.deep_view().subrange(i + 1, words@.len() as int));
        }
        let v = chars_of(words[i].as_str());
        if v.len() > 0 && v[v.len() - 1] == '%' {
            let body = string_from_chars(&subvec(&v, 0, v.len() - 1));
            proof {
                assert(body@ =~= words@[i as int]@.drop_last());
            }
            match Decimal::parse(body.as_str()) {
                Some(d) => {
                    return Some(d);
                },
                None => {},
            }
        }
        i = i + 1;
    }
    None
}

/// The packet loss stated in ping output (see `loss_in_lines`), zero when
/// none is stated.
pub fn parse_packet_loss(output: &str) -> (d: Decimal)
    ensures
        match loss_in_lines(lines_of(output@)) {
            Some((u, s)) => d.num() == u && d.exp() == s,
            None => d.num() == 0 && d.exp() == 0,
        },
{
    let ls = lines(output);
    let mut i: usize = 0;
    assert(ls.deep_view().subrange(0, ls@.len() as int) =~= ls.deep_view());
    while i < ls.len()
        invariant
            i <= ls@.len(),
            ls.deep_view() == lines_of(output@),
            loss_in_lines(ls.deep_view()) == loss_in_lines(
                ls.deep_view().subrange(i as int, ls@.len() as int),
            ),
        decreases ls.len() - i,
    {
        let ghost rest = ls.deep_view().subrange(i as int, ls@.len() as int);
        proof {
            assert(rest[0] == ls@[i as int]@);
            assert(rest.drop_first() =~= ls.deep_view().subrange(i + 1, ls@.len() as int));
        }
        if str_contains(ls[i].as_str(), "packet loss") {
            match first_percentage(&split_whitespace(ls[i].as_str())) {
                Some(d) => {
                    return d;
                },
                None => {},
            }
        }
        i = i + 1;
    }
    Decimal::from_int(0)
}

/// Round-trip times and loss of a ping run, in milliseconds and percent.
#[derive(Debug, Clone)]
pub struct LatencyResult {
    pub target: String,
    pub min_ms: Decimal,
    pub avg_ms: Decimal,
    pub max_ms: Decimal,
    pub packet_loss_percent: Decimal,
    pub samples: u32,
}

/// Whether a line is the round-trip summary of `ping`.
pub open spec fn is_rtt_line(l: Seq<char>) -> bool {
    contains_seq(l, "rtt min/avg/max"@) || contains_seq(l, "round-trip min/avg/max"@)
}

/// The text between the first and the second `=` of a line (to the end
/// when there is one `=`), as `split('=').nth(1)` gives it.
pub open spec fn second_field(l: Seq<char>) -> Option<Seq<char>> {
    let i = find_char(l, '=');
    if i >= l.len() {
        None
    } else {
        let rest = l.subrange((i + 1) as int, l.len() as int);
        Some(rest.subrange(0, find_char(rest, '=') as int))
    }
}

/// The first three `/`-separated fields of a text that has at least three.
pub open spec fn three_fields(s: Seq<char>) -> Option<(Seq<char>, Seq<char>, Seq<char>)> {
    let i = find_char(s, '/');
    if i >= s.len() {
        None
    } else {
        let r1 = s.subrange((i + 1) as int, s.len() as int);
        let j = find_char(r1, '/');
        if j >= r1.len() {
            None
        } else {
            let r2 = r1.subrange((j + 1) as int, r1.len() as int);
            Some((s.subrange(0, i as int), r1.subrange(0, j as int), r2.subrange(0, find_char(r2, '/') as int)))
        }
    }
}

/// The three times of a summary, when each reads as a decimal.
pub open spec fn three_times(f: (Seq<char>, Seq<char>, Seq<char>)) -> Option<(
    (int, nat),
    (int, nat),
    (int, nat),
)> {
    match (parse_decimal_spec(f.0), parse_decimal_spec(f.1), parse_decimal_spec(f.2)) {
        (Some(a), Some(b), Some(c)) => Some((a, b, c)),
        _ => None,
    }
}

/// What the scan of the lines finds: nothing yet (`None`), or the outcome
/// at the first summary line whose values are laid out as
/// `= min/avg/max/...`: the three times, or `None` when its first word is
/// missing or a time does not read.
pub open spec fn ping_scan(ls: Seq<Seq<char>>) -> Option<Option<((int, nat), (int, nat), (int, nat))>>
    decreases ls.len(),
{
    if ls.len() == 0 {
        None
    } else if is_rtt_line(ls[0]) && second_field(ls[0]) is Some {
        let words = words_of(second_field(ls[0])->0);
        if words.len() == 0 {
            Some(None)
        } else {
            match three_fields(words[0]) {
                Some(f) => Some(three_times(f)),
                None => ping_scan(ls.drop_first()),
            }
        }
    } else {
        ping_scan(ls.drop_first())
    }
}

/// A time as `ping` prints it: digits and decimal points, at least one.
pub open spec fn numeral(s: Seq<char>) -> bool {
    s.len() > 0 && forall|j: int| 0 <= j < s.len() ==> is_digit(#[trigger] s[j]) || s[j] == '.'
}

/// `s` holds no `c`.
pub open spec fn lacks(s: Seq<char>, c: char) -> bool {
    forall|j: int| 0 <= j < s.len() ==> #[trigger] s[j] != c
}

/// A numeral holds no whitespace, `/`, `=` or line break.
proof fn lemma_numeral_chars(s: Seq<char>)
    requires
        numeral(s),
    ensures
        lacks(s, '/'),
        lacks(s, '='),
        lacks(s, '\n'),
        forall|j: int| 0 <= j < s.len() ==> !whitespace(#[trigger] s[j]),
{
    assert forall|j: int| 0 <= j < s.len() implies !whitespace(#[trigger] s[j]) && s[j] != '/'
        && s[j] != '=' && s[j] != '\n' by {
        assert(is_digit(s[j]) || s[j] == '.');
    }
}

/// Neither part holding `c`, their concatenation does not.
proof fn lemma_lacks_concat(x: Seq<char>, y: Seq<char>, c: char)
    requires
        lacks(x, c),
        lacks(y, c),
    ensures
        lacks(x + y, c),
{
    assert forall|j: int| 0 <= j < (x + y).len() implies #[trigger] (x + y)[j] != c by {
        if j < x.len() {
            assert((x + y)[j] == x[j]);
        } else {
            assert((x + y)[j] == y[j - x.len()]);
        }
    }
}

/// A text holding no `c` has it nowhere.
proof fn lemma_find_absent(s: Seq<char>, c: char)
    requires
        lacks(s, c),
    ensures
        find_char(s, c) == s.len(),
{
    lemma_find_char(s, c, s.len() as int);
}

/// The times `a/b/c` followed by `tail` read as the three fields `a`, `b`
/// and `c` once split into words: the first word is `a/b/c` and what of
/// `tail` sticks to it, which starts with `/` if anything.
proof fn lemma_times_word(a: Seq<char>, b: Seq<char>, c: Seq<char>, tail: Seq<char>)
    requires
        numeral(a),
        numeral(b),
        numeral(c),
        tail.len() == 0 || tail[0] == '/' || whitespace(tail[0]),
    ensures
        ({
            let t = a + seq!['/'] + b + seq!['/'] + c + tail;
            words_of(t).len() > 0 && three_fields(words_of(t)[0]) == Some((a, b, c))
        }),
{
    lemma_numeral_chars(a);
    lemma_numeral_chars(b);
    lemma_numeral_chars(c);
    let t = a + seq!['/'] + b + seq!['/'] + c + tail;
    lemma_word_len(tail);
    let wl = word_len(tail);
    let k: int = (a.len() + 1 + b.len() + 1 + c.len() + wl) as int;
    let pre = a + seq!['/'] + b + seq!['/'] + c;
    assert(t =~= pre + tail);
    assert forall|j: int| 0 <= j < k implies !whitespace(#[trigger] t[j]) by {
        if j < pre.len() {
            assert(t[j] == pre[j]);
            if j < a.len() {
                assert(pre[j] == a[j]);
            } else if j == a.len() {
                assert(pre[j] == '/');
            } else if j < a.len() + 1 + b.len() {
                assert(pre[j] == b[j - a.len() - 1]);
            } else if j == a.len() + 1 + b.len() {
                assert(pre[j] == '/');
            } else {
                assert(pre[j] == c[j - a.len() - 2 - b.len()]);
            }
        } else {
            assert(t[j] == tail[j - pre.len()]);
        }
    }
    if k < t.len() {
        assert(t[k] == tail[wl as int]);
    }
    lemma_word_len_is(t, k);
    assert(!whitespace(t[0])) by {
        assert(t[0] == a[0]);
    }
    let w = t.subrange(0, k);
    assert(words_of(t)[0] == w);
    let tw = tail.subrange(0, wl as int);
    assert(w =~= a + seq!['/'] + (b + seq!['/'] + (c + tw)));
    let r1 = b + seq!['/'] + (c + tw);
    let r2 = c + tw;
    assert(lacks(a, '/'));
    assert(w[a.len() as int] == '/');
    assert forall|j: int| 0 <= j < a.len() implies w[j] != '/' by {
        assert(w[j] == a[j]);
    }
    lemma_find_char(w, '/', a.len() as int);
    assert(w.subrange(0, a.len() as int) =~= a);
    assert(w.subrange((a.len() + 1) as int, w.len() as int) =~= r1);
    assert forall|j: int| 0 <= j < b.len() implies r1[j] != '/' by {
        assert(r1[j] == b[j]);
    }
    assert(r1[b.len() as int] == '/');
    lemma_find_char(r1, '/', b.len() as int);
    assert(r1.subrange(0, b.len() as int) =~= b);
    assert(r1.subrange((b.len() + 1) as int, r1.len() as int) =~= r2);
    assert forall|j: int| 0 <= j < c.len() implies r2[j] != '/' by {
        assert(r2[j] == c[j]);
    }
    if wl > 0 {
        assert(!whitespace(tail[0]));
        assert(r2[c.len() as int] == tail[0]);
    }
    lemma_find_char(r2, '/', c.len() as int);
    assert(r2.subrange(0, c.len() as int) =~= c);
}

/// The times and what follows them hold no `=` and no line break.
proof fn lemma_times_lack(a: Seq<char>, b: Seq<char>, c: Seq<char>, tail: Seq<char>)
    requires
        numeral(a),
        numeral(b),
        numeral(c),
        lacks(tail, '='),
        lacks(tail, '\n'),
    ensures
        lacks(seq![' '] + (a + seq!['/'] + b + seq!['/'] + c + tail), '='),
        lacks(seq![' '] + (a + seq!['/'] + b + seq!['/'] + c + tail), '\n'),
{
    lemma_numeral_chars(a);
    lemma_numeral_chars(b);
    lemma_numeral_chars(c);
    let times = a + seq!['/'] + b + seq!['/'] + c + tail;
    assert(lacks(seq!['/'], '=') && lacks(seq!['/'], '\n'));
    assert(lacks(seq![' '], '=') && lacks(seq![' '], '\n'));
    lemma_lacks_concat(a, seq!['/'], '=');
    lemma_lacks_concat(a + seq!['/'], b, '=');
    lemma_lacks_concat(a + seq!['/'] + b, seq!['/'], '=');
    lemma_lacks_concat(a + seq!['/'] + b + seq!['/'], c, '=');
    lemma_lacks_concat(a + seq!['/'] + b + seq!['/'] + c, tail, '=');
    lemma_lacks_concat(seq![' '], times, '=');
    lemma_lacks_concat(a, seq!['/'], '\n');
    lemma_lacks_concat(a + seq!['/'], b, '\n');
    lemma_lacks_concat(a + seq!['/'] + b, seq!['/'], '\n');
    lemma_lacks_concat(a + seq!['/'] + b + seq!['/'], c, '\n');
    lemma_lacks_concat(a + seq!['/'] + b + seq!['/'] + c, tail, '\n');
    lemma_lacks_concat(seq![' '], times, '\n');
}

/// A line that starts with a summary marker is a summary line.
proof fn lemma_rtt_prefix(head: Seq<char>, rest: Seq<char>)
    requires
        is_rtt_line(head),
    ensures
        is_rtt_line(head + rest),
{
    let l = head + rest;
    let m = choose|i: int| occurs_at(head, "rtt min/avg/max"@, i) || occurs_at(
        head,
        "round-trip min/avg/max"@,
        i,
    );
    if occurs_at(head, "rtt min/avg/max"@, m) {
        assert(l.subrange(m, m + "rtt min/avg/max"@.len()) =~= head.subrange(
            m,
            m + "rtt min/avg/max"@.len(),
        ));
        assert(occurs_at(l, "rtt min/avg/max"@, m));
    } else {
        assert(l.subrange(m, m + "round-trip min/avg/max"@.len()) =~= head.subrange(
            m,
            m + "round-trip min/avg/max"@.len(),
        ));
        assert(occurs_at(l, "round-trip min/avg/max"@, m));
    }
}

/// The values of `head = body` are `body` when neither holds another `=`.
proof fn lemma_values_after_equals(head: Seq<char>, body: Seq<char>)
    requires
        lacks(head, '='),
        lacks(body, '='),
    ensures
        second_field(head + seq![' ', '='] + body) == Some(body),
{
    let l = head + seq![' ', '='] + body;
    let k: int = (head.len() + 1) as int;
    assert forall|j: int| 0 <= j < k implies l[j] != '=' by {
        if j < head.len() {
            assert(l[j] == head[j]);
        } else {
            assert(l[j] == ' ');
        }
    }
    assert(l[k] == '=');
    lemma_find_char(l, '=', k);
    assert(l.subrange(k + 1, l.len() as int) =~= body);
    lemma_find_absent(body, '=');
    assert(body.subrange(0, body.len() as int) =~= body);
}

/// A non-empty text without line breaks is one line.
proof fn lemma_one_line(l: Seq<char>)
    requires
        l.len() > 0,
        lacks(l, '\n'),
    ensures
        lines_of(l) == seq![l],
{
    lemma_find_absent(l, '\n');
}

/// A summary line of `ping`, `head = a/b/c tail`, in either the Linux form
/// (`rtt min/avg/max/mdev = a/b/c/d ms`) or the BSD and busybox form
/// (`round-trip min/avg/max = a/b/c ms`), gives minimum `a`, average `b`
/// and maximum `c`, read as decimals.
pub proof fn law_summary_line_gives_its_times(
    head: Seq<char>,
    a: Seq<char>,
    b: Seq<char>,
    c: Seq<char>,
    tail: Seq<char>,
)
    requires
        is_rtt_line(head),
        lacks(head, '='),
        lacks(head, '\n'),
        numeral(a),
        numeral(b),
        numeral(c),
        parse_decimal_spec(a) is Some,
        parse_decimal_spec(b) is Some,
        parse_decimal_spec(c) is Some,
        lacks(tail, '='),
        lacks(tail, '\n'),
        tail.len() == 0 || tail[0] == '/' || whitespace(tail[0]),
    ensures
        ping_scan(
            lines_of(head + seq![' ', '=', ' '] + a + seq!['/'] + b + seq!['/'] + c + tail),
        ) == Some(
            Some(
                (
                    parse_decimal_spec(a)->0,
                    parse_decimal_spec(b)->0,
                    parse_decimal_spec(c)->0,
                ),
            ),
        ),
{
    let times = a + seq!['/'] + b + seq!['/'] + c + tail;
    let body = seq![' '] + times;
    let l = head + seq![' ', '=', ' '] + a + seq!['/'] + b + seq!['/'] + c + tail;
    assert(l =~= head + seq![' ', '='] + body);
    lemma_times_lack(a, b, c, tail);
    lemma_summary_line_shape(head, body);
    lemma_body_words(a, b, c, tail);
    lemma_scan_one(l, body, (a, b, c));
}

/// A summary line `head = body` is one line, a summary line, and has
/// `body` as its values.
proof fn lemma_summary_line_shape(head: Seq<char>, body: Seq<char>)
    requires
        is_rtt_line(head),
        lacks(head, '='),
        lacks(head, '\n'),
        lacks(body, '='),
        lacks(body, '\n'),
    ensures
        ({
            let l = head + seq![' ', '='] + body;
            &&& lines_of(l) == seq![l]
            &&& is_rtt_line(l)
            &&& second_field(l) == Some(body)
        }),
{
    let l = head + seq![' ', '='] + body;
    assert(lacks(seq![' ', '='], '\n'));
    lemma_lacks_concat(head, seq![' ', '='], '\n');
    lemma_lacks_concat(head + seq![' ', '='], body, '\n');
    lemma_one_line(l);
    lemma_rtt_prefix(head, seq![' ', '='] + body);
    assert(head + (seq![' ', '='] + body) =~= l);
    lemma_values_after_equals(head, body);
}

/// The words of ` a/b/c tail` start with the word whose fields are the
/// three times.
proof fn lemma_body_words(a: Seq<char>, b: Seq<char>, c: Seq<char>, tail: Seq<char>)
    requires
        numeral(a),
        numeral(b),
        numeral(c),
        tail.len() == 0 || tail[0] == '/' || whitespace(tail[0]),
    ensures
        ({
            let body = seq![' '] + (a + seq!['/'] + b + seq!['/'] + c + tail);
            words_of(body).len() > 0 && three_fields(words_of(body)[0]) == Some((a, b, c))
        }),
{
    let times = a + seq!['/'] + b + seq!['/'] + c + tail;
    let body = seq![' '] + times;
    assert(whitespace(body[0]));
    assert(body.drop_first() =~= times);
    assert(words_of(body) == words_of(times));
    lemma_times_word(a, b, c, tail);
}

/// The scan of a single summary line whose first value word splits into
/// three fields gives those fields' times.
proof fn lemma_scan_one(l: Seq<char>, body: Seq<char>, f: (Seq<char>, Seq<char>, Seq<char>))
    requires
        lines_of(l) == seq![l],
        is_rtt_line(l),
        second_field(l) == Some(body),
        words_of(body).len() > 0,
        three_fields(words_of(body)[0]) == Some(f),
    ensures
        ping_scan(lines_of(l)) == Some(three_times(f)),
{
    assert(seq![l][0] == l);
}

/// The BSD and busybox marker and the Linux marker both start summary
/// lines that the law above covers.
pub proof fn lemma_summary_markers()
    ensures
        is_rtt_line("round-trip min/avg/max"@),
        lacks("round-trip min/avg/max"@, '='),
        lacks("round-trip min/avg/max"@, '\n'),
        is_rtt_line("rtt min/avg/max/mdev"@),
        lacks("rtt min/avg/max/mdev"@, '='),
        lacks("rtt min/avg/max/mdev"@, '\n'),
{
    reveal_strlit("round-trip min/avg/max");
    reveal_strlit("rtt min/avg/max/mdev");
    reveal_strlit("rtt min/avg/max");
    let r = "round-trip min/avg/max"@;
    assert(r.subrange(0, r.len() as int) =~= r);
    assert(occurs_at(r, r, 0));
    let t = "rtt min/avg/max/mdev"@;
    assert(t.subrange(0, "rtt min/avg/max"@.len() as int) =~= "rtt min/avg/max"@);
    assert(occurs_at(t, "rtt min/avg/max"@, 0));
    assert forall|j: int| 0 <= j < r.len() implies #[trigger] r[j] != '=' && r[j] != '\n' by {
        assert(r[j] == r[j]);
    }
    assert forall|j: int| 0 <= j < t.len() implies #[trigger] t[j] != '=' && t[j] != '\n' by {
        assert(t[j] == t[j]);
    }
}

/// Ping output whose first line is not a summary and whose second line is
/// `head = a/b/c tail` (see `law_summary_line_gives_its_times`) gives the
/// times `a`, `b` and `c`.
pub proof fn law_output_summary_gives_its_times(
    first: Seq<char>,
    head: Seq<char>,
    a: Seq<char>,
    b: Seq<char>,
    c: Seq<char>,
    tail: Seq<char>,
)
    requires
        lacks(first, '\n'),
        !is_rtt_line(strip_cr(first)),
        is_rtt_line(head),
        lacks(head, '='),
        lacks(head, '\n'),
        numeral(a),
        numeral(b),
        numeral(c),
        parse_decimal_spec(a) is Some,
        parse_decimal_spec(b) is Some,
        parse_decimal_spec(c) is Some,
        lacks(tail, '='),
        lacks(tail, '\n'),
        tail.len() == 0 || tail[0] == '/' || whitespace(tail[0]),
    ensures
        ping_scan(
            lines_of(
                first + seq!['\n'] + (head + seq![' ', '=', ' '] + a + seq!['/'] + b + seq!['/'] + c
                    + tail),
            ),
        ) == Some(
            Some(
                (
                    parse_decimal_spec(a)->0,
                    parse_decimal_spec(b)->0,
                    parse_decimal_spec(c)->0,
                ),
            ),
        ),
{
    let l = head + seq![' ', '=', ' '] + a + seq!['/'] + b + seq!['/'] + c + tail;
    law_summary_line_gives_its_times(head, a, b, c, tail);
    lemma_times_lack(a, b, c, tail);
    assert(l =~= head + seq![' ', '='] + (seq![' '] + (a + seq!['/'] + b + seq!['/'] + c + tail)));
    lemma_summary_line_shape(head, seq![' '] + (a + seq!['/'] + b + seq!['/'] + c + tail));
    lemma_lines_after_first(first, l);
    law_summary_after_other_lines(seq![strip_cr(first)], l);
}

/// Lines before the summary that are not summary lines change nothing:
/// the output `other` then the summary line gives the summary's times.
pub proof fn law_summary_after_other_lines(ls: Seq<Seq<char>>, l: Seq<char>)
    requires
        forall|i: int| 0 <= i < ls.len() ==> !is_rtt_line(#[trigger] ls[i]),
    ensures
        ping_scan(ls + seq![l]) == ping_scan(seq![l]),
    decreases ls.len(),
{
    if ls.len() > 0 {
        assert((ls + seq![l]).drop_first() =~= ls.drop_first() + seq![l]);
        assert((ls + seq![l])[0] == ls[0]);
        law_summary_after_other_lines(ls.drop_first(), l);
    } else {
        assert(ls + seq![l] =~= seq![l]);
    }
}

/// Output made of a first line and, after a line break, a line: its lines
/// are the first line (less a final `\r`) and the line's own lines.
pub proof fn lemma_lines_after_first(first: Seq<char>, rest: Seq<char>)
    requires
        lacks(first, '\n'),
    ensures
        lines_of(first + seq!['\n'] + rest) == seq![strip_cr(first)] + lines_of(rest),
{
    let s = first + seq!['\n'] + rest;
    assert forall|j: int| 0 <= j < first.len() implies s[j] != '\n' by {
        assert(s[j] == first[j]);
    }
    assert(s[first.len() as int] == '\n');
    lemma_find_char(s, '\n', first.len() as int);
    assert(s.subrange(0, first.len() as int) =~= first);
    assert(s.subrange((first.len() + 1) as int, s.len() as int) =~= rest);
}

/// Whether a decimal has the parsed value.
pub open spec fn is_parsed(d: Decimal, v: (int, nat)) -> bool {
    d.num() == v.0 && d.exp() == v.1
}

/// Splits a text at its first `c`, when it has one.
fn split_at_first(v: &Vec<char>, c: char) -> (r: Option<(Vec<char>, Vec<char>)>)
    ensures
        find_char(v@, c) >= v@.len() ==> r is None,
        find_char(v@, c) < v@.len() ==> (r matches Some(p) && p.0@ == v@.subrange(
            0,
            find_char(v@, c) as int,
        ) && p.1@ == v@.subrange((find_char(v@, c) + 1) as int, v@.len() as int)),
{
    let i = find_first(v, c);
    if i >= v.len() {
        None
    } else {
        Some((subvec(v, 0, i), subvec(v, i + 1, v.len())))
    }
}

/// Reads the times of a summary line's first word (see `ping_scan`):
/// `None` to go on scanning, `Some(None)` to stop with nothing.
fn times_of_line(line: &str) -> (r: Option<Option<(Decimal, Decimal, Decimal)>>)
    ensures
        !(is_rtt_line(line@) && second_field(line@) is Some) ==> r is None,
        is_rtt_line(line@) && second_field(line@) is Some ==> {
            let words = words_of(second_field(line@)->0);
            if words.len() == 0 {
                r == Some(None::<(Decimal, Decimal, Decimal)>)
            } else {
                match three_fields(words[0]) {
                    Some(f) => match three_times(f) {
                        Some(t) => (r matches Some(Some(x)) && is_parsed(x.0, t.0) && is_parsed(
                            x.1,
                            t.1,
                        ) && is_parsed(x.2, t.2)),
                        None => r == Some(None::<(Decimal, Decimal, Decimal)>),
                    },
                    None => r is None,
                }
            }
        },
{
    if !(str_contains(line, "rtt min/avg/max") || str_contains(line, "round-trip min/avg/max")) {
        return None;
    }
    let v = chars_of(line);
    let rest = match split_at_first(&v, '=') {
        Some(p) => p.1,
        None => {
            return None;
        },
    };
    let e = find_first(&rest, '=');
    let field = string_from_chars(&subvec(&rest, 0, e));
    let words = split_whitespace(field.as_str());
    if words.len() == 0 {
        return Some(None);
    }
    let w = chars_of(words[0].as_str());
    let (p0, r1) = match split_at_first(&w, '/') {
        Some(p) => p,
        None => {
            return None;
        },
    };
    let (p1, r2) = match split_at_first(&r1, '/') {
        Some(p) => p,
        None => {
            return None;
        },
    };
    let k = find_first(&r2, '/');
    let p2 = subvec(&r2, 0, k);
    let a = Decimal::parse(string_from_chars(&p0).as_str());
    let b = Decimal::parse(string_from_chars(&p1).as_str());
    let c = Decimal::parse(string_from_chars(&p2).as_str());
    match (a, b, c) {
        (Some(x), Some(y), Some(z)) => Some(Some((x, y, z))),
        _ => Some(None),
    }
}

/// The round-trip times and loss of ping output (see `ping_scan` and
/// `parse_packet_loss`), for `target` and `samples` pings; none when no
/// summary line gives three readable times.
pub fn parse_ping_output(output: &str, target: &str, samples: u32) -> (r: Option<LatencyResult>)
    ensures
        match ping_scan(lines_of(output@)) {
            Some(Some(t)) => (r matches Some(l) && l.target@ == target@ && is_parsed(l.min_ms, t.0)
                && is_parsed(l.avg_ms, t.1) && is_parsed(l.max_ms, t.2) && l.samples == samples
                && match loss_in_lines(lines_of(output@)) {
                Some(x) => is_parsed(l.packet_loss_percent, x),
                None => is_parsed(l.packet_loss_percent, (0, 0)),
            }),
            _ => r is None,
        },
{
    let ls = lines(output);
    let mut i: usize = 0;
    assert(ls.deep_view().subrange(0, ls@.len() as int) =~= ls.deep_view());
    while i < ls.len()
        invariant
            i <= ls@.len(),
            ls.deep_view() == lines_of(output@),
            ping_scan(ls.deep_view()) == ping_scan(ls.deep_view().subrange(i as int, ls@.len() as int)),
        decreases ls.len() - i,
    {
        let ghost rest = ls.deep_view().subrange(i as int, ls@.len() as int);
        proof {
            assert(rest[0] == ls@[i as int]@);
            assert(rest.drop_first() =~= ls.deep_view().subrange(i + 1, ls@.len() as int));
        }
        match times_of_line(ls[i].as_str()) {
            Some(Some((min_ms, avg_ms, max_ms))) => {
                let loss = parse_packet_loss(output);
                return Some(
                    LatencyResult {
                        target: owned(target),
                        min_ms,
                        avg_ms,
                        max_ms,
                        packet_loss_percent: loss,
                        samples,
                    },
                );
            },
            Some(None) => {
                return None;
            },
            None => {},
        }
        i = i + 1;
    }
    None
}

/// Round-trip figures for a diagnostics summary: the average as it is to
/// be shown, and the loss with its text.
#[derive(Debug, Clone)]
pub struct LatencyFigures {
    /// The average round trip, formatted to one decimal.
    pub avg_text: String,
    /// The packet loss in percent.
    pub loss: Decimal,
    /// The packet loss, formatted to one decimal.
    pub loss_text: String,
}

/// What a diagnostics run found, as its summary reports it.
#[derive(Debug, Clone)]
pub struct DiagnosticsFindings {
    pub link_up: bool,
    pub has_carrier: bool,
    /// The target pinged and whether it answered.
    pub connectivity: Option<(String, bool)>,
    pub latency: Option<LatencyFigures>,
    /// Whether a netem configuration is installed.
    pub tc_active: bool,
    /// Drops and overlimits of the root qdisc.
    pub tc_stats: Option<(u64, u64)>,
}

/// The parts of a summary, in order: the link state; whether the target
/// was reachable; the average latency and, when positive, the loss; `TC
/// active` when a configuration is installed; the drop and overlimit
/// counts when either is positive.
pub open spec fn summary_parts(f: DiagnosticsFindings) -> Seq<Seq<char>> {
    let link = if f.link_up && f.has_carrier {
        "Link UP"@
    } else if f.link_up {
        "Link UP (no carrier)"@
    } else {
        "Link DOWN"@
    };
    let conn = match f.connectivity {
        Some((t, true)) => seq![t@ + " reachable"@],
        Some((t, false)) => seq![t@ + " unreachable"@],
        None => Seq::empty(),
    };
    let lat = match f.latency {
        Some(l) => seq!["avg latency: "@ + l.avg_text@ + "ms"@] + if l.loss.is_pos() {
            seq![l.loss_text@ + "% loss"@]
        } else {
            Seq::empty()
        },
        None => Seq::empty(),
    };
    let tc = if f.tc_active {
        seq!["TC active"@]
    } else {
        Seq::empty()
    };
    let stats = match f.tc_stats {
        Some((d, o)) => if d > 0 || o > 0 {
            seq!["TC: "@ + nat_digits(d as nat) + " drops, "@ + nat_digits(o as nat) + " overlimits"@]
        } else {
            Seq::empty()
        },
        None => Seq::empty(),
    };
    seq![link] + conn + lat + tc + stats
}

/// The parts joined with `, `.
pub open spec fn join_parts(parts: Seq<Seq<char>>) -> Seq<char>
    decreases parts.len(),
{
    if parts.len() == 0 {
        Seq::empty()
    } else if parts.len() == 1 {
        parts[0]
    } else {
        join_parts(parts.drop_last()) + ", "@ + parts.last()
    }
}

fn join_with_commas(parts: &Vec<String>) -> (s: String)
    ensures
        s@ == join_parts(parts.deep_view()),
{
    let mut s = String::new();
    let mut i: usize = 0;
    assert(parts.deep_view().subrange(0, 0) =~= Seq::<Seq<char>>::empty());
    while i < parts.len()
        invariant
            i <= parts@.len(),
            s@ == join_parts(parts.deep_view().subrange(0, i as int)),
        decreases parts.len() - i,
    {
        let ghost pre = parts.deep_view().subrange(0, i as int);
        let ghost next = parts.deep_view().subrange(0, i + 1);
        if i > 0 {
            push_str(&mut s, ", ");
        }
        push_str(&mut s, parts[i].as_str());
        proof {
            assert(next.drop_last() =~= pre);
            assert(next.last() == parts@[i as int]@);
            if i == 0 {
                assert(next.len() == 1);
                assert(join_parts(pre) == Seq::<char>::empty());
                assert(s@ =~= next[0]);
            }
        }
        i = i + 1;
    }
    assert(parts.deep_view().subrange(0, parts@.len() as int) =~= parts.deep_view());
    s
}

/// The one-line summary of a diagnostics run (see `summary_parts`).
#[verifier::spinoff_prover]
#[verifier::rlimit(40)]
pub fn summary_message(f: &DiagnosticsFindings) -> (s: String)
    ensures
        s@ == join_parts(summary_parts(*f)),
{
    let mut parts: Vec<String> = Vec::new();
    let link = if f.link_up && f.has_carrier {
        "Link UP"
    } else if f.link_up {
        "Link UP (no carrier)"
    } else {
        "Link DOWN"
    };
    parts.push(owned(link));
    let ghost p1 = parts.deep_view();
    match &f.connectivity {
        Some((t, reachable)) => {
            let mut m = owned(t.as_str());
            if *reachable {
                push_str(&mut m, " reachable");
            } else {
                push_str(&mut m, " unreachable");
            }
            parts.push(m);
        },
        None => {},
    }
    let ghost p2 = parts.deep_view();
    match &f.latency {
        Some(l) => {
            let mut m = owned("avg latency: ");
            push_str(&mut m, l.avg_text.as_str());
            push_str(&mut m, "ms");
            parts.push(m);
            if l.loss.is_positive() {
                let mut n = owned(l.loss_text.as_str());
                push_str(&mut n, "% loss");
                parts.push(n);
            }
        },
        None => {},
    }
    let ghost p3 = parts.deep_view();
    if f.tc_active {
        parts.push(owned("TC active"));
    }
    let ghost p4 = parts.deep_view();
    match f.tc_stats {
        Some((d, o)) => {
            if d > 0 || o > 0 {
                let mut m = owned("TC: ");
                push_u64(&mut m, d);
                push_str(&mut m, " drops, ");
                push_u64(&mut m, o);
                push_str(&mut m, " overlimits");
                parts.push(m);
            }
        },
        None => {},
    }
    proof {
        let f0 = *f;
        let conn = match f0.connectivity {
            Some((t, true)) => seq![t@ + " reachable"@],
            Some((t, false)) => seq![t@ + " unreachable"@],
            None => Seq::<Seq<char>>::empty(),
        };
        let lat = match f0.latency {
            Some(l) => seq!["avg latency: "@ + l.avg_text@ + "ms"@] + if l.loss.is_pos() {
                seq![l.loss_text@ + "% loss"@]
            } else {
                Seq::<Seq<char>>::empty()
            },
            None => Seq::<Seq<char>>::empty(),
        };
        assert(p2 =~= p1 + conn);
        assert(p3 =~= p2 + lat);
        assert(parts.deep_view() =~= summary_parts(f0));
    }
    join_with_commas(&parts)
}

} // verus!

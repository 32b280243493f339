//! Character-level string helpers shared by the command builders and parsers.
//!
//! Strings are reasoned about through their `Seq<char>` views; the executable
//! helpers here turn `&str` into character vectors and back, render unsigned
//! integers in decimal, and test prefixes, suffixes and substrings.
use vstd::prelude::*;

verus! {

/// The ASCII digit character for a digit value `d` in `0..10`.
pub open spec fn digit_char(d: int) -> char {
    (48 + d) as char
}

/// Whether `c` is an ASCII decimal digit.
pub open spec fn is_digit(c: char) -> bool {
    48 <= c as int && c as int <= 57
}

/// The numeric value of an ASCII digit character.
pub open spec fn digit_value(c: char) -> int {
    c as int - 48
}

/// Decimal rendering of a natural number, without leading zeros.
pub open spec fn nat_digits(n: nat) -> Seq<char>
    decreases n,
{
    if n < 10 {
        seq![digit_char(n as int)]
    } else {
        nat_digits(n / 10).push(digit_char((n % 10) as int))
    }
}

/// Whether every character of `s` is an ASCII digit.
pub open spec fn all_digits(s: Seq<char>) -> bool {
    forall|i: int| 0 <= i < s.len() ==> is_digit(#[trigger] s[i])
}

/// The value of a string of ASCII digits read in base ten.
pub open spec fn digits_value(s: Seq<char>) -> nat
    decreases s.len(),
{
    if s.len() == 0 {
        0
    } else {
        (digits_value(s.drop_last()) * 10 + digit_value(s.last())) as nat
    }
}

/// Index of the first `c` in `s`, or `s.len()` when there is none.
pub open spec fn find_char(s: Seq<char>, c: char) -> nat
    decreases s.len(),
{
    if s.len() == 0 {
        0
    } else if s[0] == c {
        0
    } else {
        1 + find_char(s.drop_first(), c)
    }
}

/// `find_char` is the least index holding `c`.
pub proof fn lemma_find_char(s: Seq<char>, c: char, k: int)
    requires
        0 <= k <= s.len(),
        forall|j: int| 0 <= j < k ==> s[j] != c,
        k == s.len() || s[k] == c,
    ensures
        find_char(s, c) == k,
    decreases s.len(),
{
    if s.len() > 0 && k > 0 {
        assert(s[0] != c);
        lemma_find_char(s.drop_first(), c, k - 1);
    }
}

/// Whether `p` is a prefix of `s`.
pub open spec fn has_prefix(s: Seq<char>, p: Seq<char>) -> bool {
    p.len() <= s.len() && s.subrange(0, p.len() as int) == p
}

/// Whether `p` is a suffix of `s`.
pub open spec fn has_suffix(s: Seq<char>, p: Seq<char>) -> bool {
    p.len() <= s.len() && s.subrange(s.len() - p.len(), s.len() as int) == p
}

/// Whether `needle` occurs in `s` starting at position `i`.
pub open spec fn occurs_at(s: Seq<char>, needle: Seq<char>, i: int) -> bool {
    0 <= i && i + needle.len() <= s.len() && s.subrange(i, i + needle.len()) == needle
}

/// Whether `needle` occurs anywhere in `s` (the empty needle always occurs).
pub open spec fn contains_seq(s: Seq<char>, needle: Seq<char>) -> bool {
    exists|i: int| occurs_at(s, needle, i)
}

/// Returns the characters of `s`, in order.
pub fn chars_of(s: &str) -> (v: Vec<char>)
    ensures
        v@ == s@,
{
    let mut v: Vec<char> = Vec::new();
    let mut it = s.chars();
    for c in iter: it
        invariant
            v@ == iter.seq().take(iter.index() as int),
    {
        v.push(c);
    }
    v
}

/// Appends one character to a string (`String::push`).
#[verifier::external_body]
pub(crate) fn push_char(s: &mut String, c: char)
    ensures
        final(s)@ == old(s)@.push(c),
{
    s.push(c);
}

/// Appends the characters of `v` to `out`.
pub fn push_chars(out: &mut String, v: &Vec<char>)
    ensures
        final(out)@ == old(out)@ + v@,
{
    let ghost start = out@;
    let mut i: usize = 0;
    while i < v.len()
        invariant
            i <= v.len(),
            out@ == start + v@.subrange(0, i as int),
        decreases v.len() - i,
    {
        push_char(out, v[i]);
        i = i + 1;
        assert(v@.subrange(0, i as int) == v@.subrange(0, i - 1).push(v@[i - 1]));
    }
    assert(v@.subrange(0, v.len() as int) == v@);
}

/// Appends a string slice to `out`.
pub fn push_str(out: &mut String, s: &str)
    ensures
        final(out)@ == old(out)@ + s@,
{
    let v = chars_of(s);
    push_chars(out, &v);
}

/// Builds a string from a character vector.
pub fn string_from_chars(v: &Vec<char>) -> (s: String)
    ensures
        s@ == v@,
{
    let mut s = String::new();
    push_chars(&mut s, v);
    assert(s@ == Seq::<char>::empty() + v@);
    s
}

/// Copies a string slice into an owned string.
pub fn owned(s: &str) -> (r: String)
    ensures
        r@ == s@,
{
    s.to_owned()
}

/// Whether two string slices hold the same characters.
pub fn str_eq(a: &str, b: &str) -> (r: bool)
    ensures
        r == (a@ == b@),
{
    let x = a.to_owned();
    let y = b.to_owned();
    x == y
}

/// The digit character for `d < 10`.
pub fn digit_to_char(d: u64) -> (c: char)
    requires
        d < 10,
    ensures
        c == digit_char(d as int),
{
    let b: u8 = d as u8;
    (48u8 + b) as char
}

/// Appends the decimal rendering of `n` to `out`.
pub fn push_u64(out: &mut String, n: u64)
    ensures
        final(out)@ == old(out)@ + nat_digits(n as nat),
    decreases n,
{
    if n >= 10 {
        push_u64(out, n / 10);
    }
    let c = digit_to_char(n % 10);
    push_char(out, c);
}

/// Decimal rendering of an unsigned integer (`format!("{}", n)`).
pub fn u64_to_string(n: u64) -> (s: String)
    ensures
        s@ == nat_digits(n as nat),
{
    let mut s = String::new();
    push_u64(&mut s, n);
    assert(s@ == Seq::<char>::empty() + nat_digits(n as nat));
    s
}

/// A copy of `v[a..b]`.
pub fn subvec(v: &Vec<char>, a: usize, b: usize) -> (r: Vec<char>)
    requires
        a <= b <= v.len(),
    ensures
        r@ == v@.subrange(a as int, b as int),
{
    let mut r: Vec<char> = Vec::new();
    let mut i = a;
    while i < b
        invariant
            a <= i <= b <= v.len(),
            r@ == v@.subrange(a as int, i as int),
        decreases b - i,
    {
        r.push(v[i]);
        i = i + 1;
        assert(r@ =~= v@.subrange(a as int, i as int));
    }
    r
}

/// The concatenation of two character vectors.
pub fn concat_vec(x: &Vec<char>, y: &Vec<char>) -> (r: Vec<char>)
    ensures
        r@ == x@ + y@,
{
    let mut r = subvec(x, 0, x.len());
    let mut i: usize = 0;
    while i < y.len()
        invariant
            i <= y.len(),
            r@ == x@ + y@.subrange(0, i as int),
        decreases y.len() - i,
    {
        r.push(y[i]);
        i = i + 1;
        assert(r@ =~= x@ + y@.subrange(0, i as int));
    }
    assert(y@.subrange(0, y.len() as int) =~= y@);
    r
}

/// Index of the first `c` in `v`, or `v.len()`.
pub fn find_first(v: &Vec<char>, c: char) -> (r: usize)
    ensures
        r == find_char(v@, c),
        r <= v.len(),
{
    let mut i: usize = 0;
    while i < v.len()
        invariant
            i <= v.len(),
            forall|j: int| 0 <= j < i ==> v@[j] != c,
        decreases v.len() - i,
    {
        if v[i] == c {
            proof {
                lemma_find_char(v@, c, i as int);
            }
            return i;
        }
        i = i + 1;
    }
    proof {
        lemma_find_char(v@, c, i as int);
    }
    i
}

/// Whether every character of `v` is an ASCII digit.
pub fn vec_all_digits(v: &Vec<char>) -> (r: bool)
    ensures
        r == all_digits(v@),
{
    let mut i: usize = 0;
    while i < v.len()
        invariant
            i <= v.len(),
            forall|j: int| 0 <= j < i ==> is_digit(#[trigger] v@[j]),
        decreases v.len() - i,
    {
        let c = v[i];
        if !('0' <= c && c <= '9') {
            return false;
        }
        i = i + 1;
    }
    true
}

/// The base-ten value of a string of digits, or `None` when it exceeds
/// `u64::MAX`.
pub fn digits_value_u64(v: &Vec<char>) -> (r: Option<u64>)
    requires
        all_digits(v@),
    ensures
        match r {
            Some(m) => m == digits_value(v@),
            None => digits_value(v@) > u64::MAX,
        },
{
    let mut acc: u64 = 0;
    let mut over = false;
    let mut i: usize = 0;
    while i < v.len()
        invariant
            i <= v.len(),
            all_digits(v@),
            !over ==> acc == digits_value(v@.subrange(0, i as int)),
            over ==> digits_value(v@.subrange(0, i as int)) > u64::MAX,
        decreases v.len() - i,
    {
        let c = v[i];
        assert(is_digit(v@[i as int]));
        let d: u64 = (c as u32 - 48) as u64;
        let ghost pre = v@.subrange(0, i as int);
        assert(v@.subrange(0, i + 1) =~= pre.push(c));
        assert(pre.push(c).drop_last() =~= pre);
        assert(digits_value(pre.push(c)) == digits_value(pre) * 10 + digit_value(c));
        if !over {
            match acc.checked_mul(10) {
                Some(m) => match m.checked_add(d) {
                    Some(x) => {
                        acc = x;
                    },
                    None => {
                        over = true;
                    },
                },
                None => {
                    over = true;
                },
            }
        }
        i = i + 1;
    }
    assert(v@.subrange(0, v.len() as int) =~= v@);
    if over {
        None
    } else {
        Some(acc)
    }
}

/// What `str::parse::<u64>` accepts: an optional `+`, then one or more
/// digits whose value fits in a `u64`.
pub open spec fn parse_u64_spec(t: Seq<char>) -> Option<nat> {
    let body = if t.len() > 0 && t[0] == '+' {
        t.drop_first()
    } else {
        t
    };
    if body.len() > 0 && all_digits(body) && digits_value(body) <= u64::MAX {
        Some(digits_value(body))
    } else {
        None
    }
}

/// Reads an unsigned integer as `str::parse::<u64>` does.
pub fn parse_u64(t: &str) -> (r: Option<u64>)
    ensures
        match parse_u64_spec(t@) {
            Some(n) => r == Some(n as u64),
            None => r is None,
        },
{
    let v = chars_of(t);
    let start: usize = if v.len() > 0 && v[0] == '+' {
        1
    } else {
        0
    };
    let body = subvec(&v, start, v.len());
    assert(body@ =~= (if t@.len() > 0 && t@[0] == '+' {
        t@.drop_first()
    } else {
        t@
    }));
    if body.len() == 0 || !vec_all_digits(&body) {
        return None;
    }
    digits_value_u64(&body)
}

/// Whether `p` is a prefix of `s`.
pub fn vec_has_prefix(s: &Vec<char>, p: &Vec<char>) -> (r: bool)
    ensures
        r == has_prefix(s@, p@),
{
    if p.len() > s.len() {
        return false;
    }
    let mut i: usize = 0;
    while i < p.len()
        invariant
            p.len() <= s.len(),
            i <= p.len(),
            forall|j: int| 0 <= j < i ==> s@[j] == p@[j],
        decreases p.len() - i,
    {
        if s[i] != p[i] {
            assert(s@.subrange(0, p.len() as int)[i as int] != p@[i as int]);
            return false;
        }
        i = i + 1;
    }
    assert(s@.subrange(0, p.len() as int) =~= p@);
    true
}

/// Whether `needle` occurs in `s` at position `at`.
pub fn vec_occurs_at(s: &Vec<char>, needle: &Vec<char>, at: usize) -> (r: bool)
    ensures
        r == occurs_at(s@, needle@, at as int),
{
    if at > s.len() || needle.len() > s.len() - at {
        return false;
    }
    let mut i: usize = 0;
    while i < needle.len()
        invariant
            at + needle.len() <= s.len(),
            i <= needle.len(),
            forall|j: int| 0 <= j < i ==> s@[at + j] == needle@[j],
        decreases needle.len() - i,
    {
        if s[at + i] != needle[i] {
            assert(s@.subrange(at as int, at + needle.len())[i as int] != needle@[i as int]);
            return false;
        }
        i = i + 1;
    }
    assert(s@.subrange(at as int, at + needle.len()) =~= needle@);
    true
}

/// Whether `p` is a suffix of `s`.
pub fn vec_has_suffix(s: &Vec<char>, p: &Vec<char>) -> (r: bool)
    ensures
        r == has_suffix(s@, p@),
{
    if p.len() > s.len() {
        return false;
    }
    let r = vec_occurs_at(s, p, s.len() - p.len());
    r
}

/// Whether `needle` occurs somewhere in `s`.
pub fn vec_contains(s: &Vec<char>, needle: &Vec<char>) -> (r: bool)
    ensures
        r == contains_seq(s@, needle@),
{
    if needle.len() > s.len() {
        assert forall|i: int| !occurs_at(s@, needle@, i) by {}
        return false;
    }
    let last = s.len() - needle.len();
    let mut i: usize = 0;
    loop
        invariant
            needle.len() <= s.len(),
            last == s.len() - needle.len(),
            i <= last,
            forall|j: int| 0 <= j < i ==> !occurs_at(s@, needle@, j),
        ensures
            forall|j: int| 0 <= j <= last ==> !occurs_at(s@, needle@, j),
        decreases last - i,
    {
        if vec_occurs_at(s, needle, i) {
            return true;
        }
        if i == last {
            break;
        }
        i = i + 1;
    }
    assert forall|j: int| !occurs_at(s@, needle@, j) by {
        if 0 <= j <= last {
        }
    }
    false
}

/// Whether `p` is a prefix of `s`.
pub fn str_starts_with(s: &str, p: &str) -> (r: bool)
    ensures
        r == has_prefix(s@, p@),
{
    vec_has_prefix(&chars_of(s), &chars_of(p))
}

/// Whether `p` is a suffix of `s`.
pub fn str_ends_with(s: &str, p: &str) -> (r: bool)
    ensures
        r == has_suffix(s@, p@),
{
    vec_has_suffix(&chars_of(s), &chars_of(p))
}

/// Whether `needle` occurs in `s`.
pub fn str_contains(s: &str, needle: &str) -> (r: bool)
    ensures
        r == contains_seq(s@, needle@),
{
    vec_contains(&chars_of(s), &chars_of(needle))
}

/// Appends an owned argument to an argument list.
pub fn push_arg(args: &mut Vec<String>, s: String)
    ensures
        final(args).deep_view() == old(args).deep_view().push(s@),
{
    let ghost before = args.deep_view();
    args.push(s);
    assert(args.deep_view() =~= before.push(s@));
}

/// Appends a copy of a string slice to an argument list.
pub fn push_lit(args: &mut Vec<String>, s: &str)
    ensures
        final(args).deep_view() == old(args).deep_view().push(s@),
{
    push_arg(args, owned(s));
}

/// Appends every argument of `more` to `args`.
pub fn extend_args(args: &mut Vec<String>, more: Vec<String>)
    ensures
        final(args).deep_view() == old(args).deep_view() + more.deep_view(),
{
    let ghost start = args.deep_view();
    let mut more = more;
    let ghost all = more.deep_view();
    let mut rest: Vec<String> = Vec::new();
    // move out in order by reversing twice
    while more.len() > 0
        invariant
            all == more.deep_view() + rest.deep_view().reverse(),
        decreases more.len(),
    {
        let ghost m = more.deep_view();
        let ghost r = rest.deep_view();
        let x = more.pop().unwrap();
        rest.push(x);
        assert(more.deep_view() =~= m.drop_last());
        assert(rest.deep_view() =~= r.push(x@));
        assert(rest.deep_view().reverse() =~= seq![x@] + r.reverse());
        assert(m =~= more.deep_view().push(x@));
    }
    assert(all =~= rest.deep_view().reverse());
    while rest.len() > 0
        invariant
            args.deep_view() + rest.deep_view().reverse() == start + all,
        decreases rest.len(),
    {
        let ghost r = rest.deep_view();
        let ghost a = args.deep_view();
        let x = rest.pop().unwrap();
        args.push(x);
        assert(rest.deep_view() =~= r.drop_last());
        assert(args.deep_view() =~= a.push(x@));
        assert(r =~= rest.deep_view().push(x@));
        assert(r.reverse() =~= seq![x@] + rest.deep_view().reverse());
        assert(args.deep_view() + rest.deep_view().reverse() =~= a + r.reverse());
    }
    assert(rest.deep_view().reverse() =~= Seq::<Seq<char>>::empty());
    assert(args.deep_view() =~= start + all);
}


/// Index of the first `k` in `s`, if any.
pub open spec fn first_index(s: Seq<Seq<char>>, k: Seq<char>) -> Option<int>
    decreases s.len(),
{
    if s.len() == 0 {
        None
    } else if s[0] == k {
        Some(0)
    } else {
        match first_index(s.drop_first(), k) {
            Some(i) => Some(i + 1),
            None => None,
        }
    }
}

/// `first_index` gives the least index holding `k`, and `None` only when
/// no index holds it.
pub proof fn lemma_first_index(s: Seq<Seq<char>>, k: Seq<char>)
    ensures
        match first_index(s, k) {
            Some(i) => 0 <= i < s.len() && s[i] == k && forall|j: int| 0 <= j < i ==> s[j] != k,
            None => forall|j: int| 0 <= j < s.len() ==> s[j] != k,
        },
    decreases s.len(),
{
    if s.len() > 0 && s[0] != k {
        lemma_first_index(s.drop_first(), k);
        match first_index(s.drop_first(), k) {
            Some(i) => {
                assert forall|j: int| 0 <= j < i + 1 implies s[j] != k by {
                    if j > 0 {
                        assert(s[j] == s.drop_first()[j - 1]);
                    }
                }
            },
            None => {
                assert forall|j: int| 0 <= j < s.len() implies s[j] != k by {
                    if j > 0 {
                        assert(s[j] == s.drop_first()[j - 1]);
                    }
                }
            },
        }
    }
}

/// A search that found the least index holding `k`, or found none, agrees
/// with `first_index`.
pub proof fn lemma_first_index_found(s: Seq<Seq<char>>, k: Seq<char>, r: Option<int>)
    requires
        match r {
            Some(i) => 0 <= i < s.len() && s[i] == k && forall|j: int| 0 <= j < i ==> s[j] != k,
            None => forall|j: int| 0 <= j < s.len() ==> s[j] != k,
        },
    ensures
        first_index(s, k) == r,
{
    lemma_first_index(s, k);
    match (first_index(s, k), r) {
        (Some(a), Some(b)) => {
            if a < b {
                assert(s[a] != k);
            } else if b < a {
                assert(s[b] != k);
            }
        },
        (Some(a), None) => {
            assert(s[a] != k);
        },
        (None, Some(b)) => {
            assert(s[b] != k);
        },
        (None, None) => {},
    }
}


/// Whether one of the strings equals `s`.
pub fn contains_string(v: &Vec<String>, s: &str) -> (r: bool)
    ensures
        r == v.deep_view().contains(s@),
{
    let mut i: usize = 0;
    while i < v.len()
        invariant
            i <= v@.len(),
            forall|j: int| 0 <= j < i ==> v.deep_view()[j] != s@,
        decreases v.len() - i,
    {
        if str_eq(v[i].as_str(), s) {
            assert(v.deep_view()[i as int] == s@);
            return true;
        }
        i = i + 1;
    }
    false
}

/// The view of an optional string.
pub open spec fn opt_view(s: Option<&str>) -> Option<Seq<char>> {
    match s {
        Some(t) => Some(t@),
        None => None,
    }
}

/// The text of an optional string.
pub open spec fn opt_text(o: Option<String>) -> Option<Seq<char>> {
    match o {
        Some(s) => Some(s@),
        None => None,
    }
}


/// How many times `c` occurs in `s`.
pub open spec fn count_char(s: Seq<char>, c: char) -> nat
    decreases s.len(),
{
    if s.len() == 0 {
        0
    } else {
        count_char(s.drop_last(), c) + if s.last() == c {
            1nat
        } else {
            0nat
        }
    }
}

/// How many times `c` occurs in `v`.
pub fn count_char_exec(v: &Vec<char>, c: char) -> (r: usize)
    ensures
        r == count_char(v@, c),
{
    let mut n: usize = 0;
    let mut i: usize = 0;
    while i < v.len()
        invariant
            i <= v@.len(),
            n == count_char(v@.subrange(0, i as int), c),
            n <= i,
        decreases v.len() - i,
    {
        proof {
            assert(v@.subrange(0, i + 1).drop_last() =~= v@.subrange(0, i as int));
        }
        if v[i] == c {
            n = n + 1;
        }
        i = i + 1;
    }
    assert(v@.subrange(0, v@.len() as int) =~= v@);
    n
}

/// What `str::parse::<i64>` accepts: an optional sign, then one or more
/// digits whose value fits in an `i64`.
pub open spec fn parse_i64_spec(t: Seq<char>) -> Option<int> {
    let neg = t.len() > 0 && t[0] == '-';
    let body = if t.len() > 0 && (t[0] == '-' || t[0] == '+') {
        t.drop_first()
    } else {
        t
    };
    if body.len() > 0 && all_digits(body) {
        let v = digits_value(body);
        if neg && v <= 0x8000_0000_0000_0000 {
            Some(-(v as int))
        } else if !neg && v <= 0x7fff_ffff_ffff_ffff {
            Some(v as int)
        } else {
            None
        }
    } else {
        None
    }
}

/// Reads a signed integer as `str::parse::<i64>` does.
pub fn parse_i64(t: &str) -> (r: Option<i64>)
    ensures
        match parse_i64_spec(t@) {
            Some(n) => r == Some(n as i64),
            None => r is None,
        },
{
    let v = chars_of(t);
    let neg = v.len() > 0 && v[0] == '-';
    let start: usize = if v.len() > 0 && (v[0] == '-' || v[0] == '+') {
        1
    } else {
        0
    };
    let body = subvec(&v, start, v.len());
    assert(body@ =~= (if t@.len() > 0 && (t@[0] == '-' || t@[0] == '+') {
        t@.drop_first()
    } else {
        t@
    }));
    if body.len() == 0 || !vec_all_digits(&body) {
        return None;
    }
    match digits_value_u64(&body) {
        None => None,
        Some(x) => {
            if neg {
                if x <= 0x8000_0000_0000_0000 {
                    if x == 0x8000_0000_0000_0000 {
                        Some(i64::MIN)
                    } else {
                        Some(-(x as i64))
                    }
                } else {
                    None
                }
            } else {
                if x <= 0x7fff_ffff_ffff_ffff {
                    Some(x as i64)
                } else {
                    None
                }
            }
        },
    }
}


/// `find_char` is at most the length.
pub proof fn lemma_find_char_bound(s: Seq<char>, c: char)
    ensures
        find_char(s, c) <= s.len(),
    decreases s.len(),
{
    if s.len() > 0 && s[0] != c {
        lemma_find_char_bound(s.drop_first(), c);
    }
}

} // verus!

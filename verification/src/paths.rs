//! Directory lists for files loaded by id, and merging what they hold so
//! that later directories override earlier ones.
use vstd::prelude::*;
use crate::text::{first_index, has_suffix, lemma_first_index, lemma_first_index_found, owned, push_str, str_ends_with, str_eq};

verus! {

/// The user's home directory as `dirs::home_dir` finds it, if any: from
/// `HOME`, else the password database, and never empty (an empty value
/// counts as none). Which directory comes back depends on the environment
/// and is not stated. A home that is not valid UTF-8 is given lossily.
#[verifier::external_body]
pub(crate) fn home_dir() -> (r: Option<String>)
    ensures
        r matches Some(h) ==> h@.len() > 0,
{
    dirs::home_dir().map(|p| p.to_string_lossy().into_owned())
}

/// What `Path::extension` gives for a path, as text.
pub uninterp spec fn path_extension(path: Seq<char>) -> Option<Seq<char>>;

/// `Path::extension`: the part of the file name after its last `.`, when
/// the name has one that is not its first character.
#[verifier::external_body]
fn extension_of(path: &str) -> (r: Option<String>)
    ensures
        match r {
            Some(e) => path_extension(path@) == Some(e@),
            None => path_extension(path@) is None,
        },
{
    std::path::Path::new(path).extension().map(|e| e.to_string_lossy().into_owned())
}

/// Whether a path names a `.json5` file.
pub fn is_json5_path(path: &str) -> (r: bool)
    ensures
        r == (path_extension(path@) == Some("json5"@)),
{
    match extension_of(path) {
        Some(e) => str_eq(e.as_str(), "json5"),
        None => false,
    }
}

/// `base` joined with a relative path, as `PathBuf::join` does: a `/` is
/// put between them unless `base` is empty or already ends in one.
pub open spec fn join_spec(base: Seq<char>, rel: Seq<char>) -> Seq<char> {
    if base.len() == 0 || has_suffix(base, "/"@) {
        base + rel
    } else {
        base + "/"@ + rel
    }
}

/// `base` joined with a relative path (see `join_spec`).
pub fn join_path(base: &str, rel: &str) -> (r: String)
    ensures
        r@ == join_spec(base@, rel@),
{
    let mut r = owned(base);
    if !(base.is_empty() || str_ends_with(base, "/")) {
        push_str(&mut r, "/");
    }
    push_str(&mut r, rel);
    r
}

/// The default directories, lowest priority first: the system directory,
/// the user directory under the home directory when there is one, and the
/// local directory.
pub open spec fn default_dirs(system: Seq<char>, home: Option<Seq<char>>, user: Seq<char>, local: Seq<char>) -> Seq<
    Seq<char>,
> {
    match home {
        Some(h) => seq![system, join_spec(h, user), local],
        None => seq![system, local],
    }
}

/// The default directories (see `default_dirs`).
pub fn default_directories(system: &str, home: Option<String>, user: &str, local: &str) -> (r: Vec<
    String,
>)
    ensures
        r.deep_view() == default_dirs(system@, crate::text::opt_text(home), user@, local@),
{
    let mut r: Vec<String> = Vec::new();
    r.push(owned(system));
    match home {
        Some(h) => {
            r.push(join_path(h.as_str(), user));
        },
        None => {},
    }
    r.push(owned(local));
    assert(r.deep_view() =~= default_dirs(system@, crate::text::opt_text(home), user@, local@));
    r
}

/// Something loaded from a file that carries an id.
pub trait Keyed {
    /// The id.
    spec fn key(&self) -> Seq<char>;

    /// The id.
    fn id_str(&self) -> (r: &str)
        ensures
            r@ == self.key(),
    ;
}

/// The ids of a list.
pub open spec fn keys_of<T: Keyed>(s: Seq<T>) -> Seq<Seq<char>> {
    s.map_values(|t: T| t.key())
}

/// The last item with id `k`, if any.
pub open spec fn last_with_key<T: Keyed>(s: Seq<T>, k: Seq<char>) -> Option<T>
    decreases s.len(),
{
    if s.len() == 0 {
        None
    } else if s.last().key() == k {
        Some(s.last())
    } else {
        last_with_key(s.drop_last(), k)
    }
}

/// The item with id `k` in a list whose ids do not repeat.
pub open spec fn with_key<T: Keyed>(s: Seq<T>, k: Seq<char>) -> Option<T> {
    match first_index(keys_of(s), k) {
        Some(i) => Some(s[i]),
        None => None,
    }
}

/// An item in front of a list changes the last item with an id only when
/// the list has none.
pub proof fn lemma_last_with_key_prepend<T: Keyed>(x: T, s: Seq<T>, k: Seq<char>)
    ensures
        last_with_key(seq![x] + s, k) == (match last_with_key(s, k) {
            Some(v) => Some(v),
            None => if x.key() == k {
                Some(x)
            } else {
                None
            },
        }),
    decreases s.len(),
{
    let t = seq![x] + s;
    if s.len() == 0 {
        assert(t.drop_last() =~= Seq::<T>::empty());
    } else {
        assert(t.drop_last() =~= seq![x] + s.drop_last());
        assert(t.last() == s.last());
        lemma_last_with_key_prepend(x, s.drop_last(), k);
    }
}

/// Whether some item has id `key`.
fn contains_key<T: Keyed>(r: &Vec<T>, key: &str) -> (found: bool)
    ensures
        found == (exists|j: int| 0 <= j < r@.len() && keys_of(r@)[j] == key@),
        !found ==> forall|j: int| 0 <= j < r@.len() ==> keys_of(r@)[j] != key@,
{
    let mut i: usize = 0;
    while i < r.len()
        invariant
            i <= r@.len(),
            forall|j: int| 0 <= j < i ==> keys_of(r@)[j] != key@,
        decreases r.len() - i,
    {
        if str_eq(r[i].id_str(), key) {
            assert(keys_of(r@)[i as int] == key@);
            return true;
        }
        i = i + 1;
    }
    false
}

/// One item per id, the last one loaded with it: what loading directories
/// in priority order gives, later ones overriding earlier ones.
pub fn merge_by_id<T: Keyed>(items: Vec<T>) -> (r: Vec<T>)
    ensures
        forall|i: int, j: int|
            0 <= i < j < r@.len() ==> #[trigger] keys_of(r@)[i] != #[trigger] keys_of(r@)[j],
        forall|k: Seq<char>| #[trigger] with_key(r@, k) == last_with_key(items@, k),
{
    let ghost all = items@;
    let mut items = items;
    let mut r: Vec<T> = Vec::new();
    assert(all.subrange(all.len() as int, all.len() as int) =~= Seq::<T>::empty());
    while items.len() > 0
        invariant
            items@ == all.subrange(0, items@.len() as int),
            items@.len() <= all.len(),
            forall|i: int, j: int|
                0 <= i < j < r@.len() ==> #[trigger] keys_of(r@)[i] != #[trigger] keys_of(r@)[j],
            forall|k: Seq<char>|
                #[trigger] with_key(r@, k) == last_with_key(
                    all.subrange(items@.len() as int, all.len() as int),
                    k,
                ),
        decreases items.len(),
    {
        let ghost before_r = r@;
        let ghost n = items@.len();
        let x = items.pop().unwrap();
        let ghost suffix = all.subrange(n as int, all.len() as int);
        proof {
            assert(all.subrange(n - 1, all.len() as int) =~= seq![x] + suffix);
            assert forall|k: Seq<char>| #[trigger] last_with_key(seq![x] + suffix, k) == (match last_with_key(suffix, k) {
                Some(v) => Some(v),
                None => if x.key() == k {
                    Some(x)
                } else {
                    None
                },
            }) by {
                lemma_last_with_key_prepend(x, suffix, k);
            }
        }
        let found = contains_key(&r, x.id_str());
        if !found {
            proof {
                lemma_first_index_found(keys_of(before_r), x.key(), None);
            }
            r.push(x);
            proof {
                let ka = keys_of(r@);
                let kb = keys_of(before_r);
                assert(ka =~= kb.push(x.key()));
                lemma_first_index_found(ka, x.key(), Some(before_r.len() as int));
                assert forall|k: Seq<char>| k != x.key() implies #[trigger] with_key(r@, k)
                    == with_key(before_r, k) by {
                    lemma_first_index(kb, k);
                    match first_index(kb, k) {
                        Some(j) => {
                            lemma_first_index_found(ka, k, Some(j));
                            assert(r@[j] == before_r[j]);
                        },
                        None => {
                            lemma_first_index_found(ka, k, None);
                        },
                    }
                }
                assert forall|a: int, b: int| 0 <= a < b < ka.len() implies #[trigger] ka[a]
                    != #[trigger] ka[b] by {
                    if b == before_r.len() {
                        assert(ka[a] == kb[a]);
                    } else {
                        assert(ka[a] == kb[a] && ka[b] == kb[b]);
                    }
                }
                assert(with_key(before_r, x.key()) is None);
            }
        } else {
            proof {
                lemma_first_index(keys_of(r@), x.key());
                assert(with_key(r@, x.key()) is Some);
            }
        }
        proof {
            assert forall|k: Seq<char>| #[trigger] with_key(r@, k) == last_with_key(
                all.subrange(items@.len() as int, all.len() as int),
                k,
            ) by {
                assert(all.subrange(items@.len() as int, all.len() as int) =~= seq![x] + suffix);
                lemma_last_with_key_prepend(x, suffix, k);
            }
            assert(items@ =~= all.subrange(0, items@.len() as int));
        }
    }
    assert(all.subrange(0, all.len() as int) =~= all);
    r
}

} // verus!

//! Layout of the on-disk response cache: where each entry lives, how old an
//! entry may get, and the temporary name an entry is written under before it
//! is moved into place.
use rand::distributions::{Alphanumeric, DistString};
use vstd::prelude::*;

use crate::text::{decimal, push_decimal};
use crate::{stat_word, StatType};

verus! {

/// Age in seconds from which a cache entry is stale.
pub const MAX_FILE_AGE_SECS: u64 = 3600;

/// Length of the random part of a temporary file name.
pub const TEMP_TOKEN_LEN: usize = 16;

pub open spec fn owner_dir_spec(owner: Seq<char>) -> Seq<char> {
    "cache/repos/"@ + owner
}

/// The entry of page `page` of an owner's repository list.
pub open spec fn list_page_path_spec(owner: Seq<char>, page: nat) -> Seq<char> {
    owner_dir_spec(owner) + "/_RESOURCES_p"@ + decimal(page) + ".json"@
}

/// The entry of one traffic facet of a repository.
pub open spec fn traffic_path_spec(owner: Seq<char>, repo: Seq<char>, t: StatType) -> Seq<char> {
    owner_dir_spec(owner) + "/"@ + repo + "_"@ + stat_word(t) + ".json"@
}

/// The extension of the last component of a path: what follows its last `.`,
/// where that `.` is not the component's first character. On the paths the
/// cache builds (no trailing `/`, no `.` or `..` component) this is what std's
/// `Path::extension` gives; unlike it, a trailing `/` is not skipped and `..`
/// is read as a name.
pub open spec fn extension_spec(path: Seq<char>) -> Option<Seq<char>> {
    let start = last_index(path, '/') + 1;
    let dot = last_index(path, '.');
    if dot > start {
        Some(path.subrange(dot + 1, path.len() as int))
    } else {
        None
    }
}

/// The index of the last `c` in `s`, -1 where there is none.
pub open spec fn last_index(s: Seq<char>, c: char) -> int
    decreases s.len(),
{
    if s.len() == 0 {
        -1
    } else if s.last() == c {
        s.len() - 1
    } else {
        last_index(s.drop_last(), c)
    }
}

/// The temporary file for `target` with random part `token`: in the cache
/// root, hidden, with the target's extension.
pub open spec fn temp_path_spec(target: Seq<char>, token: Seq<char>) -> Option<Seq<char>> {
    match extension_spec(target) {
        Some(ext) => Some("cache/.tmp."@ + token + "."@ + ext),
        None => None,
    }
}

pub open spec fn is_alphanumeric(c: char) -> bool {
    ('a' <= c && c <= 'z') || ('A' <= c && c <= 'Z') || ('0' <= c && c <= '9')
}

/// Whether an entry of that age is stale.
pub open spec fn is_stale_spec(age_secs: int, ttl_secs: int) -> bool {
    age_secs >= ttl_secs
}

pub fn is_stale(age_secs: u64, ttl_secs: u64) -> (r: bool)
    ensures
        r == is_stale_spec(age_secs as int, ttl_secs as int),
{
    age_secs >= ttl_secs
}

/// The directory that holds an owner's entries.
pub fn owner_dir(owner: &str) -> (r: String)
    ensures
        r@ == owner_dir_spec(owner@),
{
    let mut s = String::from_str("cache/repos/");
    s.append(owner);
    s
}

pub fn list_page_path(owner: &str, page: u64) -> (r: String)
    ensures
        r@ == list_page_path_spec(owner@, page as nat),
{
    let mut s = owner_dir(owner);
    s.append("/_RESOURCES_p");
    push_decimal(&mut s, page);
    s.append(".json");
    s
}

pub fn traffic_path(owner: &str, repo: &str, t: StatType) -> (r: String)
    ensures
        r@ == traffic_path_spec(owner@, repo@, t),
{
    let mut s = owner_dir(owner);
    s.append("/");
    s.append(repo);
    s.append("_");
    s.append(t.word());
    s.append(".json");
    s
}

/// The index of the last `c` in `s`, -1 where there is none.
fn find_last(s: &str, c: char) -> (r: i64)
    requires
        s@.len() < i64::MAX,
    ensures
        r == last_index(s@, c),
{
    let n = s.unicode_len();
    let mut i: usize = n;
    assert(s@.subrange(0, n as int) =~= s@);
    while i > 0
        invariant
            i <= n == s@.len(),
            n < i64::MAX,
            last_index(s@, c) == last_index(s@.subrange(0, i as int), c),
        decreases i,
    {
        assert(s@.subrange(0, i as int).drop_last() =~= s@.subrange(0, i - 1));
        if s.get_char(i - 1) == c {
            return (i - 1) as i64;
        }
        i = i - 1;
    }
    -1
}

/// The extension of the last component of `path`.
pub fn extension<'a>(path: &'a str) -> (r: Option<&'a str>)
    requires
        path@.len() < i64::MAX,
    ensures
        match r {
            Some(e) => extension_spec(path@) == Some(e@),
            None => extension_spec(path@) is None,
        },
{
    let slash = find_last(path, '/');
    let dot = find_last(path, '.');
    proof {
        lemma_last_index_bound(path@, '/');
        lemma_last_index_bound(path@, '.');
    }
    if dot > slash + 1 {
        Some(path.substring_char((dot + 1) as usize, path.unicode_len()))
    } else {
        None
    }
}

proof fn lemma_last_index_bound(s: Seq<char>, c: char)
    ensures
        -1 <= last_index(s, c) < s.len(),
    decreases s.len(),
{
    if s.len() > 0 {
        lemma_last_index_bound(s.drop_last(), c);
    }
}

/// The temporary file for `target` with random part `token`, `None` where
/// the target has no extension.
pub fn temp_path_with(target: &str, token: &str) -> (r: Option<String>)
    requires
        target@.len() < i64::MAX,
    ensures
        match r {
            Some(p) => temp_path_spec(target@, token@) == Some(p@),
            None => temp_path_spec(target@, token@) is None,
        },
{
    match extension(target) {
        None => None,
        Some(ext) => {
            let mut s = String::from_str("cache/.tmp.");
            s.append(token);
            s.append(".");
            s.append(ext);
            Some(s)
        },
    }
}

/// Relies on rand's `DistString::sample_string` for `Alphanumeric` with the
/// thread-local generator: `len` characters, each one of `A-Z`, `a-z`, `0-9`.
#[verifier::external_body]
fn random_alphanumeric(len: usize) -> (r: String)
    ensures
        r@.len() == len,
        forall|i: int| 0 <= i < r@.len() ==> is_alphanumeric(#[trigger] r@[i]),
{
    Alphanumeric.sample_string(&mut rand::thread_rng(), len)
}

/// A fresh temporary file for `target`, with a random part of sixteen
/// alphanumeric characters; `None` where the target has no extension.
pub fn temp_path(target: &str) -> (r: Option<String>)
    requires
        target@.len() < i64::MAX,
    ensures
        r is None <==> extension_spec(target@) is None,
        r matches Some(p) ==> exists|token: Seq<char>|
            token.len() == TEMP_TOKEN_LEN && (forall|i: int|
                0 <= i < token.len() ==> is_alphanumeric(#[trigger] token[i]))
                && temp_path_spec(target@, token) == Some(p@),
{
    let token = random_alphanumeric(TEMP_TOKEN_LEN);
    temp_path_with(target, token.as_str())
}

/// A temporary file is never a cache entry: entries lie under `cache/repos/`,
/// temporary files directly in `cache/`. So an entry is either absent or was
/// moved into place whole, and a write cut short before the move leaves no
/// entry behind.
pub proof fn temp_is_never_an_entry(
    target: Seq<char>,
    token: Seq<char>,
    owner: Seq<char>,
    repo: Seq<char>,
    page: nat,
    t: StatType,
)
    requires
        temp_path_spec(target, token) is Some,
    ensures
        temp_path_spec(target, token)->0 != list_page_path_spec(owner, page),
        temp_path_spec(target, token)->0 != traffic_path_spec(owner, repo, t),
{
    let tmp = temp_path_spec(target, token)->0;
    reveal_strlit("cache/.tmp.");
    reveal_strlit("cache/repos/");
    assert(tmp[6] == '.');
    assert(list_page_path_spec(owner, page)[6] == 'r');
    assert(traffic_path_spec(owner, repo, t)[6] == 'r');
}

} // verus!

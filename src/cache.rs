use crate::text::same_text;
use std::collections::BTreeMap;
use vstd::prelude::*;
use vstd::string::*;

verus! {

/// The entries that the JSON text of a cache file holds, or `None` where the text
/// is not a JSON object of strings.
pub uninterp spec fn cache_json_entries(text: Seq<char>) -> Option<Map<Seq<char>, Seq<char>>>;

/// The JSON text that a cache file holding `entries` is written as.
pub uninterp spec fn cache_json(entries: Map<Seq<char>, Seq<char>>) -> Seq<char>;

/// The mapping that a list of entries stands for; a later entry wins over an
/// earlier one with the same key.
pub open spec fn entries_view(s: Seq<(String, String)>) -> Map<Seq<char>, Seq<char>>
    decreases s.len(),
{
    if s.len() == 0 {
        Map::empty()
    } else {
        entries_view(s.drop_last()).insert(s.last().0@, s.last().1@)
    }
}

/// Each key occurs once.
pub open spec fn unique_keys(s: Seq<(String, String)>) -> bool {
    forall|i: int, j: int| 0 <= i < j < s.len() ==> s[i].0@ != s[j].0@
}

/// The value stored under `key`, if any.
pub open spec fn lookup(m: Map<Seq<char>, Seq<char>>, key: Seq<char>) -> Option<Seq<char>> {
    if m.contains_key(key) {
        Some(m[key])
    } else {
        None
    }
}

/// What a cache read found in the backing file: `None` where the file does not
/// exist, else the entries its text holds (`None` where it is malformed).
pub open spec fn file_entries(file: Option<&str>) -> Option<Option<Map<Seq<char>, Seq<char>>>> {
    match file {
        None => None,
        Some(t) => Some(cache_json_entries(t@)),
    }
}

/// A failure to use the cache file.
#[derive(Debug, Clone, Copy, PartialEq, Eq, Structural)]
pub enum CacheError {
    /// The file is not a JSON object of strings.
    MalformedCacheData,
}

/// A read of `key` from a cache that holds `m`, given what the backing file
/// holds: the answer, and what the cache holds afterwards. An empty cache loads
/// the file first; a missing file means no answer.
pub open spec fn get_outcome(
    m: Map<Seq<char>, Seq<char>>,
    key: Seq<char>,
    file: Option<Option<Map<Seq<char>, Seq<char>>>>,
) -> (Result<Option<Seq<char>>, CacheError>, Map<Seq<char>, Seq<char>>) {
    match file {
        None => (Ok(None), m),
        Some(parsed) => if m == Map::<Seq<char>, Seq<char>>::empty() {
            match parsed {
                None => (Err(CacheError::MalformedCacheData), m),
                Some(loaded) => (Ok(lookup(loaded, key)), loaded),
            }
        } else {
            (Ok(lookup(m, key)), m)
        },
    }
}

/// The answer of a read, as text.
pub open spec fn answer_view(r: Result<Option<String>, CacheError>) -> Result<Option<Seq<char>>, CacheError> {
    match r {
        Ok(Some(s)) => Ok(Some(s@)),
        Ok(None) => Ok(None),
        Err(e) => Err(e),
    }
}

/// Relies on serde_json::from_str into a `BTreeMap<String, String>`: the result
/// depends on the text alone, and the map holds each key once.
#[verifier::external_body]
fn entries_from_json(text: &str) -> (r: Option<Vec<(String, String)>>)
    ensures
        r is Some <==> cache_json_entries(text@) is Some,
        r matches Some(es) ==> unique_keys(es@) && entries_view(es@) == cache_json_entries(
            text@,
        )->0,
{
    serde_json::from_str::<BTreeMap<String, String>>(text).ok().map(|m| m.into_iter().collect())
}

/// Relies on serde_json::to_string on a `BTreeMap<String, String>`: a map with
/// string keys serializes without error, to text that depends on the entries
/// alone and that serde_json::from_str reads back as the same entries.
#[verifier::external_body]
fn entries_to_json(entries: &Vec<(String, String)>) -> (r: String)
    requires
        unique_keys(entries@),
    ensures
        r@ == cache_json(entries_view(entries@)),
        cache_json_entries(r@) == Some(entries_view(entries@)),
{
    let map: BTreeMap<String, String> = entries.iter().cloned().collect();
    serde_json::to_string(&map).unwrap_or_default()
}

/// Relies on dirs::home_dir: the user's home directory, where one is known.
#[verifier::external_body]
fn home_dir_text() -> (r: Option<String>) {
    dirs::home_dir().map(|p| p.display().to_string())
}

proof fn lemma_view_absent(s: Seq<(String, String)>, k: Seq<char>)
    requires
        forall|j: int| 0 <= j < s.len() ==> s[j].0@ != k,
    ensures
        !entries_view(s).contains_key(k),
    decreases s.len(),
{
    if s.len() > 0 {
        lemma_view_absent(s.drop_last(), k);
    }
}

proof fn lemma_view_at(s: Seq<(String, String)>, i: int)
    requires
        0 <= i < s.len(),
        forall|j: int| i < j < s.len() ==> s[j].0@ != s[i].0@,
    ensures
        entries_view(s).contains_key(s[i].0@),
        entries_view(s)[s[i].0@] == s[i].1@,
    decreases s.len(),
{
    if i < s.len() - 1 {
        lemma_view_at(s.drop_last(), i);
    }
}

proof fn lemma_view_update(s: Seq<(String, String)>, i: int, p: (String, String))
    requires
        0 <= i < s.len(),
        p.0@ == s[i].0@,
        forall|j: int| i < j < s.len() ==> s[j].0@ != s[i].0@,
    ensures
        entries_view(s.update(i, p)) == entries_view(s).insert(p.0@, p.1@),
    decreases s.len(),
{
    let t = s.update(i, p);
    if i == s.len() - 1 {
        assert(t.drop_last() =~= s.drop_last());
        assert(entries_view(t) =~= entries_view(s).insert(p.0@, p.1@));
    } else {
        assert(t.drop_last() =~= s.drop_last().update(i, p));
        lemma_view_update(s.drop_last(), i, p);
        assert(entries_view(t) =~= entries_view(s).insert(p.0@, p.1@));
    }
}

proof fn lemma_view_empty(s: Seq<(String, String)>)
    ensures
        (s.len() == 0) == (entries_view(s) == Map::<Seq<char>, Seq<char>>::empty()),
{
    if s.len() > 0 {
        lemma_view_at(s, s.len() - 1);
    }
}

/// A value stored under a key is what a later read of that key finds, on the
/// same cache (once the backing file exists, whatever it holds) and on a fresh,
/// empty cache whose file holds what the write returned.
pub proof fn lemma_set_then_get(
    m: Map<Seq<char>, Seq<char>>,
    key: Seq<char>,
    value: Seq<char>,
    file: Option<Map<Seq<char>, Seq<char>>>,
)
    ensures
        get_outcome(m.insert(key, value), key, Some(file)).0 == Ok::<_, CacheError>(Some(value)),
        file == Some(m.insert(key, value)) ==> get_outcome(
            Map::empty(),
            key,
            Some(file),
        ).0 == Ok::<_, CacheError>(Some(value)),
{
    assert(m.insert(key, value).contains_key(key));
    assert(m.insert(key, value) != Map::<Seq<char>, Seq<char>>::empty());
}

/// Storing twice under one key leaves only the second value to be read.
pub proof fn lemma_set_twice(
    m: Map<Seq<char>, Seq<char>>,
    key: Seq<char>,
    first: Seq<char>,
    second: Seq<char>,
    file: Option<Map<Seq<char>, Seq<char>>>,
)
    ensures
        m.insert(key, first).insert(key, second) == m.insert(key, second),
        get_outcome(m.insert(key, first).insert(key, second), key, Some(file)).0 == Ok::<
            _,
            CacheError,
        >(Some(second)),
{
    assert(m.insert(key, first).insert(key, second) =~= m.insert(key, second));
    lemma_set_then_get(m, key, second, file);
}

/// A read with no backing file finds nothing and fails never.
pub proof fn lemma_missing_file(m: Map<Seq<char>, Seq<char>>, key: Seq<char>)
    ensures
        get_outcome(m, key, None).0 == Ok::<_, CacheError>(None::<Seq<char>>),
{
}

/// The path of the cache file: `path` where one is given, else
/// `.gpt-cache.json` in the home directory `home` (in the working directory
/// where no home directory is known).
pub fn cache_path(path: Option<&str>, home: Option<&str>) -> (r: String)
    ensures
        path matches Some(p) ==> r@ == p@,
        path is None && home is Some ==> r@ == home->0@ + "/.gpt-cache.json"@,
        path is None && home is None ==> r@ == ".gpt-cache.json"@,
{
    match path {
        Some(p) => String::from_str(p),
        None => match home {
            Some(h) => String::from_str(h).concat("/.gpt-cache.json"),
            None => String::from_str(".gpt-cache.json"),
        },
    }
}

/// A cache of answers, keyed by the exact text of a request and backed by one
/// JSON file. The cache does no I/O itself: a read is handed what the file
/// holds, and a write returns the text that the file is to hold.
pub struct Cache {
    path: String,
    entries: Vec<(String, String)>,
}

impl View for Cache {
    type V = Map<Seq<char>, Seq<char>>;

    closed spec fn view(&self) -> Map<Seq<char>, Seq<char>> {
        entries_view(self.entries@)
    }
}

impl Cache {
    /// Each key is held once.
    pub closed spec fn wf(&self) -> bool {
        unique_keys(self.entries@)
    }

    /// The path of the backing file.
    pub closed spec fn path_view(&self) -> Seq<char> {
        self.path@
    }

    /// An empty cache backed by `path`, or by `.gpt-cache.json` in the user's
    /// home directory.
    pub fn new(path: Option<&str>) -> (r: Cache)
        ensures
            r.wf(),
            r@ == Map::<Seq<char>, Seq<char>>::empty(),
            path matches Some(p) ==> r.path_view() == p@,
            path is None ==> r.path_view() == ".gpt-cache.json"@ || exists|h: Seq<char>|
                r.path_view() == h + "/.gpt-cache.json"@,
    {
        let path = match path {
            Some(p) => cache_path(Some(p), None),
            None => {
                let home = home_dir_text();
                match home {
                    Some(h) => cache_path(None, Some(h.as_str())),
                    None => cache_path(None, None),
                }
            },
        };
        Cache { path, entries: Vec::new() }
    }

    /// The path of the backing file.
    pub fn path(&self) -> (r: &str)
        ensures
            r@ == self.path_view(),
    {
        self.path.as_str()
    }

    /// Whether the cache holds no entry in memory.
    pub fn is_empty(&self) -> (r: bool)
        ensures
            r == (self@ == Map::<Seq<char>, Seq<char>>::empty()),
    {
        proof {
            lemma_view_empty(self.entries@);
        }
        self.entries.len() == 0
    }

    /// The index of `key` among the entries, if it is there.
    fn find(&self, key: &str) -> (r: Option<usize>)
        requires
            self.wf(),
        ensures
            r matches Some(i) ==> i < self.entries@.len() && self.entries@[i as int].0@ == key@,
            r is None ==> forall|j: int|
                0 <= j < self.entries@.len() ==> self.entries@[j].0@ != key@,
    {
        let mut i: usize = 0;
        while i < self.entries.len()
            invariant
                i <= self.entries@.len(),
                forall|j: int| 0 <= j < i ==> self.entries@[j].0@ != key@,
            decreases self.entries.len() - i,
        {
            if same_text(self.entries[i].0.as_str(), key) {
                return Some(i);
            }
            i = i + 1;
        }
        None
    }

    /// The value stored under `key` in memory.
    fn lookup_here(&self, key: &str) -> (r: Option<String>)
        requires
            self.wf(),
        ensures
            match r {
                Some(v) => lookup(self@, key@) == Some(v@),
                None => lookup(self@, key@) is None,
            },
    {
        match self.find(key) {
            Some(i) => {
                proof {
                    lemma_view_at(self.entries@, i as int);
                }
                Some(self.entries[i].1.clone())
            },
            None => {
                proof {
                    lemma_view_absent(self.entries@, key@);
                }
                None
            },
        }
    }

    /// Reads `key`. `file` is what the backing file holds, or `None` where it
    /// does not exist; an empty cache first loads its entries from it.
    pub fn get(&mut self, key: &str, file: Option<&str>) -> (r: Result<Option<String>, CacheError>)
        requires
            old(self).wf(),
        ensures
            final(self).wf(),
            final(self).path_view() == old(self).path_view(),
            (answer_view(r), final(self)@) == get_outcome(old(self)@, key@, file_entries(file)),
    {
        match file {
            None => Ok(None),
            Some(text) => {
                if self.is_empty() {
                    match entries_from_json(text) {
                        None => Err(CacheError::MalformedCacheData),
                        Some(es) => {
                            self.entries = es;
                            Ok(self.lookup_here(key))
                        },
                    }
                } else {
                    Ok(self.lookup_here(key))
                }
            },
        }
    }

    /// Stores `value` under `key`, replacing what was there, and returns the
    /// text that the backing file is to hold: all the entries.
    pub fn set(&mut self, key: &str, value: &str) -> (r: String)
        requires
            old(self).wf(),
        ensures
            final(self).wf(),
            final(self).path_view() == old(self).path_view(),
            final(self)@ == old(self)@.insert(key@, value@),
            r@ == cache_json(final(self)@),
            cache_json_entries(r@) == Some(final(self)@),
    {
        let entry = (String::from_str(key), String::from_str(value));
        match self.find(key) {
            Some(i) => {
                proof {
                    lemma_view_update(self.entries@, i as int, entry);
                }
                self.entries[i] = entry;
            },
            None => {
                self.entries.push(entry);
                assert(self.entries@.drop_last() =~= old(self).entries@);
            },
        }
        entries_to_json(&self.entries)
    }
}

} // verus!

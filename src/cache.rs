//! The audio cache: which local file holds the track of each remote URL, and
//! the index document that records it on disk.

use vstd::prelude::*;

verus! {

/// Name of the index document inside the cache directory.
pub const INDEX_FILE: &'static str = "cache.json";

/// The characters that a cached file's name is drawn from.
pub const NAME_CHARSET: &'static str = "abcdefghijklmnopqrstuvwxyz1234567890";

/// Length of a cached file's name.
pub const NAME_LEN: usize = 32;

/// One cached track: where it came from and the file that holds it.
#[derive(Debug)]
pub struct CacheEntry {
    pub url: String,
    pub filename: String,
}

/// Why the index document could not be produced.
#[derive(Clone, Copy, Debug, PartialEq, Eq, Structural)]
pub enum CacheError {
    /// The JSON serializer refused the mapping.
    Encode,
}

#[verifier::external_type_specification]
#[verifier::external_body]
pub struct ExJsonError(serde_json::Error);

/// The URL-to-filename mapping that serde_json reads from an index document,
/// or `None` where it refuses the bytes.
pub uninterp spec fn parsed_index(bytes: Seq<u8>) -> Option<Map<Seq<char>, Seq<char>>>;

/// The JSON text that serde_json writes for a URL-to-filename mapping.
pub uninterp spec fn index_json_of(files: Map<Seq<char>, Seq<char>>) -> Seq<char>;

/// No URL occurs twice.
pub open spec fn urls_unique(s: Seq<CacheEntry>) -> bool {
    forall|i: int, j: int| 0 <= i < j < s.len() ==> s[i].url@ != s[j].url@
}

/// The mapping from URL to filename that a list of entries holds.
pub open spec fn entries_map(s: Seq<CacheEntry>) -> Map<Seq<char>, Seq<char>>
    decreases s.len(),
{
    if s.len() == 0 {
        Map::empty()
    } else {
        entries_map(s.drop_last()).insert(s.last().url@, s.last().filename@)
    }
}

/// A name that the cache may give a new file.
pub open spec fn is_fresh_name(name: Seq<char>) -> bool {
    &&& name.len() == NAME_LEN
    &&& forall|i: int| 0 <= i < name.len() ==> #[trigger] NAME_CHARSET@.contains(name[i])
}

/// Where a file of the cache directory lies.
pub open spec fn path_in(dir: Seq<char>, name: Seq<char>) -> Seq<char> {
    dir + "/"@ + name
}

/// The mapping that a cache starts from, given the bytes of its index
/// document: an index that does not parse counts as empty.
pub open spec fn loaded_from(bytes: Seq<u8>) -> Map<Seq<char>, Seq<char>> {
    match parsed_index(bytes) {
        Some(files) => files,
        None => Map::empty(),
    }
}

proof fn lemma_entries_map_dom(s: Seq<CacheEntry>, k: Seq<char>)
    ensures
        entries_map(s).contains_key(k) <==> exists|i: int| 0 <= i < s.len() && s[i].url@ == k,
    decreases s.len(),
{
    if s.len() > 0 {
        let p = s.drop_last();
        lemma_entries_map_dom(p, k);
        if entries_map(s).contains_key(k) && s.last().url@ != k {
            let i = choose|i: int| 0 <= i < p.len() && p[i].url@ == k;
            assert(s[i] == p[i]);
        }
        if exists|i: int| 0 <= i < s.len() && s[i].url@ == k {
            let i = choose|i: int| 0 <= i < s.len() && s[i].url@ == k;
            if i < s.len() - 1 {
                assert(p[i] == s[i]);
            }
        }
    }
}

proof fn lemma_entries_map_value(s: Seq<CacheEntry>, i: int)
    requires
        urls_unique(s),
        0 <= i < s.len(),
    ensures
        entries_map(s).contains_key(s[i].url@),
        entries_map(s)[s[i].url@] == s[i].filename@,
    decreases s.len(),
{
    let p = s.drop_last();
    if i < s.len() - 1 {
        assert(p[i] == s[i]);
        assert(urls_unique(p));
        lemma_entries_map_value(p, i);
    }
}

proof fn lemma_entries_map_update(s: Seq<CacheEntry>, i: int, e: CacheEntry)
    requires
        0 <= i < s.len(),
        s[i].url@ == e.url@,
        urls_unique(s),
    ensures
        urls_unique(s.update(i, e)),
        entries_map(s.update(i, e)) == entries_map(s).insert(e.url@, e.filename@),
    decreases s.len(),
{
    let t = s.update(i, e);
    let p = s.drop_last();
    assert(t.drop_last() =~= if i < s.len() - 1 { p.update(i, e) } else { p });
    if i < s.len() - 1 {
        assert(urls_unique(p));
        lemma_entries_map_update(p, i, e);
        assert(s.last().url@ != e.url@);
        assert(entries_map(t) =~= entries_map(s).insert(e.url@, e.filename@));
    } else {
        assert(entries_map(t) =~= entries_map(s).insert(e.url@, e.filename@));
    }
}

proof fn lemma_entries_map_push(s: Seq<CacheEntry>, e: CacheEntry)
    requires
        urls_unique(s),
        !entries_map(s).contains_key(e.url@),
    ensures
        urls_unique(s.push(e)),
        entries_map(s.push(e)) == entries_map(s).insert(e.url@, e.filename@),
{
    assert(s.push(e).drop_last() =~= s);
    assert forall|i: int, j: int| 0 <= i < j < s.push(e).len() implies s.push(e)[i].url@ != s.push(
        e,
    )[j].url@ by {
        if j == s.len() {
            lemma_entries_map_dom(s, e.url@);
            assert(s.push(e)[i] == s[i]);
        }
    }
}

/// Relies on serde_json::from_slice into a `BTreeMap<String, String>`: its
/// result is decided by the bytes alone, and a map holds each key once.
#[verifier::external_body]
fn parse_index(bytes: &[u8]) -> (r: Result<Vec<CacheEntry>, serde_json::Error>)
    ensures
        r is Ok <==> parsed_index(bytes@) is Some,
        r is Ok ==> urls_unique(r->Ok_0@) && entries_map(r->Ok_0@) == parsed_index(bytes@)->0,
{
    serde_json::from_slice::<std::collections::BTreeMap<String, String>>(bytes).map(
        |files| files.into_iter().map(|(url, filename)| CacheEntry { url, filename }).collect(),
    )
}

/// Relies on serde_json::to_string of a `BTreeMap<&str, &str>`: the text is
/// decided by the mapping alone, and it fails only where a `Serialize` impl
/// fails or a map key is not a string, neither of which a map of strings
/// can do.
#[verifier::external_body]
fn encode_index(entries: &Vec<CacheEntry>) -> (r: Result<String, serde_json::Error>)
    requires
        urls_unique(entries@),
    ensures
        r is Ok,
        r->Ok_0@ == index_json_of(entries_map(entries@)),
{
    let files: std::collections::BTreeMap<&str, &str> = entries.iter().map(
        |e| (e.url.as_str(), e.filename.as_str()),
    ).collect();
    serde_json::to_string(&files)
}

/// Relies on random_string::generate: `length` characters, each drawn from
/// `charset`, which must not be empty.
#[verifier::external_body]
fn random_name(length: usize, charset: &str) -> (r: String)
    requires
        charset@.len() > 0,
    ensures
        r@.len() == length,
        forall|i: int| 0 <= i < r@.len() ==> #[trigger] charset@.contains(r@[i]),
{
    random_string::generate(length, charset)
}

/// The cache: a directory and the mapping from URL to the file in it that
/// holds the downloaded track.
pub struct AudioCache {
    dir: String,
    entries: Vec<CacheEntry>,
}

impl View for AudioCache {
    type V = Map<Seq<char>, Seq<char>>;

    /// The mapping from URL to filename.
    closed spec fn view(&self) -> Map<Seq<char>, Seq<char>> {
        entries_map(self.entries@)
    }
}

impl AudioCache {
    /// Each URL is recorded once.
    pub closed spec fn wf(&self) -> bool {
        urls_unique(self.entries@)
    }

    /// The cache directory.
    pub closed spec fn dir_view(&self) -> Seq<char> {
        self.dir@
    }

    /// The cache in `dir`, starting from the bytes of its index document, or
    /// from nothing where the document could not be read. A document that
    /// does not parse gives an empty cache.
    pub fn new(dir: String, index: Option<Vec<u8>>) -> (r: AudioCache)
        ensures
            r.wf(),
            r.dir_view() == dir@,
            index is None ==> r@ == Map::<Seq<char>, Seq<char>>::empty(),
            index is Some ==> r@ == loaded_from(index->0@),
    {
        let entries = match index {
            None => Vec::new(),
            Some(bytes) => match parse_index(bytes.as_slice()) {
                Ok(entries) => entries,
                Err(_) => Vec::new(),
            },
        };
        proof {
            if entries@.len() == 0 {
                assert(entries_map(entries@) =~= Map::empty());
            }
        }
        AudioCache { dir, entries }
    }

    /// Whether no URL is cached.
    pub fn is_empty(&self) -> (r: bool)
        requires
            self.wf(),
        ensures
            r == (self@ == Map::<Seq<char>, Seq<char>>::empty()),
    {
        proof {
            if self.entries@.len() > 0 {
                lemma_entries_map_value(self.entries@, 0);
                assert(self@.contains_key(self.entries@[0].url@));
            } else {
                assert(self@ =~= Map::empty());
            }
        }
        self.entries.len() == 0
    }

    /// The file recorded for `url`, if any.
    pub fn lookup(&self, url: &str) -> (r: Option<String>)
        requires
            self.wf(),
        ensures
            r is Some <==> self@.contains_key(url@),
            r is Some ==> r->0@ == self@[url@],
    {
        let key = url.to_owned();
        let mut i: usize = 0;
        while i < self.entries.len()
            invariant
                i <= self.entries@.len(),
                key@ == url@,
                urls_unique(self.entries@),
                forall|j: int| 0 <= j < i ==> self.entries@[j].url@ != url@,
            decreases self.entries@.len() - i,
        {
            if self.entries[i].url == key {
                proof {
                    lemma_entries_map_value(self.entries@, i as int);
                }
                return Some(self.entries[i].filename.clone());
            }
            i = i + 1;
        }
        proof {
            lemma_entries_map_dom(self.entries@, url@);
        }
        None
    }

    /// Looks `url` up: on a hit, `(true, its file)`; on a miss, `(false, a
    /// new random name)`, leaving the cache as it is until the download is
    /// committed.
    pub fn resolve(&self, url: &str) -> (r: (bool, String))
        requires
            self.wf(),
        ensures
            r.0 == self@.contains_key(url@),
            r.0 ==> r.1@ == self@[url@],
            !r.0 ==> is_fresh_name(r.1@),
    {
        match self.lookup(url) {
            Some(filename) => (true, filename),
            None => {
                proof {
                    reveal_strlit("abcdefghijklmnopqrstuvwxyz1234567890");
                }
                (false, random_name(NAME_LEN, NAME_CHARSET))
            },
        }
    }

    /// Records that `url` is held in `filename`, replacing any earlier file.
    pub fn insert(&mut self, url: &str, filename: String)
        requires
            old(self).wf(),
        ensures
            final(self)@ == old(self)@.insert(url@, filename@),
            final(self).wf(),
            final(self).dir_view() == old(self).dir_view(),
    {
        let key = url.to_owned();
        let mut i: usize = 0;
        while i < self.entries.len()
            invariant
                i <= self.entries@.len(),
                key@ == url@,
                urls_unique(self.entries@),
                forall|j: int| 0 <= j < i ==> self.entries@[j].url@ != url@,
                *self == *old(self),
            decreases self.entries@.len() - i,
        {
            if self.entries[i].url == key {
                let e = CacheEntry { url: key, filename };
                proof {
                    lemma_entries_map_update(self.entries@, i as int, e);
                }
                self.entries.set(i, e);
                return;
            }
            i = i + 1;
        }
        let e = CacheEntry { url: key, filename };
        proof {
            lemma_entries_map_dom(self.entries@, url@);
            lemma_entries_map_push(self.entries@, e);
        }
        self.entries.push(e);
    }

    /// The index document for the current mapping.
    pub fn index_text(&self) -> (r: Result<String, CacheError>)
        requires
            self.wf(),
        ensures
            r is Ok,
            r->Ok_0@ == index_json_of(self@),
    {
        match encode_index(&self.entries) {
            Ok(text) => Ok(text),
            Err(_) => Err(CacheError::Encode),
        }
    }

    /// Commits a finished download: records `url` as held in `filename` and
    /// returns the index document to store in full, in place of the old one.
    pub fn write(&mut self, url: &str, filename: String) -> (r: Result<String, CacheError>)
        requires
            old(self).wf(),
        ensures
            final(self)@ == old(self)@.insert(url@, filename@),
            final(self).wf(),
            final(self).dir_view() == old(self).dir_view(),
            r is Ok,
            r->Ok_0@ == index_json_of(final(self)@),
    {
        self.insert(url, filename);
        self.index_text()
    }

    /// Where the file `filename` of the cache lies.
    pub fn file_path(&self, filename: &str) -> (r: String)
        ensures
            r@ == path_in(self.dir_view(), filename@),
    {
        let mut path = self.dir.clone();
        path.append("/");
        path.append(filename);
        path
    }

    /// Where the index document lies.
    pub fn index_path(&self) -> (r: String)
        ensures
            r@ == path_in(self.dir_view(), INDEX_FILE@),
    {
        self.file_path(INDEX_FILE)
    }
}

/// After a URL is committed, resolving it is a hit on the committed file;
/// resolving reads the cache without changing it, so every later resolution
/// gives that same hit.
pub proof fn lemma_resolve_after_commit(
    files: Map<Seq<char>, Seq<char>>,
    url: Seq<char>,
    filename: Seq<char>,
)
    ensures
        files.insert(url, filename).contains_key(url),
        files.insert(url, filename)[url] == filename,
{
}

/// An index document that does not parse gives an empty cache, on which
/// every URL misses; a commit to that cache leaves a mapping of exactly the
/// committed URL, and the index document it returns is the one for that
/// mapping.
pub proof fn lemma_corrupt_index_recovers(bytes: Seq<u8>, url: Seq<char>, filename: Seq<char>)
    requires
        parsed_index(bytes) is None,
    ensures
        loaded_from(bytes) == Map::<Seq<char>, Seq<char>>::empty(),
        forall|u: Seq<char>| !(#[trigger] loaded_from(bytes).contains_key(u)),
        loaded_from(bytes).insert(url, filename) == map![url => filename],
        index_json_of(loaded_from(bytes).insert(url, filename)) == index_json_of(
            map![url => filename],
        ),
{
    assert(loaded_from(bytes).insert(url, filename) =~= map![url => filename]);
}

} // verus!

//! The steps that turn a URL into playable bytes: read the cached file on a
//! hit; on a miss download, store the file, commit it to the cache and
//! rewrite the index. The caller performs each step and reports how it went.

use vstd::prelude::*;
use crate::cache::{AudioCache, INDEX_FILE, index_json_of, is_fresh_name, path_in};

verus! {

/// Where a fetch stands.
#[derive(Clone, Copy, Debug, PartialEq, Eq, Structural)]
pub enum FetchPhase {
    ReadingCached,
    Downloading,
    Storing,
    WritingIndex,
    Done,
    Failed,
}

/// How the last step went.
#[derive(Clone, Copy, Debug, PartialEq, Eq, Structural)]
pub enum FetchEvent {
    /// The cached file was read, or not.
    FileRead(bool),
    /// The download finished, or failed.
    Downloaded(bool),
    /// The downloaded bytes were stored in the cache directory, or not.
    FileStored(bool),
    /// The index document was rewritten; a failure there is only reported.
    IndexWritten,
}

/// Why a fetch failed.
#[derive(Clone, Copy, Debug, PartialEq, Eq, Structural)]
pub enum FetchError {
    /// The index names a file that could not be read.
    CachedFileUnreadable,
    /// The download failed.
    DownloadFailed,
    /// The downloaded bytes could not be stored.
    StoreFailed,
    /// The event does not answer the step that was asked for.
    OutOfOrder,
}

/// The next step to perform.
#[derive(Debug, PartialEq, Eq)]
pub enum FetchAction {
    /// Read the file at this path: those are the bytes.
    ReadFile(String),
    /// Download this URL: those are the bytes.
    Download(String),
    /// Store the downloaded bytes at this path.
    StoreFile(String),
    /// Replace the index document at `path` with `text`.
    WriteIndex { path: String, text: String },
    /// The bytes are ready to play.
    Deliver,
    /// The fetch failed.
    Fail(FetchError),
}

/// What a fetch is about and where it stands.
pub struct FetchModel {
    pub url: Seq<char>,
    pub filename: Seq<char>,
    pub phase: FetchPhase,
}

/// Whether an event answers the step of a phase.
pub open spec fn accepts(phase: FetchPhase, event: FetchEvent) -> bool {
    match (phase, event) {
        (FetchPhase::ReadingCached, FetchEvent::FileRead(_)) => true,
        (FetchPhase::Downloading, FetchEvent::Downloaded(_)) => true,
        (FetchPhase::Storing, FetchEvent::FileStored(_)) => true,
        (FetchPhase::WritingIndex, FetchEvent::IndexWritten) => true,
        _ => false,
    }
}

/// A fetch of one URL.
pub struct Fetch {
    url: String,
    filename: String,
    phase: FetchPhase,
}

impl View for Fetch {
    type V = FetchModel;

    closed spec fn view(&self) -> FetchModel {
        FetchModel { url: self.url@, filename: self.filename@, phase: self.phase }
    }
}

impl Fetch {
    /// Starts fetching `url`: a cached track is read from its file, any other
    /// is downloaded, to be stored under a new name.
    pub fn start(cache: &AudioCache, url: &str) -> (r: (Fetch, FetchAction))
        requires
            cache.wf(),
        ensures
            r.0@.url == url@,
            cache@.contains_key(url@) ==> r.0@.phase == FetchPhase::ReadingCached
                && r.0@.filename == cache@[url@]
                && r.1 is ReadFile
                && r.1->ReadFile_0@ == path_in(cache.dir_view(), cache@[url@]),
            !cache@.contains_key(url@) ==> r.0@.phase == FetchPhase::Downloading
                && is_fresh_name(r.0@.filename)
                && r.1 is Download
                && r.1->Download_0@ == url@,
    {
        let (hit, filename) = cache.resolve(url);
        if hit {
            let path = cache.file_path(filename.as_str());
            (Fetch { url: url.to_owned(), filename, phase: FetchPhase::ReadingCached }, FetchAction::ReadFile(path))
        } else {
            (Fetch { url: url.to_owned(), filename, phase: FetchPhase::Downloading }, FetchAction::Download(url.to_owned()))
        }
    }

    /// Where the fetch stands.
    pub fn phase(&self) -> (r: FetchPhase)
        ensures
            r == self@.phase,
    {
        self.phase
    }

    /// Takes the outcome of the last step and gives the next one. Only a
    /// stored download changes the cache: it is committed there, and the
    /// index document is rewritten where it can be produced.
    pub fn step(&mut self, cache: &mut AudioCache, event: FetchEvent) -> (r: FetchAction)
        requires
            old(cache).wf(),
        ensures
            final(cache).wf(),
            final(cache).dir_view() == old(cache).dir_view(),
            final(self)@.url == old(self)@.url,
            final(self)@.filename == old(self)@.filename,
            !accepts(old(self)@.phase, event) ==> r == FetchAction::Fail(FetchError::OutOfOrder)
                && final(self)@.phase == FetchPhase::Failed,
            !(old(self)@.phase == FetchPhase::Storing && event == FetchEvent::FileStored(true))
                ==> final(cache)@ == old(cache)@,
            old(self)@.phase == FetchPhase::ReadingCached && event == FetchEvent::FileRead(true)
                ==> r == FetchAction::Deliver && final(self)@.phase == FetchPhase::Done,
            old(self)@.phase == FetchPhase::ReadingCached && event == FetchEvent::FileRead(false)
                ==> r == FetchAction::Fail(FetchError::CachedFileUnreadable)
                && final(self)@.phase == FetchPhase::Failed,
            old(self)@.phase == FetchPhase::Downloading && event == FetchEvent::Downloaded(true)
                ==> r is StoreFile
                && r->StoreFile_0@ == path_in(old(cache).dir_view(), old(self)@.filename)
                && final(self)@.phase == FetchPhase::Storing,
            old(self)@.phase == FetchPhase::Downloading && event == FetchEvent::Downloaded(false)
                ==> r == FetchAction::Fail(FetchError::DownloadFailed)
                && final(self)@.phase == FetchPhase::Failed,
            old(self)@.phase == FetchPhase::Storing && event == FetchEvent::FileStored(true)
                ==> final(cache)@ == old(cache)@.insert(old(self)@.url, old(self)@.filename)
                && r is WriteIndex && final(self)@.phase == FetchPhase::WritingIndex
                && r->path@ == path_in(old(cache).dir_view(), INDEX_FILE@)
                && r->text@ == index_json_of(final(cache)@),
            old(self)@.phase == FetchPhase::Storing && event == FetchEvent::FileStored(false)
                ==> r == FetchAction::Fail(FetchError::StoreFailed)
                && final(self)@.phase == FetchPhase::Failed,
            old(self)@.phase == FetchPhase::WritingIndex && event == FetchEvent::IndexWritten
                ==> r == FetchAction::Deliver && final(self)@.phase == FetchPhase::Done,
    {
        match (self.phase, event) {
            (FetchPhase::ReadingCached, FetchEvent::FileRead(ok)) => {
                if ok {
                    self.phase = FetchPhase::Done;
                    FetchAction::Deliver
                } else {
                    self.phase = FetchPhase::Failed;
                    FetchAction::Fail(FetchError::CachedFileUnreadable)
                }
            },
            (FetchPhase::Downloading, FetchEvent::Downloaded(ok)) => {
                if ok {
                    self.phase = FetchPhase::Storing;
                    FetchAction::StoreFile(cache.file_path(self.filename.as_str()))
                } else {
                    self.phase = FetchPhase::Failed;
                    FetchAction::Fail(FetchError::DownloadFailed)
                }
            },
            (FetchPhase::Storing, FetchEvent::FileStored(ok)) => {
                if ok {
                    match cache.write(self.url.as_str(), self.filename.clone()) {
                        Ok(text) => {
                            self.phase = FetchPhase::WritingIndex;
                            FetchAction::WriteIndex { path: cache.index_path(), text }
                        },
                        Err(_) => {
                            self.phase = FetchPhase::Done;
                            FetchAction::Deliver
                        },
                    }
                } else {
                    self.phase = FetchPhase::Failed;
                    FetchAction::Fail(FetchError::StoreFailed)
                }
            },
            (FetchPhase::WritingIndex, FetchEvent::IndexWritten) => {
                self.phase = FetchPhase::Done;
                FetchAction::Deliver
            },
            _ => {
                self.phase = FetchPhase::Failed;
                FetchAction::Fail(FetchError::OutOfOrder)
            },
        }
    }
}

/// The bytes stored on a miss are the ones read back on a later hit: once
/// the download is committed, a fetch of the same URL reads the very path
/// that the miss stored to.
pub proof fn lemma_stored_file_read_back(
    dir: Seq<char>,
    files: Map<Seq<char>, Seq<char>>,
    url: Seq<char>,
    filename: Seq<char>,
)
    ensures
        files.insert(url, filename).contains_key(url),
        path_in(dir, files.insert(url, filename)[url]) == path_in(dir, filename),
{
}

} // verus!

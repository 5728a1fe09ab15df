use fe2io::cache::{AudioCache, CacheError, NAME_CHARSET, NAME_LEN};
use fe2io::fetch::{Fetch, FetchAction, FetchError, FetchEvent, FetchPhase};

fn cache_dir() -> String {
    "music-cache".to_string()
}

#[test]
fn unreadable_index_gives_empty_cache() {
    let cache = AudioCache::new(cache_dir(), None);
    assert!(cache.is_empty());
    assert_eq!(cache.lookup("http://a/x.mp3"), None);
}

#[test]
fn malformed_index_gives_usable_empty_cache() {
    let mut cache = AudioCache::new(cache_dir(), Some(b"{not json".to_vec()));
    assert!(cache.is_empty());
    let text = cache.write("http://a/x.mp3", "abc123".to_string());
    assert_eq!(text, Ok("{\"http://a/x.mp3\":\"abc123\"}".to_string()));
    assert_eq!(cache.lookup("http://a/x.mp3"), Some("abc123".to_string()));
    let reparsed = AudioCache::new(cache_dir(), Some(text.unwrap().into_bytes()));
    assert_eq!(reparsed.lookup("http://a/x.mp3"), Some("abc123".to_string()));
}

#[test]
fn empty_index_file_gives_empty_cache() {
    let cache = AudioCache::new(cache_dir(), Some(Vec::new()));
    assert!(cache.is_empty());
}

#[test]
fn valid_index_is_loaded() {
    let index = b"{\"http://a\":\"first\",\"http://b\":\"second\"}".to_vec();
    let cache = AudioCache::new(cache_dir(), Some(index));
    assert!(!cache.is_empty());
    assert_eq!(cache.lookup("http://a"), Some("first".to_string()));
    assert_eq!(cache.lookup("http://b"), Some("second".to_string()));
    assert_eq!(cache.lookup("http://c"), None);
}

#[test]
fn resolve_twice_after_commit_is_the_same_hit() {
    let mut cache = AudioCache::new(cache_dir(), None);
    let (hit, name) = cache.resolve("http://a/song.ogg");
    assert!(!hit);
    assert!(cache.is_empty());
    assert!(cache.write("http://a/song.ogg", name.clone()).is_ok());
    assert_eq!(cache.resolve("http://a/song.ogg"), (true, name.clone()));
    assert_eq!(cache.resolve("http://a/song.ogg"), (true, name));
}

#[test]
fn miss_gives_fresh_lowercase_alphanumeric_name() {
    let cache = AudioCache::new(cache_dir(), None);
    let (hit, name) = cache.resolve("http://a/song.ogg");
    assert!(!hit);
    assert_eq!(name.chars().count(), NAME_LEN);
    assert!(name.chars().all(|c| NAME_CHARSET.contains(c)));
    assert!(name.chars().all(|c| c.is_ascii_lowercase() || c.is_ascii_digit()));
}

#[test]
fn commit_overwrites_and_index_holds_every_url() {
    let mut cache = AudioCache::new(cache_dir(), None);
    assert!(cache.write("b", "2".to_string()).is_ok());
    assert!(cache.write("a", "old".to_string()).is_ok());
    let text = cache.write("a", "1".to_string());
    assert_eq!(text, Ok("{\"a\":\"1\",\"b\":\"2\"}".to_string()));
    assert_eq!(cache.index_text(), Ok::<String, CacheError>("{\"a\":\"1\",\"b\":\"2\"}".to_string()));
    assert_eq!(cache.lookup("a"), Some("1".to_string()));
}

#[test]
fn paths_lie_in_the_cache_directory() {
    let cache = AudioCache::new(cache_dir(), None);
    assert_eq!(cache.file_path("abc"), "music-cache/abc");
    assert_eq!(cache.index_path(), "music-cache/cache.json");
}

#[test]
fn miss_then_hit_reads_the_stored_file() {
    let mut cache = AudioCache::new(cache_dir(), None);
    let url = "http://a/track.mp3";
    let (mut fetch, action) = Fetch::start(&cache, url);
    assert_eq!(action, FetchAction::Download(url.to_string()));
    assert_eq!(fetch.phase(), FetchPhase::Downloading);
    let stored = match fetch.step(&mut cache, FetchEvent::Downloaded(true)) {
        FetchAction::StoreFile(path) => path,
        other => panic!("unexpected {:?}", other),
    };
    assert!(stored.starts_with("music-cache/"));
    assert!(cache.is_empty());
    let name = stored["music-cache/".len()..].to_string();
    match fetch.step(&mut cache, FetchEvent::FileStored(true)) {
        FetchAction::WriteIndex { path, text } => {
            assert_eq!(path, "music-cache/cache.json");
            assert_eq!(text, format!("{{\"{}\":\"{}\"}}", url, name));
        }
        other => panic!("unexpected {:?}", other),
    }
    assert_eq!(fetch.step(&mut cache, FetchEvent::IndexWritten), FetchAction::Deliver);
    assert_eq!(fetch.phase(), FetchPhase::Done);

    let (again, action) = Fetch::start(&cache, url);
    assert_eq!(action, FetchAction::ReadFile(stored));
    assert_eq!(again.phase(), FetchPhase::ReadingCached);
}

#[test]
fn hit_read_outcomes() {
    let mut cache = AudioCache::new(cache_dir(), None);
    assert!(cache.write("u", "f".to_string()).is_ok());
    let (mut ok, action) = Fetch::start(&cache, "u");
    assert_eq!(action, FetchAction::ReadFile("music-cache/f".to_string()));
    assert_eq!(ok.step(&mut cache, FetchEvent::FileRead(true)), FetchAction::Deliver);
    let (mut gone, _) = Fetch::start(&cache, "u");
    assert_eq!(
        gone.step(&mut cache, FetchEvent::FileRead(false)),
        FetchAction::Fail(FetchError::CachedFileUnreadable)
    );
    assert_eq!(gone.phase(), FetchPhase::Failed);
}

#[test]
fn failed_download_or_store_commits_nothing() {
    let mut cache = AudioCache::new(cache_dir(), None);
    let (mut fetch, _) = Fetch::start(&cache, "u");
    assert_eq!(
        fetch.step(&mut cache, FetchEvent::Downloaded(false)),
        FetchAction::Fail(FetchError::DownloadFailed)
    );
    let (mut fetch, _) = Fetch::start(&cache, "u");
    fetch.step(&mut cache, FetchEvent::Downloaded(true));
    assert_eq!(
        fetch.step(&mut cache, FetchEvent::FileStored(false)),
        FetchAction::Fail(FetchError::StoreFailed)
    );
    assert!(cache.is_empty());
}

#[test]
fn out_of_order_event_fails_the_fetch() {
    let mut cache = AudioCache::new(cache_dir(), None);
    let (mut fetch, _) = Fetch::start(&cache, "u");
    assert_eq!(
        fetch.step(&mut cache, FetchEvent::FileStored(true)),
        FetchAction::Fail(FetchError::OutOfOrder)
    );
    assert!(cache.is_empty());
    assert_eq!(fetch.phase(), FetchPhase::Failed);
}

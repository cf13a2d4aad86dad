//! The resolved playable unit and its cache key.

use vstd::prelude::*;
use vstd::string::StringExecFns;
use crate::text::clone_opt_string;

verus! {

/// Which external fetch tool variant must be used to materialize media
/// for an item. The two variants are interchangeable command-line tools.
#[allow(non_camel_case_types)]
#[derive(Debug, Clone, Copy, PartialEq, Eq, Structural)]
pub enum YOUTUBE_DL_BACKEND {
    YT_DLP,
    YOUTUBE_DL,
}

impl YOUTUBE_DL_BACKEND {
    /// The executable name of the fetch tool, as a sequence of characters.
    pub open spec fn value_spec(self) -> Seq<char> {
        match self {
            YOUTUBE_DL_BACKEND::YT_DLP => "yt-dlp"@,
            YOUTUBE_DL_BACKEND::YOUTUBE_DL => "youtube-dl"@,
        }
    }

    /// The executable name of the fetch tool.
    pub fn value(&self) -> (r: &str)
        ensures
            r@ == self.value_spec(),
    {
        match self {
            YOUTUBE_DL_BACKEND::YT_DLP => "yt-dlp",
            YOUTUBE_DL_BACKEND::YOUTUBE_DL => "youtube-dl",
        }
    }
}

/// A resolved playable unit. Immutable once constructed; the one
/// exception is stamping `backend` at resolution time.
///
/// `duration` is informational only and is carried in whole seconds.
#[derive(Debug)]
pub struct PlaylistItem {
    pub id: String,
    pub title: String,
    pub original_url: String,
    pub extractor: String,
    pub thumbnail: Option<String>,
    pub duration: Option<u64>,
    pub playlist_id: Option<String>,
    pub webpage_url: Option<String>,
    pub is_live: Option<bool>,
    pub was_live: Option<bool>,
    pub backend: Option<YOUTUBE_DL_BACKEND>,
}

impl Clone for PlaylistItem {
    fn clone(&self) -> (r: Self)
        ensures
            r == *self,
    {
        PlaylistItem {
            id: self.id.clone(),
            title: self.title.clone(),
            original_url: self.original_url.clone(),
            extractor: self.extractor.clone(),
            thumbnail: clone_opt_string(&self.thumbnail),
            duration: self.duration,
            playlist_id: clone_opt_string(&self.playlist_id),
            webpage_url: clone_opt_string(&self.webpage_url),
            is_live: self.is_live,
            was_live: self.was_live,
            backend: self.backend,
        }
    }
}

/// Errors of the queue engine.
#[derive(Debug, Clone, Copy, PartialEq, Eq, Structural)]
pub enum PotError {
    /// Resolution produced zero items; the queue is unchanged.
    NoItemsResolved,
    /// An enqueued item could not be materialized into playable media.
    MediaUnavailable,
}

/// The cache key of an item: where its materialized media is stored.
/// It depends on the `(extractor, id)` pair alone.
pub open spec fn media_cache_path_spec(item: PlaylistItem) -> Seq<char> {
    "data/cache/media/"@ + item.extractor@ + "/"@ + item.id@
}

/// The cache path `data/cache/media/{extractor}/{id}` of an item.
pub fn media_cache_path(item: &PlaylistItem) -> (r: String)
    ensures
        r@ == media_cache_path_spec(*item),
{
    let mut s = String::from_str("data/cache/media/");
    s.append(item.extractor.as_str());
    s.append("/");
    s.append(item.id.as_str());
    s
}

/// Cache-key stability: items carrying the same `(extractor, id)` pair,
/// as repeated resolutions of one source do, share one cache path.
pub proof fn lemma_cache_key_stable(a: PlaylistItem, b: PlaylistItem)
    requires
        a.extractor@ == b.extractor@,
        a.id@ == b.id@,
    ensures
        media_cache_path_spec(a) == media_cache_path_spec(b),
{
}

/// `it` with its backend stamped to `b` and everything else unchanged.
pub open spec fn with_backend_spec(it: PlaylistItem, b: YOUTUBE_DL_BACKEND) -> PlaylistItem {
    PlaylistItem { backend: Some(b), ..it }
}

/// Stamps the fetch tool variant on every resolved item, as resolution
/// does before items enter a queue.
pub fn stamp_backend(items: Vec<PlaylistItem>, backend: YOUTUBE_DL_BACKEND) -> (r: Vec<
    PlaylistItem,
>)
    ensures
        r@.len() == items@.len(),
        forall|i: int|
            0 <= i < items@.len() ==> r@[i] == with_backend_spec(items@[i], backend),
{
    let mut remaining = items;
    let mut out: Vec<PlaylistItem> = Vec::new();
    proof {
        assert(remaining@ =~= items@.skip(0));
    }
    while remaining.len() > 0
        invariant
            out@.len() + remaining@.len() == items@.len(),
            remaining@ == items@.skip(out@.len() as int),
            forall|i: int|
                0 <= i < out@.len() ==> out@[i] == with_backend_spec(items@[i], backend),
        decreases remaining@.len(),
    {
        let ghost done = out@.len() as int;
        let mut it = remaining.remove(0);
        proof {
            assert(it == items@.skip(done)[0]);
            assert(items@.skip(done)[0] == items@[done]);
        }
        it.backend = Some(backend);
        out.push(it);
        proof {
            assert(remaining@ =~= items@.skip(done + 1));
        }
    }
    out
}

} // verus!

//! The item resolver's classification: a raw play request is a URL on
//! the primary video platform, a URL on the alternate music platform,
//! some other URL, or a free-text search, and each is routed to the
//! matching metadata source.
//!
//! URL parsing itself is the `url` crate's work, behind one trusted
//! wrapper; every decision taken on the parsed parts is verified here.

use vstd::prelude::*;
use vstd::string::StringExecFns;
use crate::item::{PlaylistItem, YOUTUBE_DL_BACKEND};
use crate::text::{ends_with_spec, str_ends_with, str_eq};
use crate::yt::{
    default_thumbnail_url, default_thumbnail_view, opt_string_view, YoutubeItemSnippet,
    YoutubePlaylistItemsResult, YoutubeResult,
};

verus! {

/// What the classification reads of a parsed URL: its serialization,
/// host, path segments and query pairs, all as plain values.
pub struct ParsedUrl {
    pub serialized: String,
    pub host: Option<String>,
    pub segments: Vec<String>,
    pub pairs: Vec<(String, String)>,
}

/// The view of a parsed URL.
pub struct UrlView {
    pub serialized: Seq<char>,
    pub host: Option<Seq<char>>,
    pub segments: Seq<Seq<char>>,
    pub pairs: Seq<(Seq<char>, Seq<char>)>,
}

/// The views of a sequence of strings.
pub open spec fn seqs_view(s: Seq<String>) -> Seq<Seq<char>> {
    s.map_values(|x: String| x@)
}

/// The views of a sequence of string pairs.
pub open spec fn pairs_view(s: Seq<(String, String)>) -> Seq<(Seq<char>, Seq<char>)> {
    s.map_values(|p: (String, String)| (p.0@, p.1@))
}

impl View for ParsedUrl {
    type V = UrlView;

    open spec fn view(&self) -> UrlView {
        UrlView {
            serialized: self.serialized@,
            host: match self.host {
                Some(h) => Some(h@),
                None => None,
            },
            segments: seqs_view(self.segments@),
            pairs: pairs_view(self.pairs@),
        }
    }
}

/// What `url::Url::parse` makes of a string: `None` when the string is
/// no absolute URL, else the parsed parts. Parsing is a function of the
/// input alone.
pub uninterp spec fn url_parts_of(s: Seq<char>) -> Option<UrlView>;

/// Relies on `url::Url::parse` to decide whether the string is a
/// well-formed absolute URL, and on `Url::as_str`, `Url::host_str`,
/// `Url::path_segments` and `Url::query_pairs` to read the parsed
/// URL's serialization, host, path segments and decoded query pairs.
#[verifier::external_body]
fn parse_url(s: &str) -> (r: Option<ParsedUrl>)
    ensures
        r matches Some(p) ==> url_parts_of(s@) == Some(p@),
        r is None ==> url_parts_of(s@) is None,
{
    match url::Url::parse(s) {
        Ok(u) => Some(ParsedUrl {
            serialized: u.as_str().to_string(),
            host: u.host_str().map(|h| h.to_string()),
            segments: u.path_segments().map(|c| c.map(|x| x.to_string()).collect()).unwrap_or_default(),
            pairs: u.query_pairs().map(|(k, v)| (k.to_string(), v.to_string())).collect(),
        }),
        Err(_) => None,
    }
}

/// The value of the first query pair named `key`, if any. Where a key
/// repeats, the first occurrence wins.
pub open spec fn first_query_value(pairs: Seq<(Seq<char>, Seq<char>)>, key: Seq<char>) -> Option<
    Seq<char>,
>
    decreases pairs.len(),
{
    if pairs.len() == 0 {
        None
    } else if pairs[0].0 == key {
        Some(pairs[0].1)
    } else {
        first_query_value(pairs.drop_first(), key)
    }
}

/// Looks up the first query pair named `key`.
pub fn query_value(pairs: &Vec<(String, String)>, key: &str) -> (r: Option<String>)
    ensures
        r matches Some(v) ==> first_query_value(pairs_view(pairs@), key@) == Some(v@),
        r is None ==> first_query_value(pairs_view(pairs@), key@) is None,
{
    let n = pairs.len();
    let mut i: usize = 0;
    proof {
        assert(pairs_view(pairs@).skip(0) =~= pairs_view(pairs@));
    }
    while i < n
        invariant
            n == pairs@.len(),
            i <= n,
            first_query_value(pairs_view(pairs@), key@) == first_query_value(
                pairs_view(pairs@).skip(i as int),
                key@,
            ),
        decreases n - i,
    {
        if str_eq(pairs[i].0.as_str(), key) {
            proof {
                assert(pairs_view(pairs@).skip(i as int)[0] == pairs_view(pairs@)[i as int]);
            }
            return Some(pairs[i].1.clone());
        }
        proof {
            assert(pairs_view(pairs@).skip(i as int)[0] == pairs_view(pairs@)[i as int]);
            assert(pairs_view(pairs@).skip(i as int).drop_first() =~= pairs_view(pairs@).skip(
                i + 1,
            ));
        }
        i += 1;
    }
    proof {
        assert(pairs_view(pairs@).skip(n as int).len() == 0);
    }
    None
}

/// Whether the host belongs to the primary video platform.
pub open spec fn is_youtube_host(host: Option<Seq<char>>) -> bool {
    match host {
        Some(h) => ends_with_spec(h, "youtube.com"@) || ends_with_spec(h, "youtu.be"@),
        None => false,
    }
}

/// Whether the host belongs to the alternate music platform.
pub open spec fn is_spotify_host(host: Option<Seq<char>>) -> bool {
    match host {
        Some(h) => ends_with_spec(h, "open.spotify.com"@),
        None => false,
    }
}

/// How a URL on the primary video platform is further classified.
pub enum YoutubeUrlType {
    Video(String),
    Playlist(String),
    Short(String),
    Other,
}

/// The classification of a primary-platform URL, at the spec level.
pub enum YoutubeClassView {
    Video(Seq<char>),
    Playlist(Seq<char>),
    Short(Seq<char>),
    Other,
}

/// Classifies a parsed URL's view: a playlist reference (a `list` query
/// key), a single video (a `v` query key), a short-form video (a
/// `shorts/{id}` path), or none of these. A URL on another host is
/// always `Other`.
pub open spec fn youtube_class_of(u: UrlView) -> YoutubeClassView {
    if !is_youtube_host(u.host) {
        YoutubeClassView::Other
    } else if first_query_value(u.pairs, "list"@) is Some {
        YoutubeClassView::Playlist(first_query_value(u.pairs, "list"@).unwrap())
    } else if first_query_value(u.pairs, "v"@) is Some {
        YoutubeClassView::Video(first_query_value(u.pairs, "v"@).unwrap())
    } else if u.segments.len() >= 2 && u.segments[0] == "shorts"@ {
        YoutubeClassView::Short(u.segments[1])
    } else {
        YoutubeClassView::Other
    }
}

/// Whether `r` is the classification of `u`.
pub open spec fn is_youtube_classification(u: UrlView, r: YoutubeUrlType) -> bool {
    match youtube_class_of(u) {
        YoutubeClassView::Video(id) => r matches YoutubeUrlType::Video(x) && x@ == id,
        YoutubeClassView::Playlist(id) => r matches YoutubeUrlType::Playlist(x) && x@ == id,
        YoutubeClassView::Short(id) => r matches YoutubeUrlType::Short(x) && x@ == id,
        YoutubeClassView::Other => r is Other,
    }
}

/// Classifies a URL of the primary video platform by its well-known
/// query and path patterns.
pub fn youtube_url_extractor(url: &ParsedUrl) -> (r: YoutubeUrlType)
    ensures
        is_youtube_classification(url@, r),
{
    let is_yt = match &url.host {
        Some(h) => str_ends_with(h.as_str(), "youtube.com") || str_ends_with(
            h.as_str(),
            "youtu.be",
        ),
        None => false,
    };
    if !is_yt {
        return YoutubeUrlType::Other;
    }
    if let Some(list_id) = query_value(&url.pairs, "list") {
        return YoutubeUrlType::Playlist(list_id);
    }
    if let Some(video_id) = query_value(&url.pairs, "v") {
        return YoutubeUrlType::Video(video_id);
    }
    if url.segments.len() >= 2 && str_eq(url.segments[0].as_str(), "shorts") {
        proof {
            assert(url@.segments[0] == url.segments@[0]@);
            assert(url@.segments[1] == url.segments@[1]@);
        }
        return YoutubeUrlType::Short(url.segments[1].clone());
    }
    proof {
        if url@.segments.len() >= 2 {
            assert(url@.segments[0] == url.segments@[0]@);
        }
    }
    YoutubeUrlType::Other
}

/// How a URL on the alternate music platform is further classified.
/// The engine computes this but routes every sub-type the same way.
pub enum SpotifyUrlType {
    Track(String),
    Playlist(String),
    Other,
}

/// The classification of an alternate-platform URL, at the spec level.
pub enum SpotifyClassView {
    Track(Seq<char>),
    Playlist(Seq<char>),
    Other,
}

/// Classifies a parsed URL's view by its `playlist/{id}` or
/// `track/{id}` path. A URL on another host is always `Other`.
pub open spec fn spotify_class_of(u: UrlView) -> SpotifyClassView {
    if !is_spotify_host(u.host) {
        SpotifyClassView::Other
    } else if u.segments.len() < 2 {
        SpotifyClassView::Other
    } else if u.segments[0] == "playlist"@ {
        SpotifyClassView::Playlist(u.segments[1])
    } else if u.segments[0] == "track"@ {
        SpotifyClassView::Track(u.segments[1])
    } else {
        SpotifyClassView::Other
    }
}

/// Whether `r` is the classification of `u`.
pub open spec fn is_spotify_classification(u: UrlView, r: SpotifyUrlType) -> bool {
    match spotify_class_of(u) {
        SpotifyClassView::Track(id) => r matches SpotifyUrlType::Track(x) && x@ == id,
        SpotifyClassView::Playlist(id) => r matches SpotifyUrlType::Playlist(x) && x@ == id,
        SpotifyClassView::Other => r is Other,
    }
}

/// Classifies a URL of the alternate music platform by its path.
pub fn spotify_url_extractor(url: &ParsedUrl) -> (r: SpotifyUrlType)
    ensures
        is_spotify_classification(url@, r),
{
    let is_spotify = match &url.host {
        Some(h) => str_ends_with(h.as_str(), "open.spotify.com"),
        None => false,
    };
    if !is_spotify {
        return SpotifyUrlType::Other;
    }
    if url.segments.len() < 2 {
        return SpotifyUrlType::Other;
    }
    proof {
        assert(url@.segments[0] == url.segments@[0]@);
        assert(url@.segments[1] == url.segments@[1]@);
    }
    if str_eq(url.segments[0].as_str(), "playlist") {
        SpotifyUrlType::Playlist(url.segments[1].clone())
    } else if str_eq(url.segments[0].as_str(), "track") {
        SpotifyUrlType::Track(url.segments[1].clone())
    } else {
        SpotifyUrlType::Other
    }
}

/// A classified play request: a URL, a URL of the alternate music
/// platform, or a free-text search query.
pub enum PotPlayInputType {
    Url(ParsedUrl),
    SpotifyUrl(ParsedUrl),
    Search(String),
}

impl PotPlayInputType {
    /// Whether the request was a URL, of either platform. A URL's
    /// resolution is a playlist expansion and an enqueue appends it
    /// whole; a search resolution contributes its first item alone.
    pub open spec fn is_url_spec(&self) -> bool {
        !(self matches PotPlayInputType::Search(_))
    }

    pub fn is_url(&self) -> (r: bool)
        ensures
            r == self.is_url_spec(),
    {
        !matches!(*self, Self::Search(_))
    }
}

/// Whether `r` classifies the raw request `raw`: a non-URL string is a
/// search query; a URL whose host ends in the alternate platform's
/// domain is a `SpotifyUrl`; any other URL is a `Url`.
pub open spec fn is_play_input_classification(raw: Seq<char>, r: PotPlayInputType) -> bool {
    match url_parts_of(raw) {
        Some(u) => {
            if is_spotify_host(u.host) {
                r matches PotPlayInputType::SpotifyUrl(p) && p@ == u
            } else {
                r matches PotPlayInputType::Url(p) && p@ == u
            }
        },
        None => r matches PotPlayInputType::Search(q) && q@ == raw,
    }
}

/// Classifies a raw play request.
pub fn classify_play_input(raw: &str) -> (r: PotPlayInputType)
    ensures
        is_play_input_classification(raw@, r),
{
    match parse_url(raw) {
        Some(p) => {
            let spotify = match &p.host {
                Some(h) => str_ends_with(h.as_str(), "open.spotify.com"),
                None => false,
            };
            if spotify {
                PotPlayInputType::SpotifyUrl(p)
            } else {
                PotPlayInputType::Url(p)
            }
        },
        None => PotPlayInputType::Search(raw.to_owned()),
    }
}

/// Where a classified request is resolved: a structured video lookup by
/// id, a structured playlist listing by id, or the generic downloader
/// on a target string, with the fetch tool variant to use.
pub enum ResolveRoute {
    YoutubeVideo(String),
    YoutubePlaylist(String),
    Downloader(String, YOUTUBE_DL_BACKEND),
}

/// Whether `r` is the route of `input`: a primary-platform playlist
/// goes to the playlist listing; a video or short to the video lookup;
/// any other URL to the downloader on the URL's serialization (the
/// alternate platform with the other fetch tool, whatever its
/// sub-type); a search to the downloader's single-result search mode.
pub open spec fn is_route_of(input: PotPlayInputType, r: ResolveRoute) -> bool {
    match input {
        PotPlayInputType::Url(p) => match youtube_class_of(p@) {
            YoutubeClassView::Playlist(id) => r matches ResolveRoute::YoutubePlaylist(x) && x@
                == id,
            YoutubeClassView::Video(id) => r matches ResolveRoute::YoutubeVideo(x) && x@ == id,
            YoutubeClassView::Short(id) => r matches ResolveRoute::YoutubeVideo(x) && x@ == id,
            YoutubeClassView::Other => r matches ResolveRoute::Downloader(t, b) && t@
                == p@.serialized && b == YOUTUBE_DL_BACKEND::YT_DLP,
        },
        PotPlayInputType::SpotifyUrl(p) => r matches ResolveRoute::Downloader(t, b) && t@
            == p@.serialized && b == YOUTUBE_DL_BACKEND::YOUTUBE_DL,
        PotPlayInputType::Search(q) => r matches ResolveRoute::Downloader(t, b) && t@
            == "ytsearch1:"@ + q@ && b == YOUTUBE_DL_BACKEND::YT_DLP,
    }
}

/// Routes a classified request to its metadata source.
pub fn route(input: PotPlayInputType) -> (r: ResolveRoute)
    ensures
        is_route_of(input, r),
{
    match input {
        PotPlayInputType::Url(p) => {
            match youtube_url_extractor(&p) {
                YoutubeUrlType::Playlist(playlist_id) => ResolveRoute::YoutubePlaylist(
                    playlist_id,
                ),
                YoutubeUrlType::Video(video_id) => ResolveRoute::YoutubeVideo(video_id),
                YoutubeUrlType::Short(short_id) => ResolveRoute::YoutubeVideo(short_id),
                YoutubeUrlType::Other => ResolveRoute::Downloader(
                    p.serialized,
                    YOUTUBE_DL_BACKEND::YT_DLP,
                ),
            }
        },
        PotPlayInputType::SpotifyUrl(p) => {
            // Computed and deliberately ignored: every sub-type of the
            // alternate platform is routed to the same downloader path.
            let _spotify_sub = spotify_url_extractor(&p);
            ResolveRoute::Downloader(p.serialized, YOUTUBE_DL_BACKEND::YOUTUBE_DL)
        },
        PotPlayInputType::Search(query) => {
            let mut target = String::from_str("ytsearch1:");
            target.append(query.as_str());
            ResolveRoute::Downloader(target, YOUTUBE_DL_BACKEND::YT_DLP)
        },
    }
}

/// Whether `r` is the route of the raw request `raw`, through parsing
/// and classification.
pub open spec fn is_request_route(raw: Seq<char>, r: ResolveRoute) -> bool {
    match url_parts_of(raw) {
        Some(u) => {
            if is_spotify_host(u.host) {
                r matches ResolveRoute::Downloader(t, b) && t@ == u.serialized && b
                    == YOUTUBE_DL_BACKEND::YOUTUBE_DL
            } else {
                match youtube_class_of(u) {
                    YoutubeClassView::Playlist(id) => r matches ResolveRoute::YoutubePlaylist(x)
                        && x@ == id,
                    YoutubeClassView::Video(id) => r matches ResolveRoute::YoutubeVideo(x) && x@
                        == id,
                    YoutubeClassView::Short(id) => r matches ResolveRoute::YoutubeVideo(x) && x@
                        == id,
                    YoutubeClassView::Other => r matches ResolveRoute::Downloader(t, b) && t@
                        == u.serialized && b == YOUTUBE_DL_BACKEND::YT_DLP,
                }
            }
        },
        None => r matches ResolveRoute::Downloader(t, b) && t@ == "ytsearch1:"@ + raw && b
            == YOUTUBE_DL_BACKEND::YT_DLP,
    }
}

/// Classifies and routes a raw play request in one step.
pub fn route_request(raw: &str) -> (r: ResolveRoute)
    ensures
        is_request_route(raw@, r),
{
    let input = classify_play_input(raw);
    route(input)
}

/// The entries of a listing that carry a resource id; the others are
/// dropped, in order.
pub open spec fn yt_kept(items: Seq<YoutubePlaylistItemsResult>) -> Seq<
    YoutubePlaylistItemsResult,
>
    decreases items.len(),
{
    if items.len() == 0 {
        Seq::empty()
    } else if items[0].snippet.resourceId is Some {
        seq![items[0]] + yt_kept(items.drop_first())
    } else {
        yt_kept(items.drop_first())
    }
}

/// Whether `it` is the queue item resolved from the listing entry
/// `src`: its id and title are the entry's, its URL points at the
/// resource, its extractor is the primary platform's, its thumbnail is
/// the entry's `default` one, and it is to be fetched with the first
/// tool variant. All other metadata is unset.
pub open spec fn is_resolved_item_of(src: YoutubePlaylistItemsResult, it: PlaylistItem) -> bool {
    let rid = src.snippet.resourceId.unwrap();
    &&& it.id == rid.videoId
    &&& it.title == src.snippet.title
    &&& it.original_url@ == "https://www.youtube.com/watch?v="@ + rid.videoId@
    &&& it.extractor@ == "youtube"@
    &&& opt_string_view(it.thumbnail) == default_thumbnail_view(src.snippet.thumbnails@)
    &&& it.duration is None
    &&& it.playlist_id is None
    &&& it.webpage_url is None
    &&& it.is_live is None
    &&& it.was_live is None
    &&& it.backend == Some(YOUTUBE_DL_BACKEND::YT_DLP)
}

/// Turns a metadata lookup's result into queue items: each entry of a
/// successful response that carries a resource id becomes one item, in
/// order; entries without one are dropped; any failure yields no items.
pub fn youtube_result_to_playlist_items(yt_result: YoutubeResult) -> (r: Vec<PlaylistItem>)
    ensures
        yt_result matches YoutubeResult::Success(response) ==> {
            &&& r@.len() == yt_kept(response.items@).len()
            &&& forall|i: int|
                0 <= i < r@.len() ==> is_resolved_item_of(yt_kept(response.items@)[i], r@[i])
        },
        !(yt_result is Success) ==> r@ == Seq::<PlaylistItem>::empty(),
{
    match yt_result {
        YoutubeResult::Success(response) => {
            let mut remaining = response.items;
            let mut out: Vec<PlaylistItem> = Vec::new();
            let ghost full = remaining@;
            let ghost mut kept: Seq<YoutubePlaylistItemsResult> = Seq::empty();
            proof {
                assert(kept + yt_kept(remaining@) =~= yt_kept(full));
            }
            while remaining.len() > 0
                invariant
                    yt_kept(full) == kept + yt_kept(remaining@),
                    out@.len() == kept.len(),
                    forall|j: int| 0 <= j < kept.len() ==> is_resolved_item_of(kept[j], out@[j]),
                decreases remaining@.len(),
            {
                let ghost before = remaining@;
                let entry = remaining.remove(0);
                proof {
                    assert(entry == before[0]);
                    assert(remaining@ == before.drop_first());
                }
                let YoutubePlaylistItemsResult { kind: _, id: _, snippet } = entry;
                let YoutubeItemSnippet { title, resourceId: resource_id, thumbnails } = snippet;
                match resource_id {
                    Some(rid) => {
                        let mut original_url = String::from_str(
                            "https://www.youtube.com/watch?v=",
                        );
                        original_url.append(rid.videoId.as_str());
                        let thumbnail = default_thumbnail_url(&thumbnails);
                        out.push(PlaylistItem {
                            id: rid.videoId,
                            title,
                            original_url,
                            extractor: String::from_str("youtube"),
                            thumbnail,
                            duration: None,
                            playlist_id: None,
                            webpage_url: None,
                            is_live: None,
                            was_live: None,
                            backend: Some(YOUTUBE_DL_BACKEND::YT_DLP),
                        });
                        proof {
                            assert(yt_kept(before) == seq![before[0]] + yt_kept(
                                before.drop_first(),
                            ));
                            kept = kept + seq![before[0]];
                            assert(kept + yt_kept(remaining@) =~= yt_kept(full));
                        }
                    },
                    None => {
                        proof {
                            assert(yt_kept(before) == yt_kept(before.drop_first()));
                        }
                    },
                }
            }
            proof {
                assert(yt_kept(remaining@).len() == 0);
                assert(yt_kept(full) =~= kept);
            }
            out
        },
        _ => Vec::new(),
    }
}

} // verus!

//! The structured metadata source of the primary video platform: the
//! request URLs it is queried with, the shapes of its responses, and
//! the verified transforms over them.
//!
//! The HTTP transport and the JSON decoding live outside the library;
//! everything decided on the decoded values is verified here.

use vstd::prelude::*;
use vstd::string::StringExecFns;
use crate::text::str_eq;

verus! {

/// A client of the structured metadata source, holding its API key.
pub struct YoutubeAPI {
    key: String,
}

/// An item id as the metadata source reports it.
#[allow(non_snake_case)]
#[derive(Debug)]
pub struct YoutubeItemID {
    pub kind: String,
    pub videoId: String,
}

impl Clone for YoutubeItemID {
    fn clone(&self) -> (r: Self)
        ensures
            r == *self,
    {
        YoutubeItemID { kind: self.kind.clone(), videoId: self.videoId.clone() }
    }
}

/// One thumbnail variant of an item.
#[derive(Debug)]
pub struct YoutubeItemThumbnail {
    pub url: String,
    pub width: u32,
    pub height: u32,
}

impl Clone for YoutubeItemThumbnail {
    fn clone(&self) -> (r: Self)
        ensures
            r == *self,
    {
        YoutubeItemThumbnail { url: self.url.clone(), width: self.width, height: self.height }
    }
}

/// The metadata of an item: its title, the id of the resource it
/// refers to, and its thumbnails by name (the decoded JSON object's
/// keys are unique; where one repeats, the first occurrence wins).
#[allow(non_snake_case)]
#[derive(Debug)]
pub struct YoutubeItemSnippet {
    pub title: String,
    pub resourceId: Option<YoutubeItemID>,
    pub thumbnails: Vec<(String, YoutubeItemThumbnail)>,
}

/// One entry of a playlist-items response.
#[derive(Debug)]
pub struct YoutubePlaylistItemsResult {
    pub kind: String,
    pub id: String,
    pub snippet: YoutubeItemSnippet,
}

/// A playlist-items response page, with the token of the next page if
/// the listing paginates.
#[allow(non_snake_case)]
#[derive(Debug)]
pub struct YoutubePlaylistItemsResponse {
    pub kind: String,
    pub items: Vec<YoutubePlaylistItemsResult>,
    pub nextPageToken: Option<String>,
}

/// One entry of a search response.
#[derive(Debug)]
pub struct YoutubeSearchResult {
    pub kind: String,
    pub id: YoutubeItemID,
    pub snippet: YoutubeItemSnippet,
}

/// A search response.
#[derive(Debug)]
pub struct YoutubeSearchResponse {
    pub kind: String,
    pub items: Vec<YoutubeSearchResult>,
}

/// The error payload of the metadata source.
#[derive(Debug)]
pub struct YoutubeError {
    pub code: i64,
    pub message: String,
}

/// What a metadata lookup came to: a decoded response, the source's
/// own error payload, a transport failure, a response whose text could
/// not be extracted, or a response that decodes as neither shape.
#[derive(Debug)]
pub enum YoutubeResult {
    Success(YoutubePlaylistItemsResponse),
    Error(YoutubeError),
    RequestError,
    TextExtractionError,
    UnknownError(String),
}

impl YoutubeAPI {
    /// The API key the client was built with.
    pub closed spec fn key_spec(self) -> Seq<char> {
        self.key@
    }

    pub fn new(key: &str) -> (r: Self)
        ensures
            r.key_spec() == key@,
    {
        Self { key: key.to_owned() }
    }

    /// The request URL of a single-video lookup by id.
    pub fn video_request_url(&self, id: &str) -> (r: String)
        ensures
            r@ == "https://www.googleapis.com/youtube/v3/videos?key="@ + self.key_spec()
                + "&part=snippet&maxResults=1&id="@ + id@,
    {
        let mut s = String::from_str("https://www.googleapis.com/youtube/v3/videos?key=");
        s.append(self.key.as_str());
        s.append("&part=snippet&maxResults=1&id=");
        s.append(id);
        s
    }

    /// The request URL of a playlist-items listing by playlist id,
    /// optionally continuing from a pagination token.
    pub fn playlist_request_url(&self, playlist: &str, page_token: Option<&str>) -> (r: String)
        ensures
            page_token matches Some(t) ==> r@
                == "https://www.googleapis.com/youtube/v3/playlistItems?key="@ + self.key_spec()
                + "&part=snippet&maxResults=50&pageToken="@ + t@ + "&playlistId="@ + playlist@,
            page_token is None ==> r@
                == "https://www.googleapis.com/youtube/v3/playlistItems?key="@ + self.key_spec()
                + "&part=snippet&maxResults=50&playlistId="@ + playlist@,
    {
        let mut s = String::from_str("https://www.googleapis.com/youtube/v3/playlistItems?key=");
        s.append(self.key.as_str());
        match page_token {
            Some(token) => {
                s.append("&part=snippet&maxResults=50&pageToken=");
                s.append(token);
                s.append("&playlistId=");
            },
            None => {
                s.append("&part=snippet&maxResults=50&playlistId=");
            },
        }
        s.append(playlist);
        s
    }
}

/// Folds what came back from a lookup into one result: a decoded
/// response wins; else the source's decoded error payload; else the
/// raw text is reported as unknown.
pub fn interpret_api_response(
    decoded: Option<YoutubePlaylistItemsResponse>,
    error: Option<YoutubeError>,
    raw_text: String,
) -> (r: YoutubeResult)
    ensures
        decoded matches Some(resp) ==> r == YoutubeResult::Success(resp),
        decoded is None && error is Some ==> r == YoutubeResult::Error(error.unwrap()),
        decoded is None && error is None ==> r == YoutubeResult::UnknownError(raw_text),
{
    match decoded {
        Some(resp) => YoutubeResult::Success(resp),
        None => match error {
            Some(e) => YoutubeResult::Error(e),
            None => YoutubeResult::UnknownError(raw_text),
        },
    }
}

/// An entry with its resource id stamped from its own `kind` and `id`,
/// as the single-video lookup reports entries without one.
pub open spec fn stamped_spec(it: YoutubePlaylistItemsResult) -> YoutubePlaylistItemsResult {
    YoutubePlaylistItemsResult {
        kind: it.kind,
        id: it.id,
        snippet: YoutubeItemSnippet {
            title: it.snippet.title,
            resourceId: Some(YoutubeItemID { kind: it.kind, videoId: it.id }),
            thumbnails: it.snippet.thumbnails,
        },
    }
}

/// Stamps every entry's resource id from its own `kind` and `id`.
pub fn stamp_video_ids(resp: YoutubePlaylistItemsResponse) -> (r: YoutubePlaylistItemsResponse)
    ensures
        r.kind == resp.kind,
        r.nextPageToken == resp.nextPageToken,
        r.items@.len() == resp.items@.len(),
        forall|i: int|
            0 <= i < resp.items@.len() ==> r.items@[i] == stamped_spec(resp.items@[i]),
{
    let YoutubePlaylistItemsResponse { kind, items, nextPageToken } = resp;
    let mut remaining = items;
    let mut out: Vec<YoutubePlaylistItemsResult> = Vec::new();
    proof {
        assert(remaining@ =~= resp.items@.skip(0));
    }
    while remaining.len() > 0
        invariant
            out@.len() + remaining@.len() == resp.items@.len(),
            remaining@ == resp.items@.skip(out@.len() as int),
            forall|i: int| 0 <= i < out@.len() ==> out@[i] == stamped_spec(resp.items@[i]),
        decreases remaining@.len(),
    {
        let ghost done = out@.len() as int;
        let mut it = remaining.remove(0);
        proof {
            assert(it == resp.items@.skip(done)[0]);
            assert(resp.items@.skip(done)[0] == resp.items@[done]);
        }
        let kind_copy = it.kind.clone();
        let id_copy = it.id.clone();
        it.snippet.resourceId = Some(YoutubeItemID { kind: kind_copy, videoId: id_copy });
        out.push(it);
        proof {
            assert(remaining@ =~= resp.items@.skip(done + 1));
        }
    }
    YoutubePlaylistItemsResponse { kind, items: out, nextPageToken }
}

/// Appends one listing page to the items accumulated so far and hands
/// back the token of the next page, if the listing continues. Pages
/// are dependent requests: the next token is only known after the
/// previous page returned, so the caller follows tokens one by one
/// until exhausted.
pub fn accumulate_page(
    items: &mut Vec<YoutubePlaylistItemsResult>,
    page: YoutubePlaylistItemsResponse,
) -> (next: Option<String>)
    ensures
        final(items)@ == old(items)@ + page.items@,
        next == page.nextPageToken,
{
    let mut page_items = page.items;
    items.append(&mut page_items);
    page.nextPageToken
}

/// What one pagination step decides: follow the next token, finish
/// with the accumulated listing, or fail the whole resolution.
#[derive(Debug)]
pub enum PageStep {
    Continue(String),
    Done,
    Failed(YoutubeResult),
}

/// One decision of the pagination chain: a decoded page is appended to
/// the items accumulated so far and its token, if any, is followed;
/// the last page finishes the listing; any failing page folds the
/// whole resolution into that failure, discarding nothing the caller
/// still holds but making the listing fail as one.
///
/// Pages are dependent requests — the next token is only known after
/// the previous page returned — so the caller acts on each step in
/// turn until `Done` or `Failed`.
pub fn paginate_step(
    items: &mut Vec<YoutubePlaylistItemsResult>,
    outcome: YoutubeResult,
) -> (r: PageStep)
    ensures
        outcome matches YoutubeResult::Success(page) ==> {
            &&& final(items)@ == old(items)@ + page.items@
            &&& page.nextPageToken matches Some(t) ==> r == PageStep::Continue(t)
            &&& page.nextPageToken is None ==> r is Done
        },
        !(outcome is Success) ==> {
            &&& r == PageStep::Failed(outcome)
            &&& final(items)@ == old(items)@
        },
{
    match outcome {
        YoutubeResult::Success(page) => match accumulate_page(items, page) {
            Some(token) => PageStep::Continue(token),
            None => PageStep::Done,
        },
        other => PageStep::Failed(other),
    }
}

/// Whether `r` is `src` reshaped as a playlist entry: the resource id
/// is taken from the search entry's own id, and title and thumbnails
/// are carried over.
pub open spec fn is_search_to_playlist_of(
    src: YoutubeSearchResult,
    r: YoutubePlaylistItemsResult,
) -> bool {
    &&& r.kind == src.kind
    &&& r.id == src.id.videoId
    &&& r.snippet.title == src.snippet.title
    &&& r.snippet.resourceId == Some(
        YoutubeItemID { kind: src.id.kind, videoId: src.id.videoId },
    )
    &&& r.snippet.thumbnails@ == src.snippet.thumbnails@
}

/// A clone of a thumbnail list, equal to the original.
fn clone_thumbnails(thumbs: &Vec<(String, YoutubeItemThumbnail)>) -> (r: Vec<(
    String,
    YoutubeItemThumbnail,
)>)
    ensures
        r@ == thumbs@,
{
    let n = thumbs.len();
    let mut out: Vec<(String, YoutubeItemThumbnail)> = Vec::new();
    let mut i: usize = 0;
    while i < n
        invariant
            n == thumbs@.len(),
            i <= n,
            out@ == thumbs@.take(i as int),
        decreases n - i,
    {
        out.push((thumbs[i].0.clone(), thumbs[i].1.clone()));
        proof {
            assert(out@ =~= thumbs@.take(i + 1));
        }
        i += 1;
    }
    proof {
        assert(out@ =~= thumbs@);
    }
    out
}

impl YoutubeSearchResponse {
    /// This search response reshaped as a playlist-items response with
    /// no further page.
    pub fn _to_playlist_response(&self) -> (r: YoutubePlaylistItemsResponse)
        ensures
            r.kind == self.kind,
            r.nextPageToken is None,
            r.items@.len() == self.items@.len(),
            forall|i: int|
                0 <= i < self.items@.len() ==> is_search_to_playlist_of(
                    self.items@[i],
                    r.items@[i],
                ),
    {
        let n = self.items.len();
        let mut out: Vec<YoutubePlaylistItemsResult> = Vec::new();
        let mut i: usize = 0;
        while i < n
            invariant
                n == self.items@.len(),
                i <= n,
                out@.len() == i,
                forall|j: int|
                    0 <= j < i ==> is_search_to_playlist_of(self.items@[j], out@[j]),
            decreases n - i,
        {
            let it = &self.items[i];
            out.push(YoutubePlaylistItemsResult {
                kind: it.kind.clone(),
                id: it.id.videoId.clone(),
                snippet: YoutubeItemSnippet {
                    title: it.snippet.title.clone(),
                    resourceId: Some(YoutubeItemID {
                        kind: it.id.kind.clone(),
                        videoId: it.id.videoId.clone(),
                    }),
                    thumbnails: clone_thumbnails(&it.snippet.thumbnails),
                },
            });
            i += 1;
        }
        YoutubePlaylistItemsResponse {
            kind: self.kind.clone(),
            items: out,
            nextPageToken: None,
        }
    }
}

/// The view of an optional string.
pub open spec fn opt_string_view(o: Option<String>) -> Option<Seq<char>> {
    match o {
        Some(s) => Some(s@),
        None => None,
    }
}

/// The url of the first thumbnail named `default`, if any.
pub open spec fn default_thumbnail_view(thumbs: Seq<(String, YoutubeItemThumbnail)>) -> Option<
    Seq<char>,
>
    decreases thumbs.len(),
{
    if thumbs.len() == 0 {
        None
    } else if thumbs[0].0@ == "default"@ {
        Some(thumbs[0].1.url@)
    } else {
        default_thumbnail_view(thumbs.drop_first())
    }
}

/// Looks up the url of the thumbnail named `default`.
pub fn default_thumbnail_url(thumbs: &Vec<(String, YoutubeItemThumbnail)>) -> (r: Option<String>)
    ensures
        opt_string_view(r) == default_thumbnail_view(thumbs@),
{
    let n = thumbs.len();
    let mut i: usize = 0;
    proof {
        assert(thumbs@.skip(0) =~= thumbs@);
    }
    while i < n
        invariant
            n == thumbs@.len(),
            i <= n,
            default_thumbnail_view(thumbs@) == default_thumbnail_view(thumbs@.skip(i as int)),
        decreases n - i,
    {
        proof {
            assert(thumbs@.skip(i as int)[0] == thumbs@[i as int]);
        }
        if str_eq(thumbs[i].0.as_str(), "default") {
            return Some(thumbs[i].1.url.clone());
        }
        proof {
            assert(thumbs@.skip(i as int).drop_first() =~= thumbs@.skip(i + 1));
        }
        i += 1;
    }
    None
}

} // verus!

use pot::yt::{
    accumulate_page, default_thumbnail_url, interpret_api_response, paginate_step,
    stamp_video_ids, PageStep, YoutubeAPI, YoutubeError, YoutubeItemID, YoutubeItemSnippet,
    YoutubeItemThumbnail, YoutubePlaylistItemsResponse, YoutubePlaylistItemsResult,
    YoutubeResult, YoutubeSearchResponse, YoutubeSearchResult,
};

fn entry(id: &str) -> YoutubePlaylistItemsResult {
    YoutubePlaylistItemsResult {
        kind: "youtube#video".to_string(),
        id: id.to_string(),
        snippet: YoutubeItemSnippet {
            title: format!("title of {id}"),
            resourceId: None,
            thumbnails: vec![],
        },
    }
}

#[test]
fn video_request_url_is_built_exactly() {
    let api = YoutubeAPI::new("KEY");
    assert_eq!(
        api.video_request_url("vid1"),
        "https://www.googleapis.com/youtube/v3/videos?key=KEY&part=snippet&maxResults=1&id=vid1"
    );
}

#[test]
fn playlist_request_url_is_built_exactly() {
    let api = YoutubeAPI::new("KEY");
    assert_eq!(
        api.playlist_request_url("PL1", None),
        "https://www.googleapis.com/youtube/v3/playlistItems?key=KEY&part=snippet&maxResults=50&playlistId=PL1"
    );
    assert_eq!(
        api.playlist_request_url("PL1", Some("TOK")),
        "https://www.googleapis.com/youtube/v3/playlistItems?key=KEY&part=snippet&maxResults=50&pageToken=TOK&playlistId=PL1"
    );
}

#[test]
fn stamp_video_ids_fills_each_resource_id() {
    let resp = YoutubePlaylistItemsResponse {
        kind: "youtube#videoListResponse".to_string(),
        items: vec![entry("a"), entry("b")],
        nextPageToken: None,
    };
    let stamped = stamp_video_ids(resp);
    assert_eq!(stamped.items.len(), 2);
    let rid = stamped.items[0].snippet.resourceId.as_ref().unwrap();
    assert_eq!(rid.videoId, "a");
    assert_eq!(rid.kind, "youtube#video");
    let rid = stamped.items[1].snippet.resourceId.as_ref().unwrap();
    assert_eq!(rid.videoId, "b");
    assert_eq!(stamped.items[1].snippet.title, "title of b");
}

#[test]
fn accumulate_page_appends_and_hands_back_the_next_token() {
    let mut items = vec![entry("a")];
    let next = accumulate_page(
        &mut items,
        YoutubePlaylistItemsResponse {
            kind: "youtube#playlistItemListResponse".to_string(),
            items: vec![entry("b"), entry("c")],
            nextPageToken: Some("TOK2".to_string()),
        },
    );
    assert_eq!(next.as_deref(), Some("TOK2"));
    let ids: Vec<&str> = items.iter().map(|i| i.id.as_str()).collect();
    assert_eq!(ids, ["a", "b", "c"]);

    let next = accumulate_page(
        &mut items,
        YoutubePlaylistItemsResponse {
            kind: "youtube#playlistItemListResponse".to_string(),
            items: vec![entry("d")],
            nextPageToken: None,
        },
    );
    assert!(next.is_none());
    assert_eq!(items.len(), 4);
}

#[test]
fn pagination_follows_tokens_until_exhausted() {
    let mut items = Vec::new();
    let first = YoutubeResult::Success(YoutubePlaylistItemsResponse {
        kind: "youtube#playlistItemListResponse".to_string(),
        items: vec![entry("a"), entry("b")],
        nextPageToken: Some("TOK".to_string()),
    });
    match paginate_step(&mut items, first) {
        PageStep::Continue(token) => assert_eq!(token, "TOK"),
        _ => panic!("expected the chain to continue"),
    }
    assert_eq!(items.len(), 2);

    let last = YoutubeResult::Success(YoutubePlaylistItemsResponse {
        kind: "youtube#playlistItemListResponse".to_string(),
        items: vec![entry("c")],
        nextPageToken: None,
    });
    assert!(matches!(paginate_step(&mut items, last), PageStep::Done));
    let ids: Vec<&str> = items.iter().map(|i| i.id.as_str()).collect();
    assert_eq!(ids, ["a", "b", "c"]);
}

#[test]
fn a_failing_page_fails_the_whole_resolution() {
    let mut items = vec![entry("a")];
    let step = paginate_step(&mut items, YoutubeResult::RequestError);
    match step {
        PageStep::Failed(failure) => assert!(matches!(failure, YoutubeResult::RequestError)),
        _ => panic!("a failing page must fail the listing as one"),
    }
    // Nothing was appended by the failing step.
    assert_eq!(items.len(), 1);
}

#[test]
fn search_response_reshapes_into_a_playlist_response() {
    let search = YoutubeSearchResponse {
        kind: "youtube#searchListResponse".to_string(),
        items: vec![YoutubeSearchResult {
            kind: "youtube#searchResult".to_string(),
            id: YoutubeItemID {
                kind: "youtube#video".to_string(),
                videoId: "v1".to_string(),
            },
            snippet: YoutubeItemSnippet {
                title: "found".to_string(),
                resourceId: None,
                thumbnails: vec![(
                    "default".to_string(),
                    YoutubeItemThumbnail {
                        url: "https://i.ytimg.com/vi/v1/default.jpg".to_string(),
                        width: 120,
                        height: 90,
                    },
                )],
            },
        }],
    };
    let playlist = search._to_playlist_response();
    assert_eq!(playlist.kind, "youtube#searchListResponse");
    assert!(playlist.nextPageToken.is_none());
    assert_eq!(playlist.items.len(), 1);
    assert_eq!(playlist.items[0].id, "v1");
    let rid = playlist.items[0].snippet.resourceId.as_ref().unwrap();
    assert_eq!(rid.videoId, "v1");
    assert_eq!(rid.kind, "youtube#video");
    assert_eq!(playlist.items[0].snippet.thumbnails.len(), 1);
}

#[test]
fn interpret_api_response_prefers_decoded_then_error_then_unknown() {
    let resp = YoutubePlaylistItemsResponse {
        kind: "youtube#videoListResponse".to_string(),
        items: vec![],
        nextPageToken: None,
    };
    assert!(matches!(
        interpret_api_response(Some(resp), None, String::new()),
        YoutubeResult::Success(_)
    ));
    let err = YoutubeError { code: 404, message: "not found".to_string() };
    match interpret_api_response(None, Some(err), "raw".to_string()) {
        YoutubeResult::Error(e) => {
            assert_eq!(e.code, 404);
            assert_eq!(e.message, "not found");
        }
        _ => panic!("expected the decoded error payload"),
    }
    match interpret_api_response(None, None, "<html>".to_string()) {
        YoutubeResult::UnknownError(text) => assert_eq!(text, "<html>"),
        _ => panic!("expected the raw text"),
    }
}

#[test]
fn default_thumbnail_lookup_finds_the_named_entry() {
    let thumbs = vec![
        (
            "high".to_string(),
            YoutubeItemThumbnail { url: "https://a/high.jpg".to_string(), width: 480, height: 360 },
        ),
        (
            "default".to_string(),
            YoutubeItemThumbnail { url: "https://a/default.jpg".to_string(), width: 120, height: 90 },
        ),
    ];
    assert_eq!(
        default_thumbnail_url(&thumbs).as_deref(),
        Some("https://a/default.jpg")
    );
    assert!(default_thumbnail_url(&vec![]).is_none());
}

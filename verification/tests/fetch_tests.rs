use rrwidget::cache::ImageCache;
use rrwidget::structs::{
    Config, RedditPost, RedditPostChild, RedditPostChildData, RedditPostData, RedditPostImage,
    RedditPostImageSource, RedditPostPreview, RedditToken,
};
use rrwidget::www::{FetchCycle, FetchError, ImageReply, ResolveAction};

fn config() -> Config {
    Config {
        client_id: String::from("a"),
        client_secret: String::from("b"),
        reddit_user: String::from("user"),
        reddit_pass: String::from("pass"),
        subreddit: String::from("rust"),
    }
}

fn token() -> RedditToken {
    RedditToken {
        access_token: String::from("tok"),
        token_type: String::from("bearer"),
        expires_in: 3600,
        scope: String::from("*"),
    }
}

fn post(name: &str, title: &str, url: &str, preview: Option<&str>) -> RedditPostChild {
    RedditPostChild {
        kind: String::from("t3"),
        data: RedditPostChildData {
            name: String::from(name),
            title: String::from(title),
            url: String::from(url),
            preview: preview.map(|u| RedditPostPreview {
                images: vec![RedditPostImage {
                    source: RedditPostImageSource {
                        url: String::from(u),
                        width: 64,
                        height: 64,
                    },
                }],
            }),
            created_utc: 0,
        },
    }
}

fn listing(children: Vec<RedditPostChild>) -> RedditPost {
    RedditPost {
        kind: String::from("Listing"),
        data: RedditPostData { children },
    }
}

#[test]
fn token_request_carries_basic_auth_and_agent() {
    let mut cycle = FetchCycle::new(config(), 1_000_000);
    let req = cycle.begin();
    assert_eq!(req.url, "https://www.reddit.com/api/v1/access_token");
    // base64 of "a:b"
    assert_eq!(req.authorization, "Basic YTpi");
    assert_eq!(req.user_agent, "linux:rrwidget/0.1 (by /u/user)");
    assert_eq!(req.username, "user");
    assert_eq!(req.password, "pass");
}

#[test]
fn auth_failure_aborts_with_auth_error() {
    let mut cycle = FetchCycle::new(config(), 0);
    let _ = cycle.begin();
    let out = cycle.token_result(None);
    assert!(matches!(out, Err(FetchError::Auth)));
}

#[test]
fn granted_token_builds_listing_request() {
    let mut cycle = FetchCycle::new(config(), 0);
    let _ = cycle.begin();
    let req = cycle.token_result(Some(token())).ok().unwrap();
    assert_eq!(req.url, "https://oauth.reddit.com/r/rust/new");
    assert_eq!(req.authorization, "Bearer tok");
    assert_eq!(req.user_agent, "linux:rrwidget/0.1 (by /u/user)");
    assert_eq!(req.limit, "10");
}

#[test]
fn listing_failure_delivers_nothing_and_leaves_cache_alone() {
    let mut cache = ImageCache::new(10);
    cache.put(String::from("http://kept"), vec![7]);
    let mut cycle = FetchCycle::new(config(), 0);
    let _ = cycle.begin();
    let _ = cycle.token_result(Some(token()));
    let out = cycle.listing_result(None);
    assert!(matches!(out, Err(FetchError::Fetch)));
    // The cycle is over: no items were delivered and the cache is untouched.
    assert_eq!(cache.len(), 1);
    assert_eq!(cache.get(&String::from("http://kept")), Some(vec![7]));
}

#[test]
fn end_to_end_single_post_without_preview() {
    let mut cache = ImageCache::new(10);
    let mut cycle = FetchCycle::new(config(), 1_000_000);
    let _ = cycle.begin();
    let _ = cycle.token_result(Some(token()));
    let out = cycle.listing_result(Some(listing(vec![post(
        "t1",
        "Hello &amp; World",
        "http://x",
        None,
    )])));
    assert!(out.is_ok());
    let action = cycle.next_action(&mut cache);
    let revoke = match action {
        ResolveAction::Revoke(r) => r,
        ResolveAction::Fetch(_) => panic!("no image should be fetched"),
    };
    assert_eq!(revoke.url, "https://www.reddit.com/api/v1/revoke_token");
    assert_eq!(revoke.authorization, "Basic YTpi");
    assert_eq!(revoke.token, "tok");
    let items = cycle.finish();
    assert_eq!(items.len(), 1);
    assert_eq!(items[0].id, "t1");
    assert_eq!(items[0].title, "Hello & World");
    assert_eq!(items[0].url, "http://x");
    assert!(items[0].created.ends_with(" ago"));
    assert!(items[0].image_data.is_none());
    assert_eq!(cache.len(), 0);
}

#[test]
fn cache_hit_skips_the_network() {
    let mut cache = ImageCache::new(10);
    cache.put(String::from("http://img/1.png"), vec![9, 9]);
    let mut cycle = FetchCycle::new(config(), 0);
    let _ = cycle.begin();
    let _ = cycle.token_result(Some(token()));
    let _ = cycle.listing_result(Some(listing(vec![post(
        "t1",
        "a",
        "http://x",
        Some("http://img/1.png"),
    )])));
    // The URL is cached, so no Fetch may be produced for it.
    let action = cycle.next_action(&mut cache);
    assert!(matches!(action, ResolveAction::Revoke(_)));
    let items = cycle.finish();
    assert_eq!(items[0].image_data, Some(vec![9, 9]));
}

#[test]
fn entity_encoded_preview_url_is_decoded_before_use() {
    let mut cache = ImageCache::new(10);
    let mut cycle = FetchCycle::new(config(), 0);
    let _ = cycle.begin();
    let _ = cycle.token_result(Some(token()));
    let _ = cycle.listing_result(Some(listing(vec![post(
        "t1",
        "a",
        "http://x",
        Some("http://img/1.png?a=1&amp;b=2"),
    )])));
    let action = cycle.next_action(&mut cache);
    let req = match action {
        ResolveAction::Fetch(r) => r,
        ResolveAction::Revoke(_) => panic!("a cache miss must fetch"),
    };
    assert_eq!(req.url, "http://img/1.png?a=1&b=2");
    assert_eq!(req.user_agent, "linux:rrwidget/0.1 (by /u/user)");
}

#[test]
fn missing_content_length_degrades_to_no_image() {
    let mut cache = ImageCache::new(10);
    let mut cycle = FetchCycle::new(config(), 0);
    let _ = cycle.begin();
    let _ = cycle.token_result(Some(token()));
    let _ = cycle.listing_result(Some(listing(vec![post(
        "t1",
        "Title &lt;here&gt;",
        "http://x?a=1&amp;b=2",
        Some("http://img/1.png"),
    )])));
    let action = cycle.next_action(&mut cache);
    assert!(matches!(action, ResolveAction::Fetch(_)));
    cycle.image_result(
        &mut cache,
        ImageReply::Response { content_length: None, body: Some(vec![1, 2, 3]) },
    );
    let action = cycle.next_action(&mut cache);
    assert!(matches!(action, ResolveAction::Revoke(_)));
    let items = cycle.finish();
    assert_eq!(items.len(), 1);
    // The item keeps its other fields; only the image is absent.
    assert_eq!(items[0].id, "t1");
    assert_eq!(items[0].title, "Title <here>");
    assert_eq!(items[0].url, "http://x?a=1&b=2");
    assert!(items[0].image_data.is_none());
    // Nothing was stored.
    assert_eq!(cache.len(), 0);
}

#[test]
fn failed_image_call_degrades_to_no_image() {
    let mut cache = ImageCache::new(10);
    let mut cycle = FetchCycle::new(config(), 0);
    let _ = cycle.begin();
    let _ = cycle.token_result(Some(token()));
    let _ = cycle.listing_result(Some(listing(vec![post(
        "t1",
        "a",
        "http://x",
        Some("http://img/1.png"),
    )])));
    let _ = cycle.next_action(&mut cache);
    cycle.image_result(&mut cache, ImageReply::Failed);
    let _ = cycle.next_action(&mut cache);
    let items = cycle.finish();
    assert!(items[0].image_data.is_none());
    assert_eq!(cache.len(), 0);
}

#[test]
fn fetched_image_is_cached_and_attached() {
    let mut cache = ImageCache::new(10);
    let mut cycle = FetchCycle::new(config(), 0);
    let _ = cycle.begin();
    let _ = cycle.token_result(Some(token()));
    let _ = cycle.listing_result(Some(listing(vec![post(
        "t1",
        "a",
        "http://x",
        Some("http://img/1.png"),
    )])));
    let _ = cycle.next_action(&mut cache);
    cycle.image_result(
        &mut cache,
        ImageReply::Response {
            content_length: Some(String::from("3")),
            body: Some(vec![1, 2, 3]),
        },
    );
    let _ = cycle.next_action(&mut cache);
    let items = cycle.finish();
    assert_eq!(items[0].image_data, Some(vec![1, 2, 3]));
    assert_eq!(cache.len(), 1);
    assert_eq!(cache.get(&String::from("http://img/1.png")), Some(vec![1, 2, 3]));
}

#[test]
fn empty_body_is_cached_but_gives_no_image() {
    let mut cache = ImageCache::new(10);
    let mut cycle = FetchCycle::new(config(), 0);
    let _ = cycle.begin();
    let _ = cycle.token_result(Some(token()));
    let _ = cycle.listing_result(Some(listing(vec![post(
        "t1",
        "a",
        "http://x",
        Some("http://img/1.png"),
    )])));
    let _ = cycle.next_action(&mut cache);
    cycle.image_result(
        &mut cache,
        ImageReply::Response { content_length: Some(String::from("0")), body: Some(vec![]) },
    );
    let _ = cycle.next_action(&mut cache);
    let items = cycle.finish();
    assert!(items[0].image_data.is_none());
    assert_eq!(cache.len(), 1);
}

#[test]
fn posts_keep_feed_order() {
    let mut cache = ImageCache::new(10);
    let mut cycle = FetchCycle::new(config(), 0);
    let _ = cycle.begin();
    let _ = cycle.token_result(Some(token()));
    let _ = cycle.listing_result(Some(listing(vec![
        post("t1", "first", "http://1", None),
        post("t2", "second", "http://2", None),
        post("t3", "third", "http://3", None),
    ])));
    let _ = cycle.next_action(&mut cache);
    let items = cycle.finish();
    assert_eq!(items.len(), 3);
    assert_eq!(items[0].id, "t1");
    assert_eq!(items[1].id, "t2");
    assert_eq!(items[2].id, "t3");
}

use rrwidget::structs::{
    Config, Item, RedditPostChildData, RedditPostImage, RedditPostImageSource, RedditPostPreview,
};
use rrwidget::www::{note_new_content, parse_content_length};

fn config() -> Config {
    Config {
        client_id: String::from("a"),
        client_secret: String::from("b"),
        reddit_user: String::from("user"),
        reddit_pass: String::from("pass"),
        subreddit: String::from("rust"),
    }
}

#[test]
fn creds_is_base64_of_the_client_pair() {
    assert_eq!(config().creds(), "YTpi");
}

#[test]
fn agent_names_the_account_user() {
    assert_eq!(config().agent(), "linux:rrwidget/0.1 (by /u/user)");
}

#[test]
fn config_with_an_empty_field_is_invalid() {
    assert!(config().is_valid());
    let mut c = config();
    c.subreddit = String::new();
    assert!(!c.is_valid());
    let mut c = config();
    c.client_secret = String::new();
    assert!(!c.is_valid());
}

#[test]
fn created_is_worded_in_the_past_tense() {
    let p = RedditPostChildData {
        name: String::from("t1"),
        title: String::from("a"),
        url: String::from("http://x"),
        preview: None,
        created_utc: 0,
    };
    let worded = p.created(3 * 3600);
    assert_eq!(worded, "3 hours ago");
    // A posting time in the future counts as age zero, never a panic.
    let worded = p.created(0);
    assert!(worded.ends_with(" ago"));
}

#[test]
fn preview_url_takes_the_first_image() {
    let mut p = RedditPostChildData {
        name: String::from("t1"),
        title: String::from("a"),
        url: String::from("http://x"),
        preview: Some(RedditPostPreview {
            images: vec![
                RedditPostImage {
                    source: RedditPostImageSource {
                        url: String::from("http://img/first"),
                        width: 1,
                        height: 1,
                    },
                },
                RedditPostImage {
                    source: RedditPostImageSource {
                        url: String::from("http://img/second"),
                        width: 2,
                        height: 2,
                    },
                },
            ],
        }),
        created_utc: 0,
    };
    assert_eq!(p.preview_url(), Some(&String::from("http://img/first")));
    p.preview = Some(RedditPostPreview { images: vec![] });
    assert_eq!(p.preview_url(), None);
    p.preview = None;
    assert_eq!(p.preview_url(), None);
}

#[test]
fn item_from_post_decodes_entities() {
    let p = RedditPostChildData {
        name: String::from("t1"),
        title: String::from("Hello &amp; World"),
        url: String::from("http://x?a=1&amp;b=2"),
        preview: None,
        created_utc: 0,
    };
    let it = Item::from_post(&p, 60, None);
    assert_eq!(it.id, "t1");
    assert_eq!(it.title, "Hello & World");
    assert_eq!(it.url, "http://x?a=1&b=2");
    assert!(it.created.ends_with(" ago"));
    assert!(it.image_data.is_none());
    let it = Item::from_post(&p, 60, Some(vec![1]));
    assert_eq!(it.image_data, Some(vec![1]));
}

#[test]
fn content_length_parses_exactly_the_usable_headers() {
    assert_eq!(parse_content_length(Some(&String::from("0"))), Some(0));
    assert_eq!(parse_content_length(Some(&String::from("123"))), Some(123));
    assert_eq!(parse_content_length(Some(&String::from("007"))), Some(7));
    assert_eq!(parse_content_length(None), None);
    assert_eq!(parse_content_length(Some(&String::from(""))), None);
    assert_eq!(parse_content_length(Some(&String::from("12a"))), None);
    assert_eq!(parse_content_length(Some(&String::from("-1"))), None);
    assert_eq!(parse_content_length(Some(&String::from(" 5"))), None);
    assert_eq!(parse_content_length(Some(&String::from("ﬀ12"))), None);
    assert_eq!(
        parse_content_length(Some(&String::from("99999999999999999999999999999"))),
        None
    );
    assert_eq!(
        parse_content_length(Some(&format!("{}", usize::MAX))),
        Some(usize::MAX)
    );
}

#[test]
fn new_content_is_noted_once_per_leading_id() {
    let mut last_seen = String::new();
    let none: Vec<Item> = vec![];
    assert!(!note_new_content(&mut last_seen, &none));
    let p = RedditPostChildData {
        name: String::from("t1"),
        title: String::from("a"),
        url: String::from("http://x"),
        preview: None,
        created_utc: 0,
    };
    let items = vec![Item::from_post(&p, 0, None)];
    assert!(note_new_content(&mut last_seen, &items));
    assert_eq!(last_seen, "t1");
    // The same leading id again is not new content.
    assert!(!note_new_content(&mut last_seen, &items));
    assert_eq!(last_seen, "t1");
}

#[test]
fn describe_prints_one_labelled_line_per_field() {
    let p = RedditPostChildData {
        name: String::from("t1"),
        title: String::from("a"),
        url: String::from("http://x"),
        preview: Some(RedditPostPreview {
            images: vec![RedditPostImage {
                source: RedditPostImageSource {
                    url: String::from("http://img/1.png"),
                    width: 1,
                    height: 1,
                },
            }],
        }),
        created_utc: 0,
    };
    assert_eq!(
        p.describe(3 * 3600),
        "ID: t1\nTitle: a\nCreated: 3 hours ago\nURL: http://x\nImage URL: http://img/1.png\n"
    );
    let q = RedditPostChildData { preview: None, ..p };
    assert_eq!(
        q.describe(3 * 3600),
        "ID: t1\nTitle: a\nCreated: 3 hours ago\nURL: http://x\nImage URL: \n"
    );
}

#[test]
fn item_describe_prints_title_age_and_url() {
    let p = RedditPostChildData {
        name: String::from("t1"),
        title: String::from("a"),
        url: String::from("http://x"),
        preview: None,
        created_utc: 0,
    };
    let it = Item::from_post(&p, 60, None);
    assert_eq!(it.describe(), "Title: a\nCreated: a minute ago\nURL: http://x\n");
}

//! The data model: configuration, the feed's wire shapes, and the normalized
//! item handed to the consumer.
//!
//! Three outside computations run through this module behind trusted
//! wrappers, each a pure function of its input: the standard base64 encoding
//! of the credential pair, HTML-entity decoding of feed text, and the rough
//! human-relative wording of an age in seconds.

use base64::engine::general_purpose::STANDARD;
use base64::Engine;
use time_humanize::{Accuracy, HumanTime, Tense};
use vstd::prelude::*;
use vstd::string::StringExecFns;

verus! {

/// The standard base64 encoding of the UTF-8 bytes of the given text.
pub uninterp spec fn base64_of(s: Seq<char>) -> Seq<char>;

/// The text with its HTML entities decoded.
pub uninterp spec fn decoded_entities(s: Seq<char>) -> Seq<char>;

/// The rough English wording of a signed age in seconds, past tense
/// (negative values lie in the past).
pub uninterp spec fn human_time_text(secs: int) -> Seq<char>;

/// Relies on `base64::Engine::encode` with the `STANDARD` engine: the
/// encoding is a function of the input bytes alone.
#[verifier::external_body]
fn base64_encode(s: &str) -> (r: String)
    ensures
        r@ == base64_of(s@),
{
    STANDARD.encode(s.as_bytes())
}

/// Relies on `html_escape::decode_html_entities`: the decoding is a function
/// of the input text alone.
#[verifier::external_body]
pub(crate) fn decode_entities(s: &str) -> (r: String)
    ensures
        r@ == decoded_entities(s@),
{
    html_escape::decode_html_entities(s).into_owned()
}

/// Relies on `time_humanize::HumanTime::from(i64)` (seconds; the sign places
/// the point in the past or the future) and `HumanTime::to_text_en` with
/// rough accuracy and past tense: the text is a function of the seconds
/// alone, and the past tense always appends " ago".
#[verifier::external_body]
fn humanize_rough_past(secs: i64) -> (r: String)
    ensures
        r@ == human_time_text(secs as int),
        r@.len() >= 4,
        r@.subrange(r@.len() - 4, r@.len() as int) == " ago"@,
{
    HumanTime::from(secs).to_text_en(Accuracy::Rough, Tense::Past)
}

/// The fixed User-Agent text naming the account user.
pub open spec fn agent_of(c: Config) -> Seq<char> {
    "linux:rrwidget/0.1 (by /u/"@ + c.reddit_user@ + ")"@
}

/// The Basic-auth credential derived from the client pair.
pub open spec fn creds_of(c: Config) -> Seq<char> {
    base64_of(c.client_id@ + ":"@ + c.client_secret@)
}

/// The read-only configuration the fetch pipeline works from.
pub struct Config {
    pub client_id: String,
    pub client_secret: String,
    pub reddit_user: String,
    pub reddit_pass: String,
    pub subreddit: String,
}

impl Config {
    /// A configuration is valid when none of its fields is empty.
    pub open spec fn spec_valid(self) -> bool {
        &&& self.client_id@.len() > 0
        &&& self.client_secret@.len() > 0
        &&& self.reddit_user@.len() > 0
        &&& self.reddit_pass@.len() > 0
        &&& self.subreddit@.len() > 0
    }

    pub fn is_valid(&self) -> (b: bool)
        ensures
            b == self.spec_valid(),
    {
        !self.client_id.as_str().is_empty() && !self.client_secret.as_str().is_empty()
            && !self.reddit_user.as_str().is_empty() && !self.reddit_pass.as_str().is_empty()
            && !self.subreddit.as_str().is_empty()
    }

    /// The Basic-auth credential: the base64 encoding of `client_id:client_secret`.
    pub fn creds(&self) -> (r: String)
        ensures
            r@ == creds_of(*self),
    {
        let mut joined = self.client_id.clone();
        joined.append(":");
        joined.append(self.client_secret.as_str());
        base64_encode(joined.as_str())
    }

    /// The fixed User-Agent string naming the account user.
    pub fn agent(&self) -> (r: String)
        ensures
            r@ == agent_of(*self),
    {
        let mut r = String::from_str("linux:rrwidget/0.1 (by /u/");
        r.append(self.reddit_user.as_str());
        r.append(")");
        r
    }
}

/// The token the feed source grants for one fetch cycle.
pub struct RedditToken {
    pub access_token: String,
    pub token_type: String,
    pub expires_in: i64,
    pub scope: String,
}

/// The listing response: a kind tag and the payload.
pub struct RedditPost {
    pub kind: String,
    pub data: RedditPostData,
}

/// The listing payload: one child per post.
pub struct RedditPostData {
    pub children: Vec<RedditPostChild>,
}

/// One post of the listing: a kind tag and the post's fields.
pub struct RedditPostChild {
    pub kind: String,
    pub data: RedditPostChildData,
}

/// The fields of one post. `created_utc` is the posting time in whole unix
/// seconds.
pub struct RedditPostChildData {
    pub name: String,
    pub title: String,
    pub url: String,
    pub preview: Option<RedditPostPreview>,
    pub created_utc: u64,
}

/// The preview block of a post.
pub struct RedditPostPreview {
    pub images: Vec<RedditPostImage>,
}

/// One preview image of a post.
pub struct RedditPostImage {
    pub source: RedditPostImageSource,
}

/// The source variant of a preview image.
pub struct RedditPostImageSource {
    pub url: String,
    pub width: i64,
    pub height: i64,
}

/// The signed age, in seconds, of a posting time `ts` seen at time `now`,
/// negative because it lies in the past; a time not yet reached counts as
/// age zero, and an age beyond `i64` is capped.
pub open spec fn rel_seconds(ts: int, now: int) -> int {
    if now >= ts {
        if now - ts > i64::MAX {
            -(i64::MAX as int)
        } else {
            -(now - ts)
        }
    } else {
        0
    }
}

impl RedditPostChildData {
    /// The first preview image's URL, if the post carries any preview image.
    pub open spec fn spec_preview_url(self) -> Option<Seq<char>> {
        match self.preview {
            Some(p) => if p.images@.len() > 0 {
                Some(p.images@[0].source.url@)
            } else {
                None
            },
            None => None,
        }
    }

    pub fn preview_url(&self) -> (r: Option<&String>)
        ensures
            match r {
                Some(u) => self.spec_preview_url() == Some(u@),
                None => self.spec_preview_url() is None,
            },
    {
        match &self.preview {
            Some(p) => if p.images.len() > 0 {
                Some(&p.images[0].source.url)
            } else {
                None
            },
            None => None,
        }
    }

    /// The multi-line text the post prints as, one labelled line per field;
    /// a post without a preview image shows an empty image URL.
    pub fn describe(&self, now: u64) -> (r: String)
        ensures
            r@ == "ID: "@ + self.name@ + "\nTitle: "@ + self.title@ + "\nCreated: "@
                + human_time_text(rel_seconds(self.created_utc as int, now as int)) + "\nURL: "@
                + self.url@ + "\nImage URL: "@ + (match self.spec_preview_url() {
                Some(u) => u,
                None => Seq::<char>::empty(),
            }) + "\n"@,
    {
        let mut r = String::from_str("ID: ");
        r.append(self.name.as_str());
        r.append("\nTitle: ");
        r.append(self.title.as_str());
        r.append("\nCreated: ");
        let created = self.created(now);
        r.append(created.as_str());
        r.append("\nURL: ");
        r.append(self.url.as_str());
        r.append("\nImage URL: ");
        match self.preview_url() {
            Some(u) => {
                r.append(u.as_str());
            },
            None => {
                proof {
                    reveal_strlit("");
                    assert(""@ =~= Seq::<char>::empty());
                }
                r.append("");
            },
        }
        r.append("\n");
        r
    }

    /// The post's age at time `now`, worded roughly and in the past tense.
    pub fn created(&self, now: u64) -> (r: String)
        ensures
            r@ == human_time_text(rel_seconds(self.created_utc as int, now as int)),
    {
        let elapsed: u64 = if now >= self.created_utc {
            now - self.created_utc
        } else {
            0
        };
        let capped: i64 = if elapsed > (i64::MAX as u64) {
            i64::MAX
        } else {
            elapsed as i64
        };
        humanize_rough_past(-capped)
    }
}

/// The normalized unit delivered downstream: one displayable post.
pub struct Item {
    pub id: String,
    pub title: String,
    pub url: String,
    pub created: String,
    pub image_data: Option<Vec<u8>>,
}

/// How an `Item` normalizes a post's plain fields: the id is carried over,
/// title and URL have their HTML entities decoded, and the age is worded
/// from the posting time and `now`.
pub open spec fn fields_match(p: RedditPostChildData, now: u64, it: Item) -> bool {
    &&& it.id@ == p.name@
    &&& it.title@ == decoded_entities(p.title@)
    &&& it.url@ == decoded_entities(p.url@)
    &&& it.created@ == human_time_text(rel_seconds(p.created_utc as int, now as int))
}

/// How an `Item` normalizes a post: the plain fields as in `fields_match`,
/// and the image bytes exactly the resolved ones.
pub open spec fn item_matches(
    p: RedditPostChildData,
    now: u64,
    image: Option<Seq<u8>>,
    it: Item,
) -> bool {
    &&& fields_match(p, now, it)
    &&& match (it.image_data, image) {
        (Some(b), Some(s)) => b@ == s,
        (None, None) => true,
        _ => false,
    }
}

impl Item {
    /// Builds the item a post normalizes to, with the given resolved image.
    pub fn from_post(p: &RedditPostChildData, now: u64, image_data: Option<Vec<u8>>) -> (it: Item)
        ensures
            item_matches(*p, now, view_of_image(image_data), it),
    {
        let created = p.created(now);
        Item {
            id: p.name.clone(),
            title: decode_entities(p.title.as_str()),
            url: decode_entities(p.url.as_str()),
            created,
            image_data,
        }
    }
}

impl Item {
    /// The multi-line text the item prints as: title, age and URL.
    pub fn describe(&self) -> (r: String)
        ensures
            r@ == "Title: "@ + self.title@ + "\nCreated: "@ + self.created@ + "\nURL: "@
                + self.url@ + "\n"@,
    {
        let mut r = String::from_str("Title: ");
        r.append(self.title.as_str());
        r.append("\nCreated: ");
        r.append(self.created.as_str());
        r.append("\nURL: ");
        r.append(self.url.as_str());
        r.append("\n");
        r
    }
}

/// The byte-level view of an optional image.
pub open spec fn view_of_image(image: Option<Vec<u8>>) -> Option<Seq<u8>> {
    match image {
        Some(b) => Some(b@),
        None => None,
    }
}

} // verus!

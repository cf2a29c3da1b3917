//! The fetch cycle: authenticate, list the newest posts, resolve each post's
//! preview image through the bounded cache, revoke the token, deliver items.
//!
//! The network itself stays outside the library. A cycle is driven as a
//! state machine: each step takes the outcome of the previous request as a
//! plain value and returns the next request to perform, so every decision —
//! what to ask for, when a cycle aborts, when an image is looked up in the
//! cache rather than fetched, and how responses turn into items — is
//! verified here.

use crate::cache::ImageCache;
use crate::structs::{
    agent_of, creds_of, decode_entities, decoded_entities, fields_match, Config, Item,
    RedditPost, RedditPostChild, RedditPostChildData, RedditToken,
};
use vstd::prelude::*;
use vstd::string::StringExecFns;
use vstd::string::StringSliceAdditionalSpecFns;

verus! {

/// Why a fetch cycle aborted: token acquisition failed, or the listing
/// request failed. Per-image failures never abort a cycle.
pub enum FetchError {
    Auth,
    Fetch,
}

/// The token request: POST with Basic auth and a password-grant form.
pub struct TokenRequest {
    pub url: String,
    pub user_agent: String,
    pub authorization: String,
    pub username: String,
    pub password: String,
}

/// The listing request: GET with the bearer token, capped at 10 posts.
pub struct ListingRequest {
    pub url: String,
    pub user_agent: String,
    pub authorization: String,
    pub limit: String,
}

/// The image request: a plain GET for one preview image.
pub struct ImageRequest {
    pub url: String,
    pub user_agent: String,
}

/// The revoke request: POST with Basic auth and the token in the body.
pub struct RevokeRequest {
    pub url: String,
    pub authorization: String,
    pub token: String,
}

pub open spec fn token_request_ok(c: Config, r: TokenRequest) -> bool {
    &&& r.url@ == "https://www.reddit.com/api/v1/access_token"@
    &&& r.user_agent@ == agent_of(c)
    &&& r.authorization@ == "Basic "@ + creds_of(c)
    &&& r.username@ == c.reddit_user@
    &&& r.password@ == c.reddit_pass@
}

pub open spec fn listing_request_ok(c: Config, token: Seq<char>, r: ListingRequest) -> bool {
    &&& r.url@ == "https://oauth.reddit.com/r/"@ + c.subreddit@ + "/new"@
    &&& r.user_agent@ == agent_of(c)
    &&& r.authorization@ == "Bearer "@ + token
    &&& r.limit@ == "10"@
}

pub open spec fn revoke_request_ok(c: Config, token: Seq<char>, r: RevokeRequest) -> bool {
    &&& r.url@ == "https://www.reddit.com/api/v1/revoke_token"@
    &&& r.authorization@ == "Basic "@ + creds_of(c)
    &&& r.token@ == token
}

/// All characters are decimal digits.
pub open spec fn is_digit_seq(s: Seq<char>) -> bool {
    forall|i: int| 0 <= i < s.len() ==> '0' <= #[trigger] s[i] && s[i] <= '9'
}

/// The value of a decimal digit string, most significant digit first.
pub open spec fn digits_value(s: Seq<char>) -> int
    decreases s.len(),
{
    if s.len() == 0 {
        0
    } else {
        digits_value(s.drop_last()) * 10 + (s.last() as int - 48)
    }
}

/// The usable reading of a Content-Length header: present, nonempty, all
/// decimal digits, and its value fits the machine's size type.
pub open spec fn spec_content_length(h: Option<Seq<char>>) -> Option<int> {
    match h {
        None => None,
        Some(s) => if s.len() > 0 && is_digit_seq(s) && digits_value(s) <= usize::MAX as int {
            Some(digits_value(s))
        } else {
            None
        },
    }
}

/// The view of an optional header value.
pub open spec fn header_view(h: Option<&String>) -> Option<Seq<char>> {
    match h {
        Some(s) => Some(s@),
        None => None,
    }
}

proof fn lemma_digit_prefix_step(s: Seq<char>, k: int)
    requires
        0 <= k < s.len(),
    ensures
        digits_value(s.take(k + 1)) == 10 * digits_value(s.take(k)) + (s[k] as int - 48),
{
    assert(s.take(k + 1).drop_last() =~= s.take(k));
    assert(s.take(k + 1).last() == s[k]);
}

proof fn lemma_digits_nonneg(s: Seq<char>)
    requires
        is_digit_seq(s),
    ensures
        digits_value(s) >= 0,
    decreases s.len(),
{
    if s.len() > 0 {
        assert(is_digit_seq(s.drop_last()));
        lemma_digits_nonneg(s.drop_last());
        assert(s.last() == s[s.len() - 1]);
        assert(s.last() as int >= 48);
    }
}

/// The value of a digit string is at least the value of any of its prefixes.
proof fn lemma_digits_value_mono(s: Seq<char>, k: int)
    requires
        is_digit_seq(s),
        0 <= k <= s.len(),
    ensures
        digits_value(s.take(k)) <= digits_value(s),
    decreases s.len() - k,
{
    if k == s.len() {
        assert(s.take(k) =~= s);
    } else {
        lemma_digit_prefix_step(s, k);
        assert(is_digit_seq(s.take(k)));
        lemma_digits_nonneg(s.take(k));
        assert(s[k] as int >= 48);
        lemma_digits_value_mono(s, k + 1);
    }
}

/// Reads a Content-Length header. Returns the value exactly when the header
/// is present, all decimal digits, and its value fits; anything else — a
/// missing header, other characters, an empty string, overflow — is unusable
/// and the image is treated as absent.
pub fn parse_content_length(h: Option<&String>) -> (r: Option<usize>)
    ensures
        match r {
            Some(n) => spec_content_length(header_view(h)) == Some(n as int),
            None => spec_content_length(header_view(h)) is None,
        },
{
    let s = match h {
        Some(s) => s,
        None => {
            return None;
        },
    };
    let st = s.as_str();
    proof {
        assert(header_view(h) == Some(s@));
    }
    if !st.is_ascii() {
        proof {
            let i = choose|i: int|
                0 <= i < st@.len() && !('\0' <= #[trigger] st@[i] && st@[i] <= '\u{7f}');
            assert(!('0' <= st@[i] && st@[i] <= '9'));
        }
        return None;
    }
    let b = st.as_bytes();
    proof {
        vstd::string::is_ascii_spec_bytes(st);
    }
    if b.len() == 0 {
        return None;
    }
    let ghost chars = st@;
    let mut acc: usize = 0;
    let mut i: usize = 0;
    while i < b.len()
        invariant
            vstd::string::is_ascii(st),
            b@ == st.spec_bytes(),
            b@ =~= Seq::new(chars.len(), |j: int| chars[j] as u8),
            chars == st@,
            chars == s@,
            0 <= i <= b.len(),
            b@.len() == chars.len(),
            forall|j: int| 0 <= j < i ==> '0' <= #[trigger] chars[j] && chars[j] <= '9',
            acc as int == digits_value(chars.take(i as int)),
            header_view(h) == Some(chars),
        decreases b.len() - i,
    {
        let d = b[i];
        proof {
            assert(b@[i as int] == chars[i as int] as u8);
            assert(chars[i as int] <= '\u{7f}');
        }
        if d < 48 || d > 57 {
            proof {
                assert(!('0' <= chars[i as int] && chars[i as int] <= '9'));
                assert(!is_digit_seq(chars));
            }
            return None;
        }
        let dv = (d - 48) as usize;
        proof {
            assert((usize::MAX - dv) as int == usize::MAX as int - dv as int);
        }
        if acc > (usize::MAX - dv) / 10 {
            proof {
                lemma_digit_prefix_step(chars, i as int);
                assert(chars[i as int] as int - 48 == dv as int);
                let m = usize::MAX as int - dv as int;
                assert(m / 10 * 10 + m % 10 == m);
                assert(acc as int >= m / 10 + 1);
                assert(10 * acc as int + dv as int > usize::MAX as int) by (nonlinear_arith)
                    requires
                        acc as int >= m / 10 + 1,
                        m / 10 * 10 + m % 10 == m,
                        0 <= m % 10 < 10,
                        m == usize::MAX as int - dv as int,
                ;
                if is_digit_seq(chars) {
                    lemma_digits_value_mono(chars, i as int + 1);
                    assert(digits_value(chars.take(i as int + 1)) == 10 * acc as int
                        + dv as int);
                    assert(digits_value(chars) > usize::MAX as int);
                }
                assert(spec_content_length(header_view(h)) is None);
            }
            return None;
        }
        proof {
            let m = usize::MAX as int - dv as int;
            assert(m / 10 * 10 + m % 10 == m);
            assert(acc as int * 10 <= m / 10 * 10) by (nonlinear_arith)
                requires
                    acc as int <= m / 10,
            ;
            lemma_digit_prefix_step(chars, i as int);
        }
        acc = acc * 10 + dv;
        i = i + 1;
    }
    proof {
        assert(chars.take(i as int) =~= chars);
        assert(is_digit_seq(chars));
    }
    Some(acc)
}

/// The consumer's new-content check: a non-empty delivery whose first item's
/// id differs from the one last seen records that id and reports new
/// content; anything else changes nothing.
pub fn note_new_content(last_seen: &mut String, items: &Vec<Item>) -> (fresh: bool)
    ensures
        fresh == (items@.len() > 0 && items@[0].id@ != old(last_seen)@),
        fresh ==> final(last_seen)@ == items@[0].id@,
        !fresh ==> final(last_seen)@ == old(last_seen)@,
{
    if items.len() > 0 && !(items[0].id == *last_seen) {
        *last_seen = items[0].id.clone();
        true
    } else {
        false
    }
}

/// What a post's resolution guarantees of its item: the plain fields are
/// normalized, a post without a preview image gets no image, and an image,
/// when present, is never empty.
pub open spec fn post_resolved(p: RedditPostChildData, now: u64, it: Item) -> bool {
    &&& fields_match(p, now, it)
    &&& p.spec_preview_url() is None ==> it.image_data is None
    &&& it.image_data matches Some(b) ==> b@.len() > 0
}

/// How a post resolves against a fixed map of cached entries, with no
/// network involved: a post without a preview gets no image, and a post
/// whose decoded preview URL is cached gets exactly the cached bytes — or no
/// image when the cached bytes are empty.
pub open spec fn resolved_from_cache(
    p: RedditPostChildData,
    entries: Map<Seq<char>, Seq<u8>>,
    it: Item,
) -> bool {
    match p.spec_preview_url() {
        None => it.image_data is None,
        Some(raw) => {
            let u = decoded_entities(raw);
            &&& entries.dom().contains(u)
            &&& entries[u].len() > 0 ==> (it.image_data matches Some(b) && b@ == entries[u])
            &&& entries[u].len() == 0 ==> it.image_data is None
        },
    }
}

/// The outcome of one image request, as plain values: the request failed
/// outright, or a response arrived with its Content-Length header and its
/// body (`None` when reading the body failed).
pub enum ImageReply {
    Failed,
    Response { content_length: Option<String>, body: Option<Vec<u8>> },
}

/// The view of an optional owned header value.
pub open spec fn opt_str_view(h: Option<String>) -> Option<Seq<char>> {
    match h {
        Some(s) => Some(s@),
        None => None,
    }
}

/// How one image reply settles a pending URL against the cache: only a
/// response with a usable Content-Length and a readable body stores its
/// bytes (under the pending URL), and only a non-empty stored body gives the
/// item an image; every other outcome leaves the cache entries unchanged and
/// the item without an image.
pub open spec fn image_step_ok(
    url: Seq<char>,
    pre: Map<Seq<char>, Seq<u8>>,
    reply: ImageReply,
    post: Map<Seq<char>, Seq<u8>>,
    image: Option<Vec<u8>>,
) -> bool {
    match reply {
        ImageReply::Failed => post == pre && image is None,
        ImageReply::Response { content_length, body } => {
            if spec_content_length(opt_str_view(content_length)) is None {
                post == pre && image is None
            } else {
                match body {
                    None => post == pre && image is None,
                    Some(buf) => {
                        &&& post.dom().contains(url)
                        &&& post[url] == buf@
                        &&& pre.dom().contains(url) ==> post == pre.insert(url, buf@)
                        &&& forall|k: Seq<char>|
                            #[trigger] post.dom().contains(k) ==> k == url || pre.dom().contains(k)
                        &&& forall|k: Seq<char>|
                            post.dom().contains(k) && #[trigger] pre.dom().contains(k) && k != url
                                ==> post[k] == pre[k]
                        &&& buf@.len() == 0 ==> image is None
                        &&& buf@.len() > 0 ==> (image matches Some(b) && b@ == buf@)
                    },
                }
            }
        },
    }
}

/// Where a cycle stands: which outcome it waits for next.
pub enum Phase {
    Start,
    AwaitToken,
    AwaitListing,
    Resolving,
    AwaitImage,
    AwaitRevoke,
    Done,
}

/// What image resolution asks for next: fetch one preview image, or, when
/// every post is resolved, revoke the token.
pub enum ResolveAction {
    Fetch(ImageRequest),
    Revoke(RevokeRequest),
}

/// One fetch cycle, driven as a state machine. The caller performs each
/// returned request and hands the outcome to the next step; the cycle
/// decides everything else.
pub struct FetchCycle {
    conf: Config,
    now: u64,
    phase: Phase,
    token: String,
    posts: Vec<RedditPostChild>,
    idx: usize,
    items: Vec<Item>,
    pending_url: Option<String>,
}

impl FetchCycle {
    pub closed spec fn phase(self) -> Phase {
        self.phase
    }

    pub closed spec fn conf(self) -> Config {
        self.conf
    }

    pub closed spec fn now(self) -> u64 {
        self.now
    }

    /// The access token of this cycle, once granted.
    pub closed spec fn token(self) -> Seq<char> {
        self.token@
    }

    /// The posts the listing returned, in feed order.
    pub closed spec fn posts(self) -> Seq<RedditPostChild> {
        self.posts@
    }

    /// How many posts are resolved so far.
    pub closed spec fn idx(self) -> int {
        self.idx as int
    }

    /// The items built so far, in feed order.
    pub closed spec fn items(self) -> Seq<Item> {
        self.items@
    }

    /// The decoded URL whose image the cycle waits for.
    pub closed spec fn pending_url(self) -> Option<Seq<char>> {
        match self.pending_url {
            Some(u) => Some(u@),
            None => None,
        }
    }

    /// The structural invariant: the item list keeps step with the posts
    /// already resolved, and a pending image always belongs to the post
    /// under resolution.
    pub open spec fn wf(self) -> bool {
        match self.phase() {
            Phase::Start | Phase::AwaitToken | Phase::AwaitListing => self.items().len() == 0,
            Phase::Resolving => self.items().len() == self.idx() && self.idx()
                <= self.posts().len(),
            Phase::AwaitImage => self.items().len() == self.idx() && self.idx()
                < self.posts().len() && self.pending_url() is Some,
            Phase::AwaitRevoke => self.items().len() == self.posts().len(),
            Phase::Done => true,
        }
    }

    /// A cycle starts empty, knowing only the configuration and the time the
    /// cycle began (used to word each item's age).
    pub fn new(conf: Config, now: u64) -> (s: FetchCycle)
        ensures
            s.phase() == Phase::Start,
            s.wf(),
            s.conf() == conf,
            s.now() == now,
            s.items().len() == 0,
    {
        FetchCycle {
            conf,
            now,
            phase: Phase::Start,
            token: String::new(),
            posts: Vec::new(),
            idx: 0,
            items: Vec::new(),
            pending_url: None,
        }
    }

    /// Opens the cycle: the first request asks for an access token with
    /// Basic auth and the password grant.
    pub fn begin(&mut self) -> (r: TokenRequest)
        requires
            old(self).phase() == Phase::Start,
            old(self).wf(),
        ensures
            final(self).phase() == Phase::AwaitToken,
            final(self).wf(),
            final(self).conf() == old(self).conf(),
            final(self).now() == old(self).now(),
            final(self).items().len() == 0,
            token_request_ok(old(self).conf(), r),
    {
        self.phase = Phase::AwaitToken;
        let ua = self.conf.agent();
        let c = self.conf.creds();
        let mut auth = String::from_str("Basic ");
        auth.append(c.as_str());
        TokenRequest {
            url: String::from_str("https://www.reddit.com/api/v1/access_token"),
            user_agent: ua,
            authorization: auth,
            username: self.conf.reddit_user.clone(),
            password: self.conf.reddit_pass.clone(),
        }
    }

    /// Takes the token outcome. A granted token leads to the listing
    /// request; a failed grant aborts the whole cycle with `Auth`, exactly
    /// as delivered.
    pub fn token_result(&mut self, r: Option<RedditToken>) -> (out: Result<
        ListingRequest,
        FetchError,
    >)
        requires
            old(self).phase() == Phase::AwaitToken,
            old(self).wf(),
        ensures
            final(self).wf(),
            final(self).conf() == old(self).conf(),
            final(self).now() == old(self).now(),
            final(self).items().len() == 0,
            match r {
                Some(t) => {
                    &&& final(self).phase() == Phase::AwaitListing
                    &&& final(self).token() == t.access_token@
                    &&& out matches Ok(req) && listing_request_ok(
                        old(self).conf(),
                        t.access_token@,
                        req,
                    )
                },
                None => {
                    &&& final(self).phase() == Phase::Done
                    &&& out matches Err(e) && e == FetchError::Auth
                },
            },
    {
        match r {
            Some(t) => {
                self.token = t.access_token;
                self.phase = Phase::AwaitListing;
                let ua = self.conf.agent();
                let mut auth = String::from_str("Bearer ");
                auth.append(self.token.as_str());
                let mut url = String::from_str("https://oauth.reddit.com/r/");
                url.append(self.conf.subreddit.as_str());
                url.append("/new");
                Ok(
                    ListingRequest {
                        url,
                        user_agent: ua,
                        authorization: auth,
                        limit: String::from_str("10"),
                    },
                )
            },
            None => {
                self.phase = Phase::Done;
                Err(FetchError::Auth)
            },
        }
    }

    /// Takes the listing outcome. A failed listing aborts the cycle with
    /// `Fetch` and no items — the cache was never touched and nothing is
    /// delivered for this cycle. A successful listing starts image
    /// resolution over the returned posts, in feed order.
    pub fn listing_result(&mut self, r: Option<RedditPost>) -> (out: Result<(), FetchError>)
        requires
            old(self).phase() == Phase::AwaitListing,
            old(self).wf(),
        ensures
            final(self).wf(),
            final(self).conf() == old(self).conf(),
            final(self).now() == old(self).now(),
            final(self).token() == old(self).token(),
            match r {
                Some(p) => {
                    &&& final(self).phase() == Phase::Resolving
                    &&& final(self).posts() == p.data.children@
                    &&& final(self).idx() == 0
                    &&& final(self).items().len() == 0
                    &&& out is Ok
                },
                None => {
                    &&& final(self).phase() == Phase::Done
                    &&& final(self).items().len() == 0
                    &&& out matches Err(e) && e == FetchError::Fetch
                },
            },
    {
        match r {
            Some(p) => {
                self.posts = p.data.children;
                self.idx = 0;
                self.phase = Phase::Resolving;
                Ok(())
            },
            None => {
                self.phase = Phase::Done;
                Err(FetchError::Fetch)
            },
        }
    }

    /// Resolves posts until one needs the network. Posts without a preview
    /// image, and posts whose decoded preview URL is already cached, are
    /// turned into items on the spot — a cache hit never asks for a fetch,
    /// and lookups never change the cache's entries. The first post whose
    /// URL misses the cache yields a `Fetch` of exactly that URL; once every
    /// post is resolved, the token's revocation is requested.
    pub fn next_action(&mut self, cache: &mut ImageCache) -> (a: ResolveAction)
        requires
            old(self).phase() == Phase::Resolving,
            old(self).wf(),
            old(cache).wf(),
        ensures
            final(self).wf(),
            final(cache).wf(),
            final(cache).capacity() == old(cache).capacity(),
            final(cache).entries() == old(cache).entries(),
            final(self).conf() == old(self).conf(),
            final(self).now() == old(self).now(),
            final(self).posts() == old(self).posts(),
            final(self).token() == old(self).token(),
            old(self).items().is_prefix_of(final(self).items()),
            forall|i: int|
                old(self).items().len() <= i < final(self).items().len() ==> post_resolved(
                    final(self).posts()[i].data,
                    final(self).now(),
                    #[trigger] final(self).items()[i],
                ),
            forall|i: int|
                old(self).items().len() <= i < final(self).items().len() ==> resolved_from_cache(
                    final(self).posts()[i].data,
                    final(cache).entries(),
                    #[trigger] final(self).items()[i],
                ),
            match a {
                ResolveAction::Fetch(req) => {
                    &&& final(self).phase() == Phase::AwaitImage
                    &&& final(self).items().len() == final(self).idx()
                    &&& final(self).idx() < final(self).posts().len()
                    &&& final(self).pending_url() == Some(req.url@)
                    &&& final(self).posts()[final(self).idx()].data.spec_preview_url() matches Some(
                        raw,
                    ) && req.url@ == decoded_entities(raw)
                    &&& !final(cache).spec_contains(req.url@)
                    &&& req.user_agent@ == agent_of(old(self).conf())
                },
                ResolveAction::Revoke(req) => {
                    &&& final(self).phase() == Phase::AwaitRevoke
                    &&& final(self).items().len() == final(self).posts().len()
                    &&& revoke_request_ok(old(self).conf(), old(self).token(), req)
                },
            },
    {
        while self.idx < self.posts.len()
            invariant
                self.phase == Phase::Resolving,
                cache.wf(),
                cache.capacity() == old(cache).capacity(),
                cache.entries() == old(cache).entries(),
                self.conf == old(self).conf,
                self.now == old(self).now,
                self.token == old(self).token,
                self.posts == old(self).posts,
                self.pending_url == old(self).pending_url,
                self.idx as int <= self.posts@.len(),
                self.items@.len() == self.idx as int,
                old(self).items@.is_prefix_of(self.items@),
                old(self).items@.len() <= self.items@.len(),
                forall|i: int|
                    old(self).items@.len() <= i < self.items@.len() ==> post_resolved(
                        self.posts@[i].data,
                        self.now,
                        #[trigger] self.items@[i],
                    ),
                forall|i: int|
                    old(self).items@.len() <= i < self.items@.len() ==> resolved_from_cache(
                        self.posts@[i].data,
                        cache.entries(),
                        #[trigger] self.items@[i],
                    ),
            decreases self.posts@.len() - self.idx as int,
        {
            let decoded: Option<String> = match self.posts[self.idx].data.preview_url() {
                Some(u) => Some(decode_entities(u.as_str())),
                None => None,
            };
            match decoded {
                None => {
                    let it = Item::from_post(&self.posts[self.idx].data, self.now, None);
                    self.items.push(it);
                    self.idx = self.idx + 1;
                },
                Some(url) => {
                    match cache.get(&url) {
                        Some(bytes) => {
                            let img: Option<Vec<u8>> = if bytes.len() > 0 {
                                Some(bytes)
                            } else {
                                None
                            };
                            let it = Item::from_post(&self.posts[self.idx].data, self.now, img);
                            self.items.push(it);
                            self.idx = self.idx + 1;
                        },
                        None => {
                            let ua = self.conf.agent();
                            self.pending_url = Some(url.clone());
                            self.phase = Phase::AwaitImage;
                            return ResolveAction::Fetch(ImageRequest { url, user_agent: ua });
                        },
                    }
                },
            }
        }
        self.phase = Phase::AwaitRevoke;
        let c = self.conf.creds();
        let mut auth = String::from_str("Basic ");
        auth.append(c.as_str());
        ResolveAction::Revoke(
            RevokeRequest {
                url: String::from_str("https://www.reddit.com/api/v1/revoke_token"),
                authorization: auth,
                token: self.token.clone(),
            },
        )
    }

    /// Takes one image outcome for the pending URL. Only a response with a
    /// usable Content-Length and a readable body is stored in the cache;
    /// every failure — no response, a missing or unusable header, a failed
    /// read — degrades this one item to "no image" and aborts nothing. The
    /// item for the post is built either way and resolution continues.
    pub fn image_result(&mut self, cache: &mut ImageCache, reply: ImageReply)
        requires
            old(self).phase() == Phase::AwaitImage,
            old(self).wf(),
            old(self).posts()[old(self).idx()].data.spec_preview_url() is Some,
            old(cache).wf(),
        ensures
            final(self).wf(),
            final(cache).wf(),
            final(cache).capacity() == old(cache).capacity(),
            final(self).phase() == Phase::Resolving,
            final(self).conf() == old(self).conf(),
            final(self).now() == old(self).now(),
            final(self).posts() == old(self).posts(),
            final(self).token() == old(self).token(),
            final(self).idx() == old(self).idx() + 1,
            final(self).items() == old(self).items().push(final(self).items().last()),
            post_resolved(
                old(self).posts()[old(self).idx()].data,
                old(self).now(),
                final(self).items().last(),
            ),
            image_step_ok(
                old(self).pending_url()->Some_0,
                old(cache).entries(),
                reply,
                final(cache).entries(),
                final(self).items().last().image_data,
            ),
    {
        let url = match &self.pending_url {
            Some(u) => u.clone(),
            None => unreached(),
        };
        self.pending_url = None;
        let image: Option<Vec<u8>> = match reply {
            ImageReply::Failed => None,
            ImageReply::Response { content_length, body } => {
                match parse_content_length(content_length.as_ref()) {
                    None => None,
                    Some(_len) => match body {
                        None => None,
                        Some(buf) => {
                            let blen = buf.len();
                            cache.put(url.clone(), buf);
                            if blen > 0 {
                                match cache.get(&url) {
                                    Some(v) => Some(v),
                                    None => unreached(),
                                }
                            } else {
                                None
                            }
                        },
                    },
                }
            },
        };
        let it = Item::from_post(&self.posts[self.idx].data, self.now, image);
        self.items.push(it);
        let n = self.posts.len();
        proof {
            assert(self.idx < n);
        }
        self.idx = self.idx + 1;
        self.phase = Phase::Resolving;
    }

    /// Closes the cycle once the revocation request was attempted — its
    /// outcome is deliberately ignored, a failure to revoke never fails the
    /// already-built result — and hands over one item per post, in feed
    /// order.
    pub fn finish(self) -> (items: Vec<Item>)
        requires
            self.phase() == Phase::AwaitRevoke,
            self.wf(),
        ensures
            items@ == self.items(),
            items@.len() == self.posts().len(),
    {
        self.items
    }
}

} // verus!

//! The Reddit side of a reminder image: how the bot introduces itself, how it reads the
//! reply to its login, and which post of the week's top list gives the image.

use vstd::prelude::*;

use crate::text::{decimal, decimal_digits};

verus! {

/// How many of the week's top posts are searched for an image.
pub const TOP_IMAGES_SEARCH_LIMIT: u32 = 20;

/// Why no image could be had from Reddit.
#[derive(Clone, Debug)]
pub enum RedditError {
    /// Logging in failed; the text says how.
    LoginError(String),
    /// Fetching the top posts failed; the text is the client's error.
    FetchError(String),
    /// No post gave a usable image; the text says so.
    MissingData(String),
}

/// What the token endpoint answered, once its body has been decoded (or not).
#[derive(Clone, Debug)]
pub enum TokenReply {
    /// `{"access_token": ...}`
    AccessToken(String),
    /// `{"error": ...}`
    Denied(String),
    /// The body was neither; the text is the decoder's error.
    Undecodable(String),
}

/// What the bot needs to know of a post: its hint (`"image"`, `"link"`, ...) and its URL.
#[derive(Clone, Debug)]
pub struct PostSummary {
    pub post_hint: Option<String>,
    pub url: Option<String>,
}

/// The user agent that Reddit asks script applications to send.
pub open spec fn user_agent_text(username: Seq<char>) -> Seq<char> {
    "linux:vasko-chores-bot:v1.0 (by /u/"@ + username + ")"@
}

/// The user agent for the Reddit account `username`.
pub fn user_agent(username: &str) -> (agent: String)
    ensures
        agent@ == user_agent_text(username@),
{
    let mut agent = String::from_str("linux:vasko-chores-bot:v1.0 (by /u/");
    agent.append(username);
    agent.append(")");
    agent
}

/// The `Authorization` header value for an access token.
pub fn bearer_authorization(access_token: &str) -> (header: String)
    ensures
        header@ == "Bearer "@ + access_token@,
{
    let mut header = String::from_str("Bearer ");
    header.append(access_token);
    header
}

/// The outcome of a login, from whether the HTTP status was a success, its text, and the
/// decoded reply: the access token, or the error that says why there is none.
pub fn login_result(status_ok: bool, status: &str, reply: TokenReply) -> (result: Result<String, RedditError>)
    ensures
        !status_ok ==> (result matches Err(RedditError::LoginError(m)) && m@ == "HTTP "@ + status@),
        status_ok ==> match reply {
            TokenReply::AccessToken(token) => result matches Ok(t) && t@ == token@,
            TokenReply::Denied(error) => result matches Err(RedditError::LoginError(m))
                && m@ == "auth error: "@ + error@,
            TokenReply::Undecodable(error) => result matches Err(RedditError::LoginError(m))
                && m@ == "failed to decode token response: "@ + error@,
        },
{
    if !status_ok {
        let mut m = String::from_str("HTTP ");
        m.append(status);
        return Err(RedditError::LoginError(m));
    }
    match reply {
        TokenReply::AccessToken(token) => Ok(token),
        TokenReply::Denied(error) => {
            let mut m = String::from_str("auth error: ");
            m.append(error.as_str());
            Err(RedditError::LoginError(m))
        },
        TokenReply::Undecodable(error) => {
            let mut m = String::from_str("failed to decode token response: ");
            m.append(error.as_str());
            Err(RedditError::LoginError(m))
        },
    }
}

/// The serialization of the URL that `url::Url::parse` makes of `raw`, or `None` where it
/// rejects `raw`.
pub uninterp spec fn url_serialization(raw: Seq<char>) -> Option<Seq<char>>;

/// `url::Url::parse`, the parsed URL given by its serialization (`String::from(url)`).
#[verifier::external_body]
fn parse_url(raw: &str) -> (parsed: Option<String>)
    ensures
        parsed.deep_view() == url_serialization(raw@),
{
    match url::Url::parse(raw) {
        Ok(url) => Some(String::from(url)),
        Err(_) => None,
    }
}

/// A post that may give the image: hinted as an image, and with a URL.
pub open spec fn image_candidate(post: PostSummary) -> bool {
    &&& post.post_hint matches Some(hint) && hint@ == "image"@
    &&& post.url is Some
}

/// The parsed URL of a candidate post; `None` for other posts.
pub open spec fn candidate_url(post: PostSummary) -> Option<Seq<char>> {
    if image_candidate(post) {
        url_serialization(post.url.unwrap()@)
    } else {
        None
    }
}

/// The parsed URL of the first candidate post whose URL parsed, `parsed` holding the parse of
/// each post's URL.
pub open spec fn first_image(posts: Seq<PostSummary>, parsed: Seq<Option<Seq<char>>>) -> Option<Seq<char>>
    decreases posts.len(),
{
    if posts.len() == 0 || parsed.len() == 0 {
        None
    } else if image_candidate(posts[0]) && parsed[0] is Some {
        parsed[0]
    } else {
        first_image(posts.skip(1), parsed.skip(1))
    }
}

/// The image is the parsed URL of the first post that is hinted exactly `"image"`, has a
/// URL, and whose URL parsed: a post with another hint, without a URL, or whose URL did not
/// parse never gives it, and no post that qualifies comes before the one that gives it.
/// Where the search finds nothing, no post qualifies.
pub proof fn law_image_comes_from_first_image_post(posts: Seq<PostSummary>, parsed: Seq<Option<Seq<char>>>)
    requires
        posts.len() == parsed.len(),
    ensures
        first_image(posts, parsed) matches Some(url) ==> exists|i: int| #![trigger posts[i]]
            0 <= i < posts.len()
            && (posts[i].post_hint matches Some(hint) && hint@ == "image"@)
            && posts[i].url is Some
            && parsed[i] == Some(url)
            && forall|j: int| #![trigger posts[j]] 0 <= j < i ==> !(
                (posts[j].post_hint matches Some(hint) && hint@ == "image"@)
                && posts[j].url is Some && parsed[j] is Some),
        first_image(posts, parsed) is None ==> forall|i: int| #![trigger posts[i]] 0 <= i < posts.len() ==> !(
            (posts[i].post_hint matches Some(hint) && hint@ == "image"@)
            && posts[i].url is Some && parsed[i] is Some),
    decreases posts.len(),
{
    if posts.len() == 0 {
        return;
    }
    if image_candidate(posts[0]) && parsed[0] is Some {
        assert(posts[0] == posts[0]);
        return;
    }
    let rest = posts.skip(1);
    let rest_parsed = parsed.skip(1);
    law_image_comes_from_first_image_post(rest, rest_parsed);
    assert forall|j: int| 0 <= j < rest.len() implies #[trigger] rest[j] == posts[j + 1] && rest_parsed[j] == parsed[j + 1] by {}
    match first_image(posts, parsed) {
        Some(url) => {
            let k = choose|k: int| #![trigger rest[k]]
                0 <= k < rest.len()
                && (rest[k].post_hint matches Some(hint) && hint@ == "image"@)
                && rest[k].url is Some
                && rest_parsed[k] == Some(url)
                && forall|j: int| #![trigger rest[j]] 0 <= j < k ==> !(
                    (rest[j].post_hint matches Some(hint) && hint@ == "image"@)
                    && rest[j].url is Some && rest_parsed[j] is Some);
            assert(rest[k] == posts[k + 1]);
            assert forall|j: int| #![trigger posts[j]] 0 <= j < k + 1 implies !(
                (posts[j].post_hint matches Some(hint) && hint@ == "image"@)
                && posts[j].url is Some && parsed[j] is Some) by {
                if j > 0 {
                    assert(rest[j - 1] == posts[j]);
                }
            }
        },
        None => {
            assert forall|i: int| #![trigger posts[i]] 0 <= i < posts.len() implies !(
                (posts[i].post_hint matches Some(hint) && hint@ == "image"@)
                && posts[i].url is Some && parsed[i] is Some) by {
                if i > 0 {
                    assert(rest[i - 1] == posts[i]);
                }
            }
        },
    }
}

/// What `top_image_url` finds is the serialization `url::Url::parse` makes of the URL of the
/// first post hinted exactly `"image"` whose URL parses; where it finds nothing, no post
/// hinted `"image"` has a URL that parses.
pub proof fn law_top_image_is_first_parsable_image_post(posts: Seq<PostSummary>)
    ensures
        first_image(posts, posts.map_values(|p: PostSummary| candidate_url(p))) matches Some(url)
            ==> exists|i: int| #![trigger posts[i]]
            0 <= i < posts.len()
            && (posts[i].post_hint matches Some(hint) && hint@ == "image"@)
            && (posts[i].url matches Some(raw) && url_serialization(raw@) == Some(url))
            && forall|j: int| #![trigger posts[j]] 0 <= j < i ==> !(
                (posts[j].post_hint matches Some(hint) && hint@ == "image"@)
                && (posts[j].url matches Some(raw) && url_serialization(raw@) is Some)),
        first_image(posts, posts.map_values(|p: PostSummary| candidate_url(p))) is None
            ==> forall|i: int| #![trigger posts[i]] 0 <= i < posts.len() ==> !(
            (posts[i].post_hint matches Some(hint) && hint@ == "image"@)
            && (posts[i].url matches Some(raw) && url_serialization(raw@) is Some)),
{
    let parsed = posts.map_values(|p: PostSummary| candidate_url(p));
    law_image_comes_from_first_image_post(posts, parsed);
    assert forall|i: int| 0 <= i < posts.len() implies #[trigger] parsed[i] == candidate_url(posts[i]) by {}
}

/// The text of the error when no post gives an image.
pub open spec fn missing_image_message() -> Seq<char> {
    "Failed to find any top posts with a valid image url (searched top "@
        + decimal_digits(TOP_IMAGES_SEARCH_LIMIT as nat) + ")"@
}

/// The result of the image search for what it found.
pub open spec fn image_search_outcome(found: Option<Seq<char>>, result: Result<String, RedditError>) -> bool {
    match found {
        Some(url) => result matches Ok(u) && u@ == url,
        None => result matches Err(RedditError::MissingData(m)) && m@ == missing_image_message(),
    }
}

/// The image URL of the first candidate post whose URL parsed, given the parse of each
/// post's URL; the missing-data error when there is none.
pub fn image_url_from_parsed(posts: &Vec<PostSummary>, parsed: &Vec<Option<String>>) -> (result: Result<String, RedditError>)
    requires
        posts.len() == parsed.len(),
    ensures
        image_search_outcome(first_image(posts@, parsed.deep_view()), result),
{
    let image = String::from_str("image");
    let ghost parsed_views = parsed.deep_view();
    let mut i: usize = 0;
    proof {
        assert(posts@.skip(0) =~= posts@);
        assert(parsed_views.skip(0) =~= parsed_views);
    }
    while i < posts.len()
        invariant
            i <= posts.len(),
            posts.len() == parsed.len(),
            parsed_views == parsed.deep_view(),
            image@ == "image"@,
            first_image(posts@, parsed_views) == first_image(posts@.skip(i as int), parsed_views.skip(i as int)),
        decreases posts.len() - i,
    {
        proof {
            assert(posts@.skip(i as int)[0] == posts@[i as int]);
            assert(parsed_views.skip(i as int)[0] == parsed_views[i as int]);
            assert(posts@.skip(i as int).skip(1) =~= posts@.skip(i + 1));
            assert(parsed_views.skip(i as int).skip(1) =~= parsed_views.skip(i + 1));
        }
        let hinted = match &posts[i].post_hint {
            Some(hint) => *hint == image,
            None => false,
        };
        if hinted && posts[i].url.is_some() {
            match &parsed[i] {
                Some(url) => {
                    return Ok(url.clone());
                },
                None => {},
            }
        }
        i = i + 1;
    }
    let mut message = String::from_str("Failed to find any top posts with a valid image url (searched top ");
    let limit = decimal(TOP_IMAGES_SEARCH_LIMIT);
    message.append(limit.as_str());
    message.append(")");
    Err(RedditError::MissingData(message))
}

/// The image URL of the first of the week's top posts that is hinted as an image and whose
/// URL parses; the missing-data error when there is none.
pub fn top_image_url(posts: &Vec<PostSummary>) -> (result: Result<String, RedditError>)
    ensures
        image_search_outcome(first_image(posts@, posts@.map_values(|p: PostSummary| candidate_url(p))), result),
{
    let image = String::from_str("image");
    let mut parsed: Vec<Option<String>> = Vec::new();
    let mut i: usize = 0;
    while i < posts.len()
        invariant
            i <= posts.len(),
            parsed@.len() == i,
            image@ == "image"@,
            forall|j: int| 0 <= j < i ==> (#[trigger] parsed@[j]).deep_view() == candidate_url(posts@[j]),
        decreases posts.len() - i,
    {
        let hinted = match &posts[i].post_hint {
            Some(hint) => *hint == image,
            None => false,
        };
        let candidate = match &posts[i].url {
            Some(raw) => if hinted { parse_url(raw.as_str()) } else { None },
            None => None,
        };
        parsed.push(candidate);
        i = i + 1;
    }
    proof {
        assert(parsed.deep_view() =~= posts@.map_values(|p: PostSummary| candidate_url(p)));
    }
    image_url_from_parsed(posts, &parsed)
}

} // verus!

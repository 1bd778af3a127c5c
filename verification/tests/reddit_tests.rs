use vasko::reddit::{
    bearer_authorization, image_url_from_parsed, login_result, top_image_url, user_agent,
    PostSummary, RedditError, TokenReply, TOP_IMAGES_SEARCH_LIMIT,
};

fn post(hint: Option<&str>, url: Option<&str>) -> PostSummary {
    PostSummary { post_hint: hint.map(|s| s.to_string()), url: url.map(|s| s.to_string()) }
}

const MISSING: &str = "Failed to find any top posts with a valid image url (searched top 20)";

#[test]
fn user_agent_names_the_account() {
    assert_eq!(user_agent("kari"), "linux:vasko-chores-bot:v1.0 (by /u/kari)");
}

#[test]
fn bearer_header() {
    assert_eq!(bearer_authorization("abc"), "Bearer abc");
}

#[test]
fn login_with_failed_status() {
    match login_result(false, "401 Unauthorized", TokenReply::AccessToken("t".to_string())) {
        Err(RedditError::LoginError(m)) => assert_eq!(m, "HTTP 401 Unauthorized"),
        other => panic!("unexpected {:?}", other),
    }
}

#[test]
fn login_with_token() {
    assert_eq!(
        login_result(true, "200 OK", TokenReply::AccessToken("token".to_string())).unwrap(),
        "token"
    );
}

#[test]
fn login_denied() {
    match login_result(true, "200 OK", TokenReply::Denied("invalid_grant".to_string())) {
        Err(RedditError::LoginError(m)) => assert_eq!(m, "auth error: invalid_grant"),
        other => panic!("unexpected {:?}", other),
    }
}

#[test]
fn login_undecodable() {
    match login_result(true, "200 OK", TokenReply::Undecodable("EOF".to_string())) {
        Err(RedditError::LoginError(m)) => assert_eq!(m, "failed to decode token response: EOF"),
        other => panic!("unexpected {:?}", other),
    }
}

#[test]
fn search_limit() {
    assert_eq!(TOP_IMAGES_SEARCH_LIMIT, 20);
}

#[test]
fn top_image_url_picks_first_image_post_with_valid_url() {
    let posts = vec![
        post(Some("link"), Some("https://a.example/x.png")),
        post(Some("image"), None),
        post(Some("image"), Some("not a url")),
        post(Some("image"), Some("https://i.redd.it/cat.jpg")),
        post(Some("image"), Some("https://i.redd.it/dog.jpg")),
    ];
    assert_eq!(top_image_url(&posts).unwrap(), "https://i.redd.it/cat.jpg");
}

#[test]
fn top_image_url_gives_the_parsed_serialization() {
    let posts = vec![post(Some("image"), Some("HTTPS://Example.COM"))];
    assert_eq!(top_image_url(&posts).unwrap(), "https://example.com/");
}

#[test]
fn top_image_url_without_image_is_missing_data() {
    let posts = vec![post(None, Some("https://a.example/")), post(Some("image"), Some("::"))];
    match top_image_url(&posts) {
        Err(RedditError::MissingData(m)) => assert_eq!(m, MISSING),
        other => panic!("unexpected {:?}", other),
    }
    match top_image_url(&Vec::new()) {
        Err(RedditError::MissingData(m)) => assert_eq!(m, MISSING),
        other => panic!("unexpected {:?}", other),
    }
}

#[test]
fn image_url_from_parsed_uses_given_parses() {
    let posts = vec![
        post(Some("image"), Some("raw-1")),
        post(Some("self"), Some("raw-2")),
        post(Some("image"), Some("raw-3")),
    ];
    let parsed = vec![None, Some("two".to_string()), Some("three".to_string())];
    assert_eq!(image_url_from_parsed(&posts, &parsed).unwrap(), "three");
}

use hexocat::reply::{
    empty_response, frame_reply, json_response, prepare_response, prepare_response_body,
    reply_body, wrap, ContentType, Response, SlackResponse,
};
use hexocat::search::{Owner, Repository};

fn repository(name: &str, login: &str, description: Option<&str>) -> Repository {
    Repository {
        name: name.to_owned(),
        html_url: format!("https://github.com/{}/{}", login, name),
        description: description.map(|d| d.to_owned()),
        owner: Owner { login: login.to_owned(), html_url: format!("https://github.com/{}", login) },
    }
}

#[test]
fn no_repositories_give_empty_text() {
    assert_eq!(prepare_response_body(Vec::new()), "");
}

#[test]
fn one_repository_gives_one_line() {
    let repos = vec![repository("linux", "torvalds", None)];
    assert_eq!(
        prepare_response_body(repos),
        "linux by torvalds: https://github.com/torvalds/linux"
    );
}

#[test]
fn repositories_keep_their_order() {
    let repos = vec![
        repository("zed", "zed-industries", Some("editor")),
        repository("linux", "torvalds", None),
        repository("alpha", "beta", Some("")),
    ];
    assert_eq!(
        prepare_response_body(repos),
        "zed by zed-industries: https://github.com/zed-industries/zed\n\
         linux by torvalds: https://github.com/torvalds/linux\n\
         alpha by beta: https://github.com/beta/alpha"
    );
}

#[test]
fn two_repositories_are_joined_by_one_line_break() {
    let repos = vec![repository("a", "b", None), repository("c", "d", None)];
    let text = prepare_response_body(repos);
    assert_eq!(text, "a by b: https://github.com/b/a\nc by d: https://github.com/d/c");
    assert_eq!(text.matches('\n').count(), 1);
}

#[test]
fn missing_description_is_a_dash() {
    assert_eq!(repository("a", "b", None).description_text(), "-");
    assert_eq!(repository("a", "b", Some("kernel")).description_text(), "kernel");
    assert_eq!(repository("a", "b", Some("")).description_text(), "");
}

#[test]
fn wrap_keeps_the_text() {
    let reply = wrap("hello".to_owned());
    assert_eq!(
        reply,
        SlackResponse { text: "hello".to_owned(), response_type: "in_channel".to_owned() }
    );
    assert_eq!(wrap(String::new()).response_type, "in_channel");
}

#[test]
fn wrap_keeps_formatted_text() {
    let repos = vec![repository("linux", "torvalds", None), repository("git", "git", None)];
    let text = prepare_response_body(repos);
    let reply = wrap(text.clone());
    assert_eq!(reply.text, text);
    assert_eq!(reply.response_type, "in_channel");
}

#[test]
fn frame_reply_writes_both_members() {
    assert_eq!(
        frame_reply("\"hi\"", "\"in_channel\""),
        "{\"text\":\"hi\",\"response_type\":\"in_channel\"}"
    );
    assert_eq!(frame_reply("", ""), "{\"text\":,\"response_type\":}");
}

#[test]
fn reply_body_is_the_envelope_as_json() {
    let body = reply_body(&wrap("linux".to_owned()));
    assert_eq!(body, "{\"text\":\"linux\",\"response_type\":\"in_channel\"}");
}

#[test]
fn reply_body_escapes_its_members() {
    let reply = SlackResponse { text: "a\"b\\c\nd".to_owned(), response_type: "x\ty".to_owned() };
    assert_eq!(
        reply_body(&reply),
        "{\"text\":\"a\\\"b\\\\c\\nd\",\"response_type\":\"x\\ty\"}"
    );
}

#[test]
fn reply_body_reads_back_with_serde_json() {
    let text = "<https://x|y> \"quoted\" \u{e9}\u{1f431}\n----";
    let body = reply_body(&wrap(text.to_owned()));
    let value: serde_json::Value = serde_json::from_str(&body).unwrap();
    assert_eq!(value.get("text").and_then(|v| v.as_str()), Some(text));
    assert_eq!(value.get("response_type").and_then(|v| v.as_str()), Some("in_channel"));
    assert_eq!(value.as_object().map(|o| o.len()), Some(2));
}

#[test]
fn json_response_carries_the_body() {
    assert_eq!(
        json_response("{}".to_owned()),
        Response { status: 200, content_type: Some(ContentType::Json), body: "{}".to_owned() }
    );
}

#[test]
fn empty_response_has_only_a_status() {
    assert_eq!(
        empty_response(403),
        Response { status: 403, content_type: None, body: String::new() }
    );
}

#[test]
fn prepare_response_is_a_json_success() {
    assert_eq!(
        prepare_response("hi \"there\"".to_owned()),
        Response {
            status: 200,
            content_type: Some(ContentType::Json),
            body: "{\"text\":\"hi \\\"there\\\"\",\"response_type\":\"in_channel\"}".to_owned(),
        }
    );
}

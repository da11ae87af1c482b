//! From search results to the reply sent back to the chat: the text, the
//! envelope around it and the HTTP response that carries it.

use vstd::prelude::*;
use vstd::string::*;
use crate::search::{Repository, RepositoryView, views};

verus! {

/// The envelope the chat platform expects.
#[derive(Clone, Debug, PartialEq, Eq)]
pub struct SlackResponse {
    pub text: String,
    pub response_type: String,
}

/// Mathematical content of a [`SlackResponse`].
pub ghost struct SlackResponseView {
    pub text: Seq<char>,
    pub response_type: Seq<char>,
}

impl View for SlackResponse {
    type V = SlackResponseView;

    open spec fn view(&self) -> SlackResponseView {
        SlackResponseView { text: self.text@, response_type: self.response_type@ }
    }
}

/// Media type of a response body.
#[derive(Clone, Copy, Debug, PartialEq, Eq, Structural)]
pub enum ContentType {
    Json,
}

/// An HTTP response in plain values.
#[derive(Clone, Debug, PartialEq, Eq)]
pub struct Response {
    pub status: u16,
    pub content_type: Option<ContentType>,
    pub body: String,
}

/// Mathematical content of a [`Response`].
pub ghost struct ResponseView {
    pub status: u16,
    pub content_type: Option<ContentType>,
    pub body: Seq<char>,
}

impl View for Response {
    type V = ResponseView;

    open spec fn view(&self) -> ResponseView {
        ResponseView { status: self.status, content_type: self.content_type, body: self.body@ }
    }
}

/// The line that stands for one repository.
pub open spec fn block(repo: RepositoryView) -> Seq<char> {
    repo.name + " by "@ + repo.owner.login + ": "@ + repo.html_url
}

/// The lines of `repos` in order, one line break between neighbours and
/// none at either end.
pub open spec fn formatted(repos: Seq<RepositoryView>) -> Seq<char>
    decreases repos.len(),
{
    if repos.len() == 0 {
        Seq::empty()
    } else if repos.len() == 1 {
        block(repos.last())
    } else {
        formatted(repos.drop_last()) + "\n"@ + block(repos.last())
    }
}

/// The envelope around `text`.
pub open spec fn reply_of(text: Seq<char>) -> SlackResponseView {
    SlackResponseView { text, response_type: "in_channel"@ }
}

/// The JSON object with the two members of the envelope, given each
/// member's value as a JSON literal.
pub open spec fn reply_json(text_literal: Seq<char>, type_literal: Seq<char>) -> Seq<char> {
    "{\"text\":"@ + text_literal + ",\"response_type\":"@ + type_literal + "}"@
}

/// The response that carries `body` as JSON.
pub open spec fn success(body: Seq<char>) -> ResponseView {
    ResponseView { status: 200, content_type: Some(ContentType::Json), body }
}

/// A response of `status` with nothing in it.
pub open spec fn bare(status: u16) -> ResponseView {
    ResponseView { status, content_type: None, body: Seq::empty() }
}

/// The response to a served command whose reply text is `text`: the
/// envelope around it, written as JSON.
pub open spec fn answer(text: Seq<char>) -> ResponseView {
    success(reply_json(json_string_of(text), json_string_of(reply_of(text).response_type)))
}

/// The JSON string literal for `s`, as `serde_json` writes it.
pub uninterp spec fn json_string_of(s: Seq<char>) -> Seq<char>;

/// `serde_json::Error`, of which nothing is known here but that it is a
/// value.
#[verifier::external_type_specification]
#[verifier::external_body]
pub struct ExJsonError(serde_json::Error);

/// Calls `serde_json::to_string` on a string slice. The call writes the
/// JSON string literal for the argument into a vector; it fails only
/// where the value refuses to be serialized or the writer fails, and
/// neither a string slice nor a vector does. The literal depends on the
/// characters alone, and the contract gives it a name.
#[verifier::external_body]
fn json_string(s: &str) -> (literal: Result<String, serde_json::Error>)
    ensures
        literal is Ok,
        literal matches Ok(t) ==> t@ == json_string_of(s@),
{
    serde_json::to_string(s)
}

/// The JSON string literal for `s`.
fn json_literal(s: &str) -> (literal: String)
    ensures
        literal@ == json_string_of(s@),
{
    match json_string(s) {
        Ok(literal) => literal,
        Err(_) => unreached(),
    }
}

/// Formats the repositories for the chat, one line each, in the order
/// given.
pub fn prepare_response_body(repos: Vec<Repository>) -> (text: String)
    ensures
        text@ == formatted(views(repos@)),
{
    let ghost all = views(repos@);
    let mut text = String::new();
    let mut i: usize = 0;
    while i < repos.len()
        invariant
            i <= repos.len(),
            all == views(repos@),
            text@ == formatted(all.take(i as int)),
        decreases repos.len() - i,
    {
        let ghost before = text@;
        if i > 0 {
            text.append("\n");
        }
        let repo = &repos[i];
        text.append(repo.name.as_str());
        text.append(" by ");
        text.append(repo.owner.login.as_str());
        text.append(": ");
        text.append(repo.html_url.as_str());
        proof {
            let upto = all.take(i + 1);
            assert(upto.drop_last() =~= all.take(i as int));
            assert(upto.last() == repos@[i as int]@);
            if i > 0 {
                assert(text@ =~= before + "\n"@ + block(upto.last()));
            } else {
                assert(text@ =~= block(upto.last()));
            }
        }
        i += 1;
    }
    assert(all.take(i as int) =~= all);
    text
}

/// Puts `text` into the envelope, which is always shown in the channel.
pub fn wrap(text: String) -> (reply: SlackResponse)
    ensures
        reply@ == reply_of(text@),
{
    SlackResponse { text, response_type: "in_channel".to_owned() }
}

/// Writes the envelope as a JSON object from the literals of its two
/// members.
pub fn frame_reply(text_literal: &str, type_literal: &str) -> (json: String)
    ensures
        json@ == reply_json(text_literal@, type_literal@),
{
    let mut json = "{\"text\":".to_owned();
    json.append(text_literal);
    json.append(",\"response_type\":");
    json.append(type_literal);
    json.append("}");
    json
}

/// The envelope as JSON.
pub fn reply_body(reply: &SlackResponse) -> (json: String)
    ensures
        json@ == reply_json(json_string_of(reply@.text), json_string_of(reply@.response_type)),
{
    let text_literal = json_literal(reply.text.as_str());
    let type_literal = json_literal(reply.response_type.as_str());
    frame_reply(text_literal.as_str(), type_literal.as_str())
}

/// A response of `status` without content type or body.
pub fn empty_response(status: u16) -> (response: Response)
    ensures
        response@ == bare(status),
{
    Response { status, content_type: None, body: String::new() }
}

/// The successful response that carries `body` as JSON.
pub fn json_response(body: String) -> (response: Response)
    ensures
        response@ == success(body@),
{
    Response { status: 200, content_type: Some(ContentType::Json), body }
}

/// The response to a served command whose reply text is `text`.
pub fn prepare_response(text: String) -> (response: Response)
    ensures
        response@ == answer(text@),
{
    let reply = wrap(text);
    json_response(reply_body(&reply))
}

/// The envelope keeps the formatted text as it is and is always addressed
/// to the channel.
pub proof fn envelope_keeps_formatted_text(repos: Seq<RepositoryView>)
    ensures
        reply_of(formatted(repos)).text == formatted(repos),
        reply_of(formatted(repos)).response_type == "in_channel"@,
{
}

/// No repositories give the empty text.
pub proof fn nothing_formats_to_nothing()
    ensures
        formatted(Seq::empty()) == Seq::<char>::empty(),
{
}

} // verus!

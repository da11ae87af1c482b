//! The handling of one inbound command, as two decisions around the
//! search: what to do with the command, and what to answer once the
//! search has come back.

use vstd::prelude::*;
use vstd::string::*;
use crate::access::{authorized, check_access, Configuration};
use crate::reply::{
    answer, bare, empty_response, formatted, prepare_response, prepare_response_body, Response,
};
use crate::search::{views, ApiError, SearchCall, SearchResult, PAGE_SIZE};
use crate::text::{lowercase_of, to_lowercase, trim, trimmed};

verus! {

/// The fields of an inbound command that the service reads.
#[derive(Clone, Debug, PartialEq, Eq)]
pub struct SlackRequest {
    /// The words typed after the command.
    pub text: String,
    /// The caller's proof of origin.
    pub token: String,
}

/// What handling a command leads to: an answer at once, or a search
/// whose outcome decides the answer.
#[derive(Clone, Debug, PartialEq, Eq)]
pub enum Step {
    Respond(Response),
    Search(SearchCall),
}

/// The reply to a command without a search key.
pub open spec fn help_text() -> Seq<char> {
    "Specify repository name to search. For example: /hexocat linux"@
}

/// The reply when the search failed.
pub open spec fn failure_text() -> Seq<char> {
    "Oops, something went wrong."@
}

/// The key that is searched for: the typed text without surrounding
/// white space, in lower case.
pub open spec fn normalized(text: Seq<char>) -> Seq<char> {
    lowercase_of(trimmed(text))
}

/// Decides what to do with an inbound command; `None` stands for a body
/// that could not be read as a command. In this order: an unreadable
/// body is a client error, a command that is not authorized is
/// forbidden, one without a search key is answered with a hint, and any
/// other starts the search for its normalized key.
pub fn hexocat(request: Option<SlackRequest>, config: &Configuration) -> (step: Step)
    ensures
        match request {
            None => step matches Step::Respond(r) && r@ == bare(400),
            Some(command) => if !authorized(config.environment, config.token@, command.token@) {
                step matches Step::Respond(r) && r@ == bare(403)
            } else if trimmed(command.text@).len() == 0 {
                step matches Step::Respond(r) && r@ == answer(help_text())
            } else {
                step matches Step::Search(call) && call.query@ == normalized(command.text@)
                    && call.per_page == PAGE_SIZE
            },
        },
{
    let command = match request {
        Some(command) => command,
        None => {
            return Step::Respond(empty_response(400));
        },
    };
    if !check_access(config, command.token.clone()) {
        return Step::Respond(empty_response(403));
    }
    let key = trim(command.text.as_str());
    if key.is_empty() {
        return Step::Respond(
            prepare_response(
                "Specify repository name to search. For example: /hexocat linux".to_owned(),
            ),
        );
    }
    Step::Search(SearchCall::new(to_lowercase(key)))
}

/// Answers a command once its search has come back: the formatted
/// results, whatever their number, or the fixed apology where the search
/// failed.
pub fn complete(outcome: Result<SearchResult, ApiError>) -> (response: Response)
    ensures
        match outcome {
            Ok(found) => response@ == answer(formatted(views(found.items@))),
            Err(_) => response@ == answer(failure_text()),
        },
{
    let text = match outcome {
        Ok(found) => prepare_response_body(found.items),
        Err(_) => "Oops, something went wrong.".to_owned(),
    };
    prepare_response(text)
}

} // verus!

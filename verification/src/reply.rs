//! Replies: the uniform error shape, and the checks that every route shares.

use vstd::prelude::*;

use crate::domain::Thread;
use crate::json::{json_parse, member, object, parse, with_member, Fields, Json, Tree};
use crate::text::{
    blank, decimal_value, joined, joined3, opt_view, trim, trimmed, trimmed_empty_iff_blank,
};
use crate::wire::{lossy_text, utf8_lossy};

verus! {

/// What a route answers: a status and a JSON body.
#[derive(Debug, PartialEq, Eq)]
pub struct Reply {
    /// The HTTP status.
    pub status: u16,
    /// The body.
    pub body: Json,
}

/// A reply, as mathematics.
pub ghost struct ReplyView {
    /// The HTTP status.
    pub status: u16,
    /// The body.
    pub body: Tree,
}

impl View for Reply {
    type V = ReplyView;

    open spec fn view(&self) -> ReplyView {
        ReplyView { status: self.status, body: self.body@ }
    }
}

/// The code that an error status is reported under.
pub open spec fn status_code(status: u16) -> Seq<char> {
    if status == 401 {
        "unauthorized"@
    } else if status == 403 {
        "forbidden"@
    } else if status == 404 {
        "not_found"@
    } else if status == 409 {
        "conflict"@
    } else if status == 502 {
        "host_unavailable"@
    } else if status == 503 {
        "provider_unavailable"@
    } else if status == 504 {
        "command_timeout"@
    } else if status == 500 {
        "internal_error"@
    } else {
        "invalid_request"@
    }
}

/// An error body.
pub open spec fn error_tree(code: Seq<char>, message: Seq<char>) -> Tree {
    object().field("code"@, Tree::Str(code)).field("message"@, Tree::Str(message))
}

/// An error reply under a code of its own.
pub open spec fn coded_error(status: u16, code: Seq<char>, message: Seq<char>) -> ReplyView {
    ReplyView { status, body: error_tree(code, message) }
}

/// An error reply under the code of its status.
pub open spec fn plain_error(status: u16, message: Seq<char>) -> ReplyView {
    coded_error(status, status_code(status), message)
}

/// A reply that all went well.
pub open spec fn ok_view(body: Tree) -> ReplyView {
    ReplyView { status: 200, body }
}

/// The code that an error status is reported under.
pub fn error_code(status: u16) -> (result: &'static str)
    ensures
        result@ == status_code(status),
{
    match status {
        400 => "invalid_request",
        401 => "unauthorized",
        403 => "forbidden",
        404 => "not_found",
        409 => "conflict",
        422 => "invalid_request",
        502 => "host_unavailable",
        503 => "provider_unavailable",
        504 => "command_timeout",
        500 => "internal_error",
        _ => "invalid_request",
    }
}

/// An error reply under a code of its own.
pub fn error_response_with_code(status: u16, code: &str, message: String) -> (result: Reply)
    ensures
        result@ == coded_error(status, code@, message@),
{
    let body: Json = Fields::new().with("code", Json::text(code)).with(
        "message",
        Json::Str(message),
    ).object();
    Reply { status, body }
}

/// An error reply under the code of its status.
pub fn error_response(status: u16, message: String) -> (result: Reply)
    ensures
        result@ == plain_error(status, message@),
{
    error_response_with_code(status, error_code(status), message)
}

/// An error reply under a code of its own, with details.
pub fn error_response_with_details(
    status: u16,
    code: &str,
    message: String,
    details: Json,
) -> (result: Reply)
    ensures
        result@ == (ReplyView {
            status,
            body: error_tree(code@, message@).field("details"@, details@),
        }),
{
    let body: Json = Fields::new().with("code", Json::text(code)).with(
        "message",
        Json::Str(message),
    ).with("details", details).object();
    Reply { status, body }
}

/// A reply with a body.
pub fn ok(body: Json) -> (result: Reply)
    ensures
        result@ == ok_view(body@),
{
    Reply { status: 200, body }
}

/// The acknowledgement that archive, unarchive, delete and stop share.
pub fn lifecycle_ok() -> (result: Reply)
    ensures
        result@ == ok_view(object().field("ok"@, Tree::Bool(true))),
{
    ok(Fields::new().with("ok", Json::Bool(true)).object())
}

/// Why a command was refused.
#[derive(Debug, PartialEq, Eq)]
pub enum CommandError {
    /// What it names is not there.
    NotFound(String),
    /// It conflicts with the state.
    Conflict(String),
    /// One of its values is malformed.
    Invalid(String),
    /// Another rule of the domain refuses it.
    Domain(String),
}

/// Maps a command failure onto an HTTP status.
pub fn command_error_response(error: CommandError) -> (result: Reply)
    ensures
        result@ == (match error {
            CommandError::NotFound(message) => plain_error(404, message@),
            CommandError::Conflict(message) => plain_error(409, message@),
            CommandError::Invalid(message) => plain_error(400, message@),
            CommandError::Domain(message) => plain_error(409, message@),
        }),
{
    match error {
        CommandError::NotFound(message) => error_response(404, message),
        CommandError::Conflict(message) => error_response(409, message),
        CommandError::Invalid(message) => error_response(400, message),
        CommandError::Domain(message) => error_response(409, message),
    }
}

/// Why a thread is not a client resource, if it is not: a deleted thread is retained for replay
/// but no longer served.
pub open spec fn thread_refusal(thread: Option<Thread>, thread_id: Seq<char>) -> Option<ReplyView> {
    match thread {
        Some(thread) => if thread.deleted_at_ms is None {
            None
        } else {
            Some(
                coded_error(
                    404,
                    "thread_not_found"@,
                    "thread "@ + thread_id + " has been deleted"@,
                ),
            )
        },
        None => Some(plain_error(404, "thread "@ + thread_id + " is not known"@)),
    }
}

/// The thread as a client resource, or why it is none.
pub fn public_thread_or_response(thread: Option<Thread>, thread_id: &str) -> (result: Result<
    Thread,
    Reply,
>)
    ensures
        match thread_refusal(thread, thread_id@) {
            None => result is Ok && Some(result->Ok_0) == thread,
            Some(refusal) => result matches Err(reply) && reply@ == refusal,
        },
{
    match thread {
        Some(thread) => {
            if thread.deleted_at_ms.is_none() {
                Ok(thread)
            } else {
                Err(
                    error_response_with_code(
                        404,
                        "thread_not_found",
                        joined3("thread ", thread_id, " has been deleted"),
                    ),
                )
            }
        },
        None => Err(error_response(404, joined3("thread ", thread_id, " is not known"))),
    }
}

/// A text as `{:?}` spells it.
pub uninterp spec fn debug_quoted(text: Seq<char>) -> Seq<char>;

/// `str`'s `Debug`: the text in quotes with escapes, a fixed function of the text, named by
/// [`debug_quoted`].
#[verifier::external_body]
pub(crate) fn quoted(text: &str) -> (result: String)
    ensures
        result@ == debug_quoted(text@),
{
    format!("{text:?}")
}

/// Whether a character is a decimal digit.
pub open spec fn is_digit(c: char) -> bool {
    '0' <= c <= '9'
}

/// The number that a text spells: digits, after a plus sign at most.
pub open spec fn spelled_number(text: Seq<char>) -> Option<nat> {
    let digits = if text.len() > 0 && text[0] == '+' {
        text.drop_first()
    } else {
        text
    };
    if digits.len() > 0 && forall|i: int| 0 <= i < digits.len() ==> is_digit(#[trigger] digits[i]) {
        Some(decimal_value(digits))
    } else {
        None
    }
}

/// What `u64::from_str` says is wrong with a text.
pub uninterp spec fn number_error(text: Seq<char>) -> Seq<char>;

/// `u64::from_str`: the number that the text spells, an optional plus sign followed by digits
/// alone, where it fits; otherwise what is wrong with the text, named by [`number_error`].
#[verifier::external_body]
pub(crate) fn parse_number(text: &str) -> (result: Result<u64, String>)
    ensures
        match result {
            Ok(n) => spelled_number(text@) == Some(n as nat),
            Err(message) => message@ == number_error(text@) && (spelled_number(text@) is None
                || spelled_number(text@)->0 > u64::MAX),
        },
{
    text.parse::<u64>().map_err(|error| error.to_string())
}

/// What a query field says: nothing where it is absent or empty, else a number, else an error.
pub open spec fn query_number(raw: Option<Seq<char>>, field: Seq<char>) -> Result<
    Option<u64>,
    ReplyView,
> {
    match raw {
        None => Ok(None),
        Some(text) => if text.len() == 0 {
            Ok(None)
        } else if spelled_number(text) is Some && spelled_number(text)->0 <= u64::MAX {
            Ok(Some(spelled_number(text)->0 as u64))
        } else {
            Err(
                plain_error(
                    400,
                    "invalid "@ + field + " query value "@ + debug_quoted(text) + ": "@
                        + number_error(text),
                ),
            )
        },
    }
}

/// A parsed query field, as mathematics.
pub open spec fn parsed<T>(result: Result<T, Reply>) -> Result<T, ReplyView> {
    match result {
        Ok(value) => Ok(value),
        Err(reply) => Err(reply@),
    }
}

/// A sequence number, or any other number, of a query.
pub fn parse_query_sequence(raw: &Option<String>, field: &str) -> (result: Result<
    Option<u64>,
    Reply,
>)
    ensures
        parsed(result) == query_number(opt_view(*raw), field@),
{
    let text: &String = match raw {
        Some(text) => text,
        None => {
            return Ok(None);
        },
    };
    if text.as_str().is_empty() {
        return Ok(None);
    }
    match parse_number(text.as_str()) {
        Ok(n) => Ok(Some(n)),
        Err(problem) => {
            let mut message: String = joined3("invalid ", field, " query value ");
            message.append(quoted(text.as_str()).as_str());
            message.append(": ");
            message.append(problem.as_str());
            Err(error_response(400, message))
        },
    }
}

/// Whether a body already has the uniform error shape.
pub open spec fn error_shaped(body: Seq<u8>) -> bool {
    json_parse(body) matches Some(value) && value is Object && (member(value, "code"@) matches Some(
        code,
    ) && code is Str) && (member(value, "message"@) matches Some(message) && message is Str)
}

/// What an error reply of an API route is replaced with: nothing where it has the uniform shape
/// already, else that shape around its own text, or around its status where it says nothing.
pub fn normalize_api_error(status: u16, status_text: &str, body: &[u8]) -> (result: Option<Reply>)
    ensures
        error_shaped(body@) ==> result is None,
        !error_shaped(body@) ==> (result matches Some(reply) && reply@ == plain_error(
            status,
            if blank(utf8_lossy(body@)) {
                "request failed with status "@ + status_text@
            } else {
                trimmed(utf8_lossy(body@))
            },
        )),
{
    if let Some(value) = parse(body) {
        let coded: bool = match value.get("code") {
            Some(code) => code.as_str().is_some(),
            None => false,
        };
        let worded: bool = match value.get("message") {
            Some(message) => message.as_str().is_some(),
            None => false,
        };
        if value.is_object() && coded && worded {
            return None;
        }
    }
    let said: String = lossy_text(body);
    let message: String = trim(said.as_str());
    proof {
        trimmed_empty_iff_blank(said@);
    }
    if message.as_str().is_empty() {
        Some(error_response(status, joined("request failed with status ", status_text)))
    } else {
        Some(error_response(status, message))
    }
}

/// Whether a path is one of the API's.
pub open spec fn is_api_path(path: Seq<char>) -> bool {
    "/api/"@.len() <= path.len() && path.take("/api/"@.len() as int) == "/api/"@
}

/// Whether a reply is normalized at all: an error of an API route.
pub open spec fn spec_needs_normalizing(path: Seq<char>, status: u16) -> bool {
    is_api_path(path) && 400 <= status < 600
}

/// Whether a text begins with another.
pub fn starts_with(text: &str, prefix: &str) -> (result: bool)
    ensures
        result == (prefix@.len() <= text@.len() && text@.take(prefix@.len() as int) == prefix@),
{
    let chars: Vec<char> = crate::text::chars_of(text);
    let wanted: Vec<char> = crate::text::chars_of(prefix);
    if wanted.len() > chars.len() {
        return false;
    }
    for i in 0..wanted.len()
        invariant
            chars@ == text@,
            wanted@ == prefix@,
            wanted@.len() <= chars@.len(),
            forall|j: int| 0 <= j < i ==> #[trigger] wanted@[j] == chars@[j],
    {
        if chars[i] != wanted[i] {
            assert(text@.take(prefix@.len() as int)[i as int] != prefix@[i as int]);
            return false;
        }
    }
    assert(text@.take(prefix@.len() as int) =~= prefix@);
    true
}

/// Whether a reply is normalized at all: an error of an API route.
pub fn needs_normalizing(path: &str, status: u16) -> (result: bool)
    ensures
        result == spec_needs_normalizing(path@, status),
{
    starts_with(path, "/api/") && 400 <= status && status < 600
}

/// The request body that the contract is checked against. The levels that an agent names are its
/// own and not the contract's, so a body that carries one is checked with a legal one in its
/// place; one that carries none is checked as it is.
pub open spec fn masked(body: Tree) -> Tree {
    match body {
        Tree::Object(fields) => if member(body, "reasoningLevel"@) is Some {
            Tree::Object(with_member(fields, "reasoningLevel"@, Tree::Str("medium"@)))
        } else {
            body
        },
        _ => body,
    }
}

/// What the contract check does with a request body.
#[derive(Debug, PartialEq, Eq)]
pub enum ContractStep {
    /// The body is not JSON; the extractor says so.
    PassOn,
    /// Check this value against the route's schema.
    Check(Json),
}

/// The value to check against a route's schema, where the body is JSON.
pub fn validate_contract_request(body: &[u8]) -> (result: ContractStep)
    ensures
        match json_parse(body@) {
            None => result is PassOn,
            Some(value) => result matches ContractStep::Check(checked) && checked@ == masked(value),
        },
{
    match parse(body) {
        None => ContractStep::PassOn,
        Some(value) => {
            let carries: bool = value.get("reasoningLevel").is_some();
            if !carries {
                return ContractStep::Check(value);
            }
            match value.into_fields() {
                Some(fields) => ContractStep::Check(
                    fields.set("reasoningLevel", Json::text("medium")).object(),
                ),
                None => ContractStep::PassOn,
            }
        },
    }
}

/// The value to check against the automations' schemas, where the body is JSON: as it came.
pub fn validate_automation_request(body: &[u8]) -> (result: ContractStep)
    ensures
        match json_parse(body@) {
            None => result is PassOn,
            Some(value) => result matches ContractStep::Check(checked) && checked@ == value,
        },
{
    match parse(body) {
        None => ContractStep::PassOn,
        Some(value) => ContractStep::Check(value),
    }
}

/// The reply to a body that could not be read.
pub fn unreadable_body(error: &str) -> (result: Reply)
    ensures
        result@ == plain_error(400, "failed to read the request body: "@ + error@),
{
    error_response(400, joined("failed to read the request body: ", error))
}

/// The reply to a body that breaks the contract of a route.
pub fn contract_violation(route_id: &str, description: &str) -> (result: Reply)
    ensures
        result@ == coded_error(
            422,
            "invalid_request"@,
            "request body does not match the `"@ + route_id@ + "` contract: "@ + description@,
        ),
{
    let mut message: String = joined3(
        "request body does not match the `",
        route_id,
        "` contract: ",
    );
    message.append(description);
    error_response_with_code(422, "invalid_request", message)
}

/// The reply to a body that breaks the contract of the automations.
pub fn automation_violation(description: &str) -> (result: Reply)
    ensures
        result@ == coded_error(
            422,
            "invalid_request"@,
            "request body does not match the automations contract: "@ + description@,
        ),
{
    let mut message: String = "request body does not match the automations contract: ".to_owned();
    message.append(description);
    error_response_with_code(422, "invalid_request", message)
}

// What every answer promises.

/// Whether an answer refuses a request: with this status, this code and this message.
pub open spec fn refuses(
    answer: ReplyView,
    status: u16,
    code: Seq<char>,
    message: Seq<char>,
) -> bool {
    &&& answer.status == status
    &&& member(answer.body, "code"@) == Some(Tree::Str(code))
    &&& member(answer.body, "message"@) == Some(Tree::Str(message))
}

/// Every error says what is wrong: a code and a message, under the status it is given.
pub broadcast proof fn errors_say_what_is_wrong(status: u16, code: Seq<char>, message: Seq<char>)
    ensures
        refuses(#[trigger] coded_error(status, code, message), status, code, message),
{
    broadcast use crate::json::member_of_field;

    reveal_strlit("code");
    reveal_strlit("message");
    assert("code"@.len() == 4);
    assert("message"@.len() == 7);
}

/// An error without a code of its own has that of its status; every status without one is an
/// invalid request.
pub proof fn refusals_have_the_code_of_their_status(
    status: u16,
    message: String,
    answer: Reply,
)
    requires
        call_ensures(error_response, (status, message), answer),
    ensures
        status == 401 ==> refuses(answer@, 401, "unauthorized"@, message@),
        status == 403 ==> refuses(answer@, 403, "forbidden"@, message@),
        status == 404 ==> refuses(answer@, 404, "not_found"@, message@),
        status == 409 ==> refuses(answer@, 409, "conflict"@, message@),
        status == 500 ==> refuses(answer@, 500, "internal_error"@, message@),
        status == 502 ==> refuses(answer@, 502, "host_unavailable"@, message@),
        status == 503 ==> refuses(answer@, 503, "provider_unavailable"@, message@),
        status == 504 ==> refuses(answer@, 504, "command_timeout"@, message@),
        (status != 401 && status != 403 && status != 404 && status != 409 && status != 500 && status != 502 && status != 503 && status != 504) ==> refuses(answer@, status, "invalid_request"@, message@),
{
    broadcast use {crate::json::member_of_field, crate::reply::errors_say_what_is_wrong};

}

/// An error with a code of its own has that code, and details where there are any.
pub proof fn codes_are_as_given(
    status: u16,
    code: &str,
    message: String,
    details: Json,
    plain: Reply,
    detailed: Reply,
)
    requires
        call_ensures(error_response_with_code, (status, code, message), plain),
        call_ensures(error_response_with_details, (status, code, message, details), detailed),
    ensures
        refuses(plain@, status, code@, message@),
        refuses(detailed@, status, code@, message@),
        member(plain@.body, "details"@) is None,
        member(detailed@.body, "details"@) == Some(details@),
{
    broadcast use {crate::json::member_of_field, crate::reply::errors_say_what_is_wrong};

    reveal_strlit("code");
    reveal_strlit("details");
    reveal_strlit("message");
    assert("code"@.len() == 4);
    assert("details"@.len() == 7 && "details"@[0] == 'd');
    assert("message"@.len() == 7 && "message"@[0] == 'm');
}

/// What a command was refused for decides the status: what is unknown is not found, what does not
/// fit the state is a conflict, and what makes no sense is a bad request.
pub proof fn commands_fail_with_their_status(error: CommandError, answer: Reply)
    requires
        call_ensures(command_error_response, (error,), answer),
    ensures
        error matches CommandError::NotFound(message) ==> refuses(answer@, 404, "not_found"@, message@),
        error matches CommandError::Conflict(message) ==> refuses(answer@, 409, "conflict"@, message@),
        error matches CommandError::Domain(message) ==> refuses(answer@, 409, "conflict"@, message@),
        error matches CommandError::Invalid(message) ==> refuses(answer@, 400, "invalid_request"@, message@),
{
    broadcast use {crate::json::member_of_field, crate::reply::errors_say_what_is_wrong};

}

/// A success answers with what was asked for and the status of a success.
pub proof fn success_is_said_plainly(
    body: Json,
    answer: Reply,
    bare: Reply,
)
    requires
        call_ensures(ok, (body,), answer),
        call_ensures(lifecycle_ok, (), bare),
    ensures
        answer@.status == 200,
        answer@.body == body@,
        bare@.status == 200,
        member(bare@.body, "ok"@) == Some(Tree::Bool(true)),
{
    broadcast use {crate::json::member_of_field, crate::reply::errors_say_what_is_wrong};

    reveal_strlit("ok");
    assert("ok"@.len() == 2);
}

/// A thread is handed out exactly where it is known and was not deleted; the refusal says which of
/// the two it was.
pub proof fn deleted_threads_are_gone(
    thread: Option<Thread>,
    thread_id: &str,
    answer: Result<Thread, Reply>,
)
    requires
        call_ensures(public_thread_or_response, (thread, thread_id), answer),
    ensures
        answer is Ok <==> thread is Some && thread->0.deleted_at_ms is None,
        answer is Ok ==> thread == Some(answer->Ok_0),
        thread is None ==> answer is Err && refuses(answer->Err_0@, 404, "not_found"@, "thread "@ + thread_id@ + " is not known"@),
        thread is Some && thread->0.deleted_at_ms is Some ==> answer is Err && refuses(answer->Err_0@, 404, "thread_not_found"@, "thread "@ + thread_id@ + " has been deleted"@),
{
    broadcast use {crate::json::member_of_field, crate::reply::errors_say_what_is_wrong};

}

/// A number in a query is read where it is one, an empty one counts as none, and anything else is
/// refused by the name of its field.
pub proof fn query_numbers_are_read_or_refused(
    raw: Option<String>,
    field: &str,
    answer: Result<Option<u64>, Reply>,
)
    requires
        call_ensures(parse_query_sequence, (&raw, field), answer),
    ensures
        raw is None || raw->0@ == Seq::<char>::empty() ==> answer is Ok && answer->Ok_0 is None,
        (answer is Ok && answer->Ok_0 is Some) ==> raw is Some && spelled_number(raw->0@) == Some(answer->Ok_0->0 as nat),
        (raw is Some && raw->0@.len() > 0 && spelled_number(raw->0@) is Some && spelled_number(raw->0@)->0 <= u64::MAX) ==> answer is Ok && answer->Ok_0 is Some,
        (raw is Some && raw->0@.len() > 0 && (spelled_number(raw->0@) is None || spelled_number(raw->0@)->0 > u64::MAX)) ==> answer is Err && refuses(answer->Err_0@, 400, "invalid_request"@, "invalid "@ + field@ + " query value "@ + debug_quoted(raw->0@) + ": "@ + number_error(raw->0@)),
{
    broadcast use {crate::json::member_of_field, crate::reply::errors_say_what_is_wrong};

}

/// An error body that has a code and a message as texts stays; any other becomes an error of its
/// status that says what the body said, or the status where it said nothing.
pub proof fn errors_are_brought_into_shape(
    status: u16,
    status_text: &str,
    body: &[u8],
    answer: Option<Reply>,
)
    requires
        call_ensures(normalize_api_error, (status, status_text, body), answer),
    ensures
        answer is None <==> (json_parse(body@) matches Some(value) && (member(value, "code"@) matches Some(Tree::Str(_))) && (member(value, "message"@) matches Some(Tree::Str(_)))),
        answer is Some && blank(utf8_lossy(body@)) ==> refuses(answer->0@, status, status_code(status), "request failed with status "@ + status_text@),
        answer is Some && !blank(utf8_lossy(body@)) ==> refuses(answer->0@, status, status_code(status), trimmed(utf8_lossy(body@))),
{
    broadcast use {crate::json::member_of_field, crate::reply::errors_say_what_is_wrong};

}

/// Only what is under the API's path and failed is brought into shape.
pub proof fn only_api_errors_are_brought_into_shape(
    path: &str,
    status: u16,
    answer: bool,
)
    requires
        call_ensures(needs_normalizing, (path, status), answer),
    ensures
        answer <==> (400 <= status <= 599 && exists|rest: Seq<char>| path@ == #[trigger] ("/api/"@ + rest)),
{
    broadcast use {crate::json::member_of_field, crate::reply::errors_say_what_is_wrong};

    if answer {
        let rest = path@.skip("/api/"@.len() as int);
        assert(path@ =~= "/api/"@ + rest);
    }
    if exists|rest: Seq<char>| path@ == #[trigger] ("/api/"@ + rest) {
        let rest = choose|rest: Seq<char>| path@ == #[trigger] ("/api/"@ + rest);
        assert(path@.take("/api/"@.len() as int) =~= "/api/"@);
    }
}

/// What is held against the contract is the body itself, save that any reasoning level stands for a
/// known one. A body that is no JSON is passed on.
pub proof fn bodies_are_checked_as_they_are(
    body: &[u8],
    step: ContractStep,
    key: Seq<char>,
)
    requires
        call_ensures(validate_contract_request, (body,), step),
    ensures
        json_parse(body@) is None <==> step is PassOn,
        (json_parse(body@) is Some && !(json_parse(body@)->0 is Object)) ==> step->Check_0@ == json_parse(body@)->0,
        (json_parse(body@) is Some && json_parse(body@)->0 is Object && key != "reasoningLevel"@) ==> member(step->Check_0@, key) == member(json_parse(body@)->0, key),
        (json_parse(body@) is Some && json_parse(body@)->0 is Object && member(json_parse(body@)->0, "reasoningLevel"@) is Some) ==> member(step->Check_0@, "reasoningLevel"@) == Some(Tree::Str("medium"@)),
        (json_parse(body@) is Some && json_parse(body@)->0 is Object && member(json_parse(body@)->0, "reasoningLevel"@) is None) ==> step->Check_0@ == json_parse(body@)->0,
{
    broadcast use {crate::json::member_of_field, crate::reply::errors_say_what_is_wrong};

    if json_parse(body@) is Some && json_parse(body@)->0 is Object {
        let fields = json_parse(body@)->0->Object_0;
        crate::json::member_of_replaced(fields, "reasoningLevel"@, Tree::Str("medium"@), key);
        crate::json::member_of_replaced(
            fields,
            "reasoningLevel"@,
            Tree::Str("medium"@),
            "reasoningLevel"@,
        );
    }
}

/// The body of an automation request is held against its contract as it is.
pub proof fn automation_bodies_are_checked_untouched(body: &[u8], step: ContractStep)
    requires
        call_ensures(validate_automation_request, (body,), step),
    ensures
        json_parse(body@) is None <==> step is PassOn,
        json_parse(body@) is Some ==> step->Check_0@ == json_parse(body@)->0,
{
    broadcast use {crate::json::member_of_field, crate::reply::errors_say_what_is_wrong};

}

/// A body that breaks its contract cannot be processed, and the answer says which contract and how;
/// one that cannot be read is a bad request.
pub proof fn violations_name_the_contract(
    route_id: &str,
    description: &str,
    public: Reply,
    automation: Reply,
    unreadable: Reply,
)
    requires
        call_ensures(contract_violation, (route_id, description), public),
        call_ensures(automation_violation, (description,), automation),
        call_ensures(unreadable_body, (description,), unreadable),
    ensures
        refuses(public@, 422, "invalid_request"@, "request body does not match the `"@ + route_id@ + "` contract: "@ + description@),
        refuses(automation@, 422, "invalid_request"@, "request body does not match the automations contract: "@ + description@),
        refuses(unreadable@, 400, "invalid_request"@, "failed to read the request body: "@ + description@),
{
    broadcast use {crate::json::member_of_field, crate::reply::errors_say_what_is_wrong};

}

} // verus!

//! The one route of the service, `GET /resource_version_amount/{name}`:
//! what to do when a request arrives and when the store has answered.
//!
//! The transport is the caller's. It hands in what happened and carries
//! out what [`resource_version_amount`] says.

use vstd::prelude::*;
use vstd::string::StringExecFns;

use crate::count::{
    begin_count, count_page, prefix_of, step_of, CountError, CountStep, Counting, Page, StoreError,
};
use crate::validate::{
    alphanumeric_message, length_in_range, length_message, valid_name, validate_resource_name,
};

verus! {

/// The two ways in which a request is refused.
pub enum ErrorKind {
    /// The service failed; the caller is told no more than that.
    InternalError,
    /// The request is at fault; the text says how.
    BadRequest(String),
}

/// A refusal as it goes out: status code, content type and body.
pub struct Response {
    pub status: u16,
    pub content_type: &'static str,
    pub body: String,
}

/// The status code of each refusal.
pub open spec fn status_of(error: ErrorKind) -> u16 {
    match error {
        ErrorKind::InternalError => 500,
        ErrorKind::BadRequest(_) => 400,
    }
}

/// The text of each refusal. A failure of the service reads the same
/// whatever caused it.
pub open spec fn message_of(error: ErrorKind) -> Seq<char> {
    match error {
        ErrorKind::InternalError => "Internal Error"@,
        ErrorKind::BadRequest(reason) => "Bad Request: "@ + reason@,
    }
}

/// The content type of every refusal: plain text.
pub open spec fn plain_text() -> Seq<char> {
    "text/plain; charset=utf-8"@
}

/// The character of a decimal digit.
pub open spec fn digit_char(digit: nat) -> char {
    (digit + 48) as u8 as char
}

/// A number in decimal, without sign or leading zero.
pub open spec fn decimal(n: nat) -> Seq<char>
    decreases n,
{
    if n < 10 {
        seq![digit_char(n)]
    } else {
        decimal(n / 10).push(digit_char(n % 10))
    }
}

/// The text of one decimal digit.
fn digit_text(digit: u64) -> (text: &'static str)
    requires
        digit < 10,
    ensures
        text@ == seq![digit_char(digit as nat)],
{
    proof {
        reveal_strlit("0");
        reveal_strlit("1");
        reveal_strlit("2");
        reveal_strlit("3");
        reveal_strlit("4");
        reveal_strlit("5");
        reveal_strlit("6");
        reveal_strlit("7");
        reveal_strlit("8");
        reveal_strlit("9");
    }
    let text = match digit {
        0 => "0",
        1 => "1",
        2 => "2",
        3 => "3",
        4 => "4",
        5 => "5",
        6 => "6",
        7 => "7",
        8 => "8",
        _ => "9",
    };
    assert(text@ =~= seq![digit_char(digit as nat)]);
    text
}

/// Writes a number in decimal, without sign or leading zero.
pub fn decimal_text(n: u64) -> (text: String)
    ensures
        text@ == decimal(n as nat),
    decreases n,
{
    if n < 10 {
        digit_text(n).to_owned()
    } else {
        decimal_text(n / 10).concat(digit_text(n % 10))
    }
}

/// What was logged when the store failed: the reason, for the operator
/// only.
pub open spec fn failure_log(reason: Seq<char>) -> Seq<char> {
    "Error while listing resource amount: "@ + reason
}

impl ErrorKind {
    /// The HTTP status code: 500 for a failure of the service, 400 for a
    /// request at fault.
    pub fn status_code(&self) -> (status: u16)
        ensures
            status == status_of(*self),
    {
        match self {
            ErrorKind::InternalError => 500,
            ErrorKind::BadRequest(_) => 400,
        }
    }

    /// The text of the refusal, which is also the body of the response.
    pub fn message(&self) -> (text: String)
        ensures
            text@ == message_of(*self),
    {
        match self {
            ErrorKind::InternalError => "Internal Error".to_string(),
            ErrorKind::BadRequest(reason) => "Bad Request: ".to_string().concat(reason.as_str()),
        }
    }

    /// The response that carries the refusal: its status code, plain text
    /// and its message as the body.
    pub fn error_response(&self) -> (response: Response)
        ensures
            response.status == status_of(*self),
            response.content_type@ == plain_text(),
            response.body@ == message_of(*self),
    {
        Response {
            status: self.status_code(),
            content_type: "text/plain; charset=utf-8",
            body: self.message(),
        }
    }
}

/// What has happened to a request.
pub enum RequestEvent {
    /// It has arrived, for the resource of this name.
    Arrived(String),
    /// The page that the count asked for has come back, or the store has
    /// failed.
    Listed(Counting, Result<Page, StoreError>),
}

/// What to do about a request.
pub enum RequestAction {
    /// Fetch the page that the count asks for and come back with the
    /// outcome.
    List(Counting),
    /// Answer `200 OK` with this body.
    Reply(String),
    /// Answer with this refusal. Where `log` holds a line, write it to
    /// the service's own log first; it never goes to the caller.
    Refuse { error: ErrorKind, log: Option<String> },
}

/// What to do about a request that has arrived: list under the name's
/// prefix where the name is valid, else refuse with the rule it breaks.
pub open spec fn on_arrival(name: Seq<char>, action: RequestAction) -> bool {
    if valid_name(name) {
        &&& action matches RequestAction::List(counting)
        &&& counting.prefix@ == prefix_of(name)
        &&& counting.continuation_token is None
        &&& counting.total == 0
    } else {
        &&& action matches RequestAction::Refuse { error: ErrorKind::BadRequest(reason), log: None }
        &&& reason@ == if length_in_range(name.len()) {
            alphanumeric_message()
        } else {
            length_message()
        }
    }
}

/// What to do once the store has answered: go on where the listing goes
/// on, reply with the count in decimal where it is exhausted, and on a
/// failure refuse without detail and log the reason.
pub open spec fn on_listing(
    counting: Counting,
    outcome: Result<Page, StoreError>,
    action: RequestAction,
) -> bool {
    match step_of(counting, outcome) {
        CountStep::Next(next) => action == RequestAction::List(next),
        CountStep::Done(total) => action matches RequestAction::Reply(body) && body@ == decimal(
            total as nat,
        ),
        CountStep::Failed(_) => {
            &&& action matches RequestAction::Refuse {
                error: ErrorKind::InternalError,
                log: Some(line),
            }
            &&& line@ == failure_log(outcome->Err_0.reason@)
        },
    }
}

/// Handles the route one event at a time.
///
/// On arrival the name is validated; a name that fails is refused with
/// `400` and the message of the rule it breaks, and nothing is asked of
/// the store. A valid name starts the count. Each page that comes back
/// is added to the count; after the last one the reply is the total in
/// decimal. If the store fails, the refusal is `500` with a body that
/// says nothing of the cause, and the cause goes to the log.
///
/// The total must stay within `u64`.
pub fn resource_version_amount(event: RequestEvent) -> (action: RequestAction)
    requires
        event matches RequestEvent::Listed(counting, Ok(page)) ==> counting.total + page.entries
            <= u64::MAX,
    ensures
        match event {
            RequestEvent::Arrived(name) => on_arrival(name@, action),
            RequestEvent::Listed(counting, outcome) => on_listing(counting, outcome, action),
        },
{
    match event {
        RequestEvent::Arrived(name) => match validate_resource_name(name.as_str()) {
            Ok(()) => RequestAction::List(begin_count(name.as_str())),
            Err(reason) => RequestAction::Refuse { error: ErrorKind::BadRequest(reason), log: None },
        },
        RequestEvent::Listed(counting, outcome) => {
            match count_page(counting, outcome) {
                CountStep::Next(next) => RequestAction::List(next),
                CountStep::Done(total) => RequestAction::Reply(decimal_text(total)),
                CountStep::Failed(error) => {
                    let line = match error {
                        CountError::Store(failure) => {
                            "Error while listing resource amount: ".to_string().concat(
                                failure.reason.as_str(),
                            )
                        },
                    };
                    RequestAction::Refuse { error: ErrorKind::InternalError, log: Some(line) }
                },
            }
        },
    }
}

} // verus!

//! HTTP responses, as far as they are read.

use vstd::prelude::*;

verus! {

/// The number of a status, followed by its customary description.
pub uninterp spec fn status_text(code: u16) -> Seq<char>;

/// Calls `reqwest::StatusCode::from_u16` and prints the status. The text depends on the number
/// alone, and [`status_text`] names it.
#[verifier::external_body]
fn print_status(code: u16) -> (text: String)
    requires
        100 <= code <= 999,
    ensures
        text@ == status_text(code),
{
    reqwest::StatusCode::from_u16(code).unwrap().to_string()
}

/// The status of a response: a number of three digits.
#[derive(Debug)]
pub struct StatusCode {
    code: u16,
}

impl View for StatusCode {
    type V = u16;

    closed spec fn view(&self) -> u16 {
        self.code
    }
}

impl StatusCode {
    #[verifier::type_invariant]
    spec fn has_three_digits(self) -> bool {
        100 <= self.code <= 999
    }

    /// The status of that number.
    pub fn from_u16(code: u16) -> (status: Option<StatusCode>)
        ensures
            match status {
                Some(s) => s@ == code && 100 <= code <= 999,
                None => code < 100 || 999 < code,
            },
    {
        if 100 <= code && code <= 999 {
            Some(StatusCode { code })
        } else {
            None
        }
    }

    /// The number of the status.
    pub fn as_u16(&self) -> (code: u16)
        ensures
            code == self@,
            100 <= code <= 999,
    {
        proof {
            use_type_invariant(self);
        }
        self.code
    }

    /// Whether the request was carried out.
    pub fn is_success(&self) -> (success: bool)
        ensures
            success == (200 <= self@ < 300),
    {
        200 <= self.code && self.code < 300
    }

    /// Whether what was asked for does not exist.
    pub fn is_not_found(&self) -> (missing: bool)
        ensures
            missing == (self@ == 404),
    {
        self.code == 404
    }

    /// The number of the status and its customary description.
    pub fn text(&self) -> (text: String)
        ensures
            text@ == status_text(self@),
    {
        proof {
            use_type_invariant(self);
        }
        print_status(self.code)
    }
}

/// The body of a response that tells of a failure.
#[derive(Debug)]
pub struct ErrorBody {
    pub text: String,
    /// The message in the text, where the text is JSON that holds one.
    pub message: Option<String>,
}

/// What came of a request: a `T` if all went well.
#[derive(Debug)]
pub enum Reply<T> {
    /// No response came.
    Unanswered(String),
    /// A response whose status is a success; its body could be read or not.
    Success(Result<T, String>),
    /// A response whose status is no success; its body could be read or not.
    Failure { url: String, status: StatusCode, body: Result<ErrorBody, String> },
}

/// A status is known by its number, and every number of three digits is one.
pub proof fn statuses_keep_their_number(code: u16, status: Option<StatusCode>, number: u16)
    requires
        call_ensures(StatusCode::from_u16, (code,), status),
        status matches Some(s) ==> call_ensures(StatusCode::as_u16, (&s,), number),
    ensures
        status is Some <==> 100 <= code < 1000,
        status is Some ==> number == code,
{
}

/// A request was carried out where the number of the status begins with a two, and what it asked
/// for does not exist where the number is 404.
pub proof fn statuses_are_told_apart(status: &StatusCode, number: u16, success: bool, missing: bool)
    requires
        call_ensures(StatusCode::as_u16, (status,), number),
        call_ensures(StatusCode::is_success, (status,), success),
        call_ensures(StatusCode::is_not_found, (status,), missing),
    ensures
        success <==> number / 100 == 2,
        missing <==> number == 404,
{
}

/// A status is described by what is customary for its number.
pub proof fn statuses_are_described_by_their_number(status: &StatusCode, number: u16, text: String)
    requires
        call_ensures(StatusCode::as_u16, (status,), number),
        call_ensures(StatusCode::text, (status,), text),
    ensures
        text@ == status_text(number),
{
}

} // verus!

//! HTTP status codes, classified and printed by `reqwest`.

use vstd::prelude::*;
use vstd::pervasive::unreached;

verus! {

/// What `reqwest::StatusCode` prints for the status with number `code`:
/// the number, a space and the reason phrase registered for it, or a
/// placeholder where none is registered. The table of phrases is
/// `reqwest`'s, so the text is only named here. Meaningful for
/// `100 <= code <= 999`.
pub uninterp spec fn status_display(code: u16) -> Seq<char>;

/// Calls `reqwest::StatusCode::is_success` on the status made by
/// `reqwest::StatusCode::from_u16`. A status exists for numbers from 100 to
/// 999 and is a success from 200 to 299, so the answer is `true` exactly
/// for those.
#[verifier::external_body]
fn reqwest_is_success(code: u16) -> (ok: bool)
    ensures
        ok == (200 <= code < 300),
{
    match reqwest::StatusCode::from_u16(code) {
        Ok(status) => status.is_success(),
        Err(_) => false,
    }
}

/// Formats the status made by `reqwest::StatusCode::from_u16` with its
/// `Display` impl. A status exists exactly for numbers from 100 to 999;
/// its text depends on the number alone and is named `status_display`.
#[verifier::external_body]
fn reqwest_display(code: u16) -> (text: Option<String>)
    ensures
        text is Some == (100 <= code <= 999),
        text matches Some(t) ==> t@ == status_display(code),
{
    match reqwest::StatusCode::from_u16(code) {
        Ok(status) => Some(format!("{}", status)),
        Err(_) => None,
    }
}

/// The status code of an HTTP response: a number from 100 to 999.
#[derive(Clone, Copy, Debug, PartialEq, Eq, Structural)]
pub struct HttpStatus {
    code: u16,
}

impl View for HttpStatus {
    type V = u16;

    closed spec fn view(&self) -> u16 {
        self.code
    }
}

impl HttpStatus {
    #[verifier::type_invariant]
    spec fn in_range(self) -> bool {
        100 <= self.code <= 999
    }

    /// The status with number `code`, if there is one.
    pub fn new(code: u16) -> (status: Option<HttpStatus>)
        ensures
            status is Some == (100 <= code <= 999),
            status matches Some(s) ==> s@ == code,
    {
        if 100 <= code && code <= 999 {
            Some(HttpStatus { code })
        } else {
            None
        }
    }

    /// The number of the status.
    pub fn code(&self) -> (code: u16)
        ensures
            code == self@,
            100 <= code <= 999,
    {
        proof {
            use_type_invariant(self);
        }
        self.code
    }

    /// Whether the status reports success: a number from 200 to 299.
    pub fn is_success(&self) -> (ok: bool)
        ensures
            ok == (200 <= self@ < 300),
    {
        reqwest_is_success(self.code)
    }

    /// The status as `reqwest` prints it, such as `404 Not Found`.
    pub fn describe(&self) -> (text: String)
        ensures
            text@ == status_display(self@),
    {
        proof {
            use_type_invariant(self);
        }
        match reqwest_display(self.code) {
            Some(text) => text,
            None => unreached(),
        }
    }
}

} // verus!

//! One fetch: a GET request, the status of the response, and the body
//! decoded. The transport is not here. Whoever drives it sends the request,
//! hands the status to [`on_response`], reads the body only if that says so,
//! and hands the body to [`on_body`]. Where the whole answer is at hand,
//! [`fetch_data`] does both steps.

use vstd::prelude::*;

use crate::decode::Decode;
use crate::error::{DecodeError, FetchError};
use crate::json::{json_text, Json};
use crate::status::{is_status_code, is_success_code, Status};

verus! {

broadcast use {Status::lemma_known_by_number, Status::lemma_number_of};

/// Why a fetch ends once the response has arrived or failed to arrive, and
/// `None` where it goes on to the body. `head` is the status code of the
/// response, and `None` where the transport gave no response. A number that
/// is no status code is no response either.
pub open spec fn head_failure(head: Option<u16>) -> Option<FetchError> {
    match head {
        None => Some(FetchError::Network),
        Some(code) => if !is_status_code(code) {
            Some(FetchError::Network)
        } else if is_success_code(code) {
            None
        } else {
            Some(FetchError::Http(Status::of(code)))
        },
    }
}

/// What the body of a successful response gives. `body` is `None` where the
/// body could not be read to its end.
pub open spec fn body_outcome<T: Decode>(body: Option<Seq<u8>>) -> Result<T::Model, FetchError> {
    match body {
        None => Err(FetchError::Decode(DecodeError::Unread)),
        Some(text) => match json_text(text) {
            None => Err(FetchError::Decode(DecodeError::Syntax)),
            Some(json) => match T::decoded(json) {
                Ok(record) => Ok(record),
                Err(e) => Err(FetchError::Decode(e)),
            },
        },
    }
}

/// What a whole fetch gives: the failure that the response brings, or else
/// what its body gives.
pub open spec fn fetch_outcome<T: Decode>(head: Option<u16>, body: Option<Seq<u8>>) -> Result<
    T::Model,
    FetchError,
> {
    match head_failure(head) {
        Some(e) => Err(e),
        None => body_outcome::<T>(body),
    }
}

/// Decides what follows the sending of the request. `Ok` says that the body
/// is to be read; an error ends the fetch, and the body is left unread.
pub fn on_response(head: Option<u16>) -> (r: Result<(), FetchError>)
    ensures
        r == match head_failure(head) {
            Some(e) => Err::<(), FetchError>(e),
            None => Ok(()),
        },
{
    match head {
        None => Err(FetchError::Network),
        Some(code) => match Status::new(code) {
            None => Err(FetchError::Network),
            Some(status) => if status.is_success() {
                Ok(())
            } else {
                Err(FetchError::Http(status))
            },
        },
    }
}

/// Decodes the body of a successful response, which ends the fetch.
pub fn on_body<T: Decode>(body: Option<&[u8]>) -> (r: Result<T, FetchError>)
    ensures
        body_outcome::<T>(
            match body {
                Some(text) => Some(text@),
                None => None,
            },
        ) == match r {
            Ok(record) => Ok(record.model()),
            Err(e) => Err(e),
        },
{
    let text = match body {
        Some(text) => text,
        None => {
            return Err(FetchError::Decode(DecodeError::Unread));
        },
    };
    let json = match Json::parse(text) {
        Ok(json) => json,
        Err(e) => {
            return Err(FetchError::Decode(e));
        },
    };
    match T::decode(&json) {
        Ok(record) => Ok(record),
        Err(e) => Err(FetchError::Decode(e)),
    }
}

/// Runs a whole fetch on what the transport has to tell: the status of the
/// response, if one came, and its body, if it was read to its end. The body
/// counts only where the response lets the fetch go on.
pub fn fetch_data<T: Decode>(head: Option<u16>, body: Option<&[u8]>) -> (r: Result<T, FetchError>)
    ensures
        fetch_outcome::<T>(
            head,
            match body {
                Some(text) => Some(text@),
                None => None,
            },
        ) == match r {
            Ok(record) => Ok(record.model()),
            Err(e) => Err(e),
        },
{
    match on_response(head) {
        Ok(()) => on_body::<T>(body),
        Err(e) => Err(e),
    }
}

/// A response with a status outside 200 to 299 ends the fetch with that
/// status, whatever its body holds, and never with a decode error.
pub proof fn lemma_failure_status_is_reported<T: Decode>(code: u16, body: Option<Seq<u8>>)
    requires
        is_status_code(code),
        !is_success_code(code),
    ensures
        fetch_outcome::<T>(Some(code), body) == Err::<T::Model, FetchError>(
            FetchError::Http(Status::of(code)),
        ),
        !(fetch_outcome::<T>(Some(code), body) matches Err(FetchError::Decode(_))),
{
}

/// A successful response whose body is no JSON text ends the fetch with a
/// decode error: no record comes out of it.
pub proof fn lemma_malformed_body_is_decode_error<T: Decode>(code: u16, text: Seq<u8>)
    requires
        is_success_code(code),
        json_text(text) is None,
    ensures
        fetch_outcome::<T>(Some(code), Some(text)) == Err::<T::Model, FetchError>(
            FetchError::Decode(DecodeError::Syntax),
        ),
{
}

/// A fetch gives records only where the response was successful and its body
/// was read, was a JSON text and had the shape of the records: there is no
/// result made of a part of the body.
pub proof fn lemma_success_is_whole<T: Decode>(head: Option<u16>, body: Option<Seq<u8>>)
    requires
        fetch_outcome::<T>(head, body) is Ok,
    ensures
        head matches Some(code) && is_success_code(code),
        body matches Some(text) && json_text(text) matches Some(json) && T::decoded(json)
            == Ok::<T::Model, DecodeError>(fetch_outcome::<T>(head, body)->Ok_0),
{
}

} // verus!

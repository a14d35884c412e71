//! What a caller makes of the answer to its request.
//!
//! A caller waits on a slot that yields one response or closes empty. A closed
//! slot means the connection is gone. A response that reports failure is an
//! error and carries the adapter's message. A response that reports success is
//! read into the shape that the command declares; a missing body stands for the
//! empty form of that shape, and a body of another shape is an error of its
//! own kind.

use crate::json::json_null;
use crate::protocol::Response;
use vstd::prelude::*;

verus! {

/// Why a request has no result.
#[derive(Debug)]
pub enum RequestError {
    /// The slot closed before a response came: the connection is lost.
    ConnectionLost,
    /// The adapter answered that the request failed.
    Failed { message: Option<String> },
    /// The adapter answered with success, and the body is not of the shape
    /// that the command declares.
    Decode(serde_json::Error),
    /// An answer was handed in for a request that the client is not waiting
    /// on.
    NotAwaited,
}

/// The capabilities that `serde_json::from_value` reads from a body, where
/// it reads any.
pub uninterp spec fn capabilities_in(body: serde_json::Value) -> Option<dap_types::Capabilities>;

/// The breakpoints that `serde_json::from_value` reads from the body of a
/// `setBreakpoints` response, each with its `verified` flag before it, where
/// it reads any.
pub uninterp spec fn breakpoints_in(body: serde_json::Value) -> Option<
    Seq<(bool, dap_types::Breakpoint)>,
>;

/// The `allThreadsContinued` attribute that `serde_json::from_value` reads
/// from the body of a `continue` response, where the body has that shape.
pub uninterp spec fn all_threads_continued_in(body: serde_json::Value) -> Option<Option<bool>>;

/// `serde_json::from_value` at the unit type, which is the result of every
/// command that answers with no body: it accepts `null` and nothing else.
#[verifier::external_body]
fn unit_from(body: serde_json::Value) -> (shape: Result<(), serde_json::Error>)
    ensures
        shape is Ok <==> json_null(body),
{
    serde_json::from_value::<()>(body)
}

/// `serde_json::from_value` at `dap_types::Capabilities`: what it reads is a
/// function of the body, named `capabilities_in`.
#[verifier::external_body]
fn capabilities_from(body: serde_json::Value) -> (shape: Result<
    dap_types::Capabilities,
    serde_json::Error,
>)
    ensures
        shape matches Ok(capabilities) ==> capabilities_in(body) == Some(capabilities),
        shape is Err ==> capabilities_in(body) is None,
{
    serde_json::from_value::<dap_types::Capabilities>(body)
}

/// `serde_json::from_value` at `dap_types::SetBreakpointsResponse`: what it
/// reads is a function of the body, named `breakpoints_in`. Each breakpoint is
/// handed out with its own `verified` flag before it.
#[verifier::external_body]
fn breakpoints_from(body: serde_json::Value) -> (shape: Result<
    Vec<(bool, dap_types::Breakpoint)>,
    serde_json::Error,
>)
    ensures
        shape matches Ok(list) ==> breakpoints_in(body) == Some(list@),
        shape is Err ==> breakpoints_in(body) is None,
{
    let response = serde_json::from_value::<dap_types::SetBreakpointsResponse>(body)?;
    Ok(response.breakpoints.into_iter().map(|b| (b.verified, b)).collect())
}

/// `serde_json::from_value` at `dap_types::ContinueResponse`: what it reads
/// is a function of the body, named `all_threads_continued_in`.
#[verifier::external_body]
fn continue_from(body: serde_json::Value) -> (shape: Result<Option<bool>, serde_json::Error>)
    ensures
        shape matches Ok(all) ==> all_threads_continued_in(body) == Some(all),
        shape is Err ==> all_threads_continued_in(body) is None,
{
    let response = serde_json::from_value::<dap_types::ContinueResponse>(body)?;
    Ok(response.all_threads_continued)
}

/// Whether these are the capabilities of an adapter that reports none:
/// every attribute absent, as `Capabilities::default` of `dap_types` makes
/// them.
pub uninterp spec fn reports_none(capabilities: dap_types::Capabilities) -> bool;

/// `Capabilities::default`: the capabilities of an adapter that reports
/// none.
pub assume_specification[ <dap_types::Capabilities as core::default::Default>::default ]() -> (none:
    dap_types::Capabilities)
    ensures
        reports_none(none),
;

/// The body that a reply stands for, before any shape is read from it.
pub open spec fn body_in(reply: Option<Response>) -> Result<Option<serde_json::Value>, RequestError> {
    match reply {
        None => Err(RequestError::ConnectionLost),
        Some(response) => if response.success {
            Ok(response.body)
        } else {
            Err(RequestError::Failed { message: response.message })
        },
    }
}

/// The first step for every command. `reply` is what the caller's slot
/// yielded: `None` where it closed empty.
pub fn body_of(reply: Option<Response>) -> (body: Result<Option<serde_json::Value>, RequestError>)
    ensures
        body == body_in(reply),
{
    match reply {
        None => Err(RequestError::ConnectionLost),
        Some(response) => if response.success {
            Ok(response.body)
        } else {
            Err(RequestError::Failed { message: response.message })
        },
    }
}

/// The result of reading a shape: the value, or the decode error that wraps
/// what the reader said.
pub fn decoded<T>(shape: Result<T, serde_json::Error>) -> (result: Result<T, RequestError>)
    ensures
        shape matches Ok(value) ==> result == Ok::<T, RequestError>(value),
        shape matches Err(e) ==> result == Err::<T, RequestError>(RequestError::Decode(e)),
{
    match shape {
        Ok(value) => Ok(value),
        Err(e) => Err(RequestError::Decode(e)),
    }
}

/// The breakpoints that the adapter verified: those of `answered` whose flag
/// is set, in the adapter's order.
pub open spec fn verified_among(answered: Seq<(bool, dap_types::Breakpoint)>) -> Seq<
    dap_types::Breakpoint,
> {
    answered.filter(|b: (bool, dap_types::Breakpoint)| b.0).map_values(
        |b: (bool, dap_types::Breakpoint)| b.1,
    )
}

/// Keeps the breakpoints that the adapter verified, in the adapter's order.
pub fn keep_verified(answered: Vec<(bool, dap_types::Breakpoint)>) -> (verified: Vec<
    dap_types::Breakpoint,
>)
    ensures
        verified@ == verified_among(answered@),
{
    let mut verified: Vec<dap_types::Breakpoint> = Vec::new();
    let ghost all = answered@;
    for entry in it: answered
        invariant
            it.seq() == all,
            verified@ == verified_among(all.take(it.index() as int)),
    {
        proof {
            let seen = all.take(it.index() as int);
            lemma_verified_among_push(seen, entry);
            assert(all.take(it.index() + 1) =~= seen.push(entry));
        }
        if entry.0 {
            verified.push(entry.1);
        }
    }
    proof {
        assert(verified_among(Seq::empty()) =~= Seq::empty());
        assert(all.take(all.len() as int) =~= all);
    }
    verified
}

proof fn lemma_verified_among_push(
    answered: Seq<(bool, dap_types::Breakpoint)>,
    entry: (bool, dap_types::Breakpoint),
)
    ensures
        verified_among(answered.push(entry)) == if entry.0 {
            verified_among(answered).push(entry.1)
        } else {
            verified_among(answered)
        },
{
    let flagged = |b: (bool, dap_types::Breakpoint)| b.0;
    reveal(Seq::filter);
    assert(answered.push(entry).drop_last() =~= answered);
    if entry.0 {
        assert(answered.push(entry).filter(flagged) == answered.filter(flagged).push(entry));
        assert(verified_among(answered.push(entry)) =~= verified_among(answered).push(entry.1));
    }
}

/// Whether `result` is what a command that declares no result makes of
/// `reply`.
pub open spec fn acknowledges(reply: Option<Response>, result: Result<(), RequestError>) -> bool {
    match body_in(reply) {
        Err(e) => result == Err::<(), RequestError>(e),
        Ok(None) => result is Ok,
        Ok(Some(body)) => if json_null(body) {
            result is Ok
        } else {
            result is Err && result->Err_0 is Decode
        },
    }
}

/// The answer to a command that declares no result, such as `launch` or
/// `next`: success with no body, or with `null` for a body.
pub fn acknowledged(reply: Option<Response>) -> (result: Result<(), RequestError>)
    ensures
        acknowledges(reply, result),
{
    match body_of(reply) {
        Err(e) => Err(e),
        Ok(None) => Ok(()),
        Ok(Some(body)) => decoded(unit_from(body)),
    }
}

/// Whether `result` is what `initialize` makes of `reply`.
pub open spec fn reads_capabilities(
    reply: Option<Response>,
    result: Result<dap_types::Capabilities, RequestError>,
) -> bool {
    match body_in(reply) {
        Err(e) => result == Err::<dap_types::Capabilities, RequestError>(e),
        Ok(None) => result is Ok && reports_none(result->Ok_0),
        Ok(Some(body)) => match capabilities_in(body) {
            Some(capabilities) => result == Ok::<dap_types::Capabilities, RequestError>(
                capabilities,
            ),
            None => result is Err && result->Err_0 is Decode,
        },
    }
}

/// The answer to `initialize`: the adapter's capabilities. A success with no
/// body stands for an adapter that reports none.
pub fn capabilities_of(reply: Option<Response>) -> (result: Result<
    dap_types::Capabilities,
    RequestError,
>)
    ensures
        reads_capabilities(reply, result),
{
    match body_of(reply) {
        Err(e) => Err(e),
        Ok(None) => Ok(dap_types::Capabilities::default()),
        Ok(Some(body)) => decoded(capabilities_from(body)),
    }
}

/// The breakpoints of `answered` without their flags: the adapter's list as
/// it answered it, every breakpoint, in the adapter's order.
pub fn as_answered(answered: Vec<(bool, dap_types::Breakpoint)>) -> (list: Vec<
    dap_types::Breakpoint,
>)
    ensures
        list@ == answered@.map_values(|b: (bool, dap_types::Breakpoint)| b.1),
{
    let mut list: Vec<dap_types::Breakpoint> = Vec::new();
    let ghost all = answered@;
    for entry in it: answered
        invariant
            it.seq() == all,
            list@ == all.take(it.index() as int).map_values(
                |b: (bool, dap_types::Breakpoint)| b.1,
            ),
    {
        proof {
            let seen = all.take(it.index() as int);
            assert(all.take(it.index() + 1) =~= seen.push(entry));
            assert(seen.push(entry).map_values(|b: (bool, dap_types::Breakpoint)| b.1)
                =~= seen.map_values(|b: (bool, dap_types::Breakpoint)| b.1).push(entry.1));
        }
        list.push(entry.1);
    }
    proof {
        assert(all.take(all.len() as int) =~= all);
    }
    list
}

/// The answer to `setBreakpoints`: the adapter's list of breakpoints as it
/// answered it, unverified ones included, none added, none dropped, none
/// reordered. This list, not the list that was asked for, says which
/// breakpoints stand. A success with no body answers none.
pub fn verified_breakpoints(reply: Option<Response>) -> (result: Result<
    Vec<dap_types::Breakpoint>,
    RequestError,
>)
    ensures
        body_in(reply) matches Err(e) ==> result == Err::<Vec<dap_types::Breakpoint>, RequestError>(
            e,
        ),
        body_in(reply) matches Ok(None) ==> (result matches Ok(list) && list@.len() == 0),
        body_in(reply) matches Ok(Some(body)) ==> match breakpoints_in(body) {
            Some(answered) => (result matches Ok(list) && list@ == answered.map_values(
                |b: (bool, dap_types::Breakpoint)| b.1,
            )),
            None => result is Err && result->Err_0 is Decode,
        },
{
    match body_of(reply) {
        Err(e) => Err(e),
        Ok(None) => Ok(Vec::new()),
        Ok(Some(body)) => match decoded(breakpoints_from(body)) {
            Ok(answered) => Ok(as_answered(answered)),
            Err(e) => Err(e),
        },
    }
}

/// The answer to `setBreakpoints`, for a caller that draws only what
/// stands: those breakpoints of the adapter's list that the adapter marked
/// as verified, in the adapter's order. A success with no body verifies none.
pub fn only_verified_breakpoints(reply: Option<Response>) -> (result: Result<
    Vec<dap_types::Breakpoint>,
    RequestError,
>)
    ensures
        body_in(reply) matches Err(e) ==> result == Err::<Vec<dap_types::Breakpoint>, RequestError>(
            e,
        ),
        body_in(reply) matches Ok(None) ==> (result matches Ok(list) && list@.len() == 0),
        body_in(reply) matches Ok(Some(body)) ==> match breakpoints_in(body) {
            Some(answered) => (result matches Ok(list) && list@ == verified_among(answered)),
            None => result is Err && result->Err_0 is Decode,
        },
{
    match body_of(reply) {
        Err(e) => Err(e),
        Ok(None) => Ok(Vec::new()),
        Ok(Some(body)) => match decoded(breakpoints_from(body)) {
            Ok(answered) => Ok(keep_verified(answered)),
            Err(e) => Err(e),
        },
    }
}

/// Whether `result` is what `continue` makes of `reply`.
pub open spec fn continues(
    reply: Option<Response>,
    result: Result<Option<bool>, RequestError>,
) -> bool {
    match body_in(reply) {
        Err(e) => result == Err::<Option<bool>, RequestError>(e),
        Ok(None) => result == Ok::<Option<bool>, RequestError>(None),
        Ok(Some(body)) => match all_threads_continued_in(body) {
            Some(all) => result == Ok::<Option<bool>, RequestError>(all),
            None => result is Err && result->Err_0 is Decode,
        },
    }
}

/// The answer to `continue`: whether all threads were resumed, as far as the
/// adapter says. A success with no body says nothing.
pub fn continued(reply: Option<Response>) -> (result: Result<Option<bool>, RequestError>)
    ensures
        continues(reply, result),
{
    match body_of(reply) {
        Err(e) => Err(e),
        Ok(None) => Ok(None),
        Ok(Some(body)) => decoded(continue_from(body)),
    }
}

/// A response that reports failure is never a success: whatever its body
/// holds, every command's caller receives the failure with the adapter's
/// message.
pub proof fn a_failure_is_never_a_success(response: Response)
    requires
        !response.success,
    ensures
        body_in(Some(response)) == Err::<Option<serde_json::Value>, RequestError>(
            RequestError::Failed { message: response.message },
        ),
        forall|result: Result<(), RequestError>| #[trigger]
            acknowledges(Some(response), result) ==> result == Err::<(), RequestError>(
                RequestError::Failed { message: response.message },
            ),
        forall|result: Result<dap_types::Capabilities, RequestError>| #[trigger]
            reads_capabilities(Some(response), result) ==> result == Err::<
                dap_types::Capabilities,
                RequestError,
            >(RequestError::Failed { message: response.message }),
        forall|result: Result<Option<bool>, RequestError>| #[trigger]
            continues(Some(response), result) ==> result == Err::<Option<bool>, RequestError>(
                RequestError::Failed { message: response.message },
            ),
{
}

} // verus!

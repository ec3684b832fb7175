//! The dispatcher: serialize a request descriptor, hand it to a transport
//! adapter, and interpret the raw reply envelope into a typed result or a
//! classified error.
//!
//! The dispatcher is stateless; each call is an independent unit of work.
//! It never retries, and it never panics on a malformed envelope: whatever
//! the transport hands back is interpreted, total over all envelope values.

use vstd::prelude::*;
use crate::error::{classify, classify_model, DispatchError, DispatchErrorModel, TransportFailure};
use crate::request::Request;
use crate::wire::Params;

verus! {

/// The generic wire-level reply shape: a success flag, and optionally the
/// reply content, a numeric error code and a human-readable description.
/// The transport adapter decodes one from the reply bytes; it never
/// outlives the call that interprets it.
#[derive(Debug, Clone, PartialEq)]
pub struct Envelope<R> {
    pub ok: bool,
    pub result: Option<R>,
    pub error_code: Option<i64>,
    pub description: Option<String>,
}

/// The description text the classifier sees: the envelope's, or empty
/// where the envelope carried none.
pub open spec fn description_model(d: Option<String>) -> Seq<char> {
    match d {
        Option::Some(s) => s@,
        Option::None => Seq::<char>::empty(),
    }
}

/// How the dispatcher interprets a transport outcome, for every possible
/// outcome: a transport failure is surfaced untouched; a failure envelope
/// goes to the classifier; a success envelope goes through the mapper; an
/// envelope that violates the `ok`/`result`/`error_code` contract becomes
/// a protocol error, never a crash.
pub open spec fn completes_to<Q: Request>(
    outcome: Result<Envelope<Q::RawResponse>, TransportFailure>,
    r: Result<Q::Response, DispatchError>,
) -> bool {
    match outcome {
        Result::Err(t) => r matches Result::Err(e) && e@ == DispatchErrorModel::Transport(t@),
        Result::Ok(env) => if env.ok {
            match env.result {
                Option::Some(raw) => r == Result::<Q::Response, DispatchError>::Ok(
                    Q::map_spec(raw),
                ),
                Option::None => r matches Result::Err(e) && e@ == DispatchErrorModel::Protocol,
            }
        } else {
            match env.error_code {
                Option::Some(c) => r matches Result::Err(e) && e@ == classify_model(
                    c as int,
                    description_model(env.description),
                ),
                Option::None => r matches Result::Err(e) && e@ == DispatchErrorModel::Protocol,
            }
        },
    }
}

/// Serialize a descriptor: the endpoint name and the wire parameters the
/// transport adapter is to send.
pub fn prepare<Q: Request>(descriptor: &Q) -> (r: (String, Params))
    ensures
        r.0@ == Q::wire_name(),
        r.1@ == descriptor.params_model(),
{
    (Q::name().to_owned(), descriptor.to_params())
}

/// Interpret what came back from the transport adapter. Total: defined for
/// every transport failure and every envelope value, however malformed.
pub fn complete<Q: Request>(outcome: Result<Envelope<Q::RawResponse>, TransportFailure>) -> (r:
    Result<Q::Response, DispatchError>)
    ensures
        completes_to::<Q>(outcome, r),
{
    match outcome {
        Result::Err(t) => Result::Err(DispatchError::Transport(t)),
        Result::Ok(env) => {
            let Envelope { ok, result, error_code, description } = env;
            if ok {
                match result {
                    Option::Some(raw) => Result::Ok(Q::map(raw)),
                    Option::None => Result::Err(DispatchError::Protocol),
                }
            } else {
                match error_code {
                    Option::Some(c) => {
                        let e = match &description {
                            Option::Some(d) => classify(c, d.as_str()),
                            Option::None => {
                                proof {
                                    reveal_strlit("");
                                    assert(""@ =~= Seq::<char>::empty());
                                }
                                classify(c, "")
                            },
                        };
                        Result::Err(e)
                    },
                    Option::None => Result::Err(DispatchError::Protocol),
                }
            }
        },
    }
}

/// Send one request: serialize the descriptor, let the transport adapter
/// perform the exchange, and interpret whatever it hands back.
///
/// The adapter receives the endpoint name and the serialized parameters
/// and answers with a decoded reply envelope or a transport failure; this
/// is the single blocking point, and nothing is retried here. Whatever the
/// adapter's outcome, the result is its interpretation under
/// [`completes_to`]: `send` cannot panic on any transport output.
pub fn send<Q: Request, F: FnOnce(String, Params) -> Result<
    Envelope<Q::RawResponse>,
    TransportFailure,
>>(descriptor: &Q, transport: F) -> (r: Result<Q::Response, DispatchError>)
    requires
        forall|nm: String, p: Params|
            nm@ == Q::wire_name() && p@ == descriptor.params_model() ==> call_requires(
                transport,
                (nm, p),
            ),
    ensures
        exists|nm: String, p: Params, o: Result<Envelope<Q::RawResponse>, TransportFailure>|
            nm@ == Q::wire_name() && p@ == descriptor.params_model() && #[trigger] call_ensures(
                transport,
                (nm, p),
                o,
            ) && completes_to::<Q>(o, r),
{
    let (name, params) = prepare::<Q>(descriptor);
    let ghost gname = name;
    let ghost gparams = params;
    let outcome = transport(name, params);
    let ghost goutcome = outcome;
    let r = complete::<Q>(outcome);
    proof {
        assert(gname@ == Q::wire_name() && gparams@ == descriptor.params_model()
            && call_ensures(transport, (gname, gparams), goutcome) && completes_to::<Q>(
            goutcome,
            r,
        ));
    }
    r
}

} // verus!

//! The closed error taxonomy and the classifier that turns a failure
//! envelope's `(error_code, description)` pair into a structured error.
//!
//! Matching goes by numeric code first; for the one numeric family the
//! platform overloads, known description keywords disambiguate, and
//! anything unrecognized degrades to the generic variant carrying the raw
//! code and description untouched.

use vstd::prelude::*;

verus! {

/// Mathematical model of a transport-level failure.
pub enum TransportFailureModel {
    Connection(Seq<char>),
    Timeout,
    MalformedBytes,
}

/// A failure of the transport adapter itself: the request never produced a
/// well-formed reply envelope. Never retried at this layer.
#[derive(Debug, Clone, PartialEq)]
pub enum TransportFailure {
    /// The connection failed or was cancelled; carries the adapter's message.
    Connection(String),
    /// The call timed out.
    Timeout,
    /// The reply bytes did not decode into a reply envelope.
    MalformedBytes,
}

impl View for TransportFailure {
    type V = TransportFailureModel;

    open spec fn view(&self) -> TransportFailureModel {
        match self {
            TransportFailure::Connection(m) => TransportFailureModel::Connection(m@),
            TransportFailure::Timeout => TransportFailureModel::Timeout,
            TransportFailure::MalformedBytes => TransportFailureModel::MalformedBytes,
        }
    }
}

/// Mathematical model of a dispatch error.
pub enum DispatchErrorModel {
    Transport(TransportFailureModel),
    Protocol,
    RateLimited { code: int, description: Seq<char> },
    Unauthorized { code: int, description: Seq<char> },
    BadChatReference { code: int, description: Seq<char> },
    Api { code: int, description: Seq<char> },
}

/// Everything a dispatched request can fail with. Closed: a failure is
/// always one of these, never an unclassified value.
#[derive(Debug, Clone, PartialEq)]
pub enum DispatchError {
    /// The transport failed before a reply envelope existed.
    Transport(TransportFailure),
    /// The envelope was well-formed but violated the `ok`/`result`/
    /// `error_code` contract (e.g. `ok` with no result).
    Protocol,
    /// The platform asked the caller to slow down.
    RateLimited { code: i64, description: String },
    /// The platform rejected the credentials.
    Unauthorized { code: i64, description: String },
    /// The named chat does not exist or is not visible.
    BadChatReference { code: i64, description: String },
    /// Any other remote rejection, code and description untouched.
    Api { code: i64, description: String },
}

impl View for DispatchError {
    type V = DispatchErrorModel;

    open spec fn view(&self) -> DispatchErrorModel {
        match self {
            DispatchError::Transport(t) => DispatchErrorModel::Transport(t@),
            DispatchError::Protocol => DispatchErrorModel::Protocol,
            DispatchError::RateLimited { code, description } => DispatchErrorModel::RateLimited {
                code: *code as int,
                description: description@,
            },
            DispatchError::Unauthorized { code, description } => DispatchErrorModel::Unauthorized {
                code: *code as int,
                description: description@,
            },
            DispatchError::BadChatReference { code, description } => (
            DispatchErrorModel::BadChatReference { code: *code as int, description: description@ }),
            DispatchError::Api { code, description } => DispatchErrorModel::Api {
                code: *code as int,
                description: description@,
            },
        }
    }
}

/// `needle` occurs in `hay` starting at position `i`.
pub open spec fn contains_at(hay: Seq<char>, needle: Seq<char>, i: int) -> bool {
    0 <= i && i + needle.len() <= hay.len() && hay.subrange(i, i + needle.len()) == needle
}

/// `needle` occurs somewhere in `hay`.
pub open spec fn contains_seq(hay: Seq<char>, needle: Seq<char>) -> bool {
    exists|i: int| contains_at(hay, needle, i)
}

fn match_at(hay: &str, needle: &str, i: usize, hay_len: usize, needle_len: usize) -> (r: bool)
    requires
        hay_len == hay@.len(),
        needle_len == needle@.len(),
        i + needle_len <= hay_len,
    ensures
        r == contains_at(hay@, needle@, i as int),
{
    let mut j: usize = 0;
    while j < needle_len
        invariant
            hay_len == hay@.len(),
            needle_len == needle@.len(),
            i + needle_len <= hay_len,
            j <= needle_len,
            forall|k: int| 0 <= k < j ==> hay@[i + k] == needle@[k],
        decreases needle_len - j,
    {
        if hay.get_char(i + j) != needle.get_char(j) {
            proof {
                assert(hay@.subrange(i as int, i + needle@.len())[j as int] == hay@[i + j]);
            }
            return false;
        }
        j += 1;
    }
    proof {
        assert(hay@.subrange(i as int, i + needle@.len()) =~= needle@);
    }
    true
}

/// Whether `needle` occurs as a substring of `hay`, by characters.
pub fn contains_substr(hay: &str, needle: &str) -> (r: bool)
    ensures
        r == contains_seq(hay@, needle@),
{
    let hay_len = hay.unicode_len();
    let needle_len = needle.unicode_len();
    if needle_len == 0 {
        proof {
            assert(hay@.subrange(0, 0) =~= needle@);
            assert(contains_at(hay@, needle@, 0));
        }
        return true;
    }
    if needle_len > hay_len {
        proof {
            assert(forall|i: int| !contains_at(hay@, needle@, i));
        }
        return false;
    }
    let bound = hay_len - needle_len;
    let mut i: usize = 0;
    while i <= bound
        invariant
            hay_len == hay@.len(),
            needle_len == needle@.len(),
            0 < needle_len <= hay_len,
            bound == hay_len - needle_len,
            i as int <= bound as int + 1,
            forall|k: int| 0 <= k < i ==> !contains_at(hay@, needle@, k),
        decreases bound as int + 1 - i as int,
    {
        if match_at(hay, needle, i, hay_len, needle_len) {
            return true;
        }
        i += 1;
    }
    proof {
        assert forall|k: int| !contains_at(hay@, needle@, k) by {
            if 0 <= k < i {
            }
        }
    }
    false
}

/// The structured error the classifier assigns to a failure envelope's
/// `(error_code, description)` pair: well-known codes get their named
/// variant, the overloaded bad-request code is disambiguated by known
/// description keywords, everything else degrades to the generic variant.
pub open spec fn classify_model(code: int, description: Seq<char>) -> DispatchErrorModel {
    if code == 429 {
        DispatchErrorModel::RateLimited { code, description }
    } else if code == 401 {
        DispatchErrorModel::Unauthorized { code, description }
    } else if code == 400 && contains_seq(description, "Too Many Requests"@) {
        DispatchErrorModel::RateLimited { code, description }
    } else if code == 400 && contains_seq(description, "chat not found"@) {
        DispatchErrorModel::BadChatReference { code, description }
    } else {
        DispatchErrorModel::Api { code, description }
    }
}

/// Classify one failure envelope's code and description.
pub fn classify(code: i64, description: &str) -> (e: DispatchError)
    ensures
        e@ == classify_model(code as int, description@),
{
    if code == 429 {
        DispatchError::RateLimited { code, description: str_to_string(description) }
    } else if code == 401 {
        DispatchError::Unauthorized { code, description: str_to_string(description) }
    } else if code == 400 {
        if contains_substr(description, "Too Many Requests") {
            DispatchError::RateLimited { code, description: str_to_string(description) }
        } else if contains_substr(description, "chat not found") {
            DispatchError::BadChatReference { code, description: str_to_string(description) }
        } else {
            DispatchError::Api { code, description: str_to_string(description) }
        }
    } else {
        DispatchError::Api { code, description: str_to_string(description) }
    }
}

fn str_to_string(s: &str) -> (r: String)
    ensures
        r@ == s@,
{
    s.to_owned()
}

/// Classification is a function of the code and the description alone:
/// classifying the same pair twice yields the same structured error.
pub proof fn lemma_classify_deterministic(
    code: int,
    description: Seq<char>,
    e1: DispatchErrorModel,
    e2: DispatchErrorModel,
)
    requires
        e1 == classify_model(code, description),
        e2 == classify_model(code, description),
    ensures
        e1 == e2,
{
}

} // verus!

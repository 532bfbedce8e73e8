//! The compute side of the three route handlers: response bodies are built
//! here, and a provider outcome is turned into one HTTP reply. Reading the
//! request and speaking to the provider stay outside the library.

use vstd::prelude::*;
use vstd::string::StringExecFns;
use crate::json::quote;
use crate::json::quoted;
use crate::mapper::ExternalRecord;
use crate::mapper::ExternalRecordAbs;
use crate::mapper::MapError;
use crate::mapper::MapErrorAbs;
use crate::mapper::Snippet;
use crate::mapper::SnippetAbs;
use crate::mapper::from_external;
use crate::mapper::spec_from_external;

verus! {

/// One HTTP reply: a status code and a JSON body.
#[derive(Debug)]
pub struct Reply {
    pub status: u16,
    pub body: String,
}

#[verifier::ext_equal]
pub struct ReplyAbs {
    pub status: u16,
    pub body: Seq<char>,
}

impl View for Reply {
    type V = ReplyAbs;

    open spec fn view(&self) -> ReplyAbs {
        ReplyAbs { status: self.status, body: self.body@ }
    }
}

/// Why a provider call failed, as far as this system distinguishes it.
#[derive(Debug)]
pub enum ProviderError {
    NotFound,
    Unavailable,
}

/// The structured error body `{"error":<message>}`.
pub open spec fn error_body_spec(msg: Seq<char>) -> Seq<char> {
    "{\"error\":"@ + quote(msg) + "}"@
}

/// The service-identity body `{"name":<name>,"version":<version>}`.
pub open spec fn index_body_spec(name: Seq<char>, version: Seq<char>) -> Seq<char> {
    "{\"name\":"@ + quote(name) + ",\"version\":"@ + quote(version) + "}"@
}

/// The snippet body served to the web client: the identifier (or null),
/// the quoted message source, and the two JSON texts verbatim.
pub open spec fn snippet_body_spec(s: SnippetAbs) -> Seq<char> {
    "{\"id\":"@ + (match s.id {
        Some(i) => quote(i),
        None => "null"@,
    }) + ",\"messages\":"@ + quote(s.messages) + ",\"variables\":"@ + s.variables + ",\"setup\":"@
        + s.setup + "}"@
}

pub open spec fn not_found_reply() -> ReplyAbs {
    ReplyAbs { status: 404, body: error_body_spec("gist not found"@) }
}

pub open spec fn unavailable_reply() -> ReplyAbs {
    ReplyAbs { status: 502, body: error_body_spec("gist provider unavailable"@) }
}

/// The reply for a provider record that could not be read back: a bad
/// gateway status with a body naming the offending entry.
pub open spec fn map_error_reply(e: MapErrorAbs) -> ReplyAbs {
    match e {
        MapErrorAbs::MissingField(n) => ReplyAbs {
            status: 502,
            body: error_body_spec("missing file: "@ + n),
        },
        MapErrorAbs::MalformedContent(n) => ReplyAbs {
            status: 502,
            body: error_body_spec("malformed JSON in file: "@ + n),
        },
    }
}

/// The one reply a provider outcome maps to: a fetched or created record
/// that reads back cleanly is served as a snippet with status 200; a
/// record with a missing or malformed entry, and a failed call, each map
/// to their fixed error reply.
pub open spec fn gist_reply_spec(outcome: Result<ExternalRecordAbs, ProviderError>) -> ReplyAbs {
    match outcome {
        Ok(r) => match spec_from_external(r) {
            Ok(s) => ReplyAbs { status: 200, body: snippet_body_spec(s) },
            Err(e) => map_error_reply(e),
        },
        Err(ProviderError::NotFound) => not_found_reply(),
        Err(ProviderError::Unavailable) => unavailable_reply(),
    }
}

pub open spec fn outcome_view(o: Result<ExternalRecord, ProviderError>) -> Result<
    ExternalRecordAbs,
    ProviderError,
> {
    match o {
        Ok(r) => Ok(r@),
        Err(e) => Err(e),
    }
}

/// Builds the structured error body `{"error":<message>}`.
pub fn error_body(msg: &str) -> (r: String)
    ensures
        r@ == error_body_spec(msg@),
{
    let mut out = String::from_str("{\"error\":");
    let q = quoted(msg);
    out.append(q.as_str());
    out.append("}");
    proof {
        assert(out@ =~= error_body_spec(msg@));
    }
    out
}

/// The service-identity reply: status 200 and the fixed body naming the
/// service and its version.
pub fn index_reply(name: &str, version: &str) -> (out: Reply)
    ensures
        out@.status == 200,
        out@.body == index_body_spec(name@, version@),
{
    let mut body = String::from_str("{\"name\":");
    let qn = quoted(name);
    body.append(qn.as_str());
    body.append(",\"version\":");
    let qv = quoted(version);
    body.append(qv.as_str());
    body.append("}");
    proof {
        assert(body@ =~= index_body_spec(name@, version@));
    }
    Reply { status: 200, body }
}

/// Serializes a snippet as the JSON body served to the web client.
pub fn snippet_body(s: &Snippet) -> (r: String)
    ensures
        r@ == snippet_body_spec(s@),
{
    let mut out = String::from_str("{\"id\":");
    match &s.id {
        Some(i) => {
            let q = quoted(i.as_str());
            out.append(q.as_str());
        },
        None => {
            out.append("null");
        },
    }
    out.append(",\"messages\":");
    let qm = quoted(s.messages.as_str());
    out.append(qm.as_str());
    out.append(",\"variables\":");
    out.append(s.variables.as_str());
    out.append(",\"setup\":");
    out.append(s.setup.as_str());
    out.append("}");
    proof {
        assert(out@ =~= snippet_body_spec(s@));
    }
    out
}

/// Turns the outcome of one provider call into the reply for it: the
/// record is read back as a snippet and served, or the failure is mapped
/// to its fixed error reply.
pub fn gist_reply(outcome: Result<ExternalRecord, ProviderError>) -> (out: Reply)
    ensures
        out@ == gist_reply_spec(outcome_view(outcome)),
{
    match outcome {
        Err(ProviderError::NotFound) => {
            let out = Reply { status: 404, body: error_body("gist not found") };
            proof {
                assert(out@ =~= not_found_reply());
            }
            out
        },
        Err(ProviderError::Unavailable) => {
            let out = Reply { status: 502, body: error_body("gist provider unavailable") };
            proof {
                assert(out@ =~= unavailable_reply());
            }
            out
        },
        Ok(record) => match from_external(&record) {
            Ok(s) => {
                let out = Reply { status: 200, body: snippet_body(&s) };
                proof {
                    assert(out@ =~= gist_reply_spec(outcome_view(outcome)));
                }
                out
            },
            Err(MapError::MissingField(n)) => {
                let mut msg = String::from_str("missing file: ");
                msg.append(n.as_str());
                let out = Reply { status: 502, body: error_body(msg.as_str()) };
                proof {
                    assert(out@ =~= gist_reply_spec(outcome_view(outcome)));
                }
                out
            },
            Err(MapError::MalformedContent(n)) => {
                let mut msg = String::from_str("malformed JSON in file: ");
                msg.append(n.as_str());
                let out = Reply { status: 502, body: error_body(msg.as_str()) };
                proof {
                    assert(out@ =~= gist_reply_spec(outcome_view(outcome)));
                }
                out
            },
        },
    }
}

/// The reply for a request body that could not be read as a snippet.
pub fn bad_request_reply(msg: &str) -> (out: Reply)
    ensures
        out@.status == 400,
        out@.body == error_body_spec(msg@),
{
    Reply { status: 400, body: error_body(msg) }
}

/// The one recovery the response encoder defines: a fixed JSON error body
/// with status 500, for a payload that could not be serialized.
pub fn serialization_error_reply() -> (out: Reply)
    ensures
        out@.status == 500,
        out@.body == "{\"error\": \"Error serializing response\"}"@,
{
    Reply { status: 500, body: String::from_str("{\"error\": \"Error serializing response\"}") }
}

} // verus!

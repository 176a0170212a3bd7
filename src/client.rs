//! The delegating client: a signing key whose private half lives in the
//! signing daemon.
//!
//! Each operation is one request and one response on a fresh connection to
//! the daemon's socket. The caller carries the bytes; this module says what
//! to send and what an answer means. A failed connection is a signing error
//! for that handshake and is not retried.
use crate::daemon::{spec_daemon_action, spec_signing_reply, DaemonActionView};
use crate::protocol::{
    decode_response, encode_request, spec_decode_response, spec_encode_request,
    spec_encode_response, Request, RequestView, Response, ResponseView, MAX_PAYLOAD_LEN,
};
use crate::scheme::{key_algorithm, spec_choose_scheme, SignatureAlgorithm, SignatureScheme};
use vstd::prelude::*;

verus! {

/// Why a delegated operation failed.
#[derive(Debug, Clone)]
pub enum SigningError {
    /// The daemon could not be reached, or the connection broke.
    Transport(String),
    /// The answer is not a well-formed response.
    MalformedReply,
    /// The answer is a response to another request.
    UnexpectedReply,
    /// The daemon could not serve the request; the bytes say why.
    Remote(Vec<u8>),
}

/// A failure that an answer of the daemon stands for, as values.
pub enum ReplyFailure {
    MalformedReply,
    UnexpectedReply,
    Remote(Seq<u8>),
}

/// What an answer to a scheme request means.
pub open spec fn spec_scheme_outcome(reply: Seq<u8>) -> Result<Option<SignatureScheme>, ReplyFailure> {
    match spec_decode_response(reply) {
        Some(ResponseView::Chosen(c)) => Ok(c),
        Some(ResponseView::Failure(reason)) => Err(ReplyFailure::Remote(reason)),
        Some(ResponseView::Signature(_)) => Err(ReplyFailure::UnexpectedReply),
        None => Err(ReplyFailure::MalformedReply),
    }
}

/// What an answer to a signing request means.
pub open spec fn spec_sign_outcome(reply: Seq<u8>) -> Result<Seq<u8>, ReplyFailure> {
    match spec_decode_response(reply) {
        Some(ResponseView::Signature(s)) => Ok(s),
        Some(ResponseView::Failure(reason)) => Err(ReplyFailure::Remote(reason)),
        Some(ResponseView::Chosen(_)) => Err(ReplyFailure::UnexpectedReply),
        None => Err(ReplyFailure::MalformedReply),
    }
}

/// The error stands for the failure.
pub open spec fn error_is(e: SigningError, f: ReplyFailure) -> bool {
    match f {
        ReplyFailure::MalformedReply => e is MalformedReply,
        ReplyFailure::UnexpectedReply => e is UnexpectedReply,
        ReplyFailure::Remote(reason) => e matches SigningError::Remote(r) && r@ == reason,
    }
}

/// A signing key whose operations are served by the daemon listening on
/// `socket_path`.
#[derive(Debug, Clone)]
pub struct TedgeP11Client {
    pub socket_path: String,
}

impl TedgeP11Client {
    /// A client of the daemon at `socket_path`.
    pub fn new(socket_path: String) -> (r: TedgeP11Client)
        ensures
            r.socket_path == socket_path,
    {
        TedgeP11Client { socket_path }
    }

    /// The request that asks the daemon to choose among the offered schemes.
    pub fn choose_scheme_request(&self, offered: &[SignatureScheme]) -> (r: Vec<u8>)
        requires
            2 * offered@.len() <= MAX_PAYLOAD_LEN,
        ensures
            r@ == spec_encode_request(RequestView::ChooseScheme(offered@)),
    {
        let mut list: Vec<SignatureScheme> = Vec::new();
        let mut i: usize = 0;
        while i < offered.len()
            invariant
                i <= offered@.len(),
                list@ == offered@.subrange(0, i as int),
            decreases offered@.len() - i,
        {
            list.push(offered[i]);
            proof {
                assert(offered@.subrange(0, i + 1) =~= offered@.subrange(0, i as int).push(
                    offered@[i as int],
                ));
            }
            i = i + 1;
        }
        assert(offered@.subrange(0, offered@.len() as int) =~= offered@);
        encode_request(&Request::ChooseScheme { offered: list })
    }

    /// The scheme that the daemon's answer chose; `None` when no offered
    /// scheme is supported.
    pub fn choose_scheme_reply(&self, reply: &[u8]) -> (r: Result<
        Option<SignatureScheme>,
        SigningError,
    >)
        ensures
            match spec_scheme_outcome(reply@) {
                Ok(c) => r == Ok::<Option<SignatureScheme>, SigningError>(c),
                Err(f) => r matches Err(e) && error_is(e, f),
            },
    {
        match decode_response(reply) {
            Some(Response::Chosen { scheme }) => Ok(scheme),
            Some(Response::Failure { reason }) => Err(SigningError::Remote(reason)),
            Some(Response::Signature { .. }) => Err(SigningError::UnexpectedReply),
            None => Err(SigningError::MalformedReply),
        }
    }

    /// The request that asks the daemon to sign `message`.
    pub fn sign_request(&self, message: &[u8]) -> (r: Vec<u8>)
        requires
            message@.len() <= MAX_PAYLOAD_LEN,
        ensures
            r@ == spec_encode_request(RequestView::Sign(message@)),
    {
        let data = vstd::slice::slice_to_vec(message);
        encode_request(&Request::Sign { data })
    }

    /// The signature in the daemon's answer.
    pub fn sign_reply(&self, reply: &[u8]) -> (r: Result<Vec<u8>, SigningError>)
        ensures
            match spec_sign_outcome(reply@) {
                Ok(s) => r matches Ok(v) && v@ == s,
                Err(f) => r matches Err(e) && error_is(e, f),
            },
    {
        match decode_response(reply) {
            Some(Response::Signature { signature }) => Ok(signature),
            Some(Response::Failure { reason }) => Err(SigningError::Remote(reason)),
            Some(Response::Chosen { .. }) => Err(SigningError::UnexpectedReply),
            None => Err(SigningError::MalformedReply),
        }
    }

    /// The key family: ECDSA.
    pub fn algorithm(&self) -> (r: SignatureAlgorithm)
        ensures
            r == SignatureAlgorithm::Ecdsa,
    {
        key_algorithm()
    }

    /// The scheme that the delegated signer signs with.
    pub fn signer_scheme(&self) -> (r: SignatureScheme)
        ensures
            r == crate::scheme::supported_scheme(),
    {
        SignatureScheme::ecdsa_nistp256_sha256()
    }
}

/// What the session's outcome becomes for the caller of a delegated
/// signature.
pub open spec fn delegated(outcome: Result<Seq<u8>, Seq<u8>>) -> Result<Seq<u8>, ReplyFailure> {
    match outcome {
        Ok(s) => Ok(s),
        Err(reason) => Err(ReplyFailure::Remote(reason)),
    }
}

/// Delegating a signature is transparent to the caller: the daemon hands
/// its session exactly the caller's message, and the caller gets back
/// exactly what the session produced, its signature or its failure.
pub proof fn lemma_signing_delegation_is_transparent(
    message: Seq<u8>,
    outcome: Result<Seq<u8>, Seq<u8>>,
)
    requires
        message.len() <= MAX_PAYLOAD_LEN,
        outcome matches Ok(s) ==> s.len() <= MAX_PAYLOAD_LEN,
        outcome matches Err(e) ==> e.len() <= MAX_PAYLOAD_LEN,
    ensures
        spec_daemon_action(spec_encode_request(RequestView::Sign(message)))
            == DaemonActionView::SignWithSession(message),
        spec_sign_outcome(spec_signing_reply(outcome)) == delegated(outcome),
{
    crate::protocol::lemma_request_round_trip(RequestView::Sign(message));
    match outcome {
        Ok(s) => crate::protocol::lemma_response_round_trip(ResponseView::Signature(s)),
        Err(e) => crate::protocol::lemma_response_round_trip(ResponseView::Failure(e)),
    }
}

/// A scheme chosen through the daemon is the one chosen in process: the
/// client learns exactly `choose_scheme` of what it offered.
pub proof fn lemma_scheme_delegation_is_transparent(offered: Seq<SignatureScheme>)
    requires
        2 * offered.len() <= MAX_PAYLOAD_LEN,
    ensures
        spec_daemon_action(spec_encode_request(RequestView::ChooseScheme(offered)))
            == DaemonActionView::Reply(
            spec_encode_response(ResponseView::Chosen(spec_choose_scheme(offered))),
        ),
        spec_scheme_outcome(
            spec_encode_response(ResponseView::Chosen(spec_choose_scheme(offered))),
        ) == Ok::<Option<SignatureScheme>, ReplyFailure>(spec_choose_scheme(offered)),
{
    crate::protocol::lemma_request_round_trip(RequestView::ChooseScheme(offered));
    crate::protocol::lemma_response_round_trip(ResponseView::Chosen(spec_choose_scheme(offered)));
}

} // verus!

//! The signing daemon: the process that owns the cryptographic session and
//! answers the signing requests of any number of clients.
//!
//! The daemon's decisions are made here, from its state and what arrives;
//! the caller performs the I/O (socket, session) and hands the outcome
//! back. Life cycle: configured, then its session is open, then it listens.
//! A session that cannot be opened stops the daemon; a session error while
//! serving is reported to the requesting client only.
use crate::protocol::{
    encode_response, response_fits, spec_decode_request, spec_encode_response, Request,
    RequestView, Response, ResponseView, MAX_PAYLOAD_LEN,
};
use crate::scheme::{choose_scheme, spec_choose_scheme};
use vstd::prelude::*;
use vstd::string::StringSliceAdditionalSpecFns;

verus! {

/// Why a request could not be read, as sent back to the client.
pub const MALFORMED_REQUEST: &'static str = "malformed request";

/// How to reach the cryptographic module: its library, the PIN, and which
/// token to use when several are present.
#[derive(Debug, Clone)]
pub struct CryptokiConfigDirect {
    pub module_file: String,
    pub pin: String,
    pub serial: Option<String>,
}

/// Where the daemon is in its life cycle.
#[derive(Debug, Clone, Copy, PartialEq, Eq, Structural)]
pub enum DaemonState {
    /// Configured; the session is still to be opened.
    AwaitingSession,
    /// The session is open; the socket is still to be bound.
    SessionOpen,
    /// Serving connections.
    Listening,
}

/// Why the daemon cannot start.
#[derive(Debug, Clone, PartialEq, Eq)]
pub enum ServiceError {
    /// The configuration names no module.
    MissingModulePath,
    /// The session could not be opened; the text says why.
    SessionFailed(String),
}

/// What the daemon does next for a connection.
#[derive(Debug, Clone)]
pub enum DaemonAction {
    /// Send these bytes to the client, then close the connection.
    Reply(Vec<u8>),
    /// Sign this message with the session, then hand the outcome to
    /// `signing_done`.
    SignWithSession(Vec<u8>),
}

/// An action, as values.
pub enum DaemonActionView {
    Reply(Seq<u8>),
    SignWithSession(Seq<u8>),
}

impl View for DaemonAction {
    type V = DaemonActionView;

    open spec fn view(&self) -> DaemonActionView {
        match self {
            DaemonAction::Reply(b) => DaemonActionView::Reply(b@),
            DaemonAction::SignWithSession(m) => DaemonActionView::SignWithSession(m@),
        }
    }
}

/// What the daemon does with the bytes of a request: answer a scheme
/// choice at once, pass a message to the session, refuse anything else.
pub open spec fn spec_daemon_action(request: Seq<u8>) -> DaemonActionView {
    match spec_decode_request(request) {
        Some(RequestView::ChooseScheme(offered)) => DaemonActionView::Reply(
            spec_encode_response(ResponseView::Chosen(spec_choose_scheme(offered))),
        ),
        Some(RequestView::Sign(message)) => DaemonActionView::SignWithSession(message),
        None => DaemonActionView::Reply(
            spec_encode_response(ResponseView::Failure(MALFORMED_REQUEST.spec_bytes())),
        ),
    }
}

/// The response that the daemon sends once the session has signed, or
/// failed to: the signature, or the reason as a failure.
pub open spec fn spec_signing_reply(outcome: Result<Seq<u8>, Seq<u8>>) -> Seq<u8> {
    match outcome {
        Ok(signature) => spec_encode_response(ResponseView::Signature(signature)),
        Err(reason) => spec_encode_response(ResponseView::Failure(reason)),
    }
}

pub open spec fn outcome_view(outcome: Result<Vec<u8>, Vec<u8>>) -> Result<Seq<u8>, Seq<u8>> {
    match outcome {
        Ok(s) => Ok(s@),
        Err(e) => Err(e@),
    }
}

/// The signing daemon.
pub struct P11Service {
    config: CryptokiConfigDirect,
    state: DaemonState,
}

impl P11Service {
    pub closed spec fn spec_state(&self) -> DaemonState {
        self.state
    }

    pub closed spec fn spec_config(&self) -> CryptokiConfigDirect {
        self.config
    }

    /// The daemon for this configuration, its session still to be opened.
    /// Fails when the configuration names no module.
    pub fn from_config(config: CryptokiConfigDirect) -> (r: Result<Self, ServiceError>)
        ensures
            r is Ok <==> config.module_file@.len() > 0,
            r is Err ==> r == Err::<Self, ServiceError>(ServiceError::MissingModulePath),
            r matches Ok(s) ==> s.spec_state() == DaemonState::AwaitingSession
                && s.spec_config() == config,
    {
        if config.module_file.as_str().is_empty() {
            Err(ServiceError::MissingModulePath)
        } else {
            Ok(P11Service { config, state: DaemonState::AwaitingSession })
        }
    }

    /// The configuration that the session is to be opened with.
    pub fn config(&self) -> (r: &CryptokiConfigDirect)
        ensures
            *r == self.spec_config(),
    {
        &self.config
    }

    /// Where the daemon is in its life cycle.
    pub fn state(&self) -> (r: DaemonState)
        ensures
            r == self.spec_state(),
    {
        self.state
    }

    /// The daemon once the attempt to open its session is over: ready to
    /// listen, or stopped with the reason.
    pub fn session_opened(self, outcome: Result<(), String>) -> (r: Result<Self, ServiceError>)
        requires
            self.spec_state() == DaemonState::AwaitingSession,
        ensures
            outcome is Ok <==> r is Ok,
            r matches Ok(s) ==> s.spec_state() == DaemonState::SessionOpen && s.spec_config()
                == self.spec_config(),
            outcome matches Err(m) ==> r == Err::<Self, ServiceError>(
                ServiceError::SessionFailed(m),
            ),
    {
        match outcome {
            Ok(()) => Ok(P11Service { config: self.config, state: DaemonState::SessionOpen }),
            Err(m) => Err(ServiceError::SessionFailed(m)),
        }
    }

    /// The socket is bound: from now on the daemon serves connections.
    pub fn start_listening(&mut self)
        requires
            old(self).spec_state() == DaemonState::SessionOpen,
        ensures
            final(self).spec_state() == DaemonState::Listening,
            final(self).spec_config() == old(self).spec_config(),
    {
        self.state = DaemonState::Listening;
    }

    /// What to do with the bytes of one request.
    pub fn handle_request(&self, request: &[u8]) -> (r: DaemonAction)
        requires
            self.spec_state() == DaemonState::Listening,
        ensures
            r@ == spec_daemon_action(request@),
    {
        match crate::protocol::decode_request(request) {
            Some(Request::ChooseScheme { offered }) => {
                let chosen = choose_scheme(offered.as_slice());
                DaemonAction::Reply(encode_response(&Response::Chosen { scheme: chosen }))
            },
            Some(Request::Sign { data }) => DaemonAction::SignWithSession(data),
            None => {
                let reason = vstd::slice::slice_to_vec(MALFORMED_REQUEST.as_bytes());
                proof {
                    reveal_strlit("malformed request");
                    vstd::string::is_ascii_spec_bytes(MALFORMED_REQUEST);
                }
                DaemonAction::Reply(encode_response(&Response::Failure { reason }))
            },
        }
    }

    /// The bytes to send once the session has signed (`Ok`, the signature)
    /// or failed (`Err`, the reason).
    pub fn signing_done(&self, outcome: Result<Vec<u8>, Vec<u8>>) -> (r: Vec<u8>)
        requires
            self.spec_state() == DaemonState::Listening,
            outcome matches Ok(s) ==> s@.len() <= MAX_PAYLOAD_LEN,
            outcome matches Err(e) ==> e@.len() <= MAX_PAYLOAD_LEN,
        ensures
            r@ == spec_signing_reply(outcome_view(outcome)),
    {
        match outcome {
            Ok(signature) => encode_response(&Response::Signature { signature }),
            Err(reason) => encode_response(&Response::Failure { reason }),
        }
    }
}

} // verus!

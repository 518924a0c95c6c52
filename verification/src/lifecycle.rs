//! The lifecycle manager: the single slot holding the running session, and
//! the start / stop / status operations over it.
//!
//! The slot is the only mutable shared state in the system. The host keeps
//! it behind one exclusive lock, so the three operations never interleave;
//! they never block in-flight requests on an already-running server.
//!
//! Starting is split around its outside work: [`SessionSlot::check_can_start`]
//! gates the attempt before any side effect, the embedding then resolves the
//! address, creates the directory and binds the listener, and
//! [`SessionSlot::install`] records the resulting handle. A failed start thus
//! never registers a session.

use vstd::prelude::*;
use vstd::string::StringExecFns;

use crate::errors::AppError;

verus! {

/// The fixed port the upload server listens on.
pub const SERVER_PORT: u16 = 7878;

/// tokio's one-shot sender, opaque to the verifier: the cancellation handle
/// of a running server, consumable exactly once.
#[verifier::external_type_specification]
#[verifier::external_body]
#[verifier::reject_recursive_types(T)]
pub struct ExOneshotSender<T>(tokio::sync::oneshot::Sender<T>);

/// Relies on `tokio::sync::oneshot::Sender::send`: consumes the send half
/// and delivers the value unless the receiver has already gone away.
/// Signaling is best-effort by contract, so nothing is promised of it.
#[verifier::external_body]
fn send_shutdown(tx: tokio::sync::oneshot::Sender<()>) {
    let _ = tx.send(());
}

/// Holds the cancellation handle and public URL of the running server.
pub struct ServerHandle {
    /// Sending on (or dropping) this stops the server gracefully.
    pub shutdown_tx: tokio::sync::oneshot::Sender<()>,
    /// The URL the server is reachable at.
    pub url: String,
}

/// Info returned to the host about the server status.
#[derive(Clone)]
pub struct ServerInfo {
    /// Whether a session is currently running.
    pub running: bool,
    /// The running session's URL; absent when none runs.
    pub url: Option<String>,
}

/// The at-most-one-of slot for the currently running session: exactly zero
/// or one session exists at any time, by construction.
pub struct SessionSlot {
    session: Option<ServerHandle>,
}

impl SessionSlot {
    /// Whether a session is currently running.
    pub closed spec fn is_running(&self) -> bool {
        self.session is Some
    }

    /// The running session's public URL; meaningful only while running.
    pub closed spec fn url_spec(&self) -> Seq<char> {
        self.session->0.url@
    }

    /// The empty slot the host starts with: nothing runs.
    pub fn new() -> (s: Self)
        ensures
            !s.is_running(),
    {
        SessionSlot { session: None }
    }

    /// The start gate, checked before any outside work: refused with
    /// `AlreadyRunning` while a session exists, and the attempt must go no
    /// further; the existing session is unaffected.
    pub fn check_can_start(&self) -> (r: Result<(), AppError>)
        ensures
            r is Ok <==> !self.is_running(),
            self.is_running() ==> (r matches Err(e) && e is AlreadyRunning),
    {
        if self.session.is_some() {
            Err(AppError::AlreadyRunning)
        } else {
            Ok(())
        }
    }

    /// Records the fresh session once the listener is confirmed bound, and
    /// returns the URL the start reports — the same URL the slot now holds.
    pub fn install(&mut self, handle: ServerHandle) -> (url: String)
        requires
            !old(self).is_running(),
        ensures
            final(self).is_running(),
            final(self).url_spec() == handle.url@,
            url@ == handle.url@,
    {
        let url = handle.url.clone();
        self.session = Some(handle);
        url
    }

    /// Stops the running session: signals cancellation through the stored
    /// handle (best-effort — a receiver that has already gone away is not an
    /// error) and clears the slot. Refused with `NotRunning` when no session
    /// exists; either way, nothing runs afterwards.
    pub fn stop(&mut self) -> (r: Result<(), AppError>)
        ensures
            !final(self).is_running(),
            r is Ok <==> old(self).is_running(),
            !old(self).is_running() ==> (r matches Err(e) && e is NotRunning),
    {
        match self.session.take() {
            Some(handle) => {
                send_shutdown(handle.shutdown_tx);
                Ok(())
            },
            None => Err(AppError::NotRunning),
        }
    }

    /// Reads the current state; never fails. Running reports the stored
    /// URL — the one the start returned; stopped reports no URL at all.
    pub fn status(&self) -> (info: ServerInfo)
        ensures
            info.running == self.is_running(),
            self.is_running() ==> (info.url matches Some(u) && u@ == self.url_spec()),
            !self.is_running() ==> info.url is None,
    {
        match &self.session {
            Some(handle) => ServerInfo { running: true, url: Some(handle.url.clone()) },
            None => ServerInfo { running: false, url: None },
        }
    }
}

/// The externally visible base URL of a run: `http://<address>:<port>` on
/// the fixed [`SERVER_PORT`].
pub open spec fn public_url_of(ip: Seq<char>) -> Seq<char> {
    "http://"@ + ip + ":7878"@
}

/// Builds the public URL for the host's resolved address; the literal
/// suffix spells [`SERVER_PORT`].
pub fn public_url(ip: &str) -> (r: String)
    ensures
        r@ == public_url_of(ip@),
{
    let mut s = "http://".to_owned();
    s.append(ip);
    s.append(":7878");
    s
}

} // verus!

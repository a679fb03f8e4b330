//! The client side: a session that owns a handle to the anonymous transport
//! and turns a `(destination, tx_hex, network)` triple into one encoded
//! envelope ready for fire-and-forget delivery.
//!
//! Acquiring the transport identity is asynchronous outside work; the
//! session tracks it as a lifecycle, and the caller reports how it ended.
//! Each send is independent: preparing one reads the session and changes
//! nothing, so a failed message never moves the session's state.

use vstd::prelude::*;
use crate::network::Network;
use crate::wire::{TransactionRequest, spec_encode, encode};

verus! {

/// The session lifecycle. A failed initialization is not retried by
/// itself: only a caller's fresh attempt leaves `InitFailed`.
#[derive(Clone, Copy, Debug, PartialEq, Eq, Structural)]
pub enum SessionState {
    Uninitialized,
    Initializing,
    Ready,
    InitFailed,
}

/// Why a send was refused or failed. The first three are found locally,
/// before any transport cost is paid; the last two name what the caller
/// reports when the transport's own parser or send rejects the message.
#[derive(Clone, Copy, Debug, PartialEq, Eq, Structural)]
pub enum SendError {
    /// The session has no transport identity yet, or lost its attempt.
    NotReady,
    /// The destination address is empty.
    EmptyDestination,
    /// The transaction text is empty.
    EmptyTxHex,
    /// The transport's parser rejected the destination address.
    InvalidDestination,
    /// The transport refused to queue the message.
    TransportFailed,
}

/// One message ready to hand to the transport: the destination string the
/// transport will parse, the encoded envelope as the whole payload, and the
/// delivery parameters the protocol fixes. The protocol is one-way, so no
/// reply channel ever rides along; and the transport is told not to
/// retransmit by itself — retrying is the caller's own new send.
pub struct SendPlan {
    pub destination: String,
    pub payload: Vec<u8>,
    pub reply_channels: u32,
    pub retransmissions: Option<u32>,
}

/// A client session and where it stands in its lifecycle.
pub struct ClientSession {
    state: SessionState,
}

impl ClientSession {
    /// The lifecycle state the session is in.
    pub closed spec fn state(&self) -> SessionState {
        self.state
    }

    /// A fresh session, before any initialization attempt.
    pub fn new() -> (r: ClientSession)
        ensures
            r.state() == SessionState::Uninitialized,
    {
        ClientSession { state: SessionState::Uninitialized }
    }

    /// Exec view of the lifecycle state, for the caller's control flow.
    pub fn current_state(&self) -> (r: SessionState)
        ensures
            r == self.state(),
    {
        self.state
    }

    /// Start acquiring a transport identity. Allowed from a fresh session
    /// or after a failed attempt; callers observe `Initializing` until the
    /// attempt resolves.
    pub fn begin_initialize(&mut self)
        requires
            old(self).state() == SessionState::Uninitialized || old(self).state()
                == SessionState::InitFailed,
        ensures
            final(self).state() == SessionState::Initializing,
    {
        self.state = SessionState::Initializing;
    }

    /// Record how the initialization attempt resolved: a transport identity
    /// was acquired, or the attempt failed and a new one must be started.
    pub fn complete_initialize(&mut self, success: bool)
        requires
            old(self).state() == SessionState::Initializing,
        ensures
            success ==> final(self).state() == SessionState::Ready,
            !success ==> final(self).state() == SessionState::InitFailed,
    {
        if success {
            self.state = SessionState::Ready;
        } else {
            self.state = SessionState::InitFailed;
        }
    }

    /// Compose one send: check the cheap local preconditions, then build
    /// and encode the envelope. Succeeds exactly when the session is ready
    /// and both user-supplied fields are non-empty; a refusal costs no
    /// transport work, since only a returned plan ever reaches the
    /// transport. Reads the session only: a message's fate never changes
    /// the session's state.
    pub fn prepare_send(
        &self,
        destination: &String,
        tx_hex: &String,
        network: Network,
    ) -> (r: Result<SendPlan, SendError>)
        ensures
            r is Ok <==> self.state() == SessionState::Ready && destination@.len() > 0
                && tx_hex@.len() > 0,
            r matches Ok(plan) ==> plan.destination@ == destination@ && plan.payload@
                == spec_encode(tx_hex@, network) && plan.reply_channels == 0
                && plan.retransmissions is None,
            self.state() != SessionState::Ready ==> (r matches Err(e)
                && e == SendError::NotReady),
            self.state() == SessionState::Ready && destination@.len() == 0 ==> (r matches Err(e)
                && e == SendError::EmptyDestination),
            self.state() == SessionState::Ready && destination@.len() > 0 && tx_hex@.len() == 0
                ==> (r matches Err(e) && e == SendError::EmptyTxHex),
    {
        if !matches!(self.state, SessionState::Ready) {
            return Err(SendError::NotReady);
        }
        if destination.as_str().is_empty() {
            return Err(SendError::EmptyDestination);
        }
        if tx_hex.as_str().is_empty() {
            return Err(SendError::EmptyTxHex);
        }
        let request = TransactionRequest { tx_hex: tx_hex.clone(), network };
        let payload = encode(&request);
        Ok(
            SendPlan {
                destination: destination.clone(),
                payload,
                reply_channels: 0,
                retransmissions: None,
            },
        )
    }
}

} // verus!

//! The handshake that a role runs once on a fresh connection, as a state
//! machine: the caller sends and receives, the handler decides.

use crate::error::Error;
use roles_logic_sv2::parsers::CommonMessages;
use vstd::prelude::*;

verus! {

/// Message type of the peer's acknowledgment.
pub const MESSAGE_TYPE_SETUP_CONNECTION_SUCCESS: u8 = 0x01;

/// Message type of the peer's refusal.
pub const MESSAGE_TYPE_SETUP_CONNECTION_ERROR: u8 = 0x02;

/// Message type of the notice that the peer's endpoint changed.
pub const MESSAGE_TYPE_CHANNEL_ENDPOINT_CHANGED: u8 = 0x03;

/// The longest byte string that a field of the request can carry.
pub const MAX_FIELD_LEN: usize = 255;

/// The protocol version that the request offers, as both its minimum and its
/// maximum.
pub const PROTOCOL_VERSION: u16 = 2;

/// The sub-protocol that a connection is opened for.
#[derive(Clone, Copy, Debug, PartialEq, Eq, Structural)]
pub enum Protocol {
    MiningProtocol,
    JobDeclarationProtocol,
    TemplateDistributionProtocol,
}

/// The request that opens a connection.
#[derive(Clone, Debug, PartialEq, Eq)]
pub struct HandshakeRequest {
    pub protocol: Protocol,
    pub min_version: u16,
    pub max_version: u16,
    pub flags: u32,
    pub endpoint_host: Vec<u8>,
    pub endpoint_port: u16,
    pub vendor: Vec<u8>,
    pub hardware_version: Vec<u8>,
    pub firmware: Vec<u8>,
    pub device_id: Vec<u8>,
}

impl HandshakeRequest {
    /// Every byte string of the request fits its field on the wire.
    pub open spec fn well_formed(&self) -> bool {
        &&& self.endpoint_host@.len() <= MAX_FIELD_LEN
        &&& self.vendor@.len() <= MAX_FIELD_LEN
        &&& self.hardware_version@.len() <= MAX_FIELD_LEN
        &&& self.firmware@.len() <= MAX_FIELD_LEN
        &&& self.device_id@.len() <= MAX_FIELD_LEN
    }

    /// The request of a template receiver that connects to `host`:`port`:
    /// one version, no capability flags, an empty self-description.
    pub open spec fn is_minimal_for(&self, host: Seq<u8>, port: u16) -> bool {
        &&& self.protocol == Protocol::TemplateDistributionProtocol
        &&& self.min_version == PROTOCOL_VERSION
        &&& self.max_version == PROTOCOL_VERSION
        &&& self.flags == 0
        &&& self.endpoint_host@ == host
        &&& self.endpoint_port == port
        &&& self.vendor@ == Seq::<u8>::empty()
        &&& self.hardware_version@ == Seq::<u8>::empty()
        &&& self.firmware@ == Seq::<u8>::empty()
        &&& self.device_id@ == Seq::<u8>::empty()
    }
}

/// What the peer did after the request was sent.
#[derive(Clone, Debug, PartialEq, Eq)]
pub enum PeerResponse {
    /// The connection closed, or produced no frame.
    Closed,
    /// A frame arrived, with this message type and payload.
    Frame { message_type: u8, payload: Vec<u8> },
}

/// A decoded message of the common sub-protocol, or the fact that there is
/// none.
#[derive(Clone, Debug, PartialEq, Eq)]
pub enum CommonMessage {
    SetupConnection,
    SetupConnectionSuccess { used_version: u16, flags: u32 },
    SetupConnectionError { flags: u32, error_code: Vec<u8> },
    ChannelEndpointChanged { channel_id: u32 },
    /// The message type is not one of the common sub-protocol, or the payload
    /// is not a message of that type.
    Undecodable,
}

/// The mathematical value of a `CommonMessage`.
pub enum CommonMessageView {
    SetupConnection,
    SetupConnectionSuccess { used_version: u16, flags: u32 },
    SetupConnectionError { flags: u32, error_code: Seq<u8> },
    ChannelEndpointChanged { channel_id: u32 },
    Undecodable,
}

impl View for CommonMessage {
    type V = CommonMessageView;

    open spec fn view(&self) -> CommonMessageView {
        match *self {
            CommonMessage::SetupConnection => CommonMessageView::SetupConnection,
            CommonMessage::SetupConnectionSuccess { used_version, flags } => {
                CommonMessageView::SetupConnectionSuccess { used_version, flags }
            },
            CommonMessage::SetupConnectionError { flags, error_code } => {
                CommonMessageView::SetupConnectionError { flags, error_code: error_code@ }
            },
            CommonMessage::ChannelEndpointChanged { channel_id } => {
                CommonMessageView::ChannelEndpointChanged { channel_id }
            },
            CommonMessage::Undecodable => CommonMessageView::Undecodable,
        }
    }
}

/// What the protocol library decodes from a payload under a message type.
pub uninterp spec fn decoded_common_message(message_type: u8, payload: Seq<u8>) -> CommonMessageView;

/// Calls `CommonMessages::try_from` of `roles_logic_sv2` on a message type and
/// a payload, and keeps of the decoded message the variant and its plain
/// fields. Not proved: that the result is the named value of the two
/// arguments, that is, that the decoder's answer depends on them alone.
#[verifier::external_body]
fn decode_common_message(message_type: u8, payload: Vec<u8>) -> (m: CommonMessage)
    ensures
        m@ == decoded_common_message(message_type, payload@),
{
    let mut bytes = payload;
    match CommonMessages::try_from((message_type, bytes.as_mut_slice())) {
        Ok(CommonMessages::SetupConnection(_)) => CommonMessage::SetupConnection,
        Ok(CommonMessages::SetupConnectionSuccess(s)) => {
            CommonMessage::SetupConnectionSuccess { used_version: s.used_version, flags: s.flags }
        },
        Ok(CommonMessages::SetupConnectionError(e)) => {
            CommonMessage::SetupConnectionError { flags: e.flags, error_code: e.error_code.to_vec() }
        },
        Ok(CommonMessages::ChannelEndpointChanged(c)) => {
            CommonMessage::ChannelEndpointChanged { channel_id: c.channel_id }
        },
        Err(_) => CommonMessage::Undecodable,
    }
}

/// Where a handshake stands.
#[derive(Clone, Copy, Debug, PartialEq, Eq, Structural)]
pub enum HandshakeState {
    Idle,
    RequestSent,
    AwaitingResponse,
    Success,
    Rejected,
    Malformed,
}

impl HandshakeState {
    /// Whether the handshake is over.
    pub open spec fn is_terminal(self) -> bool {
        self == HandshakeState::Success || self == HandshakeState::Rejected || self
            == HandshakeState::Malformed
    }
}

/// The verdict on a response of the given message type, where `decoded` is
/// what the payload decodes to under that type: the acknowledgment succeeds
/// whatever it carries, a refusal that decodes is a rejection with the reason
/// the peer gave, an endpoint change is not supported, and anything else is
/// not a handshake response.
pub open spec fn verdict_on(message_type: u8, decoded: CommonMessageView) -> Result<
    (),
    HandshakeFailure,
> {
    if message_type == MESSAGE_TYPE_SETUP_CONNECTION_SUCCESS {
        Ok(())
    } else if message_type == MESSAGE_TYPE_SETUP_CONNECTION_ERROR {
        match decoded {
            CommonMessageView::SetupConnectionError { error_code, .. } => Err(
                HandshakeFailure::Rejected(error_code),
            ),
            _ => Err(HandshakeFailure::Protocol),
        }
    } else if message_type == MESSAGE_TYPE_CHANNEL_ENDPOINT_CHANGED {
        Err(HandshakeFailure::Unsupported)
    } else {
        Err(HandshakeFailure::Protocol)
    }
}

/// The ways in which a handshake fails, as mathematical values.
pub enum HandshakeFailure {
    Io,
    Protocol,
    Rejected(Seq<u8>),
    Unsupported,
    Unrecoverable,
}

/// The failure that an error stands for, if it is one of the handshake.
pub open spec fn failure_of(e: Error) -> Option<HandshakeFailure> {
    match e {
        Error::HandshakeIo => Some(HandshakeFailure::Io),
        Error::HandshakeProtocol => Some(HandshakeFailure::Protocol),
        Error::HandshakeRejected(reason) => Some(HandshakeFailure::Rejected(reason@)),
        Error::Unsupported => Some(HandshakeFailure::Unsupported),
        Error::Unrecoverable => Some(HandshakeFailure::Unrecoverable),
        _ => None,
    }
}

/// Whether an exec result is the given verdict.
pub open spec fn is_verdict(r: Result<(), Error>, v: Result<(), HandshakeFailure>) -> bool {
    match r {
        Ok(()) => v is Ok,
        Err(e) => v is Err && failure_of(e) == Some(v->Err_0),
    }
}

/// The verdict on what the peer did: a closed connection is a transport
/// failure, a frame is judged by its message type and payload.
pub open spec fn verdict_on_response(response: PeerResponse) -> Result<(), HandshakeFailure> {
    match response {
        PeerResponse::Closed => Err(HandshakeFailure::Io),
        PeerResponse::Frame { message_type, payload } => verdict_on(
            message_type,
            decoded_common_message(message_type, payload@),
        ),
    }
}

/// The state in which a handshake ends under a verdict.
pub open spec fn state_after(v: Result<(), HandshakeFailure>) -> HandshakeState {
    match v {
        Ok(()) => HandshakeState::Success,
        Err(HandshakeFailure::Rejected(_)) => HandshakeState::Rejected,
        Err(_) => HandshakeState::Malformed,
    }
}

/// One handshake: the state machine that a role runs once per connection
/// before any other traffic.
pub struct SetupConnectionHandler {
    state: HandshakeState,
}

impl SetupConnectionHandler {
    /// Where the handshake stands.
    pub closed spec fn state(&self) -> HandshakeState {
        self.state
    }

    /// A handshake that has not begun.
    pub fn new() -> (h: Self)
        ensures
            h.state() == HandshakeState::Idle,
    {
        SetupConnectionHandler { state: HandshakeState::Idle }
    }

    /// Where the handshake stands.
    pub fn current_state(&self) -> (s: HandshakeState)
        ensures
            s == self.state(),
    {
        self.state
    }

    /// The request of a template receiver for the endpoint `endpoint_host`:
    /// `endpoint_port`. A host name that does not fit its field cannot be
    /// announced.
    pub fn get_setup_connection_message(endpoint_host: Vec<u8>, endpoint_port: u16) -> (r: Result<
        HandshakeRequest,
        Error,
    >)
        ensures
            endpoint_host@.len() <= MAX_FIELD_LEN ==> r is Ok && r->Ok_0.well_formed()
                && r->Ok_0.is_minimal_for(endpoint_host@, endpoint_port),
            endpoint_host@.len() > MAX_FIELD_LEN ==> r matches Err(Error::Unrecoverable),
    {
        if endpoint_host.len() > MAX_FIELD_LEN {
            return Err(Error::Unrecoverable);
        }
        Ok(
            HandshakeRequest {
                protocol: Protocol::TemplateDistributionProtocol,
                min_version: PROTOCOL_VERSION,
                max_version: PROTOCOL_VERSION,
                flags: 0,
                endpoint_host,
                endpoint_port,
                vendor: Vec::new(),
                hardware_version: Vec::new(),
                firmware: Vec::new(),
                device_id: Vec::new(),
            },
        )
    }

    /// Builds the request and moves from `Idle` to `RequestSent`; the caller
    /// sends what it gets. Where no request can be built the handshake ends
    /// as `Malformed`.
    pub fn begin(&mut self, endpoint_host: Vec<u8>, endpoint_port: u16) -> (r: Result<
        HandshakeRequest,
        Error,
    >)
        requires
            old(self).state() == HandshakeState::Idle,
        ensures
            endpoint_host@.len() <= MAX_FIELD_LEN ==> r is Ok && r->Ok_0.well_formed()
                && r->Ok_0.is_minimal_for(endpoint_host@, endpoint_port) && final(self).state()
                == HandshakeState::RequestSent,
            endpoint_host@.len() > MAX_FIELD_LEN ==> (r matches Err(Error::Unrecoverable)) && final(self).state() == HandshakeState::Malformed,
    {
        let r = Self::get_setup_connection_message(endpoint_host, endpoint_port);
        match &r {
            Ok(_) => {
                self.state = HandshakeState::RequestSent;
            },
            Err(_) => {
                self.state = HandshakeState::Malformed;
            },
        }
        r
    }

    /// Takes note of how sending the request went: a request that went out
    /// moves the handshake to `AwaitingResponse`, one that did not ends it as
    /// `Malformed` with a transport failure.
    pub fn request_sent(&mut self, delivered: bool) -> (r: Result<(), Error>)
        requires
            old(self).state() == HandshakeState::RequestSent,
        ensures
            delivered ==> r is Ok && final(self).state() == HandshakeState::AwaitingResponse,
            !delivered ==> (r matches Err(Error::HandshakeIo)) && final(self).state()
                == HandshakeState::Malformed,
    {
        if delivered {
            self.state = HandshakeState::AwaitingResponse;
            Ok(())
        } else {
            self.state = HandshakeState::Malformed;
            Err(Error::HandshakeIo)
        }
    }

    /// The peer acknowledged the request: the handshake ends as `Success`.
    pub fn handle_setup_connection_success(&mut self) -> (r: Result<(), Error>)
        requires
            old(self).state() == HandshakeState::AwaitingResponse,
        ensures
            r is Ok,
            final(self).state() == HandshakeState::Success,
    {
        self.state = HandshakeState::Success;
        Ok(())
    }

    /// The peer refused the request: the handshake ends as `Rejected`, with
    /// the reason that the peer gave.
    pub fn handle_setup_connection_error(&mut self, error_code: Vec<u8>) -> (r: Result<(), Error>)
        requires
            old(self).state() == HandshakeState::AwaitingResponse,
        ensures
            r == Err::<(), Error>(Error::HandshakeRejected(error_code)),
            final(self).state() == HandshakeState::Rejected,
    {
        self.state = HandshakeState::Rejected;
        Err(Error::HandshakeRejected(error_code))
    }

    /// The peer announced that its endpoint changed, which this client does
    /// not implement: the handshake ends as `Malformed`.
    pub fn handle_channel_endpoint_changed(&mut self) -> (r: Result<(), Error>)
        requires
            old(self).state() == HandshakeState::AwaitingResponse,
        ensures
            r == Err::<(), Error>(Error::Unsupported),
            final(self).state() == HandshakeState::Malformed,
    {
        self.state = HandshakeState::Malformed;
        Err(Error::Unsupported)
    }

    /// The peer sent something that is no answer to the request: the
    /// handshake ends as `Malformed`.
    fn handle_unexpected(&mut self) -> (r: Result<(), Error>)
        requires
            old(self).state() == HandshakeState::AwaitingResponse,
        ensures
            r == Err::<(), Error>(Error::HandshakeProtocol),
            final(self).state() == HandshakeState::Malformed,
    {
        self.state = HandshakeState::Malformed;
        Err(Error::HandshakeProtocol)
    }

    /// Ends the handshake on a frame of the given message type whose payload
    /// was decoded to `decoded`.
    pub fn handle_message_common(&mut self, message_type: u8, decoded: CommonMessage) -> (r: Result<
        (),
        Error,
    >)
        requires
            old(self).state() == HandshakeState::AwaitingResponse,
        ensures
            is_verdict(r, verdict_on(message_type, decoded@)),
            final(self).state() == state_after(verdict_on(message_type, decoded@)),
    {
        if message_type == MESSAGE_TYPE_SETUP_CONNECTION_SUCCESS {
            self.handle_setup_connection_success()
        } else if message_type == MESSAGE_TYPE_SETUP_CONNECTION_ERROR {
            match decoded {
                CommonMessage::SetupConnectionError { flags: _, error_code } => {
                    self.handle_setup_connection_error(error_code)
                },
                _ => self.handle_unexpected(),
            }
        } else if message_type == MESSAGE_TYPE_CHANNEL_ENDPOINT_CHANGED {
            self.handle_channel_endpoint_changed()
        } else {
            self.handle_unexpected()
        }
    }

    /// Ends the handshake on what the peer did: a closed connection is a
    /// transport failure, a frame is judged by its message type and, where it
    /// is a refusal, by what its payload decodes to.
    pub fn response_received(&mut self, response: PeerResponse) -> (r: Result<(), Error>)
        requires
            old(self).state() == HandshakeState::AwaitingResponse,
        ensures
            is_verdict(r, verdict_on_response(response)),
            final(self).state() == state_after(verdict_on_response(response)),
            final(self).state().is_terminal(),
    {
        match response {
            PeerResponse::Closed => {
                self.state = HandshakeState::Malformed;
                Err(Error::HandshakeIo)
            },
            PeerResponse::Frame { message_type, payload } => {
                let decoded = if message_type == MESSAGE_TYPE_SETUP_CONNECTION_ERROR {
                    decode_common_message(message_type, payload)
                } else {
                    CommonMessage::Undecodable
                };
                self.handle_message_common(message_type, decoded)
            },
        }
    }

    /// The whole handshake of a template receiver with the endpoint
    /// `endpoint_host`:`endpoint_port`, given whether the request went out and
    /// what the peer did then. It succeeds exactly when the request can be
    /// built, went out, and was acknowledged.
    pub fn setup(
        endpoint_host: Vec<u8>,
        endpoint_port: u16,
        delivered: bool,
        response: PeerResponse,
    ) -> (r: Result<(), Error>)
        ensures
            is_verdict(r, setup_verdict(endpoint_host@, delivered, response)),
    {
        let mut handler = SetupConnectionHandler::new();
        match handler.begin(endpoint_host, endpoint_port) {
            Err(e) => Err(e),
            Ok(_) => match handler.request_sent(delivered) {
                Err(e) => Err(e),
                Ok(_) => handler.response_received(response),
            },
        }
    }
}

/// The verdict of a whole handshake.
pub open spec fn setup_verdict(host: Seq<u8>, delivered: bool, response: PeerResponse) -> Result<
    (),
    HandshakeFailure,
> {
    if host.len() > MAX_FIELD_LEN {
        Err(HandshakeFailure::Unrecoverable)
    } else if !delivered {
        Err(HandshakeFailure::Io)
    } else {
        verdict_on_response(response)
    }
}

/// A handshake succeeds on an acknowledgment and on nothing else: the request
/// can be built, it went out, and the peer answered with a frame of the
/// acknowledgment's type. It is a rejection only where the peer answered with
/// a refusal that decodes, and then the reason is the one the peer gave.
/// However it goes, the state it ends in is terminal.
pub proof fn lemma_handshake_outcomes(host: Seq<u8>, delivered: bool, response: PeerResponse)
    ensures
        setup_verdict(host, delivered, response) is Ok <==> (host.len() <= MAX_FIELD_LEN
            && delivered && response is Frame && response->message_type
            == MESSAGE_TYPE_SETUP_CONNECTION_SUCCESS),
        setup_verdict(host, delivered, response) matches Err(HandshakeFailure::Rejected(reason))
            ==> {
            &&& response is Frame
            &&& response->message_type == MESSAGE_TYPE_SETUP_CONNECTION_ERROR
            &&& decoded_common_message(response->message_type, response->payload@)
                is SetupConnectionError
            &&& decoded_common_message(
                response->message_type,
                response->payload@,
            )->SetupConnectionError_error_code == reason
        },
        response is Closed && host.len() <= MAX_FIELD_LEN && delivered ==> setup_verdict(
            host,
            delivered,
            response,
        ) == Err::<(), HandshakeFailure>(HandshakeFailure::Io),
        state_after(setup_verdict(host, delivered, response)).is_terminal(),
{
}

} // verus!

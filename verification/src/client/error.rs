//! Errors of the client's operations.
use crate::client::access::{opt_as_str, opt_str_bytes};
use crate::codec::ack::{AckReason, AckRx, AckV};
use crate::codec::auth::{spec_auth_reason_byte, AuthReason, AuthRx, AuthV};
use crate::codec::connack::{spec_connect_reason_byte, ConnackRx, ConnackV, ConnectReason};
use crate::codec::disconnect::{DisconnectReason, DisconnectRx, DisconnectV};
use crate::codec::puback::PubackReason;
use crate::codec::pubcomp::PubcompReason;
use crate::codec::pubrec::PubrecReason;
use crate::time::{duration_from_secs, duration_secs};
use crate::types::collections::UserProperties;
use crate::types::error::CodecError;
use core::time::Duration;
use vstd::prelude::*;

verus! {

/// The socket was closed.
#[derive(Debug, Clone, Copy, PartialEq, Eq, Structural)]
pub struct SocketClosed;

/// The handle that issued a request was dropped.
#[derive(Debug, Clone, Copy, PartialEq, Eq, Structural)]
pub struct HandleClosed;

/// The context stopped running.
#[derive(Debug, Clone, Copy, PartialEq, Eq, Structural)]
pub struct ContextExited;

/// The server ended the connection with a DISCONNECT packet.
#[derive(Debug)]
pub struct Disconnected {
    packet: DisconnectRx,
}

impl View for Disconnected {
    type V = DisconnectV;

    closed spec fn view(&self) -> DisconnectV {
        self.packet@
    }
}

impl Disconnected {
    /// The error that a received DISCONNECT packet stands for.
    pub fn from(packet: DisconnectRx) -> (r: Self)
        ensures
            r@ == packet@,
    {
        Disconnected { packet }
    }

    /// Reason of the disconnection.
    pub fn reason(&self) -> (r: DisconnectReason)
        ensures
            r == self@.reason,
    {
        self.packet.reason
    }

    /// Session expiry interval set by the server.
    pub fn session_expiry_interval(&self) -> (r: Duration)
        ensures
            duration_secs(r) == self@.session_expiry_interval,
    {
        duration_from_secs(self.packet.session_expiry_interval as u64)
    }

    /// Reason string.
    pub fn reason_string(&self) -> (r: Option<&str>)
        ensures
            opt_str_bytes(r) == self@.reason_string,
    {
        opt_as_str(&self.packet.reason_string)
    }

    /// Server reference.
    pub fn server_reference(&self) -> (r: Option<&str>)
        ensures
            opt_str_bytes(r) == self@.server_reference,
    {
        opt_as_str(&self.packet.server_reference)
    }

    /// User properties.
    pub fn user_properties(&self) -> (r: &UserProperties)
        ensures
            r@ == self@.user_property,
    {
        &self.packet.user_property
    }
}

/// An error inside the library.
#[derive(Debug, Clone, Copy)]
pub struct InternalError {
    msg: &'static str,
}

impl InternalError {
    /// An internal error with the given message.
    pub fn from(s: &'static str) -> (r: Self)
        ensures
            r.spec_msg() == s,
    {
        InternalError { msg: s }
    }

    /// The message of the error.
    pub closed spec fn spec_msg(self) -> &'static str {
        self.msg
    }

    /// The message of the error.
    pub fn msg(&self) -> (r: &'static str)
        ensures
            r == self.spec_msg(),
    {
        self.msg
    }
}

/// The server's receive maximum is reached: no more QoS>0 publications can
/// be sent until one is acknowledged.
#[derive(Debug, Clone, Copy, PartialEq, Eq, Structural)]
pub struct QuotaExceeded;

/// A packet is larger than the server accepts.
#[derive(Debug, Clone, Copy, PartialEq, Eq, Structural)]
pub struct MaximumPacketSizeExceeded;

/// The server refused the connection.
#[derive(Debug)]
pub struct ConnectError {
    packet: ConnackRx,
}

impl View for ConnectError {
    type V = ConnackV;

    closed spec fn view(&self) -> ConnackV {
        self.packet@
    }
}

impl ConnectError {
    /// The error that a refusing CONNACK packet stands for.
    pub fn from(packet: ConnackRx) -> (r: Self)
        ensures
            r@ == packet@,
    {
        ConnectError { packet }
    }

    /// Reason code of the refusal.
    pub fn reason(&self) -> (r: ConnectReason)
        ensures
            r == self@.reason,
    {
        self.packet.reason
    }

    /// Reason string.
    pub fn reason_string(&self) -> (r: Option<&str>)
        ensures
            opt_str_bytes(r) == self@.reason_string,
    {
        opt_as_str(&self.packet.reason_string)
    }

    /// Server reference.
    pub fn server_reference(&self) -> (r: Option<&str>)
        ensures
            opt_str_bytes(r) == self@.server_reference,
    {
        opt_as_str(&self.packet.server_reference)
    }

    /// User properties.
    pub fn user_properties(&self) -> (r: &UserProperties)
        ensures
            r@ == self@.user_property,
    {
        &self.packet.user_property
    }
}

/// The server refused an authentication step.
#[derive(Debug)]
pub struct AuthError {
    packet: AuthRx,
}

impl View for AuthError {
    type V = AuthV;

    closed spec fn view(&self) -> AuthV {
        self.packet@
    }
}

impl AuthError {
    /// The error that a refusing AUTH packet stands for.
    pub fn from(packet: AuthRx) -> (r: Self)
        ensures
            r@ == packet@,
    {
        AuthError { packet }
    }

    /// Reason code of the refusal.
    pub fn reason(&self) -> (r: AuthReason)
        ensures
            r == self@.reason,
    {
        self.packet.reason
    }

    /// Reason string.
    pub fn reason_string(&self) -> (r: Option<&str>)
        ensures
            opt_str_bytes(r) == self@.reason_string,
    {
        opt_as_str(&self.packet.reason_string)
    }

    /// User properties.
    pub fn user_properties(&self) -> (r: &UserProperties)
        ensures
            r@ == self@.user_property,
    {
        &self.packet.user_property
    }
}

/// The server refused a publication step.
#[derive(Debug)]
pub struct AckError<R> {
    pub(crate) packet: AckRx<R>,
}

impl<R> View for AckError<R> {
    type V = AckV<R>;

    closed spec fn view(&self) -> AckV<R> {
        self.packet@
    }
}

impl<R: AckReason> AckError<R> {
    /// The error that a refusing acknowledgement stands for.
    pub fn from(packet: AckRx<R>) -> (r: Self)
        ensures
            r@ == packet@,
    {
        AckError { packet }
    }

    /// Reason code of the refusal.
    pub fn reason(&self) -> (r: R)
        ensures
            r == self@.reason,
    {
        self.packet.reason
    }

    /// Reason string.
    pub fn reason_string(&self) -> (r: Option<&str>)
        ensures
            opt_str_bytes(r) == self@.reason_string,
    {
        opt_as_str(&self.packet.reason_string)
    }

    /// User properties.
    pub fn user_properties(&self) -> (r: &UserProperties)
        ensures
            r@ == self@.user_property,
    {
        &self.packet.user_property
    }
}

/// A refused QoS 1 publication.
pub type PubackError = AckError<PubackReason>;

/// A refused QoS 2 publication, at its first step.
pub type PubrecError = AckError<PubrecReason>;

/// A refused QoS 2 publication, at its last step.
pub type PubcompError = AckError<PubcompReason>;

/// Any error of the client.
#[derive(Debug)]
pub enum MqttError {
    /// See [InternalError].
    InternalError(InternalError),
    /// See [ConnectError].
    ConnectError(ConnectError),
    /// See [AuthError].
    AuthError(AuthError),
    /// See [PubackError].
    PubackError(PubackError),
    /// See [PubrecError].
    PubrecError(PubrecError),
    /// See [PubcompError].
    PubcompError(PubcompError),
    /// See [SocketClosed].
    SocketClosed(SocketClosed),
    /// See [HandleClosed].
    HandleClosed(HandleClosed),
    /// See [ContextExited].
    ContextExited(ContextExited),
    /// See [Disconnected].
    Disconnected(Disconnected),
    /// See [CodecError].
    CodecError(CodecError),
    /// See [QuotaExceeded].
    QuotaExceeded(QuotaExceeded),
    /// See [MaximumPacketSizeExceeded].
    MaximumPacketSizeExceeded(MaximumPacketSizeExceeded),
}

impl MqttError {
    /// The error that a received DISCONNECT packet stands for.
    pub fn from_disconnect(packet: DisconnectRx) -> (r: Self)
        ensures
            r matches MqttError::Disconnected(d) && d@ == packet@,
    {
        MqttError::Disconnected(Disconnected::from(packet))
    }
}

impl From<InternalError> for MqttError {
    fn from(err: InternalError) -> (r: Self) {
        MqttError::InternalError(err)
    }
}

impl vstd::std_specs::convert::FromSpecImpl<InternalError> for MqttError {
    open spec fn obeys_from_spec() -> bool {
        true
    }

    open spec fn from_spec(err: InternalError) -> MqttError {
        MqttError::InternalError(err)
    }
}

impl From<ConnectError> for MqttError {
    fn from(err: ConnectError) -> (r: Self) {
        MqttError::ConnectError(err)
    }
}

impl vstd::std_specs::convert::FromSpecImpl<ConnectError> for MqttError {
    open spec fn obeys_from_spec() -> bool {
        true
    }

    open spec fn from_spec(err: ConnectError) -> MqttError {
        MqttError::ConnectError(err)
    }
}

impl From<AuthError> for MqttError {
    fn from(err: AuthError) -> (r: Self) {
        MqttError::AuthError(err)
    }
}

impl vstd::std_specs::convert::FromSpecImpl<AuthError> for MqttError {
    open spec fn obeys_from_spec() -> bool {
        true
    }

    open spec fn from_spec(err: AuthError) -> MqttError {
        MqttError::AuthError(err)
    }
}

impl From<PubackError> for MqttError {
    fn from(err: PubackError) -> (r: Self) {
        MqttError::PubackError(err)
    }
}

impl vstd::std_specs::convert::FromSpecImpl<PubackError> for MqttError {
    open spec fn obeys_from_spec() -> bool {
        true
    }

    open spec fn from_spec(err: PubackError) -> MqttError {
        MqttError::PubackError(err)
    }
}

impl From<PubrecError> for MqttError {
    fn from(err: PubrecError) -> (r: Self) {
        MqttError::PubrecError(err)
    }
}

impl vstd::std_specs::convert::FromSpecImpl<PubrecError> for MqttError {
    open spec fn obeys_from_spec() -> bool {
        true
    }

    open spec fn from_spec(err: PubrecError) -> MqttError {
        MqttError::PubrecError(err)
    }
}

impl From<PubcompError> for MqttError {
    fn from(err: PubcompError) -> (r: Self) {
        MqttError::PubcompError(err)
    }
}

impl vstd::std_specs::convert::FromSpecImpl<PubcompError> for MqttError {
    open spec fn obeys_from_spec() -> bool {
        true
    }

    open spec fn from_spec(err: PubcompError) -> MqttError {
        MqttError::PubcompError(err)
    }
}

impl From<SocketClosed> for MqttError {
    fn from(err: SocketClosed) -> (r: Self) {
        MqttError::SocketClosed(err)
    }
}

impl vstd::std_specs::convert::FromSpecImpl<SocketClosed> for MqttError {
    open spec fn obeys_from_spec() -> bool {
        true
    }

    open spec fn from_spec(err: SocketClosed) -> MqttError {
        MqttError::SocketClosed(err)
    }
}

impl From<HandleClosed> for MqttError {
    fn from(err: HandleClosed) -> (r: Self) {
        MqttError::HandleClosed(err)
    }
}

impl vstd::std_specs::convert::FromSpecImpl<HandleClosed> for MqttError {
    open spec fn obeys_from_spec() -> bool {
        true
    }

    open spec fn from_spec(err: HandleClosed) -> MqttError {
        MqttError::HandleClosed(err)
    }
}

impl From<ContextExited> for MqttError {
    fn from(err: ContextExited) -> (r: Self) {
        MqttError::ContextExited(err)
    }
}

impl vstd::std_specs::convert::FromSpecImpl<ContextExited> for MqttError {
    open spec fn obeys_from_spec() -> bool {
        true
    }

    open spec fn from_spec(err: ContextExited) -> MqttError {
        MqttError::ContextExited(err)
    }
}

impl From<Disconnected> for MqttError {
    fn from(err: Disconnected) -> (r: Self) {
        MqttError::Disconnected(err)
    }
}

impl vstd::std_specs::convert::FromSpecImpl<Disconnected> for MqttError {
    open spec fn obeys_from_spec() -> bool {
        true
    }

    open spec fn from_spec(err: Disconnected) -> MqttError {
        MqttError::Disconnected(err)
    }
}

impl From<CodecError> for MqttError {
    fn from(err: CodecError) -> (r: Self) {
        MqttError::CodecError(err)
    }
}

impl vstd::std_specs::convert::FromSpecImpl<CodecError> for MqttError {
    open spec fn obeys_from_spec() -> bool {
        true
    }

    open spec fn from_spec(err: CodecError) -> MqttError {
        MqttError::CodecError(err)
    }
}

impl From<QuotaExceeded> for MqttError {
    fn from(err: QuotaExceeded) -> (r: Self) {
        MqttError::QuotaExceeded(err)
    }
}

impl vstd::std_specs::convert::FromSpecImpl<QuotaExceeded> for MqttError {
    open spec fn obeys_from_spec() -> bool {
        true
    }

    open spec fn from_spec(err: QuotaExceeded) -> MqttError {
        MqttError::QuotaExceeded(err)
    }
}

impl From<MaximumPacketSizeExceeded> for MqttError {
    fn from(err: MaximumPacketSizeExceeded) -> (r: Self) {
        MqttError::MaximumPacketSizeExceeded(err)
    }
}

impl vstd::std_specs::convert::FromSpecImpl<MaximumPacketSizeExceeded> for MqttError {
    open spec fn obeys_from_spec() -> bool {
        true
    }

    open spec fn from_spec(err: MaximumPacketSizeExceeded) -> MqttError {
        MqttError::MaximumPacketSizeExceeded(err)
    }
}

} // verus!

//! Responses to the client's requests and received application messages.
use crate::buffer::bytes_as_slice;
use crate::client::access::{opt_as_slice, opt_as_str, opt_slice_bytes, opt_str_bytes};
use crate::client::error::{AckError, AuthError, ConnectError, PubackError, PubcompError, PubrecError};
use crate::codec::ack::{AckRx, AckV};
use crate::codec::auth::{spec_auth_reason_byte, AuthReason, AuthRx, AuthV};
use crate::codec::connack::{spec_connect_reason_byte, ConnackRx, ConnackV, ConnectReason};
use crate::codec::puback::{spec_puback_reason_byte, PubackReason, PubackRx};
use crate::codec::pubcomp::{spec_pubcomp_reason_byte, PubcompReason, PubcompRx};
use crate::codec::publish::{PublishRx, PublishV};
use crate::codec::pubrec::{spec_pubrec_reason_byte, PubrecReason, PubrecRx};
use crate::codec::sub_ack::SubAckV;
use crate::codec::suback::{SubackReason, SubackRx};
use crate::codec::unsuback::{UnsubackReason, UnsubackRx};
use crate::time::{duration_from_secs, duration_secs};
use crate::types::base_types::QoS;
use crate::types::collections::UserProperties;
use core::time::Duration;
use vstd::prelude::*;
use vstd::string::StringSliceAdditionalSpecFns;

verus! {

/// The whole seconds of an optional duration.
pub open spec fn opt_secs(o: Option<Duration>) -> Option<u64> {
    match o {
        Some(d) => Some(duration_secs(d)),
        None => None,
    }
}

/// An optional two byte integer, widened.
pub open spec fn opt_u64_of_u16(o: Option<u16>) -> Option<u64> {
    match o {
        Some(v) => Some(v as u64),
        None => None,
    }
}

/// An optional four byte integer, widened.
pub open spec fn opt_u64_of_u32(o: Option<u32>) -> Option<u64> {
    match o {
        Some(v) => Some(v as u64),
        None => None,
    }
}


/// Response to the connection request, representing the CONNACK packet.
#[derive(Debug)]
pub struct ConnectRsp {
    pub(crate) packet: ConnackRx,
}

impl View for ConnectRsp {
    type V = ConnackV;

    closed spec fn view(&self) -> ConnackV {
        self.packet@
    }
}

impl ConnectRsp {
    /// The response that a received CONNACK packet stands for: a reason
    /// code of 0x80 or above makes it an error. Subscription identifiers must
    /// be available on a server that accepts the connection.
    pub fn try_from(packet: ConnackRx) -> (r: Result<Self, ConnectError>)
        requires
            spec_connect_reason_byte(packet@.reason) >= 0x80 || packet@.subscription_identifier_available,
        ensures
            spec_connect_reason_byte(packet@.reason) >= 0x80 ==> (r matches Err(e) && e@ == packet@),
            spec_connect_reason_byte(packet@.reason) < 0x80 ==> (r matches Ok(p) && p@ == packet@),
    {
        if u8::from(packet.reason) >= 0x80 {
            return Err(ConnectError::from(packet));
        }
        Ok(ConnectRsp { packet })
    }

    /// Whether the server holds a session for this client.
    pub fn session_present(&self) -> (r: bool)
        ensures
            r == self@.session_present,
    {
        self.packet.session_present
    }

    /// Reason code of the response.
    pub fn reason(&self) -> (r: ConnectReason)
        ensures
            r == self@.reason,
    {
        self.packet.reason
    }

    /// Whether wildcard subscriptions are available.
    pub fn wildcard_subscription_available(&self) -> (r: bool)
        ensures
            r == self@.wildcard_subscription_available,
    {
        self.packet.wildcard_subscription_available
    }

    /// Whether subscription identifiers are available.
    pub fn subscription_identifier_available(&self) -> (r: bool)
        ensures
            r == self@.subscription_identifier_available,
    {
        self.packet.subscription_identifier_available
    }

    /// Whether shared subscriptions are available.
    pub fn shared_subscription_available(&self) -> (r: bool)
        ensures
            r == self@.shared_subscription_available,
    {
        self.packet.shared_subscription_available
    }

    /// Maximum QoS the server accepts.
    pub fn maximum_qos(&self) -> (r: QoS)
        ensures
            r == self@.maximum_qos,
    {
        self.packet.maximum_qos
    }

    /// Whether retained messages are available.
    pub fn retain_available(&self) -> (r: bool)
        ensures
            r == self@.retain_available,
    {
        self.packet.retain_available
    }

    /// Keep alive that the server asks for.
    pub fn server_keep_alive(&self) -> (r: Option<Duration>)
        ensures
            opt_secs(r) == opt_u64_of_u16(self@.server_keep_alive),
    {
        match self.packet.server_keep_alive {
            Some(v) => Some(duration_from_secs(v as u64)),
            None => None,
        }
    }

    /// Maximum QoS>0 publications the server handles at once.
    pub fn receive_maximum(&self) -> (r: u16)
        ensures
            r == self@.receive_maximum,
    {
        self.packet.receive_maximum.get()
    }

    /// Highest topic alias the server accepts.
    pub fn topic_alias_maximum(&self) -> (r: u16)
        ensures
            r == self@.topic_alias_maximum,
    {
        self.packet.topic_alias_maximum
    }

    /// Session expiry interval chosen by the server.
    pub fn session_expiry_interval(&self) -> (r: Option<Duration>)
        ensures
            opt_secs(r) == opt_u64_of_u32(self@.session_expiry_interval),
    {
        match self.packet.session_expiry_interval {
            Some(v) => Some(duration_from_secs(v as u64)),
            None => None,
        }
    }

    /// Largest packet the server accepts.
    pub fn maximum_packet_size(&self) -> (r: Option<u32>)
        ensures
            r == self@.maximum_packet_size,
    {
        match self.packet.maximum_packet_size {
            Some(v) => Some(v.get()),
            None => None,
        }
    }

    /// Client identifier assigned by the server.
    pub fn assigned_client_identifier(&self) -> (r: Option<&str>)
        ensures
            opt_str_bytes(r) == self@.assigned_client_identifier,
    {
        opt_as_str(&self.packet.assigned_client_identifier)
    }

    /// Reason string.
    pub fn reason_string(&self) -> (r: Option<&str>)
        ensures
            opt_str_bytes(r) == self@.reason_string,
    {
        opt_as_str(&self.packet.reason_string)
    }

    /// Response information.
    pub fn response_information(&self) -> (r: Option<&str>)
        ensures
            opt_str_bytes(r) == self@.response_information,
    {
        opt_as_str(&self.packet.response_information)
    }

    /// Server reference.
    pub fn server_reference(&self) -> (r: Option<&str>)
        ensures
            opt_str_bytes(r) == self@.server_reference,
    {
        opt_as_str(&self.packet.server_reference)
    }

    /// Authentication method.
    pub fn authentication_method(&self) -> (r: Option<&str>)
        ensures
            opt_str_bytes(r) == self@.authentication_method,
    {
        opt_as_str(&self.packet.authentication_method)
    }

    /// Authentication data.
    pub fn authentication_data(&self) -> (r: Option<&[u8]>)
        ensures
            opt_slice_bytes(r) == self@.authentication_data,
    {
        opt_as_slice(&self.packet.authentication_data)
    }

    /// User properties.
    pub fn user_properties(&self) -> (r: &UserProperties)
        ensures
            r@ == self@.user_property,
    {
        &self.packet.user_property
    }
}

/// Response to an authentication step, representing the AUTH packet.
#[derive(Debug)]
pub struct AuthRsp {
    pub(crate) packet: AuthRx,
}

impl View for AuthRsp {
    type V = AuthV;

    closed spec fn view(&self) -> AuthV {
        self.packet@
    }
}

impl AuthRsp {
    /// The response that a received packet stands for: a reason code of
    /// 0x80 or above makes it an error.
    pub fn try_from(packet: AuthRx) -> (r: Result<Self, AuthError>)
        ensures
            spec_auth_reason_byte(packet@.reason) >= 0x80 ==> (r matches Err(e) && e@ == packet@),
            spec_auth_reason_byte(packet@.reason) < 0x80 ==> (r matches Ok(p) && p@ == packet@),
    {
        if u8::from(packet.reason) >= 0x80 {
            return Err(AuthError::from(packet));
        }
        Ok(AuthRsp { packet })
    }

    /// Reason code of the response.
    pub fn reason(&self) -> (r: AuthReason)
        ensures
            r == self@.reason,
    {
        self.packet.reason
    }

    /// Reason string.
    pub fn reason_string(&self) -> (r: Option<&str>)
        ensures
            opt_str_bytes(r) == self@.reason_string,
    {
        opt_as_str(&self.packet.reason_string)
    }

    /// Authentication method.
    pub fn authentication_method(&self) -> (r: Option<&str>)
        ensures
            opt_str_bytes(r) == self@.authentication_method,
    {
        opt_as_str(&self.packet.authentication_method)
    }

    /// Authentication data.
    pub fn authentication_data(&self) -> (r: Option<&[u8]>)
        ensures
            opt_slice_bytes(r) == self@.authentication_data,
    {
        opt_as_slice(&self.packet.authentication_data)
    }

    /// User properties.
    pub fn user_properties(&self) -> (r: &UserProperties)
        ensures
            r@ == self@.user_property,
    {
        &self.packet.user_property
    }
}

/// Response to the subscription request, representing the SUBACK packet.
#[derive(Debug)]
pub struct SubscribeRsp {
    pub(crate) packet: SubackRx,
}

impl View for SubscribeRsp {
    type V = SubAckV<SubackReason>;

    closed spec fn view(&self) -> SubAckV<SubackReason> {
        self.packet@
    }
}

impl SubscribeRsp {
    /// The response that a received SUBACK packet stands for.
    pub fn from(packet: SubackRx) -> (r: Self)
        ensures
            r@ == packet@,
    {
        SubscribeRsp { packet }
    }

    /// Reason string.
    pub fn reason_string(&self) -> (r: Option<&str>)
        ensures
            opt_str_bytes(r) == self@.reason_string,
    {
        opt_as_str(&self.packet.reason_string)
    }

    /// User properties.
    pub fn user_properties(&self) -> (r: &UserProperties)
        ensures
            r@ == self@.user_property,
    {
        &self.packet.user_property
    }

    /// The reason codes, one per requested topic filter, in order.
    pub fn payload(&self) -> (r: &[SubackReason])
        ensures
            r@ == self@.payload,
    {
        self.packet.payload.as_slice()
    }
}

/// Response to the unsubscribe request, representing the UNSUBACK packet.
#[derive(Debug)]
pub struct UnsubscribeRsp {
    pub(crate) packet: UnsubackRx,
}

impl View for UnsubscribeRsp {
    type V = SubAckV<UnsubackReason>;

    closed spec fn view(&self) -> SubAckV<UnsubackReason> {
        self.packet@
    }
}

impl UnsubscribeRsp {
    /// The response that a received UNSUBACK packet stands for.
    pub fn from(packet: UnsubackRx) -> (r: Self)
        ensures
            r@ == packet@,
    {
        UnsubscribeRsp { packet }
    }

    /// Reason string.
    pub fn reason_string(&self) -> (r: Option<&str>)
        ensures
            opt_str_bytes(r) == self@.reason_string,
    {
        opt_as_str(&self.packet.reason_string)
    }

    /// User properties.
    pub fn user_properties(&self) -> (r: &UserProperties)
        ensures
            r@ == self@.user_property,
    {
        &self.packet.user_property
    }

    /// The reason codes, one per requested topic filter, in order.
    pub fn payload(&self) -> (r: &[UnsubackReason])
        ensures
            r@ == self@.payload,
    {
        self.packet.payload.as_slice()
    }
}

/// An application message received on a subscription.
#[derive(Debug)]
pub struct PublishData {
    pub(crate) packet: PublishRx,
}

impl View for PublishData {
    type V = PublishV;

    closed spec fn view(&self) -> PublishV {
        self.packet@
    }
}

impl PublishData {
    /// The message that a received PUBLISH packet carries.
    pub fn from(packet: PublishRx) -> (r: Self)
        ensures
            r@ == packet@,
    {
        PublishData { packet }
    }

    /// Whether this is a redelivery.
    pub fn dup(&self) -> (r: bool)
        ensures
            r == self@.dup,
    {
        self.packet.dup
    }

    /// Whether the message was retained.
    pub fn retain(&self) -> (r: bool)
        ensures
            r == self@.retain,
    {
        self.packet.retain
    }

    /// Quality of service.
    pub fn qos(&self) -> (r: QoS)
        ensures
            r == self@.qos,
    {
        self.packet.qos
    }

    /// Topic name.
    pub fn topic_name(&self) -> (r: &str)
        ensures
            r.spec_bytes() == self@.topic_name,
    {
        self.packet.topic_name.as_str()
    }

    /// Whether the payload is UTF-8 text.
    pub fn payload_format_indicator(&self) -> (r: Option<bool>)
        ensures
            r == self@.payload_format_indicator,
    {
        self.packet.payload_format_indicator
    }

    /// Topic alias.
    pub fn topic_alias(&self) -> (r: Option<u16>)
        ensures
            r == self@.topic_alias,
    {
        match self.packet.topic_alias {
            Some(v) => Some(v.get()),
            None => None,
        }
    }

    /// Expiry interval of the message.
    pub fn message_expiry_interval(&self) -> (r: Option<Duration>)
        ensures
            opt_secs(r) == opt_u64_of_u32(self@.message_expiry_interval),
    {
        match self.packet.message_expiry_interval {
            Some(v) => Some(duration_from_secs(v as u64)),
            None => None,
        }
    }

    /// Correlation data.
    pub fn correlation_data(&self) -> (r: Option<&[u8]>)
        ensures
            opt_slice_bytes(r) == self@.correlation_data,
    {
        opt_as_slice(&self.packet.correlation_data)
    }

    /// Response topic.
    pub fn response_topic(&self) -> (r: Option<&str>)
        ensures
            opt_str_bytes(r) == self@.response_topic,
    {
        opt_as_str(&self.packet.response_topic)
    }

    /// Content type.
    pub fn content_type(&self) -> (r: Option<&str>)
        ensures
            opt_str_bytes(r) == self@.content_type,
    {
        opt_as_str(&self.packet.content_type)
    }

    /// Application data.
    pub fn payload(&self) -> (r: &[u8])
        ensures
            r@ == self@.payload,
    {
        bytes_as_slice(&self.packet.payload.0)
    }

    /// User properties.
    pub fn user_properties(&self) -> (r: &UserProperties)
        ensures
            r@ == self@.user_property,
    {
        &self.packet.user_property
    }

    /// Identifier of the subscription that the message matched.
    pub fn subscription_identifier(&self) -> (r: Option<u32>)
        ensures
            r == (match self@.subscription_identifier {
                Some(v) => Some(v.spec_value() as u32),
                None => None::<u32>,
            }),
    {
        match self.packet.subscription_identifier {
            Some(v) => Some(v.get().value()),
            None => None,
        }
    }
}

/// Response to a publication step, representing the PUBACK packet.
#[derive(Debug)]
pub struct PubackRsp {
    pub(crate) packet: PubackRx,
}

impl View for PubackRsp {
    type V = AckV<PubackReason>;

    closed spec fn view(&self) -> AckV<PubackReason> {
        self.packet@
    }
}

impl PubackRsp {
    /// The response that a received packet stands for: a reason code of
    /// 0x80 or above makes it an error.
    pub fn try_from(packet: PubackRx) -> (r: Result<Self, PubackError>)
        ensures
            spec_puback_reason_byte(packet@.reason) >= 0x80 ==> (r matches Err(e) && e@ == packet@),
            spec_puback_reason_byte(packet@.reason) < 0x80 ==> (r matches Ok(p) && p@ == packet@),
    {
        if u8::from(packet.reason) >= 0x80 {
            return Err(PubackError::from(packet));
        }
        Ok(PubackRsp { packet })
    }

    /// Reason code of the response.
    pub fn reason(&self) -> (r: PubackReason)
        ensures
            r == self@.reason,
    {
        self.packet.reason
    }

    /// Reason string.
    pub fn reason_string(&self) -> (r: Option<&str>)
        ensures
            opt_str_bytes(r) == self@.reason_string,
    {
        opt_as_str(&self.packet.reason_string)
    }

    /// User properties.
    pub fn user_properties(&self) -> (r: &UserProperties)
        ensures
            r@ == self@.user_property,
    {
        &self.packet.user_property
    }
}

/// Response to a publication step, representing the PUBREC packet.
#[derive(Debug)]
pub struct PubrecRsp {
    pub(crate) packet: PubrecRx,
}

impl View for PubrecRsp {
    type V = AckV<PubrecReason>;

    closed spec fn view(&self) -> AckV<PubrecReason> {
        self.packet@
    }
}

impl PubrecRsp {
    /// The response that a received packet stands for: a reason code of
    /// 0x80 or above makes it an error.
    pub fn try_from(packet: PubrecRx) -> (r: Result<Self, PubrecError>)
        ensures
            spec_pubrec_reason_byte(packet@.reason) >= 0x80 ==> (r matches Err(e) && e@ == packet@),
            spec_pubrec_reason_byte(packet@.reason) < 0x80 ==> (r matches Ok(p) && p@ == packet@),
    {
        if u8::from(packet.reason) >= 0x80 {
            return Err(PubrecError::from(packet));
        }
        Ok(PubrecRsp { packet })
    }

    /// Reason code of the response.
    pub fn reason(&self) -> (r: PubrecReason)
        ensures
            r == self@.reason,
    {
        self.packet.reason
    }

    /// Reason string.
    pub fn reason_string(&self) -> (r: Option<&str>)
        ensures
            opt_str_bytes(r) == self@.reason_string,
    {
        opt_as_str(&self.packet.reason_string)
    }

    /// User properties.
    pub fn user_properties(&self) -> (r: &UserProperties)
        ensures
            r@ == self@.user_property,
    {
        &self.packet.user_property
    }
}

/// Response to a publication step, representing the PUBCOMP packet.
#[derive(Debug)]
pub struct PubcompRsp {
    pub(crate) packet: PubcompRx,
}

impl View for PubcompRsp {
    type V = AckV<PubcompReason>;

    closed spec fn view(&self) -> AckV<PubcompReason> {
        self.packet@
    }
}

impl PubcompRsp {
    /// The response that a received packet stands for: a reason code of
    /// 0x80 or above makes it an error.
    pub fn try_from(packet: PubcompRx) -> (r: Result<Self, PubcompError>)
        ensures
            spec_pubcomp_reason_byte(packet@.reason) >= 0x80 ==> (r matches Err(e) && e@ == packet@),
            spec_pubcomp_reason_byte(packet@.reason) < 0x80 ==> (r matches Ok(p) && p@ == packet@),
    {
        if u8::from(packet.reason) >= 0x80 {
            return Err(PubcompError::from(packet));
        }
        Ok(PubcompRsp { packet })
    }

    /// Reason code of the response.
    pub fn reason(&self) -> (r: PubcompReason)
        ensures
            r == self@.reason,
    {
        self.packet.reason
    }

    /// Reason string.
    pub fn reason_string(&self) -> (r: Option<&str>)
        ensures
            opt_str_bytes(r) == self@.reason_string,
    {
        opt_as_str(&self.packet.reason_string)
    }

    /// User properties.
    pub fn user_properties(&self) -> (r: &UserProperties)
        ensures
            r@ == self@.user_property,
    {
        &self.packet.user_property
    }
}

} // verus!

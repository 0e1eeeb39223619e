//! Options of the client's requests, each a consuming builder that the
//! request turns into the packet it sends.
use crate::codec::auth::{spec_auth_builder_valid, spec_auth_tx_valid, AuthReason, AuthTx, AuthTxBuilder};
use crate::codec::connect::{spec_client_identifier, spec_connect_build_error, spec_or, ConnectTx, ConnectTxBuilder};
use crate::codec::disconnect::{DisconnectReason, DisconnectTx, DisconnectTxBuilder};
use crate::codec::publish::{spec_builder_qos, spec_publish_builder_valid, PublishTx, PublishTxBuilder};
use crate::codec::subscribe::{
    spec_builder_subscriptions, RetainHandling, SubscribeTx, SubscribeTxBuilder, SubscriptionOptions,
};
use crate::codec::unsubscribe::{spec_builder_topics, UnsubscribeTx, UnsubscribeTxBuilder};
use crate::time::{duration_as_secs, duration_secs};
use crate::types::base_types::{BinaryRef, NonZero, PayloadRef, QoS, UTF8StringPairRef, UTF8StringRef, VarSizeInt};
use crate::types::error::{CodecError, MandatoryPropertyMissing, UnexpectedProperty};
use crate::types::properties::spec_builder_pairs;
use core::time::Duration;
use vstd::prelude::*;

verus! {

/// Connection options, represented as a consuming builder. Used during connection
/// requests, translated to the CONNECT packet.
#[derive(Debug)]
pub struct ConnectOpts<'a> {
    builder: ConnectTxBuilder<'a>,
}

impl<'a> View for ConnectOpts<'a> {
    type V = ConnectTxBuilder<'a>;

    closed spec fn view(&self) -> ConnectTxBuilder<'a> {
        self.builder
    }
}

impl<'a> ConnectOpts<'a> {
    /// Creates a new [ConnectOpts] instance, with nothing set.
    pub fn new() -> (r: Self)
        ensures
            r@ == ConnectTxBuilder::<'a>::spec_new(),
    {
        ConnectOpts { builder: ConnectTxBuilder::new() }
    }

    /// Sets the client identifier.
    pub fn client_identifier(self, val: &'a str) -> (r: Self)
        ensures
            r@ == (ConnectTxBuilder { client_identifier: Some(UTF8StringRef(val)), ..self@ }),
    {
        let mut s = self;
        s.builder.client_identifier(UTF8StringRef(val));
        s
    }

    /// Sets the session keep alive.
    ///
    /// The duration in whole seconds must not exceed [u16::MAX].
    pub fn keep_alive(self, val: Duration) -> (r: Self)
        requires
            duration_secs(val) <= u16::MAX,
        ensures
            r@ == (ConnectTxBuilder { keep_alive: Some(duration_secs(val) as u16), ..self@ }),
    {
        let mut s = self;
        let secs = duration_as_secs(val);
        s.builder.keep_alive(secs as u16);
        s
    }

    /// Sets the session expiry interval.
    ///
    /// The duration in whole seconds must not exceed [u32::MAX].
    pub fn session_expiry_interval(self, val: Duration) -> (r: Self)
        requires
            duration_secs(val) <= u32::MAX,
        ensures
            r@ == (ConnectTxBuilder { session_expiry_interval: Some(duration_secs(val) as u32), ..self@ }),
    {
        let mut s = self;
        let secs = duration_as_secs(val);
        s.builder.session_expiry_interval(secs as u32);
        s
    }

    /// Sets the maximum incoming QoS>0 publish messages handled at once.
    ///
    /// `val` must be greater than 0.
    pub fn receive_maximum(self, val: u16) -> (r: Self)
        requires
            val != 0,
        ensures
            r@ == (ConnectTxBuilder { receive_maximum: r@.receive_maximum, ..self@ }),
            r@.receive_maximum matches Some(v) && v.spec_get() == val,
    {
        let mut s = self;
        s.builder.receive_maximum(NonZero::<u16>::try_from(val).unwrap());
        s
    }

    /// Sets the maximum packet size (in bytes).
    ///
    /// `val` must be greater than 0.
    pub fn maximum_packet_size(self, val: u32) -> (r: Self)
        requires
            val != 0,
        ensures
            r@ == (ConnectTxBuilder { maximum_packet_size: r@.maximum_packet_size, ..self@ }),
            r@.maximum_packet_size matches Some(v) && v.spec_get() == val,
    {
        let mut s = self;
        s.builder.maximum_packet_size(NonZero::<u32>::try_from(val).unwrap());
        s
    }

    /// Sets the maximum accepted value of topic alias.
    pub fn topic_alias_maximum(self, val: u16) -> (r: Self)
        ensures
            r@ == (ConnectTxBuilder { topic_alias_maximum: Some(val), ..self@ }),
    {
        let mut s = self;
        s.builder.topic_alias_maximum(val);
        s
    }

    /// Requests the broker to return response information in the connection response.
    pub fn request_response_information(self, val: bool) -> (r: Self)
        ensures
            r@ == (ConnectTxBuilder { request_response_information: Some(val), ..self@ }),
    {
        let mut s = self;
        s.builder.request_response_information(val);
        s
    }

    /// Requests the broker to return additional diagnostic data (reason string,
    /// user properties) in the connection response.
    pub fn request_problem_information(self, val: bool) -> (r: Self)
        ensures
            r@ == (ConnectTxBuilder { request_problem_information: Some(val), ..self@ }),
    {
        let mut s = self;
        s.builder.request_problem_information(val);
        s
    }

    /// Sets the name of the authentication method used for extended authorization.
    pub fn authentication_method(self, val: &'a str) -> (r: Self)
        ensures
            r@ == (ConnectTxBuilder { authentication_method: Some(UTF8StringRef(val)), ..self@ }),
    {
        let mut s = self;
        s.builder.authentication_method(UTF8StringRef(val));
        s
    }

    /// Sets the binary authentication data. Note that setting authentication data
    /// without an authentication method set makes the request fail.
    pub fn authentication_data(self, val: &'a [u8]) -> (r: Self)
        ensures
            r@ == (ConnectTxBuilder { authentication_data: Some(BinaryRef(val)), ..self@ }),
    {
        let mut s = self;
        s.builder.authentication_data(BinaryRef(val));
        s
    }

    /// Sets user properties as key-value pairs. Multiple user properties may be set.
    pub fn user_property(self, kv: (&'a str, &'a str)) -> (r: Self)
        ensures
            spec_builder_pairs(r@.user_property) == spec_builder_pairs(self@.user_property).push(UTF8StringPairRef(kv.0, kv.1)),
            r@.user_property is Some,
            r@ == (ConnectTxBuilder { user_property: r@.user_property, ..self@ }),
    {
        let mut s = self;
        let (key, val) = kv;
        s.builder.user_property(UTF8StringPairRef(key, val));
        s
    }

    /// [QoS] used for will messages.
    pub fn will_qos(self, val: QoS) -> (r: Self)
        ensures
            r@ == (ConnectTxBuilder { will_qos: Some(val), ..self@ }),
    {
        let mut s = self;
        s.builder.will_qos(val);
        s
    }

    /// Retain for will messages.
    pub fn will_retain(self, val: bool) -> (r: Self)
        ensures
            r@ == (ConnectTxBuilder { will_retain: Some(val), ..self@ }),
    {
        let mut s = self;
        s.builder.will_retain(val);
        s
    }

    /// Clears the session upon connection.
    pub fn clean_start(self, val: bool) -> (r: Self)
        ensures
            r@ == (ConnectTxBuilder { clean_start: Some(val), ..self@ }),
    {
        let mut s = self;
        s.builder.clean_start(val);
        s
    }

    /// Sets delay before publishing will messages.
    ///
    /// The duration in whole seconds must not exceed [u32::MAX].
    pub fn will_delay_interval(self, val: Duration) -> (r: Self)
        requires
            duration_secs(val) <= u32::MAX,
        ensures
            r@ == (ConnectTxBuilder { will_delay_interval: Some(duration_secs(val) as u32), ..self@ }),
    {
        let mut s = self;
        let secs = duration_as_secs(val);
        s.builder.will_delay_interval(secs as u32);
        s
    }

    /// Sets payload format indicator for will messages.
    /// Value `false` indicates that the will payload is in unspecified format.
    /// Value `true` indicates that the payload is UTF8 encoded character data.
    pub fn will_payload_format_indicator(self, val: bool) -> (r: Self)
        ensures
            r@ == (ConnectTxBuilder { will_payload_format_indicator: Some(val), ..self@ }),
    {
        let mut s = self;
        s.builder.will_payload_format_indicator(val);
        s
    }

    /// Sets the expiry interval of the will messages.
    ///
    /// The duration in whole seconds must not exceed [u32::MAX].
    pub fn will_message_expiry_interval(self, val: Duration) -> (r: Self)
        requires
            duration_secs(val) <= u32::MAX,
        ensures
            r@ == (ConnectTxBuilder { will_message_expiry_interval: Some(duration_secs(val) as u32), ..self@ }),
    {
        let mut s = self;
        let secs = duration_as_secs(val);
        s.builder.will_message_expiry_interval(secs as u32);
        s
    }

    /// Sets the content type of will messages.
    pub fn will_content_type(self, val: &'a str) -> (r: Self)
        ensures
            r@ == (ConnectTxBuilder { will_content_type: Some(UTF8StringRef(val)), ..self@ }),
    {
        let mut s = self;
        s.builder.will_content_type(UTF8StringRef(val));
        s
    }

    /// Sets the response topic for will messages.
    pub fn will_response_topic(self, val: &'a str) -> (r: Self)
        ensures
            r@ == (ConnectTxBuilder { will_response_topic: Some(UTF8StringRef(val)), ..self@ }),
    {
        let mut s = self;
        s.builder.will_response_topic(UTF8StringRef(val));
        s
    }

    /// Sets the correlation data for will messages.
    pub fn will_correlation_data(self, val: &'a [u8]) -> (r: Self)
        ensures
            r@ == (ConnectTxBuilder { will_correlation_data: Some(BinaryRef(val)), ..self@ }),
    {
        let mut s = self;
        s.builder.will_correlation_data(BinaryRef(val));
        s
    }

    /// Sets user properties for will messages as key-value pairs. Multiple user properties may be set.
    pub fn will_user_property(self, kv: (&'a str, &'a str)) -> (r: Self)
        ensures
            spec_builder_pairs(r@.will_user_property) == spec_builder_pairs(self@.will_user_property).push(UTF8StringPairRef(kv.0, kv.1)),
            r@.will_user_property is Some,
            r@ == (ConnectTxBuilder { will_user_property: r@.will_user_property, ..self@ }),
    {
        let mut s = self;
        let (key, val) = kv;
        s.builder.will_user_property(UTF8StringPairRef(key, val));
        s
    }

    /// Sets the topic for will messages.
    pub fn will_topic(self, val: &'a str) -> (r: Self)
        ensures
            r@ == (ConnectTxBuilder { will_topic: Some(UTF8StringRef(val)), ..self@ }),
    {
        let mut s = self;
        s.builder.will_topic(UTF8StringRef(val));
        s
    }

    /// Sets the binary payload for will messages.
    pub fn will_payload(self, val: &'a [u8]) -> (r: Self)
        ensures
            r@ == (ConnectTxBuilder { will_payload: Some(BinaryRef(val)), ..self@ }),
    {
        let mut s = self;
        s.builder.will_payload(BinaryRef(val));
        s
    }

    /// Sets the username for normal authorization.
    pub fn username(self, val: &'a str) -> (r: Self)
        ensures
            r@ == (ConnectTxBuilder { username: Some(UTF8StringRef(val)), ..self@ }),
    {
        let mut s = self;
        s.builder.username(UTF8StringRef(val));
        s
    }

    /// Sets the password for normal authorization.
    pub fn password(self, val: &'a [u8]) -> (r: Self)
        ensures
            r@ == (ConnectTxBuilder { password: Some(BinaryRef(val)), ..self@ }),
    {
        let mut s = self;
        s.builder.password(BinaryRef(val));
        s
    }

    /// Turns the options into the packet they stand for.
    pub fn build(self) -> (r: Result<ConnectTx<'a>, CodecError>)
        ensures
            match spec_connect_build_error(self@) {
                Some(e) => r == Err::<ConnectTx<'a>, CodecError>(e),
                None => r matches Ok(tx)
                    && tx.keep_alive == spec_or(self@.keep_alive, 0u16)
                    && tx.session_expiry_interval == self@.session_expiry_interval
                    && tx.receive_maximum == self@.receive_maximum
                    && tx.maximum_packet_size == self@.maximum_packet_size
                    && tx.topic_alias_maximum == self@.topic_alias_maximum
                    && tx.request_response_information == self@.request_response_information
                    && tx.request_problem_information == self@.request_problem_information
                    && tx.authentication_method == self@.authentication_method
                    && tx.authentication_data == self@.authentication_data
                    && tx.user_property@ == spec_builder_pairs(self@.user_property)
                    && tx.will_qos == spec_or(self@.will_qos, QoS::AtMostOnce)
                    && tx.will_retain == spec_or(self@.will_retain, false)
                    && tx.clean_start == spec_or(self@.clean_start, false)
                    && tx.client_identifier == spec_client_identifier(self@.client_identifier)
                    && tx.will_delay_interval == self@.will_delay_interval
                    && tx.will_payload_format_indicator == self@.will_payload_format_indicator
                    && tx.will_message_expiry_interval == self@.will_message_expiry_interval
                    && tx.will_content_type == self@.will_content_type
                    && tx.will_response_topic == self@.will_response_topic
                    && tx.will_correlation_data == self@.will_correlation_data
                    && tx.will_user_property@ == spec_builder_pairs(self@.will_user_property)
                    && tx.will_topic == self@.will_topic
                    && tx.will_payload == self@.will_payload
                    && tx.username == self@.username
                    && tx.password == self@.password,
            },
    {
        self.builder.build()
    }
}

impl<'a> Default for ConnectOpts<'a> {
    fn default() -> (r: Self)
        ensures
            r@ == ConnectTxBuilder::<'a>::spec_new(),
    {
        Self::new()
    }
}

/// Authorization options, represented as a consuming builder. Used during
/// extended authorization, translated to the AUTH packet.
#[derive(Debug)]
pub struct AuthOpts<'a> {
    builder: AuthTxBuilder<'a>,
}

impl<'a> View for AuthOpts<'a> {
    type V = AuthTxBuilder<'a>;

    closed spec fn view(&self) -> AuthTxBuilder<'a> {
        self.builder
    }
}

impl<'a> AuthOpts<'a> {
    /// Creates a new [AuthOpts] instance, with nothing set.
    pub fn new() -> (r: Self)
        ensures
            r@ == AuthTxBuilder::<'a>::spec_new(),
    {
        AuthOpts { builder: AuthTxBuilder::new() }
    }

    /// Sets a reason value.
    pub fn reason(self, val: AuthReason) -> (r: Self)
        ensures
            r@ == (AuthTxBuilder { reason: Some(val), ..self@ }),
    {
        let mut s = self;
        s.builder.reason(val);
        s
    }

    /// Sets a reason string property.
    pub fn reason_string(self, val: &'a str) -> (r: Self)
        ensures
            r@ == (AuthTxBuilder { reason_string: Some(UTF8StringRef(val)), ..self@ }),
    {
        let mut s = self;
        s.builder.reason_string(UTF8StringRef(val));
        s
    }

    /// Sets the name of the authentication method used for extended authorization.
    pub fn authentication_method(self, val: &'a str) -> (r: Self)
        ensures
            r@ == (AuthTxBuilder { authentication_method: Some(UTF8StringRef(val)), ..self@ }),
    {
        let mut s = self;
        s.builder.authentication_method(UTF8StringRef(val));
        s
    }

    /// Sets the binary authentication data. Note that setting authentication data
    /// without an authentication method set makes the request fail.
    pub fn authentication_data(self, val: &'a [u8]) -> (r: Self)
        ensures
            r@ == (AuthTxBuilder { authentication_data: Some(BinaryRef(val)), ..self@ }),
    {
        let mut s = self;
        s.builder.authentication_data(BinaryRef(val));
        s
    }

    /// Sets user properties as key-value pairs. Multiple user properties may be set.
    pub fn user_property(self, kv: (&'a str, &'a str)) -> (r: Self)
        ensures
            spec_builder_pairs(r@.user_property) == spec_builder_pairs(self@.user_property).push(UTF8StringPairRef(kv.0, kv.1)),
            r@.user_property is Some,
            r@ == (AuthTxBuilder { user_property: r@.user_property, ..self@ }),
    {
        let mut s = self;
        let (key, val) = kv;
        s.builder.user_property(UTF8StringPairRef(key, val));
        s
    }

    /// Turns the options into the packet they stand for.
    pub fn build(self) -> (r: Result<AuthTx<'a>, CodecError>)
        ensures
            spec_auth_builder_valid(self@) ==> (r matches Ok(tx) && tx.reason == (match self@.reason {
                Some(v) => v,
                None => AuthReason::Success,
            }) && tx.authentication_method == self@.authentication_method
                && tx.authentication_data == self@.authentication_data
                && tx.reason_string == self@.reason_string
                && tx.user_property@ == spec_builder_pairs(self@.user_property)
                && spec_auth_tx_valid(tx)),
            !spec_auth_builder_valid(self@) ==> r == Err::<AuthTx<'a>, CodecError>(
                CodecError::MandatoryPropertyMissing(MandatoryPropertyMissing),
            ),
    {
        self.builder.build()
    }
}

impl<'a> Default for AuthOpts<'a> {
    fn default() -> (r: Self)
        ensures
            r@ == AuthTxBuilder::<'a>::spec_new(),
    {
        Self::new()
    }
}

/// Disconnection options, represented as a consuming builder. Used during
/// disconnection requests, translated to the DISCONNECT packet.
#[derive(Debug)]
pub struct DisconnectOpts<'a> {
    builder: DisconnectTxBuilder<'a>,
}

impl<'a> View for DisconnectOpts<'a> {
    type V = DisconnectTxBuilder<'a>;

    closed spec fn view(&self) -> DisconnectTxBuilder<'a> {
        self.builder
    }
}

impl<'a> DisconnectOpts<'a> {
    /// Creates a new [DisconnectOpts] instance, with nothing set.
    pub fn new() -> (r: Self)
        ensures
            r@ == DisconnectTxBuilder::<'a>::spec_new(),
    {
        DisconnectOpts { builder: DisconnectTxBuilder::new() }
    }

    /// Sets a reason for disconnection.
    pub fn reason(self, val: DisconnectReason) -> (r: Self)
        ensures
            r@ == (DisconnectTxBuilder { reason: Some(val), ..self@ }),
    {
        let mut s = self;
        s.builder.reason(val);
        s
    }

    /// Sets session expiration interval.
    ///
    /// The duration in whole seconds must not exceed [u32::MAX].
    pub fn session_expiry_interval(self, val: Duration) -> (r: Self)
        requires
            duration_secs(val) <= u32::MAX,
        ensures
            r@ == (DisconnectTxBuilder { session_expiry_interval: Some(duration_secs(val) as u32), ..self@ }),
    {
        let mut s = self;
        let secs = duration_as_secs(val);
        s.builder.session_expiry_interval(secs as u32);
        s
    }

    /// Sets a reason string property.
    pub fn reason_string(self, val: &'a str) -> (r: Self)
        ensures
            r@ == (DisconnectTxBuilder { reason_string: Some(UTF8StringRef(val)), ..self@ }),
    {
        let mut s = self;
        s.builder.reason_string(UTF8StringRef(val));
        s
    }

    /// Sets user properties. Multiple user properties may be set.
    pub fn user_property(self, kv: (&'a str, &'a str)) -> (r: Self)
        ensures
            spec_builder_pairs(r@.user_property) == spec_builder_pairs(self@.user_property).push(UTF8StringPairRef(kv.0, kv.1)),
            r@.user_property is Some,
            r@ == (DisconnectTxBuilder { user_property: r@.user_property, ..self@ }),
    {
        let mut s = self;
        let (key, val) = kv;
        s.builder.user_property(UTF8StringPairRef(key, val));
        s
    }

    /// Turns the options into the packet they stand for.
    pub fn build(self) -> (r: Result<DisconnectTx<'a>, CodecError>)
        ensures
            r matches Ok(tx) && tx.reason == (match self@.reason {
                Some(v) => v,
                None => DisconnectReason::Success,
            }) && tx.session_expiry_interval == (match self@.session_expiry_interval {
                Some(v) => v,
                None => 0,
            }) && tx.reason_string == self@.reason_string && tx.server_reference == self@.server_reference
                && tx.user_property@ == spec_builder_pairs(self@.user_property),
    {
        self.builder.build()
    }
}

impl<'a> Default for DisconnectOpts<'a> {
    fn default() -> (r: Self)
        ensures
            r@ == DisconnectTxBuilder::<'a>::spec_new(),
    {
        Self::new()
    }
}

/// Subscription options set for the topic filter.
#[derive(Debug, Clone, Copy)]
pub struct SubscriptionOpts {
    opts: SubscriptionOptions,
}

impl View for SubscriptionOpts {
    type V = SubscriptionOptions;

    closed spec fn view(&self) -> SubscriptionOptions {
        self.opts
    }
}

/// The options of a subscription that nothing was set on.
pub open spec fn spec_default_subscription_options() -> SubscriptionOptions {
    SubscriptionOptions {
        maximum_qos: QoS::ExactlyOnce,
        no_local: false,
        retain_as_published: false,
        retain_handling: RetainHandling::SendOnSubscribe,
    }
}

impl SubscriptionOpts {
    /// Creates a new [SubscriptionOpts] instance with the default options.
    pub fn new() -> (r: Self)
        ensures
            r@ == spec_default_subscription_options(),
    {
        SubscriptionOpts { opts: SubscriptionOptions::default() }
    }

    /// Maximum Quality of Service for the topic.
    pub fn maximum_qos(self, val: QoS) -> (r: Self)
        ensures
            r@ == (SubscriptionOptions { maximum_qos: val, ..self@ }),
    {
        let mut s = self;
        s.opts.maximum_qos = val;
        s
    }

    /// No local option.
    pub fn no_local(self, val: bool) -> (r: Self)
        ensures
            r@ == (SubscriptionOptions { no_local: val, ..self@ }),
    {
        let mut s = self;
        s.opts.no_local = val;
        s
    }

    /// Retain as published flag. Setting to `true` keeps the RETAIN flag from
    /// incoming PUBLISH packets untouched.
    pub fn retain_as_published(self, val: bool) -> (r: Self)
        ensures
            r@ == (SubscriptionOptions { retain_as_published: val, ..self@ }),
    {
        let mut s = self;
        s.opts.retain_as_published = val;
        s
    }

    /// Retain handling options, see [RetainHandling].
    pub fn retain_handling(self, val: RetainHandling) -> (r: Self)
        ensures
            r@ == (SubscriptionOptions { retain_handling: val, ..self@ }),
    {
        let mut s = self;
        s.opts.retain_handling = val;
        s
    }

    /// The options as the SUBSCRIBE packet carries them.
    pub fn build(self) -> (r: SubscriptionOptions)
        ensures
            r == self@,
    {
        self.opts
    }
}

impl Default for SubscriptionOpts {
    fn default() -> (r: Self)
        ensures
            r@ == spec_default_subscription_options(),
    {
        Self::new()
    }
}

/// Subscription options, represented as a consuming builder. Used during
/// subscription requests, translated to the SUBSCRIBE packet. Note that
/// multiple topic filters may be supplied.
#[derive(Debug)]
pub struct SubscribeOpts<'a> {
    builder: SubscribeTxBuilder<'a>,
}

impl<'a> View for SubscribeOpts<'a> {
    type V = SubscribeTxBuilder<'a>;

    closed spec fn view(&self) -> SubscribeTxBuilder<'a> {
        self.builder
    }
}

impl<'a> SubscribeOpts<'a> {
    /// Creates a new [SubscribeOpts] instance, with nothing set.
    pub fn new() -> (r: Self)
        ensures
            r@ == SubscribeTxBuilder::<'a>::spec_new(),
    {
        SubscribeOpts { builder: SubscribeTxBuilder::new() }
    }

    /// Sets a new subscription with the given topic filter and options.
    /// Multiple subscriptions may be created.
    pub fn subscription(self, topic: &'a str, opts: SubscriptionOpts) -> (r: Self)
        ensures
            spec_builder_subscriptions(r@.payload) == spec_builder_subscriptions(self@.payload).push((UTF8StringRef(topic), opts@)),
            r@.payload is Some,
            r@ == (SubscribeTxBuilder { payload: r@.payload, ..self@ }),
    {
        let mut s = self;
        s.builder.payload((UTF8StringRef(topic), opts.build()));
        s
    }

    /// Sets user properties as key-value pairs. Multiple user properties may be set.
    pub fn user_property(self, kv: (&'a str, &'a str)) -> (r: Self)
        ensures
            spec_builder_pairs(r@.user_property) == spec_builder_pairs(self@.user_property).push(UTF8StringPairRef(kv.0, kv.1)),
            r@.user_property is Some,
            r@ == (SubscribeTxBuilder { user_property: r@.user_property, ..self@ }),
    {
        let mut s = self;
        let (key, val) = kv;
        s.builder.user_property(UTF8StringPairRef(key, val));
        s
    }

    /// Sets the packet identifier; it must not be zero.
    pub fn packet_identifier(self, val: u16) -> (r: Self)
        requires
            val != 0,
        ensures
            r@ == (SubscribeTxBuilder { packet_identifier: r@.packet_identifier, ..self@ }),
            r@.packet_identifier matches Some(v) && v.spec_get() == val,
    {
        let mut s = self;
        s.builder.packet_identifier(NonZero::<u16>::try_from(val).unwrap());
        s
    }

    /// Sets the subscription identifier; it must be greater than zero and fit a
    /// variable byte integer.
    pub fn subscription_identifier(self, val: u32) -> (r: Self)
        requires
            0 < val <= VarSizeInt::MAX,
        ensures
            r@ == (SubscribeTxBuilder { subscription_identifier: r@.subscription_identifier, ..self@ }),
            r@.subscription_identifier matches Some(v) && v.spec_get().spec_value() == val,
    {
        let mut s = self;
        let v = VarSizeInt::try_from(val).unwrap();
        s.builder.subscription_identifier(NonZero::<VarSizeInt>::try_from(v).unwrap());
        s
    }

    /// Turns the options into the packet they stand for.
    pub fn build(self) -> (r: Result<SubscribeTx<'a>, CodecError>)
        ensures
            (self@.packet_identifier is Some && self@.payload is Some) ==> (r matches Ok(tx)
                && Some(tx.packet_identifier) == self@.packet_identifier
                && tx.subscription_identifier == self@.subscription_identifier
                && tx.user_property@ == spec_builder_pairs(self@.user_property)
                && tx.payload@ == spec_builder_subscriptions(self@.payload)),
            !(self@.packet_identifier is Some && self@.payload is Some) ==> r == Err::<SubscribeTx<'a>, CodecError>(
                CodecError::MandatoryPropertyMissing(MandatoryPropertyMissing),
            ),
    {
        self.builder.build()
    }
}

impl<'a> Default for SubscribeOpts<'a> {
    fn default() -> (r: Self)
        ensures
            r@ == SubscribeTxBuilder::<'a>::spec_new(),
    {
        Self::new()
    }
}

/// Publish options, represented as a consuming builder. Used during publish
/// requests, translated to the PUBLISH packet.
#[derive(Debug)]
pub struct PublishOpts<'a> {
    pub(crate) qos: Option<QoS>,
    builder: PublishTxBuilder<'a>,
}

impl<'a> View for PublishOpts<'a> {
    type V = (Option<QoS>, PublishTxBuilder<'a>);

    closed spec fn view(&self) -> (Option<QoS>, PublishTxBuilder<'a>) {
        (self.qos, self.builder)
    }
}

impl<'a> PublishOpts<'a> {
    /// The quality of service the publication asks for: at most once
    /// unless set.
    pub fn qos_level(&self) -> (r: QoS)
        ensures
            r == spec_builder_qos(self@.0),
    {
        match self.qos {
            Some(q) => q,
            None => QoS::AtMostOnce,
        }
    }

    /// Creates a new [PublishOpts] instance, with nothing set.
    pub fn new() -> (r: Self)
        ensures
            r@ == (None::<QoS>, PublishTxBuilder::<'a>::spec_new()),
    {
        PublishOpts { qos: None, builder: PublishTxBuilder::new() }
    }

    /// Sets a retain flag.
    pub fn retain(self, val: bool) -> (r: Self)
        ensures
            r@.0 == self@.0,
            r@.1 == (PublishTxBuilder { retain: Some(val), ..self@.1 }),
    {
        let mut s = self;
        s.builder.retain(val);
        s
    }

    /// Sets QoS level.
    pub fn qos(self, val: QoS) -> (r: Self)
        ensures
            r@.0 == Some(val),
            r@.1 == (PublishTxBuilder { qos: Some(val), ..self@.1 }),
    {
        let mut s = self;
        s.qos = Some(val);
        s.builder.qos(val);
        s
    }

    /// Sets topic.
    pub fn topic_name(self, val: &'a str) -> (r: Self)
        ensures
            r@.0 == self@.0,
            r@.1 == (PublishTxBuilder { topic_name: Some(UTF8StringRef(val)), ..self@.1 }),
    {
        let mut s = self;
        s.builder.topic_name(UTF8StringRef(val));
        s
    }

    /// Sets payload format indicator.
    /// Value `false` indicates that the payload is in unspecified format.
    /// Value `true` indicates that the payload is UTF8 encoded character data.
    pub fn payload_format_indicator(self, val: bool) -> (r: Self)
        ensures
            r@.0 == self@.0,
            r@.1 == (PublishTxBuilder { payload_format_indicator: Some(val), ..self@.1 }),
    {
        let mut s = self;
        s.builder.payload_format_indicator(val);
        s
    }

    /// Sets the topic alias.
    ///
    /// `val` must be greater than 0.
    pub fn topic_alias(self, val: u16) -> (r: Self)
        requires
            val != 0,
        ensures
            r@.0 == self@.0,
            r@.1 == (PublishTxBuilder { topic_alias: r@.1.topic_alias, ..self@.1 }),
            r@.1.topic_alias matches Some(v) && v.spec_get() == val,
    {
        let mut s = self;
        s.builder.topic_alias(NonZero::<u16>::try_from(val).unwrap());
        s
    }

    /// Sets the expiry interval of the message.
    ///
    /// The duration in whole seconds must not exceed [u32::MAX].
    pub fn message_expiry_interval(self, val: Duration) -> (r: Self)
        requires
            duration_secs(val) <= u32::MAX,
        ensures
            r@.0 == self@.0,
            r@.1 == (PublishTxBuilder { message_expiry_interval: Some(duration_secs(val) as u32), ..self@.1 }),
    {
        let mut s = self;
        let secs = duration_as_secs(val);
        s.builder.message_expiry_interval(secs as u32);
        s
    }

    /// Sets correlation data.
    pub fn correlation_data(self, val: &'a [u8]) -> (r: Self)
        ensures
            r@.0 == self@.0,
            r@.1 == (PublishTxBuilder { correlation_data: Some(BinaryRef(val)), ..self@.1 }),
    {
        let mut s = self;
        s.builder.correlation_data(BinaryRef(val));
        s
    }

    /// Sets response topic.
    pub fn response_topic(self, val: &'a str) -> (r: Self)
        ensures
            r@.0 == self@.0,
            r@.1 == (PublishTxBuilder { response_topic: Some(UTF8StringRef(val)), ..self@.1 }),
    {
        let mut s = self;
        s.builder.response_topic(UTF8StringRef(val));
        s
    }

    /// Sets message content type.
    pub fn content_type(self, val: &'a str) -> (r: Self)
        ensures
            r@.0 == self@.0,
            r@.1 == (PublishTxBuilder { content_type: Some(UTF8StringRef(val)), ..self@.1 }),
    {
        let mut s = self;
        s.builder.content_type(UTF8StringRef(val));
        s
    }

    /// Sets user properties as key-value pairs. Multiple user properties may be set.
    pub fn user_property(self, kv: (&'a str, &'a str)) -> (r: Self)
        ensures
            r@.0 == self@.0,
            spec_builder_pairs(r@.1.user_property) == spec_builder_pairs(self@.1.user_property).push(UTF8StringPairRef(kv.0, kv.1)),
            r@.1.user_property is Some,
            r@.1 == (PublishTxBuilder { user_property: r@.1.user_property, ..self@.1 }),
    {
        let mut s = self;
        let (key, val) = kv;
        s.builder.user_property(UTF8StringPairRef(key, val));
        s
    }

    /// Sets message payload.
    pub fn payload(self, val: &'a [u8]) -> (r: Self)
        ensures
            r@.0 == self@.0,
            r@.1 == (PublishTxBuilder { payload: Some(PayloadRef(val)), ..self@.1 }),
    {
        let mut s = self;
        s.builder.payload(PayloadRef(val));
        s
    }

    /// Sets the packet identifier; it must not be zero.
    pub fn packet_identifier(self, val: u16) -> (r: Self)
        requires
            val != 0,
        ensures
            r@.0 == self@.0,
            r@.1 == (PublishTxBuilder { packet_identifier: r@.1.packet_identifier, ..self@.1 }),
            r@.1.packet_identifier matches Some(v) && v.spec_get() == val,
    {
        let mut s = self;
        s.builder.packet_identifier(NonZero::<u16>::try_from(val).unwrap());
        s
    }

    /// Turns the options into the packet they stand for.
    pub fn build(self) -> (r: Result<PublishTx<'a>, CodecError>)
        ensures
            spec_publish_builder_valid(self@.1) ==> (r matches Ok(tx) && tx.dup == (self@.1.dup == Some(true))
                && tx.retain == (self@.1.retain == Some(true)) && tx.qos == spec_builder_qos(self@.1.qos)
                && Some(tx.topic_name) == self@.1.topic_name && tx.packet_identifier == self@.1.packet_identifier
                && tx.payload_format_indicator == self@.1.payload_format_indicator
                && tx.topic_alias == self@.1.topic_alias
                && tx.message_expiry_interval == self@.1.message_expiry_interval
                && tx.correlation_data == self@.1.correlation_data && tx.response_topic == self@.1.response_topic
                && tx.content_type == self@.1.content_type
                && tx.user_property@ == spec_builder_pairs(self@.1.user_property)
                && tx.payload == self@.1.payload),
            !spec_publish_builder_valid(self@.1) ==> r == Err::<PublishTx<'a>, CodecError>(
                CodecError::MandatoryPropertyMissing(MandatoryPropertyMissing),
            ),
    {
        self.builder.build()
    }
}

impl<'a> Default for PublishOpts<'a> {
    fn default() -> (r: Self)
        ensures
            r@ == (None::<QoS>, PublishTxBuilder::<'a>::spec_new()),
    {
        Self::new()
    }
}

/// Unsubscribe options, represented as a consuming builder. Used during
/// unsubscribe requests, translated to the UNSUBSCRIBE packet.
#[derive(Debug)]
pub struct UnsubscribeOpts<'a> {
    builder: UnsubscribeTxBuilder<'a>,
}

impl<'a> View for UnsubscribeOpts<'a> {
    type V = UnsubscribeTxBuilder<'a>;

    closed spec fn view(&self) -> UnsubscribeTxBuilder<'a> {
        self.builder
    }
}

impl<'a> UnsubscribeOpts<'a> {
    /// Creates a new [UnsubscribeOpts] instance, with nothing set.
    pub fn new() -> (r: Self)
        ensures
            r@ == UnsubscribeTxBuilder::<'a>::spec_new(),
    {
        UnsubscribeOpts { builder: UnsubscribeTxBuilder::new() }
    }

    /// Topic filter to unsubscribe from.
    pub fn topic_filter(self, val: &'a str) -> (r: Self)
        ensures
            spec_builder_topics(r@.payload) == spec_builder_topics(self@.payload).push(UTF8StringRef(val)),
            r@.payload is Some,
            r@ == (UnsubscribeTxBuilder { payload: r@.payload, ..self@ }),
    {
        let mut s = self;
        s.builder.payload(UTF8StringRef(val));
        s
    }

    /// Sets user properties as key-value pairs. Multiple user properties may be set.
    pub fn user_property(self, kv: (&'a str, &'a str)) -> (r: Self)
        ensures
            spec_builder_pairs(r@.user_property) == spec_builder_pairs(self@.user_property).push(UTF8StringPairRef(kv.0, kv.1)),
            r@.user_property is Some,
            r@ == (UnsubscribeTxBuilder { user_property: r@.user_property, ..self@ }),
    {
        let mut s = self;
        let (key, val) = kv;
        s.builder.user_property(UTF8StringPairRef(key, val));
        s
    }

    /// Sets the packet identifier; it must not be zero.
    pub fn packet_identifier(self, val: u16) -> (r: Self)
        requires
            val != 0,
        ensures
            r@ == (UnsubscribeTxBuilder { packet_identifier: r@.packet_identifier, ..self@ }),
            r@.packet_identifier matches Some(v) && v.spec_get() == val,
    {
        let mut s = self;
        s.builder.packet_identifier(NonZero::<u16>::try_from(val).unwrap());
        s
    }

    /// Turns the options into the packet they stand for.
    pub fn build(self) -> (r: Result<UnsubscribeTx<'a>, CodecError>)
        ensures
            (self@.packet_identifier is Some && self@.payload is Some) ==> (r matches Ok(tx)
                && Some(tx.packet_identifier) == self@.packet_identifier
                && tx.user_property@ == spec_builder_pairs(self@.user_property)
                && tx.payload@ == spec_builder_topics(self@.payload)),
            !(self@.packet_identifier is Some && self@.payload is Some) ==> r == Err::<UnsubscribeTx<'a>, CodecError>(
                CodecError::MandatoryPropertyMissing(MandatoryPropertyMissing),
            ),
    {
        self.builder.build()
    }
}

impl<'a> Default for UnsubscribeOpts<'a> {
    fn default() -> (r: Self)
        ensures
            r@ == UnsubscribeTxBuilder::<'a>::spec_new(),
    {
        Self::new()
    }
}

} // verus!

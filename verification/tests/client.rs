use bytes::{Bytes, BytesMut};
use poster::client::dispatch::{admit_request, answer_refused, on_packet, record_request, Delivery};
use poster::client::error::MqttError;
use poster::client::framing::{packet_len, FramerState, RxFramer};
use poster::client::opts::{
    AuthOpts, ConnectOpts, DisconnectOpts, PublishOpts, SubscribeOpts, SubscriptionOpts,
    UnsubscribeOpts,
};
use poster::client::rsp::{ConnectRsp, PubackRsp, PublishData, SubscribeRsp};
use poster::client::session::{linear_search_by_key, Connection, Session};
use poster::client::utils::{request_kind, rx_action_id, tx_action_id, with_dup_flag, RequestKind};
use poster::codec::auth::AuthReason;
use poster::codec::connack::ConnackRx;
use poster::codec::disconnect::DisconnectReason;
use poster::codec::packets::{RxPacket, TxPacket};
use poster::codec::puback::PubackRx;
use poster::codec::publish::PublishRx;
use poster::codec::suback::SubackRx;
use poster::codec::subscribe::RetainHandling;
use poster::types::base_types::QoS;
use poster::types::error::CodecError;
use std::collections::VecDeque;
use std::time::Duration;

fn encode_connect(opts: ConnectOpts) -> Vec<u8> {
    let packet = opts.build().unwrap();
    let mut buf = BytesMut::new();
    packet.encode(&mut buf);
    buf.to_vec()
}

#[test]
fn connect_opts_default_builds() {
    // The default options form a CONNECT packet with the empty client identifier.
    assert_eq!(
        encode_connect(ConnectOpts::default()),
        vec![0x10, 13, 0, 4, b'M', b'Q', b'T', b'T', 5, 0, 0, 0, 0, 0, 0]
    );
    assert!(ConnectOpts::new().build().is_ok());
    // A will QoS without a will message leaves the connect flags clear.
    let bytes = encode_connect(ConnectOpts::new().client_identifier("c").will_qos(QoS::AtLeastOnce));
    assert_eq!(bytes[9], 0x00);
}

#[test]
fn connect_opts_to_bytes() {
    let bytes = encode_connect(
        ConnectOpts::new()
            .client_identifier("id")
            .keep_alive(Duration::from_secs(30))
            .session_expiry_interval(Duration::from_secs(1))
            .clean_start(true),
    );
    assert_eq!(
        bytes,
        vec![0x10, 20, 0, 4, b'M', b'Q', b'T', b'T', 5, 0x02, 0, 30, 5, 0x11, 0, 0, 0, 1, 0, 2, b'i', b'd']
    );
}

#[test]
fn connect_opts_user_property_and_auth() {
    let bytes = encode_connect(
        ConnectOpts::new()
            .client_identifier("c")
            .authentication_method("m")
            .authentication_data(&[1])
            .user_property(("k", "v")),
    );
    assert_eq!(
        bytes,
        vec![
            0x10, 29, 0, 4, b'M', b'Q', b'T', b'T', 5, 0, 0, 0, 15, 0x15, 0, 1, b'm', 0x16, 0, 1, 1, 0x26, 0,
            1, b'k', 0, 1, b'v', 0, 1, b'c'
        ]
    );
    assert!(matches!(
        ConnectOpts::new().client_identifier("c").authentication_data(&[1]).build(),
        Err(CodecError::UnexpectedProperty(_))
    ));
}

#[test]
fn connect_opts_will_user_property_goes_to_will() {
    let bytes = encode_connect(
        ConnectOpts::new()
            .client_identifier("c")
            .will_topic("t")
            .will_payload(&[2])
            .will_user_property(("k", "v")),
    );
    assert_eq!(
        bytes,
        vec![
            0x10, 28, 0, 4, b'M', b'Q', b'T', b'T', 5, 0x04, 0, 0, 0, 0, 1, b'c', 7, 0x26, 0, 1, b'k', 0, 1, b'v',
            0, 1, b't', 0, 1, 2
        ]
    );
}

#[test]
fn connect_opts_limits() {
    let packet = ConnectOpts::new()
        .client_identifier("c")
        .receive_maximum(5)
        .maximum_packet_size(1024)
        .topic_alias_maximum(3)
        .request_response_information(true)
        .request_problem_information(false)
        .will_qos(QoS::ExactlyOnce)
        .will_retain(true)
        .will_delay_interval(Duration::from_secs(2))
        .will_payload_format_indicator(true)
        .will_message_expiry_interval(Duration::from_secs(4))
        .will_content_type("ct")
        .will_response_topic("rt")
        .will_correlation_data(&[1])
        .username("u")
        .password(&[9])
        .build()
        .unwrap();
    assert_eq!(packet.receive_maximum.unwrap().get(), 5);
    assert_eq!(packet.maximum_packet_size.unwrap().get(), 1024);
    assert_eq!(packet.topic_alias_maximum, Some(3));
    assert_eq!(packet.will_qos, QoS::ExactlyOnce);
    assert!(packet.will_retain);
    assert_eq!(packet.will_delay_interval, Some(2));
    assert_eq!(packet.will_message_expiry_interval, Some(4));
    assert!(packet.password.is_some());
    let mut buf = BytesMut::new();
    packet.encode(&mut buf);
    assert_eq!(buf.len(), packet.packet_len());
}

#[test]
fn auth_opts_build() {
    let packet = AuthOpts::new()
        .reason(AuthReason::ContinueAuthentication)
        .authentication_method("m")
        .authentication_data(&[1, 2])
        .user_property(("k", "v"))
        .build()
        .unwrap();
    assert_eq!(packet.reason, AuthReason::ContinueAuthentication);
    assert!(AuthOpts::new().reason(AuthReason::ReAuthenticate).build().is_err());
    assert!(AuthOpts::default().build().is_ok());

    // The reason string reaches the packet, and the other settings stay.
    let packet = AuthOpts::new()
        .reason(AuthReason::ContinueAuthentication)
        .authentication_method("m")
        .authentication_data(&[1])
        .reason_string("why")
        .build()
        .unwrap();
    assert_eq!(packet.reason, AuthReason::ContinueAuthentication);
    assert_eq!(packet.reason_string.unwrap().0, "why");
    let mut buf = BytesMut::new();
    packet.encode(&mut buf);
    assert_eq!(
        &buf[..],
        &[0xf0, 16, 0x18, 14, 0x15, 0, 1, b'm', 0x16, 0, 1, 1, 0x1f, 0, 3, b'w', b'h', b'y'][..]
    );
}

#[test]
fn subscription_opts_bits() {
    let byte = |o: SubscriptionOpts| {
        let packet = SubscribeOpts::new().subscription("t", o).packet_identifier(1).build().unwrap();
        packet.payload[0].1.to_byte()
    };
    assert_eq!(byte(SubscriptionOpts::new().no_local(true)), 0x06);
    assert_eq!(byte(SubscriptionOpts::new().no_local(false)), 0x02);
    assert_eq!(
        byte(SubscriptionOpts::new().maximum_qos(QoS::AtMostOnce).retain_handling(RetainHandling::NoSendOnSubscribe)),
        0x20
    );
    assert_eq!(byte(SubscriptionOpts::new().maximum_qos(QoS::AtMostOnce).retain_as_published(true)), 0x08);
}

#[test]
fn disconnect_opts_build() {
    let packet = DisconnectOpts::new()
        .reason(DisconnectReason::DisconnectWithWillMessage)
        .session_expiry_interval(Duration::from_secs(7))
        .reason_string("bye")
        .user_property(("k", "v"))
        .build()
        .unwrap();
    assert_eq!(packet.reason, DisconnectReason::DisconnectWithWillMessage);
    assert_eq!(packet.session_expiry_interval, 7);
    assert_eq!(packet.reason_string.unwrap().0, "bye");
    assert_eq!(packet.user_property.len(), 1);
}

#[test]
fn subscribe_opts_build() {
    let opts = SubscriptionOpts::new()
        .maximum_qos(QoS::AtLeastOnce)
        .no_local(true)
        .retain_as_published(true)
        .retain_handling(RetainHandling::SendIfNoSubscription);
    let packet = SubscribeOpts::new()
        .subscription("a/b", opts)
        .user_property(("k", "v"))
        .packet_identifier(3)
        .subscription_identifier(9)
        .build()
        .unwrap();
    assert_eq!(packet.packet_identifier.get(), 3);
    assert_eq!(packet.subscription_identifier.unwrap().get().value(), 9);
    assert_eq!(packet.payload.len(), 1);
    assert_eq!(packet.payload[0].1.to_byte(), 1 | 4 | 8 | 16);
    assert!(SubscribeOpts::new().packet_identifier(1).build().is_err());
    assert_eq!(SubscriptionOpts::default().build().maximum_qos, QoS::ExactlyOnce);
}

#[test]
fn publish_opts_build() {
    let opts = PublishOpts::new()
        .topic_name("t")
        .qos(QoS::AtLeastOnce)
        .retain(true)
        .payload_format_indicator(true)
        .topic_alias(2)
        .message_expiry_interval(Duration::from_secs(1))
        .correlation_data(&[1])
        .response_topic("r")
        .content_type("c")
        .user_property(("k", "v"))
        .payload(&[5, 6]);
    assert!(opts.build().is_err());
    let packet = PublishOpts::new()
        .topic_name("t")
        .qos(QoS::AtLeastOnce)
        .packet_identifier(4)
        .payload(&[5, 6])
        .build()
        .unwrap();
    assert_eq!(packet.packet_identifier.unwrap().get(), 4);
    assert_eq!(packet.qos, QoS::AtLeastOnce);
}

#[test]
fn unsubscribe_opts_build() {
    let packet = UnsubscribeOpts::new()
        .topic_filter("a")
        .topic_filter("b")
        .user_property(("k", "v"))
        .packet_identifier(8)
        .build()
        .unwrap();
    assert_eq!(packet.payload.len(), 2);
    assert!(UnsubscribeOpts::default().packet_identifier(8).build().is_err());
}

#[test]
fn connect_rsp_from_connack() {
    let connack = ConnackRx::try_decode(Bytes::from_static(&[0x20, 8, 1, 0, 5, 0x13, 0, 10, 0x24, 1])).unwrap();
    let rsp = ConnectRsp::try_from(connack).unwrap();
    assert!(rsp.session_present());
    assert_eq!(rsp.server_keep_alive(), Some(Duration::from_secs(10)));
    assert_eq!(rsp.maximum_qos(), QoS::AtLeastOnce);
    assert_eq!(rsp.receive_maximum(), 65535);
    assert!(rsp.reason_string().is_none());
    assert!(rsp.user_properties().is_empty());

    let refused = ConnackRx::try_decode(Bytes::from_static(&[0x20, 3, 0, 0x87, 0])).unwrap();
    match ConnectRsp::try_from(refused) {
        Err(e) => assert_eq!(u8::from(e.reason()), 0x87),
        Ok(_) => panic!("refusal accepted"),
    }
}

#[test]
fn puback_rsp_from_ack() {
    let ack = PubackRx::try_decode(Bytes::from_static(&[0x40, 2, 0, 1])).unwrap();
    assert!(PubackRsp::try_from(ack).is_ok());
    let ack = PubackRx::try_decode(Bytes::from_static(&[0x40, 4, 0, 1, 0x97, 0])).unwrap();
    match PubackRsp::try_from(ack) {
        Err(e) => assert!(e.reason_string().is_none()),
        Ok(_) => panic!("refusal accepted"),
    }
}

#[test]
fn publish_data_accessors() {
    let packet = PublishRx::try_decode(Bytes::from_static(&[
        0x32, 12, 0, 1, b't', 0, 5, 5, 0x0b, 7, 0x23, 0, 2, b'x',
    ]))
    .unwrap();
    let data = PublishData::from(packet);
    assert_eq!(data.topic_name(), "t");
    assert_eq!(data.qos(), QoS::AtLeastOnce);
    assert_eq!(data.subscription_identifier(), Some(7));
    assert_eq!(data.topic_alias(), Some(2));
    assert_eq!(data.payload(), b"x");
}

#[test]
fn subscribe_rsp_payload() {
    let suback = SubackRx::try_decode(Bytes::from_static(&[0x90, 4, 0, 1, 0, 1])).unwrap();
    let rsp = SubscribeRsp::from(suback);
    assert_eq!(rsp.payload().len(), 1);
    assert_eq!(u8::from(rsp.payload()[0]), 1);
}

#[test]
fn connection_send_quota() {
    let mut connection = Connection::new();
    let connack = ConnackRx::try_decode(Bytes::from_static(&[0x20, 6, 0, 0, 3, 0x21, 0, 2])).unwrap();
    connection.handle_connack(&connack);
    assert_eq!(connection.send_quota(), 2);
    assert!(connection.acquire_send_quota().is_ok());
    assert!(connection.acquire_send_quota().is_ok());
    assert!(matches!(connection.acquire_send_quota(), Err(MqttError::QuotaExceeded(_))));
    connection.release_send_quota();
    assert_eq!(connection.send_quota(), 1);
    connection.release_send_quota();
    connection.release_send_quota();
    assert_eq!(connection.send_quota(), 2);
}

#[test]
fn connection_packet_size_and_expiry() {
    let mut connection = Connection::new();
    assert!(connection.validate_packet_size(1 << 20).is_ok());
    let connack = ConnackRx::try_decode(Bytes::from_static(&[
        0x20, 13, 0, 0, 10, 0x27, 0, 0, 0, 10, 0x11, 0, 0, 0, 60,
    ]))
    .unwrap();
    connection.handle_connack(&connack);
    assert!(connection.validate_packet_size(10).is_ok());
    assert!(matches!(
        connection.validate_packet_size(11),
        Err(MqttError::MaximumPacketSizeExceeded(_))
    ));
    assert_eq!(connection.session_expiry_interval(), 60);
    assert!(connection.session_expired(30));
    assert!(connection.session_expired(60));
    assert!(!connection.session_expired(61));
    assert!(!connection.session_expired(u64::MAX));
    connection.set_session_expiry_interval(0);
    assert!(connection.session_expired(0));
    connection.set_session_expiry_interval(u32::MAX);
    assert!(!connection.session_expired(u64::MAX));
    connection.set_session_expiry_interval(u32::MAX - 1);
    assert!(!connection.session_expired(u64::MAX));
    assert!(connection.session_expired((u32::MAX - 1) as u64));
}

#[test]
fn session_bookkeeping() {
    let mut session: Session<&str, u8> = Session::new();
    session.await_ack(5, "first");
    session.await_ack(5, "second");
    session.await_ack(6, "third");
    assert_eq!(session.take_awaiting(5), Some("first"));
    assert_eq!(session.take_awaiting(7), None);
    assert_eq!(session.take_awaiting(5), Some("second"));

    session.queue_retransmit(1, Bytes::from_static(&[1]));
    session.queue_retransmit(2, Bytes::from_static(&[2]));
    session.drop_retransmit(1);
    assert_eq!(session.retransmit_len(), 1);
    assert_eq!(&session.retransmit_at(0)[..], &[2]);

    session.add_subscription(9, 90);
    assert_eq!(session.subscription(9), Some(&90));
    session.remove_subscription(9);
    assert_eq!(session.subscription(9), None);

    session.reset();
    assert_eq!(session.take_awaiting(6), None);
    assert_eq!(session.retransmit_len(), 0);
}

#[test]
fn linear_search() {
    let mut deque = VecDeque::new();
    deque.push_back((1usize, 'a'));
    deque.push_back((2usize, 'b'));
    deque.push_back((2usize, 'c'));
    assert_eq!(linear_search_by_key(&deque, 2), Some(1));
    assert_eq!(linear_search_by_key(&deque, 3), None);
}

#[test]
fn action_ids_pair_requests_and_answers() {
    let subscribe = SubscribeOpts::new()
        .subscription("a", SubscriptionOpts::new())
        .packet_identifier(0x1234)
        .build()
        .unwrap();
    let tx = TxPacket::Subscribe(subscribe);
    assert_eq!(tx_action_id(&tx), (9 << 24) | (0x1234 << 8));

    let suback = RxPacket::try_decode(Bytes::from_static(&[0x90, 4, 0x12, 0x34, 0, 0])).unwrap();
    assert_eq!(rx_action_id(&suback), tx_action_id(&tx));

    let puback = RxPacket::try_decode(Bytes::from_static(&[0x40, 2, 0x12, 0x34])).unwrap();
    assert_eq!(rx_action_id(&puback), (4 << 24) | (0x1234 << 8));
    assert_ne!(rx_action_id(&puback), rx_action_id(&suback));
}

#[test]
fn framing() {
    assert_eq!(packet_len(&[0x40, 2]).unwrap(), Some(4));
    assert_eq!(packet_len(&[0x30, 0x80]).unwrap(), None);
    assert_eq!(packet_len(&[0x30, 0x80, 0x01]).unwrap(), Some(131));
    assert!(packet_len(&[0x30, 0xff, 0xff, 0xff, 0xff, 0x01]).is_err());

    let mut framer = RxFramer::new();
    assert_eq!(framer.chunk_size(), 512);
    framer.on_read(6);
    assert_eq!(framer.state(), FramerState::ReadPacketLen);
    let buf = [0x40u8, 2, 0, 1, 0xd0, 0];
    framer.on_length(&buf).unwrap();
    assert_eq!(framer.state(), FramerState::ReadPacketData);
    assert_eq!(framer.packet_end(), 4);
    assert_eq!(framer.take_packet(), Some(4));
    assert_eq!(framer.packet_end(), 0);
    assert_eq!(framer.size(), 2);
    assert_eq!(framer.state(), FramerState::ReadPacketLen);
    framer.on_length(&buf[4..]).unwrap();
    assert_eq!(framer.take_packet(), Some(2));
    assert_eq!(framer.state(), FramerState::Idle);
}

#[test]
fn packets_fit() {
    let publish = PublishOpts::new().topic_name("t").payload(&[1, 2, 3]).build().unwrap();
    let packet = TxPacket::Publish(publish);
    assert!(packet.fits());
    let mut buf = BytesMut::new();
    packet.encode(&mut buf);
    assert_eq!(buf.len(), packet.packet_len());

    let connect = ConnectOpts::new().client_identifier("c").will_topic("w").will_payload(&[1]).build().unwrap();
    assert!(TxPacket::Connect(connect).fits());

    let subscribe = SubscribeOpts::new()
        .subscription("a", SubscriptionOpts::new())
        .packet_identifier(1)
        .subscription_identifier(1)
        .build()
        .unwrap();
    assert!(TxPacket::Subscribe(subscribe).fits());

    let unsubscribe = UnsubscribeOpts::new().topic_filter("a").packet_identifier(1).build().unwrap();
    assert!(TxPacket::Unsubscribe(unsubscribe).fits());

    let disconnect = DisconnectOpts::new().reason_string("bye").build().unwrap();
    assert!(TxPacket::Disconnect(disconnect).fits());
}

#[test]
fn packet_too_large_does_not_fit() {
    // 256 MiB of payload is more than a remaining length can count.
    let payload = vec![0u8; 0x10000000];
    let publish = PublishOpts::new().topic_name("t").payload(&payload).build().unwrap();
    assert!(!TxPacket::Publish(publish).fits());
    let publish = PublishOpts::new().topic_name("t").payload(&payload[..0x0ffffff0]).build().unwrap();
    assert!(TxPacket::Publish(publish).fits());
}

#[test]
fn request_kinds_and_dup_flag() {
    assert_eq!(request_kind(0x32), RequestKind::Publish);
    assert_eq!(request_kind(0x62), RequestKind::Pubrel);
    assert_eq!(request_kind(0x82), RequestKind::Other);
    assert_eq!(with_dup_flag(0x33), 0x3b);
    assert_eq!(with_dup_flag(0x3b), 0x3b);
}

#[test]
fn publish_opts_qos_level() {
    assert_eq!(PublishOpts::new().qos_level(), QoS::AtMostOnce);
    assert_eq!(PublishOpts::new().qos(QoS::ExactlyOnce).qos_level(), QoS::ExactlyOnce);
}

#[test]
fn framer_cuts_written_packets() {
    let publish = PublishOpts::new().topic_name("a").payload(&[7u8; 300]).build().unwrap();
    let packet = TxPacket::Publish(publish);
    let mut buf = BytesMut::new();
    packet.encode(&mut buf);
    let len = buf.len();
    buf.extend_from_slice(&[0xd0, 0]);
    assert_eq!(packet_len(&buf).unwrap(), Some(len));

    let unsubscribe = UnsubscribeOpts::new().topic_filter("t").packet_identifier(2).build().unwrap();
    let packet = TxPacket::Unsubscribe(unsubscribe);
    let mut buf = BytesMut::new();
    packet.encode(&mut buf);
    assert_eq!(packet_len(&buf).unwrap(), Some(buf.len()));
}

#[test]
fn dispatch_received_packets() {
    let mut session: Session<u8, u8> = Session::new();
    let mut connection = Connection::new();

    // A QoS 1 publication takes a quota and is kept for retransmission.
    let publish = [0x32u8, 5, 0, 1, b't', 0, 9];
    let kind = admit_request(&mut connection, &publish).unwrap();
    assert_eq!(kind, RequestKind::Publish);
    assert_eq!(connection.send_quota(), 65534);
    let action_id = 0x04000900;
    record_request(&mut session, kind, action_id, Bytes::copy_from_slice(&publish), 1);
    assert_eq!(session.retransmit_len(), 1);

    // Its PUBACK gives the quota back and reaches the request.
    let puback = RxPacket::try_decode(Bytes::from_static(&[0x40, 2, 0, 9])).unwrap();
    match on_packet(&mut session, &mut connection, puback).unwrap() {
        Delivery::Answer(a, RxPacket::Puback(p)) => {
            assert_eq!(a, 1);
            assert_eq!(p.packet_identifier.get(), 9);
        }
        _ => panic!("answer not delivered"),
    }
    assert_eq!(connection.send_quota(), 65535);
    assert_eq!(session.retransmit_len(), 0);

    // A second PUBACK finds no request.
    let puback = RxPacket::try_decode(Bytes::from_static(&[0x40, 2, 0, 9])).unwrap();
    assert!(matches!(answer_refused(&puback), MqttError::HandleClosed(_)));
    assert!(matches!(on_packet(&mut session, &mut connection, puback).unwrap(), Delivery::Unclaimed));

    // A publication goes to its subscription; without one it is refused.
    let message = RxPacket::try_decode(Bytes::from_static(&[0x30, 6, 0, 1, b't', 2, 0x0b, 5])).unwrap();
    assert!(matches!(on_packet(&mut session, &mut connection, message).unwrap(), Delivery::Message(5, _)));
    let message = RxPacket::try_decode(Bytes::from_static(&[0x30, 4, 0, 1, b't', 0])).unwrap();
    assert!(matches!(
        on_packet(&mut session, &mut connection, message),
        Err(MqttError::CodecError(CodecError::MandatoryPropertyMissing(_)))
    ));

    // DISCONNECT: graceful with success, an error otherwise.
    let bye = RxPacket::try_decode(Bytes::from_static(&[0xe0, 1, 0])).unwrap();
    assert!(matches!(on_packet(&mut session, &mut connection, bye).unwrap(), Delivery::Graceful));
    let bye = RxPacket::try_decode(Bytes::from_static(&[0xe0, 1, 0x8e])).unwrap();
    assert!(matches!(on_packet(&mut session, &mut connection, bye), Err(MqttError::Disconnected(_))));

    // A PINGREQ waits for its answer and is not kept.
    let kind = admit_request(&mut connection, &[0xc0, 0]).unwrap();
    assert_eq!(kind, RequestKind::Other);
    record_request(&mut session, kind, 0x0d000000, Bytes::from_static(&[0xc0, 0]), 3);
    assert_eq!(session.retransmit_len(), 0);
    let pong = RxPacket::try_decode(Bytes::from_static(&[0xd0, 0])).unwrap();
    assert!(matches!(answer_refused(&pong), MqttError::InternalError(_)));
    assert!(matches!(on_packet(&mut session, &mut connection, pong).unwrap(), Delivery::Answer(3, _)));
}

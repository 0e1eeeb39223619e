//! Keys that pair each request the client sends with the answer it waits
//! for: the packet type of the answer in the high byte and the packet
//! identifier below it.
use crate::codec::packets::{RxPacket, RxPacketV, TxPacket};
use crate::types::base_types::QoS;
use vstd::prelude::*;

verus! {

/// What sending a request that waits for an answer involves, by its
/// packet type.
#[derive(Debug, Clone, Copy, PartialEq, Eq, Structural)]
pub enum RequestKind {
    /// A PUBLISH: it takes a send quota and is kept, with its DUP flag set,
    /// to be sent again after a reconnection.
    Publish,
    /// A PUBREL: it is kept as it is to be sent again.
    Pubrel,
    /// Anything else only waits for its answer.
    Other,
}

/// The kind of a request by the first byte of its packet.
pub open spec fn spec_request_kind(first: u8) -> RequestKind {
    if first / 16 == 3 {
        RequestKind::Publish
    } else if first / 16 == 6 {
        RequestKind::Pubrel
    } else {
        RequestKind::Other
    }
}

/// Tells by the first byte of a packet what sending it involves.
pub fn request_kind(first: u8) -> (r: RequestKind)
    ensures
        r == spec_request_kind(first),
{
    let t = first / 16;
    if t == 3 {
        RequestKind::Publish
    } else if t == 6 {
        RequestKind::Pubrel
    } else {
        RequestKind::Other
    }
}

/// The first byte of a PUBLISH packet with its DUP flag set: the packet
/// type, the QoS and the RETAIN flag stay.
pub fn with_dup_flag(first: u8) -> (r: u8)
    ensures
        (r / 8) % 2 == 1,
        r / 16 == first / 16,
        r % 8 == first % 8,
{
    let r = first | 8;
    assert((r / 8) % 2 == 1 && r / 16 == first / 16 && r % 8 == first % 8) by (bit_vector)
        requires
            r == first | 8,
    ;
    r
}

/// The key of an answer of packet type `t` to the request with packet
/// identifier `pid`.
pub open spec fn spec_action_id(t: nat, pid: nat) -> nat {
    t * 16777216 + pid * 256
}

/// The key as a machine integer.
fn action_id(t: u8, pid: u16) -> (r: usize)
    requires
        t < 16,
    ensures
        r == spec_action_id(t as nat, pid as nat),
{
    let tt = t as usize;
    let pp = pid as usize;
    assert((tt << 24usize) | (pp << 8usize) == tt * 16777216 + pp * 256) by (bit_vector)
        requires
            tt < 16,
            pp < 65536,
    ;
    (tt << 24usize) | (pp << 8usize)
}

/// The sent packets that wait for an answer: everything but QoS 0
/// publications, acknowledgements that end an exchange and disconnection.
pub open spec fn spec_tx_awaits_answer(p: TxPacket) -> bool {
    match p {
        TxPacket::Publish(publish) => publish.qos != QoS::AtMostOnce && publish.packet_identifier is Some,
        TxPacket::Puback(_) | TxPacket::Pubcomp(_) | TxPacket::Disconnect(_) => false,
        _ => true,
    }
}

/// The key of the answer that a sent packet waits for.
pub open spec fn spec_tx_action_id(p: TxPacket) -> nat {
    match p {
        TxPacket::Connect(_) => 0,
        TxPacket::Auth(_) => 0,
        TxPacket::Subscribe(s) => spec_action_id(9, s.packet_identifier.spec_get() as nat),
        TxPacket::Unsubscribe(u) => spec_action_id(11, u.packet_identifier.spec_get() as nat),
        TxPacket::Pingreq(_) => spec_action_id(13, 0),
        TxPacket::Publish(publish) => spec_action_id(
            if publish.qos == QoS::AtLeastOnce { 4 } else { 5 },
            publish.packet_identifier->0.spec_get() as nat,
        ),
        TxPacket::Pubrel(r) => spec_action_id(7, r.packet_identifier.spec_get() as nat),
        TxPacket::Pubrec(r) => spec_action_id(6, r.packet_identifier.spec_get() as nat),
        _ => 0,
    }
}

/// Received packets that answer a request: everything but publications and
/// disconnection.
pub open spec fn spec_rx_is_answer(p: RxPacketV) -> bool {
    match p {
        RxPacketV::Publish(_) | RxPacketV::Disconnect(_) => false,
        _ => true,
    }
}

/// The key of a received answer.
pub open spec fn spec_rx_action_id(p: RxPacketV) -> nat {
    match p {
        RxPacketV::Connack(_) => 0,
        RxPacketV::Auth(_) => 0,
        RxPacketV::Suback(s) => spec_action_id(9, s.packet_identifier as nat),
        RxPacketV::Unsuback(u) => spec_action_id(11, u.packet_identifier as nat),
        RxPacketV::Pingresp(_) => spec_action_id(13, 0),
        RxPacketV::Puback(a) => spec_action_id(4, a.packet_identifier as nat),
        RxPacketV::Pubrec(a) => spec_action_id(5, a.packet_identifier as nat),
        RxPacketV::Pubrel(a) => spec_action_id(6, a.packet_identifier as nat),
        RxPacketV::Pubcomp(a) => spec_action_id(7, a.packet_identifier as nat),
        _ => 0,
    }
}

/// The key of the answer that a sent packet waits for.
pub fn tx_action_id(packet: &TxPacket) -> (r: usize)
    requires
        spec_tx_awaits_answer(*packet),
    ensures
        r == spec_tx_action_id(*packet),
{
    match packet {
        TxPacket::Connect(_) => 0,
        TxPacket::Auth(_) => 0,
        TxPacket::Subscribe(subscribe) => action_id(9, subscribe.packet_identifier.get()),
        TxPacket::Unsubscribe(unsubscribe) => action_id(11, unsubscribe.packet_identifier.get()),
        TxPacket::Pingreq(_) => action_id(13, 0),
        TxPacket::Publish(publish) => {
            let pid = match publish.packet_identifier {
                Some(v) => v.get(),
                None => 0,
            };
            match publish.qos {
                QoS::AtLeastOnce => action_id(4, pid),
                _ => action_id(5, pid),
            }
        },
        TxPacket::Pubrel(pubrel) => action_id(7, pubrel.packet_identifier.get()),
        TxPacket::Pubrec(pubrec) => action_id(6, pubrec.packet_identifier.get()),
        _ => 0,
    }
}

/// The key of a received answer.
pub fn rx_action_id(packet: &RxPacket) -> (r: usize)
    requires
        spec_rx_is_answer(packet@),
    ensures
        r == spec_rx_action_id(packet@),
{
    match packet {
        RxPacket::Connack(_) => 0,
        RxPacket::Auth(_) => 0,
        RxPacket::Suback(suback) => action_id(9, suback.packet_identifier.get()),
        RxPacket::Unsuback(unsuback) => action_id(11, unsuback.packet_identifier.get()),
        RxPacket::Pingresp(_) => action_id(13, 0),
        RxPacket::Puback(puback) => action_id(4, puback.packet_identifier.get()),
        RxPacket::Pubrec(pubrec) => action_id(5, pubrec.packet_identifier.get()),
        RxPacket::Pubrel(pubrel) => action_id(6, pubrel.packet_identifier.get()),
        RxPacket::Pubcomp(pubcomp) => action_id(7, pubcomp.packet_identifier.get()),
        _ => 0,
    }
}

/// Different packet types or packet identifiers give different keys.
pub proof fn lemma_action_id_injective(t1: nat, p1: nat, t2: nat, p2: nat)
    requires
        t1 < 256,
        t2 < 256,
        p1 < 65536,
        p2 < 65536,
        spec_action_id(t1, p1) == spec_action_id(t2, p2),
    ensures
        t1 == t2,
        p1 == p2,
{
    assert(t1 * 16777216 + p1 * 256 == t2 * 16777216 + p2 * 256);
    assert(t1 == t2 && p1 == p2) by (nonlinear_arith)
        requires
            t1 < 256,
            t2 < 256,
            p1 < 65536,
            p2 < 65536,
            t1 * 16777216 + p1 * 256 == t2 * 16777216 + p2 * 256,
    ;
}

/// A request and the answer with the same packet identifier share their
/// key: SUBSCRIBE and SUBACK, UNSUBSCRIBE and UNSUBACK, PINGREQ and
/// PINGRESP, a QoS 1 PUBLISH and PUBACK, a QoS 2 PUBLISH and PUBREC, PUBREL
/// and PUBCOMP, a sent PUBREC and the PUBREL that answers it.
pub proof fn lemma_answer_matches_request(tx: TxPacket, rx: RxPacketV)
    requires
        spec_tx_awaits_answer(tx),
        spec_rx_is_answer(rx),
        match (tx, rx) {
            (TxPacket::Subscribe(s), RxPacketV::Suback(a)) => s.packet_identifier.spec_get() == a.packet_identifier,
            (TxPacket::Unsubscribe(s), RxPacketV::Unsuback(a)) => s.packet_identifier.spec_get() == a.packet_identifier,
            (TxPacket::Pingreq(_), RxPacketV::Pingresp(_)) => true,
            (TxPacket::Publish(p), RxPacketV::Puback(a)) => p.qos == QoS::AtLeastOnce
                && p.packet_identifier->0.spec_get() == a.packet_identifier,
            (TxPacket::Publish(p), RxPacketV::Pubrec(a)) => p.qos == QoS::ExactlyOnce
                && p.packet_identifier->0.spec_get() == a.packet_identifier,
            (TxPacket::Pubrel(r), RxPacketV::Pubcomp(a)) => r.packet_identifier.spec_get() == a.packet_identifier,
            (TxPacket::Pubrec(r), RxPacketV::Pubrel(a)) => r.packet_identifier.spec_get() == a.packet_identifier,
            _ => false,
        },
    ensures
        spec_tx_action_id(tx) == spec_rx_action_id(rx),
{
}

} // verus!

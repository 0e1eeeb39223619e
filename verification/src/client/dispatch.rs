//! The context's decisions: what a packet received from the broker is for,
//! and what a request asks of the connection before and after it is
//! written. The context that owns the socket and the channels performs
//! what these functions decide.
use crate::client::error::{HandleClosed, InternalError, MqttError};
use crate::client::session::{
    spec_acquire_send_quota, spec_release_send_quota, spec_took_first, Connection, Session,
};
use crate::client::utils::{
    request_kind, rx_action_id, spec_request_kind, spec_rx_action_id, RequestKind,
};
use crate::codec::disconnect::DisconnectReason;
use crate::codec::packets::{RxPacket, RxPacketV};
use crate::types::error::{CodecError, MandatoryPropertyMissing};
use bytes::Bytes;
use vstd::prelude::*;

verus! {

/// What becomes of a packet received from the broker.
pub enum Delivery<A> {
    /// A message for the subscription with this identifier.
    Message(usize, RxPacket),
    /// The answer to a request, to be handed over through what the request
    /// waits on.
    Answer(A, RxPacket),
    /// An answer that no request waits for.
    Unclaimed,
    /// A DISCONNECT with the success reason: the broker ends the connection
    /// gracefully.
    Graceful,
}

/// The answer a request waits for was taken from the queue: handed over
/// when some request waited for it, dropped otherwise.
pub open spec fn spec_answered<A, S>(
    before: Seq<(usize, A)>,
    after: Seq<(usize, A)>,
    key: nat,
    packet: RxPacketV,
    r: Result<Delivery<A>, MqttError>,
) -> bool {
    ||| r matches Ok(Delivery::Answer(a, q)) && q@ == packet && spec_took_first(
        before,
        after,
        key as usize,
        Some(a),
    )
    ||| r matches Ok(Delivery::Unclaimed) && spec_took_first(before, after, key as usize, None::<A>)
}

/// Decides what becomes of a received packet. A publication goes to its
/// subscription and must name one; a DISCONNECT ends the connection,
/// gracefully for the success reason and with an error otherwise; a
/// PUBACK or PUBCOMP ends a publication, which gives back its send quota
/// and is no longer kept for retransmission; every answer goes to the first
/// request that waits for it.
pub fn on_packet<A, S>(session: &mut Session<A, S>, connection: &mut Connection, packet: RxPacket) -> (r: Result<
    Delivery<A>,
    MqttError,
>)
    ensures
        match packet@ {
            RxPacketV::Publish(p) => {
                &&& final(session)@ == old(session)@
                &&& final(connection)@ == old(connection)@
                &&& match p.subscription_identifier {
                    Some(v) => r matches Ok(Delivery::Message(id, q)) && id == v.spec_value() && q@ == packet@,
                    None => r == Err::<Delivery<A>, MqttError>(
                        MqttError::CodecError(CodecError::MandatoryPropertyMissing(MandatoryPropertyMissing)),
                    ),
                }
            },
            RxPacketV::Disconnect(d) => {
                &&& final(session)@ == old(session)@
                &&& final(connection)@ == old(connection)@
                &&& if d.reason == DisconnectReason::Success {
                    r matches Ok(Delivery::Graceful)
                } else {
                    r matches Err(MqttError::Disconnected(e)) && e@ == d
                }
            },
            RxPacketV::Puback(_) | RxPacketV::Pubcomp(_) => {
                &&& final(connection)@ == spec_release_send_quota(old(connection)@)
                &&& exists|x: Option<Bytes>|
                    #[trigger] spec_took_first(
                        old(session)@.retransmit_queue,
                        final(session)@.retransmit_queue,
                        spec_rx_action_id(packet@) as usize,
                        x,
                    )
                &&& final(session)@.subscriptions == old(session)@.subscriptions
                &&& spec_answered::<A, S>(
                    old(session)@.awaiting_ack,
                    final(session)@.awaiting_ack,
                    spec_rx_action_id(packet@),
                    packet@,
                    r,
                )
            },
            _ => {
                &&& final(connection)@ == old(connection)@
                &&& final(session)@.subscriptions == old(session)@.subscriptions
                &&& final(session)@.retransmit_queue == old(session)@.retransmit_queue
                &&& spec_answered::<A, S>(
                    old(session)@.awaiting_ack,
                    final(session)@.awaiting_ack,
                    spec_rx_action_id(packet@),
                    packet@,
                    r,
                )
            },
        },
{
    match packet {
        RxPacket::Publish(publish) => {
            match publish.subscription_identifier {
                Some(v) => {
                    let id = v.get().value() as usize;
                    Ok(Delivery::Message(id, RxPacket::Publish(publish)))
                },
                None => Err(MqttError::CodecError(CodecError::MandatoryPropertyMissing(MandatoryPropertyMissing))),
            }
        },
        RxPacket::Disconnect(disconnect) => {
            if disconnect.reason == DisconnectReason::Success {
                Ok(Delivery::Graceful)
            } else {
                Err(MqttError::from_disconnect(disconnect))
            }
        },
        RxPacket::Puback(p) => {
            let packet = RxPacket::Puback(p);
            let ghost pv = packet@;
            let action_id = rx_action_id(&packet);
            connection.release_send_quota();
            let ghost q0 = session@.retransmit_queue;
            let removed = session.drop_retransmit(action_id);
            let r = match session.take_awaiting(action_id) {
                Some(a) => Ok(Delivery::Answer(a, packet)),
                None => Ok(Delivery::Unclaimed),
            };
            assert(spec_took_first(q0, session@.retransmit_queue, spec_rx_action_id(pv) as usize, removed));
            r
        },
        RxPacket::Pubcomp(p) => {
            let packet = RxPacket::Pubcomp(p);
            let ghost pv = packet@;
            let action_id = rx_action_id(&packet);
            connection.release_send_quota();
            let ghost q0 = session@.retransmit_queue;
            let removed = session.drop_retransmit(action_id);
            let r = match session.take_awaiting(action_id) {
                Some(a) => Ok(Delivery::Answer(a, packet)),
                None => Ok(Delivery::Unclaimed),
            };
            assert(spec_took_first(q0, session@.retransmit_queue, spec_rx_action_id(pv) as usize, removed));
            r
        },
        other => {
            let action_id = rx_action_id(&other);
            match session.take_awaiting(action_id) {
                Some(a) => Ok(Delivery::Answer(a, other)),
                None => Ok(Delivery::Unclaimed),
            }
        },
    }
}

/// The error for an answer whose receiver is gone: the handle that waits
/// for a PUBACK was closed; for any other answer the context failed.
pub fn answer_refused(packet: &RxPacket) -> (r: MqttError)
    ensures
        packet@ is Puback ==> r == MqttError::HandleClosed(HandleClosed),
        !(packet@ is Puback) ==> (r matches MqttError::InternalError(e) && e.spec_msg()
            == "Unable to complete async operation."),
{
    match packet {
        RxPacket::Puback(_) => MqttError::HandleClosed(HandleClosed),
        _ => MqttError::InternalError(InternalError::from("Unable to complete async operation.")),
    }
}

/// Checks a request that waits for an answer before it is written: it must
/// fit the server's maximum packet size, and a PUBLISH takes one send
/// quota, refused when none is left. Hands back what recording it takes.
pub fn admit_request(connection: &mut Connection, packet: &[u8]) -> (r: Result<RequestKind, MqttError>)
    requires
        packet@.len() > 0,
    ensures
        ({
            let fits = old(connection)@.remote_max_packet_size is None || packet@.len()
                <= old(connection)@.remote_max_packet_size->0;
            let kind = spec_request_kind(packet@[0]);
            if !fits {
                r == Err::<RequestKind, MqttError>(
                    MqttError::MaximumPacketSizeExceeded(crate::client::error::MaximumPacketSizeExceeded),
                ) && final(connection)@ == old(connection)@
            } else if kind == RequestKind::Publish {
                match spec_acquire_send_quota(old(connection)@) {
                    Some(c) => r == Ok::<RequestKind, MqttError>(kind) && final(connection)@ == c,
                    None => r == Err::<RequestKind, MqttError>(
                        MqttError::QuotaExceeded(crate::client::error::QuotaExceeded),
                    ) && final(connection)@ == old(connection)@,
                }
            } else {
                r == Ok::<RequestKind, MqttError>(kind) && final(connection)@ == old(connection)@
            }
        }),
{
    match connection.validate_packet_size(packet.len()) {
        Ok(()) => {},
        Err(e) => return Err(e),
    }
    let kind = request_kind(packet[0]);
    if kind == RequestKind::Publish {
        match connection.acquire_send_quota() {
            Ok(()) => {},
            Err(e) => return Err(e),
        }
    }
    Ok(kind)
}

/// Records a written request: it waits for its answer, and a PUBLISH (as
/// it will be sent again, with its DUP flag set) or a PUBREL is kept for
/// retransmission.
pub fn record_request<A, S>(
    session: &mut Session<A, S>,
    kind: RequestKind,
    action_id: usize,
    packet: Bytes,
    response: A,
)
    ensures
        final(session)@.awaiting_ack == old(session)@.awaiting_ack.push((action_id, response)),
        final(session)@.subscriptions == old(session)@.subscriptions,
        kind == RequestKind::Other ==> final(session)@.retransmit_queue == old(session)@.retransmit_queue,
        kind != RequestKind::Other ==> final(session)@.retransmit_queue == old(session)@.retransmit_queue.push(
            (action_id, packet),
        ),
{
    session.await_ack(action_id, response);
    if kind != RequestKind::Other {
        session.queue_retransmit(action_id, packet);
    }
}

} // verus!

//! Packets of either direction as one type, and the dispatch on the packet
//! type of a received buffer.
use crate::buffer::{bytes_as_slice, bytes_mut_view, bytes_view};
use crate::codec::ack::{lemma_ack_roundtrip, spec_ack_encoding, spec_ack_remaining_len, spec_ack_sent, spec_decode_ack, AckV};
use crate::codec::auth::{lemma_auth_roundtrip, spec_auth_fits, spec_auth_sent, spec_auth_encoding, spec_auth_remaining_len, spec_auth_tx_valid, spec_decode_auth, AuthRx, AuthTx, AuthV};
use crate::codec::connack::{spec_decode_connack, ConnackRx, ConnackV};
use crate::codec::connect::{spec_connect_encoding, spec_connect_fits, ConnectTx};
use crate::codec::disconnect::{lemma_disconnect_roundtrip, spec_disconnect_fits, spec_disconnect_sent, spec_decode_disconnect, spec_disconnect_encoding, spec_disconnect_remaining_len, DisconnectRx, DisconnectTx, DisconnectV};
use crate::codec::ping::{spec_decode_pingresp, PingrespRx, PingreqTx, PINGREQ_FIXED_HDR};
use crate::codec::puback::{PubackReason, PubackRx, PubackTx};
use crate::codec::pubcomp::{PubcompReason, PubcompRx, PubcompTx};
use crate::codec::publish::{lemma_publish_roundtrip, spec_publish_fits, spec_publish_sent, spec_decode_publish, spec_publish_encoding, spec_publish_remaining_len, PublishRx, PublishTx, PublishV};
use crate::codec::pubrec::{PubrecReason, PubrecRx, PubrecTx};
use crate::codec::pubrel::{PubrelReason, PubrelRx, PubrelTx};
use crate::codec::sub_ack::{spec_decode_sub_ack, SubAckV};
use crate::codec::suback::{SubackReason, SubackRx};
use crate::codec::subscribe::{spec_subscribe_encoding, spec_subscribe_remaining_len, SubscribeTx};
use crate::codec::unsuback::{UnsubackReason, UnsubackRx};
use crate::codec::unsubscribe::{spec_unsubscribe_encoding, spec_unsubscribe_remaining_len, UnsubscribeTx};
use crate::types::base_types::{QoS, VarSizeInt};
use crate::types::properties::{spec_opt_str_fits, spec_pairs_fit};
use crate::types::error::{CodecError, InvalidPacketHeader, UnexpectedProperty};
use bytes::{Bytes, BytesMut};
use vstd::prelude::*;

verus! {

/// A received packet of any type.
#[derive(Debug)]
pub enum RxPacket {
    /// A CONNACK packet.
    Connack(ConnackRx),
    /// A PUBLISH packet.
    Publish(PublishRx),
    /// A PUBACK packet.
    Puback(PubackRx),
    /// A PUBREC packet.
    Pubrec(PubrecRx),
    /// A PUBREL packet.
    Pubrel(PubrelRx),
    /// A PUBCOMP packet.
    Pubcomp(PubcompRx),
    /// A SUBACK packet.
    Suback(SubackRx),
    /// A UNSUBACK packet.
    Unsuback(UnsubackRx),
    /// A PINGRESP packet.
    Pingresp(PingrespRx),
    /// A DISCONNECT packet.
    Disconnect(DisconnectRx),
    /// A AUTH packet.
    Auth(AuthRx),
}

/// A received packet of any type as plain data.
pub enum RxPacketV {
    /// A CONNACK packet.
    Connack(ConnackV),
    /// A PUBLISH packet.
    Publish(PublishV),
    /// A PUBACK packet.
    Puback(AckV<PubackReason>),
    /// A PUBREC packet.
    Pubrec(AckV<PubrecReason>),
    /// A PUBREL packet.
    Pubrel(AckV<PubrelReason>),
    /// A PUBCOMP packet.
    Pubcomp(AckV<PubcompReason>),
    /// A SUBACK packet.
    Suback(SubAckV<SubackReason>),
    /// A UNSUBACK packet.
    Unsuback(SubAckV<UnsubackReason>),
    /// A PINGRESP packet.
    Pingresp(()),
    /// A DISCONNECT packet.
    Disconnect(DisconnectV),
    /// A AUTH packet.
    Auth(AuthV),
}

impl View for RxPacket {
    type V = RxPacketV;

    open spec fn view(&self) -> RxPacketV {
        match self {
            RxPacket::Connack(p) => RxPacketV::Connack(p@),
            RxPacket::Publish(p) => RxPacketV::Publish(p@),
            RxPacket::Puback(p) => RxPacketV::Puback(p@),
            RxPacket::Pubrec(p) => RxPacketV::Pubrec(p@),
            RxPacket::Pubrel(p) => RxPacketV::Pubrel(p@),
            RxPacket::Pubcomp(p) => RxPacketV::Pubcomp(p@),
            RxPacket::Suback(p) => RxPacketV::Suback(p@),
            RxPacket::Unsuback(p) => RxPacketV::Unsuback(p@),
            RxPacket::Pingresp(_) => RxPacketV::Pingresp(()),
            RxPacket::Disconnect(p) => RxPacketV::Disconnect(p@),
            RxPacket::Auth(p) => RxPacketV::Auth(p@),
        }
    }
}

/// Reading a received packet from `s`: the high four bits of the first
/// byte choose the packet type, whose reading goes on from there; any
/// other type is refused.
pub open spec fn spec_decode_rx_packet(s: Seq<u8>) -> Result<RxPacketV, CodecError>
    recommends
        s.len() > 0,
{
    let t = s[0] / 16;
    if t == 2 {
        match spec_decode_connack(s) {
            Ok(p) => Ok(RxPacketV::Connack(p)),
            Err(e) => Err(e),
        }
    } else if t == 3 {
        match spec_decode_publish(s) {
            Ok(p) => Ok(RxPacketV::Publish(p)),
            Err(e) => Err(e),
        }
    } else if t == 4 {
        match spec_decode_ack::<PubackReason>(s) {
            Ok(p) => Ok(RxPacketV::Puback(p)),
            Err(e) => Err(e),
        }
    } else if t == 5 {
        match spec_decode_ack::<PubrecReason>(s) {
            Ok(p) => Ok(RxPacketV::Pubrec(p)),
            Err(e) => Err(e),
        }
    } else if t == 6 {
        match spec_decode_ack::<PubrelReason>(s) {
            Ok(p) => Ok(RxPacketV::Pubrel(p)),
            Err(e) => Err(e),
        }
    } else if t == 7 {
        match spec_decode_ack::<PubcompReason>(s) {
            Ok(p) => Ok(RxPacketV::Pubcomp(p)),
            Err(e) => Err(e),
        }
    } else if t == 9 {
        match spec_decode_sub_ack::<SubackReason>(s) {
            Ok(p) => Ok(RxPacketV::Suback(p)),
            Err(e) => Err(e),
        }
    } else if t == 11 {
        match spec_decode_sub_ack::<UnsubackReason>(s) {
            Ok(p) => Ok(RxPacketV::Unsuback(p)),
            Err(e) => Err(e),
        }
    } else if t == 13 {
        match spec_decode_pingresp(s) {
            Ok(p) => Ok(RxPacketV::Pingresp(p)),
            Err(e) => Err(e),
        }
    } else if t == 14 {
        match spec_decode_disconnect(s) {
            Ok(p) => Ok(RxPacketV::Disconnect(p)),
            Err(e) => Err(e),
        }
    } else if t == 15 {
        match spec_decode_auth(s) {
            Ok(p) => Ok(RxPacketV::Auth(p)),
            Err(e) => Err(e),
        }
    } else {
        Err(CodecError::InvalidPacketHeader(InvalidPacketHeader))
    }
}

impl RxPacket {
    /// Decodes a received packet of whatever type its first byte names.
    #[verifier::rlimit(40)]
    pub fn try_decode(buf: Bytes) -> (r: Result<Self, CodecError>)
        requires
            bytes_view(buf).len() > 0,
        ensures
            match spec_decode_rx_packet(bytes_view(buf)) {
                Ok(v) => r matches Ok(p) && p@ == v,
                Err(e) => r == Err::<Self, CodecError>(e),
            },
    {
        let first = bytes_as_slice(&buf)[0];
        assert(first >> 4u8 == first / 16) by (bit_vector);
        let t = first >> 4u8;
        if t == 2 {
            match ConnackRx::try_decode(buf) {
                Ok(p) => Ok(RxPacket::Connack(p)),
                Err(e) => Err(e),
            }
        } else if t == 3 {
            match PublishRx::try_decode(buf) {
                Ok(p) => Ok(RxPacket::Publish(p)),
                Err(e) => Err(e),
            }
        } else if t == 4 {
            match PubackRx::try_decode(buf) {
                Ok(p) => Ok(RxPacket::Puback(p)),
                Err(e) => Err(e),
            }
        } else if t == 5 {
            match PubrecRx::try_decode(buf) {
                Ok(p) => Ok(RxPacket::Pubrec(p)),
                Err(e) => Err(e),
            }
        } else if t == 6 {
            match PubrelRx::try_decode(buf) {
                Ok(p) => Ok(RxPacket::Pubrel(p)),
                Err(e) => Err(e),
            }
        } else if t == 7 {
            match PubcompRx::try_decode(buf) {
                Ok(p) => Ok(RxPacket::Pubcomp(p)),
                Err(e) => Err(e),
            }
        } else if t == 9 {
            match SubackRx::try_decode(buf) {
                Ok(p) => Ok(RxPacket::Suback(p)),
                Err(e) => Err(e),
            }
        } else if t == 11 {
            match UnsubackRx::try_decode(buf) {
                Ok(p) => Ok(RxPacket::Unsuback(p)),
                Err(e) => Err(e),
            }
        } else if t == 13 {
            match PingrespRx::try_decode(buf) {
                Ok(p) => Ok(RxPacket::Pingresp(p)),
                Err(e) => Err(e),
            }
        } else if t == 14 {
            match DisconnectRx::try_decode(buf) {
                Ok(p) => Ok(RxPacket::Disconnect(p)),
                Err(e) => Err(e),
            }
        } else if t == 15 {
            match AuthRx::try_decode(buf) {
                Ok(p) => Ok(RxPacket::Auth(p)),
                Err(e) => Err(e),
            }
        } else {
            Err(CodecError::InvalidPacketHeader(InvalidPacketHeader))
        }
    }
}

/// A packet of any type to be sent.
#[derive(Debug)]
pub enum TxPacket<'a> {
    /// A CONNECT packet.
    Connect(ConnectTx<'a>),
    /// A PUBLISH packet.
    Publish(PublishTx<'a>),
    /// A PUBACK packet.
    Puback(PubackTx<'a>),
    /// A PUBREC packet.
    Pubrec(PubrecTx<'a>),
    /// A PUBREL packet.
    Pubrel(PubrelTx<'a>),
    /// A PUBCOMP packet.
    Pubcomp(PubcompTx<'a>),
    /// A SUBSCRIBE packet.
    Subscribe(SubscribeTx<'a>),
    /// A UNSUBSCRIBE packet.
    Unsubscribe(UnsubscribeTx<'a>),
    /// A PINGREQ packet.
    Pingreq(PingreqTx),
    /// A DISCONNECT packet.
    Disconnect(DisconnectTx<'a>),
    /// A AUTH packet.
    Auth(AuthTx<'a>),
}

/// A packet can be written: its sizes fit and it carries what its type needs.
pub open spec fn spec_tx_packet_valid(tx: TxPacket) -> bool {
    match tx {
        TxPacket::Connect(p) => spec_connect_fits(p),
        TxPacket::Publish(p) => spec_publish_remaining_len(p) <= VarSizeInt::MAX,
        TxPacket::Puback(p) => spec_ack_remaining_len(p) <= VarSizeInt::MAX,
        TxPacket::Pubrec(p) => spec_ack_remaining_len(p) <= VarSizeInt::MAX,
        TxPacket::Pubrel(p) => spec_ack_remaining_len(p) <= VarSizeInt::MAX,
        TxPacket::Pubcomp(p) => spec_ack_remaining_len(p) <= VarSizeInt::MAX,
        TxPacket::Subscribe(p) => spec_subscribe_remaining_len(p) <= VarSizeInt::MAX,
        TxPacket::Unsubscribe(p) => spec_unsubscribe_remaining_len(p) <= VarSizeInt::MAX,
        TxPacket::Pingreq(p) => true,
        TxPacket::Disconnect(p) => spec_disconnect_remaining_len(p) <= VarSizeInt::MAX,
        TxPacket::Auth(p) => spec_auth_tx_valid(p) && spec_auth_remaining_len(p) <= VarSizeInt::MAX,
    }
}

/// The bytes of a packet to be sent.
pub open spec fn spec_tx_packet_encoding(tx: TxPacket) -> Seq<u8> {
    match tx {
        TxPacket::Connect(p) => spec_connect_encoding(p),
        TxPacket::Publish(p) => spec_publish_encoding(p),
        TxPacket::Puback(p) => spec_ack_encoding(p),
        TxPacket::Pubrec(p) => spec_ack_encoding(p),
        TxPacket::Pubrel(p) => spec_ack_encoding(p),
        TxPacket::Pubcomp(p) => spec_ack_encoding(p),
        TxPacket::Subscribe(p) => spec_subscribe_encoding(p),
        TxPacket::Unsubscribe(p) => spec_unsubscribe_encoding(p),
        TxPacket::Pingreq(_) => seq![PINGREQ_FIXED_HDR, 0u8],
        TxPacket::Disconnect(p) => spec_disconnect_encoding(p),
        TxPacket::Auth(p) => spec_auth_encoding(p),
    }
}

impl<'a> TxPacket<'a> {
    /// Whether the packet can be written: its sizes fit and it carries what
    /// its type needs.
    pub fn fits(&self) -> (r: bool)
        ensures
            r == spec_tx_packet_valid(*self),
    {
        match self {
            TxPacket::Connect(packet) => packet.fits(),
            TxPacket::Publish(packet) => packet.fits(),
            TxPacket::Puback(packet) => packet.fits(),
            TxPacket::Pubrec(packet) => packet.fits(),
            TxPacket::Pubrel(packet) => packet.fits(),
            TxPacket::Pubcomp(packet) => packet.fits(),
            TxPacket::Subscribe(packet) => packet.fits(),
            TxPacket::Unsubscribe(packet) => packet.fits(),
            TxPacket::Pingreq(_) => true,
            TxPacket::Disconnect(packet) => packet.fits(),
            TxPacket::Auth(packet) => packet.fits(),
        }
    }

    /// Number of bytes of the whole packet.
    pub fn packet_len(&self) -> (r: usize)
        requires
            spec_tx_packet_valid(*self),
        ensures
            r == spec_tx_packet_encoding(*self).len(),
    {
        match self {
            TxPacket::Connect(packet) => packet.packet_len(),
            TxPacket::Publish(packet) => packet.packet_len(),
            TxPacket::Puback(packet) => packet.packet_len(),
            TxPacket::Pubrec(packet) => packet.packet_len(),
            TxPacket::Pubrel(packet) => packet.packet_len(),
            TxPacket::Pubcomp(packet) => packet.packet_len(),
            TxPacket::Subscribe(packet) => packet.packet_len(),
            TxPacket::Unsubscribe(packet) => packet.packet_len(),
            TxPacket::Pingreq(packet) => packet.packet_len(),
            TxPacket::Disconnect(packet) => packet.packet_len(),
            TxPacket::Auth(packet) => packet.packet_len(),
        }
    }

    /// Writes the packet to `buf`.
    #[verifier::rlimit(40)]
    pub fn encode(&self, buf: &mut BytesMut)
        requires
            spec_tx_packet_valid(*self),
            bytes_mut_view(*old(buf)).len() + spec_tx_packet_encoding(*self).len() <= isize::MAX,
        ensures
            bytes_mut_view(*final(buf)) == bytes_mut_view(*old(buf)) + spec_tx_packet_encoding(*self),
    {
        match self {
            TxPacket::Connect(packet) => packet.encode(buf),
            TxPacket::Publish(packet) => packet.encode(buf),
            TxPacket::Puback(packet) => packet.encode(buf),
            TxPacket::Pubrec(packet) => packet.encode(buf),
            TxPacket::Pubrel(packet) => packet.encode(buf),
            TxPacket::Pubcomp(packet) => packet.encode(buf),
            TxPacket::Subscribe(packet) => packet.encode(buf),
            TxPacket::Unsubscribe(packet) => packet.encode(buf),
            TxPacket::Pingreq(packet) => packet.encode(buf),
            TxPacket::Disconnect(packet) => packet.encode(buf),
            TxPacket::Auth(packet) => packet.encode(buf),
        }
    }
}


/// The texts, data and non-zero integers of a packet fit what reading it
/// back needs, for the packet types that the client both sends and
/// receives; sent-only types do not qualify.
pub open spec fn spec_tx_packet_readable(tx: TxPacket) -> bool {
    match tx {
        TxPacket::Publish(p) => spec_publish_fits(p) && (p.packet_identifier is Some) == (p.qos
            != QoS::AtMostOnce),
        TxPacket::Puback(p) => p.packet_identifier.spec_get() != 0 && spec_opt_str_fits(p.reason_string)
            && spec_pairs_fit(p.user_property@),
        TxPacket::Pubrec(p) => p.packet_identifier.spec_get() != 0 && spec_opt_str_fits(p.reason_string)
            && spec_pairs_fit(p.user_property@),
        TxPacket::Pubrel(p) => p.packet_identifier.spec_get() != 0 && spec_opt_str_fits(p.reason_string)
            && spec_pairs_fit(p.user_property@),
        TxPacket::Pubcomp(p) => p.packet_identifier.spec_get() != 0 && spec_opt_str_fits(p.reason_string)
            && spec_pairs_fit(p.user_property@),
        TxPacket::Disconnect(p) => spec_disconnect_fits(p),
        TxPacket::Auth(p) => spec_auth_fits(p),
        _ => false,
    }
}

/// Reading back a written packet through the dispatch on its packet type
/// gives the packet of the same type with what was written; a DISCONNECT
/// with a session expiry interval is refused, as a server never sends one.
#[verifier::spinoff_prover]
pub proof fn lemma_rx_reads_tx(tx: TxPacket)
    requires
        spec_tx_packet_valid(tx),
        spec_tx_packet_readable(tx),
    ensures
        spec_decode_rx_packet(spec_tx_packet_encoding(tx)) == match tx {
            TxPacket::Publish(p) => Ok::<RxPacketV, CodecError>(RxPacketV::Publish(spec_publish_sent(p))),
            TxPacket::Puback(p) => Ok(RxPacketV::Puback(spec_ack_sent(p))),
            TxPacket::Pubrec(p) => Ok(RxPacketV::Pubrec(spec_ack_sent(p))),
            TxPacket::Pubrel(p) => Ok(RxPacketV::Pubrel(spec_ack_sent(p))),
            TxPacket::Pubcomp(p) => Ok(RxPacketV::Pubcomp(spec_ack_sent(p))),
            TxPacket::Disconnect(p) => if p.session_expiry_interval == 0 {
                Ok(RxPacketV::Disconnect(spec_disconnect_sent(p)))
            } else {
                Err(CodecError::UnexpectedProperty(UnexpectedProperty))
            },
            TxPacket::Auth(p) => Ok(RxPacketV::Auth(spec_auth_sent(p))),
            _ => Err(CodecError::InvalidPacketHeader(InvalidPacketHeader)),
        },
{
    match tx {
        TxPacket::Publish(p) => lemma_publish_roundtrip(p),
        TxPacket::Puback(p) => lemma_ack_roundtrip(p),
        TxPacket::Pubrec(p) => lemma_ack_roundtrip(p),
        TxPacket::Pubrel(p) => lemma_ack_roundtrip(p),
        TxPacket::Pubcomp(p) => lemma_ack_roundtrip(p),
        TxPacket::Disconnect(p) => lemma_disconnect_roundtrip(p),
        TxPacket::Auth(p) => lemma_auth_roundtrip(p),
        _ => {},
    }
}

} // verus!

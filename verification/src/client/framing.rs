//! Cutting the bytes read from the socket into packets: the fixed header,
//! the remaining length and the data it counts make one packet. The reader
//! that owns the socket reads into its buffer and asks a [RxFramer] how
//! much to read and where a packet ends.
use crate::codec::ack::{lemma_ack_framed, spec_ack_remaining_len};
use crate::codec::auth::{lemma_auth_framed, spec_auth_remaining_len};
use crate::codec::connect::{lemma_connect_framed, spec_connect_remaining_len};
use crate::codec::disconnect::{lemma_disconnect_framed, spec_disconnect_remaining_len};
use crate::codec::packets::{spec_tx_packet_encoding, spec_tx_packet_valid, TxPacket};
use crate::codec::publish::{lemma_publish_framed, spec_publish_remaining_len};
use crate::codec::subscribe::{lemma_subscribe_framed, spec_subscribe_remaining_len};
use crate::codec::unsubscribe::{lemma_unsubscribe_framed, spec_unsubscribe_remaining_len};
use crate::types::base_types::{
    lemma_var_size_int_from_valid, lemma_var_size_int_roundtrip, spec_decode_var_size_int, spec_var_size_int_from,
    VarSizeInt,
};
use crate::types::properties::{lemma_var_int_encoding_len, spec_var_int_encoding, spec_var_int_len};
use crate::types::error::{ConversionError, InsufficientBufferSize};
use vstd::prelude::*;

verus! {

/// How much a read asks for at least.
pub const DEFAULT_CHUNK_SIZE: usize = 512;

/// The length of the packet that starts `s`, once its remaining length is
/// complete: `None` while it is cut short, an error when it is malformed.
pub open spec fn spec_packet_len(s: Seq<u8>) -> Result<Option<nat>, ConversionError> {
    match spec_decode_var_size_int(s.skip(1)) {
        Ok(v) => Ok(Some(1 + v.spec_len() + v.spec_value())),
        Err(ConversionError::InsufficientBufferSize(_)) => Ok(None),
        Err(e) => Err(e),
    }
}

/// Reads the length of the packet that starts `buf`.
pub fn packet_len(buf: &[u8]) -> (r: Result<Option<usize>, ConversionError>)
    requires
        buf@.len() >= 1,
    ensures
        match spec_packet_len(buf@) {
            Ok(Some(n)) => r == Ok::<Option<usize>, ConversionError>(Some(n as usize)),
            Ok(None) => r == Ok::<Option<usize>, ConversionError>(None),
            Err(e) => r == Err::<Option<usize>, ConversionError>(e),
        },
{
    let rest = vstd::slice::slice_subrange(buf, 1, buf.len());
    assert(rest@ =~= buf@.skip(1));
    match VarSizeInt::try_from(rest) {
        Ok(v) => {
            proof {
                use_type_invariant(&v);
            }
            Ok(Some(1 + v.len() + v.value() as usize))
        },
        Err(ConversionError::InsufficientBufferSize(_)) => Ok(None),
        Err(e) => Err(e),
    }
}

/// What the framer waits for.
#[derive(Debug, Clone, Copy, PartialEq, Eq, Structural)]
pub enum FramerState {
    /// More bytes from the socket.
    Idle,
    /// The length of the next packet.
    ReadPacketLen,
    /// The rest of a packet whose length is known.
    ReadPacketData,
}

/// The framer's bookkeeping as plain data.
pub struct RxFramerV {
    /// What the framer waits for.
    pub state: FramerState,
    /// Bytes held in the buffer.
    pub size: nat,
    /// Length of the packet being read, once known.
    pub packet_end: nat,
}

/// Bookkeeping of the reader: how many bytes its buffer holds and how long
/// the packet at its front is.
#[derive(Debug)]
pub struct RxFramer {
    state: FramerState,
    size: usize,
    packet_end: usize,
}

impl View for RxFramer {
    type V = RxFramerV;

    closed spec fn view(&self) -> RxFramerV {
        RxFramerV { state: self.state, size: self.size as nat, packet_end: self.packet_end as nat }
    }
}

/// How many bytes a read from the socket asks for.
pub open spec fn spec_chunk_size(f: RxFramerV) -> nat {
    if f.packet_end - f.size < DEFAULT_CHUNK_SIZE {
        DEFAULT_CHUNK_SIZE as nat
    } else {
        f.packet_end
    }
}

impl RxFramer {
    /// A framer with an empty buffer.
    pub fn new() -> (r: Self)
        ensures
            r@ == (RxFramerV { state: FramerState::Idle, size: 0, packet_end: 0 }),
    {
        RxFramer { state: FramerState::Idle, size: 0, packet_end: 0 }
    }

    /// What the framer waits for.
    pub fn state(&self) -> (r: FramerState)
        ensures
            r == self@.state,
    {
        self.state
    }

    /// Bytes held in the buffer.
    pub fn size(&self) -> (r: usize)
        ensures
            r == self@.size,
    {
        self.size
    }

    /// Length of the packet being read, once known.
    pub fn packet_end(&self) -> (r: usize)
        ensures
            r == self@.packet_end,
    {
        self.packet_end
    }

    /// How many bytes the next read asks for: at least a chunk, or the whole
    /// packet being read when that is more.
    pub fn chunk_size(&self) -> (r: usize)
        requires
            self@.size <= self@.packet_end,
        ensures
            r == spec_chunk_size(self@),
    {
        if self.packet_end - self.size < DEFAULT_CHUNK_SIZE {
            DEFAULT_CHUNK_SIZE
        } else {
            self.packet_end
        }
    }

    /// `n` more bytes were read: with a fixed header and one length byte in
    /// the buffer, the length can be read.
    pub fn on_read(&mut self, n: usize)
        requires
            old(self)@.size + n <= usize::MAX,
        ensures
            final(self)@.size == old(self)@.size + n,
            final(self)@.packet_end == old(self)@.packet_end,
            final(self)@.state == (if old(self)@.size + n >= 2 {
                FramerState::ReadPacketLen
            } else {
                old(self)@.state
            }),
    {
        self.size = self.size + n;
        if self.size >= 2 {
            self.state = FramerState::ReadPacketLen;
        }
    }

    /// Reads the length of the packet at the front of `buf`, which holds
    /// what was read so far: once complete, the rest of the packet is read
    /// next; while cut short, more bytes are read. A malformed length ends
    /// the stream, and is handed back.
    pub fn on_length(&mut self, buf: &[u8]) -> (r: Result<(), ConversionError>)
        requires
            buf@.len() >= 1,
        ensures
            match spec_packet_len(buf@) {
                Ok(Some(n)) => r is Ok && final(self)@ == (RxFramerV {
                    state: FramerState::ReadPacketData,
                    size: old(self)@.size,
                    packet_end: n,
                }),
                Ok(None) => r is Ok && final(self)@ == (RxFramerV { state: FramerState::Idle, ..old(self)@ }),
                Err(e) => r == Err::<(), ConversionError>(e) && final(self)@ == old(self)@,
            },
    {
        match packet_len(buf) {
            Ok(Some(n)) => {
                self.packet_end = n;
                self.state = FramerState::ReadPacketData;
                Ok(())
            },
            Ok(None) => {
                self.state = FramerState::Idle;
                Ok(())
            },
            Err(e) => Err(e),
        }
    }

    /// Once the whole packet is in the buffer, hands back its length: the
    /// caller splits that many bytes off the front. Otherwise more bytes are
    /// read.
    pub fn take_packet(&mut self) -> (r: Option<usize>)
        ensures
            old(self)@.size < old(self)@.packet_end ==> r is None && final(self)@ == (RxFramerV {
                state: FramerState::Idle,
                ..old(self)@
            }),
            old(self)@.size >= old(self)@.packet_end ==> r == Some(old(self)@.packet_end as usize)
                && final(self)@ == (RxFramerV {
                state: if old(self)@.size - old(self)@.packet_end != 0 {
                    FramerState::ReadPacketLen
                } else {
                    FramerState::Idle
                },
                size: (old(self)@.size - old(self)@.packet_end) as nat,
                packet_end: 0,
            }),
    {
        if self.size < self.packet_end {
            self.state = FramerState::Idle;
            return None;
        }
        self.size = self.size - self.packet_end;
        self.state = if self.size != 0 {
            FramerState::ReadPacketLen
        } else {
            FramerState::Idle
        };
        let end = self.packet_end;
        self.packet_end = 0;
        Some(end)
    }
}


/// A fixed header, the shortest encoding of a remaining length and that many
/// bytes make a packet whose length the framer reads exactly, whatever
/// follows it.
pub proof fn lemma_packet_len_framed(s: Seq<u8>, rl: nat, rest: Seq<u8>)
    requires
        rl <= VarSizeInt::MAX,
        s.len() == 1 + spec_var_int_len(rl) + rl,
        s.subrange(1, 1 + spec_var_int_len(rl) as int) == spec_var_int_encoding(rl),
    ensures
        spec_packet_len(s + rest) == Ok::<Option<nat>, ConversionError>(Some(s.len())),
{
    let n = spec_var_int_len(rl);
    let after = (s + rest).skip(1 + n as int);
    lemma_var_int_encoding_len(rl);
    assert((s + rest).skip(1) =~= spec_var_int_encoding(rl) + after);
    lemma_var_size_int_from_valid(rl);
    lemma_var_size_int_roundtrip(spec_var_size_int_from(rl).unwrap(), after);
}

/// The framer cuts a written packet off the bytes that follow it: the
/// length it reads at the start of a packet as written is that packet's
/// whole length.
pub proof fn lemma_framer_cuts_written_packet(tx: TxPacket, rest: Seq<u8>)
    requires
        spec_tx_packet_valid(tx),
    ensures
        spec_packet_len(spec_tx_packet_encoding(tx) + rest) == Ok::<Option<nat>, ConversionError>(
            Some(spec_tx_packet_encoding(tx).len()),
        ),
{
    let s = spec_tx_packet_encoding(tx);
    match tx {
        TxPacket::Connect(p) => {
            lemma_connect_framed(p);
            lemma_packet_len_framed(s, spec_connect_remaining_len(p), rest);
        },
        TxPacket::Publish(p) => {
            lemma_publish_framed(p);
            lemma_packet_len_framed(s, spec_publish_remaining_len(p), rest);
        },
        TxPacket::Puback(p) => {
            lemma_ack_framed(p);
            lemma_packet_len_framed(s, spec_ack_remaining_len(p), rest);
        },
        TxPacket::Pubrec(p) => {
            lemma_ack_framed(p);
            lemma_packet_len_framed(s, spec_ack_remaining_len(p), rest);
        },
        TxPacket::Pubrel(p) => {
            lemma_ack_framed(p);
            lemma_packet_len_framed(s, spec_ack_remaining_len(p), rest);
        },
        TxPacket::Pubcomp(p) => {
            lemma_ack_framed(p);
            lemma_packet_len_framed(s, spec_ack_remaining_len(p), rest);
        },
        TxPacket::Subscribe(p) => {
            lemma_subscribe_framed(p);
            lemma_packet_len_framed(s, spec_subscribe_remaining_len(p), rest);
        },
        TxPacket::Unsubscribe(p) => {
            lemma_unsubscribe_framed(p);
            lemma_packet_len_framed(s, spec_unsubscribe_remaining_len(p), rest);
        },
        TxPacket::Pingreq(_) => {
            assert(spec_var_int_encoding(0) =~= seq![0u8]);
            assert(s.subrange(1, 2) =~= spec_var_int_encoding(0));
            lemma_packet_len_framed(s, 0, rest);
        },
        TxPacket::Disconnect(p) => {
            lemma_disconnect_framed(p);
            lemma_packet_len_framed(s, spec_disconnect_remaining_len(p), rest);
        },
        TxPacket::Auth(p) => {
            lemma_auth_framed(p);
            lemma_packet_len_framed(s, spec_auth_remaining_len(p), rest);
        },
    }
}

} // verus!

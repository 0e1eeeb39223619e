//! The PINGREQ and PINGRESP packets, which keep a connection alive.
use crate::buffer::{bytes_mut_view, bytes_view, put_u8};
use crate::types::decoder::Decoder;
use crate::types::error::{
    codec_error_of, CodecError, ConversionError, InsufficientBufferSize, InvalidPacketHeader,
};
use bytes::{Bytes, BytesMut};
use vstd::prelude::*;

verus! {

/// The first byte of a PINGREQ packet.
pub const PINGREQ_FIXED_HDR: u8 = 0xc0;

/// The first byte of a PINGRESP packet.
pub const PINGRESP_FIXED_HDR: u8 = 0xd0;

/// PINGREQ packet to be sent.
#[derive(Debug, Clone, Copy, Default)]
pub struct PingreqTx {}

impl PingreqTx {
    /// Number of bytes of the whole packet.
    pub fn packet_len(&self) -> (r: usize)
        ensures
            r == 2,
    {
        2
    }

    /// Writes the packet to `buf`: its fixed header and a zero remaining length.
    pub fn encode(&self, buf: &mut BytesMut)
        requires
            bytes_mut_view(*old(buf)).len() + 2 <= isize::MAX,
        ensures
            bytes_mut_view(*final(buf)) == bytes_mut_view(*old(buf)) + seq![PINGREQ_FIXED_HDR, 0u8],
    {
        put_u8(buf, PINGREQ_FIXED_HDR);
        put_u8(buf, 0);
        assert(bytes_mut_view(*buf) =~= bytes_mut_view(*old(buf)) + seq![PINGREQ_FIXED_HDR, 0u8]);
    }
}

/// Received PINGRESP packet.
#[derive(Debug, Clone, Copy)]
pub struct PingrespRx {}

/// Reading a PINGRESP packet from `s`: only its first byte is looked at.
pub open spec fn spec_decode_pingresp(s: Seq<u8>) -> Result<(), CodecError> {
    if s.len() == 0 {
        Err(codec_error_of(ConversionError::InsufficientBufferSize(InsufficientBufferSize)))
    } else if s[0] != PINGRESP_FIXED_HDR {
        Err(CodecError::InvalidPacketHeader(InvalidPacketHeader))
    } else {
        Ok(())
    }
}

impl PingrespRx {
    /// Decodes a PINGRESP packet from a received buffer.
    pub fn try_decode(buf: Bytes) -> (r: Result<Self, CodecError>)
        ensures
            match spec_decode_pingresp(bytes_view(buf)) {
                Ok(_) => r is Ok,
                Err(e) => r == Err::<Self, CodecError>(e),
            },
    {
        let mut decoder = Decoder::from_bytes(buf);
        let fixed_hdr = match decoder.try_decode_u8() {
            Ok(v) => v,
            Err(e) => return Err(e.into_codec_error()),
        };
        if fixed_hdr != PINGRESP_FIXED_HDR {
            return Err(CodecError::InvalidPacketHeader(InvalidPacketHeader));
        }
        Ok(PingrespRx {})
    }
}


/// Builder of a [PingreqTx], which has nothing to set.
#[derive(Debug, Clone, Copy, Default)]
pub struct PingreqTxBuilder {}

impl PingreqTxBuilder {
    /// Builds the packet; this never fails.
    pub fn build(&self) -> (r: Result<PingreqTx, CodecError>)
        ensures
            r is Ok,
    {
        Ok(PingreqTx {})
    }
}

} // verus!

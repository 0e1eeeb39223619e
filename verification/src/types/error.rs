//! Error types of the packet codec.
use vstd::prelude::*;

verus! {

/// Invalid value was supplied.
#[derive(Debug, Clone, Copy, PartialEq, Eq, Structural)]
pub struct InvalidValue;

/// Unaccepted value `0` was supplied.
#[derive(Debug, Clone, Copy, PartialEq, Eq, Structural)]
pub struct ValueIsZero;

/// Value exceedes the allowed maximum.
#[derive(Debug, Clone, Copy, PartialEq, Eq, Structural)]
pub struct ValueExceedesMaximum;

/// Invalid byte encoding was found.
#[derive(Debug, Clone, Copy, PartialEq, Eq, Structural)]
pub struct InvalidEncoding;

/// Size of the supplied buffer is too small.
#[derive(Debug, Clone, Copy, PartialEq, Eq, Structural)]
pub struct InsufficientBufferSize;

/// Bytes that should hold text are not valid UTF-8.
#[derive(Debug, Clone, Copy, PartialEq, Eq, Structural)]
pub struct Utf8Error;

/// General error type for conversion errors.
#[derive(Debug, Clone, Copy, PartialEq, Eq, Structural)]
pub enum ConversionError {
    /// See [InvalidValue].
    InvalidValue(InvalidValue),
    /// See [ValueIsZero].
    ValueIsZero(ValueIsZero),
    /// See [ValueExceedesMaximum].
    ValueExceedesMaximum(ValueExceedesMaximum),
    /// See [InvalidEncoding].
    InvalidEncoding(InvalidEncoding),
    /// See [Utf8Error].
    Utf8Error(Utf8Error),
    /// See [InsufficientBufferSize].
    InsufficientBufferSize(InsufficientBufferSize),
}

/// Invalid property identifier found in an incoming packet.
#[derive(Debug, Clone, Copy, PartialEq, Eq, Structural)]
pub struct InvalidPropertyId;

/// General error type for property errors.
#[derive(Debug, Clone, Copy, PartialEq, Eq, Structural)]
pub enum PropertyError {
    /// A value of the property could not be read.
    ConversionError(ConversionError),
    /// The property identifier is unknown.
    InvalidPropertyId(InvalidPropertyId),
}

/// Found property that is not valid for the incoming packet.
#[derive(Debug, Clone, Copy, PartialEq, Eq, Structural)]
pub struct UnexpectedProperty;

/// Header of the incoming packet is invalid.
#[derive(Debug, Clone, Copy, PartialEq, Eq, Structural)]
pub struct InvalidPacketHeader;

/// Size of the incoming packet is not valid.
#[derive(Debug, Clone, Copy, PartialEq, Eq, Structural)]
pub struct InvalidPacketSize;

/// Declared propery length of the incoming packet is not valid.
#[derive(Debug, Clone, Copy, PartialEq, Eq, Structural)]
pub struct InvalidPropertyLength;

/// Mandatory property is missing in the packet.
#[derive(Debug, Clone, Copy, PartialEq, Eq, Structural)]
pub struct MandatoryPropertyMissing;

/// General error type for the packet codec.
#[derive(Debug, Clone, Copy, PartialEq, Eq, Structural)]
pub enum CodecError {
    /// See [ConversionError].
    ConversionError(ConversionError),
    /// See [PropertyError].
    PropertyError(PropertyError),
    /// See [UnexpectedProperty].
    UnexpectedProperty(UnexpectedProperty),
    /// See [InvalidPacketHeader].
    InvalidPacketHeader(InvalidPacketHeader),
    /// See [InvalidPacketSize].
    InvalidPacketSize(InvalidPacketSize),
    /// See [InvalidPropertyLength].
    InvalidPropertyLength(InvalidPropertyLength),
    /// See [InsufficientBufferSize].
    InsufficientBufferSize(InsufficientBufferSize),
    /// See [MandatoryPropertyMissing].
    MandatoryPropertyMissing(MandatoryPropertyMissing),
}

/// How a conversion error is reported by the packet codec: a failed value
/// read surfaces as a property error.
pub open spec fn codec_error_of(err: ConversionError) -> CodecError {
    CodecError::PropertyError(PropertyError::ConversionError(err))
}

impl ConversionError {
    /// The codec error that a conversion error becomes inside a packet decoder.
    pub fn into_codec_error(self) -> (r: CodecError)
        ensures
            r == codec_error_of(self),
    {
        CodecError::PropertyError(PropertyError::ConversionError(self))
    }

    /// The property error that a conversion error becomes inside a property decoder.
    pub fn into_property_error(self) -> (r: PropertyError)
        ensures
            r == PropertyError::ConversionError(self),
    {
        PropertyError::ConversionError(self)
    }
}

impl PropertyError {
    /// The codec error that a property error becomes inside a packet decoder.
    pub fn into_codec_error(self) -> (r: CodecError)
        ensures
            r == CodecError::PropertyError(self),
    {
        CodecError::PropertyError(self)
    }
}

} // verus!

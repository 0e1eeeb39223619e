//! Borrowed access to the text and data that received packets hold.
use crate::buffer::{bytes_as_slice, bytes_view};
use crate::codec::ack::opt_str_view;
use crate::types::base_types::{Binary, UTF8String};
use vstd::prelude::*;
use vstd::string::StringSliceAdditionalSpecFns;

verus! {

/// The bytes of an optional borrowed text.
pub open spec fn opt_str_bytes(o: Option<&str>) -> Option<Seq<u8>> {
    match o {
        Some(s) => Some(s.spec_bytes()),
        None => None,
    }
}

/// The bytes of optional borrowed data.
pub open spec fn opt_slice_bytes(o: Option<&[u8]>) -> Option<Seq<u8>> {
    match o {
        Some(s) => Some(s@),
        None => None,
    }
}

/// The bytes of optional binary data.
pub open spec fn opt_bin_view(o: Option<Binary>) -> Option<Seq<u8>> {
    match o {
        Some(b) => Some(b@),
        None => None,
    }
}

/// Optional text as a string slice.
pub fn opt_as_str(o: &Option<UTF8String>) -> (r: Option<&str>)
    ensures
        opt_str_bytes(r) == opt_str_view(*o),
{
    match o {
        Some(s) => Some(s.as_str()),
        None => None,
    }
}

/// Optional binary data as a byte slice.
pub fn opt_as_slice(o: &Option<Binary>) -> (r: Option<&[u8]>)
    ensures
        opt_slice_bytes(r) == opt_bin_view(*o),
{
    match o {
        Some(b) => Some(bytes_as_slice(&b.0)),
        None => None,
    }
}

} // verus!

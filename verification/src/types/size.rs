//! Counting the bytes a packet to be sent will take, without overflow: a
//! count stops at one past the largest remaining length, so that a packet
//! whose sizes do not fit a variable byte integer is told apart before it
//! is written.
use crate::types::base_types::{
    spec_length_prefixed, var_size_int_from_usize, BinaryRef, UTF8StringPairRef, UTF8StringRef,
    VarSizeInt,
};
use crate::types::properties::{
    lemma_var_int_encoding_len, spec_opt_bin_prop, spec_opt_str_prop, spec_user_props, spec_var_int_len,
};
use vstd::prelude::*;
use vstd::string::StringSliceAdditionalSpecFns;

verus! {

/// One past the largest remaining length.
pub const SIZE_LIMIT: u64 = 0x10000000;

/// `n`, or [SIZE_LIMIT] where it is larger.
pub open spec fn spec_capped(n: int) -> nat {
    if n < SIZE_LIMIT {
        n as nat
    } else {
        SIZE_LIMIT as nat
    }
}

/// A length, capped.
pub fn capped(n: usize) -> (r: u64)
    ensures
        r == spec_capped(n as int),
{
    if n < 0x10000000 {
        n as u64
    } else {
        SIZE_LIMIT
    }
}

/// The sum of two capped counts, capped: the same as capping the sum of
/// what they count.
pub fn capped_add(a: u64, b: u64) -> (r: u64)
    requires
        a <= SIZE_LIMIT,
        b <= SIZE_LIMIT,
    ensures
        r == spec_capped(a + b),
        forall|x: int, y: int|
            #![trigger spec_capped(x), spec_capped(y)]
            0 <= x && 0 <= y && spec_capped(x) == a && spec_capped(y) == b ==> r == spec_capped(x + y),
{
    let s = a + b;
    if s < SIZE_LIMIT {
        s
    } else {
        SIZE_LIMIT
    }
}

/// Capping a sum of capped counts is capping the sum of what they count.
pub proof fn lemma_capped_sum(x: nat, y: nat)
    ensures
        spec_capped((spec_capped(x as int) + spec_capped(y as int)) as int) == spec_capped((x + y) as int),
{
}

/// A count of a fixed number of bytes and `n` more, capped.
pub fn capped_plus(k: u64, n: usize) -> (r: u64)
    requires
        k <= 16,
    ensures
        r == spec_capped(k + n),
{
    capped_add(k, capped(n))
}

/// Whether `fixed` bytes, the property length, properties of capped length
/// `props` and further bytes of capped length `tail` fit a variable byte
/// integer; the counts are exact where they do.
pub fn remaining_fits(fixed: u64, props: u64, tail: u64) -> (r: bool)
    requires
        fixed <= 16,
        props <= SIZE_LIMIT,
        tail <= SIZE_LIMIT,
    ensures
        r == (props < SIZE_LIMIT && tail < SIZE_LIMIT && fixed + spec_var_int_len(props as nat) + props
            + tail <= VarSizeInt::MAX),
{
    if props >= SIZE_LIMIT || tail >= SIZE_LIMIT {
        return false;
    }
    let pl = var_size_int_from_usize(props as usize);
    proof {
        lemma_var_int_encoding_len(props as nat);
    }
    fixed + (pl.len() as u64) + props + tail <= 0x0fffffff
}

/// The bytes an optional text property takes, capped.
pub fn capped_opt_str_prop(id: u8, o: Option<UTF8StringRef>) -> (r: u64)
    ensures
        r == spec_capped(spec_opt_str_prop(id, o).len() as int),
{
    match o {
        Some(s) => {
            assert(spec_opt_str_prop(id, o).len() == 3 + s.0.spec_bytes().len());
            capped_plus(3, s.0.as_bytes().len())
        },
        None => 0,
    }
}

/// The bytes an optional text takes with its length, capped.
pub fn capped_opt_str(o: Option<UTF8StringRef>) -> (r: u64)
    ensures
        r == spec_capped(
            match o {
                Some(s) => spec_length_prefixed(s.0.spec_bytes()).len() as int,
                None => 0,
            },
        ),
{
    match o {
        Some(s) => {
            assert(spec_length_prefixed(s.0.spec_bytes()).len() == 2 + s.0.spec_bytes().len());
            capped_plus(2, s.0.as_bytes().len())
        },
        None => 0,
    }
}

/// The bytes an optional binary property takes, capped.
pub fn capped_opt_bin_prop(id: u8, o: Option<BinaryRef>) -> (r: u64)
    ensures
        r == spec_capped(spec_opt_bin_prop(id, o).len() as int),
{
    match o {
        Some(b) => capped_plus(3, b.0.len()),
        None => 0,
    }
}

/// The bytes optional binary data takes with its length, capped.
pub fn capped_opt_bin(o: Option<BinaryRef>) -> (r: u64)
    ensures
        r == spec_capped(
            match o {
                Some(b) => spec_length_prefixed(b.0@).len() as int,
                None => 0,
            },
        ),
{
    match o {
        Some(b) => capped_plus(2, b.0.len()),
        None => 0,
    }
}

/// The bytes the user properties take, capped.
pub fn capped_user_props(ups: &Vec<UTF8StringPairRef>) -> (r: u64)
    ensures
        r == spec_capped(spec_user_props(ups@).len() as int),
{
    let mut total: u64 = 0;
    let mut i: usize = 0;
    while i < ups.len()
        invariant
            i <= ups@.len(),
            total == spec_capped(spec_user_props(ups@.take(i as int)).len() as int),
        decreases ups@.len() - i,
    {
        assert(ups@.take(i + 1).drop_last() =~= ups@.take(i as int));
        let p = ups[i];
        let k = capped_plus(5, p.0.as_bytes().len());
        let kv = capped_add(k, capped(p.1.as_bytes().len()));
        proof {
            lemma_capped_sum(5 + p.0.spec_bytes().len(), p.1.spec_bytes().len() as nat);
            lemma_capped_sum(
                spec_user_props(ups@.take(i as int)).len(),
                5 + p.0.spec_bytes().len() + p.1.spec_bytes().len(),
            );
        }
        total = capped_add(total, kv);
        i = i + 1;
    }
    assert(ups@.take(ups@.len() as int) =~= ups@);
    total
}

} // verus!

//! Map collection for reading user properties as key-value pairs from packets.
use crate::types::base_types::UTF8StringPair;
use vstd::prelude::*;
use vstd::string::StringSliceAdditionalSpecFns;

verus! {

/// The values stored under `key`, in the order of the pairs.
pub open spec fn spec_values_for(pairs: Seq<(Seq<u8>, Seq<u8>)>, key: Seq<u8>) -> Seq<Seq<u8>>
    decreases pairs.len(),
{
    if pairs.len() == 0 {
        Seq::empty()
    } else {
        let prev = spec_values_for(pairs.drop_last(), key);
        if pairs.last().0 == key {
            prev.push(pairs.last().1)
        } else {
            prev
        }
    }
}

/// The bytes of each string of a sequence.
pub open spec fn spec_strs_bytes(strs: Seq<&str>) -> Seq<Seq<u8>> {
    strs.map_values(|s: &str| s.spec_bytes())
}

/// Compares two byte slices element by element.
pub fn slice_eq(a: &[u8], b: &[u8]) -> (r: bool)
    ensures
        r == (a@ == b@),
{
    if a.len() != b.len() {
        return false;
    }
    let mut i: usize = 0;
    while i < a.len()
        invariant
            a@.len() == b@.len(),
            i <= a@.len(),
            forall|j: int| 0 <= j < i ==> a@[j] == b@[j],
        decreases a@.len() - i,
    {
        if a[i] != b[i] {
            return false;
        }
        i = i + 1;
    }
    assert(a@ =~= b@);
    true
}

/// Map collection for reading user properties as key-value pairs from packets.
#[derive(Debug, Default)]
pub struct UserProperties {
    map: Vec<UTF8StringPair>,
}

impl View for UserProperties {
    type V = Seq<(Seq<u8>, Seq<u8>)>;

    closed spec fn view(&self) -> Seq<(Seq<u8>, Seq<u8>)> {
        self.map@.map_values(|p: UTF8StringPair| p@)
    }
}

impl Clone for UserProperties {
    fn clone(&self) -> (r: Self)
        ensures
            r@ == self@,
    {
        let mut map: Vec<UTF8StringPair> = Vec::new();
        let mut i: usize = 0;
        while i < self.map.len()
            invariant
                i <= self.map@.len(),
                map@.len() == i,
                forall|j: int| 0 <= j < i ==> map@[j]@ == self.map@[j]@,
            decreases self.map@.len() - i,
        {
            map.push(self.map[i].clone());
            i = i + 1;
        }
        let r = UserProperties { map };
        assert(r@ =~= self@);
        r
    }
}

impl UserProperties {
    /// An empty collection.
    pub fn new() -> (r: Self)
        ensures
            r@ == Seq::<(Seq<u8>, Seq<u8>)>::empty(),
    {
        let r = Self { map: Vec::new() };
        assert(r@ =~= Seq::<(Seq<u8>, Seq<u8>)>::empty());
        r
    }

    /// Returns a number of key-value pairs in the container.
    pub fn len(&self) -> (r: usize)
        ensures
            r == self@.len(),
    {
        self.map.len()
    }

    /// Returns `true` if the container is empty.
    pub fn is_empty(&self) -> (r: bool)
        ensures
            r == (self@.len() == 0),
    {
        self.map.len() == 0
    }

    /// Returns `true` if the container contains `at least one` element with the given key.
    pub fn contains_key(&self, key: &str) -> (r: bool)
        ensures
            r == (exists|i: int| 0 <= i < self@.len() && #[trigger] self@[i].0 == key.spec_bytes()),
    {
        let kb = key.as_bytes();
        let mut i: usize = 0;
        while i < self.map.len()
            invariant
                i <= self.map@.len(),
                kb@ == key.spec_bytes(),
                forall|j: int| 0 <= j < i ==> #[trigger] self@[j].0 != key.spec_bytes(),
            decreases self.map@.len() - i,
        {
            if slice_eq(self.map[i].key_str().as_bytes(), kb) {
                assert(self@[i as int].0 == key.spec_bytes());
                return true;
            }
            assert(self@[i as int].0 != key.spec_bytes());
            i = i + 1;
        }
        false
    }

    /// Returns the values under the given key, in the order they were received.
    pub fn get<'a>(&'a self, key: &'a str) -> (r: Vec<&'a str>)
        ensures
            spec_strs_bytes(r@) == spec_values_for(self@, key.spec_bytes()),
    {
        let kb = key.as_bytes();
        let mut out: Vec<&'a str> = Vec::new();
        let mut i: usize = 0;
        while i < self.map.len()
            invariant
                i <= self.map@.len(),
                kb@ == key.spec_bytes(),
                spec_strs_bytes(out@) == spec_values_for(self@.take(i as int), key.spec_bytes()),
            decreases self.map@.len() - i,
        {
            let pair = &self.map[i];
            assert(self@.take(i + 1).drop_last() =~= self@.take(i as int));
            if slice_eq(pair.key_str().as_bytes(), kb) {
                out.push(pair.val_str());
                assert(spec_strs_bytes(out@) =~= spec_values_for(self@.take(i + 1), key.spec_bytes()));
            } else {
                assert(spec_strs_bytes(out@) =~= spec_values_for(self@.take(i + 1), key.spec_bytes()));
            }
            i = i + 1;
        }
        assert(self@.take(self@.len() as int) =~= self@);
        out
    }

    /// Returns the keys in order. Note that it can contain duplicates.
    pub fn keys(&self) -> (r: Vec<&str>)
        ensures
            spec_strs_bytes(r@) == self@.map_values(|p: (Seq<u8>, Seq<u8>)| p.0),
    {
        let mut out: Vec<&str> = Vec::new();
        let mut i: usize = 0;
        while i < self.map.len()
            invariant
                i <= self.map@.len(),
                out@.len() == i,
                forall|j: int| 0 <= j < i ==> (#[trigger] out@[j]).spec_bytes() == self@[j].0,
            decreases self.map@.len() - i,
        {
            out.push(self.map[i].key_str());
            i = i + 1;
        }
        assert(spec_strs_bytes(out@) =~= self@.map_values(|p: (Seq<u8>, Seq<u8>)| p.0));
        out
    }

    /// Returns the values in order.
    pub fn values(&self) -> (r: Vec<&str>)
        ensures
            spec_strs_bytes(r@) == self@.map_values(|p: (Seq<u8>, Seq<u8>)| p.1),
    {
        let mut out: Vec<&str> = Vec::new();
        let mut i: usize = 0;
        while i < self.map.len()
            invariant
                i <= self.map@.len(),
                out@.len() == i,
                forall|j: int| 0 <= j < i ==> (#[trigger] out@[j]).spec_bytes() == self@[j].1,
            decreases self.map@.len() - i,
        {
            out.push(self.map[i].val_str());
            i = i + 1;
        }
        assert(spec_strs_bytes(out@) =~= self@.map_values(|p: (Seq<u8>, Seq<u8>)| p.1));
        out
    }

    /// Returns the key-value pairs in order.
    pub fn iter(&self) -> (r: Vec<(&str, &str)>)
        ensures
            r@.len() == self@.len(),
            forall|i: int| 0 <= i < r@.len() ==> (#[trigger] r@[i]).0.spec_bytes() == self@[i].0
                && r@[i].1.spec_bytes() == self@[i].1,
    {
        let mut out: Vec<(&str, &str)> = Vec::new();
        let mut i: usize = 0;
        while i < self.map.len()
            invariant
                i <= self.map@.len(),
                out@.len() == i,
                forall|j: int| 0 <= j < i ==> (#[trigger] out@[j]).0.spec_bytes() == self@[j].0
                    && out@[j].1.spec_bytes() == self@[j].1,
            decreases self.map@.len() - i,
        {
            out.push((self.map[i].key_str(), self.map[i].val_str()));
            i = i + 1;
        }
        out
    }

    /// Appends a pair.
    pub(crate) fn push(&mut self, val: UTF8StringPair)
        ensures
            final(self)@ == old(self)@.push(val@),
    {
        self.map.push(val);
        assert(self@ =~= old(self)@.push(val@));
    }
}

} // verus!

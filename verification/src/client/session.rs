//! The client's protocol bookkeeping: what the connection allows, and which
//! requests still wait for an answer. The context that owns the sockets
//! performs the I/O and asks these types what to do.
use crate::client::error::{MaximumPacketSizeExceeded, MqttError, QuotaExceeded};
use crate::codec::connack::{ConnackRx, ConnackV};
use bytes::Bytes;
use std::collections::VecDeque;
use vstd::prelude::*;

verus! {

/// Finds the position of the first entry with the given key.
pub fn linear_search_by_key<V>(deque: &VecDeque<(usize, V)>, key: usize) -> (r: Option<usize>)
    ensures
        match r {
            Some(i) => i < deque@.len() && deque@[i as int].0 == key && forall|j: int|
                0 <= j < i ==> deque@[j].0 != key,
            None => forall|j: int| 0 <= j < deque@.len() ==> deque@[j].0 != key,
        },
{
    let mut i: usize = 0;
    while i < deque.len()
        invariant
            i <= deque@.len(),
            forall|j: int| 0 <= j < i ==> deque@[j].0 != key,
        decreases deque@.len() - i,
    {
        if deque[i].0 == key {
            return Some(i);
        }
        i = i + 1;
    }
    None
}

/// Entry `i` is the first one with the given key.
pub open spec fn spec_is_first<V>(s: Seq<(usize, V)>, key: usize, i: int) -> bool {
    &&& 0 <= i < s.len()
    &&& s[i].0 == key
    &&& forall|j: int| 0 <= j < i ==> s[j].0 != key
}

/// No entry has the given key.
pub open spec fn spec_no_key<V>(s: Seq<(usize, V)>, key: usize) -> bool {
    forall|j: int| 0 <= j < s.len() ==> s[j].0 != key
}

/// `after` is `before` without the first entry with the given key, whose
/// value `r` hands back; with no such entry nothing changes and `r` is empty.
pub open spec fn spec_took_first<V>(before: Seq<(usize, V)>, after: Seq<(usize, V)>, key: usize, r: Option<V>) -> bool {
    match r {
        Some(v) => exists|i: int| #[trigger] spec_is_first(before, key, i) && v == before[i].1 && after == before.remove(i),
        None => spec_no_key(before, key) && after == before,
    }
}

/// Removes the first entry with the given key and hands back its value.
pub fn take_first<V>(deque: &mut VecDeque<(usize, V)>, key: usize) -> (r: Option<V>)
    ensures
        spec_took_first(old(deque)@, final(deque)@, key, r),
{
    match linear_search_by_key(deque, key) {
        Some(pos) => {
            let ghost before = deque@;
            assert(spec_is_first(before, key, pos as int));
            match deque.remove(pos) {
                Some((_, v)) => Some(v),
                None => None,
            }
        },
        None => None,
    }
}

/// Requests that wait for an answer, live subscriptions and publications
/// kept for retransmission, each under its key, as plain data.
pub struct SessionV<A, S> {
    /// What each waiting request gets its answer through, in order of sending.
    pub awaiting_ack: Seq<(usize, A)>,
    /// Where the messages of each subscription go, by subscription identifier.
    pub subscriptions: Seq<(usize, S)>,
    /// Packets to send again after a reconnection, in order of sending.
    pub retransmit_queue: Seq<(usize, Bytes)>,
}

/// Requests that wait for an answer, live subscriptions and publications
/// kept for retransmission. `A` is what delivers an answer to the request,
/// `S` what delivers the messages of a subscription.
#[derive(Debug)]
pub struct Session<A, S> {
    awaiting_ack: VecDeque<(usize, A)>,
    subscriptions: VecDeque<(usize, S)>,
    retransmit_queue: VecDeque<(usize, Bytes)>,
}

impl<A, S> View for Session<A, S> {
    type V = SessionV<A, S>;

    closed spec fn view(&self) -> SessionV<A, S> {
        SessionV {
            awaiting_ack: self.awaiting_ack@,
            subscriptions: self.subscriptions@,
            retransmit_queue: self.retransmit_queue@,
        }
    }
}

impl<A, S> Session<A, S> {
    /// A session with nothing in it.
    pub fn new() -> (r: Self)
        ensures
            r@.awaiting_ack.len() == 0,
            r@.subscriptions.len() == 0,
            r@.retransmit_queue.len() == 0,
    {
        Session { awaiting_ack: VecDeque::new(), subscriptions: VecDeque::new(), retransmit_queue: VecDeque::new() }
    }

    /// Forgets everything: the session expired.
    pub fn reset(&mut self)
        ensures
            final(self)@.awaiting_ack.len() == 0,
            final(self)@.subscriptions.len() == 0,
            final(self)@.retransmit_queue.len() == 0,
    {
        self.awaiting_ack.clear();
        self.subscriptions.clear();
        self.retransmit_queue.clear();
    }

    /// Records a request that waits for the answer with the given key.
    pub fn await_ack(&mut self, action_id: usize, response: A)
        ensures
            final(self)@.awaiting_ack == old(self)@.awaiting_ack.push((action_id, response)),
            final(self)@.subscriptions == old(self)@.subscriptions,
            final(self)@.retransmit_queue == old(self)@.retransmit_queue,
    {
        self.awaiting_ack.push_back((action_id, response));
    }

    /// Removes the first request that waits for the answer with the given
    /// key and hands back what delivers the answer to it.
    pub fn take_awaiting(&mut self, action_id: usize) -> (r: Option<A>)
        ensures
            spec_took_first(old(self)@.awaiting_ack, final(self)@.awaiting_ack, action_id, r),
            final(self)@.subscriptions == old(self)@.subscriptions,
            final(self)@.retransmit_queue == old(self)@.retransmit_queue,
    {
        take_first(&mut self.awaiting_ack, action_id)
    }

    /// Keeps a sent packet to send again after a reconnection.
    pub fn queue_retransmit(&mut self, action_id: usize, packet: Bytes)
        ensures
            final(self)@.retransmit_queue == old(self)@.retransmit_queue.push((action_id, packet)),
            final(self)@.awaiting_ack == old(self)@.awaiting_ack,
            final(self)@.subscriptions == old(self)@.subscriptions,
    {
        self.retransmit_queue.push_back((action_id, packet));
    }

    /// Drops the first packet kept for retransmission under the given key:
    /// its exchange is complete. Hands back the dropped packet.
    pub fn drop_retransmit(&mut self, action_id: usize) -> (r: Option<Bytes>)
        ensures
            spec_took_first(old(self)@.retransmit_queue, final(self)@.retransmit_queue, action_id, r),
            final(self)@.awaiting_ack == old(self)@.awaiting_ack,
            final(self)@.subscriptions == old(self)@.subscriptions,
    {
        take_first(&mut self.retransmit_queue, action_id)
    }

    /// Number of packets kept for retransmission.
    pub fn retransmit_len(&self) -> (r: usize)
        ensures
            r == self@.retransmit_queue.len(),
    {
        self.retransmit_queue.len()
    }

    /// The packet kept for retransmission at position `i`.
    pub fn retransmit_at(&self, i: usize) -> (r: &Bytes)
        requires
            i < self@.retransmit_queue.len(),
        ensures
            *r == self@.retransmit_queue[i as int].1,
    {
        &self.retransmit_queue[i].1
    }

    /// Records a subscription under its identifier.
    pub fn add_subscription(&mut self, subscription_identifier: usize, stream: S)
        ensures
            final(self)@.subscriptions == old(self)@.subscriptions.push((subscription_identifier, stream)),
            final(self)@.awaiting_ack == old(self)@.awaiting_ack,
            final(self)@.retransmit_queue == old(self)@.retransmit_queue,
    {
        self.subscriptions.push_back((subscription_identifier, stream));
    }

    /// Where the messages of the subscription with the given identifier go.
    pub fn subscription(&self, subscription_identifier: usize) -> (r: Option<&S>)
        ensures
            match r {
                Some(s) => exists|i: int| #[trigger] spec_is_first(self@.subscriptions, subscription_identifier, i) && *s == self@.subscriptions[i].1,
                None => spec_no_key(self@.subscriptions, subscription_identifier),
            },
    {
        match linear_search_by_key(&self.subscriptions, subscription_identifier) {
            Some(pos) => {
                assert(spec_is_first(self@.subscriptions, subscription_identifier, pos as int));
                Some(&self.subscriptions[pos].1)
            },
            None => None,
        }
    }

    /// Ends the subscription with the given identifier: its receiver is gone.
    pub fn remove_subscription(&mut self, subscription_identifier: usize)
        ensures
            exists|r: Option<S>| spec_took_first(old(self)@.subscriptions, final(self)@.subscriptions, subscription_identifier, r),
            final(self)@.awaiting_ack == old(self)@.awaiting_ack,
            final(self)@.retransmit_queue == old(self)@.retransmit_queue,
    {
        let r = take_first(&mut self.subscriptions, subscription_identifier);
        assert(spec_took_first(old(self)@.subscriptions, self@.subscriptions, subscription_identifier, r));
    }
}

/// What the connection allows, as plain data.
pub struct ConnectionV {
    /// Session expiry interval in seconds.
    pub session_expiry_interval: u32,
    /// QoS>0 publications the server handles at once.
    pub remote_receive_maximum: u16,
    /// Largest packet the server accepts, if it set one.
    pub remote_max_packet_size: Option<u32>,
    /// QoS>0 publications that may still be sent before one is acknowledged.
    pub send_quota: u16,
}

/// What the connection with the server allows.
#[derive(Debug)]
pub struct Connection {
    session_expiry_interval: u32,
    remote_receive_maximum: u16,
    remote_max_packet_size: Option<u32>,
    send_quota: u16,
}

impl View for Connection {
    type V = ConnectionV;

    closed spec fn view(&self) -> ConnectionV {
        ConnectionV {
            session_expiry_interval: self.session_expiry_interval,
            remote_receive_maximum: self.remote_receive_maximum,
            remote_max_packet_size: self.remote_max_packet_size,
            send_quota: self.send_quota,
        }
    }
}

/// The send quota never exceeds the server's receive maximum.
pub open spec fn spec_connection_wf(c: ConnectionV) -> bool {
    c.send_quota <= c.remote_receive_maximum
}

/// What sending a QoS>0 publication does: refused when the quota is used
/// up, otherwise one less quota.
pub open spec fn spec_acquire_send_quota(c: ConnectionV) -> Option<ConnectionV> {
    if c.send_quota == 0 {
        None
    } else {
        Some(ConnectionV { send_quota: (c.send_quota - 1) as u16, ..c })
    }
}

/// What an acknowledgement that ends a QoS>0 publication does: one more
/// quota, up to the server's receive maximum.
pub open spec fn spec_release_send_quota(c: ConnectionV) -> ConnectionV {
    if c.send_quota != c.remote_receive_maximum {
        ConnectionV { send_quota: (c.send_quota + 1) as u16, ..c }
    } else {
        c
    }
}

/// What a CONNACK packet sets: the session expiry interval and maximum
/// packet size where it carries them, and the receive maximum, which also
/// refills the send quota.
pub open spec fn spec_handle_connack(c: ConnectionV, connack: ConnackV) -> ConnectionV {
    ConnectionV {
        session_expiry_interval: match connack.session_expiry_interval {
            Some(v) => v,
            None => c.session_expiry_interval,
        },
        remote_max_packet_size: match connack.maximum_packet_size {
            Some(v) => Some(v),
            None => c.remote_max_packet_size,
        },
        remote_receive_maximum: connack.receive_maximum,
        send_quota: connack.receive_maximum,
    }
}

/// What the connection reports as an expired session after `elapsed`
/// seconds away: always with a zero interval, never with the largest one,
/// otherwise while the interval is not below the time away (counted at most
/// up to the largest interval).
pub open spec fn spec_session_expired(session_expiry_interval: u32, elapsed: u64) -> bool {
    session_expiry_interval == 0 || (session_expiry_interval != u32::MAX && session_expiry_interval >= (
    if elapsed > u32::MAX {
        u32::MAX as u64
    } else {
        elapsed
    }))
}

impl Connection {
    #[verifier::type_invariant]
    spec fn inv(&self) -> bool {
        self.send_quota <= self.remote_receive_maximum
    }

    /// The connection before the server answered: no session expiry, the
    /// largest receive maximum and a full quota.
    pub fn new() -> (r: Self)
        ensures
            r@ == (ConnectionV {
                session_expiry_interval: 0,
                remote_receive_maximum: 65535,
                remote_max_packet_size: None,
                send_quota: 65535,
            }),
    {
        Connection {
            session_expiry_interval: 0,
            remote_receive_maximum: 65535,
            remote_max_packet_size: None,
            send_quota: 65535,
        }
    }

    /// Sets the session expiry interval that the client asked for.
    pub fn set_session_expiry_interval(&mut self, val: u32)
        ensures
            final(self)@ == (ConnectionV { session_expiry_interval: val, ..old(self)@ }),
    {
        proof {
            use_type_invariant(&*self);
        }
        self.session_expiry_interval = val;
    }

    /// Session expiry interval in seconds.
    pub fn session_expiry_interval(&self) -> (r: u32)
        ensures
            r == self@.session_expiry_interval,
    {
        self.session_expiry_interval
    }

    /// QoS>0 publications that may still be sent.
    pub fn send_quota(&self) -> (r: u16)
        ensures
            r == self@.send_quota,
    {
        self.send_quota
    }

    /// Takes over what the server's CONNACK packet sets.
    pub fn handle_connack(&mut self, connack: &ConnackRx)
        ensures
            final(self)@ == spec_handle_connack(old(self)@, connack@),
    {
        proof {
            use_type_invariant(&*self);
        }
        if let Some(v) = connack.session_expiry_interval {
            self.session_expiry_interval = v;
        }
        if let Some(v) = connack.maximum_packet_size {
            self.remote_max_packet_size = Some(v.get());
        }
        let rm = connack.receive_maximum.get();
        self.send_quota = 0;
        self.remote_receive_maximum = rm;
        self.send_quota = rm;
    }

    /// Whether the session counts as expired after `elapsed` seconds away:
    /// with an interval other than 0 and the largest one, while the interval
    /// is not below the time away.
    pub fn session_expired(&self, elapsed: u64) -> (r: bool)
        ensures
            r == spec_session_expired(self@.session_expiry_interval, elapsed),
    {
        if self.session_expiry_interval == 0 {
            return true;
        }
        if self.session_expiry_interval == u32::MAX {
            return false;
        }
        let elapsed: u32 = if elapsed > u32::MAX as u64 {
            u32::MAX
        } else {
            elapsed as u32
        };
        self.session_expiry_interval >= elapsed
    }

    /// Checks a packet of `len` bytes against the server's maximum packet size.
    pub fn validate_packet_size(&self, len: usize) -> (r: Result<(), MqttError>)
        ensures
            r is Ok <==> (self@.remote_max_packet_size is None || len <= self@.remote_max_packet_size->0),
            r is Err ==> r == Err::<(), MqttError>(MqttError::MaximumPacketSizeExceeded(MaximumPacketSizeExceeded)),
    {
        match self.remote_max_packet_size {
            None => Ok(()),
            Some(max) => if len as u64 <= max as u64 {
                Ok(())
            } else {
                Err(MqttError::MaximumPacketSizeExceeded(MaximumPacketSizeExceeded))
            },
        }
    }

    /// Takes one quota for a QoS>0 publication; refused when none is left.
    pub fn acquire_send_quota(&mut self) -> (r: Result<(), MqttError>)
        ensures
            match spec_acquire_send_quota(old(self)@) {
                Some(c) => r is Ok && final(self)@ == c,
                None => r == Err::<(), MqttError>(MqttError::QuotaExceeded(QuotaExceeded)) && final(self)@ == old(
                    self,
                )@,
            },
    {
        proof {
            use_type_invariant(&*self);
        }
        if self.send_quota == 0 {
            return Err(MqttError::QuotaExceeded(QuotaExceeded));
        }
        self.send_quota = self.send_quota - 1;
        Ok(())
    }

    /// Gives back one quota when a QoS>0 publication is acknowledged.
    pub fn release_send_quota(&mut self)
        ensures
            final(self)@ == spec_release_send_quota(old(self)@),
    {
        proof {
            use_type_invariant(&*self);
        }
        if self.send_quota != self.remote_receive_maximum {
            self.send_quota = self.send_quota + 1;
        }
    }
}

/// Taking a quota and giving it back restores the connection.
pub proof fn lemma_send_quota_round_trip(c: ConnectionV)
    requires
        spec_connection_wf(c),
        spec_acquire_send_quota(c) is Some,
    ensures
        spec_release_send_quota(spec_acquire_send_quota(c)->0) == c,
{
}

/// Every operation on the send quota keeps it within the receive maximum.
pub proof fn lemma_send_quota_bounded(c: ConnectionV, connack: ConnackV)
    requires
        spec_connection_wf(c),
    ensures
        spec_acquire_send_quota(c) matches Some(c2) ==> spec_connection_wf(c2),
        spec_connection_wf(spec_release_send_quota(c)),
        spec_connection_wf(spec_handle_connack(c, connack)),
{
}


/// A request recorded under a key that no other request waits under gets
/// its own answer channel back when that key is taken, and taking it
/// leaves the queue as it was before the request.
pub proof fn lemma_await_then_take<V>(
    q: Seq<(usize, V)>,
    key: usize,
    v: V,
    after: Seq<(usize, V)>,
    r: Option<V>,
)
    requires
        spec_no_key(q, key),
        spec_took_first(q.push((key, v)), after, key, r),
    ensures
        r == Some(v),
        after == q,
{
    let p = q.push((key, v));
    match r {
        Some(w) => {
            let i = choose|i: int| #[trigger] spec_is_first(p, key, i) && w == p[i].1 && after == p.remove(i);
            if i < q.len() {
                assert(p[i] == q[i]);
            }
            assert(i == q.len());
            assert(p.remove(i) =~= q);
        },
        None => {
            assert(p[q.len() as int].0 == key);
        },
    }
}

} // verus!

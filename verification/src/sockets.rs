//! The socket registry: sockets by slot id, and slot ids by local address.

use crate::addr::{Addr, SendInfo};
use crate::slots::{slab_get, slab_insert, slab_new, slab_sockets};
use crate::socket::{SendPlan, Socket};
use slab::Slab;
use vstd::prelude::*;

verus! {

/// The slot id that an index gives for an address: that of the entry added
/// last for it.
pub open spec fn lookup(index: Seq<(Addr, usize)>, addr: Addr) -> Option<usize>
    decreases index.len(),
{
    if index.len() == 0 {
        None
    } else if index.last().0 == addr {
        Some(index.last().1)
    } else {
        lookup(index.drop_last(), addr)
    }
}

/// An address that the index knows is that of some entry.
pub proof fn lemma_lookup_is_entry(index: Seq<(Addr, usize)>, addr: Addr)
    requires
        lookup(index, addr) is Some,
    ensures
        exists|i: int| 0 <= i < index.len() && #[trigger] index[i] == (addr, lookup(index, addr)->0),
    decreases index.len(),
{
    if index.last().0 == addr {
        assert(index[index.len() - 1] == (addr, lookup(index, addr)->0));
    } else {
        lemma_lookup_is_entry(index.drop_last(), addr);
        let i = choose|i: int|
            0 <= i < index.drop_last().len() && #[trigger] index.drop_last()[i] == (
                addr,
                lookup(index, addr)->0,
            );
        assert(index[i] == index.drop_last()[i]);
    }
}

/// The sockets of a runner: each under a slot id that stays its own, and a
/// reverse index from local address to slot id.
pub struct MioSockets {
    sockets: Slab<Socket>,
    src_addr_to_key: Vec<(Addr, usize)>,
}

impl MioSockets {
    /// The registered sockets, by slot id.
    pub closed spec fn sockets(&self) -> Map<usize, Socket> {
        slab_sockets(self.sockets)
    }

    /// The reverse index: pairs of local address and slot id, oldest first.
    pub closed spec fn index(&self) -> Seq<(Addr, usize)> {
        self.src_addr_to_key@
    }

    /// The slot id of the socket that is bound to `addr`.
    pub open spec fn key_of(&self, addr: Addr) -> Option<usize> {
        lookup(self.index(), addr)
    }

    /// Every entry of the reverse index names a registered socket that is
    /// bound to the entry's address, and every registered socket has exactly
    /// one entry.
    pub closed spec fn well_formed(&self) -> bool {
        &&& forall|i: int|
            0 <= i < self.index().len() ==> {
                &&& self.sockets().contains_key(#[trigger] self.index()[i].1)
                &&& self.sockets()[self.index()[i].1].spec_local_addr() == self.index()[i].0
            }
        &&& forall|i: int, j: int|
            0 <= i < j < self.index().len() ==> (#[trigger] self.index()[i]).1
                != (#[trigger] self.index()[j]).1
        &&& forall|key: usize| #[trigger]
            self.sockets().contains_key(key) ==> exists|i: int|
                0 <= i < self.index().len() && (#[trigger] self.index()[i]).1 == key
    }

    /// In a well-formed registry every socket has exactly one entry in the
    /// reverse index, and the entry holds the socket's local address.
    pub proof fn lemma_socket_has_one_entry(&self, key: usize)
        requires
            self.well_formed(),
            self.sockets().contains_key(key),
        ensures
            exists|i: int|
                {
                    &&& 0 <= i < self.index().len()
                    &&& #[trigger] self.index()[i] == (self.sockets()[key].spec_local_addr(), key)
                    &&& forall|j: int|
                        0 <= j < self.index().len() && (#[trigger] self.index()[j]).1 == key ==> j
                            == i
                },
    {
        let i = choose|i: int| 0 <= i < self.index().len() && (#[trigger] self.index()[i]).1 == key;
        assert(self.sockets().contains_key(self.index()[i].1));
        assert forall|j: int|
            0 <= j < self.index().len() && (#[trigger] self.index()[j]).1 == key implies j
            == i by {
            if j < i {
                assert(self.index()[j].1 != self.index()[i].1);
            } else if i < j {
                assert(self.index()[i].1 != self.index()[j].1);
            }
        }
    }

    /// In a well-formed registry, the socket found for an address is
    /// registered and bound to that address.
    pub proof fn lemma_key_of_is_bound(&self, addr: Addr)
        requires
            self.well_formed(),
            self.key_of(addr) is Some,
        ensures
            self.sockets().contains_key(self.key_of(addr)->0),
            self.sockets()[self.key_of(addr)->0].spec_local_addr() == addr,
    {
        lemma_lookup_is_entry(self.index(), addr);
        let i = choose|i: int|
            0 <= i < self.index().len() && #[trigger] self.index()[i] == (
                addr,
                lookup(self.index(), addr)->0,
            );
        assert(self.sockets().contains_key(self.index()[i].1));
    }

    /// A registry without sockets.
    pub fn new() -> (registry: MioSockets)
        ensures
            registry.sockets() == (Map::<usize, Socket>::empty()),
            registry.index() == (Seq::<(Addr, usize)>::empty()),
            registry.well_formed(),
    {
        MioSockets { sockets: slab_new(), src_addr_to_key: Vec::new() }
    }

    /// Stores a socket and records its local address in the reverse index.
    /// Returns the socket's slot id.
    pub fn insert(&mut self, socket: Socket) -> (key: usize)
        requires
            old(self).well_formed(),
        ensures
            !old(self).sockets().contains_key(key),
            final(self).sockets() == old(self).sockets().insert(key, socket),
            final(self).index() == old(self).index().push((socket.spec_local_addr(), key)),
            forall|addr: Addr|
                #[trigger] final(self).key_of(addr) == if addr == socket.spec_local_addr() {
                    Some(key)
                } else {
                    old(self).key_of(addr)
                },
            final(self).well_formed(),
    {
        let local_addr = socket.local_addr();
        let key = slab_insert(&mut self.sockets, socket);
        self.src_addr_to_key.push((local_addr, key));
        proof {
            let before = old(self).index();
            let after = self.index();
            assert(after.drop_last() == before);
            assert forall|i: int| 0 <= i < after.len() implies {
                &&& self.sockets().contains_key(#[trigger] after[i].1)
                &&& self.sockets()[after[i].1].spec_local_addr() == after[i].0
            } by {
                if i < before.len() {
                    assert(after[i] == before[i]);
                    assert(old(self).sockets().contains_key(before[i].1));
                }
            }
            assert forall|i: int, j: int| 0 <= i < j < after.len() implies (#[trigger] after[i]).1
                != (#[trigger] after[j]).1 by {
                assert(after[i] == before[i]);
                assert(old(self).sockets().contains_key(before[i].1));
                if j < before.len() {
                    assert(after[j] == before[j]);
                }
            }
            assert forall|k: usize| #[trigger] self.sockets().contains_key(k) implies exists|i: int|
                0 <= i < after.len() && (#[trigger] after[i]).1 == k by {
                if k == key {
                    assert(after[after.len() - 1].1 == k);
                } else {
                    assert(old(self).sockets().contains_key(k));
                    let i = choose|i: int| 0 <= i < before.len() && (#[trigger] before[i]).1 == k;
                    assert(after[i] == before[i]);
                }
            }
        }
        key
    }

    /// The socket with the given slot id.
    pub fn get(&self, key: usize) -> (socket: Option<&Socket>)
        ensures
            socket == (if self.sockets().contains_key(key) {
                Some(&self.sockets()[key])
            } else {
                None
            }),
    {
        slab_get(&self.sockets, key)
    }

    /// The slot id of the socket that is bound to `addr`, if there is one.
    pub fn find(&self, addr: &Addr) -> (key: Option<usize>)
        ensures
            key == self.key_of(*addr),
    {
        let mut i: usize = self.src_addr_to_key.len();
        proof {
            assert(self.index().take(i as int) == self.index());
        }
        while i > 0
            invariant
                i <= self.src_addr_to_key.len(),
                lookup(self.index(), *addr) == lookup(self.index().take(i as int), *addr),
            decreases i,
        {
            i = i - 1;
            let entry = self.src_addr_to_key[i];
            proof {
                let prefix = self.index().take(i + 1);
                assert(prefix.last() == self.index()[i as int]);
                assert(prefix.drop_last() == self.index().take(i as int));
            }
            if entry.0 == *addr {
                return Some(entry.1);
            }
        }
        proof {
            assert(self.index().take(0).len() == 0);
        }
        None
    }

    /// Resolves the socket that a packet is to be sent from, by the packet's
    /// source address, and decides how that socket sends it. Returns the
    /// socket's slot id and the send plan, or `None` when no socket is bound
    /// to the source address.
    pub fn send(&self, send_info: &SendInfo, segment_size: usize) -> (r: Option<(usize, SendPlan)>)
        requires
            self.well_formed(),
        ensures
            r.is_some() == self.key_of(send_info.from).is_some(),
            r matches Some((key, plan)) ==> {
                &&& self.key_of(send_info.from) == Some(key)
                &&& self.sockets().contains_key(key)
                &&& self.sockets()[key].spec_local_addr() == send_info.from
                &&& plan == self.sockets()[key].send_plan(*send_info, segment_size)
            },
    {
        match self.find(&send_info.from) {
            None => None,
            Some(key) => {
                proof {
                    self.lemma_key_of_is_bound(send_info.from);
                }
                match self.get(key) {
                    Some(socket) => Some((key, socket.send(send_info, segment_size))),
                    None => None,
                }
            },
        }
    }
}

impl Default for MioSockets {
    /// A registry without sockets.
    fn default() -> (registry: MioSockets)
        ensures
            registry.sockets() == (Map::<usize, Socket>::empty()),
            registry.index() == (Seq::<(Addr, usize)>::empty()),
            registry.well_formed(),
    {
        MioSockets::new()
    }
}

} // verus!

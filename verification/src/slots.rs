//! The slab that stores the sockets, with what is assumed of it.

use crate::socket::Socket;
use slab::Slab;
use vstd::prelude::*;

verus! {

/// `slab::Slab`, which the verifier takes as an opaque type.
#[verifier::external_type_specification]
#[verifier::external_body]
#[verifier::reject_recursive_types(T)]
pub struct ExSlab<T>(slab::Slab<T>);

/// The sockets that a slab holds, by key: a key is in the map exactly when
/// a value is stored under it.
pub uninterp spec fn slab_sockets(slab: Slab<Socket>) -> Map<usize, Socket>;

/// Calls `slab::Slab::new`. Assumed: the new slab holds nothing.
#[verifier::external_body]
pub(crate) fn slab_new() -> (empty: Slab<Socket>)
    ensures
        slab_sockets(empty) == (Map::<usize, Socket>::empty()),
{
    Slab::new()
}

/// Calls `slab::Slab::insert`. Assumed: the value is stored under the returned
/// key, the key was not in use before, and every other entry stays as it was.
/// That memory runs out is not considered, as with `Vec::push`.
#[verifier::external_body]
pub(crate) fn slab_insert(slab: &mut Slab<Socket>, socket: Socket) -> (key: usize)
    ensures
        !slab_sockets(*old(slab)).contains_key(key),
        slab_sockets(*final(slab)) == slab_sockets(*old(slab)).insert(key, socket),
{
    slab.insert(socket)
}

/// Calls `slab::Slab::get`. Assumed: the result is the value stored under
/// `key`, and `None` when nothing is stored there.
#[verifier::external_body]
pub(crate) fn slab_get(slab: &Slab<Socket>, key: usize) -> (socket: Option<&Socket>)
    ensures
        socket == (if slab_sockets(*slab).contains_key(key) {
            Some(&slab_sockets(*slab)[key])
        } else {
            None
        }),
{
    slab.get(key)
}

} // verus!

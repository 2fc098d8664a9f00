//! What this crate relies on from `tor_config::Listen`.

use tor_config::Listen;
use vstd::prelude::*;

verus! {

#[verifier::external_type_specification]
#[verifier::external_body]
pub struct ExListen(Listen);

/// The ports of the items that a listen specification holds, one for each
/// item and in the items' order; an item that leaves the choice of its port
/// open counts with port zero.
pub uninterp spec fn listen_ports(listen: Listen) -> Seq<u16>;

/// `Listen::new_localhost`: a specification with the one given localhost port,
/// except that port zero gives the specification that listens nowhere.
pub assume_specification[ Listen::new_localhost ](port: u16) -> (listen: Listen)
    ensures
        listen_ports(listen) == (if port == 0 {
            Seq::<u16>::empty()
        } else {
            seq![port]
        }),
;

/// `Listen::is_empty`: whether the specification holds no item at all.
pub assume_specification[ Listen::is_empty ](listen: &Listen) -> (empty: bool)
    ensures
        empty == (listen_ports(*listen).len() == 0),
;

} // verus!

//! The status record of one peer.

use vstd::prelude::*;

verus! {

/// What a node reports about itself.
///
/// A record is never changed once built: the directory replaces whole records.
#[derive(Debug)]
pub struct Peer {
    /// Identifier of the node on the overlay.
    pub id: String,
    /// Host name of the machine the node runs on.
    pub hostname: String,
    /// Free text given by the node's operator.
    pub description: String,
}

/// The mathematical value of a [`Peer`].
pub struct PeerView {
    pub id: Seq<char>,
    pub hostname: Seq<char>,
    pub description: Seq<char>,
}

impl View for Peer {
    type V = PeerView;

    open spec fn view(&self) -> PeerView {
        PeerView { id: self.id@, hostname: self.hostname@, description: self.description@ }
    }
}

impl DeepView for Peer {
    type V = PeerView;

    open spec fn deep_view(&self) -> PeerView {
        self@
    }
}

impl Clone for Peer {
    fn clone(&self) -> (copy: Self)
        ensures
            copy == *self,
    {
        Peer {
            id: self.id.clone(),
            hostname: self.hostname.clone(),
            description: self.description.clone(),
        }
    }
}

impl PartialEq for Peer {
    fn eq(&self, other: &Self) -> (equal: bool) {
        self.id == other.id && self.hostname == other.hostname && self.description
            == other.description
    }
}

impl Eq for Peer {

}

impl vstd::std_specs::cmp::PartialEqSpecImpl for Peer {
    open spec fn obeys_eq_spec() -> bool {
        true
    }

    open spec fn eq_spec(&self, other: &Self) -> bool {
        self@ == other@
    }
}

} // verus!

//! The request for peer status.

use vstd::prelude::*;

verus! {

/// Whom a status request or response is meant for.
#[derive(Debug)]
pub enum PeerListMode {
    /// Every node on the topic.
    ALL,
    /// The node with this identifier, and no other.
    One(String),
}

/// The mathematical value of a [`PeerListMode`].
pub enum PeerListModeView {
    All,
    One(Seq<char>),
}

impl View for PeerListMode {
    type V = PeerListModeView;

    open spec fn view(&self) -> PeerListModeView {
        match self {
            PeerListMode::ALL => PeerListModeView::All,
            PeerListMode::One(id) => PeerListModeView::One(id@),
        }
    }
}

impl PeerListModeView {
    /// Whether a request in this mode asks the node called `id` to answer.
    pub open spec fn targets(self, id: Seq<char>) -> bool {
        match self {
            PeerListModeView::All => true,
            PeerListModeView::One(wanted) => wanted == id,
        }
    }
}

impl PeerListMode {
    /// Whether a request in this mode asks the node called `id` to answer:
    /// always for `ALL`, and for `One` when it names that node.
    pub fn targets(&self, id: &String) -> (hit: bool)
        ensures
            hit == self@.targets(id@),
    {
        match self {
            PeerListMode::ALL => true,
            PeerListMode::One(wanted) => *wanted == *id,
        }
    }
}

impl DeepView for PeerListMode {
    type V = PeerListModeView;

    open spec fn deep_view(&self) -> PeerListModeView {
        self@
    }
}

impl Clone for PeerListMode {
    fn clone(&self) -> (copy: Self)
        ensures
            copy == *self,
    {
        match self {
            PeerListMode::ALL => PeerListMode::ALL,
            PeerListMode::One(id) => PeerListMode::One(id.clone()),
        }
    }
}

impl PartialEq for PeerListMode {
    fn eq(&self, other: &Self) -> (equal: bool) {
        match (self, other) {
            (PeerListMode::ALL, PeerListMode::ALL) => true,
            (PeerListMode::One(a), PeerListMode::One(b)) => *a == *b,
            _ => false,
        }
    }
}

impl Eq for PeerListMode {

}

impl vstd::std_specs::cmp::PartialEqSpecImpl for PeerListMode {
    open spec fn obeys_eq_spec() -> bool {
        true
    }

    open spec fn eq_spec(&self, other: &Self) -> bool {
        self@ == other@
    }
}

/// A request for status, broadcast on the shared topic.
///
/// It carries no request number: an answer is matched to its asker by the
/// receiver it names, not by the request it answers.
#[derive(Debug)]
pub struct PeerListRequest {
    pub mode: PeerListMode,
}

/// The mathematical value of a [`PeerListRequest`].
pub struct PeerListRequestView {
    pub mode: PeerListModeView,
}

impl View for PeerListRequest {
    type V = PeerListRequestView;

    open spec fn view(&self) -> PeerListRequestView {
        PeerListRequestView { mode: self.mode@ }
    }
}

impl DeepView for PeerListRequest {
    type V = PeerListRequestView;

    open spec fn deep_view(&self) -> PeerListRequestView {
        self@
    }
}

impl Clone for PeerListRequest {
    fn clone(&self) -> (copy: Self)
        ensures
            copy == *self,
    {
        PeerListRequest { mode: self.mode.clone() }
    }
}

impl PartialEq for PeerListRequest {
    fn eq(&self, other: &Self) -> (equal: bool) {
        self.mode == other.mode
    }
}

impl Eq for PeerListRequest {

}

impl vstd::std_specs::cmp::PartialEqSpecImpl for PeerListRequest {
    open spec fn obeys_eq_spec() -> bool {
        true
    }

    open spec fn eq_spec(&self, other: &Self) -> bool {
        self@ == other@
    }
}

} // verus!

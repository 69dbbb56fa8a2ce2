//! The answer to a status request.

use vstd::prelude::*;
use crate::models::peer::{Peer, PeerView};
use crate::requests::list_request::{PeerListMode, PeerListModeView};

verus! {

/// One node's status, addressed to the node that asked for it.
///
/// Every node on the topic sees every response; only the one named in
/// `receiver` keeps it.
#[derive(Debug)]
pub struct ListResponse {
    /// Mode of the request this answers.
    pub mode: PeerListMode,
    /// The answering node's record.
    pub data: Peer,
    /// Identifier of the node the answer is meant for.
    pub receiver: String,
}

/// The mathematical value of a [`ListResponse`].
pub struct ListResponseView {
    pub mode: PeerListModeView,
    pub data: PeerView,
    pub receiver: Seq<char>,
}

impl View for ListResponse {
    type V = ListResponseView;

    open spec fn view(&self) -> ListResponseView {
        ListResponseView { mode: self.mode@, data: self.data@, receiver: self.receiver@ }
    }
}

impl DeepView for ListResponse {
    type V = ListResponseView;

    open spec fn deep_view(&self) -> ListResponseView {
        self@
    }
}

impl Clone for ListResponse {
    fn clone(&self) -> (copy: Self)
        ensures
            copy == *self,
    {
        ListResponse {
            mode: self.mode.clone(),
            data: self.data.clone(),
            receiver: self.receiver.clone(),
        }
    }
}

impl PartialEq for ListResponse {
    fn eq(&self, other: &Self) -> (equal: bool) {
        self.mode == other.mode && self.data == other.data && self.receiver == other.receiver
    }
}

impl Eq for ListResponse {

}

impl vstd::std_specs::cmp::PartialEqSpecImpl for ListResponse {
    open spec fn obeys_eq_spec() -> bool {
        true
    }

    open spec fn eq_spec(&self, other: &Self) -> bool {
        self@ == other@
    }
}

/// What the dispatcher hands to the node actor.
#[derive(Debug)]
pub enum ListEventType {
    /// A status response that arrived on the topic.
    Response(ListResponse),
}

/// The mathematical value of a [`ListEventType`].
pub enum ListEventTypeView {
    Response(ListResponseView),
}

impl View for ListEventType {
    type V = ListEventTypeView;

    open spec fn view(&self) -> ListEventTypeView {
        match self {
            ListEventType::Response(response) => ListEventTypeView::Response(response@),
        }
    }
}

impl Clone for ListEventType {
    fn clone(&self) -> (copy: Self)
        ensures
            copy == *self,
    {
        match self {
            ListEventType::Response(response) => ListEventType::Response(response.clone()),
        }
    }
}

impl PartialEq for ListEventType {
    fn eq(&self, other: &Self) -> (equal: bool) {
        match (self, other) {
            (ListEventType::Response(a), ListEventType::Response(b)) => *a == *b,
        }
    }
}

impl Eq for ListEventType {

}

impl vstd::std_specs::cmp::PartialEqSpecImpl for ListEventType {
    open spec fn obeys_eq_spec() -> bool {
        true
    }

    open spec fn eq_spec(&self, other: &Self) -> bool {
        self@ == other@
    }
}

} // verus!

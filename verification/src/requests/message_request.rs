//! The free-text broadcast.

use vstd::prelude::*;

verus! {

/// A line of text sent to everyone on the topic. Nobody answers it.
#[derive(Debug)]
pub struct MessageRequest {
    /// The text.
    pub message: String,
    /// Host name of the sender's machine.
    pub hostname: String,
}

/// The mathematical value of a [`MessageRequest`].
pub struct MessageRequestView {
    pub message: Seq<char>,
    pub hostname: Seq<char>,
}

impl View for MessageRequest {
    type V = MessageRequestView;

    open spec fn view(&self) -> MessageRequestView {
        MessageRequestView { message: self.message@, hostname: self.hostname@ }
    }
}

impl DeepView for MessageRequest {
    type V = MessageRequestView;

    open spec fn deep_view(&self) -> MessageRequestView {
        self@
    }
}

impl Clone for MessageRequest {
    fn clone(&self) -> (copy: Self)
        ensures
            copy == *self,
    {
        MessageRequest { message: self.message.clone(), hostname: self.hostname.clone() }
    }
}

impl PartialEq for MessageRequest {
    fn eq(&self, other: &Self) -> (equal: bool) {
        self.message == other.message && self.hostname == other.hostname
    }
}

impl Eq for MessageRequest {

}

impl vstd::std_specs::cmp::PartialEqSpecImpl for MessageRequest {
    open spec fn obeys_eq_spec() -> bool {
        true
    }

    open spec fn eq_spec(&self, other: &Self) -> bool {
        self@ == other@
    }
}

} // verus!

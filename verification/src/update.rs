//! An update: "the document is now this".

use vstd::prelude::*;
use crate::wire::{encode_content, wire_text};

verus! {

/// A full replacement value for the document. It carries no identity, no
/// sequence number and no author: updates differ only by arrival order.
#[derive(Debug)]
pub struct Update {
    pub content: String,
}

impl View for Update {
    type V = Seq<char>;

    open spec fn view(&self) -> Seq<char> {
        self.content@
    }
}

impl Clone for Update {
    fn clone(&self) -> (copy: Update)
        ensures
            copy@ == self@,
    {
        Update { content: self.content.clone() }
    }
}

impl Update {
    /// The update that replaces the document by `content`.
    pub fn new(content: String) -> (update: Update)
        ensures
            update@ == content@,
    {
        Update { content }
    }

    /// The message that carries this update to a client.
    pub fn encode(&self) -> (text: String)
        ensures
            text@ == wire_text(self@),
    {
        encode_content(self.content.as_str())
    }
}

} // verus!

//! The document store: the current content, read and replaced whole.

use vstd::prelude::*;
use crate::update::Update;

verus! {

/// The one shared document. Its view is its current content.
pub struct Document {
    content: String,
}

impl View for Document {
    type V = Seq<char>;

    closed spec fn view(&self) -> Seq<char> {
        self.content@
    }
}

impl Document {
    /// A document that starts out as `initial`.
    pub fn new(initial: String) -> (document: Document)
        ensures
            document@ == initial@,
    {
        Document { content: initial }
    }

    /// A copy of the current content.
    pub fn read(&self) -> (content: String)
        ensures
            content@ == self@,
    {
        self.content.clone()
    }

    /// The current content as an update, ready to be sent as a snapshot.
    pub fn snapshot(&self) -> (update: Update)
        ensures
            update@ == self@,
    {
        Update::new(self.content.clone())
    }

    /// Overwrites the content entirely. Any value is accepted as it is,
    /// the empty string too.
    pub fn replace(&mut self, new_content: String)
        ensures
            final(self)@ == new_content@,
        no_unwind
    {
        self.content = new_content;
    }
}

} // verus!

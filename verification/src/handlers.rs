//! The two one-shot requests: reading the document and saving it. They
//! serve clients that keep no session open, and they go through the same
//! hub, so a saved document reaches every session by the one publish path.

use vstd::prelude::*;
use crate::hub::Hub;
use crate::update::Update;
use crate::wire::{json_string, quoted, wire_text};

verus! {

/// The body that acknowledges a save: the JSON string `"OK"`.
pub open spec fn acknowledgement() -> Seq<char> {
    quoted(seq!['O', 'K'])
}

/// Answers a read request: the body is the message that carries the
/// document's current content. The hub is not changed.
pub fn read_content(hub: &Hub) -> (body: String)
    ensures
        hub@.wf(),
        body@ == wire_text(hub@.document),
{
    hub.read().encode()
}

/// Answers a save request: writes the update to the hub, which replaces
/// the document and publishes the update to every subscriber, and returns
/// the acknowledgement.
pub fn save_content(hub: &mut Hub, update: Update) -> (body: String)
    ensures
        old(hub)@.wf(),
        final(hub)@.wf(),
        final(hub)@ == old(hub)@.written(update@),
        body@ == acknowledgement(),
{
    hub.write(update);
    let body = json_string("OK");
    proof {
        reveal_strlit("OK");
        assert("OK"@ =~= seq!['O', 'K']);
    }
    body
}

} // verus!

//! What both platforms share: the kinds of failure, the elements that a
//! listener yields, and a model of the clipboard service that the laws of the
//! platform modules are stated over.

use vstd::prelude::*;

verus! {

/// A failure, by kind, whatever the platform.
#[derive(Clone, Copy, Debug, PartialEq, Eq, Structural)]
pub enum ClipboardError {
    /// The platform's clipboard service could not be resolved.
    ServiceUnavailable,
    /// The platform handed back no active clipboard object.
    ServiceHandleNull,
    /// The clipboard holds nothing that decodes as a string.
    NoTextContent,
    /// The clipboard answered a read with an empty list of strings.
    EmptyResult,
    /// The platform did not commit a write.
    WriteRejected,
    /// A listener could not be registered with the platform.
    ListenerRegistrationFailed,
    /// The platform failed to deliver one notification.
    DeliveryError,
}

/// The element that a listener yields when the clipboard changed.
pub const CHANGED: usize = 0;

/// The element that a listener yields when a notification was not delivered.
/// The sequence goes on after it.
pub const DELIVERY_ERROR: usize = 1;

/// The clipboard service as this library takes it to behave while no other
/// process writes: it holds either nothing that decodes as a string, or a list
/// of string candidates, and a counter that every write raises by one.
pub struct Pasteboard {
    /// `None` while nothing decodes as a string, else the candidates in the
    /// order in which a read hands them out.
    pub contents: Option<Seq<Seq<char>>>,
    /// The number of writes so far, as the platform counts them.
    pub change_count: int,
}

impl Pasteboard {
    /// The counter is one that a read can hand over.
    pub open spec fn wf(self) -> bool {
        i64::MIN <= self.change_count <= i64::MAX
    }

    /// The service after one successful write of `objects`: what was there is
    /// cleared, `objects` is all it holds, and the counter went up once.
    pub open spec fn write_objects(self, objects: Seq<Seq<char>>) -> Pasteboard {
        Pasteboard { contents: Some(objects), change_count: self.change_count + 1 }
    }

    /// The service after each list of `writes` was written in turn.
    pub open spec fn write_each(self, writes: Seq<Seq<Seq<char>>>) -> Pasteboard
        decreases writes.len(),
    {
        if writes.len() == 0 {
            self
        } else {
            self.write_each(writes.drop_last()).write_objects(writes.last())
        }
    }

    /// What a read for strings hands back.
    pub open spec fn read_objects(self) -> Option<Seq<Seq<char>>> {
        self.contents
    }

    /// Writes only raise the counter, by one each.
    pub proof fn lemma_write_each_counts(self, writes: Seq<Seq<Seq<char>>>)
        ensures
            self.write_each(writes).change_count == self.change_count + writes.len(),
        decreases writes.len(),
    {
        if writes.len() > 0 {
            self.lemma_write_each_counts(writes.drop_last());
        }
    }

    /// After one write or more the service holds what the last write gave it.
    pub proof fn lemma_last_write_wins(self, writes: Seq<Seq<Seq<char>>>)
        requires
            writes.len() > 0,
        ensures
            self.write_each(writes).read_objects() == Some(writes.last()),
    {
    }
}

} // verus!

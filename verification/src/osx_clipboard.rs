//! The clipboard of macOS: a pasteboard that is read and written by messages,
//! and watched by polling its change counter.

use vstd::prelude::*;
use crate::common::{ClipboardError, Pasteboard, CHANGED};

verus! {

/// The interval between two reads of the change counter, in milliseconds,
/// unless the caller sets another.
pub const DEFAULT_POLL_INTERVAL_MS: u64 = 100;

/// A failure of one of the pasteboard's messages.
#[derive(Clone, Copy, Debug, PartialEq, Eq, Structural)]
pub enum OSXError {
    /// The class `NSPasteboard` could not be resolved.
    NSPasteboard,
    /// The class gave no general pasteboard.
    NSPasteboardNull,
    /// A read for strings gave no list.
    ReturnedNull,
    /// A read for strings gave an empty list.
    ReturnedEmpty,
    /// The pasteboard did not take the objects written to it.
    ReturnedFalse,
}

impl OSXError {
    /// The kind of failure, as every platform names it.
    pub open spec fn spec_kind(self) -> ClipboardError {
        match self {
            OSXError::NSPasteboard => ClipboardError::ServiceUnavailable,
            OSXError::NSPasteboardNull => ClipboardError::ServiceHandleNull,
            OSXError::ReturnedNull => ClipboardError::NoTextContent,
            OSXError::ReturnedEmpty => ClipboardError::EmptyResult,
            OSXError::ReturnedFalse => ClipboardError::WriteRejected,
        }
    }

    /// The text that describes the failure.
    pub open spec fn spec_message(self) -> Seq<char> {
        match self {
            OSXError::NSPasteboard => "Class::get(\"NSPasteboard\")"@,
            OSXError::NSPasteboardNull => "NSPasteboard#generalPasteboard returned null"@,
            OSXError::ReturnedNull => "pasteboard#readObjectsForClasses:options: returned null"@,
            OSXError::ReturnedEmpty => "pasteboard#readObjectsForClasses:options: returned empty"@,
            OSXError::ReturnedFalse => "NSPasteboard#writeObjects: returned false"@,
        }
    }

    /// The kind of failure, as every platform names it.
    pub fn kind(&self) -> (kind: ClipboardError)
        ensures
            kind == self.spec_kind(),
    {
        match self {
            OSXError::NSPasteboard => ClipboardError::ServiceUnavailable,
            OSXError::NSPasteboardNull => ClipboardError::ServiceHandleNull,
            OSXError::ReturnedNull => ClipboardError::NoTextContent,
            OSXError::ReturnedEmpty => ClipboardError::EmptyResult,
            OSXError::ReturnedFalse => ClipboardError::WriteRejected,
        }
    }

    /// The text that describes the failure.
    pub fn message(&self) -> (text: String)
        ensures
            text@ == self.spec_message(),
    {
        match self {
            OSXError::NSPasteboard => "Class::get(\"NSPasteboard\")".to_owned(),
            OSXError::NSPasteboardNull => "NSPasteboard#generalPasteboard returned null".to_owned(),
            OSXError::ReturnedNull => {
                "pasteboard#readObjectsForClasses:options: returned null".to_owned()
            },
            OSXError::ReturnedEmpty => {
                "pasteboard#readObjectsForClasses:options: returned empty".to_owned()
            },
            OSXError::ReturnedFalse => "NSPasteboard#writeObjects: returned false".to_owned(),
        }
    }
}

/// How the search for the general pasteboard ended.
#[derive(Clone, Copy, Debug, PartialEq, Eq, Structural)]
pub enum PasteboardLookup {
    /// No class `NSPasteboard` is loaded.
    ClassMissing,
    /// The class is there and gave a null pasteboard.
    PasteboardNull,
    /// The class gave a pasteboard.
    Found,
}

/// The strings of a list that a read handed back, each by its characters.
pub open spec fn texts_of(objects: Seq<String>) -> Seq<Seq<char>> {
    Seq::new(objects.len(), |i: int| objects[i]@)
}

/// A read's answer by its characters: `None` where the read gave no list.
pub open spec fn reading_of(reading: Option<Vec<String>>) -> Option<Seq<Seq<char>>> {
    match reading {
        None => None,
        Some(objects) => Some(texts_of(objects@)),
    }
}

/// The text of a read: the first string of the list, where there is a list and
/// it holds a string.
pub open spec fn first_text(reading: Option<Seq<Seq<char>>>) -> Result<Seq<char>, OSXError> {
    match reading {
        None => Err(OSXError::ReturnedNull),
        Some(objects) => if objects.len() == 0 {
            Err(OSXError::ReturnedEmpty)
        } else {
            Ok(objects[0])
        },
    }
}

/// The objects that a write of `text` hands to the pasteboard: that one string.
pub open spec fn objects_for(text: Seq<char>) -> Seq<Seq<char>> {
    seq![text]
}

/// The list of objects by which `data` is written, after the pasteboard was
/// cleared: `data` as its only string.
pub fn write_objects(data: String) -> (objects: Vec<String>)
    ensures
        objects@ == seq![data],
        texts_of(objects@) == objects_for(data@),
{
    let mut objects: Vec<String> = Vec::new();
    objects.push(data);
    proof {
        assert(texts_of(objects@) =~= objects_for(data@));
        assert(objects@ =~= seq![data]);
    }
    objects
}

/// The clipboard of macOS, once its general pasteboard was found.
#[derive(Debug)]
pub struct OSXClipboardContext {
    interval_ms: u64,
}

impl OSXClipboardContext {
    /// The interval, in milliseconds, at which the listeners of this context
    /// read the change counter.
    pub closed spec fn spec_interval_ms(&self) -> u64 {
        self.interval_ms
    }

    /// The context for a pasteboard that was looked up, or the failure of the
    /// lookup. Its listeners poll at the default interval.
    pub fn new(lookup: PasteboardLookup) -> (made: Result<OSXClipboardContext, OSXError>)
        ensures
            match lookup {
                PasteboardLookup::ClassMissing => made == Err::<OSXClipboardContext, OSXError>(
                    OSXError::NSPasteboard,
                ),
                PasteboardLookup::PasteboardNull => made == Err::<OSXClipboardContext, OSXError>(
                    OSXError::NSPasteboardNull,
                ),
                PasteboardLookup::Found => made is Ok && made->Ok_0.spec_interval_ms()
                    == DEFAULT_POLL_INTERVAL_MS,
            },
    {
        match lookup {
            PasteboardLookup::ClassMissing => Err(OSXError::NSPasteboard),
            PasteboardLookup::PasteboardNull => Err(OSXError::NSPasteboardNull),
            PasteboardLookup::Found => Ok(
                OSXClipboardContext { interval_ms: DEFAULT_POLL_INTERVAL_MS },
            ),
        }
    }

    /// The same context with another interval between two polls.
    pub fn with_interval_ms(self, interval_ms: u64) -> (context: OSXClipboardContext)
        ensures
            context.spec_interval_ms() == interval_ms,
    {
        OSXClipboardContext { interval_ms }
    }

    /// The interval between two polls, in milliseconds.
    pub fn interval_ms(&self) -> (interval_ms: u64)
        ensures
            interval_ms == self.spec_interval_ms(),
    {
        self.interval_ms
    }

    /// The text of the clipboard, from what a read for strings handed back:
    /// `None` where the read gave no list, else the strings in their order.
    /// The first string is the text; no list is `ReturnedNull`, an empty one
    /// `ReturnedEmpty`.
    pub fn get_contents(&mut self, reading: Option<Vec<String>>) -> (text: Result<String, OSXError>)
        ensures
            *final(self) == *old(self),
            reading is None ==> text == Err::<String, OSXError>(OSXError::ReturnedNull),
            reading is Some && reading->0@.len() == 0 ==> text == Err::<String, OSXError>(
                OSXError::ReturnedEmpty,
            ),
            reading is Some && reading->0@.len() > 0 ==> text == Ok::<String, OSXError>(
                reading->0@[0],
            ),
            match text {
                Ok(s) => first_text(reading_of(reading)) == Ok::<Seq<char>, OSXError>(s@),
                Err(e) => first_text(reading_of(reading)) == Err::<Seq<char>, OSXError>(e),
            },
    {
        match reading {
            None => Err(OSXError::ReturnedNull),
            Some(objects) => {
                let mut objects = objects;
                if objects.len() == 0 {
                    Err(OSXError::ReturnedEmpty)
                } else {
                    Ok(objects.remove(0))
                }
            },
        }
    }

    /// The outcome of a write, from what the pasteboard answered when the
    /// objects for the text were written to it: `ReturnedFalse` where
    /// it did not take them.
    pub fn set_contents(&mut self, written: bool) -> (outcome: Result<(), OSXError>)
        ensures
            *final(self) == *old(self),
            outcome == if written {
                Ok::<(), OSXError>(())
            } else {
                Err::<(), OSXError>(OSXError::ReturnedFalse)
            },
    {
        if written {
            Ok(())
        } else {
            Err(OSXError::ReturnedFalse)
        }
    }

    /// A listener of its own, whose baseline is the change counter as it was
    /// just read.
    pub fn iter(&mut self, change_count: i64) -> (listener: ClipboardListener)
        ensures
            *final(self) == *old(self),
            listener.baseline() == change_count,
            listener.spec_interval_ms() == old(self).spec_interval_ms(),
    {
        ClipboardListener { change_count, interval_ms: self.interval_ms }
    }
}

/// A watcher of the change counter. It remembers the counter as it last saw
/// it and reports a change whenever a new reading differs.
#[derive(Debug)]
pub struct ClipboardListener {
    change_count: i64,
    interval_ms: u64,
}

impl ClipboardListener {
    /// The counter as the listener last saw it.
    pub closed spec fn baseline(&self) -> i64 {
        self.change_count
    }

    /// The time to wait before each reading, in milliseconds.
    pub closed spec fn spec_interval_ms(&self) -> u64 {
        self.interval_ms
    }

    /// Whether a reading of `change_count` is a change to this listener.
    pub open spec fn changed_by(&self, change_count: i64) -> bool {
        change_count != self.baseline()
    }

    /// A listener that has seen `p` and nothing after it.
    pub open spec fn up_to_date(&self, p: Pasteboard) -> bool {
        self.baseline() == p.change_count
    }

    /// The listener after a round that read `change_count`: the reading is
    /// its baseline, and its interval is as it was.
    pub closed spec fn after(self, change_count: i64) -> ClipboardListener {
        ClipboardListener { change_count, interval_ms: self.interval_ms }
    }

    /// The counter as the listener last saw it.
    pub fn change_count(&self) -> (change_count: i64)
        ensures
            change_count == self.baseline(),
    {
        self.change_count
    }

    /// The time to wait before each reading, in milliseconds.
    pub fn interval_ms(&self) -> (interval_ms: u64)
        ensures
            interval_ms == self.spec_interval_ms(),
    {
        self.interval_ms
    }

    /// One round of the watch, on the counter as it was read after the wait.
    /// A reading that differs from the baseline yields the change signal; an
    /// equal one yields nothing, and the caller waits and reads again. Either
    /// way the reading is the baseline from now on.
    pub fn next(&mut self, change_count: i64) -> (signal: Option<usize>)
        ensures
            *final(self) == old(self).after(change_count),
            final(self).baseline() == change_count,
            final(self).spec_interval_ms() == old(self).spec_interval_ms(),
            signal == if old(self).changed_by(change_count) {
                Some(CHANGED)
            } else {
                None::<usize>
            },
    {
        if change_count != self.change_count {
            self.change_count = change_count;
            Some(CHANGED)
        } else {
            None
        }
    }

    /// The rounds of the watch on a run of readings, oldest first: the place
    /// in `readings` of the first one that is a change, if there is one. The
    /// baseline is then that reading, and otherwise unchanged.
    pub fn next_of(&mut self, readings: &Vec<i64>) -> (place: Option<usize>)
        ensures
            final(self).spec_interval_ms() == old(self).spec_interval_ms(),
            match place {
                Some(i) => i < readings@.len() && old(self).changed_by(readings@[i as int])
                    && final(self).baseline() == readings@[i as int] && forall|j: int|
                    0 <= j < i ==> !old(self).changed_by(#[trigger] readings@[j]),
                None => final(self).baseline() == old(self).baseline() && forall|j: int|
                    0 <= j < readings@.len() ==> !old(self).changed_by(#[trigger] readings@[j]),
            },
    {
        let mut i: usize = 0;
        while i < readings.len()
            invariant
                i <= readings@.len(),
                *self == *old(self),
                forall|j: int| 0 <= j < i ==> !old(self).changed_by(#[trigger] readings@[j]),
            decreases readings@.len() - i,
        {
            if self.next(readings[i]).is_some() {
                return Some(i);
            }
            i += 1;
        }
        None
    }
}

/// Text that was written is the text that the next read gives: after a write
/// of the objects for `text`, with no other writer, the first string of a read
/// is `text`.
pub proof fn lemma_round_trip(p: Pasteboard, text: Seq<char>)
    ensures
        first_text(p.write_objects(objects_for(text)).read_objects()) == Ok::<
            Seq<char>,
            OSXError,
        >(text),
{
}

/// A read of a pasteboard that holds no string is one of two failures, never
/// a text.
pub proof fn lemma_nothing_to_read(p: Pasteboard)
    requires
        p.contents is None || p.contents->0.len() == 0,
    ensures
        first_text(p.read_objects()) == Err::<Seq<char>, OSXError>(OSXError::ReturnedNull)
            || first_text(p.read_objects()) == Err::<Seq<char>, OSXError>(
            OSXError::ReturnedEmpty,
        ),
{
}

/// Of two rounds with no write between them the second is silent, whatever
/// the first one saw: the counter that the first round read is no change to
/// the listener that it left.
pub proof fn lemma_no_spurious_signal(listener: ClipboardListener, p: Pasteboard)
    requires
        p.wf(),
    ensures
        listener.after(p.change_count as i64).up_to_date(p),
        !listener.after(p.change_count as i64).changed_by(p.change_count as i64),
{
}

/// A write between two rounds is a change to the second: a listener whose
/// last round saw the pasteboard reports a change on the counter as it is
/// after one write or more, however many there were.
pub proof fn lemma_write_is_signalled(
    listener: ClipboardListener,
    p: Pasteboard,
    writes: Seq<Seq<Seq<char>>>,
)
    requires
        p.wf(),
        p.write_each(writes).wf(),
        writes.len() > 0,
    ensures
        listener.after(p.change_count as i64).changed_by(
            p.write_each(writes).change_count as i64,
        ),
{
    p.lemma_write_each_counts(writes);
}

/// However many writes there were between two rounds, the second round
/// reports them as one change, and a round after it with no further write is
/// silent.
pub proof fn lemma_writes_coalesce(
    listener: ClipboardListener,
    p: Pasteboard,
    writes: Seq<Seq<Seq<char>>>,
)
    requires
        p.wf(),
        p.write_each(writes).wf(),
        writes.len() > 0,
    ensures
        ({
            let seen = p.change_count as i64;
            let now = p.write_each(writes).change_count as i64;
            &&& listener.after(seen).changed_by(now)
            &&& !listener.after(seen).after(now).changed_by(now)
        }),
{
    p.lemma_write_each_counts(writes);
}

} // verus!

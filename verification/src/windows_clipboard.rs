//! The clipboard of Windows: text is read and written in one call each, and
//! changes arrive as messages to a hidden window.

use vstd::prelude::*;
use crate::common::{ClipboardError, CHANGED, DELIVERY_ERROR};

verus! {

/// The answer of the platform when it enrolled a window for clipboard updates.
pub const LISTENER_ADDED: i32 = 1;

/// The clipboard of Windows. It holds nothing: the platform keeps the state.
#[derive(Clone, Copy, Debug, PartialEq, Eq, Structural)]
pub struct WindowsClipboardContext;

/// A marker for a handler of clipboard messages.
#[derive(Clone, Copy, Debug, PartialEq, Eq, Structural)]
pub struct Handler;

/// The UTF-16 units of one character: itself below `0x10000`, else a high and
/// a low surrogate that share the twenty bits left after `0x10000` is taken
/// off.
pub open spec fn wide_units(c: char) -> Seq<u16> {
    let v = c as int;
    if v < 0x10000 {
        seq![v as u16]
    } else {
        seq![(0xD800 + (v - 0x10000) / 0x400) as u16, (0xDC00 + (v - 0x10000) % 0x400) as u16]
    }
}

/// A text in UTF-16: the units of its characters, one after another.
pub open spec fn wide(text: Seq<char>) -> Seq<u16>
    decreases text.len(),
{
    if text.len() == 0 {
        Seq::empty()
    } else {
        wide(text.drop_last()) + wide_units(text.last())
    }
}

/// A text as the platform takes it: in UTF-16, with a zero unit at its end.
pub open spec fn wide_null(text: Seq<char>) -> Seq<u16> {
    wide(text).push(0u16)
}

/// `text` in UTF-16, with a zero unit at its end.
pub fn encode_wide_null(text: &str) -> (units: Vec<u16>)
    ensures
        units@ == wide_null(text@),
{
    let n: usize = text.unicode_len();
    let mut units: Vec<u16> = Vec::new();
    let mut i: usize = 0;
    while i < n
        invariant
            i <= n,
            n == text@.len(),
            units@ == wide(text@.subrange(0, i as int)),
        decreases n - i,
    {
        let c = text.get_char(i);
        let v: u32 = c as u32;
        let ghost before = units@;
        if v < 0x10000 {
            units.push(v as u16);
            assert(units@ =~= before + wide_units(c));
        } else {
            let rest: u32 = v - 0x10000;
            let high: u32 = 0xD800 + rest / 0x400;
            let low: u32 = 0xDC00 + rest % 0x400;
            units.push(high as u16);
            units.push(low as u16);
            assert(units@ =~= before + wide_units(c));
        }
        proof {
            let upto = text@.subrange(0, i + 1);
            assert(upto.drop_last() =~= text@.subrange(0, i as int));
            assert(upto.last() == c);
        }
        i += 1;
    }
    proof {
        assert(text@.subrange(0, n as int) =~= text@);
    }
    units.push(0);
    units
}

/// The name of the window class of which the hidden window is made, as the
/// platform takes it.
pub fn window_class_name() -> (name: Vec<u16>)
    ensures
        name@ == wide_null("STATIC"@),
        name@ == seq![0x53u16, 0x54u16, 0x41u16, 0x54u16, 0x49u16, 0x43u16, 0u16],
{
    let name = encode_wide_null("STATIC");
    proof {
        reveal_strlit("STATIC");
        let text = "STATIC"@;
        assert(text =~= seq!['S', 'T', 'A', 'T', 'I', 'C']);
        let t5 = text.drop_last();
        let t4 = t5.drop_last();
        let t3 = t4.drop_last();
        let t2 = t3.drop_last();
        let t1 = t2.drop_last();
        let t0 = t1.drop_last();
        assert(wide(t0) =~= Seq::<u16>::empty());
        assert(wide(t1) =~= seq![0x53u16]);
        assert(wide(t2) =~= seq![0x53u16, 0x54u16]);
        assert(wide(t3) =~= seq![0x53u16, 0x54u16, 0x41u16]);
        assert(wide(t4) =~= seq![0x53u16, 0x54u16, 0x41u16, 0x54u16]);
        assert(wide(t5) =~= seq![0x53u16, 0x54u16, 0x41u16, 0x54u16, 0x49u16]);
        assert(wide(text) =~= seq![0x53u16, 0x54u16, 0x41u16, 0x54u16, 0x49u16, 0x43u16]);
        assert(name@ =~= seq![0x53u16, 0x54u16, 0x41u16, 0x54u16, 0x49u16, 0x43u16, 0u16]);
    }
    name
}

/// The window that was made to receive messages, from the handle that the
/// platform returned: a null handle is a failed registration.
pub fn create_window(handle: usize) -> (window: Result<usize, ClipboardError>)
    ensures
        window == if handle == 0 {
            Err::<usize, ClipboardError>(ClipboardError::ListenerRegistrationFailed)
        } else {
            Ok::<usize, ClipboardError>(handle)
        },
{
    if handle == 0 {
        Err(ClipboardError::ListenerRegistrationFailed)
    } else {
        Ok(handle)
    }
}

/// Whether a wait for a message ended in a message, from the number that the
/// wait returned: a negative one is a delivery error.
pub fn get_msg(result: i32) -> (delivered: Result<(), ClipboardError>)
    ensures
        delivered == if result < 0 {
            Err::<(), ClipboardError>(ClipboardError::DeliveryError)
        } else {
            Ok::<(), ClipboardError>(())
        },
{
    if result < 0 {
        Err(ClipboardError::DeliveryError)
    } else {
        Ok(())
    }
}

/// A hidden window that is enrolled for clipboard updates.
#[derive(Debug)]
pub struct ClipboardListener {
    hwnd: usize,
}

impl ClipboardListener {
    /// The handle of the listener's window.
    pub closed spec fn handle(&self) -> usize {
        self.hwnd
    }

    /// The window exists.
    pub open spec fn wf(&self) -> bool {
        self.handle() != 0
    }

    /// Whether a window handle and the platform's answer to its enrolment
    /// make a listener.
    pub open spec fn registered(handle: usize, added: i32) -> bool {
        handle != 0 && added == LISTENER_ADDED
    }

    /// The listener on the window `handle`, where the window was made and
    /// `added`, the platform's answer to its enrolment, says that it is
    /// enrolled; else the failure to register.
    pub fn new(handle: usize, added: i32) -> (made: Result<ClipboardListener, ClipboardError>)
        ensures
            Self::registered(handle, added) ==> made is Ok && made->Ok_0.handle() == handle
                && made->Ok_0.wf(),
            !Self::registered(handle, added) ==> made == Err::<ClipboardListener, ClipboardError>(
                ClipboardError::ListenerRegistrationFailed,
            ),
    {
        match create_window(handle) {
            Err(e) => Err(e),
            Ok(hwnd) => if added == LISTENER_ADDED {
                Ok(ClipboardListener { hwnd })
            } else {
                Err(ClipboardError::ListenerRegistrationFailed)
            },
        }
    }

    /// The handle of the listener's window.
    pub fn hwnd(&self) -> (hwnd: usize)
        ensures
            hwnd == self.handle(),
    {
        self.hwnd
    }

    /// The element for one wait, from the number that the wait returned: the
    /// change signal for a message, the error element for a failed delivery.
    /// There is always an element: the sequence does not end.
    pub fn next(&mut self, result: i32) -> (signal: Option<usize>)
        ensures
            *final(self) == *old(self),
            signal == if result < 0 {
                Some(DELIVERY_ERROR)
            } else {
                Some(CHANGED)
            },
    {
        match get_msg(result) {
            Ok(_) => Some(CHANGED),
            Err(_) => Some(DELIVERY_ERROR),
        }
    }

    /// The window that `release` hands out.
    pub open spec fn released(self) -> usize {
        self.handle()
    }

    /// Ends the listener and hands out the window whose enrolment the caller
    /// now has to withdraw.
    pub fn release(self) -> (hwnd: usize)
        ensures
            hwnd == self.released(),
    {
        self.hwnd
    }
}

/// A listener that was made on a window and then released leaves the
/// platform's enrolments as they were: the window that `release` hands out
/// for withdrawal is the one that was enrolled.
pub proof fn lemma_release_undoes_enrolment(enrolled: Set<usize>, listener: ClipboardListener)
    requires
        !enrolled.contains(listener.handle()),
    ensures
        listener.released() == listener.handle(),
        enrolled.insert(listener.handle()).remove(listener.released()) == enrolled,
{
    assert(enrolled.insert(listener.handle()).remove(listener.handle()) =~= enrolled);
}

impl WindowsClipboardContext {
    /// The context. Nothing has to be acquired for it.
    pub fn new() -> (made: Result<WindowsClipboardContext, ClipboardError>)
        ensures
            made == Ok::<WindowsClipboardContext, ClipboardError>(WindowsClipboardContext),
    {
        Ok(WindowsClipboardContext)
    }

    /// The text of the clipboard, from what a read for text handed back:
    /// `None` where the clipboard held no text.
    pub fn get_contents(&mut self, read: Option<String>) -> (text: Result<String, ClipboardError>)
        ensures
            text == match read {
                Some(s) => Ok::<String, ClipboardError>(s),
                None => Err::<String, ClipboardError>(ClipboardError::NoTextContent),
            },
    {
        match read {
            Some(s) => Ok(s),
            None => Err(ClipboardError::NoTextContent),
        }
    }

    /// The outcome of a write, from whether the platform committed it.
    pub fn set_contents(&mut self, written: bool) -> (outcome: Result<(), ClipboardError>)
        ensures
            outcome == if written {
                Ok::<(), ClipboardError>(())
            } else {
                Err::<(), ClipboardError>(ClipboardError::WriteRejected)
            },
    {
        if written {
            Ok(())
        } else {
            Err(ClipboardError::WriteRejected)
        }
    }

    /// A listener of its own on the window `handle`, or the failure to
    /// register it.
    pub fn iter(&mut self, handle: usize, added: i32) -> (made: Result<
        ClipboardListener,
        ClipboardError,
    >)
        ensures
            ClipboardListener::registered(handle, added) ==> made is Ok && made->Ok_0.handle()
                == handle && made->Ok_0.wf(),
            !ClipboardListener::registered(handle, added) ==> made == Err::<
                ClipboardListener,
                ClipboardError,
            >(ClipboardError::ListenerRegistrationFailed),
    {
        ClipboardListener::new(handle, added)
    }
}

} // verus!

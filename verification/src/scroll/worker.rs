use vstd::prelude::*;

use crate::platform::{CapturedScrollFrame, ScrollCaptureIntent, ScrollDirection};

verus! {

/// The direction that the native scroll positions of two frames show: down when the
/// position grew, up when it shrank, unknown when either is missing or they are equal.
pub open spec fn native_direction(previous: Option<i64>, current: Option<i64>) -> ScrollDirection {
    match (previous, current) {
        (Some(p), Some(c)) => if c > p {
            ScrollDirection::Down
        } else if c < p {
            ScrollDirection::Up
        } else {
            ScrollDirection::Unknown
        },
        _ => ScrollDirection::Unknown,
    }
}

/// The direction of a captured frame: the platform's wheel hint when it has one, else the
/// direction of its native scroll position. The frame's position, when it has one, becomes
/// the one to compare the next frame with.
pub fn resolve_direction(
    captured: &CapturedScrollFrame,
    previous_native_position: &mut Option<i64>,
) -> (direction: ScrollDirection)
    ensures
        direction == (if captured.direction == ScrollDirection::Unknown {
            native_direction(*old(previous_native_position), captured.native_scroll_position)
        } else {
            captured.direction
        }),
        *final(previous_native_position) == (match captured.native_scroll_position {
            Some(position) => Some(position),
            None => *old(previous_native_position),
        }),
{
    let native = match (*previous_native_position, captured.native_scroll_position) {
        (Some(previous), Some(current)) => {
            if current > previous {
                ScrollDirection::Down
            } else if current < previous {
                ScrollDirection::Up
            } else {
                ScrollDirection::Unknown
            }
        },
        _ => ScrollDirection::Unknown,
    };
    if let Some(position) = captured.native_scroll_position {
        *previous_native_position = Some(position);
    }
    if captured.direction == ScrollDirection::Unknown {
        native
    } else {
        captured.direction
    }
}

/// Lets through only frames newer than every frame let through before, so that a stale
/// match never reaches the stitcher.
pub struct SpliceGate {
    last_splice_id: u64,
}

impl SpliceGate {
    pub closed spec fn last(&self) -> u64 {
        self.last_splice_id
    }

    pub fn new() -> (gate: SpliceGate)
        ensures
            gate.last() == 0,
    {
        SpliceGate { last_splice_id: 0 }
    }

    /// Whether the frame numbered `splice_id` may be stitched: only when it is newer than
    /// the last one accepted, which it then becomes.
    pub fn accept(&mut self, splice_id: u64) -> (accepted: bool)
        ensures
            accepted == (splice_id > old(self).last()),
            final(self).last() == (if accepted {
                splice_id
            } else {
                old(self).last()
            }),
            final(self).last() >= old(self).last(),
    {
        if splice_id <= self.last_splice_id {
            false
        } else {
            self.last_splice_id = splice_id;
            true
        }
    }
}

/// The most frames that wait for the matcher at once.
pub const MAX_PENDING_MATCHES: usize = 1;

/// Limits how many frames wait for the matcher: a frame passes only while fewer than
/// `MAX_PENDING_MATCHES` frames are being matched, so that the source keeps replacing its own
/// latest frame instead of queueing old ones. Frames that pass are numbered in order.
pub struct MatchGate {
    pending: usize,
    next_splice_id: u64,
}

impl MatchGate {
    #[verifier::type_invariant]
    closed spec fn bounded(self) -> bool {
        self.pending <= MAX_PENDING_MATCHES
    }

    /// The number of frames let in and not yet released.
    pub closed spec fn pending(&self) -> nat {
        self.pending as nat
    }

    /// The number that the next frame let in gets.
    pub closed spec fn next_id(&self) -> u64 {
        self.next_splice_id
    }

    pub fn new() -> (gate: MatchGate)
        ensures
            gate.pending() == 0,
            gate.next_id() == 1,
    {
        MatchGate { pending: 0, next_splice_id: 1 }
    }

    /// Lets in a frame when the matcher has room for it and returns its number, which is one
    /// more than that of the frame let in before it; refuses it otherwise. Never more than
    /// `MAX_PENDING_MATCHES` frames are let in and not released.
    pub fn try_enter(&mut self) -> (id: Option<u64>)
        requires
            old(self).next_id() < u64::MAX,
        ensures
            old(self).pending() < MAX_PENDING_MATCHES ==> id == Some(old(self).next_id())
                && final(self).pending() == old(self).pending() + 1 && final(self).next_id()
                == old(self).next_id() + 1,
            old(self).pending() >= MAX_PENDING_MATCHES ==> id is None && final(self).pending()
                == old(self).pending() && final(self).next_id() == old(self).next_id(),
            final(self).pending() <= MAX_PENDING_MATCHES,
    {
        proof {
            use_type_invariant(&*self);
        }
        if self.pending >= MAX_PENDING_MATCHES {
            return None;
        }
        let id = self.next_splice_id;
        self.pending = self.pending + 1;
        self.next_splice_id = id + 1;
        Some(id)
    }

    /// Marks one frame that was let in as done with (matched, discarded or failed to send).
    pub fn release(&mut self)
        requires
            old(self).pending() > 0,
        ensures
            final(self).pending() == old(self).pending() - 1,
            final(self).next_id() == old(self).next_id(),
    {
        proof {
            use_type_invariant(&*self);
        }
        self.pending = self.pending - 1;
    }
}

/// A one-item mailbox between the thread that grabs frames and the one that consumes them:
/// a new frame replaces one not yet taken, and once closed it takes nothing more.
pub struct LatestFrameSlot<T> {
    frame: Option<T>,
    closed: bool,
}

impl<T> LatestFrameSlot<T> {
    pub closed spec fn spec_frame(&self) -> Option<T> {
        self.frame
    }

    pub closed spec fn is_closed(&self) -> bool {
        self.closed
    }

    pub fn new() -> (slot: LatestFrameSlot<T>)
        ensures
            slot.spec_frame() is None,
            !slot.is_closed(),
    {
        LatestFrameSlot { frame: None, closed: false }
    }

    /// Stores `frame` in place of any frame not yet taken; refused once the slot is closed.
    pub fn replace(&mut self, frame: T) -> (r: Result<(), ()>)
        ensures
            final(self).is_closed() == old(self).is_closed(),
            old(self).is_closed() ==> r is Err && final(self).spec_frame() == old(self).spec_frame(),
            !old(self).is_closed() ==> r is Ok && final(self).spec_frame() == Some(frame),
    {
        if self.closed {
            return Err(());
        }
        self.frame = Some(frame);
        Ok(())
    }

    /// Takes the stored frame, leaving the slot empty.
    pub fn take(&mut self) -> (frame: Option<T>)
        ensures
            frame == old(self).spec_frame(),
            final(self).spec_frame() is None,
            final(self).is_closed() == old(self).is_closed(),
    {
        let mut taken: Option<T> = None;
        std::mem::swap(&mut taken, &mut self.frame);
        taken
    }

    /// Refuses further frames and drops the one not yet taken.
    pub fn close(&mut self)
        ensures
            final(self).is_closed(),
            final(self).spec_frame() is None,
    {
        self.closed = true;
        self.frame = None;
    }
}

/// The wheel state that a wheel notch leaves for the grabbing thread: a notch toward the
/// user (negative delta) scrolls down, one away from the user scrolls up, and a zero delta
/// leaves the state as it was.
pub fn wheel_state_for_delta(delta: i16) -> (state: Option<i8>)
    ensures
        delta < 0 ==> state == Some(1i8),
        delta > 0 ==> state == Some(-1i8),
        delta == 0 ==> state is None,
{
    if delta == 0 {
        None
    } else if delta < 0 {
        Some(1)
    } else {
        Some(-1)
    }
}

/// The direction that the recorded wheel state stands for.
pub fn direction_from_wheel_state(state: i8) -> (direction: ScrollDirection)
    ensures
        state < 0 ==> direction == ScrollDirection::Up,
        state > 0 ==> direction == ScrollDirection::Down,
        state == 0 ==> direction == ScrollDirection::Unknown,
{
    if state < 0 {
        ScrollDirection::Up
    } else if state > 0 {
        ScrollDirection::Down
    } else {
        ScrollDirection::Unknown
    }
}

/// The code that a finish request of the scrolling toolbar carries for each intent.
pub open spec fn spec_finish_code(intent: ScrollCaptureIntent) -> usize {
    match intent {
        ScrollCaptureIntent::Edit => 1,
        ScrollCaptureIntent::Save => 2,
        ScrollCaptureIntent::Clipboard => 3,
    }
}

pub fn finish_code(intent: ScrollCaptureIntent) -> (code: usize)
    ensures
        code == spec_finish_code(intent),
{
    match intent {
        ScrollCaptureIntent::Edit => 1,
        ScrollCaptureIntent::Save => 2,
        ScrollCaptureIntent::Clipboard => 3,
    }
}

/// The intent that a finish request's code carries, or `None` for an unknown code.
pub open spec fn spec_finish_intent(code: usize) -> Option<ScrollCaptureIntent> {
    if code == 1 {
        Some(ScrollCaptureIntent::Edit)
    } else if code == 2 {
        Some(ScrollCaptureIntent::Save)
    } else if code == 3 {
        Some(ScrollCaptureIntent::Clipboard)
    } else {
        None
    }
}

pub fn finish_intent(code: usize) -> (intent: Option<ScrollCaptureIntent>)
    ensures
        intent == spec_finish_intent(code),
{
    if code == 1 {
        Some(ScrollCaptureIntent::Edit)
    } else if code == 2 {
        Some(ScrollCaptureIntent::Save)
    } else if code == 3 {
        Some(ScrollCaptureIntent::Clipboard)
    } else {
        None
    }
}

/// Reading back the code of a finish request gives the intent that was posted.
pub proof fn lemma_finish_code_round_trips(intent: ScrollCaptureIntent)
    ensures
        spec_finish_intent(spec_finish_code(intent)) == Some(intent),
{
}

} // verus!

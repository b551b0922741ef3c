use vstd::prelude::*;
use crate::event::{Event, EventType, InputEventData, InputKey, event_key};
use crate::queue::{EventQueue, drain_count};

verus! {

/// How far one joystick step moves the cursor, in pixels.
pub const CURSOR_STEP: i32 = 8;

/// The most events that one tick takes out of the queue, so that a storm of
/// edges from a bouncing switch cannot stretch a tick without bound.
pub const MAX_EVENTS_PER_TICK: usize = 64;

/// Number of fixed status lines on the screen.
pub const STATUS_LINES: usize = 8;

/// Height of one text row, in pixels.
pub const ROW_HEIGHT: i32 = 8;

/// How a key moves the cursor: up by one step, down by one step, other keys
/// not at all.
pub open spec fn key_delta(k: Option<InputKey>) -> int {
    match k {
        Some(InputKey::JoyUp) => -(CURSOR_STEP as int),
        Some(InputKey::JoyDown) => CURSOR_STEP as int,
        _ => 0,
    }
}

/// `x` held within the range of `i32`.
pub open spec fn clamp_i32(x: int) -> int {
    if x < i32::MIN as int {
        i32::MIN as int
    } else if x > i32::MAX as int {
        i32::MAX as int
    } else {
        x
    }
}

/// The cursor offset after one event.
pub open spec fn step_offset(offset: int, e: Event) -> int {
    clamp_i32(offset + key_delta(event_key(e)))
}

/// The cursor offset after the events of `s`, applied first to last.
pub open spec fn fold_events(offset: int, s: Seq<Event>) -> int
    decreases s.len(),
{
    if s.len() == 0 {
        offset
    } else {
        step_offset(fold_events(offset, s.drop_last()), s.last())
    }
}

/// The text of the fixed status line `i`.
pub open spec fn status_text(i: int) -> Seq<char> {
    if i == 0 {
        "  Hello world 1!"@
    } else if i == 1 {
        "  Hello world 2!"@
    } else if i == 2 {
        "  Hello world 3!"@
    } else if i == 3 {
        "  Hello world 4!"@
    } else if i == 4 {
        "  Hello world 5!"@
    } else if i == 5 {
        "  Hello world 6!"@
    } else if i == 6 {
        "  Hello world 7!"@
    } else {
        "  Hello world 8!"@
    }
}

/// The text of the cursor marker.
pub open spec fn marker_text() -> Seq<char> {
    "> "@
}

/// `n` input events of key `k`, one after another.
pub open spec fn repeated_key(k: InputKey, n: nat) -> Seq<Event> {
    Seq::new(n, |i: int| Event {
        event_type: EventType::InputEvent,
        input_data: Some(InputEventData { key: Some(k) }),
    })
}

/// Folding a concatenation is folding its two parts in turn.
pub proof fn lemma_fold_concat(offset: int, a: Seq<Event>, b: Seq<Event>)
    ensures
        fold_events(offset, a + b) == fold_events(fold_events(offset, a), b),
    decreases b.len(),
{
    if b.len() == 0 {
        assert(a + b == a);
    } else {
        assert((a + b).drop_last() == a + b.drop_last());
        assert((a + b).last() == b.last());
        lemma_fold_concat(offset, a, b.drop_last());
    }
}

/// Events leave the queue in the order in which they were sent: when one tick
/// takes the first `k` pending events and later ticks take the rest, the
/// events taken are the pending ones in order, and the cursor ends where
/// folding all pending events in order would put it.
pub proof fn lemma_drain_keeps_order(offset: int, pending: Seq<Event>, k: nat)
    requires
        k <= pending.len(),
    ensures
        pending.take(k as int) + pending.skip(k as int) == pending,
        fold_events(fold_events(offset, pending.take(k as int)), pending.skip(k as int))
            == fold_events(offset, pending),
{
    assert(pending.take(k as int) + pending.skip(k as int) == pending);
    lemma_fold_concat(offset, pending.take(k as int), pending.skip(k as int));
}

/// Repeating one key moves the cursor by that many steps while it stays
/// within the range of `i32`.
pub proof fn lemma_fold_repeated(offset: int, k: InputKey, n: nat)
    requires
        i32::MIN <= offset <= i32::MAX,
        i32::MIN <= offset + n * key_delta(Some(k)) <= i32::MAX,
    ensures
        fold_events(offset, repeated_key(k, n)) == offset + n * key_delta(Some(k)),
    decreases n,
{
    if n > 0 {
        let s = repeated_key(k, n);
        let d = key_delta(Some(k));
        assert(s.drop_last() == repeated_key(k, (n - 1) as nat));
        assert(event_key(s.last()) == Some(k));
        assert(n * d == (n - 1) * d + d) by (nonlinear_arith);
        assert(-8 <= d <= 8);
        if d < 0 {
            assert((n - 1) * d <= 0) by (nonlinear_arith)
                requires d < 0, n > 0;
        } else {
            assert((n - 1) * d >= 0) by (nonlinear_arith)
                requires d >= 0, n > 0;
        }
        lemma_fold_repeated(offset, k, (n - 1) as nat);
        assert(fold_events(offset, s) == step_offset(fold_events(offset, s.drop_last()), s.last()));
        assert(fold_events(offset, s.drop_last()) == offset + (n - 1) * d);
        assert(step_offset(offset + (n - 1) * d, s.last()) == clamp_i32(offset + n * d));
    } else {
        assert(repeated_key(k, n).len() == 0);
        assert(n == 0);
        assert(n * key_delta(Some(k)) == 0) by (nonlinear_arith)
            requires n == 0;
    }
}

/// From offset zero, `n` presses of `JoyDown` followed by `m` presses of
/// `JoyUp` leave the cursor at `(n - m) * CURSOR_STEP`, as long as the cursor
/// stays within the range of `i32` on the way.
pub proof fn lemma_down_then_up(n: nat, m: nat)
    requires
        n * CURSOR_STEP <= i32::MAX,
        (n - m) * CURSOR_STEP >= i32::MIN,
    ensures
        fold_events(0, repeated_key(InputKey::JoyDown, n) + repeated_key(InputKey::JoyUp, m))
            == (n - m) * CURSOR_STEP,
{
    lemma_fold_concat(0, repeated_key(InputKey::JoyDown, n), repeated_key(InputKey::JoyUp, m));
    lemma_fold_repeated(0, InputKey::JoyDown, n);
    assert(n * CURSOR_STEP + m * (-CURSOR_STEP) == (n - m) * CURSOR_STEP) by (nonlinear_arith);
    assert(m * (-CURSOR_STEP) <= 0) by (nonlinear_arith);
    lemma_fold_repeated(n * CURSOR_STEP, InputKey::JoyUp, m);
}

/// A tick starting at offset zero with one `JoyDown` pending ends one step
/// down; with one `JoyUp` pending, one step up.
pub proof fn lemma_single_press(k: InputKey)
    ensures
        k == InputKey::JoyDown ==> fold_events(0, repeated_key(k, 1)) == CURSOR_STEP,
        k == InputKey::JoyUp ==> fold_events(0, repeated_key(k, 1)) == -CURSOR_STEP,
{
    let s = repeated_key(k, 1);
    assert(s.drop_last() =~= Seq::<Event>::empty());
    assert(fold_events(0, s.drop_last()) == 0);
    assert(event_key(s.last()) == Some(k));
}

/// One line of text to draw, with its top-left corner at `(x, y)`.
pub struct TextLine {
    pub text: String,
    pub x: i32,
    pub y: i32,
}

/// The state of the user interface, owned by the control loop alone.
pub struct UiState {
    pub cursor_offset: i32,
}

fn status_line_text(i: usize) -> (r: &'static str)
    requires
        i < STATUS_LINES,
    ensures
        r@ == status_text(i as int),
{
    if i == 0 {
        "  Hello world 1!"
    } else if i == 1 {
        "  Hello world 2!"
    } else if i == 2 {
        "  Hello world 3!"
    } else if i == 3 {
        "  Hello world 4!"
    } else if i == 4 {
        "  Hello world 5!"
    } else if i == 5 {
        "  Hello world 6!"
    } else if i == 6 {
        "  Hello world 7!"
    } else {
        "  Hello world 8!"
    }
}

impl UiState {
    /// The state at start-up: the cursor at offset zero.
    pub fn new() -> (r: UiState)
        ensures
            r.cursor_offset == 0,
    {
        UiState { cursor_offset: 0 }
    }

    /// Folds one event into the state: `JoyUp` moves the cursor one step up,
    /// `JoyDown` one step down, saturating at the limits of `i32`; every other
    /// event leaves it where it is.
    pub fn apply_event(&mut self, e: &Event)
        ensures
            final(self).cursor_offset == step_offset(old(self).cursor_offset as int, *e),
    {
        let key = match e.input_data {
            Some(d) => if e.event_type == EventType::InputEvent { d.key } else { None },
            None => None,
        };
        match key {
            Some(InputKey::JoyUp) => {
                self.cursor_offset = if self.cursor_offset < i32::MIN + CURSOR_STEP {
                    i32::MIN
                } else {
                    self.cursor_offset - CURSOR_STEP
                };
            },
            Some(InputKey::JoyDown) => {
                self.cursor_offset = if self.cursor_offset > i32::MAX - CURSOR_STEP {
                    i32::MAX
                } else {
                    self.cursor_offset + CURSOR_STEP
                };
            },
            _ => {},
        }
    }

    /// Folds the events of `events` into the state, first to last.
    pub fn apply_events(&mut self, events: &Vec<Event>)
        ensures
            final(self).cursor_offset == fold_events(old(self).cursor_offset as int, events@),
    {
        let ghost start = self.cursor_offset as int;
        let mut i: usize = 0;
        while i < events.len()
            invariant
                i <= events@.len(),
                self.cursor_offset == fold_events(start, events@.take(i as int)),
            decreases events@.len() - i,
        {
            proof {
                assert(events@.take(i + 1 as int).drop_last() == events@.take(i as int));
            }
            self.apply_event(&events[i]);
            i = i + 1;
        }
        proof {
            assert(events@.take(i as int) == events@);
        }
    }

    /// One tick's work on the input side: takes out of `queue` the oldest
    /// pending events, up to `MAX_EVENTS_PER_TICK`, folds them into the state
    /// in order and returns them.
    pub fn drain_events(&mut self, queue: &mut EventQueue) -> (r: Vec<Event>)
        ensures
            r@.len() == drain_count(old(queue)@.len(), MAX_EVENTS_PER_TICK as nat),
            r@ == old(queue)@.take(r@.len() as int),
            final(queue)@ == old(queue)@.skip(r@.len() as int),
            old(queue)@.len() <= MAX_EVENTS_PER_TICK ==> r@ == old(queue)@
                && final(queue)@.len() == 0,
            final(self).cursor_offset == fold_events(old(self).cursor_offset as int, r@),
    {
        let events = queue.drain_up_to(MAX_EVENTS_PER_TICK);
        self.apply_events(&events);
        events
    }

    /// The whole screen for the current state: the fixed status lines, one
    /// per row from the top, then the cursor marker at the cursor offset.
    pub fn frame(&self) -> (r: Vec<TextLine>)
        ensures
            r@.len() == STATUS_LINES + 1,
            forall|i: int|
                0 <= i < STATUS_LINES ==> #[trigger] r@[i].text@ == status_text(i)
                    && r@[i].x == 0 && r@[i].y == i * ROW_HEIGHT,
            r@[STATUS_LINES as int].text@ == marker_text(),
            r@[STATUS_LINES as int].x == 0,
            r@[STATUS_LINES as int].y == self.cursor_offset,
    {
        let mut lines: Vec<TextLine> = Vec::new();
        let mut i: usize = 0;
        while i < STATUS_LINES
            invariant
                i <= STATUS_LINES,
                lines@.len() == i,
                forall|j: int|
                    0 <= j < i ==> #[trigger] lines@[j].text@ == status_text(j)
                        && lines@[j].x == 0 && lines@[j].y == j * ROW_HEIGHT,
            decreases STATUS_LINES - i,
        {
            let text = String::from_str(status_line_text(i));
            lines.push(TextLine { text, x: 0, y: (i as i32) * ROW_HEIGHT });
            i = i + 1;
        }
        lines.push(TextLine { text: String::from_str("> "), x: 0, y: self.cursor_offset });
        lines
    }
}

} // verus!

//! Conversion of switch events into usb keyboard button events.
//!
//! A `ModTap` button acts as a key when it is tapped and as a modifier when it is held. Until
//! it is known which, the press waits in a queue together with every press that comes after
//! it. The queue is resolved when the `ModTap` is released (a tap: its key is pressed and
//! released) or when it has been held for [MOD_TAP_TIME_MS] (a hold: its modifier is pressed).
//!
//! [KeypressHandler] holds the queue and decides what to send; the task that drives it waits
//! for the next switch event or for the deadline that [KeypressHandler::prepare_timeout]
//! reports, whichever comes first.

use vstd::prelude::*;

use crate::button::Button;
use crate::event::button;
use crate::event::switch;
use crate::event::Half;

verus! {

/// How long a `ModTap` must be held down before it acts as its modifier, in milliseconds.
pub const MOD_TAP_TIME_MS: u64 = 150;

/// The number of switches on one keyboard half.
pub const SWITCH_COUNT: usize = 18;

/// How many presses the queue holds at most.
pub const QUEUE_CAP: usize = 36;

/// A switch press that waits in the queue.
#[derive(Clone, Copy, Debug)]
pub struct PressEvent {
    pub source_button: usize,
    pub source_half: Half,
    pub button: Button,
    /// When the switch was pressed, in milliseconds.
    pub time: u64,
}

#[verifier::external_type_specification]
#[verifier::external_body]
#[verifier::reject_recursive_types(T)]
pub struct ExDeque<T, const N: usize>(heapless::Deque<T, N>);

/// The presses that a queue holds, front first.
pub uninterp spec fn queued(q: heapless::Deque<PressEvent, QUEUE_CAP>) -> Seq<PressEvent>;

/// `heapless::Deque::new`: an empty queue.
#[verifier::external_body]
fn queue_new() -> (q: heapless::Deque<PressEvent, QUEUE_CAP>)
    ensures
        queued(q) == Seq::<PressEvent>::empty(),
{
    heapless::Deque::new()
}

/// `heapless::Deque::len`: the number of presses in the queue, which never exceeds its
/// capacity.
#[verifier::external_body]
fn queue_len(q: &heapless::Deque<PressEvent, QUEUE_CAP>) -> (n: usize)
    ensures
        n == queued(*q).len(),
        n <= QUEUE_CAP,
{
    q.len()
}

/// `heapless::Deque::push_back`: appends a press unless the queue is full, in which case the
/// press is handed back.
#[verifier::external_body]
fn queue_push_back(q: &mut heapless::Deque<PressEvent, QUEUE_CAP>, item: PressEvent) -> (r: Result<
    (),
    PressEvent,
>)
    ensures
        r is Ok <==> queued(*old(q)).len() < QUEUE_CAP,
        r is Ok ==> queued(*final(q)) == queued(*old(q)).push(item),
        r is Err ==> queued(*final(q)) == queued(*old(q)),
{
    q.push_back(item)
}

/// `heapless::Deque::push_front`: puts a press at the front unless the queue is full, in which
/// case the press is handed back.
#[verifier::external_body]
fn queue_push_front(q: &mut heapless::Deque<PressEvent, QUEUE_CAP>, item: PressEvent) -> (r:
    Result<(), PressEvent>)
    ensures
        r is Ok <==> queued(*old(q)).len() < QUEUE_CAP,
        r is Ok ==> queued(*final(q)) == seq![item] + queued(*old(q)),
        r is Err ==> queued(*final(q)) == queued(*old(q)),
{
    q.push_front(item)
}

/// `heapless::Deque::pop_front`: removes and returns the front press, if any.
#[verifier::external_body]
fn queue_pop_front(q: &mut heapless::Deque<PressEvent, QUEUE_CAP>) -> (r: Option<PressEvent>)
    ensures
        r is Some <==> queued(*old(q)).len() > 0,
        r is Some ==> r == Some(queued(*old(q))[0]) && queued(*final(q)) == queued(
            *old(q),
        ).drop_first(),
        r is Some ==> queued(*final(q)).len() < QUEUE_CAP,
        r is None ==> queued(*final(q)) == queued(*old(q)),
{
    q.pop_front()
}

/// `heapless::Deque::as_slices`: the queue's contents as two slices that, one after the
/// other, hold the presses front first.
#[verifier::external_body]
fn queue_as_slices(q: &heapless::Deque<PressEvent, QUEUE_CAP>) -> (r: (&[PressEvent], &[PressEvent]))
    ensures
        r.0@ + r.1@ == queued(*q),
{
    q.as_slices()
}

/// The event that pressing a button sends right away, if any.
pub open spec fn spec_press_event(b: Button) -> Option<button::Event> {
    match b {
        Button::Mod(m) => Some(button::Event::PressMod(m)),
        Button::ModTap(_, m) => Some(button::Event::PressMod(m)),
        Button::Key(k) => Some(button::Event::PressKey(k)),
        _ => None,
    }
}

/// The event that releasing a button sends, if any.
pub open spec fn spec_release_event(b: Button) -> Option<button::Event> {
    match b {
        Button::Mod(m) => Some(button::Event::ReleaseMod(m)),
        Button::ModTap(_, m) => Some(button::Event::ReleaseMod(m)),
        Button::Key(k) => Some(button::Event::ReleaseKey(k)),
        _ => None,
    }
}

/// An optional event as a sequence of zero or one events.
pub open spec fn opt_seq(o: Option<button::Event>) -> Seq<button::Event> {
    match o {
        Some(e) => seq![e],
        None => Seq::empty(),
    }
}

/// The events that pressing each of `items` in order sends.
pub open spec fn presses(items: Seq<PressEvent>) -> Seq<button::Event>
    decreases items.len(),
{
    if items.len() == 0 {
        Seq::empty()
    } else {
        presses(items.drop_last()) + opt_seq(spec_press_event(items.last().button))
    }
}

pub open spec fn is_mod_tap(b: Button) -> bool {
    b matches Button::ModTap(..)
}

/// The index, at or after `start`, of the first press that came from switch `index` of
/// `half`.
pub open spec fn find_press(items: Seq<PressEvent>, half: Half, index: usize, start: int) -> Option<
    int,
>
    decreases items.len() - start,
{
    if start < 0 || start >= items.len() {
        None
    } else if items[start].source_half == half && items[start].source_button == index {
        Some(start)
    } else {
        find_press(items, half, index, start + 1)
    }
}

/// The index, at or after `start`, of the first press that came from a switch with index
/// `index`, on either half.
pub open spec fn find_switch_index(items: Seq<PressEvent>, index: usize, start: int) -> Option<int>
    decreases items.len() - start,
{
    if start < 0 || start >= items.len() {
        None
    } else if items[start].source_button == index {
        Some(start)
    } else {
        find_switch_index(items, index, start + 1)
    }
}

/// The index, at or after `start`, of the first queued `ModTap`, or the queue's length if
/// there is none.
pub open spec fn next_mod_tap(items: Seq<PressEvent>, start: int) -> int
    decreases items.len() - start,
{
    if start < 0 || start >= items.len() {
        items.len() as int
    } else if is_mod_tap(items[start].button) {
        start
    } else {
        next_mod_tap(items, start + 1)
    }
}

/// Whether a press from switch `index` of `half` counts as already queued: the first queued
/// press with that switch index came from the same half.
pub open spec fn is_queued_twice(items: Seq<PressEvent>, half: Half, index: usize) -> bool {
    match find_switch_index(items, index, 0) {
        Some(i) => items[i].source_half == half,
        None => false,
    }
}

/// The queue after trying to add the press of `button` by `event` at time `now`: unchanged
/// if the press is already queued or the queue is full.
pub open spec fn spec_insert(items: Seq<PressEvent>, event: switch::Event, button: Button, now: u64) -> Seq<
    PressEvent,
> {
    if is_queued_twice(items, event.source, event.source_button) || items.len() >= QUEUE_CAP {
        items
    } else {
        items.push(
            PressEvent {
                source_button: event.source_button,
                source_half: event.source,
                button: button,
                time: now,
            },
        )
    }
}

/// The queue and the sent events after a switch event at time `now`.
pub open spec fn switch_step(items: Seq<PressEvent>, event: switch::Event, now: u64) -> (Seq<
    PressEvent,
>, Seq<button::Event>) {
    match event.kind {
        switch::EventKind::Press { button } => match button {
            Button::ModTap(..) => (spec_insert(items, event, button, now), Seq::empty()),
            Button::Mod(..) | Button::Key(..) => if items.len() == 0 {
                (items, opt_seq(spec_press_event(button)))
            } else {
                (spec_insert(items, event, button, now), Seq::empty())
            },
            Button::Compose2(..) | Button::Compose3(..) => if items.len() == 0 {
                (items, Seq::empty())
            } else {
                (spec_insert(items, event, button, now), Seq::empty())
            },
            _ => (items, Seq::empty()),
        },
        switch::EventKind::Release { button, .. } => {
            let pos = find_press(items, event.source, event.source_button, 0);
            match button {
                Button::ModTap(k, _) => match pos {
                    Some(p) => (
                        items.skip(p + 1),
                        presses(items.take(p)) + seq![
                            button::Event::PressKey(k),
                            button::Event::ReleaseKey(k),
                        ],
                    ),
                    None => (items, opt_seq(spec_release_event(button))),
                },
                Button::Mod(..) | Button::Key(..) => match pos {
                    Some(p) => (
                        items.skip(p + 1),
                        presses(items.take(p + 1)) + opt_seq(spec_release_event(button)),
                    ),
                    None => (items, opt_seq(spec_release_event(button))),
                },
                _ => (items, Seq::empty()),
            }
        },
    }
}

/// The queue without the presses at its front that are not `ModTap`s.
pub open spec fn settle(items: Seq<PressEvent>) -> Seq<PressEvent>
    decreases items.len(),
{
    if items.len() == 0 {
        items
    } else if is_mod_tap(items[0].button) {
        items
    } else {
        settle(items.drop_first())
    }
}

/// `t + MOD_TAP_TIME_MS`, or the largest time if that does not fit.
pub open spec fn spec_deadline(t: u64) -> u64 {
    if t + MOD_TAP_TIME_MS > u64::MAX {
        u64::MAX
    } else {
        (t + MOD_TAP_TIME_MS) as u64
    }
}

/// The queue and the sent events when the front `ModTap` has been held long enough: it acts
/// as its modifier, and so does every press behind it up to the next `ModTap`.
pub open spec fn timeout_step(items: Seq<PressEvent>) -> (Seq<PressEvent>, Seq<button::Event>) {
    if items.len() == 0 {
        (items, Seq::empty())
    } else if !is_mod_tap(items[0].button) {
        (items.drop_first(), Seq::empty())
    } else {
        let rest = items.drop_first();
        let j = next_mod_tap(rest, 0);
        (rest.skip(j), opt_seq(spec_press_event(items[0].button)) + presses(rest.take(j)))
    }
}

/// The event that pressing a button sends right away, if any.
pub fn press_event(b: &Button) -> (r: Option<button::Event>)
    ensures
        r == spec_press_event(*b),
{
    match *b {
        Button::Mod(m) => Some(button::Event::PressMod(m)),
        Button::ModTap(_, m) => Some(button::Event::PressMod(m)),
        Button::Key(k) => Some(button::Event::PressKey(k)),
        _ => None,
    }
}

/// The event that releasing a button sends, if any.
pub fn release_event(b: &Button) -> (r: Option<button::Event>)
    ensures
        r == spec_release_event(*b),
{
    match *b {
        Button::Mod(m) => Some(button::Event::ReleaseMod(m)),
        Button::ModTap(_, m) => Some(button::Event::ReleaseMod(m)),
        Button::Key(k) => Some(button::Event::ReleaseKey(k)),
        _ => None,
    }
}

fn push_opt(out: &mut Vec<button::Event>, e: Option<button::Event>)
    ensures
        final(out)@ == old(out)@ + opt_seq(e),
{
    if let Some(e) = e {
        out.push(e);
    }
}

proof fn lemma_presses_take_step(items: Seq<PressEvent>, n: int)
    requires
        0 <= n < items.len(),
    ensures
        presses(items.take(n + 1)) == presses(items.take(n)) + opt_seq(
            spec_press_event(items[n].button),
        ),
{
    assert(items.take(n + 1).drop_last() =~= items.take(n));
}

/// A switch press event.
pub open spec fn press_of(half: Half, index: usize, b: Button) -> switch::Event {
    switch::Event { source: half, source_button: index, kind: switch::EventKind::Press { button: b } }
}

/// A switch release event.
pub open spec fn release_of(half: Half, index: usize, b: Button, after: core::time::Duration) -> switch::Event {
    switch::Event {
        source: half,
        source_button: index,
        kind: switch::EventKind::Release { button: b, after: after },
    }
}

/// Tapping a `ModTap` (releasing it before it has been held long enough, with nothing else
/// waiting) sends nothing on the press, and on the release a press and a release of its key;
/// the queue is empty again afterwards.
pub proof fn law_mod_tap_tapped(
    half: Half,
    index: usize,
    k: crate::keys::Key,
    m: crate::button::Modifier,
    t_press: u64,
    t_release: u64,
    after: core::time::Duration,
)
    ensures
        ({
            let b = Button::ModTap(k, m);
            let s1 = switch_step(Seq::empty(), press_of(half, index, b), t_press);
            let s2 = switch_step(s1.0, release_of(half, index, b, after), t_release);
            &&& s1.1 == Seq::<button::Event>::empty()
            &&& s2.1 == seq![button::Event::PressKey(k), button::Event::ReleaseKey(k)]
            &&& s2.0 == Seq::<PressEvent>::empty()
        }),
{
    let b = Button::ModTap(k, m);
    let s1 = switch_step(Seq::empty(), press_of(half, index, b), t_press);
    assert(find_switch_index(Seq::<PressEvent>::empty(), index, 0) is None);
    assert(s1.0.len() == 1);
    assert(find_press(s1.0, half, index, 0) == Some(0int));
    assert(s1.0.take(0) =~= Seq::<PressEvent>::empty());
    assert(s1.0.skip(1) =~= Seq::<PressEvent>::empty());
}

/// Holding a `ModTap` with nothing else waiting: the press sends nothing and arms a timeout
/// [MOD_TAP_TIME_MS] after the press; when it fires, the modifier is pressed and the queue is
/// empty; the later release then releases the modifier.
pub proof fn law_mod_tap_held(
    half: Half,
    index: usize,
    k: crate::keys::Key,
    m: crate::button::Modifier,
    t_press: u64,
    t_release: u64,
    after: core::time::Duration,
)
    ensures
        ({
            let b = Button::ModTap(k, m);
            let s1 = switch_step(Seq::empty(), press_of(half, index, b), t_press);
            let s2 = timeout_step(s1.0);
            let s3 = switch_step(s2.0, release_of(half, index, b, after), t_release);
            &&& s1.1 == Seq::<button::Event>::empty()
            &&& settle(s1.0) == s1.0
            &&& settle(s1.0).len() == 1
            &&& spec_deadline(settle(s1.0)[0].time) == spec_deadline(t_press)
            &&& s2.1 == seq![button::Event::PressMod(m)]
            &&& s2.0 == Seq::<PressEvent>::empty()
            &&& s3.1 == seq![button::Event::ReleaseMod(m)]
            &&& s3.0 == Seq::<PressEvent>::empty()
        }),
{
    let b = Button::ModTap(k, m);
    let s1 = switch_step(Seq::empty(), press_of(half, index, b), t_press);
    assert(find_switch_index(Seq::<PressEvent>::empty(), index, 0) is None);
    assert(s1.0.len() == 1);
    let rest = s1.0.drop_first();
    assert(rest =~= Seq::<PressEvent>::empty());
    assert(next_mod_tap(rest, 0) == 0);
    assert(rest.take(0) =~= Seq::<PressEvent>::empty());
    assert(rest.skip(0) =~= Seq::<PressEvent>::empty());
    let s2 = timeout_step(s1.0);
    assert(s2.1 =~= seq![button::Event::PressMod(m)]);
    assert(find_press(s2.0, half, index, 0) is None);
}

/// With nothing waiting, a plain key press is sent right away and its release right after,
/// and the queue stays empty.
pub proof fn law_key_passes_through(
    half: Half,
    index: usize,
    k: crate::keys::Key,
    t_press: u64,
    t_release: u64,
    after: core::time::Duration,
)
    ensures
        ({
            let b = Button::Key(k);
            let s1 = switch_step(Seq::empty(), press_of(half, index, b), t_press);
            let s2 = switch_step(s1.0, release_of(half, index, b, after), t_release);
            &&& s1.1 == seq![button::Event::PressKey(k)]
            &&& s1.0 == Seq::<PressEvent>::empty()
            &&& s2.1 == seq![button::Event::ReleaseKey(k)]
            &&& s2.0 == Seq::<PressEvent>::empty()
        }),
{
    let b = Button::Key(k);
    let s1 = switch_step(Seq::empty(), press_of(half, index, b), t_press);
    assert(find_press(s1.0, half, index, 0) is None);
}

/// A release whose press is not waiting in the queue sends exactly the button's release
/// event and leaves the queue as it was.
pub proof fn law_unqueued_release(
    items: Seq<PressEvent>,
    half: Half,
    index: usize,
    b: Button,
    now: u64,
    after: core::time::Duration,
)
    requires
        find_press(items, half, index, 0) is None,
    ensures
        switch_step(items, release_of(half, index, b, after), now).0 == items,
        switch_step(items, release_of(half, index, b, after), now).1 == (match b {
            Button::Mod(..) | Button::Key(..) | Button::ModTap(..) => opt_seq(spec_release_event(b)),
            _ => Seq::<button::Event>::empty(),
        }),
{
}

/// No switch event and no timeout makes the queue longer than its capacity, and a timeout
/// never makes it longer.
pub proof fn law_queue_bounded(items: Seq<PressEvent>, event: switch::Event, now: u64)
    requires
        items.len() <= QUEUE_CAP,
    ensures
        switch_step(items, event, now).0.len() <= QUEUE_CAP,
        timeout_step(items).0.len() <= items.len(),
{
    if items.len() > 0 && is_mod_tap(items[0].button) {
        let rest = items.drop_first();
        lemma_next_mod_tap_bounds(rest, 0);
    }
    match event.kind {
        switch::EventKind::Release { .. } => {
            lemma_find_press_bounds(items, event.source, event.source_button, 0);
        },
        _ => {},
    }
}

/// The events that pressing each of `items` sends, one per press of a key, a modifier or a
/// `ModTap` (which presses its modifier), in order; presses of other buttons send nothing.
pub proof fn law_presses_send_each(items: Seq<PressEvent>)
    requires
        forall|i: int|
            0 <= i < items.len() ==> (#[trigger] items[i].button is Key || items[i].button is Mod
                || items[i].button is ModTap),
    ensures
        presses(items).len() == items.len(),
        forall|i: int|
            0 <= i < items.len() ==> #[trigger] presses(items)[i] == match items[i].button {
                Button::Key(k) => button::Event::PressKey(k),
                Button::Mod(m) => button::Event::PressMod(m),
                Button::ModTap(_, m) => button::Event::PressMod(m),
                _ => button::Event::Wait,
            },
    decreases items.len(),
{
    if items.len() > 0 {
        let init = items.drop_last();
        law_presses_send_each(init);
    }
}

/// When the `ModTap` at the front of the queue has been held long enough, the presses
/// resolved are the front one and every press behind it up to the next `ModTap` (or the end
/// of the queue): they leave the queue, the rest stays as it was, and the events sent are
/// their presses, in order, the front one as its modifier. So no press leaves the queue
/// without being sent, and the next `ModTap`, if any, is at the front afterwards.
pub proof fn law_timeout_resolves_front(items: Seq<PressEvent>)
    requires
        items.len() > 0,
        is_mod_tap(items[0].button),
    ensures
        ({
            let (q, out) = timeout_step(items);
            let n = items.len() - q.len();
            &&& 1 <= n <= items.len()
            &&& q == items.skip(n)
            &&& out == presses(items.take(n))
            &&& forall|i: int| 0 < i < n ==> !is_mod_tap(#[trigger] items[i].button)
            &&& q.len() > 0 ==> is_mod_tap(q[0].button)
        }),
{
    let rest = items.drop_first();
    lemma_next_mod_tap_bounds(rest, 0);
    lemma_next_mod_tap_first(rest, 0);
    let j = next_mod_tap(rest, 0);
    let n = j + 1;
    assert(rest.skip(j) =~= items.skip(n));
    lemma_presses_front(items, n);
    assert(items.take(n).drop_first() =~= rest.take(j));
    assert forall|i: int| 0 < i < n implies !is_mod_tap(#[trigger] items[i].button) by {
        assert(items[i] == rest[i - 1]);
    }
    if j < rest.len() {
        assert(items.skip(n)[0] == rest[j]);
    }
}

/// The presses of a sequence are the presses of its first item followed by those of the
/// rest.
proof fn lemma_presses_front(items: Seq<PressEvent>, n: int)
    requires
        1 <= n <= items.len(),
    ensures
        presses(items.take(n)) == opt_seq(spec_press_event(items[0].button)) + presses(
            items.take(n).drop_first(),
        ),
    decreases n,
{
    let t = items.take(n);
    if n == 1 {
        assert(t.drop_last() =~= Seq::<PressEvent>::empty());
        assert(t.drop_first() =~= Seq::<PressEvent>::empty());
        assert(presses(Seq::<PressEvent>::empty()) =~= Seq::<button::Event>::empty());
    } else {
        lemma_presses_front(items, n - 1);
        assert(t.drop_last() =~= items.take(n - 1));
        assert(t.drop_first().drop_last() =~= items.take(n - 1).drop_first());
        assert(t.drop_first().last() == t.last());
    }
}

/// Before the index that [next_mod_tap] finds, from `start` on, no press is a `ModTap`, and
/// at that index (if inside) one is.
proof fn lemma_next_mod_tap_first(items: Seq<PressEvent>, start: int)
    requires
        0 <= start,
    ensures
        forall|i: int| start <= i < next_mod_tap(items, start) ==> !is_mod_tap(#[trigger] items[i].button),
        next_mod_tap(items, start) < items.len() ==> is_mod_tap(items[next_mod_tap(items, start)].button),
    decreases items.len() - start,
{
    if start < items.len() && !is_mod_tap(items[start].button) {
        lemma_next_mod_tap_first(items, start + 1);
    }
}

/// Releasing a switch whose press waits at position `p` of the queue (the first press from
/// that switch) resolves the queue up to it: the presses before it are sent, in order, and
/// leave the queue with it, and the rest stays. A key or modifier is then pressed and
/// released; a `ModTap` was tapped, so its key is pressed and released. A release whose press
/// does not wait in the queue sends only the button's release and leaves the queue alone.
pub proof fn law_release_resolves_queue(
    items: Seq<PressEvent>,
    half: Half,
    index: usize,
    b: Button,
    after: core::time::Duration,
    now: u64,
    p: int,
)
    requires
        0 <= p < items.len(),
        items[p].source_half == half && items[p].source_button == index,
        forall|j: int|
            0 <= j < p ==> !(#[trigger] items[j].source_half == half && items[j].source_button == index),
    ensures
        ({
            let (q, out) = switch_step(items, release_of(half, index, b, after), now);
            match b {
                Button::Key(k) => q == items.skip(p + 1) && out == presses(items.take(p + 1)) + seq![
                    button::Event::ReleaseKey(k),
                ],
                Button::Mod(m) => q == items.skip(p + 1) && out == presses(items.take(p + 1)) + seq![
                    button::Event::ReleaseMod(m),
                ],
                Button::ModTap(k, _) => q == items.skip(p + 1) && out == presses(items.take(p)) + seq![
                    button::Event::PressKey(k),
                    button::Event::ReleaseKey(k),
                ],
                _ => q == items && out == Seq::<button::Event>::empty(),
            }
        }),
{
    lemma_find_press_first(items, half, index, 0, p);
}

proof fn lemma_find_press_first(items: Seq<PressEvent>, half: Half, index: usize, start: int, p: int)
    requires
        0 <= start <= p < items.len(),
        items[p].source_half == half && items[p].source_button == index,
        forall|j: int|
            start <= j < p ==> !(#[trigger] items[j].source_half == half && items[j].source_button == index),
    ensures
        find_press(items, half, index, start) == Some(p),
    decreases p - start,
{
    if start < p {
        lemma_find_press_first(items, half, index, start + 1, p);
    }
}

/// Pressing a key or a modifier while nothing waits sends its press at once; while presses
/// wait, it sends nothing and joins the end of the queue (unless the queue is full or that
/// switch's press already waits there), so it is not sent ahead of them.
pub proof fn law_press_waits_behind_queue(items: Seq<PressEvent>, half: Half, index: usize, b: Button, now: u64)
    requires
        b is Key || b is Mod,
    ensures
        ({
            let (q, out) = switch_step(items, press_of(half, index, b), now);
            &&& items.len() == 0 ==> q == items && out == match b {
                Button::Key(k) => seq![button::Event::PressKey(k)],
                Button::Mod(m) => seq![button::Event::PressMod(m)],
                _ => Seq::<button::Event>::empty(),
            }
            &&& items.len() > 0 ==> out == Seq::<button::Event>::empty() && (q == items || q == items.push(
                PressEvent { source_button: index, source_half: half, button: b, time: now },
            ))
            &&& items.len() > 0 && items.len() < QUEUE_CAP && (forall|j: int|
                0 <= j < items.len() ==> #[trigger] items[j].source_button != index) ==> q == items.push(
                PressEvent { source_button: index, source_half: half, button: b, time: now },
            )
        }),
{
    if forall|j: int| 0 <= j < items.len() ==> #[trigger] items[j].source_button != index {
        lemma_find_switch_index_none(items, index, 0);
    }
}

proof fn lemma_find_switch_index_none(items: Seq<PressEvent>, index: usize, start: int)
    requires
        0 <= start,
        forall|j: int| 0 <= j < items.len() ==> #[trigger] items[j].source_button != index,
    ensures
        find_switch_index(items, index, start) is None,
    decreases items.len() - start,
{
    if start < items.len() {
        lemma_find_switch_index_none(items, index, start + 1);
    }
}

proof fn lemma_next_mod_tap_bounds(items: Seq<PressEvent>, start: int)
    requires
        0 <= start,
    ensures
        start <= items.len() ==> start <= next_mod_tap(items, start) <= items.len(),
        start > items.len() ==> next_mod_tap(items, start) == items.len(),
    decreases items.len() - start,
{
    if start < items.len() && !is_mod_tap(items[start].button) {
        lemma_next_mod_tap_bounds(items, start + 1);
    }
}

proof fn lemma_find_press_bounds(items: Seq<PressEvent>, half: Half, index: usize, start: int)
    ensures
        find_press(items, half, index, start) matches Some(p) ==> 0 <= start <= p < items.len(),
    decreases items.len() - start,
{
    if 0 <= start < items.len() && !(items[start].source_half == half && items[start].source_button
        == index) {
        lemma_find_press_bounds(items, half, index, start + 1);
    }
}

/// Queue state of the `ModTap` resolution.
pub struct KeypressHandler {
    queue: heapless::Deque<PressEvent, QUEUE_CAP>,
}

impl KeypressHandler {
    /// The presses waiting in the queue, front first.
    pub closed spec fn view(&self) -> Seq<PressEvent> {
        queued(self.queue)
    }

    /// A handler with an empty queue.
    pub fn new() -> (h: KeypressHandler)
        ensures
            h.view() == Seq::<PressEvent>::empty(),
    {
        KeypressHandler { queue: queue_new() }
    }

    /// The number of presses waiting in the queue.
    pub fn queue_len(&self) -> (n: usize)
        ensures
            n == self.view().len(),
            n <= QUEUE_CAP,
    {
        queue_len(&self.queue)
    }

    /// The press at position `i` of the queue.
    fn get(&self, i: usize) -> (e: PressEvent)
        requires
            i < self.view().len(),
        ensures
            e == self.view()[i as int],
    {
        let (a, b) = queue_as_slices(&self.queue);
        if i < a.len() {
            a[i]
        } else {
            b[i - a.len()]
        }
    }

    /// The position of the first queued press that came from switch `index` of `half`.
    fn position_of(&self, half: Half, index: usize) -> (r: Option<usize>)
        ensures
            r matches Some(p) ==> find_press(self.view(), half, index, 0) == Some(p as int),
            r is None ==> find_press(self.view(), half, index, 0) is None,
            r matches Some(p) ==> p < self.view().len() && p < QUEUE_CAP,
    {
        let n = queue_len(&self.queue);
        let mut i: usize = 0;
        while i < n
            invariant
                n == self.view().len(),
                n <= QUEUE_CAP,
                i <= n,
                find_press(self.view(), half, index, 0) == find_press(
                    self.view(),
                    half,
                    index,
                    i as int,
                ),
            decreases n - i,
        {
            let e = self.get(i);
            if e.source_half == half && e.source_button == index {
                return Some(i);
            }
            i = i + 1;
        }
        None
    }

    /// Whether the first queued press with switch index `index` came from `half`.
    fn queued_twice(&self, half: Half, index: usize) -> (r: bool)
        ensures
            r == is_queued_twice(self.view(), half, index),
    {
        let n = queue_len(&self.queue);
        let mut i: usize = 0;
        while i < n
            invariant
                n == self.view().len(),
                i <= n,
                find_switch_index(self.view(), index, 0) == find_switch_index(
                    self.view(),
                    index,
                    i as int,
                ),
            decreases n - i,
        {
            let e = self.get(i);
            if e.source_button == index {
                return e.source_half == half;
            }
            i = i + 1;
        }
        false
    }

    /// Adds the press of `button` by `event` to the queue, unless it is already queued or the
    /// queue is full.
    fn insert(&mut self, event: &switch::Event, button: Button, now: u64)
        ensures
            final(self).view() == spec_insert(old(self).view(), *event, button, now),
    {
        if self.queued_twice(event.source, event.source_button) {
            // the press was added to the queue twice; keep the first one
        } else {
            let press = PressEvent {
                source_half: event.source,
                source_button: event.source_button,
                button,
                time: now,
            };
            let _ = queue_push_back(&mut self.queue, press);
        }
    }

    /// Removes the first `n` presses from the queue and appends the events of pressing them
    /// to `out`.
    fn press_front(&mut self, n: usize, out: &mut Vec<button::Event>)
        requires
            n <= old(self).view().len(),
        ensures
            final(self).view() == old(self).view().skip(n as int),
            final(out)@ == old(out)@ + presses(old(self).view().take(n as int)),
    {
        let ghost items = self.view();
        let mut i: usize = 0;
        while i < n
            invariant
                i <= n,
                n <= items.len(),
                self.view() == items.skip(i as int),
                out@ == old(out)@ + presses(items.take(i as int)),
            decreases n - i,
        {
            let e = queue_pop_front(&mut self.queue);
            let e = e.unwrap();
            proof {
                lemma_presses_take_step(items, i as int);
                assert(items.skip(i as int).drop_first() =~= items.skip(i + 1));
            }
            push_opt(out, press_event(&e.button));
            i = i + 1;
        }
    }

    /// Drops the presses at the front of the queue that are not `ModTap`s, and returns when
    /// the `ModTap` now at the front will have been held long enough to act as its modifier.
    /// `None` when the queue is empty: then no timeout is pending.
    pub fn prepare_timeout(&mut self) -> (r: Option<u64>)
        ensures
            final(self).view() == settle(old(self).view()),
            r == (if settle(old(self).view()).len() == 0 {
                None::<u64>
            } else {
                Some(spec_deadline(settle(old(self).view())[0].time))
            }),
    {
        loop
            invariant
                settle(self.view()) == settle(old(self).view()),
            decreases self.view().len(),
        {
            let n = queue_len(&self.queue);
            if n == 0 {
                return None;
            }
            let front = self.get(0);
            if let Button::ModTap(..) = front.button {
                return Some(front.time.saturating_add(MOD_TAP_TIME_MS));
            }
            // the first element in the queue wasn't a modtap; drop it
            let _ = queue_pop_front(&mut self.queue);
        }
    }

    /// The front `ModTap` has been held long enough: it acts as its modifier, and so does
    /// every press behind it up to the next `ModTap`, which stays queued. Returns the events
    /// to send.
    pub fn on_timeout(&mut self) -> (out: Vec<button::Event>)
        ensures
            final(self).view() == timeout_step(old(self).view()).0,
            out@ == timeout_step(old(self).view()).1,
    {
        let mut out: Vec<button::Event> = Vec::new();
        let _ = queue_len(&self.queue);
        let first = match queue_pop_front(&mut self.queue) {
            Some(e) => e,
            None => {
                return out;
            },
        };
        if let Button::ModTap(..) = first.button {
        } else {
            // the first element in the queue wasn't a modtap
            return out;
        }
        push_opt(&mut out, press_event(&first.button));
        let ghost rest = self.view();
        let ghost out0 = out@;
        let mut popped: usize = 0;
        loop
            invariant
                old(self).view().len() > 0,
                is_mod_tap(old(self).view()[0].button),
                rest == old(self).view().drop_first(),
                out0 == opt_seq(spec_press_event(old(self).view()[0].button)),
                rest.len() < QUEUE_CAP,
                popped <= rest.len(),
                self.view() == rest.skip(popped as int),
                next_mod_tap(rest, 0) == next_mod_tap(rest, popped as int),
                out@ == out0 + presses(rest.take(popped as int)),
            decreases rest.len() - popped,
        {
            let e = match queue_pop_front(&mut self.queue) {
                Some(e) => e,
                None => {
                    assert(rest.skip(popped as int).len() == 0);
                    assert(popped == rest.len());
                    assert(next_mod_tap(rest, popped as int) == rest.len());
                    assert(rest.take(popped as int) =~= rest.take(next_mod_tap(rest, 0)));
                    assert(rest.skip(next_mod_tap(rest, 0)) =~= self.view());
                    return out;
                },
            };
            if let Button::ModTap(..) = e.button {
                // resolve events until we encounter another ModTap; put it back and stop
                assert(e == rest[popped as int]);
                assert(next_mod_tap(rest, popped as int) == popped);
                let _ = queue_push_front(&mut self.queue, e);
                assert(seq![e] + rest.skip(popped as int).drop_first() =~= rest.skip(
                    popped as int,
                ));
                return out;
            }
            proof {
                lemma_presses_take_step(rest, popped as int);
                assert(rest.skip(popped as int).drop_first() =~= rest.skip(popped + 1));
            }
            push_opt(&mut out, press_event(&e.button));
            popped = popped + 1;
        }
    }

    /// Handles a switch event that happened at time `now`. Returns the events to send.
    pub fn on_switch_event(&mut self, event: switch::Event, now: u64) -> (out: Vec<button::Event>)
        ensures
            final(self).view() == switch_step(old(self).view(), event, now).0,
            out@ == switch_step(old(self).view(), event, now).1,
    {
        let mut out: Vec<button::Event> = Vec::new();
        match event.kind {
            switch::EventKind::Press { button } => {
                match button {
                    Button::ModTap(..) => {
                        self.insert(&event, button, now);
                    },
                    Button::Mod(..) | Button::Key(..) => {
                        if queue_len(&self.queue) == 0 {
                            push_opt(&mut out, press_event(&button));
                        } else {
                            self.insert(&event, button, now);
                        }
                    },
                    Button::Compose2(..) | Button::Compose3(..) => {
                        if queue_len(&self.queue) == 0 {
                            // composing right away is not supported yet
                        } else {
                            self.insert(&event, button, now);
                        }
                    },
                    _ => {},
                }
            },
            switch::EventKind::Release { button, .. } => {
                let position = self.position_of(event.source, event.source_button);
                match button {
                    Button::ModTap(k, _) => {
                        match position {
                            Some(p) => {
                                // the modtap was still queued, so it is a tap: earlier
                                // presses resolve first, then the modtap's key is tapped
                                let ghost items = self.view();
                                self.press_front(p, &mut out);
                                let _ = queue_pop_front(&mut self.queue);
                                assert(items.skip(p as int).drop_first() =~= items.skip(p + 1));
                                let ghost out1 = out@;
                                out.push(button::Event::PressKey(k));
                                out.push(button::Event::ReleaseKey(k));
                                assert(out@ =~= out1 + seq![
                                    button::Event::PressKey(k),
                                    button::Event::ReleaseKey(k),
                                ]);
                            },
                            None => {
                                // already resolved as a mod
                                push_opt(&mut out, release_event(&button));
                            },
                        }
                    },
                    Button::Mod(..) | Button::Key(..) => {
                        if let Some(p) = position {
                            self.press_front(p + 1, &mut out);
                        }
                        push_opt(&mut out, release_event(&button));
                    },
                    _ => {},
                }
            },
        }
        out
    }
}

} // verus!

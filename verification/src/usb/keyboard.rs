//! The USB HID keyboard: turning button events into keyboard reports.
//!
//! Two reports are kept: the one the host is sent, and the key presses that the host has not
//! been sent yet. A release of a key (or modifier) whose press has not been sent yet must
//! wait until the next report has gone out, or the host would never see the press.

use vstd::prelude::*;

use crate::event::button;

pub mod report;

use crate::button::Modifier;
use crate::keys::Key;
use report::{
    law_key_press_release, law_modifier_press_release, code_pressed, modifier_set, spec_empty_report, spec_set_key_codes, spec_set_modifier_byte,
    KeyboardReport, KEYCODE_BYTES,
};

verus! {

/// The reports kept by the keyboard.
pub struct Reports {
    /// The report to be sent to the host machine.
    pub actual: KeyboardReport,
    /// Key presses which hasn't been sent yet.
    pub unsent: KeyboardReport,
}

/// What the task that feeds button events into the reports does next.
#[derive(Clone, Copy, Debug, PartialEq, Eq, Structural)]
pub enum ReportUpdate {
    /// The event was applied; go on with the next event.
    Applied,
    /// The event must wait: once the next report has been sent, apply the same event again.
    RetryAfterReport,
    /// Wait until the next report has been sent, then go on with the next event.
    WaitForReport,
}

/// The modifier byte and keycode bitmap of the report to send, then those of the presses
/// not sent yet.
pub type ReportsView = (u8, Seq<u8>, u8, Seq<u8>);

/// An empty keycode bitmap.
pub open spec fn no_codes() -> Seq<u8> {
    Seq::new(KEYCODE_BYTES as nat, |i: int| 0u8)
}

/// The reports and the decision after applying `event`.
pub open spec fn spec_apply(v: ReportsView, event: button::Event) -> (ReportsView, ReportUpdate) {
    let (am, ac, um, uc) = v;
    match event {
        button::Event::PressKey(k) => (
            (am, spec_set_key_codes(ac, k, true), um, spec_set_key_codes(uc, k, true)),
            ReportUpdate::Applied,
        ),
        button::Event::PressMod(m) => (
            (spec_set_modifier_byte(am, m, true), ac, spec_set_modifier_byte(um, m, true), uc),
            ReportUpdate::Applied,
        ),
        button::Event::ReleaseKey(k) => if code_pressed(uc, k.spec_code()) {
            (v, ReportUpdate::RetryAfterReport)
        } else {
            ((am, spec_set_key_codes(ac, k, false), um, uc), ReportUpdate::Applied)
        },
        button::Event::ReleaseMod(m) => if modifier_set(um, m) {
            (v, ReportUpdate::RetryAfterReport)
        } else {
            ((spec_set_modifier_byte(am, m, false), ac, um, uc), ReportUpdate::Applied)
        },
        button::Event::Wait => (v, ReportUpdate::WaitForReport),
    }
}

/// The reports after sending one, and the modifier byte and bitmap of the report sent.
pub open spec fn spec_take(v: ReportsView) -> (ReportsView, (u8, Seq<u8>)) {
    ((v.0, v.1, 0u8, no_codes()), (v.0, v.1))
}

/// A key press is never lost: right after a press, the release of the same key waits (and
/// changes nothing) until a report has been taken; that report shows the key pressed; after
/// it, the release applies and the key is no longer pressed.
pub proof fn law_press_is_sent_before_release(v: ReportsView, k: Key)
    requires
        v.1.len() == KEYCODE_BYTES,
        v.3.len() == KEYCODE_BYTES,
    ensures
        ({
            let (v1, u1) = spec_apply(v, button::Event::PressKey(k));
            let (v2, u2) = spec_apply(v1, button::Event::ReleaseKey(k));
            let (v3, sent) = spec_take(v1);
            let (v4, u4) = spec_apply(v3, button::Event::ReleaseKey(k));
            &&& u1 == ReportUpdate::Applied
            &&& u2 == ReportUpdate::RetryAfterReport
            &&& v2 == v1
            &&& code_pressed(sent.1, k.spec_code())
            &&& u4 == ReportUpdate::Applied
            &&& !code_pressed(v4.1, k.spec_code())
        }),
{
    law_key_press_release(v.1, k, k, true);
    law_key_press_release(v.3, k, k, true);
    let v1 = spec_apply(v, button::Event::PressKey(k)).0;
    law_key_press_release(v1.1, k, k, false);
    lemma_no_codes(k.spec_code());
}

/// The same for modifiers: a modifier press always shows in a report before its release.
pub proof fn law_modifier_is_sent_before_release(v: ReportsView, m: Modifier)
    ensures
        ({
            let (v1, u1) = spec_apply(v, button::Event::PressMod(m));
            let (v2, u2) = spec_apply(v1, button::Event::ReleaseMod(m));
            let (v3, sent) = spec_take(v1);
            let (v4, u4) = spec_apply(v3, button::Event::ReleaseMod(m));
            &&& u1 == ReportUpdate::Applied
            &&& u2 == ReportUpdate::RetryAfterReport
            &&& v2 == v1
            &&& modifier_set(sent.0, m)
            &&& u4 == ReportUpdate::Applied
            &&& !modifier_set(v4.0, m)
        }),
{
    law_modifier_press_release(v.0, m, m, true);
    law_modifier_press_release(v.2, m, m, true);
    let v1 = spec_apply(v, button::Event::PressMod(m)).0;
    law_modifier_press_release(v1.0, m, m, false);
    assert(0u8 & m.spec_bits() == 0u8) by (bit_vector);
}

/// Every button event changes exactly what it names and nothing else:
/// - a key press marks that key pressed in both reports, and every other code keeps its mark;
/// - a key release whose press has been sent unmarks that key in the report to send only,
///   and every other code keeps its mark; one whose press is still unsent waits and changes
///   nothing;
/// - the same for modifiers, whose marks are bits of the modifier byte;
/// - the modifier byte is untouched by keys, the keycodes by modifiers, and a wait changes
///   nothing.
pub proof fn law_event_changes_only_its_button(v: ReportsView, e: button::Event)
    requires
        v.1.len() == KEYCODE_BYTES,
        v.3.len() == KEYCODE_BYTES,
    ensures
        ({
            let (w, u) = spec_apply(v, e);
            &&& w.1.len() == KEYCODE_BYTES
            &&& w.3.len() == KEYCODE_BYTES
            &&& u != ReportUpdate::Applied ==> w == v
            &&& match e {
                button::Event::PressKey(k) => {
                    &&& u == ReportUpdate::Applied
                    &&& w.0 == v.0 && w.2 == v.2
                    &&& forall|c: u8| #[trigger] code_pressed(w.1, c) == (c == k.spec_code() || code_pressed(v.1, c))
                    &&& forall|c: u8| #[trigger] code_pressed(w.3, c) == (c == k.spec_code() || code_pressed(v.3, c))
                },
                button::Event::ReleaseKey(k) => {
                    &&& (u == ReportUpdate::Applied <==> !code_pressed(v.3, k.spec_code()))
                    &&& u != ReportUpdate::Applied ==> u == ReportUpdate::RetryAfterReport
                    &&& u == ReportUpdate::Applied ==> {
                        &&& w.0 == v.0 && w.2 == v.2 && w.3 == v.3
                        &&& forall|c: u8| #[trigger] code_pressed(w.1, c) == (c != k.spec_code() && code_pressed(v.1, c))
                    }
                },
                button::Event::PressMod(m) => {
                    &&& u == ReportUpdate::Applied
                    &&& w.1 == v.1 && w.3 == v.3
                    &&& forall|m2: Modifier| #[trigger] modifier_set(w.0, m2) == (m2 == m || modifier_set(v.0, m2))
                    &&& forall|m2: Modifier| #[trigger] modifier_set(w.2, m2) == (m2 == m || modifier_set(v.2, m2))
                },
                button::Event::ReleaseMod(m) => {
                    &&& (u == ReportUpdate::Applied <==> !modifier_set(v.2, m))
                    &&& u != ReportUpdate::Applied ==> u == ReportUpdate::RetryAfterReport
                    &&& u == ReportUpdate::Applied ==> {
                        &&& w.1 == v.1 && w.2 == v.2 && w.3 == v.3
                        &&& forall|m2: Modifier| #[trigger] modifier_set(w.0, m2) == (m2 != m && modifier_set(v.0, m2))
                    }
                },
                button::Event::Wait => u == ReportUpdate::WaitForReport,
            }
        }),
{
    let (w, u) = spec_apply(v, e);
    match e {
        button::Event::PressKey(k) => {
            assert forall|c: u8| #[trigger] code_pressed(w.1, c) == (c == k.spec_code() || code_pressed(v.1, c)) by {
                report::lemma_set_key_codes(v.1, k, true, c);
            }
            assert forall|c: u8| #[trigger] code_pressed(w.3, c) == (c == k.spec_code() || code_pressed(v.3, c)) by {
                report::lemma_set_key_codes(v.3, k, true, c);
            }
        },
        button::Event::ReleaseKey(k) => {
            assert forall|c: u8| u == ReportUpdate::Applied implies #[trigger] code_pressed(w.1, c) == (c != k.spec_code() && code_pressed(v.1, c)) by {
                report::lemma_set_key_codes(v.1, k, false, c);
            }
        },
        button::Event::PressMod(m) => {
            assert forall|m2: Modifier| #[trigger] modifier_set(w.0, m2) == (m2 == m || modifier_set(v.0, m2)) by {
                report::lemma_set_modifier_byte(v.0, m, true, m2);
            }
            assert forall|m2: Modifier| #[trigger] modifier_set(w.2, m2) == (m2 == m || modifier_set(v.2, m2)) by {
                report::lemma_set_modifier_byte(v.2, m, true, m2);
            }
        },
        button::Event::ReleaseMod(m) => {
            assert forall|m2: Modifier| u == ReportUpdate::Applied implies #[trigger] modifier_set(w.0, m2) == (m2 != m && modifier_set(v.0, m2)) by {
                report::lemma_set_modifier_byte(v.0, m, false, m2);
            }
        },
        button::Event::Wait => {},
    }
}

proof fn lemma_no_codes(c: u8)
    ensures
        !code_pressed(no_codes(), c),
{
    if (c / 8) < KEYCODE_BYTES {
        let i = c % 8;
        assert((0u8 >> i) & 1u8 == 0u8) by (bit_vector);
    }
}

impl Reports {
    /// The modifier byte and bitmap of the report to send, then those of the presses not
    /// sent yet.
    pub open spec fn view(&self) -> ReportsView {
        (self.actual.modifier, self.actual.keycodes@, self.unsent.modifier, self.unsent.keycodes@)
    }

    /// Both reports empty.
    pub fn new() -> (r: Reports)
        ensures
            r.actual == spec_empty_report(),
            r.unsent == spec_empty_report(),
    {
        Reports { actual: KeyboardReport::empty(), unsent: KeyboardReport::empty() }
    }

    /// The reports are well formed: both keycode bitmaps have their full size.
    pub open spec fn wf(&self) -> bool {
        &&& self.actual.keycodes@.len() == KEYCODE_BYTES
        &&& self.unsent.keycodes@.len() == KEYCODE_BYTES
    }

    /// Applies a button event to the reports, or says that it must wait for the next report.
    pub fn apply(&mut self, event: button::Event) -> (u: ReportUpdate)
        ensures
            final(self)@ == spec_apply(old(self)@, event).0,
            u == spec_apply(old(self)@, event).1,
    {
        match event {
            button::Event::PressKey(k) => {
                self.actual.press_key(k);
                self.unsent.press_key(k);
                ReportUpdate::Applied
            },
            button::Event::PressMod(m) => {
                self.actual.press_modifier(m);
                self.unsent.press_modifier(m);
                ReportUpdate::Applied
            },
            button::Event::ReleaseKey(k) => {
                // we got a key release, but if the key press hasn't been sent yet, we
                // wait for a bit until it has.
                if self.unsent.key_pressed(k) {
                    ReportUpdate::RetryAfterReport
                } else {
                    self.actual.release_key(k);
                    ReportUpdate::Applied
                }
            },
            button::Event::ReleaseMod(m) => {
                if self.unsent.modifier_pressed(m) {
                    ReportUpdate::RetryAfterReport
                } else {
                    self.actual.release_modifier(m);
                    ReportUpdate::Applied
                }
            },
            button::Event::Wait => ReportUpdate::WaitForReport,
        }
    }

    /// The report to send now. Every press is then counted as sent.
    pub fn take_report(&mut self) -> (r: KeyboardReport)
        ensures
            r == old(self).actual,
            final(self).actual == old(self).actual,
            final(self).unsent == spec_empty_report(),
            final(self)@ == spec_take(old(self)@).0,
            (r.modifier, r.keycodes@) == spec_take(old(self)@).1,
    {
        self.unsent = KeyboardReport::empty();
        self.actual
    }
}

} // verus!

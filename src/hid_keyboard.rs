//! The keystroke sequencer: it turns text into press and release reports and
//! decides, one step at a time, what the USB side must do next.
//!
//! The sequencer does no I/O itself. Its owner asks `next_action` what to do
//! (write a report, wait, or stop), does it, and tells the sequencer what
//! happened through `record`.
use vstd::prelude::*;
use crate::layout::{char_to_hid, hid_of};
use crate::report::{HidReport, press_bytes, release_bytes};

verus! {

broadcast use vstd::string::group_string_axioms;

/// Pause after each key release, in milliseconds.
pub const KEY_DELAY_MS: u64 = 10;

/// Why sending text failed.
#[derive(Clone, Copy, Debug, PartialEq, Eq, Structural)]
pub enum SendError {
    /// The report endpoint refused a write; the rest of the text was dropped.
    Transport,
    /// There is no keyboard interface to send through.
    NoDeviceAttached,
}

/// Where the sequencer stands in the current text.
#[derive(Clone, Copy, Debug, PartialEq, Eq, Structural)]
pub enum Phase {
    /// The next report is due to be written.
    Typing,
    /// A key was pressed and released; the inter-key pause is due.
    Pausing,
    /// Every report of the text was written.
    Finished,
    /// A write failed; nothing more is sent.
    Failed,
}

/// What the owner of the report endpoint must do next.
#[derive(Clone, Copy, Debug, PartialEq, Eq)]
pub enum Action {
    /// Write this report to the endpoint.
    Write(HidReport),
    /// Wait this many milliseconds.
    Pause(u64),
    /// Stop: the text was sent, or the send failed.
    Done(Result<(), SendError>),
}

/// What happened when the owner carried out an action.
#[derive(Clone, Copy, Debug, PartialEq, Eq, Structural)]
pub enum Event {
    /// The report was written.
    Written,
    /// The endpoint refused the report.
    WriteFailed,
    /// The pause is over.
    Elapsed,
}

/// The keystrokes that type `text`: the mapping of each supported character,
/// in order; unsupported characters are left out.
pub open spec fn strokes_of(text: Seq<char>) -> Seq<(u8, u8)>
    decreases text.len(),
{
    if text.len() == 0 {
        seq![]
    } else {
        let rest = strokes_of(text.drop_last());
        match hid_of(text.last()) {
            Some(k) => rest.push(k),
            None => rest,
        }
    }
}

/// Report number `i` of a run of keystrokes: each keystroke is a press report
/// followed by a release report.
pub open spec fn report_at(strokes: Seq<(u8, u8)>, i: int) -> Seq<u8> {
    if i % 2 == 0 {
        press_bytes(strokes[i / 2].0, strokes[i / 2].1)
    } else {
        release_bytes()
    }
}

/// Every report that typing `text` writes, in order.
pub open spec fn reports_of(text: Seq<char>) -> Seq<Seq<u8>> {
    let s = strokes_of(text);
    Seq::new(2 * s.len(), |i: int| report_at(s, i))
}

/// The abstract state of a sequencer.
pub struct KeyboardView {
    /// Keystrokes of the current text.
    pub strokes: Seq<(u8, u8)>,
    /// Number of reports written so far.
    pub sent: nat,
    pub phase: Phase,
}

impl KeyboardView {
    /// The reports written stay within the text; typing is due only while
    /// reports remain; a pause follows each release; a finished send wrote
    /// every report.
    pub open spec fn wf(self) -> bool {
        &&& self.sent <= 2 * self.strokes.len()
        &&& self.phase == Phase::Typing ==> self.sent < 2 * self.strokes.len()
        &&& self.phase == Phase::Pausing ==> self.sent > 0 && self.sent % 2 == 0
        &&& self.phase == Phase::Finished ==> self.sent == 2 * self.strokes.len()
    }

    /// The state right after `text` was handed over.
    pub open spec fn start(text: Seq<char>) -> KeyboardView {
        KeyboardView {
            strokes: strokes_of(text),
            sent: 0,
            phase: if strokes_of(text).len() == 0 { Phase::Finished } else { Phase::Typing },
        }
    }

    /// Whether `a` is the action due in this state.
    pub open spec fn is_due(self, a: Action) -> bool {
        match self.phase {
            Phase::Typing => a matches Action::Write(rep) && rep.bytes@ == report_at(
                self.strokes,
                self.sent as int,
            ),
            Phase::Pausing => a == Action::Pause(KEY_DELAY_MS),
            Phase::Finished => a == Action::Done(Ok(())),
            Phase::Failed => a == Action::Done(Err(SendError::Transport)),
        }
    }

    /// The state after `ev` was reported; an event that does not answer the
    /// due action changes nothing.
    pub open spec fn after(self, ev: Event) -> KeyboardView {
        if self.phase == Phase::Typing && ev == Event::Written {
            KeyboardView {
                strokes: self.strokes,
                sent: self.sent + 1,
                phase: if (self.sent + 1) % 2 == 0 { Phase::Pausing } else { Phase::Typing },
            }
        } else if self.phase == Phase::Typing && ev == Event::WriteFailed {
            KeyboardView { strokes: self.strokes, sent: self.sent, phase: Phase::Failed }
        } else if self.phase == Phase::Pausing && ev == Event::Elapsed {
            KeyboardView {
                strokes: self.strokes,
                sent: self.sent,
                phase: if self.sent == 2 * self.strokes.len() {
                    Phase::Finished
                } else {
                    Phase::Typing
                },
            }
        } else {
            self
        }
    }
}

/// The event that answers the due action when every write succeeds.
pub open spec fn success_event(v: KeyboardView) -> Event {
    if v.phase == Phase::Pausing {
        Event::Elapsed
    } else {
        Event::Written
    }
}

/// The state after `n` steps in which every write succeeds.
pub open spec fn state_after(v: KeyboardView, n: nat) -> KeyboardView
    decreases n,
{
    if n == 0 {
        v
    } else {
        state_after(v.after(success_event(v)), (n - 1) as nat)
    }
}

/// The reports written in `n` steps in which every write succeeds.
pub open spec fn written_in(v: KeyboardView, n: nat) -> Seq<Seq<u8>>
    decreases n,
{
    if n == 0 {
        seq![]
    } else {
        let head = if v.phase == Phase::Typing {
            seq![report_at(v.strokes, v.sent as int)]
        } else {
            seq![]
        };
        head + written_in(v.after(success_event(v)), (n - 1) as nat)
    }
}

proof fn lemma_run_from(v: KeyboardView)
    requires
        v.wf(),
        v.sent % 2 == 0,
        v.phase == Phase::Typing || v.phase == Phase::Finished,
    ensures
        ({
            let k = (v.strokes.len() - v.sent / 2) as nat;
            &&& written_in(v, 3 * k) =~= Seq::new(
                2 * k,
                |i: int| report_at(v.strokes, v.sent + i),
            )
            &&& state_after(v, 3 * k).phase == Phase::Finished
        }),
    decreases v.strokes.len() - v.sent / 2,
{
    let k = (v.strokes.len() - v.sent / 2) as nat;
    if k > 0 {
        let v1 = v.after(Event::Written);
        let v2 = v1.after(Event::Written);
        let v3 = v2.after(Event::Elapsed);
        lemma_run_from(v3);
        assert(written_in(v, 3 * k) == seq![report_at(v.strokes, v.sent as int)] + written_in(
            v1,
            (3 * k - 1) as nat,
        ));
        assert(written_in(v1, (3 * k - 1) as nat) == seq![report_at(v.strokes, v.sent + 1int)]
            + written_in(v2, (3 * k - 2) as nat));
        assert(written_in(v2, (3 * k - 2) as nat) =~= written_in(v3, (3 * (k - 1)) as nat));
        assert(state_after(v, 3 * k) == state_after(v1, (3 * k - 1) as nat));
        assert(state_after(v1, (3 * k - 1) as nat) == state_after(v2, (3 * k - 2) as nat));
        assert(state_after(v2, (3 * k - 2) as nat) == state_after(v3, (3 * (k - 1)) as nat));
    }
}

/// A text whose every write succeeds is typed as exactly its reports, a
/// press and a release for each supported character in order, and then
/// the send finishes: three steps per keystroke, the last one a pause.
pub proof fn lemma_clean_run(text: Seq<char>)
    ensures
        written_in(KeyboardView::start(text), 3 * strokes_of(text).len()) == reports_of(text),
        state_after(KeyboardView::start(text), 3 * strokes_of(text).len()).phase
            == Phase::Finished,
{
    lemma_run_from(KeyboardView::start(text));
    assert(written_in(KeyboardView::start(text), 3 * strokes_of(text).len()) =~= reports_of(
        text,
    ));
}

/// Once a write has failed the send stays failed, whatever is reported
/// after, and the due action is the transport error: nothing more is written.
pub proof fn lemma_failure_is_final(v: KeyboardView, ev: Event)
    requires
        v.phase == Phase::Failed,
    ensures
        v.after(ev) == v,
        v.is_due(Action::Done(Err(SendError::Transport))),
{
}

/// The keyboard's sequencer: it holds the keystrokes of the text being typed
/// and how far the typing has got.
pub struct HidKeyboard {
    strokes: Vec<(u8, u8)>,
    /// Index of the keystroke under way.
    next: usize,
    /// Whether that keystroke's press was written and its release was not.
    held: bool,
    phase: Phase,
}

impl View for HidKeyboard {
    type V = KeyboardView;

    closed spec fn view(&self) -> KeyboardView {
        KeyboardView {
            strokes: self.strokes@,
            sent: 2 * self.next as nat + if self.held { 1nat } else { 0nat },
            phase: self.phase,
        }
    }
}

impl HidKeyboard {
    /// A keyboard with nothing to type.
    pub fn new() -> (r: HidKeyboard)
        ensures
            r@ == KeyboardView::start(Seq::empty()),
            r@.wf(),
    {
        HidKeyboard { strokes: Vec::new(), next: 0, held: false, phase: Phase::Finished }
    }

    /// Hands over `text` to be typed, dropping whatever was left of the
    /// previous text. Characters without a key are skipped.
    pub fn send_string(&mut self, text: &str)
        ensures
            final(self)@ == KeyboardView::start(text@),
            final(self)@.wf(),
    {
        let mut strokes: Vec<(u8, u8)> = Vec::new();
        for c in it: text.chars()
            invariant
                it.seq() == text@,
                strokes@ == strokes_of(text@.take(it.index() as int)),
        {
            assert(text@.take(it.index() + 1).drop_last() == text@.take(it.index() as int));
            if let Some(k) = char_to_hid(c) {
                strokes.push(k);
            }
        }
        assert(text@.take(text@.len() as int) == text@);
        let empty = strokes.len() == 0;
        self.strokes = strokes;
        self.next = 0;
        self.held = false;
        self.phase = if empty { Phase::Finished } else { Phase::Typing };
    }

    /// The action due now: the next report while typing, the inter-key pause
    /// after each release, and the outcome once the text is done or a write
    /// failed.
    pub fn next_action(&self) -> (a: Action)
        requires
            self@.wf(),
        ensures
            self@.is_due(a),
    {
        match self.phase {
            Phase::Typing => {
                if !self.held {
                    let (modifier, keycode) = self.strokes[self.next];
                    Action::Write(HidReport::press(modifier, keycode))
                } else {
                    Action::Write(HidReport::release())
                }
            },
            Phase::Pausing => Action::Pause(KEY_DELAY_MS),
            Phase::Finished => Action::Done(Ok(())),
            Phase::Failed => Action::Done(Err(SendError::Transport)),
        }
    }

    /// Takes note of what happened to the due action.
    pub fn record(&mut self, ev: Event)
        requires
            old(self)@.wf(),
        ensures
            final(self)@ == old(self)@.after(ev),
            final(self)@.wf(),
    {
        match (self.phase, ev) {
            (Phase::Typing, Event::Written) => {
                if self.held {
                    assert(self.next < self.strokes.len());
                    self.held = false;
                    self.next = self.next + 1;
                    self.phase = Phase::Pausing;
                } else {
                    self.held = true;
                }
            },
            (Phase::Typing, Event::WriteFailed) => {
                self.phase = Phase::Failed;
            },
            (Phase::Pausing, Event::Elapsed) => {
                if self.next == self.strokes.len() {
                    self.phase = Phase::Finished;
                } else {
                    self.phase = Phase::Typing;
                }
            },
            _ => {},
        }
    }

    /// The release report still owed to the host: a key was pressed and its
    /// release was not written. Whoever abandons a send writes it, so that no
    /// key stays held down.
    pub fn pending_release(&self) -> (r: Option<HidReport>)
        requires
            self@.wf(),
        ensures
            r is Some <==> self@.sent % 2 == 1,
            r matches Some(rep) ==> rep.bytes@ == release_bytes(),
    {
        if self.held {
            Some(HidReport::release())
        } else {
            None
        }
    }
}

} // verus!

//! Text capture planning. Selection capture works through the clipboard side
//! channel: synthesize a copy keystroke, wait a settle interval, read the
//! clipboard; apply writes the clipboard and synthesizes a paste. The plans
//! below fix the exact event sequences; the host performs them. Because the
//! hotkey's own modifiers may still be logically down when the handler runs,
//! every combo releases Shift and Alt before any other event — a correctness
//! requirement, not a style choice.

use vstd::prelude::*;

verus! {

/// The keys that capture and apply synthesize.
#[derive(Clone, Copy, PartialEq, Eq, Structural, Debug)]
pub enum VirtualKey {
    Shift,
    Alt,
    Ctrl,
    KeyC,
    KeyV,
}

/// One synthesized keyboard event: a press or a release of a key.
#[derive(Clone, Copy, PartialEq, Eq, Structural, Debug)]
pub struct KeyEvent {
    pub key: VirtualKey,
    pub release: bool,
}

/// The event sequence that synthesizes Ctrl+`key`: first release Shift and
/// Alt, so a hotkey's lingering modifiers cannot corrupt the combo into a
/// different shortcut, then Ctrl down, key down, key up, Ctrl up.
pub open spec fn spec_combo_events(key: VirtualKey) -> Seq<KeyEvent> {
    seq![
        KeyEvent { key: VirtualKey::Shift, release: true },
        KeyEvent { key: VirtualKey::Alt, release: true },
        KeyEvent { key: VirtualKey::Ctrl, release: false },
        KeyEvent { key, release: false },
        KeyEvent { key, release: true },
        KeyEvent { key: VirtualKey::Ctrl, release: true },
    ]
}

/// Builds the synthetic event sequence for Ctrl+`key`.
pub fn combo_events(key: VirtualKey) -> (r: Vec<KeyEvent>)
    ensures
        r@ == spec_combo_events(key),
{
    let mut r: Vec<KeyEvent> = Vec::new();
    r.push(KeyEvent { key: VirtualKey::Shift, release: true });
    r.push(KeyEvent { key: VirtualKey::Alt, release: true });
    r.push(KeyEvent { key: VirtualKey::Ctrl, release: false });
    r.push(KeyEvent { key, release: false });
    r.push(KeyEvent { key, release: true });
    r.push(KeyEvent { key: VirtualKey::Ctrl, release: true });
    proof {
        assert(r@ =~= spec_combo_events(key));
    }
    r
}

/// In the combo for any non-modifier key, every release of the hotkey
/// modifiers Shift and Alt comes before every press event: the lingering
/// modifiers are gone before the combo proper begins.
pub proof fn lemma_combo_releases_modifiers_first(key: VirtualKey)
    requires
        !(key is Shift),
        !(key is Alt),
    ensures
        forall|i: int, j: int|
            0 <= i < spec_combo_events(key).len() && 0 <= j < spec_combo_events(key).len()
                && (spec_combo_events(key)[i].key == VirtualKey::Shift || spec_combo_events(
                key,
            )[i].key == VirtualKey::Alt) && spec_combo_events(key)[i].release
                && !spec_combo_events(key)[j].release ==> i < j,
{
    let s = spec_combo_events(key);
    assert forall|i: int, j: int|
        0 <= i < s.len() && 0 <= j < s.len() && (s[i].key == VirtualKey::Shift || s[i].key
            == VirtualKey::Alt) && s[i].release && !s[j].release implies i < j by {
        assert(s[0] == KeyEvent { key: VirtualKey::Shift, release: true });
        assert(s[1] == KeyEvent { key: VirtualKey::Alt, release: true });
        assert(s[2] == KeyEvent { key: VirtualKey::Ctrl, release: false });
        assert(s[3] == KeyEvent { key, release: false });
        assert(s[4] == KeyEvent { key, release: true });
        assert(s[5] == KeyEvent { key: VirtualKey::Ctrl, release: true });
        assert(i == 0 || i == 1);
        assert(j == 2 || j == 3);
    }
}

/// The settle interval, in milliseconds, between the synthesized copy and the
/// clipboard read: the focused application needs time to write the clipboard.
pub const SETTLE_MILLIS: u64 = 100;

/// One host-performed step of a selection capture.
#[derive(Clone, Copy, PartialEq, Eq, Structural, Debug)]
pub enum CaptureStep {
    /// Synthesize the Ctrl combo for this key.
    SendCombo(VirtualKey),
    /// Sleep this many milliseconds.
    SettleWait(u64),
    /// Read the clipboard; its content is the captured selection.
    ReadClipboard,
}

/// The capture plan: copy the selection, let the clipboard settle, read it.
/// Any value then read counts as current — the clipboard is a shared,
/// unlocked resource, and overlapping captures may interleave; that race is
/// tolerated, not prevented.
pub fn capture_plan() -> (r: Vec<CaptureStep>)
    ensures
        r@ == seq![
            CaptureStep::SendCombo(VirtualKey::KeyC),
            CaptureStep::SettleWait(SETTLE_MILLIS),
            CaptureStep::ReadClipboard,
        ],
{
    let mut r: Vec<CaptureStep> = Vec::new();
    r.push(CaptureStep::SendCombo(VirtualKey::KeyC));
    r.push(CaptureStep::SettleWait(SETTLE_MILLIS));
    r.push(CaptureStep::ReadClipboard);
    proof {
        assert(r@ =~= seq![
            CaptureStep::SendCombo(VirtualKey::KeyC),
            CaptureStep::SettleWait(SETTLE_MILLIS),
            CaptureStep::ReadClipboard,
        ]);
    }
    r
}

/// One host-performed step of replacing the selection.
#[derive(Clone, Debug)]
pub enum ApplyStep {
    /// Write this text to the clipboard.
    WriteClipboard(String),
    /// Synthesize the Ctrl combo for this key.
    SendCombo(VirtualKey),
}

/// The apply plan: put the replacement on the clipboard, then paste it over
/// the selection.
pub fn apply_plan(text: String) -> (r: Vec<ApplyStep>)
    ensures
        r@ == seq![ApplyStep::WriteClipboard(text), ApplyStep::SendCombo(VirtualKey::KeyV)],
{
    let mut r: Vec<ApplyStep> = Vec::new();
    r.push(ApplyStep::WriteClipboard(text));
    r.push(ApplyStep::SendCombo(VirtualKey::KeyV));
    proof {
        assert(r@ =~= seq![
            ApplyStep::WriteClipboard(text),
            ApplyStep::SendCombo(VirtualKey::KeyV),
        ]);
    }
    r
}

/// Obtaining and replacing the currently selected text. One implementation
/// per platform; a platform without usable synthetic-input and clipboard
/// primitives degrades to [`FallbackAccessibility`]. Best-effort by design:
/// callers treat a failure as "no text available".
pub trait AccessibilityService {
    /// The text currently selected in the focused application.
    fn get_selected_text(&self) -> Result<String, String>;

    /// Replaces the current selection with `text`.
    fn replace_selected_text(&self, text: &str) -> Result<(), String>;
}

/// The degraded implementation for platforms without capture primitives: a
/// fixed placeholder selection and a no-op apply.
pub struct FallbackAccessibility {
}

impl AccessibilityService for FallbackAccessibility {
    /// Always the fixed placeholder: this platform cannot read a selection.
    fn get_selected_text(&self) -> (r: Result<String, String>)
        ensures
            r matches Ok(s) && s@ == "Selected text (placeholder)"@,
    {
        Ok(String::from_str("Selected text (placeholder)"))
    }

    /// A no-op apply that always succeeds.
    fn replace_selected_text(&self, _text: &str) -> (r: Result<(), String>)
        ensures
            r is Ok,
    {
        Ok(())
    }
}

/// The text the popup opens with for a capture outcome: the captured
/// selection, or empty when capture failed — the user-visible action is never
/// suppressed, it just starts empty.
pub fn text_for_popup(capture: Result<String, String>) -> (r: String)
    ensures
        capture matches Ok(t) ==> r@ == t@,
        capture is Err ==> r@ == Seq::<char>::empty(),
{
    match capture {
        Ok(t) => t,
        Err(_) => String::new(),
    }
}

} // verus!

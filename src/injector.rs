//! Text injection into the focused element, by two strategies: a direct
//! write of the element's selected-text attribute, and a paste through the
//! clipboard whose prior content is restored after a fixed delay.

use vstd::prelude::*;
use crate::focus::AX_SUCCESS;

verus! {

/// The virtual keycode of the "V" key, pressed with the command modifier to
/// paste.
pub const PASTE_KEYCODE: u16 = 9;

/// How long after the paste the clipboard is restored, in milliseconds;
/// longer than a target application takes to handle the paste.
pub const RESTORE_DELAY_MS: u64 = 500;

/// The platform lookup that found no target element.
#[derive(Clone, Copy, Debug, PartialEq, Eq, Structural)]
pub enum TargetLookup {
    /// The system-wide accessibility root could not be created.
    Root,
    /// No element holds the focus.
    FocusedElement,
}

/// The synthetic key event that could not be made.
#[derive(Clone, Copy, Debug, PartialEq, Eq, Structural)]
pub enum SynthesisStage {
    Source,
    KeyDown,
    KeyUp,
}

/// Why an injection failed.
#[derive(Clone, Copy, Debug, PartialEq, Eq, Structural)]
pub enum InjectError {
    NoTarget(TargetLookup),
    UnsupportedTarget,
    ClipboardFailure,
    EventSynthesisFailure(SynthesisStage),
}

impl InjectError {
    pub open spec fn message_spec(self) -> Seq<char> {
        match self {
            InjectError::NoTarget(TargetLookup::Root) => "Failed to create system-wide AXUIElement"@,
            InjectError::NoTarget(TargetLookup::FocusedElement) => "No focused element found"@,
            InjectError::UnsupportedTarget => "Failed to insert text via Accessibility API"@,
            InjectError::ClipboardFailure => "Failed to set clipboard content"@,
            InjectError::EventSynthesisFailure(SynthesisStage::Source) => "Failed to create event source"@,
            InjectError::EventSynthesisFailure(SynthesisStage::KeyDown) => "Failed to create key down event"@,
            InjectError::EventSynthesisFailure(SynthesisStage::KeyUp) => "Failed to create key up event"@,
        }
    }

    /// The message reported to the command caller.
    pub fn message(&self) -> (r: String)
        ensures
            r@ == self.message_spec(),
    {
        match self {
            InjectError::NoTarget(TargetLookup::Root) => "Failed to create system-wide AXUIElement".to_owned(),
            InjectError::NoTarget(TargetLookup::FocusedElement) => "No focused element found".to_owned(),
            InjectError::UnsupportedTarget => "Failed to insert text via Accessibility API".to_owned(),
            InjectError::ClipboardFailure => "Failed to set clipboard content".to_owned(),
            InjectError::EventSynthesisFailure(SynthesisStage::Source) => "Failed to create event source".to_owned(),
            InjectError::EventSynthesisFailure(SynthesisStage::KeyDown) => "Failed to create key down event".to_owned(),
            InjectError::EventSynthesisFailure(SynthesisStage::KeyUp) => "Failed to create key up event".to_owned(),
        }
    }
}

/// What the accessibility tree answered to the request for the focused
/// element.
#[derive(Clone, Copy, Debug, PartialEq, Eq, Structural)]
pub struct TargetProbe {
    pub root_created: bool,
    pub focused_status: i32,
    pub focused_present: bool,
}

pub open spec fn target_result(t: TargetProbe) -> Result<(), InjectError> {
    if !t.root_created {
        Err(InjectError::NoTarget(TargetLookup::Root))
    } else if t.focused_status != AX_SUCCESS || !t.focused_present {
        Err(InjectError::NoTarget(TargetLookup::FocusedElement))
    } else {
        Ok(())
    }
}

/// The outcome of a direct write, given the target lookup and the status of
/// the attribute write (made only when a target was found).
pub open spec fn direct_result(t: TargetProbe, write_status: i32) -> Result<(), InjectError> {
    match target_result(t) {
        Err(e) => Err(e),
        Ok(()) => if write_status == AX_SUCCESS {
            Ok(())
        } else {
            Err(InjectError::UnsupportedTarget)
        },
    }
}

/// Whether the selected-text attribute may be written: a focused element
/// was found.
pub fn find_target(target: &TargetProbe) -> (r: Result<(), InjectError>)
    ensures
        r == target_result(*target),
{
    if !target.root_created {
        return Err(InjectError::NoTarget(TargetLookup::Root));
    }
    if target.focused_status != AX_SUCCESS || !target.focused_present {
        return Err(InjectError::NoTarget(TargetLookup::FocusedElement));
    }
    Ok(())
}

/// The outcome of writing text as the focused element's selected text:
/// `NoTarget` when nothing is focused, `UnsupportedTarget` when the element
/// rejects the write. This strategy never involves the clipboard.
pub fn insert_text(target: &TargetProbe, write_status: i32) -> (r: Result<(), InjectError>)
    ensures
        r == direct_result(*target, write_status),
        r is Ok <==> target_result(*target) is Ok && write_status == AX_SUCCESS,
{
    match find_target(target) {
        Err(e) => Err(e),
        Ok(()) => {
            if write_status == AX_SUCCESS {
                Ok(())
            } else {
                Err(InjectError::UnsupportedTarget)
            }
        },
    }
}

/// A write to the clipboard.
#[derive(Debug)]
pub enum ClipboardOp {
    /// Remove all content.
    Clear,
    /// Declare plain text and set it as the content.
    Write(String),
}

/// The meaning of a `ClipboardOp`.
pub enum ClipboardEdit {
    Clear,
    Write(Seq<char>),
}

impl View for ClipboardOp {
    type V = ClipboardEdit;

    open spec fn view(&self) -> ClipboardEdit {
        match self {
            ClipboardOp::Clear => ClipboardEdit::Clear,
            ClipboardOp::Write(s) => ClipboardEdit::Write(s@),
        }
    }
}

pub open spec fn edits(ops: Seq<ClipboardOp>) -> Seq<ClipboardEdit> {
    ops.map_values(|o: ClipboardOp| o@)
}

/// The text content of the clipboard; `None` when it holds no text, which
/// differs from holding the empty string.
pub open spec fn text_of(c: Option<String>) -> Option<Seq<char>> {
    match c {
        None => None,
        Some(s) => Some(s@),
    }
}

pub open spec fn apply_edit(c: Option<Seq<char>>, e: ClipboardEdit) -> Option<Seq<char>> {
    match e {
        ClipboardEdit::Clear => None,
        ClipboardEdit::Write(s) => Some(s),
    }
}

pub open spec fn apply_edits(c: Option<Seq<char>>, es: Seq<ClipboardEdit>) -> Option<Seq<char>>
    decreases es.len(),
{
    if es.len() == 0 {
        c
    } else {
        apply_edits(apply_edit(c, es[0]), es.drop_first())
    }
}

/// The edits that make `text` the sole content.
pub open spec fn paste_edits(text: Seq<char>) -> Seq<ClipboardEdit> {
    seq![ClipboardEdit::Clear, ClipboardEdit::Write(text)]
}

/// The edits that bring back a snapshot: a clear, then the text if there
/// was any.
pub open spec fn restore_edits(snapshot: Option<Seq<char>>) -> Seq<ClipboardEdit> {
    match snapshot {
        None => seq![ClipboardEdit::Clear],
        Some(s) => seq![ClipboardEdit::Clear, ClipboardEdit::Write(s)],
    }
}

/// A synthetic key event for the system-level event stream.
#[derive(Clone, Copy, Debug, PartialEq, Eq, Structural)]
pub struct KeyStroke {
    pub keycode: u16,
    pub command: bool,
    pub down: bool,
}

/// The deferred restore: after `delay_ms`, run `ops` on the clipboard;
/// failures there are not reported.
pub struct RestoreTask {
    pub delay_ms: u64,
    pub ops: Vec<ClipboardOp>,
}

/// Everything a paste injection hands to the platform, in order: the
/// clipboard writes, the two key events, and the restore task.
pub struct PastePlan {
    pub write: Vec<ClipboardOp>,
    pub key_down: KeyStroke,
    pub key_up: KeyStroke,
    pub restore: RestoreTask,
}

/// The clipboard writes that make `text` its sole content.
pub fn paste_write_ops(text: &String) -> (r: Vec<ClipboardOp>)
    ensures
        edits(r@) == paste_edits(text@),
{
    let r = vec![ClipboardOp::Clear, ClipboardOp::Write(text.clone())];
    assert(edits(r@) =~= paste_edits(text@));
    r
}

/// The clipboard writes that bring back `snapshot`.
pub fn restore_ops(snapshot: Option<String>) -> (r: Vec<ClipboardOp>)
    ensures
        edits(r@) == restore_edits(text_of(snapshot)),
{
    let r = match snapshot {
        None => vec![ClipboardOp::Clear],
        Some(s) => vec![ClipboardOp::Clear, ClipboardOp::Write(s)],
    };
    assert(edits(r@) =~= restore_edits(text_of(snapshot)));
    r
}

/// The plan for pasting `text`, with `snapshot` the clipboard text read
/// just before.
pub fn plan_paste(text: &String, snapshot: Option<String>) -> (r: PastePlan)
    ensures
        edits(r.write@) == paste_edits(text@),
        r.key_down == (KeyStroke { keycode: PASTE_KEYCODE, command: true, down: true }),
        r.key_up == (KeyStroke { keycode: PASTE_KEYCODE, command: true, down: false }),
        r.restore.delay_ms == RESTORE_DELAY_MS,
        edits(r.restore.ops@) == restore_edits(text_of(snapshot)),
{
    PastePlan {
        write: paste_write_ops(text),
        key_down: KeyStroke { keycode: PASTE_KEYCODE, command: true, down: true },
        key_up: KeyStroke { keycode: PASTE_KEYCODE, command: true, down: false },
        restore: RestoreTask { delay_ms: RESTORE_DELAY_MS, ops: restore_ops(snapshot) },
    }
}

/// The outcome of a paste injection once the platform has run the plan's
/// clipboard writes (`clipboard_written`: the text was accepted) and made
/// and posted its key events (`keys`). On success the restore task is
/// handed back to be scheduled; on failure none is.
pub fn insert_text_via_paste(
    plan: PastePlan,
    clipboard_written: bool,
    keys: Result<(), SynthesisStage>,
) -> (r: Result<RestoreTask, InjectError>)
    ensures
        !clipboard_written ==> r matches Err(InjectError::ClipboardFailure),
        clipboard_written ==> match keys {
            Err(stage) => r matches Err(e) && e == InjectError::EventSynthesisFailure(stage),
            Ok(()) => r matches Ok(task) && task == plan.restore,
        },
{
    if !clipboard_written {
        return Err(InjectError::ClipboardFailure);
    }
    match keys {
        Err(stage) => Err(InjectError::EventSynthesisFailure(stage)),
        Ok(()) => Ok(plan.restore),
    }
}

/// Runs `ops`, in order, on a clipboard holding `content`, and returns what
/// it holds afterwards.
pub fn apply_clipboard_ops(content: Option<String>, ops: &Vec<ClipboardOp>) -> (r: Option<String>)
    ensures
        text_of(r) == apply_edits(text_of(content), edits(ops@)),
{
    let mut cur = content;
    let mut i: usize = 0;
    assert(edits(ops@).skip(0) =~= edits(ops@));
    while i < ops.len()
        invariant
            i <= ops.len(),
            apply_edits(text_of(cur), edits(ops@).skip(i as int))
                == apply_edits(text_of(content), edits(ops@)),
        decreases ops.len() - i,
    {
        let ghost es = edits(ops@);
        assert(es.skip(i as int).drop_first() =~= es.skip(i as int + 1));
        assert(es.skip(i as int)[0] == ops@[i as int]@);
        cur = match &ops[i] {
            ClipboardOp::Clear => None,
            ClipboardOp::Write(s) => Some(s.clone()),
        };
        i = i + 1;
    }
    assert(edits(ops@).skip(i as int) =~= Seq::<ClipboardEdit>::empty());
    cur
}

/// Pasting `text` leaves `text` as the sole clipboard content, and the
/// restore made from the snapshot taken before brings the clipboard back to
/// that prior content (or to holding no text, where it held none), for every
/// text, the empty one included.
pub proof fn paste_then_restore_recovers_prior(prior: Option<Seq<char>>, text: Seq<char>)
    ensures
        apply_edits(prior, paste_edits(text)) == Some(text),
        apply_edits(apply_edits(prior, paste_edits(text)), restore_edits(prior)) == prior,
{
    reveal_with_fuel(apply_edits, 3);
    assert(paste_edits(text).drop_first().drop_first() =~= Seq::<ClipboardEdit>::empty());
    assert(apply_edits(prior, paste_edits(text)) == Some(text));
    match prior {
        None => {
            assert(restore_edits(prior).drop_first() =~= Seq::<ClipboardEdit>::empty());
        },
        Some(s) => {
            assert(restore_edits(prior).drop_first().drop_first() =~= Seq::<ClipboardEdit>::empty());
        },
    }
}

/// A direct write that the element rejects fails with `UnsupportedTarget`;
/// the direct strategy hands nothing to the clipboard.
pub proof fn rejected_direct_write_is_unsupported(target: TargetProbe, write_status: i32)
    requires
        target_result(target) is Ok,
        write_status != AX_SUCCESS,
    ensures
        direct_result(target, write_status) == Err::<(), InjectError>(InjectError::UnsupportedTarget),
{
}

} // verus!

use prompt_os::injector::{
    apply_clipboard_ops, find_target, insert_text, insert_text_via_paste, plan_paste, restore_ops,
    ClipboardOp, InjectError, KeyStroke, SynthesisStage, TargetLookup, TargetProbe, PASTE_KEYCODE,
    RESTORE_DELAY_MS,
};

fn found() -> TargetProbe {
    TargetProbe { root_created: true, focused_status: 0, focused_present: true }
}

/// Runs a successful paste of `text` on a clipboard holding `prior`:
/// returns the content right after the call and after the restore.
fn paste_round(prior: Option<&str>, text: &str) -> (Option<String>, Option<String>) {
    let prior = prior.map(|s| s.to_string());
    let plan = plan_paste(&text.to_string(), prior.clone());
    let during = apply_clipboard_ops(prior, &plan.write);
    let task = match insert_text_via_paste(plan, true, Ok(())) {
        Ok(task) => task,
        Err(e) => panic!("paste failed: {:?}", e),
    };
    assert_eq!(task.delay_ms, RESTORE_DELAY_MS);
    let after = apply_clipboard_ops(during.clone(), &task.ops);
    (during, after)
}

#[test]
fn direct_insert_outcomes() {
    assert_eq!(insert_text(&found(), 0), Ok(()));
    assert_eq!(find_target(&found()), Ok(()));
    let no_root = TargetProbe { root_created: false, ..found() };
    assert_eq!(insert_text(&no_root, 0), Err(InjectError::NoTarget(TargetLookup::Root)));
    let nothing = TargetProbe { focused_present: false, ..found() };
    assert_eq!(find_target(&nothing), Err(InjectError::NoTarget(TargetLookup::FocusedElement)));
    let failed = TargetProbe { focused_status: -25212, ..found() };
    assert_eq!(insert_text(&failed, 0), Err(InjectError::NoTarget(TargetLookup::FocusedElement)));
    assert_eq!(
        InjectError::NoTarget(TargetLookup::FocusedElement).message(),
        "No focused element found"
    );
}

#[test]
fn rejected_direct_write_is_unsupported_target() {
    assert_eq!(insert_text(&found(), -25205), Err(InjectError::UnsupportedTarget));
    assert_eq!(
        InjectError::UnsupportedTarget.message(),
        "Failed to insert text via Accessibility API"
    );
}

#[test]
fn paste_plan_contents() {
    let plan = plan_paste(&"hi".to_string(), None);
    assert_eq!(plan.write.len(), 2);
    assert!(matches!(plan.write[0], ClipboardOp::Clear));
    assert!(matches!(&plan.write[1], ClipboardOp::Write(s) if s == "hi"));
    assert_eq!(plan.key_down, KeyStroke { keycode: PASTE_KEYCODE, command: true, down: true });
    assert_eq!(plan.key_up, KeyStroke { keycode: 9, command: true, down: false });
    assert_eq!(plan.restore.ops.len(), 1);
    assert!(matches!(plan.restore.ops[0], ClipboardOp::Clear));
    assert_eq!(RESTORE_DELAY_MS, 500);
}

#[test]
fn paste_hello_then_restore_old() {
    let (during, after) = paste_round(Some("old"), "hello");
    assert_eq!(during.as_deref(), Some("hello"));
    assert_eq!(after.as_deref(), Some("old"));
}

#[test]
fn restore_brings_back_prior_content() {
    for prior in [None, Some(""), Some("old"), Some("ünïcødé ✓ 日本語")] {
        for text in ["", "hello", "naïve — 😀", "line\nbreak"] {
            let (during, after) = paste_round(prior, text);
            assert_eq!(during.as_deref(), Some(text));
            assert_eq!(after.as_deref(), prior);
        }
    }
}

#[test]
fn restore_of_nothing_clears() {
    let ops = restore_ops(None);
    assert_eq!(apply_clipboard_ops(Some("pasted".to_string()), &ops), None);
    let ops = restore_ops(Some(String::new()));
    assert_eq!(apply_clipboard_ops(None, &ops), Some(String::new()));
}

#[test]
fn paste_failures_schedule_no_restore() {
    let plan = || plan_paste(&"x".to_string(), Some("old".to_string()));
    assert!(matches!(insert_text_via_paste(plan(), false, Ok(())), Err(InjectError::ClipboardFailure)));
    for stage in [SynthesisStage::Source, SynthesisStage::KeyDown, SynthesisStage::KeyUp] {
        assert!(matches!(
            insert_text_via_paste(plan(), true, Err(stage)),
            Err(InjectError::EventSynthesisFailure(s)) if s == stage
        ));
    }
    assert_eq!(InjectError::ClipboardFailure.message(), "Failed to set clipboard content");
    assert_eq!(
        InjectError::EventSynthesisFailure(SynthesisStage::Source).message(),
        "Failed to create event source"
    );
    assert_eq!(
        InjectError::EventSynthesisFailure(SynthesisStage::KeyUp).message(),
        "Failed to create key up event"
    );
}

use quillspeak::clipboard::{OutputAction, OutputCompletion, PasteShortcut};
use quillspeak::delivery::{clipboard_copy_plan, plan_output, OutputPlan};

fn output(copy: bool, paste: bool) -> OutputAction {
    OutputAction {
        copy_to_clipboard: copy,
        paste_from_clipboard: paste,
        paste_shortcut: PasteShortcut::CtrlShiftV,
        paste_custom_x11: String::new(),
        paste_custom_wayland: String::new(),
    }
}

#[test]
fn apply_does_not_queue_output_for_skipped_transcription() {
    assert_eq!(plan_output(true, "ignored text", None, &output(true, false)), OutputPlan::Nothing);
    assert_eq!(plan_output(true, "ignored text", Some("/bin/echo"), &output(true, false)), OutputPlan::Nothing);
}

#[test]
fn empty_text_is_not_delivered() {
    assert_eq!(plan_output(false, "  \n", None, &output(true, true)), OutputPlan::Nothing);
}

#[test]
fn output_action_can_run_script_and_copy_final_text() {
    assert_eq!(
        plan_output(false, " hello \n", Some("/bin/echo"), &output(true, false)),
        OutputPlan::RunScript { script_path: "/bin/echo".to_string(), text: "hello".to_string() }
    );
}

#[test]
fn clipboard_disabled_when_output_does_not_request_it() {
    assert_eq!(plan_output(false, "hello", None, &output(false, false)), OutputPlan::Nothing);
    assert!(clipboard_copy_plan(&output(false, false), "hello").is_none());
}

#[test]
fn clipboard_plans_wait_for_paste_when_asked() {
    let copy = clipboard_copy_plan(&output(true, false), " hi ").expect("copy");
    assert_eq!(copy.text, "hi");
    assert_eq!(copy.completion, OutputCompletion::ClipboardCopy);
    assert!(copy.paste.is_none());
    let paste = clipboard_copy_plan(&output(false, true), "hi").expect("paste");
    assert_eq!(paste.completion, OutputCompletion::ClipboardPaste);
    assert_eq!(paste.paste.expect("request").shortcut, PasteShortcut::CtrlShiftV);
    match plan_output(false, "hi", None, &output(true, true)) {
        OutputPlan::Clipboard(plan) => assert_eq!(plan.completion, OutputCompletion::ClipboardPaste),
        other => panic!("unexpected plan {other:?}"),
    }
}

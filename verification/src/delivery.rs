//! What the output worker is asked to do with recognized text: run the
//! shortcut's script, copy (and maybe paste) through the clipboard, or
//! nothing.
use vstd::prelude::*;

use crate::clipboard::{
    clipboard_completion_for_output, clipboard_transport_text_for_output, transport_text,
    OutputAction, OutputCompletion, PasteRequest,
};
use crate::text::{chars_of, string_from_chars, trim, trim_chars};

verus! {

broadcast use vstd::string::group_string_axioms;

/// A clipboard delivery: the text, what finishes it, and the paste to send
/// after copying, if any.
#[derive(Debug, Clone, PartialEq, Eq)]
pub struct ClipboardCopyPlan {
    pub text: String,
    pub completion: OutputCompletion,
    pub paste: Option<PasteRequest>,
}

/// The clipboard delivery an output asks for: none unless it copies or
/// pastes and the trimmed text is not empty.
pub fn clipboard_copy_plan(output: &OutputAction, text: &str) -> (r: Option<ClipboardCopyPlan>)
    ensures
        match transport_text(output.copy_to_clipboard, output.paste_from_clipboard, text@) {
            None => r is None,
            Some(t) => r matches Some(p) && p.text@ == t && p.completion == (if output.paste_from_clipboard {
                OutputCompletion::ClipboardPaste
            } else {
                OutputCompletion::ClipboardCopy
            }) && (output.paste_from_clipboard <==> p.paste is Some) && (p.paste matches Some(q)
                ==> q.shortcut == output.paste_shortcut && q.custom_x11@
                == output.paste_custom_x11@ && q.custom_wayland@ == output.paste_custom_wayland@),
        },
{
    let t = match clipboard_transport_text_for_output(output, text) {
        Some(t) => t,
        None => return None,
    };
    let completion = clipboard_completion_for_output(output);
    let paste = if output.paste_from_clipboard {
        Some(PasteRequest::from_output(output))
    } else {
        None
    };
    Some(ClipboardCopyPlan { text: t, completion, paste })
}

/// What the output worker does with a finished transcription.
#[derive(Debug, Clone, PartialEq, Eq)]
pub enum OutputPlan {
    /// Nothing: the transcription was skipped or its text is empty, or the
    /// output neither copies nor pastes.
    Nothing,
    /// Run the script at this path with the trimmed text.
    RunScript { script_path: String, text: String },
    /// Deliver through the clipboard.
    Clipboard(ClipboardCopyPlan),
}

/// The output for a transcription: a skipped one or an empty text gives
/// nothing; a script runs when the shortcut has one; else the clipboard
/// delivery, if the output asks for one.
pub fn plan_output(skipped: bool, text: &str, script_path: Option<&str>, output: &OutputAction) -> (p: OutputPlan)
    ensures
        (skipped || trim(text@).len() == 0) ==> p == OutputPlan::Nothing,
        !skipped && trim(text@).len() > 0 ==> match script_path {
            Some(s) => p matches OutputPlan::RunScript { script_path: sp, text: t } && sp@ == s@
                && t@ == trim(text@),
            None => match transport_text(
                output.copy_to_clipboard,
                output.paste_from_clipboard,
                trim(text@),
            ) {
                None => p == OutputPlan::Nothing,
                Some(t) => p matches OutputPlan::Clipboard(c) && c.text@ == t && c.completion == (
                if output.paste_from_clipboard {
                    OutputCompletion::ClipboardPaste
                } else {
                    OutputCompletion::ClipboardCopy
                }) && (output.paste_from_clipboard <==> c.paste is Some),
            },
        },
{
    if skipped {
        return OutputPlan::Nothing;
    }
    let v = chars_of(text);
    let t = trim_chars(v.as_slice());
    if t.len() == 0 {
        return OutputPlan::Nothing;
    }
    let trimmed = string_from_chars(t.as_slice());
    match script_path {
        Some(s) => OutputPlan::RunScript { script_path: s.to_string(), text: trimmed },
        None => match clipboard_copy_plan(output, trimmed.as_str()) {
            Some(c) => OutputPlan::Clipboard(c),
            None => OutputPlan::Nothing,
        },
    }
}

} // verus!

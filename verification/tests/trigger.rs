use quillspeak::trigger::{
    parse_invocation, parse_protocol_request, parse_protocol_response, sanitize_field,
    serialize_protocol_request, serialize_protocol_response, usage, ExternalTriggerAction,
    ExternalTriggerInvocation, ExternalTriggerRequest, ExternalTriggerResponse, TriggerError,
};

fn args(values: &[&str]) -> Vec<String> {
    values.iter().map(|value| value.to_string()).collect()
}

#[test]
fn parses_trigger_invocation() {
    assert_eq!(
        parse_invocation(args(&["trigger", "Default", "start"])).unwrap(),
        ExternalTriggerInvocation::Send(ExternalTriggerRequest {
            shortcut: "Default".to_string(),
            action: ExternalTriggerAction::Start,
        })
    );
    assert_eq!(
        parse_invocation(args(&["trigger", "default", "stop"])).unwrap(),
        ExternalTriggerInvocation::Send(ExternalTriggerRequest {
            shortcut: "default".to_string(),
            action: ExternalTriggerAction::Stop,
        })
    );
    assert_eq!(
        parse_invocation(args(&["trigger", "Default", "toggle"])).unwrap(),
        ExternalTriggerInvocation::Send(ExternalTriggerRequest {
            shortcut: "Default".to_string(),
            action: ExternalTriggerAction::Toggle,
        })
    );
    assert_eq!(
        parse_invocation(Vec::<String>::new()).unwrap(),
        ExternalTriggerInvocation::RunApp
    );
    assert!(parse_invocation(args(&["trigger", "Default"])).is_err());
    assert!(parse_invocation(args(&["trigger", "Default", "toggle", "extra"])).is_err());
    assert!(parse_invocation(args(&["trigger", "Default", "unknown"])).is_err());
}

#[test]
fn protocol_round_trips_trigger_request_and_response() {
    let request =
        ExternalTriggerRequest::new("Default".to_string(), ExternalTriggerAction::Toggle).unwrap();
    let encoded = serialize_protocol_request(&request);

    assert_eq!(parse_protocol_request(&encoded).unwrap(), request);
    assert!(parse_protocol_response("ok\n").is_ok());
    assert!(parse_protocol_response("error\tnope\n").is_err());
    assert!(parse_protocol_request("trigger\tDefault\tunknown\n").is_err());
}

#[test]
fn help_flags_show_usage_and_other_forms_print_it() {
    assert_eq!(
        parse_invocation(args(&["--help"])).unwrap(),
        ExternalTriggerInvocation::ShowUsage
    );
    assert_eq!(parse_invocation(args(&["-h"])).unwrap(), ExternalTriggerInvocation::ShowUsage);
    assert_eq!(parse_invocation(args(&["--version"])), Err(TriggerError::Usage));
    assert_eq!(parse_invocation(args(&["start", "a", "b"])), Err(TriggerError::Usage));
    assert!(usage().starts_with("usage: myapp\n"));
}

#[test]
fn request_rejects_blank_and_multiline_shortcuts() {
    assert_eq!(
        ExternalTriggerRequest::new("  \t".to_string(), ExternalTriggerAction::Start),
        Err(TriggerError::EmptyShortcut)
    );
    assert_eq!(
        ExternalTriggerRequest::new("a\nb".to_string(), ExternalTriggerAction::Start),
        Err(TriggerError::ShortcutHasLineBreak)
    );
    assert_eq!(
        parse_invocation(args(&["trigger", "Default", "pause"])),
        Err(TriggerError::UnsupportedAction("pause".to_string()))
    );
}

#[test]
fn serialized_request_has_tab_separated_fields() {
    let request = ExternalTriggerRequest {
        shortcut: "To English".to_string(),
        action: ExternalTriggerAction::Start,
    };
    assert_eq!(serialize_protocol_request(&request), "trigger\tTo English\tstart\n");
    assert_eq!(sanitize_field("a\tb\r\nc"), "a b  c");
}

#[test]
fn response_lines_carry_rejection_messages() {
    assert_eq!(parse_protocol_response("ok\r\n"), Ok(()));
    assert_eq!(
        parse_protocol_response("error\tnope\n"),
        Err(TriggerError::Rejected("nope".to_string()))
    );
    assert_eq!(parse_protocol_response("maybe\n"), Err(TriggerError::InvalidResponse));
    let rejected = ExternalTriggerResponse::rejected("too\tmany");
    let line = serialize_protocol_response(&rejected);
    assert_eq!(line, "error\ttoo many\n");
    assert_eq!(
        parse_protocol_response(&line),
        Err(TriggerError::Rejected("too many".to_string()))
    );
    assert_eq!(serialize_protocol_response(&ExternalTriggerResponse::accepted()), "ok\n");
}

#[test]
fn malformed_request_lines_are_rejected() {
    assert_eq!(parse_protocol_request("trigger\tDefault\n"), Err(TriggerError::InvalidRequest));
    assert_eq!(
        parse_protocol_request("toggle\tDefault\tstart\n"),
        Err(TriggerError::InvalidRequest)
    );
    assert_eq!(
        parse_protocol_request("trigger\t \tstart\n"),
        Err(TriggerError::EmptyShortcut)
    );
    assert_eq!(ExternalTriggerAction::Toggle.as_str(), "toggle");
    assert_eq!(ExternalTriggerAction::parse("stop"), Ok(ExternalTriggerAction::Stop));
}

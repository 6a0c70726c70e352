use quillspeak::socket::{
    accepts_client, command_socket_path, connection_response, error_message, overload_response,
    request_from_read, response_from_read, socket_preparation, validate_client_limit,
    SocketPreparation, SocketProbe, MAX_EXTERNAL_TRIGGER_CLIENTS,
};
use quillspeak::trigger::{ExternalTriggerAction, ExternalTriggerResponse, TriggerError};

#[test]
fn socket_lives_under_the_runtime_directory() {
    assert_eq!(
        command_socket_path(Some(b"/run/user/1000".as_slice())),
        Ok(b"/run/user/1000/myapp/command.sock".to_vec())
    );
    assert_eq!(
        command_socket_path(Some(b"/run/user/1000/".as_slice())),
        Ok(b"/run/user/1000/myapp/command.sock".to_vec())
    );
    assert_eq!(command_socket_path(Some(b"".as_slice())), Ok(b"myapp/command.sock".to_vec()));
    assert_eq!(
        command_socket_path(Some(b"/run/\xff".as_slice())),
        Ok(b"/run/\xff/myapp/command.sock".to_vec())
    );
    assert_eq!(
        command_socket_path(None),
        Err("XDG_RUNTIME_DIR is not set; cannot locate MyApp command socket".to_string())
    );
}

#[test]
fn stale_sockets_are_replaced_but_live_ones_refused() {
    assert_eq!(socket_preparation("/s", false, SocketProbe::Connected), SocketPreparation::Ready);
    assert_eq!(
        socket_preparation("/s", true, SocketProbe::ConnectionRefused),
        SocketPreparation::RemoveStale
    );
    assert_eq!(socket_preparation("/s", true, SocketProbe::NotFound), SocketPreparation::Ready);
    assert_eq!(
        socket_preparation("/s", true, SocketProbe::Connected),
        SocketPreparation::Refuse(
            "command socket is already active at /s; is MyApp already running?".to_string()
        )
    );
    assert_eq!(
        socket_preparation("/s", true, SocketProbe::Failed("denied".to_string())),
        SocketPreparation::Refuse(
            "command socket /s exists but its liveness probe failed (denied); not removing it"
                .to_string()
        )
    );
}

#[test]
fn socket_service_rejects_connections_over_client_limit() {
    assert!(accepts_client(0, 1));
    assert!(!accepts_client(1, 1));
    assert!(accepts_client(15, MAX_EXTERNAL_TRIGGER_CLIENTS));
    assert!(!accepts_client(16, MAX_EXTERNAL_TRIGGER_CLIENTS));
    assert_eq!(
        overload_response(),
        ExternalTriggerResponse::Rejected("too many active external trigger clients".to_string())
    );
    assert_eq!(
        validate_client_limit(0),
        Err("command socket client limit must be positive".to_string())
    );
    assert_eq!(validate_client_limit(1), Ok(()));
}

#[test]
fn connection_requests_are_read_and_answered() {
    assert_eq!(request_from_read(0, ""), Err("empty command socket request".to_string()));
    let request = request_from_read(18, "trigger\tdefault\tstart\n").expect("valid request");
    assert_eq!(request.shortcut, "default");
    assert_eq!(request.action, ExternalTriggerAction::Start);
    assert_eq!(
        request_from_read(5, "hello"),
        Err("invalid command socket request".to_string())
    );
    assert_eq!(
        request_from_read(20, "trigger\tdefault\tjump"),
        Err("unsupported trigger action: jump".to_string())
    );
    assert_eq!(
        connection_response(Err("timed out".to_string())),
        ExternalTriggerResponse::Rejected("timed out".to_string())
    );
    assert_eq!(
        connection_response(Ok(ExternalTriggerResponse::Accepted)),
        ExternalTriggerResponse::Accepted
    );
}

#[test]
fn client_reads_the_answer() {
    assert_eq!(
        response_from_read(0, ""),
        Err("MyApp closed the command socket without a response".to_string())
    );
    assert_eq!(response_from_read(3, "ok\n"), Ok(()));
    assert_eq!(response_from_read(10, "error\tnope\n"), Err("nope".to_string()));
    assert_eq!(
        response_from_read(4, "what"),
        Err("invalid MyApp command response".to_string())
    );
    assert_eq!(error_message(&TriggerError::EmptyShortcut), "shortcut cannot be empty");
    assert!(error_message(&TriggerError::Usage).starts_with("usage: myapp"));
}

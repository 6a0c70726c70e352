use quillspeak::mute::{
    detect_speaker_mute_backend, mute_arg, mute_target, parse_pactl_muted, parse_wpctl_muted,
    speaker_mute_tools_status, MuteError, MuteTools, SpeakerMuteBackend, SpeakerMuteState,
    SpeakerMuteTarget,
};
use quillspeak::pwdump::{
    pipewire_playback_stream_targets_from_dump, playback_stream_label, playback_stream_targets,
    speaker_mute_targets, PwDumpError, PwObject, PwStreamProps,
};

#[test]
fn parses_wpctl_muted_state() {
    assert!(!parse_wpctl_muted("Volume: 0.35\n").unwrap());
    assert!(parse_wpctl_muted("Volume: 0.35 [MUTED]\n").unwrap());
}

#[test]
fn rejects_empty_wpctl_status() {
    assert!(parse_wpctl_muted("").is_err());
}

#[test]
fn parses_pactl_muted_state() {
    assert!(parse_pactl_muted("Mute: yes\n").unwrap());
    assert!(!parse_pactl_muted("Mute: no\n").unwrap());
}

#[test]
fn rejects_unknown_pactl_status() {
    assert!(parse_pactl_muted("Mute: maybe\n").is_err());
    assert!(parse_pactl_muted("Volume: 50%\n").is_err());
}

#[test]
fn pipewire_dump_targets_only_audio_playback_streams() {
    let targets = pipewire_playback_stream_targets_from_dump(
        r#"
[
  {
    "id": 117,
    "type": "PipeWire:Interface:Node",
    "info": {
      "props": {
        "media.class": "Stream/Output/Audio",
        "application.name": "Google Chrome",
        "media.name": "YouTube"
      }
    }
  },
  {
    "id": 59,
    "type": "PipeWire:Interface:Node",
    "info": {
      "props": {
        "media.class": "Audio/Sink",
        "node.description": "Speakers"
      }
    }
  },
  {
    "id": 87,
    "type": "PipeWire:Interface:Node",
    "info": {
      "props": {
        "media.class": "Audio/Source",
        "node.description": "Microphone"
      }
    }
  },
  {
    "id": 66,
    "type": "PipeWire:Interface:Node",
    "info": {
      "props": {
        "media.class": "Video/Source",
        "node.description": "Camera"
      }
    }
  }
]
"#,
    )
    .expect("pw-dump fixture should parse");

    assert_eq!(
        targets,
        vec![SpeakerMuteTarget::pipewire_stream(117, "Google Chrome".to_string())]
    );
}

#[test]
fn pipewire_dump_uses_fallback_stream_labels() {
    let targets = pipewire_playback_stream_targets_from_dump(
        r#"
[
  {
    "id": 140,
    "type": "PipeWire:Interface:Node",
    "info": {
      "props": {
        "media.class": "Stream/Output/Audio",
        "media.name": "Browser tab"
      }
    }
  },
  {
    "id": 141,
    "type": "PipeWire:Interface:Node",
    "info": {
      "props": {
        "media.class": "Stream/Output/Audio"
      }
    }
  }
]
"#,
    )
    .expect("pw-dump fixture should parse");

    assert_eq!(
        targets,
        vec![
            SpeakerMuteTarget::pipewire_stream(140, "Browser tab".to_string()),
            SpeakerMuteTarget::pipewire_stream(141, "PipeWire stream 141".to_string()),
        ]
    );
}

#[test]
fn pipewire_dump_errors() {
    assert_eq!(
        pipewire_playback_stream_targets_from_dump("not json"),
        Err(PwDumpError::InvalidJson)
    );
    assert_eq!(
        pipewire_playback_stream_targets_from_dump(
            r#"[{"type": "PipeWire:Interface:Node", "info": {"props": {"media.class": "Stream/Output/Audio"}}}]"#
        ),
        Err(PwDumpError::MissingStreamId)
    );
    assert_eq!(
        pipewire_playback_stream_targets_from_dump(
            r#"[{"id": 3, "type": "PipeWire:Interface:Node", "info": {"props": {"media.class": "Stream/Output/Audio", "application.name": "  ", "node.name": "n"}}}]"#
        ),
        Ok(vec![SpeakerMuteTarget::pipewire_stream(3, "n".to_string())])
    );
}

#[test]
fn pipewire_stream_target_uses_decimal_id() {
    let target = SpeakerMuteTarget::pipewire_stream(1204, "x".to_string());
    assert_eq!(target.target_id, "1204");
    assert_eq!(target.kind_label(), "playback_stream");
    assert_eq!(SpeakerMuteTarget::pactl_default_sink().target_id, "@DEFAULT_SINK@");
    assert_eq!(SpeakerMuteTarget::pactl_default_sink().kind_label(), "default_sink");
}

#[test]
fn backend_selection_prefers_pipewire_streams() {
    let all = MuteTools { wpctl: true, pw_dump: true, pactl: true };
    let wpctl_only = MuteTools { wpctl: true, pw_dump: false, pactl: true };
    let pactl_only = MuteTools { wpctl: false, pw_dump: true, pactl: true };
    let none = MuteTools { wpctl: false, pw_dump: false, pactl: false };

    assert_eq!(detect_speaker_mute_backend(all), Ok(SpeakerMuteBackend::PipeWire));
    assert_eq!(detect_speaker_mute_backend(wpctl_only), Ok(SpeakerMuteBackend::Wpctl));
    assert_eq!(detect_speaker_mute_backend(pactl_only), Ok(SpeakerMuteBackend::Pactl));
    assert_eq!(detect_speaker_mute_backend(none), Err(MuteError::NoBackend));
    assert_eq!(speaker_mute_tools_status(all), "Ready: wpctl + pw-dump");
    assert_eq!(speaker_mute_tools_status(none), "Missing: wpctl + pw-dump or pactl");
    assert_eq!(SpeakerMuteBackend::Pactl.package_hint(), "pulseaudio-utils");
    assert_eq!(SpeakerMuteBackend::PipeWire.label(), "wpctl+pw-dump");
    assert_eq!(SpeakerMuteBackend::Wpctl.command(), "wpctl");
    assert_eq!(mute_arg(true), "1");
    assert_eq!(mute_arg(false), "0");
}

#[test]
fn targets_for_backend_end_with_default_sink() {
    let streams = vec![SpeakerMuteTarget::pipewire_stream(7, "a".to_string())];
    let targets = speaker_mute_targets(SpeakerMuteBackend::PipeWire, streams);
    assert_eq!(targets.len(), 2);
    assert_eq!(targets[1], SpeakerMuteTarget::wpctl_default_sink(SpeakerMuteBackend::PipeWire));
    let targets = speaker_mute_targets(SpeakerMuteBackend::Pactl, Vec::new());
    assert_eq!(targets, vec![SpeakerMuteTarget::pactl_default_sink()]);
}

#[test]
fn restore_undoes_only_changed_targets_in_reverse_order() {
    let mut state = SpeakerMuteState::new();
    let (first, set_first) = mute_target(SpeakerMuteTarget::pipewire_stream(1, "a".to_string()), false);
    let (second, set_second) = mute_target(SpeakerMuteTarget::pipewire_stream(2, "b".to_string()), true);
    assert!(set_first && first.changed && !first.previous_muted);
    assert!(!set_second && !second.changed && second.previous_muted);

    let readings = vec![
        (SpeakerMuteTarget::pipewire_stream(1, "a".to_string()), false),
        (SpeakerMuteTarget::pipewire_stream(2, "b".to_string()), true),
        (SpeakerMuteTarget::pactl_default_sink(), false),
    ];
    assert_eq!(state.mute_playback_for_recording(4, "default", readings, Vec::new()), Ok(()));
    assert!(matches!(
        state.mute_playback_for_recording(5, "other", Vec::new(), Vec::new()),
        Err(MuteError::Busy { recording_id: 4, .. })
    ));
    assert!(state.restore_playback_for_recording(4, "other").is_empty());

    let actions = state.restore_playback_for_recording(4, "default");
    assert_eq!(
        actions,
        vec![
            (SpeakerMuteTarget::pactl_default_sink(), false),
            (SpeakerMuteTarget::pipewire_stream(1, "a".to_string()), false),
        ]
    );
    assert!(state.restore_active_speaker_mute().is_empty());
    assert_eq!(state.check_available(), Ok(()));
}

#[test]
fn mute_without_targets_reports_failures() {
    let mut state = SpeakerMuteState::new();
    assert_eq!(
        state.mute_playback_for_recording(1, "default", Vec::new(), Vec::new()),
        Err(MuteError::NoTargets)
    );
    assert_eq!(
        state.mute_playback_for_recording(
            1,
            "default",
            Vec::new(),
            vec!["a: x".to_string(), "b: y".to_string()]
        ),
        Err(MuteError::AllTargetsFailed("a: x; b: y".to_string()))
    );
}

fn props(class: &str, app: Option<&str>, media: Option<&str>) -> PwStreamProps {
    PwStreamProps {
        media_class: Some(class.to_string()),
        application_name: app.map(str::to_string),
        media_name: media.map(str::to_string),
        node_description: None,
        node_name: None,
    }
}

fn node(id: Option<u64>, props: Option<PwStreamProps>) -> PwObject {
    PwObject { node_type: Some("PipeWire:Interface:Node".to_string()), id, props }
}

#[test]
fn playback_stream_targets_keep_order_and_skip_other_objects() {
    let objects = vec![
        node(Some(3), Some(props("Stream/Output/Audio", Some("  "), Some("Song")))),
        node(Some(4), Some(props("Audio/Sink", Some("Speakers"), None))),
        PwObject { node_type: Some("PipeWire:Interface:Port".to_string()), id: Some(5), props: None },
        node(Some(9), None),
        node(Some(7), Some(props(" Stream/Output/Audio", None, None))),
        node(Some(8), Some(props("Stream/Output/Audio", None, None))),
    ];
    let targets = playback_stream_targets(&objects).unwrap();
    assert_eq!(targets.len(), 2);
    assert_eq!(targets[0], SpeakerMuteTarget::pipewire_stream(3, "Song".to_string()));
    assert_eq!(targets[1], SpeakerMuteTarget::pipewire_stream(8, "PipeWire stream 8".to_string()));
}

#[test]
fn playback_stream_targets_stop_at_a_stream_without_id() {
    let objects = vec![
        node(Some(3), Some(props("Stream/Output/Audio", Some("Player"), None))),
        node(None, Some(props("Stream/Output/Audio", Some("Player"), None))),
        node(Some(4), None),
    ];
    assert_eq!(playback_stream_targets(&objects), Err(PwDumpError::MissingStreamId));
    assert_eq!(playback_stream_targets(&[]), Ok(Vec::new()));
}

#[test]
fn playback_stream_label_takes_first_nonblank_name() {
    let mut p = props("Stream/Output/Audio", Some(" "), Some(""));
    assert_eq!(playback_stream_label(&p), None);
    p.node_name = Some("alsa_output".to_string());
    assert_eq!(playback_stream_label(&p), Some("alsa_output".to_string()));
    p.node_description = Some("Built-in Audio".to_string());
    assert_eq!(playback_stream_label(&p), Some("Built-in Audio".to_string()));
    p.application_name = Some("Firefox".to_string());
    assert_eq!(playback_stream_label(&p), Some("Firefox".to_string()));
}

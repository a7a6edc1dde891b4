use worker_bridge::command::Command;
use worker_bridge::command::RawArguments;
use worker_bridge::command::command_of_name;
use worker_bridge::command::args_valid;
use worker_bridge::command::str_eq;
use worker_bridge::codec::ResponseFrame;
use worker_bridge::codec::WireStatus;
use worker_bridge::codec::encode_response;
use worker_bridge::codec::decode_request;
use worker_bridge::dispatch::cancel_session;
use worker_bridge::dispatch::dispatch_begin;
use worker_bridge::dispatch::dispatch_check;
use worker_bridge::dispatch::fail_timeout;
use worker_bridge::dispatch::fail_transport;
use worker_bridge::dispatch::interpret_response;
use worker_bridge::dispatch::on_frame;
use worker_bridge::errors::DispatchError;
use worker_bridge::supervisor::EnsureAction;
use worker_bridge::supervisor::Supervisor;
use worker_bridge::supervisor::SupervisorState;
use worker_bridge::transport::OutstandingSet;
use worker_bridge::transport::times_out;

const STARTUP_TIMEOUT_MS: u64 = 5000;

fn ready_supervisor() -> Supervisor {
    let mut sup = Supervisor::new();
    assert!(matches!(sup.ensure_ready_action(), EnsureAction::Launch));
    sup.note_launched(0, STARTUP_TIMEOUT_MS);
    assert_eq!(sup.state, SupervisorState::Starting);
    assert!(matches!(sup.ensure_ready_action(), EnsureAction::Probe));
    sup.note_probe(true, 100);
    assert_eq!(sup.state, SupervisorState::Ready);
    sup
}

#[test]
fn worker_absent_at_startup_degrades_and_fails_fast() {
    // Scenario: the worker executable is absent and probes go unanswered.
    let mut sup = Supervisor::new();
    assert!(matches!(sup.ensure_ready_action(), EnsureAction::Launch));
    sup.note_launched(0, STARTUP_TIMEOUT_MS);
    // Failed probes inside the startup window keep retrying.
    sup.note_probe(false, 1000);
    assert_eq!(sup.state, SupervisorState::Starting);
    sup.note_probe(false, 3000);
    assert_eq!(sup.state, SupervisorState::Starting);
    // The startup deadline passes: the supervisor settles Degraded.
    sup.note_probe(false, 5000);
    assert_eq!(sup.state, SupervisorState::Degraded);
    assert!(matches!(
        sup.ensure_ready_action(),
        EnsureAction::Settled(SupervisorState::Degraded)
    ));
    // A dispatch now fails fast with WorkerUnavailable.
    let r = dispatch_check("get_audio_devices", &RawArguments::empty(), &sup);
    assert_eq!(r, Err(DispatchError::WorkerUnavailable));
    assert_eq!(sup.state, SupervisorState::Degraded);
}

#[test]
fn responsive_worker_start_then_stop_succeeds() {
    // Scenario: the worker is present and answers both calls.
    let sup = ready_supervisor();
    let mut outstanding = OutstandingSet::new();

    let args = RawArguments {
        device_index: Some(1),
        text: None,
        audio_path: None,
    };
    let (id, frame) = dispatch_begin("start_recording", &args, &sup, &mut outstanding)
        .expect("dispatch of start_recording");
    let req = decode_request(&frame).expect("request frame decodes");
    assert_eq!(req.corr_id, id);
    assert_eq!(req.command, Command::StartRecording);

    // The worker answers with a session identifier.
    let reply = encode_response(&ResponseFrame {
        corr_id: id,
        status: WireStatus::Success,
        payload: b"session-7".to_vec(),
    });
    let delivered = on_frame(&mut outstanding, &reply).expect("response correlates");
    assert_eq!(delivered.corr_id, id);
    let outcome = interpret_response(delivered);
    assert_eq!(outcome, Ok(b"session-7".to_vec()));

    // A subsequent stop_recording succeeds with the recording's path.
    let (id2, frame2) = dispatch_begin(
        "stop_recording",
        &RawArguments::empty(),
        &sup,
        &mut outstanding,
    )
    .expect("dispatch of stop_recording");
    assert_ne!(id, id2, "correlation ids are never reused");
    let req2 = decode_request(&frame2).expect("request frame decodes");
    assert_eq!(req2.command, Command::StopRecording);
    let reply2 = encode_response(&ResponseFrame {
        corr_id: id2,
        status: WireStatus::Success,
        payload: b"/tmp/audio/recording-1.wav".to_vec(),
    });
    let delivered2 = on_frame(&mut outstanding, &reply2).expect("response correlates");
    assert_eq!(
        interpret_response(delivered2),
        Ok(b"/tmp/audio/recording-1.wav".to_vec())
    );
    assert!(outstanding.pending.is_empty());
}

#[test]
fn unknown_command_fails_without_contacting_worker() {
    // Scenario: an unknown name fails locally even with a Ready worker.
    let sup = ready_supervisor();
    let mut outstanding = OutstandingSet::new();
    let r = dispatch_begin(
        "erase_everything",
        &RawArguments::empty(),
        &sup,
        &mut outstanding,
    );
    assert_eq!(r, Err(DispatchError::UnknownCommand));
    // No correlation id was registered: nothing was sent anywhere.
    assert!(outstanding.pending.is_empty());
    assert_eq!(outstanding.next_id, 0);
}

#[test]
fn malformed_argument_fails_before_any_worker_call() {
    // Scenario: an empty summarization text violates the schema.
    let sup = ready_supervisor();
    let mut outstanding = OutstandingSet::new();
    let args = RawArguments {
        device_index: None,
        text: Some(String::new()),
        audio_path: None,
    };
    let r = dispatch_begin("summarize_transcription", &args, &sup, &mut outstanding);
    assert_eq!(r, Err(DispatchError::InvalidArgument));
    assert!(outstanding.pending.is_empty());
    assert_eq!(outstanding.next_id, 0);
}

#[test]
fn worker_crash_mid_call_then_recovery() {
    // Scenario: the transport breaks while a call is outstanding.
    let mut sup = ready_supervisor();
    let mut outstanding = OutstandingSet::new();
    let (id, _frame) = dispatch_begin(
        "transcribe_audio",
        &RawArguments {
            device_index: None,
            text: None,
            audio_path: Some(String::from("/tmp/audio/recording-1.wav")),
        },
        &sup,
        &mut outstanding,
    )
    .expect("dispatch of transcribe_audio");

    let err = fail_transport(&mut outstanding, &mut sup, id);
    assert_eq!(err, DispatchError::WorkerUnavailable);
    assert_eq!(sup.state, SupervisorState::Degraded);
    assert!(outstanding.pending.is_empty());

    // A later successful probe restores Ready and calls succeed again.
    sup.note_probe(true, 9000);
    assert_eq!(sup.state, SupervisorState::Ready);
    let r = dispatch_check("get_audio_devices", &RawArguments::empty(), &sup);
    assert_eq!(r, Ok(Command::GetAudioDevices));
}

#[test]
fn duplicate_or_stale_response_is_a_noop() {
    let sup = ready_supervisor();
    let mut outstanding = OutstandingSet::new();
    let (id, _) = dispatch_begin(
        "get_audio_devices",
        &RawArguments::empty(),
        &sup,
        &mut outstanding,
    )
    .expect("dispatch");
    let (other, _) = dispatch_begin(
        "stop_recording",
        &RawArguments::empty(),
        &sup,
        &mut outstanding,
    )
    .expect("concurrent dispatch");
    let reply = encode_response(&ResponseFrame {
        corr_id: id,
        status: WireStatus::Success,
        payload: b"Default Microphone\nSystem Audio".to_vec(),
    });
    // The first delivery resolves its own request and no other.
    assert!(on_frame(&mut outstanding, &reply).is_some());
    assert_eq!(outstanding.pending, vec![other]);
    // The identical (duplicate) response resolves nothing.
    assert!(on_frame(&mut outstanding, &reply).is_none());
    assert_eq!(outstanding.pending, vec![other]);
    // A response for a correlation id that was never issued is discarded.
    let stale = encode_response(&ResponseFrame {
        corr_id: 999,
        status: WireStatus::Success,
        payload: Vec::new(),
    });
    assert!(on_frame(&mut outstanding, &stale).is_none());
}

#[test]
fn ensure_ready_is_idempotent_while_ready() {
    let mut sup = ready_supervisor();
    assert_eq!(sup.launches, 1);
    for _ in 0..5 {
        assert!(matches!(
            sup.ensure_ready_action(),
            EnsureAction::Settled(SupervisorState::Ready)
        ));
        // Even a stray launch report while Ready is suppressed.
        sup.note_launched(50, STARTUP_TIMEOUT_MS);
        assert_eq!(sup.state, SupervisorState::Ready);
        assert_eq!(sup.launches, 1);
    }
}

#[test]
fn timeout_and_late_response() {
    // A shorter deadline can only turn successes into timeouts.
    assert!(times_out(3000, 2000));
    assert!(times_out(3000, 2999));
    assert!(!times_out(3000, 3000));
    assert!(!times_out(3000, 5000));

    let sup = ready_supervisor();
    let mut outstanding = OutstandingSet::new();
    let (id, _) = dispatch_begin(
        "get_audio_devices",
        &RawArguments::empty(),
        &sup,
        &mut outstanding,
    )
    .expect("dispatch");
    // The deadline passes: the caller gets Timeout and the id is gone.
    let err = fail_timeout(&mut outstanding, id);
    assert_eq!(err, DispatchError::Timeout);
    assert!(outstanding.pending.is_empty());
    // The response that finally arrives is discarded.
    let late = encode_response(&ResponseFrame {
        corr_id: id,
        status: WireStatus::Success,
        payload: b"too late".to_vec(),
    });
    assert!(on_frame(&mut outstanding, &late).is_none());
}

#[test]
fn shutdown_cancels_outstanding_calls() {
    let mut sup = ready_supervisor();
    let mut outstanding = OutstandingSet::new();
    let (id_a, _) = dispatch_begin(
        "get_audio_devices",
        &RawArguments::empty(),
        &sup,
        &mut outstanding,
    )
    .expect("first dispatch");
    let (id_b, _) = dispatch_begin(
        "stop_recording",
        &RawArguments::empty(),
        &sup,
        &mut outstanding,
    )
    .expect("second dispatch");

    let canceled = cancel_session(&mut outstanding, &mut sup);
    assert_eq!(canceled, vec![id_a, id_b]);
    assert!(outstanding.pending.is_empty());
    assert_eq!(sup.state, SupervisorState::Stopped);
    // Each canceled waiter is resolved with Canceled by the host.
    assert_eq!(DispatchError::Canceled.label(), "canceled");
    // Shutdown is idempotent.
    sup.shutdown();
    assert_eq!(sup.state, SupervisorState::Stopped);
    assert_eq!(sup.launches, 1);
}

#[test]
fn worker_reported_failures_map_to_the_taxonomy() {
    let invalid = interpret_response(ResponseFrame {
        corr_id: 4,
        status: WireStatus::InvalidState,
        payload: Vec::new(),
    });
    assert_eq!(invalid, Err(DispatchError::InvalidState));

    let failed = interpret_response(ResponseFrame {
        corr_id: 5,
        status: WireStatus::Failure,
        payload: b"model not loaded".to_vec(),
    });
    assert_eq!(
        failed,
        Err(DispatchError::WorkerError(b"model not loaded".to_vec()))
    );
}

#[test]
fn command_table_is_closed() {
    assert_eq!(command_of_name("start_recording"), Some(Command::StartRecording));
    assert_eq!(command_of_name("stop_recording"), Some(Command::StopRecording));
    assert_eq!(command_of_name("get_audio_devices"), Some(Command::GetAudioDevices));
    assert_eq!(command_of_name("transcribe_audio"), Some(Command::TranscribeAudio));
    assert_eq!(
        command_of_name("summarize_transcription"),
        Some(Command::SummarizeTranscription)
    );
    assert_eq!(command_of_name("start_recordin"), None);
    assert_eq!(command_of_name("start_recordings"), None);
    assert_eq!(command_of_name(""), None);
    assert!(str_eq("", ""));
    assert!(!str_eq("a", "b"));
}

#[test]
fn argument_schemas() {
    // start_recording: the device index is absent or non-negative.
    assert!(args_valid(Command::StartRecording, &RawArguments::empty()));
    assert!(args_valid(
        Command::StartRecording,
        &RawArguments { device_index: Some(0), text: None, audio_path: None }
    ));
    assert!(!args_valid(
        Command::StartRecording,
        &RawArguments { device_index: Some(-1), text: None, audio_path: None }
    ));
    // Argument-less commands reject stray fields.
    assert!(args_valid(Command::StopRecording, &RawArguments::empty()));
    assert!(!args_valid(
        Command::GetAudioDevices,
        &RawArguments { device_index: Some(1), text: None, audio_path: None }
    ));
    // Texts and paths must be present and non-empty.
    assert!(!args_valid(Command::TranscribeAudio, &RawArguments::empty()));
    assert!(!args_valid(
        Command::TranscribeAudio,
        &RawArguments { device_index: None, text: None, audio_path: Some(String::new()) }
    ));
    assert!(args_valid(
        Command::TranscribeAudio,
        &RawArguments {
            device_index: None,
            text: None,
            audio_path: Some(String::from("/tmp/a.wav")),
        }
    ));
    assert!(!args_valid(
        Command::SummarizeTranscription,
        &RawArguments { device_index: None, text: Some(String::new()), audio_path: None }
    ));
    assert!(args_valid(
        Command::SummarizeTranscription,
        &RawArguments {
            device_index: None,
            text: Some(String::from("meeting notes")),
            audio_path: None,
        }
    ));
}

#[test]
fn greeting_text() {
    assert_eq!(
        worker_bridge::greeting::greet("Ada"),
        "Hello, Ada! Welcome to the CRM Meeting App."
    );
    assert_eq!(
        worker_bridge::greeting::greet(""),
        "Hello, ! Welcome to the CRM Meeting App."
    );
}

#[test]
fn error_labels_are_stable() {
    assert_eq!(DispatchError::UnknownCommand.label(), "unknown_command");
    assert_eq!(DispatchError::InvalidArgument.label(), "invalid_argument");
    assert_eq!(DispatchError::WorkerUnavailable.label(), "worker_unavailable");
    assert_eq!(DispatchError::Timeout.label(), "timeout");
    assert_eq!(DispatchError::InvalidState.label(), "invalid_state");
    assert_eq!(DispatchError::WorkerError(Vec::new()).label(), "worker_error");
    assert_eq!(DispatchError::Canceled.label(), "canceled");
}

use warp_tui::voice_input::{
    StartListeningError, TranscribeError, TuiVoiceInputEvent, TuiVoiceInputState, VoiceAction,
    VoiceInput, VoiceLifecycle,
};

fn at(state: TuiVoiceInputState) -> VoiceLifecycle {
    VoiceLifecycle {
        state,
        recording_pending: false,
        transcription_pending: false,
    }
}

#[test]
fn start_does_not_replace_an_active_session() {
    let mut voice = at(TuiVoiceInputState::Listening);
    let step = voice.step(VoiceInput::StartRequested { available: false });
    assert!(step.events.is_empty() && step.actions.is_empty());
    assert_eq!(voice.state(), TuiVoiceInputState::Listening);
}

#[test]
fn stop_transitions_the_model_to_transcribing() {
    let mut voice = at(TuiVoiceInputState::Listening);
    let step = voice.step(VoiceInput::StopRequested);
    assert_eq!(step.actions, vec![VoiceAction::StopListening]);
    let step = voice.step(VoiceInput::StopResult { ok: true });
    assert_eq!(
        step.events,
        vec![TuiVoiceInputEvent::StateChanged(TuiVoiceInputState::Transcribing)]
    );
    assert_eq!(voice.state(), TuiVoiceInputState::Transcribing);
}

#[test]
fn cancel_returns_the_model_to_idle() {
    let mut voice = at(TuiVoiceInputState::Transcribing);
    let step = voice.step(VoiceInput::Cancel);
    assert_eq!(voice.state(), TuiVoiceInputState::Idle);
    assert_eq!(
        step.events,
        vec![
            TuiVoiceInputEvent::Cancelled,
            TuiVoiceInputEvent::StateChanged(TuiVoiceInputState::Idle)
        ]
    );
    assert_eq!(step.actions, vec![VoiceAction::SetTranscribingActive(false)]);
}

#[test]
fn a_full_session_completes_with_the_transcript() {
    let mut voice = VoiceLifecycle::new();
    assert!(!voice.is_active());
    let step = voice.step(VoiceInput::StartRequested { available: true });
    assert_eq!(step.actions, vec![VoiceAction::StartListening]);
    let step = voice.step(VoiceInput::StartResult(Ok(())));
    assert_eq!(step.actions, vec![VoiceAction::AwaitRecording]);
    assert!(voice.is_active());
    voice.step(VoiceInput::StopResult { ok: true });
    let step = voice.step(VoiceInput::SessionResult {
        audio: true,
        has_transcriber: true,
    });
    assert_eq!(
        step.actions,
        vec![VoiceAction::SetTranscribingActive(true), VoiceAction::Transcribe]
    );
    let step = voice.step(VoiceInput::TranscriptionResult(Ok("hello".to_owned())));
    assert_eq!(
        step.events,
        vec![
            TuiVoiceInputEvent::Completed("hello".to_owned()),
            TuiVoiceInputEvent::StateChanged(TuiVoiceInputState::Idle)
        ]
    );
    assert_eq!(voice.state(), TuiVoiceInputState::Idle);
    assert!(!voice.recording_pending && !voice.transcription_pending);
}

#[test]
fn failures_report_a_hint_and_return_to_idle() {
    let mut voice = VoiceLifecycle::new();
    let step = voice.step(VoiceInput::StartRequested { available: false });
    assert_eq!(
        step.events,
        vec![TuiVoiceInputEvent::Failed("Voice input is unavailable".to_owned())]
    );
    let step = voice.step(VoiceInput::StartResult(Err(StartListeningError::AccessDenied)));
    assert_eq!(
        step.events,
        vec![TuiVoiceInputEvent::Failed("Microphone access denied".to_owned())]
    );
    let step = voice.step(VoiceInput::StartResult(Err(StartListeningError::AlreadyRunning)));
    assert_eq!(
        step.events,
        vec![TuiVoiceInputEvent::Failed("Unable to start voice input".to_owned())]
    );

    let mut voice = at(TuiVoiceInputState::Listening);
    let step = voice.step(VoiceInput::StopResult { ok: false });
    assert_eq!(step.actions, vec![VoiceAction::AbortListening]);
    assert_eq!(
        step.events,
        vec![
            TuiVoiceInputEvent::Failed("Failed to stop voice input".to_owned()),
            TuiVoiceInputEvent::StateChanged(TuiVoiceInputState::Idle)
        ]
    );

    let mut voice = at(TuiVoiceInputState::Transcribing);
    let step = voice.step(VoiceInput::SessionResult {
        audio: false,
        has_transcriber: true,
    });
    assert_eq!(
        step.events[0],
        TuiVoiceInputEvent::Failed("Voice input stopped".to_owned())
    );

    let mut voice = at(TuiVoiceInputState::Transcribing);
    let step = voice.step(VoiceInput::TranscriptionResult(Err(TranscribeError::QuotaLimit)));
    assert_eq!(
        step.events[0],
        TuiVoiceInputEvent::Failed("Voice input limit reached".to_owned())
    );
}

#[test]
fn late_results_change_nothing() {
    let mut voice = VoiceLifecycle {
        state: TuiVoiceInputState::Idle,
        recording_pending: true,
        transcription_pending: true,
    };
    let step = voice.step(VoiceInput::SessionResult {
        audio: true,
        has_transcriber: true,
    });
    assert!(step.events.is_empty() && step.actions.is_empty());
    assert!(!voice.recording_pending);
    let step = voice.step(VoiceInput::TranscriptionResult(Ok("late".to_owned())));
    assert!(step.events.is_empty() && step.actions.is_empty());
    assert_eq!(voice.state(), TuiVoiceInputState::Idle);
}

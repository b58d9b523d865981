//! The voice-input lifecycle: idle, listening, then transcribing, driven by
//! user requests and by the results of the recording and transcription
//! tasks. Each input yields the new state, the events observers see, and
//! the outside work to start or stop.
use vstd::prelude::*;
use crate::text::push_chars;

verus! {

/// Where a voice-input session was started from.
#[derive(Clone, Copy, Debug, PartialEq, Eq)]
pub enum VoiceInputStartSource {
    SlashCommand,
    Keybinding,
}

impl VoiceInputStartSource {
    /// Whether starting from this source clears the composer first.
    pub fn clears_input(self) -> (clears: bool)
        ensures
            clears == (self is SlashCommand),
    {
        match self {
            VoiceInputStartSource::SlashCommand => true,
            VoiceInputStartSource::Keybinding => false,
        }
    }
}

/// The phase of voice input.
#[derive(Clone, Copy, Debug, PartialEq, Eq, Structural)]
pub enum TuiVoiceInputState {
    Idle,
    Listening,
    Transcribing,
}

/// What observers of voice input are told.
#[derive(Clone, Debug, PartialEq, Eq)]
pub enum TuiVoiceInputEvent {
    StateChanged(TuiVoiceInputState),
    Completed(String),
    Failed(String),
    Cancelled,
}

/// Outside work that a transition asks for.
#[derive(Clone, Copy, Debug, PartialEq, Eq, Structural)]
pub enum VoiceAction {
    /// Open the microphone.
    StartListening,
    /// Await the recording session's result.
    AwaitRecording,
    /// Close the microphone and keep the recording.
    StopListening,
    /// Close the microphone and drop the recording.
    AbortListening,
    /// Mark transcription as running or not.
    SetTranscribingActive(bool),
    /// Abort the task awaiting the recording.
    AbortRecording,
    /// Transcribe the recording.
    Transcribe,
    /// Abort the transcription task.
    AbortTranscription,
}

/// Why the microphone could not be opened.
#[derive(Clone, Copy, Debug, PartialEq, Eq, Structural)]
pub enum StartListeningError {
    AccessDenied,
    AlreadyRunning,
    Other,
}

/// Why a transcription failed.
#[derive(Clone, Copy, Debug, PartialEq, Eq, Structural)]
pub enum TranscribeError {
    QuotaLimit,
    ServerOverloaded,
    Other,
}

/// An input to the lifecycle.
#[derive(Debug)]
pub enum VoiceInput {
    /// The user asks to start; `available` when voice input is enabled and
    /// allowed for this user.
    StartRequested { available: bool },
    /// The microphone opened, or could not.
    StartResult(Result<(), StartListeningError>),
    /// The user asks to stop listening.
    StopRequested,
    /// The microphone closed, or could not.
    StopResult { ok: bool },
    /// The user cancels.
    Cancel,
    /// The recording task finished: with audio or not, and whether a
    /// transcriber is configured.
    SessionResult { audio: bool, has_transcriber: bool },
    /// The transcription finished.
    TranscriptionResult(Result<String, TranscribeError>),
}

/// An event with its text taken by value.
pub enum EventView {
    StateChanged(TuiVoiceInputState),
    Completed(Seq<char>),
    Failed(Seq<char>),
    Cancelled,
}

pub open spec fn event_view(e: TuiVoiceInputEvent) -> EventView {
    match e {
        TuiVoiceInputEvent::StateChanged(s) => EventView::StateChanged(s),
        TuiVoiceInputEvent::Completed(t) => EventView::Completed(t@),
        TuiVoiceInputEvent::Failed(t) => EventView::Failed(t@),
        TuiVoiceInputEvent::Cancelled => EventView::Cancelled,
    }
}

pub open spec fn event_views(events: Seq<TuiVoiceInputEvent>) -> Seq<EventView> {
    Seq::new(events.len(), |i: int| event_view(events[i]))
}

/// The lifecycle's state: the phase and which tasks are running.
#[derive(Clone, Copy, Debug, PartialEq, Eq, Structural)]
pub struct VoiceLifecycle {
    pub state: TuiVoiceInputState,
    pub recording_pending: bool,
    pub transcription_pending: bool,
}

/// The outcome of one input: events in order, and the work to do.
pub struct VoiceStep {
    pub events: Vec<TuiVoiceInputEvent>,
    pub actions: Vec<VoiceAction>,
}

/// Failing back to idle with `hint`, unless already idle.
pub open spec fn failed(l: VoiceLifecycle, hint: Seq<char>, actions: Seq<VoiceAction>) -> (
    VoiceLifecycle,
    Seq<EventView>,
    Seq<VoiceAction>,
) {
    if l.state == TuiVoiceInputState::Idle {
        (l, Seq::empty(), actions)
    } else {
        (
            VoiceLifecycle { state: TuiVoiceInputState::Idle, ..l },
            seq![EventView::Failed(hint), EventView::StateChanged(TuiVoiceInputState::Idle)],
            actions,
        )
    }
}

/// The hint for a transcription error.
pub open spec fn transcribe_error_hint(e: TranscribeError) -> Seq<char> {
    match e {
        TranscribeError::QuotaLimit => "Voice input limit reached"@,
        TranscribeError::ServerOverloaded => "Voice transcription is unavailable"@,
        TranscribeError::Other => "Failed to transcribe voice input"@,
    }
}

/// The transition for `input` from `l`.
pub open spec fn spec_step(l: VoiceLifecycle, input: VoiceInput) -> (
    VoiceLifecycle,
    Seq<EventView>,
    Seq<VoiceAction>,
) {
    let none = (l, Seq::<EventView>::empty(), Seq::<VoiceAction>::empty());
    match input {
        VoiceInput::StartRequested { available } => if l.state != TuiVoiceInputState::Idle {
            none
        } else if !available {
            (l, seq![EventView::Failed("Voice input is unavailable"@)], Seq::empty())
        } else {
            (l, Seq::empty(), seq![VoiceAction::StartListening])
        },
        VoiceInput::StartResult(result) => if l.state != TuiVoiceInputState::Idle {
            none
        } else {
            match result {
                Ok(()) => (
                    VoiceLifecycle {
                        state: TuiVoiceInputState::Listening,
                        recording_pending: true,
                        ..l
                    },
                    seq![EventView::StateChanged(TuiVoiceInputState::Listening)],
                    seq![VoiceAction::AwaitRecording],
                ),
                Err(StartListeningError::AccessDenied) => (
                    l,
                    seq![EventView::Failed("Microphone access denied"@)],
                    Seq::empty(),
                ),
                Err(_) => (
                    l,
                    seq![EventView::Failed("Unable to start voice input"@)],
                    Seq::empty(),
                ),
            }
        },
        VoiceInput::StopRequested => if l.state != TuiVoiceInputState::Listening {
            none
        } else {
            (l, Seq::empty(), seq![VoiceAction::StopListening])
        },
        VoiceInput::StopResult { ok } => if l.state != TuiVoiceInputState::Listening {
            none
        } else if ok {
            (
                VoiceLifecycle { state: TuiVoiceInputState::Transcribing, ..l },
                seq![EventView::StateChanged(TuiVoiceInputState::Transcribing)],
                Seq::empty(),
            )
        } else {
            failed(l, "Failed to stop voice input"@, seq![VoiceAction::AbortListening])
        },
        VoiceInput::Cancel => if l.state == TuiVoiceInputState::Idle {
            none
        } else {
            (
                VoiceLifecycle {
                    state: TuiVoiceInputState::Idle,
                    recording_pending: false,
                    transcription_pending: false,
                },
                seq![EventView::Cancelled, EventView::StateChanged(TuiVoiceInputState::Idle)],
                (if l.state == TuiVoiceInputState::Listening {
                    seq![VoiceAction::AbortListening]
                } else {
                    seq![VoiceAction::SetTranscribingActive(false)]
                }) + (if l.recording_pending {
                    seq![VoiceAction::AbortRecording]
                } else {
                    Seq::empty()
                }) + (if l.transcription_pending {
                    seq![VoiceAction::AbortTranscription]
                } else {
                    Seq::empty()
                }),
            )
        },
        VoiceInput::SessionResult { audio, has_transcriber } => {
            let l2 = VoiceLifecycle { recording_pending: false, ..l };
            if l.state != TuiVoiceInputState::Transcribing {
                (l2, Seq::empty(), Seq::empty())
            } else if !audio {
                failed(l2, "Voice input stopped"@, Seq::empty())
            } else if !has_transcriber {
                failed(l2, "Voice transcription is unavailable"@, Seq::empty())
            } else {
                (
                    VoiceLifecycle { transcription_pending: true, ..l2 },
                    Seq::empty(),
                    seq![VoiceAction::SetTranscribingActive(true), VoiceAction::Transcribe],
                )
            }
        },
        VoiceInput::TranscriptionResult(result) => {
            let l2 = VoiceLifecycle { transcription_pending: false, ..l };
            if l.state != TuiVoiceInputState::Transcribing {
                (l2, Seq::empty(), Seq::empty())
            } else {
                (
                    VoiceLifecycle { state: TuiVoiceInputState::Idle, ..l2 },
                    seq![
                        match result {
                            Ok(text) => EventView::Completed(text@),
                            Err(e) => EventView::Failed(transcribe_error_hint(e)),
                        },
                        EventView::StateChanged(TuiVoiceInputState::Idle),
                    ],
                    seq![VoiceAction::SetTranscribingActive(false)],
                )
            }
        },
    }
}

fn owned(s: &str) -> (out: String)
    ensures
        out@ == s@,
{
    let mut out = String::new();
    push_chars(&mut out, s);
    out
}

impl VoiceLifecycle {
    /// Idle, with no task running.
    pub fn new() -> (l: Self)
        ensures
            l.state == TuiVoiceInputState::Idle,
            !l.recording_pending,
            !l.transcription_pending,
    {
        VoiceLifecycle {
            state: TuiVoiceInputState::Idle,
            recording_pending: false,
            transcription_pending: false,
        }
    }

    /// The current phase.
    pub fn state(&self) -> (state: TuiVoiceInputState)
        ensures
            state == self.state,
    {
        self.state
    }

    /// Whether a session is listening or transcribing.
    pub fn is_active(&self) -> (active: bool)
        ensures
            active == (self.state != TuiVoiceInputState::Idle),
    {
        match self.state {
            TuiVoiceInputState::Idle => false,
            _ => true,
        }
    }

    fn fail(&mut self, hint: &str, step: &mut VoiceStep)
        ensures
            ({
                let (l, events, actions) = failed(*old(self), hint@, old(step).actions@);
                &&& *final(self) == l
                &&& event_views(final(step).events@) == event_views(old(step).events@) + events
                &&& final(step).actions@ == actions
            }),
    {
        if self.state == TuiVoiceInputState::Idle {
            assert(event_views(step.events@) =~= event_views(step.events@) + Seq::<EventView>::empty());
            return;
        }
        self.state = TuiVoiceInputState::Idle;
        let ghost before = step.events@;
        step.events.push(TuiVoiceInputEvent::Failed(owned(hint)));
        step.events.push(TuiVoiceInputEvent::StateChanged(TuiVoiceInputState::Idle));
        assert(event_views(step.events@) =~= event_views(before) + seq![
            EventView::Failed(hint@),
            EventView::StateChanged(TuiVoiceInputState::Idle),
        ]);
    }

    /// Advances the lifecycle by one input: a start is refused while a
    /// session is active and reported when voice input is unavailable or the
    /// microphone cannot open; stopping moves from listening to
    /// transcribing; cancelling returns to idle and aborts what runs; a
    /// recording without audio or without a transcriber fails the session;
    /// a transcription completes or fails it. Results that arrive after the
    /// session moved on change nothing but the task bookkeeping.
    pub fn step(&mut self, input: VoiceInput) -> (step: VoiceStep)
        ensures
            ({
                let (l, events, actions) = spec_step(*old(self), input);
                &&& *final(self) == l
                &&& event_views(step.events@) == events
                &&& step.actions@ == actions
            }),
    {
        let mut step = VoiceStep { events: Vec::new(), actions: Vec::new() };
        let ghost start = *self;
        assert(event_views(step.events@) =~= Seq::<EventView>::empty());
        match input {
            VoiceInput::StartRequested { available } => {
                if self.state == TuiVoiceInputState::Idle {
                    if !available {
                        step.events.push(TuiVoiceInputEvent::Failed(owned("Voice input is unavailable")));
                    } else {
                        step.actions.push(VoiceAction::StartListening);
                    }
                }
            },
            VoiceInput::StartResult(result) => {
                if self.state == TuiVoiceInputState::Idle {
                    match result {
                        Ok(()) => {
                            self.state = TuiVoiceInputState::Listening;
                            self.recording_pending = true;
                            step.events.push(
                                TuiVoiceInputEvent::StateChanged(TuiVoiceInputState::Listening),
                            );
                            step.actions.push(VoiceAction::AwaitRecording);
                        },
                        Err(StartListeningError::AccessDenied) => {
                            step.events.push(TuiVoiceInputEvent::Failed(owned("Microphone access denied")));
                        },
                        Err(_) => {
                            step.events.push(
                                TuiVoiceInputEvent::Failed(owned("Unable to start voice input")),
                            );
                        },
                    }
                }
            },
            VoiceInput::StopRequested => {
                if self.state == TuiVoiceInputState::Listening {
                    step.actions.push(VoiceAction::StopListening);
                }
            },
            VoiceInput::StopResult { ok } => {
                if self.state == TuiVoiceInputState::Listening {
                    if ok {
                        self.state = TuiVoiceInputState::Transcribing;
                        step.events.push(
                            TuiVoiceInputEvent::StateChanged(TuiVoiceInputState::Transcribing),
                        );
                    } else {
                        step.actions.push(VoiceAction::AbortListening);
                        self.fail("Failed to stop voice input", &mut step);
                    }
                }
            },
            VoiceInput::Cancel => {
                if self.state != TuiVoiceInputState::Idle {
                    if self.state == TuiVoiceInputState::Listening {
                        step.actions.push(VoiceAction::AbortListening);
                    } else {
                        step.actions.push(VoiceAction::SetTranscribingActive(false));
                    }
                    if self.recording_pending {
                        step.actions.push(VoiceAction::AbortRecording);
                    }
                    if self.transcription_pending {
                        step.actions.push(VoiceAction::AbortTranscription);
                    }
                    self.state = TuiVoiceInputState::Idle;
                    self.recording_pending = false;
                    self.transcription_pending = false;
                    step.events.push(TuiVoiceInputEvent::Cancelled);
                    step.events.push(TuiVoiceInputEvent::StateChanged(TuiVoiceInputState::Idle));
                }
            },
            VoiceInput::SessionResult { audio, has_transcriber } => {
                self.recording_pending = false;
                if self.state == TuiVoiceInputState::Transcribing {
                    if !audio {
                        self.fail("Voice input stopped", &mut step);
                    } else if !has_transcriber {
                        self.fail("Voice transcription is unavailable", &mut step);
                    } else {
                        self.transcription_pending = true;
                        step.actions.push(VoiceAction::SetTranscribingActive(true));
                        step.actions.push(VoiceAction::Transcribe);
                    }
                }
            },
            VoiceInput::TranscriptionResult(result) => {
                self.transcription_pending = false;
                if self.state == TuiVoiceInputState::Transcribing {
                    step.actions.push(VoiceAction::SetTranscribingActive(false));
                    self.state = TuiVoiceInputState::Idle;
                    match result {
                        Ok(text) => {
                            step.events.push(TuiVoiceInputEvent::Completed(text));
                        },
                        Err(error) => {
                            let hint = match error {
                                TranscribeError::QuotaLimit => "Voice input limit reached",
                                TranscribeError::ServerOverloaded => "Voice transcription is unavailable",
                                TranscribeError::Other => "Failed to transcribe voice input",
                            };
                            step.events.push(TuiVoiceInputEvent::Failed(owned(hint)));
                        },
                    }
                    step.events.push(TuiVoiceInputEvent::StateChanged(TuiVoiceInputState::Idle));
                }
            },
        }
        assert(event_views(step.events@) =~= spec_step(start, input).1);
        assert(step.actions@ =~= spec_step(start, input).2);
        step
    }
}

/// Observers always learn the phase: whenever an input changes it, the last
/// event reports the new phase; a start never replaces an active session;
/// and cancelling always ends in idle.
pub proof fn law_state_changes_are_announced(l: VoiceLifecycle, input: VoiceInput)
    ensures
        ({
            let (next, events, _) = spec_step(l, input);
            &&& next.state != l.state ==> events.len() > 0 && events.last() == EventView::StateChanged(
                next.state,
            )
            &&& (input is StartRequested && l.state != TuiVoiceInputState::Idle) ==> next == l
                && events.len() == 0
            &&& input is Cancel ==> next.state == TuiVoiceInputState::Idle
        }),
{
}

} // verus!

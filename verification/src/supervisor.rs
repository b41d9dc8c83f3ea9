//! The supervision of one child process, as a machine that is told what
//! happened and says what to do next.

use vstd::prelude::*;
use vstd::utf8::{decode_utf8, valid_utf8};

verus! {

/// A request sent to a running supervisor.
#[derive(Debug, Clone, Copy, PartialEq, Eq, Structural)]
pub enum PSubInput {
    /// Kill the child, after handing over what it has written so far.
    Terminate,
    /// Hand over what the child has written since the last request.
    ReadInput,
}

/// A notification from a supervisor to its caller. The number is the slot
/// that the supervisor was started for.
pub enum Event {
    /// The child runs and the supervisor takes requests.
    Ready(usize),
    /// Output of the child, as text.
    GotLogs(usize, String),
    /// The child is gone and the supervisor has stopped.
    ProcessEnded(usize),
}

/// An `Event` as mathematical values.
pub enum EventView {
    Ready(usize),
    GotLogs(usize, Seq<char>),
    ProcessEnded(usize),
}

impl View for Event {
    type V = EventView;

    open spec fn view(&self) -> EventView {
        match self {
            Event::Ready(slot) => EventView::Ready(*slot),
            Event::GotLogs(slot, text) => EventView::GotLogs(*slot, text@),
            Event::ProcessEnded(slot) => EventView::ProcessEnded(*slot),
        }
    }
}

/// The view of an optional event.
pub open spec fn opt_event(e: Option<Event>) -> Option<EventView> {
    match e {
        Some(e) => Some(e@),
        None => None,
    }
}

/// Where a supervisor stands.
#[derive(Debug, Clone, Copy, PartialEq, Eq, Structural)]
pub enum Phase {
    /// The child has not been spawned yet.
    Starting,
    /// The child runs; the supervisor waits for a request.
    Ready,
    /// A `ReadInput` is served: output is being collected.
    Reading,
    /// A `ReadInput` is served: the output is handed over, the child's exit
    /// is being checked.
    ExitCheck,
    /// A `Terminate` is served: output is being handed over.
    Terminating,
    /// A `Terminate` is served: the child is being killed.
    Killing,
    /// The supervisor has stopped.
    Ended,
}

/// The outside work that a supervisor asks for next.
#[derive(Debug, Clone, Copy, PartialEq, Eq, Structural)]
pub enum Request {
    /// Spawn the child and merge its two output streams.
    Spawn,
    /// Wait for the next `PSubInput`.
    AwaitInput,
    /// Read what is available of the merged output, without waiting.
    PollRead,
    /// Check, without waiting, whether the child has exited.
    CheckExit,
    /// Kill the child.
    Kill,
    /// Nothing more: the supervisor has stopped.
    Stop,
}

/// What a supervisor is told: the outcome of the work it asked for.
pub enum Signal {
    /// Whether the child was spawned.
    Spawned(bool),
    /// A request of the caller has arrived.
    Input(PSubInput),
    /// A read brought output, here as text.
    Text(String),
    /// A read brought nothing: no output is available now, the stream is at
    /// its end, or the read failed.
    Drained,
    /// Whether the child has exited.
    Exit(bool),
    /// The kill was attempted, and whether it succeeded.
    Killed(bool),
}

/// A `Signal` as mathematical values.
pub enum SignalView {
    Spawned(bool),
    Input(PSubInput),
    Text(Seq<char>),
    Drained,
    Exit(bool),
    Killed(bool),
}

impl View for Signal {
    type V = SignalView;

    open spec fn view(&self) -> SignalView {
        match self {
            Signal::Spawned(ok) => SignalView::Spawned(*ok),
            Signal::Input(input) => SignalView::Input(*input),
            Signal::Text(text) => SignalView::Text(text@),
            Signal::Drained => SignalView::Drained,
            Signal::Exit(exited) => SignalView::Exit(*exited),
            Signal::Killed(ok) => SignalView::Killed(*ok),
        }
    }
}

/// What a read of the merged output brought.
pub enum ReadOutcome {
    /// The read returned these bytes; none at the end of the stream.
    Data(Vec<u8>),
    /// Nothing is available now.
    Pending,
    /// The read failed.
    Failed,
}

/// A `ReadOutcome` as mathematical values.
pub enum ReadOutcomeView {
    Data(Seq<u8>),
    Pending,
    Failed,
}

impl View for ReadOutcome {
    type V = ReadOutcomeView;

    open spec fn view(&self) -> ReadOutcomeView {
        match self {
            ReadOutcome::Data(bytes) => ReadOutcomeView::Data(bytes@),
            ReadOutcome::Pending => ReadOutcomeView::Pending,
            ReadOutcome::Failed => ReadOutcomeView::Failed,
        }
    }
}

/// The outcome of outside work as the caller has it: like `Signal`, but with
/// the bytes of a read not yet turned into text.
pub enum Reply {
    Spawned(bool),
    Input(PSubInput),
    Read(ReadOutcome),
    Exit(bool),
    Killed(bool),
}

/// A `Reply` as mathematical values.
pub enum ReplyView {
    Spawned(bool),
    Input(PSubInput),
    Read(ReadOutcomeView),
    Exit(bool),
    Killed(bool),
}

impl View for Reply {
    type V = ReplyView;

    open spec fn view(&self) -> ReplyView {
        match self {
            Reply::Spawned(ok) => ReplyView::Spawned(*ok),
            Reply::Input(input) => ReplyView::Input(*input),
            Reply::Read(outcome) => ReplyView::Read(outcome@),
            Reply::Exit(exited) => ReplyView::Exit(*exited),
            Reply::Killed(ok) => ReplyView::Killed(*ok),
        }
    }
}

/// The text that the bytes decode to when every invalid sequence is replaced
/// by U+FFFD.
pub uninterp spec fn lossy_text(bytes: Seq<u8>) -> Seq<char>;

/// Calls `String::from_utf8_lossy`. The result is named `lossy_text`; for
/// bytes that are valid UTF-8 it is the text that they encode, as the
/// function's documentation says. Nothing else is claimed of it.
#[verifier::external_body]
fn decode_lossy(bytes: &[u8]) -> (r: String)
    ensures
        r@ == lossy_text(bytes@),
        valid_utf8(bytes@) ==> r@ == decode_utf8(bytes@),
{
    String::from_utf8_lossy(bytes).into_owned()
}

/// The signal that a reply stands for: bytes become text, and a read that
/// brought no byte, is pending or failed means that nothing more is there.
pub open spec fn signal_of(reply: ReplyView) -> SignalView {
    match reply {
        ReplyView::Spawned(ok) => SignalView::Spawned(ok),
        ReplyView::Input(input) => SignalView::Input(input),
        ReplyView::Read(ReadOutcomeView::Data(bytes)) => if bytes.len() > 0 {
            SignalView::Text(lossy_text(bytes))
        } else {
            SignalView::Drained
        },
        ReplyView::Read(_) => SignalView::Drained,
        ReplyView::Exit(exited) => SignalView::Exit(exited),
        ReplyView::Killed(ok) => SignalView::Killed(ok),
    }
}

/// Turns a reply into the signal that it stands for.
pub fn to_signal(reply: Reply) -> (r: Signal)
    ensures
        r@ == signal_of(reply@),
        match reply@ {
            ReplyView::Read(ReadOutcomeView::Data(bytes)) => bytes.len() > 0 && valid_utf8(bytes)
                ==> r@ == SignalView::Text(decode_utf8(bytes)),
            _ => true,
        },
{
    match reply {
        Reply::Spawned(ok) => Signal::Spawned(ok),
        Reply::Input(input) => Signal::Input(input),
        Reply::Read(ReadOutcome::Data(bytes)) => {
            if bytes.len() > 0 {
                Signal::Text(decode_lossy(bytes.as_slice()))
            } else {
                Signal::Drained
            }
        },
        Reply::Read(_) => Signal::Drained,
        Reply::Exit(exited) => Signal::Exit(exited),
        Reply::Killed(ok) => Signal::Killed(ok),
    }
}

/// What one step of a supervisor yields: at most one event for the caller,
/// to be sent first, and the work to do next.
pub struct Step {
    pub emit: Option<Event>,
    pub request: Request,
}

/// A `Step` as mathematical values.
pub struct StepView {
    pub emit: Option<EventView>,
    pub request: Request,
}

impl View for Step {
    type V = StepView;

    open spec fn view(&self) -> StepView {
        StepView { emit: opt_event(self.emit), request: self.request }
    }
}

/// A `Supervisor` as mathematical values.
pub struct SupervisorView {
    pub slot: usize,
    pub phase: Phase,
    pub logs: Seq<char>,
    pub rounds_left: usize,
    pub drain_limit: usize,
}

/// The state of the supervision of one child process. It decides; the caller
/// does the outside work that each step asks for and reports the outcome.
pub struct Supervisor {
    /// The slot that events are labelled with.
    pub slot: usize,
    pub phase: Phase,
    /// Output collected while a `ReadInput` is served.
    pub logs: String,
    /// How many more reads a `Terminate` that is being served may make.
    pub rounds_left: usize,
    /// How many reads a `Terminate` may make before the child is killed.
    pub drain_limit: usize,
}

impl View for Supervisor {
    type V = SupervisorView;

    open spec fn view(&self) -> SupervisorView {
        SupervisorView {
            slot: self.slot,
            phase: self.phase,
            logs: self.logs@,
            rounds_left: self.rounds_left,
            drain_limit: self.drain_limit,
        }
    }
}

/// The work that a supervisor in the given phase waits for.
pub open spec fn pending(phase: Phase) -> Request {
    match phase {
        Phase::Starting => Request::Spawn,
        Phase::Ready => Request::AwaitInput,
        Phase::Reading => Request::PollRead,
        Phase::ExitCheck => Request::CheckExit,
        Phase::Terminating => Request::PollRead,
        Phase::Killing => Request::Kill,
        Phase::Ended => Request::Stop,
    }
}

/// Whether the signal reports the outcome of the given work. After the stop
/// every signal is accepted, and ignored.
pub open spec fn answers(request: Request, signal: SignalView) -> bool {
    match request {
        Request::Spawn => signal is Spawned,
        Request::AwaitInput => signal is Input,
        Request::PollRead => signal is Text || signal is Drained,
        Request::CheckExit => signal is Exit,
        Request::Kill => signal is Killed,
        Request::Stop => true,
    }
}

/// The supervisor in another phase, and the step that asks for the work of
/// that phase.
pub open spec fn enter(s: SupervisorView, phase: Phase, emit: Option<EventView>) -> (
    SupervisorView,
    StepView,
) {
    (SupervisorView { phase, ..s }, StepView { emit, request: pending(phase) })
}

/// One step: the supervisor after the signal, with the event to send and the
/// work to do next. A signal that does not answer the pending work changes
/// nothing, and the work is asked for again.
pub open spec fn next(s: SupervisorView, signal: SignalView) -> (SupervisorView, StepView) {
    match (s.phase, signal) {
        (Phase::Starting, SignalView::Spawned(true)) => enter(
            s,
            Phase::Ready,
            Some(EventView::Ready(s.slot)),
        ),
        (Phase::Starting, SignalView::Spawned(false)) => enter(s, Phase::Ended, None),
        (Phase::Ready, SignalView::Input(PSubInput::ReadInput)) => enter(
            SupervisorView { logs: Seq::empty(), ..s },
            Phase::Reading,
            None,
        ),
        (Phase::Ready, SignalView::Input(PSubInput::Terminate)) => if s.drain_limit == 0 {
            enter(s, Phase::Killing, None)
        } else {
            enter(SupervisorView { rounds_left: s.drain_limit, ..s }, Phase::Terminating, None)
        },
        (Phase::Reading, SignalView::Text(text)) => enter(
            SupervisorView { logs: s.logs + text, ..s },
            Phase::Reading,
            None,
        ),
        (Phase::Reading, SignalView::Drained) => enter(
            SupervisorView { logs: Seq::empty(), ..s },
            Phase::ExitCheck,
            if s.logs.len() > 0 {
                Some(EventView::GotLogs(s.slot, s.logs))
            } else {
                None
            },
        ),
        (Phase::ExitCheck, SignalView::Exit(true)) => enter(
            s,
            Phase::Ended,
            Some(EventView::ProcessEnded(s.slot)),
        ),
        (Phase::ExitCheck, SignalView::Exit(false)) => enter(s, Phase::Ready, None),
        (Phase::Terminating, SignalView::Text(text)) => if s.rounds_left <= 1 {
            enter(
                SupervisorView { rounds_left: 0, ..s },
                Phase::Killing,
                Some(EventView::GotLogs(s.slot, text)),
            )
        } else {
            enter(
                SupervisorView { rounds_left: (s.rounds_left - 1) as usize, ..s },
                Phase::Terminating,
                Some(EventView::GotLogs(s.slot, text)),
            )
        },
        (Phase::Terminating, SignalView::Drained) => enter(s, Phase::Killing, None),
        (Phase::Killing, SignalView::Killed(_)) => enter(
            s,
            Phase::Ended,
            Some(EventView::ProcessEnded(s.slot)),
        ),
        _ => enter(s, s.phase, None),
    }
}

impl Supervisor {
    /// A supervisor for the given slot, before the child is spawned. A
    /// `Terminate` will make at most `drain_limit` reads before the kill.
    pub fn new(slot: usize, drain_limit: usize) -> (r: Self)
        ensures
            r@ == (SupervisorView {
                slot,
                phase: Phase::Starting,
                logs: Seq::empty(),
                rounds_left: 0,
                drain_limit,
            }),
    {
        Supervisor { slot, phase: Phase::Starting, logs: String::new(), rounds_left: 0, drain_limit }
    }

    /// The work that the supervisor waits for.
    pub fn pending_request(&self) -> (r: Request)
        ensures
            r == pending(self.phase),
    {
        match self.phase {
            Phase::Starting => Request::Spawn,
            Phase::Ready => Request::AwaitInput,
            Phase::Reading => Request::PollRead,
            Phase::ExitCheck => Request::CheckExit,
            Phase::Terminating => Request::PollRead,
            Phase::Killing => Request::Kill,
            Phase::Ended => Request::Stop,
        }
    }

    /// Whether the supervisor has stopped.
    pub fn has_ended(&self) -> (r: bool)
        ensures
            r == (self.phase == Phase::Ended),
    {
        match self.phase {
            Phase::Ended => true,
            _ => false,
        }
    }

    fn go(&mut self, phase: Phase, emit: Option<Event>) -> (step: Step)
        ensures
            (final(self)@, step@) == enter(old(self)@, phase, opt_event(emit)),
    {
        self.phase = phase;
        Step { emit, request: self.pending_request() }
    }

    /// Takes one signal and says what to do next.
    pub fn on_signal(&mut self, signal: Signal) -> (step: Step)
        ensures
            (final(self)@, step@) == next(old(self)@, signal@),
    {
        let phase = self.phase;
        match (phase, signal) {
            (Phase::Starting, Signal::Spawned(true)) => {
                let e = Event::Ready(self.slot);
                self.go(Phase::Ready, Some(e))
            },
            (Phase::Starting, Signal::Spawned(false)) => self.go(Phase::Ended, None),
            (Phase::Ready, Signal::Input(PSubInput::ReadInput)) => {
                self.logs = String::new();
                self.go(Phase::Reading, None)
            },
            (Phase::Ready, Signal::Input(PSubInput::Terminate)) => {
                if self.drain_limit == 0 {
                    self.go(Phase::Killing, None)
                } else {
                    self.rounds_left = self.drain_limit;
                    self.go(Phase::Terminating, None)
                }
            },
            (Phase::Reading, Signal::Text(text)) => {
                self.logs.append(text.as_str());
                self.go(Phase::Reading, None)
            },
            (Phase::Reading, Signal::Drained) => {
                let logs = self.logs.clone();
                self.logs = String::new();
                if logs.as_str().is_empty() {
                    self.go(Phase::ExitCheck, None)
                } else {
                    let e = Event::GotLogs(self.slot, logs);
                    self.go(Phase::ExitCheck, Some(e))
                }
            },
            (Phase::ExitCheck, Signal::Exit(true)) => {
                let e = Event::ProcessEnded(self.slot);
                self.go(Phase::Ended, Some(e))
            },
            (Phase::ExitCheck, Signal::Exit(false)) => self.go(Phase::Ready, None),
            (Phase::Terminating, Signal::Text(text)) => {
                let e = Event::GotLogs(self.slot, text);
                if self.rounds_left <= 1 {
                    self.rounds_left = 0;
                    self.go(Phase::Killing, Some(e))
                } else {
                    self.rounds_left = self.rounds_left - 1;
                    self.go(Phase::Terminating, Some(e))
                }
            },
            (Phase::Terminating, Signal::Drained) => self.go(Phase::Killing, None),
            (Phase::Killing, Signal::Killed(_)) => {
                let e = Event::ProcessEnded(self.slot);
                self.go(Phase::Ended, Some(e))
            },
            _ => self.go(phase, None),
        }
    }

    /// Takes the outcome of the work that was asked for, decodes the bytes of
    /// a read, and says what to do next. Bytes that are valid UTF-8 count as
    /// the text that they encode.
    pub fn advance(&mut self, reply: Reply) -> (step: Step)
        ensures
            (final(self)@, step@) == next(old(self)@, signal_of(reply@)),
            match reply@ {
                ReplyView::Read(ReadOutcomeView::Data(bytes)) => bytes.len() > 0 && valid_utf8(bytes)
                    ==> (final(self)@, step@) == next(
                    old(self)@,
                    SignalView::Text(decode_utf8(bytes)),
                ),
                _ => true,
            },
    {
        let signal = to_signal(reply);
        self.on_signal(signal)
    }
}

} // verus!

//! The dispatcher: takes up one request at a time and sends its response.
//!
//! The dispatcher decides; its driver performs the actions in order and reports
//! what came of the last one.

use vstd::prelude::*;
use vstd::slice::slice_to_vec;

use crate::transport::line;
use crate::transport::reader;
use crate::transport::reader::{ReadOutcomeView, ReaderView};
use crate::transport::status;
use crate::transport::status::Status;
use crate::transport::writer;

verus! {

/// How long to wait, in milliseconds, once the host is back after it went away
/// during a transfer.
pub const RECONNECT_PAUSE_MS: u64 = 500;

/// How one transfer went.
pub enum WriteOutcome {
    /// That many bytes were taken.
    Written(usize),
    /// The host is gone.
    HostDisconnected,
    /// The transfer failed; the field is the error's rendering.
    Failed(String),
}

/// Mathematical counterpart of [`WriteOutcome`].
pub enum WriteOutcomeView {
    Written(nat),
    HostDisconnected,
    Failed(Seq<char>),
}

impl View for WriteOutcome {
    type V = WriteOutcomeView;

    open spec fn view(&self) -> WriteOutcomeView {
        match *self {
            WriteOutcome::Written(n) => WriteOutcomeView::Written(n as nat),
            WriteOutcome::HostDisconnected => WriteOutcomeView::HostDisconnected,
            WriteOutcome::Failed(error) => WriteOutcomeView::Failed(error@),
        }
    }
}

/// What the driver reports to the dispatcher.
pub enum ServeEvent {
    /// The reader delivered a payload.
    Payload(Vec<u8>),
    /// The reader is gone, and with it every further payload.
    ReaderGone,
    /// The payload was handled and its response serialised, or could not be;
    /// the error is given by its rendering.
    Serialised(Result<Vec<u8>, String>),
    /// The transfer asked for was tried.
    Tried(WriteOutcome),
}

/// Mathematical counterpart of [`ServeEvent`]. A response that could not be
/// serialised is an event of its own.
pub enum ServeEventView {
    Payload(Seq<u8>),
    ReaderGone,
    Response(Seq<u8>),
    NoResponse(Seq<char>),
    Tried(WriteOutcomeView),
}

impl View for ServeEvent {
    type V = ServeEventView;

    open spec fn view(&self) -> ServeEventView {
        match *self {
            ServeEvent::Payload(payload) => ServeEventView::Payload(payload@),
            ServeEvent::ReaderGone => ServeEventView::ReaderGone,
            ServeEvent::Serialised(Ok(response)) => ServeEventView::Response(response@),
            ServeEvent::Serialised(Err(error)) => ServeEventView::NoResponse(error@),
            ServeEvent::Tried(outcome) => ServeEventView::Tried(outcome@),
        }
    }
}

/// One transfer of a response.
pub struct Chunk {
    /// Running number within the response, from 1.
    pub index: u64,
    pub bytes: Vec<u8>,
}

/// What the driver has to do, in order. `Receive`, `Handle` and `Write` call for
/// the next event.
pub enum ServeAction {
    /// Show a status.
    Show(Status),
    /// Wait until the host is back.
    WaitForConnection,
    /// Pause for that many milliseconds.
    Sleep(u64),
    /// Take the next payload from the reader.
    Receive,
    /// Handle the payload and serialise its response.
    Handle(Vec<u8>),
    /// Try the transfer, once.
    Write(Chunk),
    /// End serving, without an error.
    Finish,
}

/// Mathematical counterpart of [`ServeAction`].
pub enum ServeActionView {
    Show(Seq<char>),
    WaitForConnection,
    Sleep(nat),
    Receive,
    Handle(Seq<u8>),
    Write { index: nat, bytes: Seq<u8> },
    Finish,
}

impl View for ServeAction {
    type V = ServeActionView;

    open spec fn view(&self) -> ServeActionView {
        match *self {
            ServeAction::Show(status) => ServeActionView::Show(status@),
            ServeAction::WaitForConnection => ServeActionView::WaitForConnection,
            ServeAction::Sleep(ms) => ServeActionView::Sleep(ms as nat),
            ServeAction::Receive => ServeActionView::Receive,
            ServeAction::Handle(payload) => ServeActionView::Handle(payload@),
            ServeAction::Write(chunk) => ServeActionView::Write {
                index: chunk.index as nat,
                bytes: chunk.bytes@,
            },
            ServeAction::Finish => ServeActionView::Finish,
        }
    }
}

/// The views of a sequence of actions.
pub open spec fn action_views(actions: Seq<ServeAction>) -> Seq<ServeActionView> {
    actions.map_values(|a: ServeAction| a@)
}

/// Where the dispatcher stands with the request in flight, if there is one.
enum Stage {
    Idle,
    Handling,
    Sending { chunks: Vec<Vec<u8>>, tried: usize },
    Finished,
}

/// Where the dispatcher stands with the request in flight, if there is one.
pub enum StageView {
    /// No request is in flight.
    Idle,
    /// A request is being handled.
    Handling,
    /// The response is being sent: `tried` of its `transfers` have been tried,
    /// the next one has been asked for.
    Sending { transfers: Seq<Seq<u8>>, tried: nat },
    /// Serving has ended.
    Finished,
}

/// Takes up requests one at a time and counts those that have been answered.
pub struct Dispatcher {
    handled: u64,
    stage: Stage,
}

/// Mathematical counterpart of [`Dispatcher`].
pub struct DispatcherView {
    /// Requests answered so far.
    pub handled: nat,
    pub stage: StageView,
}

impl View for Dispatcher {
    type V = DispatcherView;

    closed spec fn view(&self) -> DispatcherView {
        DispatcherView {
            handled: self.handled as nat,
            stage: match self.stage {
                Stage::Idle => StageView::Idle,
                Stage::Handling => StageView::Handling,
                Stage::Sending { chunks, tried } => StageView::Sending {
                    transfers: writer::byte_views(chunks@),
                    tried: tried as nat,
                },
                Stage::Finished => StageView::Finished,
            },
        }
    }
}

/// What is done about the outcome of a transfer: it is announced, and only if
/// the host went away, its return is awaited and followed by a pause.
pub open spec fn outcome_actions(
    outcome: WriteOutcomeView,
    index: nat,
    len: nat,
) -> Seq<ServeActionView> {
    match outcome {
        WriteOutcomeView::Written(n) => seq![
            ServeActionView::Show(status::chunk_sent_text(index, len, n)),
        ],
        WriteOutcomeView::HostDisconnected => seq![
            ServeActionView::Show("tx: host disc"@),
            ServeActionView::WaitForConnection,
            ServeActionView::Sleep(RECONNECT_PAUSE_MS as nat),
        ],
        WriteOutcomeView::Failed(error) => seq![
            ServeActionView::Show("write err: "@ + error),
        ],
    }
}

impl DispatcherView {
    /// Nothing has been answered and nothing is in flight.
    pub open spec fn fresh() -> DispatcherView {
        DispatcherView { handled: 0, stage: StageView::Idle }
    }

    /// What is done first, in whatever state.
    pub open spec fn start_actions(self) -> Seq<ServeActionView> {
        seq![ServeActionView::Receive]
    }

    /// A transfer has been asked for while a response is being sent, and the
    /// request in flight can still be counted.
    pub open spec fn valid(self) -> bool {
        match self.stage {
            StageView::Idle | StageView::Finished => self.handled <= u64::MAX,
            StageView::Handling => self.handled < u64::MAX,
            StageView::Sending { transfers, tried } => self.handled < u64::MAX && tried
                < transfers.len(),
        }
    }

    /// Whether `event` is the one that the dispatcher waits for: a payload only
    /// if no request is in flight (and another one can be counted), the reader's
    /// end only if no request is in flight, a response only while a request is
    /// being handled, the outcome of a transfer only while a response is being
    /// sent. Once serving has ended, none.
    pub open spec fn awaits(self, event: ServeEventView) -> bool {
        match event {
            ServeEventView::Payload(_) => self.stage is Idle && self.handled < u64::MAX,
            ServeEventView::ReaderGone => self.stage is Idle,
            ServeEventView::Response(_) => self.stage is Handling,
            ServeEventView::NoResponse(_) => self.stage is Handling,
            ServeEventView::Tried(_) => self.stage is Sending,
        }
    }

    /// The state after `event`. Whatever came of a transfer, the next one is up;
    /// after the last one the request counts as answered. Serving ends when the
    /// reader is gone.
    pub open spec fn after(self, event: ServeEventView) -> DispatcherView {
        match event {
            ServeEventView::Payload(_) => DispatcherView { stage: StageView::Handling, ..self },
            ServeEventView::ReaderGone => DispatcherView { stage: StageView::Finished, ..self },
            ServeEventView::Response(response) => DispatcherView {
                stage: StageView::Sending {
                    transfers: writer::chunked(response.push(line::LF)),
                    tried: 0,
                },
                ..self
            },
            ServeEventView::NoResponse(_) => DispatcherView { stage: StageView::Idle, ..self },
            ServeEventView::Tried(_) => match self.stage {
                StageView::Sending { transfers, tried } => if tried + 1 < transfers.len() {
                    DispatcherView {
                        stage: StageView::Sending { transfers, tried: tried + 1 },
                        ..self
                    }
                } else {
                    DispatcherView { handled: self.handled + 1, stage: StageView::Idle }
                },
                _ => self,
            },
        }
    }

    /// What is done about `event`.
    pub open spec fn actions(self, event: ServeEventView) -> Seq<ServeActionView> {
        match event {
            ServeEventView::Payload(payload) => seq![
                ServeActionView::Show(
                    status::dispatching_text(self.handled + 1, payload.len()),
                ),
                ServeActionView::Handle(payload),
            ],
            ServeEventView::ReaderGone => seq![ServeActionView::Finish],
            ServeEventView::Response(response) => seq![
                ServeActionView::Show(
                    status::sending_text(response.len() + 1, self.handled + 1),
                ),
                ServeActionView::Write {
                    index: 1,
                    bytes: writer::chunked(response.push(line::LF))[0],
                },
            ],
            ServeEventView::NoResponse(error) => seq![
                ServeActionView::Show("serialise err: "@ + error),
                ServeActionView::Receive,
            ],
            ServeEventView::Tried(outcome) => match self.stage {
                StageView::Sending { transfers, tried } => outcome_actions(
                    outcome,
                    tried + 1,
                    transfers[tried as int].len(),
                ) + if tried + 1 < transfers.len() {
                    seq![
                        ServeActionView::Write {
                            index: tried + 2,
                            bytes: transfers[tried as int + 1],
                        },
                    ]
                } else {
                    seq![
                        ServeActionView::Show(status::done_text(self.handled + 1)),
                        ServeActionView::Receive,
                    ]
                },
                _ => Seq::empty(),
            },
        }
    }
}

/// The transfer that follows the first `tried` ones.
fn next_chunk(chunks: &Vec<Vec<u8>>, tried: usize) -> (chunk: Chunk)
    requires
        tried < chunks@.len(),
    ensures
        chunk.index == tried + 1,
        chunk.bytes@ == chunks@[tried as int]@,
{
    assert(tried < chunks.len());
    Chunk { index: tried as u64 + 1, bytes: slice_to_vec(chunks[tried].as_slice()) }
}

/// Appends what is to be done about the outcome of transfer `index`, of `len`
/// bytes.
fn push_outcome(actions: &mut Vec<ServeAction>, outcome: WriteOutcome, index: u64, len: usize)
    ensures
        action_views(final(actions)@) == action_views(old(actions)@) + outcome_actions(
            outcome@,
            index as nat,
            len as nat,
        ),
{
    let ghost before = action_views(actions@);
    let ghost expected = outcome_actions(outcome@, index as nat, len as nat);
    match outcome {
        WriteOutcome::Written(n) => {
            actions.push(ServeAction::Show(Status::ChunkSent { index, bytes: len, written: n }));
        },
        WriteOutcome::HostDisconnected => {
            actions.push(ServeAction::Show(Status::SendDisconnected));
            actions.push(ServeAction::WaitForConnection);
            actions.push(ServeAction::Sleep(RECONNECT_PAUSE_MS));
        },
        WriteOutcome::Failed(error) => {
            actions.push(ServeAction::Show(Status::WriteFailed { error }));
        },
    }
    assert(action_views(actions@) =~= before + expected);
}

impl Dispatcher {
    /// The state is valid.
    pub open spec fn well_formed(self) -> bool {
        self@.valid()
    }

    /// Nothing has been answered and nothing is in flight.
    pub fn new() -> (dispatcher: Dispatcher)
        ensures
            dispatcher.well_formed(),
            dispatcher@ == DispatcherView::fresh(),
    {
        Dispatcher { handled: 0, stage: Stage::Idle }
    }

    /// How many requests have been answered.
    pub fn handled(&self) -> (n: u64)
        ensures
            n == self@.handled,
    {
        self.handled
    }

    /// Whether `event` is the one that the dispatcher waits for.
    pub fn awaits(&self, event: &ServeEvent) -> (fits: bool)
        ensures
            fits == self@.awaits(event@),
    {
        assert(event is Serialised ==> event@ is Response || event@ is NoResponse);
        match (event, &self.stage) {
            (ServeEvent::Payload(_), Stage::Idle) => self.handled < u64::MAX,
            (ServeEvent::ReaderGone, Stage::Idle) => true,
            (ServeEvent::Serialised(_), Stage::Handling) => true,
            (ServeEvent::Tried(_), Stage::Sending { .. }) => true,
            _ => false,
        }
    }

    /// What to do first.
    pub fn start(&self) -> (actions: Vec<ServeAction>)
        ensures
            action_views(actions@) == seq![ServeActionView::Receive],
            action_views(actions@) == self@.start_actions(),
    {
        let mut actions: Vec<ServeAction> = Vec::new();
        actions.push(ServeAction::Receive);
        assert(action_views(actions@) =~= seq![ServeActionView::Receive]);
        actions
    }

    /// Takes in the event that was waited for and tells what to do about it.
    pub fn on_event(&mut self, event: ServeEvent) -> (actions: Vec<ServeAction>)
        requires
            old(self).well_formed(),
            old(self)@.awaits(event@),
        ensures
            final(self).well_formed(),
            final(self)@ == old(self)@.after(event@),
            action_views(actions@) == old(self)@.actions(event@),
    {
        let ghost before = self@;
        let ghost seen = event@;
        let mut actions: Vec<ServeAction> = Vec::new();
        match event {
            ServeEvent::Payload(payload) => {
                let number: u64 = self.handled + 1;
                let bytes: usize = payload.len();
                actions.push(ServeAction::Show(Status::Dispatching { number, bytes }));
                actions.push(ServeAction::Handle(payload));
                self.stage = Stage::Handling;
            },
            ServeEvent::ReaderGone => {
                actions.push(ServeAction::Finish);
                self.stage = Stage::Finished;
            },
            ServeEvent::Serialised(Ok(response)) => {
                let framed: Vec<u8> = writer::frame(response);
                let number: u64 = self.handled + 1;
                let bytes: usize = framed.len();
                actions.push(ServeAction::Show(Status::Sending { bytes, number }));
                let chunks: Vec<Vec<u8>> = writer::chunks(framed.as_slice());
                assert(chunks@.len() == writer::byte_views(chunks@).len());
                assert(writer::byte_views(chunks@)[0] == chunks@[0]@);
                actions.push(ServeAction::Write(next_chunk(&chunks, 0)));
                self.stage = Stage::Sending { chunks, tried: 0 };
            },
            ServeEvent::Serialised(Err(error)) => {
                actions.push(ServeAction::Show(Status::SerialiseFailed { error }));
                actions.push(ServeAction::Receive);
                self.stage = Stage::Idle;
            },
            ServeEvent::Tried(outcome) => {
                let mut stage: Stage = Stage::Idle;
                std::mem::swap(&mut self.stage, &mut stage);
                match stage {
                    Stage::Sending { chunks, tried } => {
                        let ghost transfers = writer::byte_views(chunks@);
                        assert(transfers[tried as int] == chunks@[tried as int]@);
                        let count: usize = chunks.len();
                        let next: usize = tried + 1;
                        let len: usize = chunks[tried].len();
                        push_outcome(&mut actions, outcome, next as u64, len);
                        if next < count {
                            assert(transfers[next as int] == chunks@[next as int]@);
                            actions.push(ServeAction::Write(next_chunk(&chunks, next)));
                            self.stage = Stage::Sending { chunks, tried: next };
                        } else {
                            self.handled = self.handled + 1;
                            let number: u64 = self.handled;
                            actions.push(ServeAction::Show(Status::Done { number }));
                            actions.push(ServeAction::Receive);
                        }
                    },
                    _ => {},
                }
            },
        }
        assert(action_views(actions@) =~= before.actions(seen));
        actions
    }
}

/// The transfers that a sequence of actions asks for.
pub open spec fn writes(actions: Seq<ServeActionView>) -> Seq<Seq<u8>>
    decreases actions.len(),
{
    if actions.len() == 0 {
        Seq::empty()
    } else {
        match actions.last() {
            ServeActionView::Write { index, bytes } => writes(actions.drop_last()).push(bytes),
            _ => writes(actions.drop_last()),
        }
    }
}

/// The state after a series of events.
pub open spec fn after_events(
    state: DispatcherView,
    events: Seq<ServeEventView>,
) -> DispatcherView
    decreases events.len(),
{
    if events.len() == 0 {
        state
    } else {
        after_events(state, events.drop_last()).after(events.last())
    }
}

/// Everything that is done during a series of events.
pub open spec fn performed(state: DispatcherView, events: Seq<ServeEventView>) -> Seq<
    ServeActionView,
>
    decreases events.len(),
{
    if events.len() == 0 {
        Seq::empty()
    } else {
        performed(state, events.drop_last()) + after_events(state, events.drop_last()).actions(
            events.last(),
        )
    }
}

/// Whether each event came when the dispatcher waited for it. A driver that
/// reports what it was asked for keeps to this.
pub open spec fn orderly(state: DispatcherView, events: Seq<ServeEventView>) -> bool
    decreases events.len(),
{
    events.len() == 0 || {
        &&& orderly(state, events.drop_last())
        &&& after_events(state, events.drop_last()).awaits(events.last())
    }
}

/// The responses among the events.
pub open spec fn responses(events: Seq<ServeEventView>) -> Seq<Seq<u8>>
    decreases events.len(),
{
    if events.len() == 0 {
        Seq::empty()
    } else {
        match events.last() {
            ServeEventView::Response(response) => responses(events.drop_last()).push(response),
            _ => responses(events.drop_last()),
        }
    }
}

/// How many payloads are among the events.
pub open spec fn payload_count(events: Seq<ServeEventView>) -> nat
    decreases events.len(),
{
    if events.len() == 0 {
        0
    } else {
        payload_count(events.drop_last()) + if events.last() is Payload {
            1nat
        } else {
            0nat
        }
    }
}

/// How many requests among the events got no response.
pub open spec fn unanswered_count(events: Seq<ServeEventView>) -> nat
    decreases events.len(),
{
    if events.len() == 0 {
        0
    } else {
        unanswered_count(events.drop_last()) + if events.last() is NoResponse {
            1nat
        } else {
            0nat
        }
    }
}

/// How many transfers were tried during the events.
pub open spec fn tried_count(events: Seq<ServeEventView>) -> nat
    decreases events.len(),
{
    if events.len() == 0 {
        0
    } else {
        tried_count(events.drop_last()) + if events.last() is Tried {
            1nat
        } else {
            0nat
        }
    }
}

/// The transfers of one sequence of actions after another.
proof fn lemma_writes_add(a: Seq<ServeActionView>, b: Seq<ServeActionView>)
    ensures
        writes(a + b) == writes(a) + writes(b),
    decreases b.len(),
{
    if b.len() == 0 {
        assert(a + b =~= a);
        assert(writes(a) + writes(b) =~= writes(a));
    } else {
        lemma_writes_add(a, b.drop_last());
        assert((a + b).drop_last() =~= a + b.drop_last());
        assert(writes(a + b) =~= writes(a) + writes(b));
    }
}

/// Whatever came of a transfer, it is not asked for again: the next one is, or,
/// if there is none, the request counts as answered. The host's return is
/// awaited exactly if it went away, and once.
pub proof fn law_outcome_does_not_stop_sending(
    state: DispatcherView,
    transfers: Seq<Seq<u8>>,
    tried: nat,
    outcome: WriteOutcomeView,
)
    requires
        state.valid(),
        state.stage == (StageView::Sending { transfers, tried }),
    ensures
        tried + 1 < transfers.len() ==> {
            &&& writes(state.actions(ServeEventView::Tried(outcome))) == seq![transfers[tried as int + 1]]
            &&& state.after(ServeEventView::Tried(outcome)) == (DispatcherView {
                handled: state.handled,
                stage: StageView::Sending { transfers, tried: tried + 1 },
            })
        },
        tried + 1 == transfers.len() ==> {
            &&& writes(state.actions(ServeEventView::Tried(outcome))) == Seq::<Seq<u8>>::empty()
            &&& state.after(ServeEventView::Tried(outcome)) == (DispatcherView {
                handled: state.handled + 1,
                stage: StageView::Idle,
            })
        },
        forall|i: int|
            #![trigger state.actions(ServeEventView::Tried(outcome))[i]]
            0 <= i < state.actions(ServeEventView::Tried(outcome)).len() ==> (state.actions(
                ServeEventView::Tried(outcome),
            )[i] is WaitForConnection <==> outcome is HostDisconnected && i == 1),
{
    reveal_with_fuel(writes, 4);
    let event = ServeEventView::Tried(outcome);
    let first = outcome_actions(outcome, tried + 1, transfers[tried as int].len());
    let rest = if tried + 1 < transfers.len() {
        seq![ServeActionView::Write { index: tried + 2, bytes: transfers[tried as int + 1] }]
    } else {
        seq![
            ServeActionView::Show(status::done_text(state.handled + 1)),
            ServeActionView::Receive,
        ]
    };
    assert(state.actions(event) == first + rest);
    lemma_writes_add(first, rest);
    assert(writes(first) =~= Seq::empty());
    if tried + 1 < transfers.len() {
        assert(writes(rest) =~= seq![transfers[tried as int + 1]]);
    } else {
        assert(writes(rest) =~= Seq::empty());
    }
    assert(writes(first) + writes(rest) =~= writes(rest));
}

/// The driver is asked for one thing at a time, last of all: the next payload
/// exactly if no request is in flight, the response exactly if one is being
/// handled, a transfer exactly if one is being sent, the end exactly if serving
/// has ended.
pub proof fn law_one_thing_is_asked(state: DispatcherView, event: ServeEventView, i: int)
    requires
        state.valid(),
        state.awaits(event),
        0 <= i < state.actions(event).len(),
    ensures
        state.after(event).valid(),
        ({
            let action = state.actions(event)[i];
            if i < state.actions(event).len() - 1 {
                action is Show || action is WaitForConnection || action is Sleep
            } else {
                match state.after(event).stage {
                    StageView::Idle => action is Receive,
                    StageView::Handling => action is Handle,
                    StageView::Sending { transfers, tried } => action == (ServeActionView::Write {
                        index: tried + 1,
                        bytes: transfers[tried as int],
                    }),
                    StageView::Finished => action is Finish,
                }
            }
        }),
{
}

/// At every moment of serving: all transfers of the responses before the current
/// one have been asked for and tried, in order and once each; of the current
/// response, those up to the one that is being tried. A request counts once the
/// last transfer of its response has been tried, whatever came of any transfer.
pub proof fn law_transfers_follow_in_order(
    start: DispatcherView,
    events: Seq<ServeEventView>,
)
    requires
        start.valid(),
        start.stage is Idle,
        orderly(start, events),
    ensures
        after_events(start, events).valid(),
        match after_events(start, events).stage {
            StageView::Sending { transfers: current, tried } => {
                &&& responses(events).len() > 0
                &&& current == writer::chunked(responses(events).last().push(line::LF))
                &&& writes(performed(start, events)) == writer::transfers(responses(events).drop_last())
                    + current.take(tried as int + 1)
                &&& tried_count(events) + 1 == writes(performed(start, events)).len()
                &&& after_events(start, events).handled + 1 == start.handled + responses(
                    events,
                ).len()
                &&& payload_count(events) == responses(events).len() + unanswered_count(events)
            },
            StageView::Handling => {
                &&& writes(performed(start, events)) == writer::transfers(responses(events))
                &&& tried_count(events) == writes(performed(start, events)).len()
                &&& after_events(start, events).handled == start.handled + responses(events).len()
                &&& payload_count(events) == responses(events).len() + unanswered_count(events) + 1
            },
            StageView::Idle | StageView::Finished => {
                &&& writes(performed(start, events)) == writer::transfers(responses(events))
                &&& tried_count(events) == writes(performed(start, events)).len()
                &&& after_events(start, events).handled == start.handled + responses(events).len()
                &&& payload_count(events) == responses(events).len() + unanswered_count(events)
            },
        },
    decreases events.len(),
{
    if events.len() > 0 {
        let earlier = events.drop_last();
        let event = events.last();
        let mid = after_events(start, earlier);
        law_transfers_follow_in_order(start, earlier);
        lemma_writes_add(performed(start, earlier), mid.actions(event));
        let done = writes(performed(start, earlier));
        match event {
            ServeEventView::Payload(_) | ServeEventView::ReaderGone | ServeEventView::NoResponse(
                _,
            ) => {
                assert(writes(mid.actions(event)) =~= Seq::empty()) by {
                    reveal_with_fuel(writes, 3);
                }
                assert(done + Seq::<Seq<u8>>::empty() =~= done);
            },
            ServeEventView::Response(response) => {
                let current = writer::chunked(response.push(line::LF));
                assert(writes(mid.actions(event)) =~= seq![current[0]]) by {
                    reveal_with_fuel(writes, 3);
                }
                assert(responses(events).drop_last() =~= responses(earlier));
                assert(current.take(1) =~= seq![current[0]]);
            },
            ServeEventView::Tried(outcome) => {
                if let StageView::Sending { transfers: current, tried } = mid.stage {
                    law_outcome_does_not_stop_sending(mid, current, tried, outcome);
                    let before = writer::transfers(responses(earlier).drop_last());
                    if tried + 1 < current.len() {
                        assert(before + current.take(tried as int + 1) + seq![current[tried as int + 1]]
                            =~= before + current.take(tried as int + 2));
                    } else {
                        assert(current.take(tried as int + 1) =~= current);
                        assert(before + current + Seq::<Seq<u8>>::empty() =~= before + current);
                    }
                }
            },
        }
    }
}

/// Single flight: when a request is taken up, every transfer of every earlier
/// response has been asked for and tried, and every earlier request has been
/// answered or got no response.
pub proof fn law_single_flight(
    start: DispatcherView,
    events: Seq<ServeEventView>,
    payload: Seq<u8>,
)
    requires
        start.valid(),
        start.stage is Idle,
        orderly(start, events.push(ServeEventView::Payload(payload))),
    ensures
        after_events(start, events).stage is Idle,
        writes(performed(start, events)) == writer::transfers(responses(events)),
        tried_count(events) == writer::transfers(responses(events)).len(),
        payload_count(events) == responses(events).len() + unanswered_count(events),
{
    assert(events.push(ServeEventView::Payload(payload)).drop_last() =~= events);
    law_transfers_follow_in_order(start, events);
}

/// One request, one response: once no request is in flight, and if every
/// transfer got through, the host has read one line for each request whose
/// response could be serialised, in the order of the requests, and none for the
/// others; just as many have been counted.
pub proof fn law_one_response_per_request(
    start: DispatcherView,
    events: Seq<ServeEventView>,
)
    requires
        start.valid(),
        start.stage is Idle,
        orderly(start, events),
        after_events(start, events).stage is Idle || after_events(start, events).stage is Finished,
        forall|i: int|
            0 <= i < responses(events).len() ==> !(#[trigger] responses(events)[i]).contains(
                line::LF,
            ),
    ensures
        writer::host_lines(writes(performed(start, events)).flatten()) == responses(events),
        after_events(start, events).handled == start.handled + responses(events).len(),
        payload_count(events) == responses(events).len() + unanswered_count(events),
{
    law_transfers_follow_in_order(start, events);
    writer::law_transferred_responses_arrive(responses(events));
}

/// Serving ends when the reader is gone, and then only: the end is asked for
/// exactly as the answer to the reader's end, it is all that is asked for then,
/// and no event is awaited after it.
pub proof fn law_serving_ends_with_the_reader(
    start: DispatcherView,
    events: Seq<ServeEventView>,
)
    requires
        start.valid(),
        start.stage is Idle,
        orderly(start, events),
    ensures
        after_events(start, events).stage is Finished <==> events.len() > 0
            && events.last() is ReaderGone,
        performed(start, events).contains(ServeActionView::Finish) <==> events.len() > 0
            && events.last() is ReaderGone,
        events.len() > 0 && events.last() is ReaderGone ==> performed(start, events) == performed(
            start,
            events.drop_last(),
        ).push(ServeActionView::Finish),
        forall|next: ServeEventView|
            events.len() > 0 && events.last() is ReaderGone ==> !#[trigger] after_events(
                start,
                events,
            ).awaits(next),
    decreases events.len(),
{
    if events.len() > 0 {
        let earlier = events.drop_last();
        let event = events.last();
        let mid = after_events(start, earlier);
        law_serving_ends_with_the_reader(start, earlier);
        law_transfers_follow_in_order(start, earlier);
        let done = performed(start, earlier);
        let new = mid.actions(event);
        assert(!(earlier.len() > 0 && earlier.last() is ReaderGone));
        if event is ReaderGone {
            assert(done + new =~= done.push(ServeActionView::Finish));
            assert((done + new)[done.len() as int] == ServeActionView::Finish);
        } else {
            assert forall|i: int| 0 <= i < (done + new).len() implies (done + new)[i]
                != ServeActionView::Finish by {
                if i < done.len() {
                    assert(done[i] == (done + new)[i]);
                } else {
                    law_one_thing_is_asked(mid, event, i - done.len());
                }
            }
        }
    }
}

/// The payloads that a sequence of actions has handled.
pub open spec fn handed_over(actions: Seq<ServeActionView>) -> Seq<Seq<u8>>
    decreases actions.len(),
{
    if actions.len() == 0 {
        Seq::empty()
    } else {
        match actions.last() {
            ServeActionView::Handle(payload) => handed_over(actions.drop_last()).push(payload),
            _ => handed_over(actions.drop_last()),
        }
    }
}

/// The payloads among the events.
pub open spec fn payloads(events: Seq<ServeEventView>) -> Seq<Seq<u8>>
    decreases events.len(),
{
    if events.len() == 0 {
        Seq::empty()
    } else {
        match events.last() {
            ServeEventView::Payload(payload) => payloads(events.drop_last()).push(payload),
            _ => payloads(events.drop_last()),
        }
    }
}

/// The payloads that one sequence of actions after another has handled.
proof fn lemma_handed_over_add(a: Seq<ServeActionView>, b: Seq<ServeActionView>)
    ensures
        handed_over(a + b) == handed_over(a) + handed_over(b),
    decreases b.len(),
{
    if b.len() == 0 {
        assert(a + b =~= a);
        assert(handed_over(a) + handed_over(b) =~= handed_over(a));
    } else {
        lemma_handed_over_add(a, b.drop_last());
        assert((a + b).drop_last() =~= a + b.drop_last());
        assert(handed_over(a + b) =~= handed_over(a) + handed_over(b));
    }
}

/// A sequence of actions without a payload has none handled.
proof fn lemma_nothing_handed_over(actions: Seq<ServeActionView>)
    requires
        forall|i: int| 0 <= i < actions.len() ==> !(#[trigger] actions[i] is Handle),
    ensures
        handed_over(actions).len() == 0,
    decreases actions.len(),
{
    if actions.len() > 0 {
        let earlier = actions.drop_last();
        assert forall|i: int| 0 <= i < earlier.len() implies !(#[trigger] earlier[i] is Handle) by {
            assert(earlier[i] == actions[i]);
        }
        lemma_nothing_handed_over(earlier);
        assert(!(actions[actions.len() - 1] is Handle));
    }
}

/// A payload is announced under the next number with its size, and handed over
/// to be handled whole, every byte as it was delivered. It counts only later.
pub proof fn law_payload_is_handed_over_whole(state: DispatcherView, payload: Seq<u8>)
    requires
        state.valid(),
        state.awaits(ServeEventView::Payload(payload)),
    ensures
        state.actions(ServeEventView::Payload(payload)).len() == 2,
        state.actions(ServeEventView::Payload(payload))[0] == ServeActionView::Show(
            status::dispatching_text(state.handled + 1, payload.len()),
        ),
        state.actions(ServeEventView::Payload(payload))[1] == ServeActionView::Handle(payload),
        state.after(ServeEventView::Payload(payload)).stage is Handling,
        state.after(ServeEventView::Payload(payload)).handled == state.handled,
{
}

/// Nothing is handled but the payload that has just been delivered.
pub proof fn law_only_delivered_payloads_are_handled(
    state: DispatcherView,
    event: ServeEventView,
    i: int,
)
    requires
        state.valid(),
        state.awaits(event),
        0 <= i < state.actions(event).len(),
    ensures
        state.actions(event)[i] matches ServeActionView::Handle(payload) ==> event
            == ServeEventView::Payload(payload),
{
}

/// Over a series of events, the payloads that are handled are the payloads that
/// were delivered: all of them, unchanged, in order.
pub proof fn law_handled_is_what_was_delivered(start: DispatcherView, events: Seq<ServeEventView>)
    requires
        start.valid(),
        start.stage is Idle,
        orderly(start, events),
    ensures
        handed_over(performed(start, events)) == payloads(events),
    decreases events.len(),
{
    if events.len() == 0 {
        assert(handed_over(performed(start, events)) =~= payloads(events));
    } else {
        let earlier = events.drop_last();
        let event = events.last();
        let mid = after_events(start, earlier);
        let new = mid.actions(event);
        law_handled_is_what_was_delivered(start, earlier);
        law_transfers_follow_in_order(start, earlier);
        lemma_handed_over_add(performed(start, earlier), new);
        if let ServeEventView::Payload(payload) = event {
            law_payload_is_handed_over_whole(mid, payload);
            reveal_with_fuel(handed_over, 3);
            assert(new.drop_last()[0] == new[0]);
            assert(handed_over(new) =~= seq![payload]);
            assert(payloads(earlier).push(payload) =~= payloads(earlier) + seq![payload]);
        } else {
            assert forall|i: int| 0 <= i < new.len() implies !(#[trigger] new[i] is Handle) by {
                law_only_delivered_payloads_are_handled(mid, event, i);
            }
            lemma_nothing_handed_over(new);
            assert(payloads(earlier) + handed_over(new) =~= payloads(earlier));
        }
    }
}

/// Requests that the host frames and sends, cut into transfers in any way, reach
/// the engine one by one, unchanged and in order, once the dispatcher has been
/// given what the reader delivered.
pub proof fn law_requests_reach_the_engine(
    reading: ReaderView,
    requests: Seq<Seq<u8>>,
    reads: Seq<ReadOutcomeView>,
    events: Seq<ServeEventView>,
)
    requires
        reading.valid(),
        reading.line.len() == 0,
        forall|i: int|
            0 <= i < requests.len() ==> line::is_line_content(#[trigger] requests[i])
                && requests[i].len() > 0,
        reader::host_stayed(reads),
        reader::received(reads) == line::framed(requests),
        orderly(DispatcherView::fresh(), events),
        payloads(events) == reader::delivered(reading, reads),
    ensures
        handed_over(performed(DispatcherView::fresh(), events)) == requests,
{
    reader::law_requests_arrive(reading, requests, reads);
    law_handled_is_what_was_delivered(DispatcherView::fresh(), events);
}

/// A response is announced with its size on the wire and the number of its
/// request, and the first transfer is tried. The transfers, put together, are the
/// response and one line feed; none is empty or over 64 bytes, and all but the
/// last are full.
pub proof fn law_response_is_sent_whole(state: DispatcherView, response: Seq<u8>, i: int)
    requires
        state.valid(),
        state.awaits(ServeEventView::Response(response)),
    ensures
        ({
            let actions = state.actions(ServeEventView::Response(response));
            let after = state.after(ServeEventView::Response(response));
            &&& actions.len() == 2
            &&& actions[0] == ServeActionView::Show(
                status::sending_text(response.len() + 1, state.handled + 1),
            )
            &&& after.handled == state.handled
            &&& after.stage matches StageView::Sending { transfers, tried } && {
                &&& tried == 0
                &&& transfers.flatten() == response.push(10)
                &&& 0 <= i < transfers.len() ==> 0 < transfers[i].len() <= 64
                &&& 0 <= i < transfers.len() - 1 ==> transfers[i].len() == 64
                &&& actions[1] == (ServeActionView::Write { index: 1, bytes: transfers[0] })
            }
        }),
{
    writer::law_chunks_rebuild(response.push(line::LF));
    if 0 <= i < writer::chunked(response.push(line::LF)).len() {
        writer::law_chunk_sizes(response.push(line::LF), i);
    }
}

/// A response that could not be serialised is announced with its error, whole,
/// and not counted; the next payload is taken up.
pub proof fn law_missing_response_is_told(state: DispatcherView, error: Seq<char>)
    requires
        state.valid(),
        state.awaits(ServeEventView::NoResponse(error)),
    ensures
        state.actions(ServeEventView::NoResponse(error)).len() == 2,
        state.actions(ServeEventView::NoResponse(error))[0] == ServeActionView::Show(
            "serialise err: "@ + error,
        ),
        state.actions(ServeEventView::NoResponse(error))[1] is Receive,
        state.after(ServeEventView::NoResponse(error)).stage is Idle,
        state.after(ServeEventView::NoResponse(error)).handled == state.handled,
{
}

/// What came of a transfer is told: how much of it was taken, the error, whole,
/// or that the host is gone. A host that is gone is waited for, and then half a
/// second passes. After that comes the next transfer, under the next number, or the
/// announcement that the request is done.
pub proof fn law_transfer_outcome_is_told(
    state: DispatcherView,
    transfers: Seq<Seq<u8>>,
    tried: nat,
    outcome: WriteOutcomeView,
)
    requires
        state.valid(),
        state.stage == (StageView::Sending { transfers, tried }),
    ensures
        ({
            let actions = state.actions(ServeEventView::Tried(outcome));
            let told: int = if outcome is HostDisconnected {
                3
            } else {
                1
            };
            &&& match outcome {
                WriteOutcomeView::Written(n) => actions[0] == ServeActionView::Show(
                    status::chunk_sent_text(tried + 1, transfers[tried as int].len(), n),
                ),
                WriteOutcomeView::Failed(error) => actions[0] == ServeActionView::Show(
                    "write err: "@ + error,
                ),
                WriteOutcomeView::HostDisconnected => {
                    &&& actions[0] == ServeActionView::Show("tx: host disc"@)
                    &&& actions[1] is WaitForConnection
                    &&& actions[2] == ServeActionView::Sleep(500)
                },
            }
            &&& if tried + 1 < transfers.len() {
                &&& actions.len() == told + 1
                &&& actions[told] == (ServeActionView::Write {
                    index: tried + 2,
                    bytes: transfers[tried as int + 1],
                })
            } else {
                &&& actions.len() == told + 2
                &&& actions[told] == ServeActionView::Show(status::done_text(state.handled + 1))
                &&& actions[told + 1] is Receive
            }
        }),
{
}

/// A dispatcher starts out with nothing answered and nothing in flight.
pub proof fn law_fresh_dispatcher_is_idle()
    ensures
        DispatcherView::fresh().handled == 0,
        DispatcherView::fresh().stage is Idle,
        DispatcherView::fresh().valid(),
{
}

/// Whatever the driver can report about what it was asked for is awaited, with
/// any contents, and nothing else: any payload, or the reader's end, if no
/// request is in flight; any response, or its absence, while one is handled; any
/// outcome while one is sent. The one limit is that the count of requests must
/// fit in 64 bits.
pub proof fn law_what_is_awaited(
    state: DispatcherView,
    bytes: Seq<u8>,
    error: Seq<char>,
    outcome: WriteOutcomeView,
)
    ensures
        state.awaits(ServeEventView::Payload(bytes)) <==> state.stage is Idle && state.handled
            < 0xffff_ffff_ffff_ffff,
        state.awaits(ServeEventView::ReaderGone) <==> state.stage is Idle,
        state.awaits(ServeEventView::Response(bytes)) <==> state.stage is Handling,
        state.awaits(ServeEventView::NoResponse(error)) <==> state.stage is Handling,
        state.awaits(ServeEventView::Tried(outcome)) <==> state.stage is Sending,
{
}

/// The end of the reader ends serving at once and changes no count.
pub proof fn law_reader_end_is_final(state: DispatcherView)
    requires
        state.valid(),
        state.awaits(ServeEventView::ReaderGone),
    ensures
        state.actions(ServeEventView::ReaderGone).len() == 1,
        state.actions(ServeEventView::ReaderGone)[0] is Finish,
        state.after(ServeEventView::ReaderGone).stage is Finished,
        state.after(ServeEventView::ReaderGone).handled == state.handled,
{
}

/// The view of actions loses nothing: as many, in the same order, with the same
/// contents.
pub proof fn law_action_views_are_faithful(actions: Seq<ServeAction>, i: int)
    requires
        0 <= i < actions.len(),
    ensures
        action_views(actions).len() == actions.len(),
        match actions[i] {
            ServeAction::Show(status) => action_views(actions)[i] == ServeActionView::Show(status@),
            ServeAction::WaitForConnection => action_views(actions)[i] is WaitForConnection,
            ServeAction::Sleep(ms) => action_views(actions)[i] == ServeActionView::Sleep(ms as nat),
            ServeAction::Receive => action_views(actions)[i] is Receive,
            ServeAction::Handle(payload) => action_views(actions)[i] == ServeActionView::Handle(
                payload@,
            ),
            ServeAction::Write(chunk) => action_views(actions)[i] == (ServeActionView::Write {
                index: chunk.index as nat,
                bytes: chunk.bytes@,
            }),
            ServeAction::Finish => action_views(actions)[i] is Finish,
        },
{
}

/// The view of an event loses nothing.
pub proof fn law_event_view_is_faithful(event: ServeEvent)
    ensures
        match event {
            ServeEvent::Payload(payload) => event@ == ServeEventView::Payload(payload@),
            ServeEvent::ReaderGone => event@ is ReaderGone,
            ServeEvent::Serialised(Ok(response)) => event@ == ServeEventView::Response(response@),
            ServeEvent::Serialised(Err(error)) => event@ == ServeEventView::NoResponse(error@),
            ServeEvent::Tried(WriteOutcome::Written(n)) => event@ == ServeEventView::Tried(
                WriteOutcomeView::Written(n as nat),
            ),
            ServeEvent::Tried(WriteOutcome::HostDisconnected) => event@ == ServeEventView::Tried(
                WriteOutcomeView::HostDisconnected,
            ),
            ServeEvent::Tried(WriteOutcome::Failed(error)) => event@ == ServeEventView::Tried(
                WriteOutcomeView::Failed(error@),
            ),
        },
{
}

/// A fresh dispatcher begins by taking the first payload, and that is what it
/// awaits.
pub proof fn law_serving_begins_with_a_payload(payload: Seq<u8>)
    ensures
        DispatcherView::fresh().start_actions().len() == 1,
        DispatcherView::fresh().start_actions()[0] is Receive,
        DispatcherView::fresh().awaits(ServeEventView::Payload(payload)),
        DispatcherView::fresh().awaits(ServeEventView::ReaderGone),
{
}

} // verus!

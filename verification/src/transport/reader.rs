//! The receiving side: turns what the OUT endpoint yields into payloads for the
//! dispatcher.
//!
//! The reader decides; its driver performs the actions in order and reports
//! what the next read gave.

use vstd::prelude::*;

use crate::transport::line;
use crate::transport::line::{LineBuffer, LineEvent, LineEventView};
use crate::transport::status;
use crate::transport::status::Status;

verus! {

/// Bytes asked for in one read of the OUT endpoint.
pub const READ_BYTES: usize = 64;

/// What one read of the OUT endpoint gave.
pub enum ReadOutcome {
    /// Bytes arrived (possibly none).
    Data(Vec<u8>),
    /// The host is gone.
    HostDisconnected,
    /// The read failed; the field is the error's rendering.
    Failed(String),
}

/// Mathematical counterpart of [`ReadOutcome`].
pub enum ReadOutcomeView {
    Data(Seq<u8>),
    HostDisconnected,
    Failed(Seq<char>),
}

impl View for ReadOutcome {
    type V = ReadOutcomeView;

    open spec fn view(&self) -> ReadOutcomeView {
        match *self {
            ReadOutcome::Data(bytes) => ReadOutcomeView::Data(bytes@),
            ReadOutcome::HostDisconnected => ReadOutcomeView::HostDisconnected,
            ReadOutcome::Failed(error) => ReadOutcomeView::Failed(error@),
        }
    }
}

/// What the driver has to do, in order.
pub enum ReaderAction {
    /// Show a status.
    Show(Status),
    /// Hand a payload to the dispatcher.
    Deliver(Vec<u8>),
    /// Wait until the host is back.
    WaitForConnection,
    /// Stop reading for good.
    Exit,
}

/// Mathematical counterpart of [`ReaderAction`].
pub enum ReaderActionView {
    Show(Seq<char>),
    Deliver(Seq<u8>),
    WaitForConnection,
    Exit,
}

impl View for ReaderAction {
    type V = ReaderActionView;

    open spec fn view(&self) -> ReaderActionView {
        match *self {
            ReaderAction::Show(status) => ReaderActionView::Show(status@),
            ReaderAction::Deliver(payload) => ReaderActionView::Deliver(payload@),
            ReaderAction::WaitForConnection => ReaderActionView::WaitForConnection,
            ReaderAction::Exit => ReaderActionView::Exit,
        }
    }
}

/// The views of a sequence of actions.
pub open spec fn action_views(actions: Seq<ReaderAction>) -> Seq<ReaderActionView> {
    actions.map_values(|a: ReaderAction| a@)
}

/// What is done about line events: each line is announced under its running
/// number and delivered, each drop is announced. `lines` lines came earlier.
pub open spec fn event_actions(events: Seq<LineEventView>, lines: nat) -> Seq<ReaderActionView>
    decreases events.len(),
{
    if events.len() == 0 {
        Seq::empty()
    } else {
        let earlier = event_actions(events.drop_last(), lines);
        match events.last() {
            LineEventView::Line(payload) => earlier.push(
                ReaderActionView::Show(
                    status::got_line_text(lines + line::line_count(events), payload.len()),
                ),
            ).push(ReaderActionView::Deliver(payload)),
            LineEventView::Dropped => earlier.push(
                ReaderActionView::Show("rx: oversize line dropped"@),
            ),
        }
    }
}

/// The payloads that a sequence of actions delivers.
pub open spec fn deliveries(actions: Seq<ReaderActionView>) -> Seq<Seq<u8>>
    decreases actions.len(),
{
    if actions.len() == 0 {
        Seq::empty()
    } else {
        let earlier = deliveries(actions.drop_last());
        match actions.last() {
            ReaderActionView::Deliver(payload) => earlier.push(payload),
            _ => earlier,
        }
    }
}

/// The lines among a sequence of events.
pub open spec fn lines(events: Seq<LineEventView>) -> Seq<Seq<u8>>
    decreases events.len(),
{
    if events.len() == 0 {
        Seq::empty()
    } else {
        let earlier = lines(events.drop_last());
        match events.last() {
            LineEventView::Line(payload) => earlier.push(payload),
            LineEventView::Dropped => earlier,
        }
    }
}

/// State of the reader.
pub struct Reader {
    buffer: LineBuffer,
    ep_out: u8,
    ep_in: u8,
    total_bytes: u64,
    total_lines: u64,
}

/// Mathematical counterpart of [`Reader`].
pub struct ReaderView {
    /// The line in progress.
    pub line: Seq<u8>,
    /// Number of the OUT endpoint.
    pub ep_out: nat,
    /// Number of the IN endpoint.
    pub ep_in: nat,
    /// Bytes received so far.
    pub total_bytes: nat,
    /// Lines delivered so far.
    pub total_lines: nat,
}

impl View for Reader {
    type V = ReaderView;

    closed spec fn view(&self) -> ReaderView {
        ReaderView {
            line: self.buffer@,
            ep_out: self.ep_out as nat,
            ep_in: self.ep_in as nat,
            total_bytes: self.total_bytes as nat,
            total_lines: self.total_lines as nat,
        }
    }
}

impl ReaderView {
    /// The line in progress is line content, and every delivered line and every
    /// held byte is accounted for among the bytes received.
    pub open spec fn valid(self) -> bool {
        &&& line::is_line_content(self.line)
        &&& self.total_lines + self.line.len() <= self.total_bytes
    }

    /// The state after `bytes` arrived.
    pub open spec fn after_data(self, bytes: Seq<u8>) -> ReaderView {
        ReaderView {
            line: line::pending(self.line + bytes),
            total_bytes: self.total_bytes + bytes.len(),
            total_lines: self.total_lines + line::line_count(line::line_events(self.line + bytes)),
            ..self
        }
    }

    /// What is done when `bytes` arrive: nothing if there are none; else the
    /// running totals are shown, then comes what the bytes bring about.
    pub open spec fn data_actions(self, bytes: Seq<u8>) -> Seq<ReaderActionView> {
        if bytes.len() == 0 {
            Seq::empty()
        } else {
            seq![
                ReaderActionView::Show(
                    status::received_text(
                        bytes.len(),
                        self.total_bytes + bytes.len(),
                        self.total_lines,
                    ),
                ),
            ] + event_actions(line::line_events(self.line + bytes), self.total_lines)
        }
    }

    /// The state after the host went away: the line in progress is forgotten.
    pub open spec fn after_disconnect(self) -> ReaderView {
        ReaderView { line: Seq::empty(), ..self }
    }

    /// What is done when the host went away.
    pub open spec fn disconnect_actions(self) -> Seq<ReaderActionView> {
        seq![
            ReaderActionView::Show("WebUSB: waiting for host"@),
            ReaderActionView::WaitForConnection,
            ReaderActionView::Show(status::ready_text(self.ep_out, self.ep_in)),
        ]
    }

    /// What is done once the read buffer has been asked for; `map_error` tells why
    /// it could not be mapped.
    pub open spec fn started_actions(self, map_error: Option<Seq<char>>) -> Seq<ReaderActionView> {
        match map_error {
            Some(error) => seq![
                ReaderActionView::Show("reader: map err "@ + error),
                ReaderActionView::Exit,
            ],
            None => seq![
                ReaderActionView::Show(status::reader_started_text(self.ep_out, self.ep_in)),
            ],
        }
    }

    /// What is done when the dispatcher did not take a payload.
    pub open spec fn delivery_failed_actions(self) -> Seq<ReaderActionView> {
        seq![ReaderActionView::Show("dispatcher gone"@), ReaderActionView::Exit]
    }

    /// The state after a read. A failed read changes nothing.
    pub open spec fn after(self, outcome: ReadOutcomeView) -> ReaderView {
        match outcome {
            ReadOutcomeView::Data(bytes) => self.after_data(bytes),
            ReadOutcomeView::HostDisconnected => self.after_disconnect(),
            ReadOutcomeView::Failed(_) => self,
        }
    }

    /// What is done about a read.
    pub open spec fn actions(self, outcome: ReadOutcomeView) -> Seq<ReaderActionView> {
        match outcome {
            ReadOutcomeView::Data(bytes) => self.data_actions(bytes),
            ReadOutcomeView::HostDisconnected => self.disconnect_actions(),
            ReadOutcomeView::Failed(error) => seq![
                ReaderActionView::Show("read err: "@ + error),
            ],
        }
    }
}

impl Reader {
    /// The state is valid.
    pub open spec fn well_formed(self) -> bool {
        self@.valid()
    }

    /// A reader that has seen nothing, for the given endpoint numbers.
    pub fn new(ep_out: u8, ep_in: u8) -> (reader: Reader)
        ensures
            reader.well_formed(),
            reader@.line == Seq::<u8>::empty(),
            reader@.ep_out == ep_out,
            reader@.ep_in == ep_in,
            reader@.total_bytes == 0,
            reader@.total_lines == 0,
    {
        Reader { buffer: LineBuffer::new(), ep_out, ep_in, total_bytes: 0, total_lines: 0 }
    }

    /// Bytes received so far.
    pub fn total_bytes(&self) -> (n: u64)
        ensures
            n == self@.total_bytes,
    {
        self.total_bytes
    }

    /// Lines delivered so far.
    pub fn total_lines(&self) -> (n: u64)
        ensures
            n == self@.total_lines,
    {
        self.total_lines
    }

    /// What to do once the read buffer has been asked for. If it could not be
    /// mapped, `map_error` is the error's rendering.
    pub fn started(&self, map_error: Option<String>) -> (actions: Vec<ReaderAction>)
        ensures
            action_views(actions@) == match map_error {
                Some(error) => seq![
                    ReaderActionView::Show("reader: map err "@ + error@),
                    ReaderActionView::Exit,
                ],
                None => seq![
                    ReaderActionView::Show(
                        status::reader_started_text(self@.ep_out, self@.ep_in),
                    ),
                ],
            },
            action_views(actions@) == self@.started_actions(
                match map_error {
                    Some(error) => Some(error@),
                    None => None,
                },
            ),
    {
        let mut actions: Vec<ReaderAction> = Vec::new();
        match map_error {
            Some(error) => {
                let ghost text = error@;
                actions.push(ReaderAction::Show(Status::ReaderMapFailed { error }));
                actions.push(ReaderAction::Exit);
                assert(action_views(actions@) =~= seq![
                    ReaderActionView::Show("reader: map err "@ + text),
                    ReaderActionView::Exit,
                ]);
            },
            None => {
                actions.push(
                    ReaderAction::Show(
                        Status::ReaderStarted { ep_out: self.ep_out, ep_in: self.ep_in },
                    ),
                );
                assert(action_views(actions@) =~= seq![
                    ReaderActionView::Show(
                        status::reader_started_text(self@.ep_out, self@.ep_in),
                    ),
                ]);
            },
        }
        actions
    }

    /// What to do when the dispatcher did not take a payload.
    pub fn delivery_failed(&self) -> (actions: Vec<ReaderAction>)
        ensures
            action_views(actions@) == seq![
                ReaderActionView::Show("dispatcher gone"@),
                ReaderActionView::Exit,
            ],
            action_views(actions@) == self@.delivery_failed_actions(),
    {
        let mut actions: Vec<ReaderAction> = Vec::new();
        actions.push(ReaderAction::Show(Status::DispatcherGone));
        actions.push(ReaderAction::Exit);
        assert(action_views(actions@) =~= seq![
            ReaderActionView::Show("dispatcher gone"@),
            ReaderActionView::Exit,
        ]);
        actions
    }

    /// Appends what is to be done about `events`, and counts their lines.
    fn announce(&mut self, events: Vec<LineEvent>, actions: &mut Vec<ReaderAction>)
        requires
            old(self)@.total_lines + line::line_count(line::event_views(events@)) <= u64::MAX,
        ensures
            final(self)@ == (ReaderView {
                total_lines: old(self)@.total_lines + line::line_count(
                    line::event_views(events@),
                ),
                ..old(self)@
            }),
            action_views(final(actions)@) == action_views(old(actions)@) + event_actions(
                line::event_views(events@),
                old(self)@.total_lines,
            ),
    {
        let ghost start = self@;
        let ghost source = events@;
        let ghost all = line::event_views(source);
        let ghost base = action_views(actions@);
        proof {
            assert(all.take(0) =~= Seq::empty());
            assert(base + event_actions(all.take(0), start.total_lines) =~= base);
        }
        for event in it: events
            invariant
                it.seq() == source,
                all == line::event_views(source),
                self@ == (ReaderView {
                    total_lines: start.total_lines + line::line_count(all.take(it.index())),
                    ..start
                }),
                start.total_lines + line::line_count(all) <= u64::MAX,
                action_views(actions@) == base + event_actions(
                    all.take(it.index()),
                    start.total_lines,
                ),
        {
            let ghost k = it.index();
            let ghost before = action_views(actions@);
            let ghost seen = event@;
            proof {
                assert(all[k] == seen);
                assert(all.take(k + 1).drop_last() =~= all.take(k));
                lemma_line_count_take(all, k + 1);
            }
            match event {
                LineEvent::Line(payload) => {
                    self.total_lines = self.total_lines + 1;
                    let number: u64 = self.total_lines;
                    let bytes: usize = payload.len();
                    let ghost content = payload@;
                    actions.push(ReaderAction::Show(Status::GotLine { number, bytes }));
                    actions.push(ReaderAction::Deliver(payload));
                    assert(action_views(actions@) =~= before.push(
                        ReaderActionView::Show(
                            status::got_line_text(number as nat, content.len()),
                        ),
                    ).push(ReaderActionView::Deliver(content)));
                },
                LineEvent::Dropped => {
                    actions.push(ReaderAction::Show(Status::OversizeDropped));
                    assert(action_views(actions@) =~= before.push(
                        ReaderActionView::Show("rx: oversize line dropped"@),
                    ));
                },
            }
            assert(action_views(actions@) =~= base + event_actions(
                all.take(k + 1),
                start.total_lines,
            ));
        }
        assert(all.take(all.len() as int) =~= all);
    }

    /// Takes in the outcome of one read and tells what to do about it.
    pub fn on_read(&mut self, outcome: ReadOutcome) -> (actions: Vec<ReaderAction>)
        requires
            old(self).well_formed(),
            outcome matches ReadOutcome::Data(bytes) ==> old(self)@.total_bytes + bytes@.len()
                <= u64::MAX,
        ensures
            final(self).well_formed(),
            final(self)@ == old(self)@.after(outcome@),
            action_views(actions@) == old(self)@.actions(outcome@),
    {
        let ghost start = self@;
        let mut actions: Vec<ReaderAction> = Vec::new();
        match outcome {
            ReadOutcome::Data(bytes) => {
                proof {
                    law_reader_stays_valid(start, bytes@);
                }
                if bytes.is_empty() {
                    proof {
                        assert(start.line + bytes@ =~= start.line);
                        line::law_line_content_is_held(start.line);
                        assert(action_views(actions@) =~= Seq::empty());
                    }
                    return actions;
                }
                let got: usize = bytes.len();
                self.total_bytes = self.total_bytes + got as u64;
                actions.push(
                    ReaderAction::Show(
                        Status::Received {
                            bytes: got,
                            total_bytes: self.total_bytes,
                            total_lines: self.total_lines,
                        },
                    ),
                );
                let events: Vec<LineEvent> = self.buffer.feed(bytes.as_slice());
                self.announce(events, &mut actions);
                assert(action_views(actions@) =~= start.data_actions(bytes@));
            },
            ReadOutcome::HostDisconnected => {
                self.buffer.clear();
                actions.push(ReaderAction::Show(Status::WaitingForHost));
                actions.push(ReaderAction::WaitForConnection);
                actions.push(
                    ReaderAction::Show(Status::Ready { ep_out: self.ep_out, ep_in: self.ep_in }),
                );
                assert(action_views(actions@) =~= start.disconnect_actions());
            },
            ReadOutcome::Failed(error) => {
                let ghost text = error@;
                actions.push(ReaderAction::Show(Status::ReadFailed { error }));
                assert(action_views(actions@) =~= seq![
                    ReaderActionView::Show("read err: "@ + text),
                ]);
            },
        }
        actions
    }
}

/// A prefix holds no more lines than the whole.
proof fn lemma_line_count_take(events: Seq<LineEventView>, k: int)
    requires
        0 <= k <= events.len(),
    ensures
        line::line_count(events.take(k)) <= line::line_count(events),
    decreases events.len(),
{
    if k == events.len() {
        assert(events.take(k) =~= events);
    } else {
        lemma_line_count_take(events.drop_last(), k);
        assert(events.drop_last().take(k) =~= events.take(k));
    }
}

/// Reading data leads from one valid state to another, whatever the bytes are.
pub proof fn law_reader_stays_valid(state: ReaderView, bytes: Seq<u8>)
    requires
        state.valid(),
    ensures
        state.after_data(bytes).valid(),
{
    line::law_pending_is_line_content(state.line + bytes);
    line::lemma_line_count_bound(state.line + bytes);
}

/// What the reader hands to the dispatcher is exactly the lines, in order.
pub proof fn law_deliveries_are_the_lines(events: Seq<LineEventView>, earlier: nat)
    ensures
        deliveries(event_actions(events, earlier)) == lines(events),
    decreases events.len(),
{
    reveal_with_fuel(deliveries, 3);
    if events.len() > 0 {
        let before = event_actions(events.drop_last(), earlier);
        law_deliveries_are_the_lines(events.drop_last(), earlier);
        match events.last() {
            LineEventView::Line(payload) => {
                let text = status::got_line_text(
                    earlier + line::line_count(events),
                    payload.len(),
                );
                let shown = before.push(ReaderActionView::Show(text));
                assert(shown.drop_last() =~= before);
                assert(shown.push(ReaderActionView::Deliver(payload)).drop_last() =~= shown);
            },
            LineEventView::Dropped => {
                let shown = before.push(ReaderActionView::Show("rx: oversize line dropped"@));
                assert(shown.drop_last() =~= before);
            },
        }
    }
}

/// Deliveries of one sequence of actions after another.
proof fn lemma_deliveries_add(a: Seq<ReaderActionView>, b: Seq<ReaderActionView>)
    ensures
        deliveries(a + b) == deliveries(a) + deliveries(b),
    decreases b.len(),
{
    if b.len() == 0 {
        assert(a + b =~= a);
        assert(deliveries(a) + deliveries(b) =~= deliveries(a));
    } else {
        lemma_deliveries_add(a, b.drop_last());
        assert((a + b).drop_last() =~= a + b.drop_last());
        assert(deliveries(a + b) =~= deliveries(a) + deliveries(b));
    }
}

/// Lines of one sequence of events after another.
proof fn lemma_lines_add(a: Seq<LineEventView>, b: Seq<LineEventView>)
    ensures
        lines(a + b) == lines(a) + lines(b),
    decreases b.len(),
{
    if b.len() == 0 {
        assert(a + b =~= a);
        assert(lines(a) + lines(b) =~= lines(a));
    } else {
        lemma_lines_add(a, b.drop_last());
        assert((a + b).drop_last() =~= a + b.drop_last());
        assert(lines(a + b) =~= lines(a) + lines(b));
    }
}

/// The state after a series of reads.
pub open spec fn after_reads(state: ReaderView, reads: Seq<ReadOutcomeView>) -> ReaderView
    decreases reads.len(),
{
    if reads.len() == 0 {
        state
    } else {
        after_reads(state, reads.drop_last()).after(reads.last())
    }
}

/// The payloads delivered during a series of reads.
pub open spec fn delivered(state: ReaderView, reads: Seq<ReadOutcomeView>) -> Seq<Seq<u8>>
    decreases reads.len(),
{
    if reads.len() == 0 {
        Seq::empty()
    } else {
        delivered(state, reads.drop_last()) + deliveries(
            after_reads(state, reads.drop_last()).actions(reads.last()),
        )
    }
}

/// All bytes that a series of reads gave.
pub open spec fn received(reads: Seq<ReadOutcomeView>) -> Seq<u8>
    decreases reads.len(),
{
    if reads.len() == 0 {
        Seq::empty()
    } else {
        match reads.last() {
            ReadOutcomeView::Data(bytes) => received(reads.drop_last()) + bytes,
            _ => received(reads.drop_last()),
        }
    }
}

/// Whether the host stayed during a series of reads.
pub open spec fn host_stayed(reads: Seq<ReadOutcomeView>) -> bool {
    !reads.contains(ReadOutcomeView::HostDisconnected)
}

/// What is delivered in one read.
proof fn lemma_deliveries_of_read(state: ReaderView, outcome: ReadOutcomeView)
    requires
        state.valid(),
    ensures
        state.after(outcome).valid(),
        deliveries(state.actions(outcome)) == (match outcome {
            ReadOutcomeView::Data(bytes) => lines(line::line_events(state.line + bytes)),
            _ => Seq::<Seq<u8>>::empty(),
        }),
{
    reveal_with_fuel(deliveries, 4);
    match outcome {
        ReadOutcomeView::Data(bytes) => {
            law_reader_stays_valid(state, bytes);
            let events = line::line_events(state.line + bytes);
            if bytes.len() == 0 {
                assert(state.line + bytes =~= state.line);
                line::law_line_content_is_held(state.line);
            } else {
                let shown = seq![
                    ReaderActionView::Show(
                        status::received_text(
                            bytes.len(),
                            state.total_bytes + bytes.len(),
                            state.total_lines,
                        ),
                    ),
                ];
                lemma_deliveries_add(shown, event_actions(events, state.total_lines));
                law_deliveries_are_the_lines(events, state.total_lines);
                assert(deliveries(shown) =~= Seq::empty());
                assert(Seq::<Seq<u8>>::empty() + lines(events) =~= lines(events));
            }
        },
        ReadOutcomeView::HostDisconnected => {
            assert(deliveries(state.disconnect_actions()) =~= Seq::empty());
        },
        ReadOutcomeView::Failed(error) => {
            assert(deliveries(state.actions(outcome)) =~= Seq::empty());
        },
    }
}

/// While the host stays, the reader delivers the lines of the stream as a whole:
/// neither the way it was cut into transfers nor failed reads in between make a
/// difference.
pub proof fn law_transfers_do_not_matter(state: ReaderView, reads: Seq<ReadOutcomeView>)
    requires
        state.valid(),
        host_stayed(reads),
    ensures
        after_reads(state, reads).valid(),
        after_reads(state, reads).line == line::pending(state.line + received(reads)),
        delivered(state, reads) == lines(line::line_events(state.line + received(reads))),
    decreases reads.len(),
{
    if reads.len() == 0 {
        assert(state.line + received(reads) =~= state.line);
        line::law_line_content_is_held(state.line);
    } else {
        let earlier = reads.drop_last();
        let mid = after_reads(state, earlier);
        assert(reads.contains(reads.last()));
        assert forall|x: ReadOutcomeView| earlier.contains(x) implies reads.contains(x) by {
            let i = choose|i: int| 0 <= i < earlier.len() && earlier[i] == x;
            assert(reads[i] == x);
        }
        law_transfers_do_not_matter(state, earlier);
        lemma_deliveries_of_read(mid, reads.last());
        let s = state.line + received(earlier);
        match reads.last() {
            ReadOutcomeView::Data(bytes) => {
                assert(state.line + received(reads) =~= s + bytes);
                line::law_chunking_is_transparent(s, bytes);
                lemma_lines_add(line::line_events(s), line::line_events(mid.line + bytes));
            },
            _ => {
                assert(delivered(state, reads) =~= delivered(state, earlier));
            },
        }
    }
}

/// The lines of a sequence that holds nothing but lines.
proof fn lemma_lines_of_lines(payloads: Seq<Seq<u8>>)
    ensures
        lines(payloads.map_values(|p: Seq<u8>| LineEventView::Line(p))) == payloads,
    decreases payloads.len(),
{
    let as_line = |p: Seq<u8>| LineEventView::Line(p);
    let events = payloads.map_values(as_line);
    if payloads.len() == 0 {
        assert(lines(events) =~= payloads);
    } else {
        lemma_lines_of_lines(payloads.drop_last());
        assert(events.drop_last() =~= payloads.drop_last().map_values(as_line));
        assert(payloads.drop_last().push(payloads.last()) =~= payloads);
    }
}

/// Requests that the host frames and sends, cut into transfers in any way, are
/// delivered to the dispatcher one by one, unchanged and in order.
pub proof fn law_requests_arrive(
    state: ReaderView,
    payloads: Seq<Seq<u8>>,
    reads: Seq<ReadOutcomeView>,
)
    requires
        state.valid(),
        state.line.len() == 0,
        forall|i: int|
            0 <= i < payloads.len() ==> line::is_line_content(#[trigger] payloads[i])
                && payloads[i].len() > 0,
        host_stayed(reads),
        received(reads) == line::framed(payloads),
    ensures
        delivered(state, reads) == payloads,
        after_reads(state, reads).line == Seq::<u8>::empty(),
{
    law_transfers_do_not_matter(state, reads);
    assert(state.line + received(reads) =~= line::framed(payloads));
    line::law_framed_payloads_are_delivered(payloads);
    lemma_lines_of_lines(payloads);
}

/// One series of reads after another.
proof fn lemma_reads_add(
    state: ReaderView,
    first: Seq<ReadOutcomeView>,
    second: Seq<ReadOutcomeView>,
)
    ensures
        after_reads(state, first + second) == after_reads(after_reads(state, first), second),
        delivered(state, first + second) == delivered(state, first) + delivered(
            after_reads(state, first),
            second,
        ),
    decreases second.len(),
{
    if second.len() == 0 {
        assert(first + second =~= first);
        assert(delivered(state, first) + Seq::<Seq<u8>>::empty() =~= delivered(state, first));
    } else {
        lemma_reads_add(state, first, second.drop_last());
        assert((first + second).drop_last() =~= first + second.drop_last());
        assert(delivered(state, first + second) =~= delivered(state, first) + delivered(
            after_reads(state, first),
            second,
        ));
    }
}

/// Whatever happens, the state stays valid, and every payload that is delivered
/// is non-empty, within the cap, and free of line feeds and carriage returns.
pub proof fn law_every_payload_is_content(
    state: ReaderView,
    reads: Seq<ReadOutcomeView>,
    i: int,
)
    requires
        state.valid(),
    ensures
        after_reads(state, reads).valid(),
        0 <= i < delivered(state, reads).len() ==> delivered(state, reads)[i].len() > 0
            && line::is_line_content(delivered(state, reads)[i]),
    decreases reads.len(),
{
    if reads.len() > 0 {
        let earlier = reads.drop_last();
        let mid = after_reads(state, earlier);
        law_every_payload_is_content(state, earlier, i);
        lemma_deliveries_of_read(mid, reads.last());
        let n = delivered(state, earlier).len();
        if n <= i < delivered(state, reads).len() {
            if let ReadOutcomeView::Data(bytes) = reads.last() {
                let events = line::line_events(mid.line + bytes);
                assert(events.take(events.len() as int) =~= events);
                lemma_lines_are_content(mid.line + bytes, events.len(), i - n);
            }
        }
    }
}

/// The lines among the first `k` events of a stream are content.
proof fn lemma_lines_are_content(s: Seq<u8>, k: nat, i: int)
    requires
        k <= line::line_events(s).len(),
        0 <= i < lines(line::line_events(s).take(k as int)).len(),
    ensures
        lines(line::line_events(s).take(k as int))[i].len() > 0,
        line::is_line_content(lines(line::line_events(s).take(k as int))[i]),
    decreases k,
{
    let events = line::line_events(s);
    if k > 0 {
        assert(events.take(k as int).drop_last() =~= events.take(k - 1));
        line::law_delivered_lines_are_content(s, k - 1);
        if i < lines(events.take(k - 1)).len() {
            lemma_lines_are_content(s, (k - 1) as nat, i);
        }
    }
}

/// Nothing that was sent before the host went away is mixed into what is
/// delivered afterwards.
pub proof fn law_disconnect_forgets(
    state: ReaderView,
    before: Seq<ReadOutcomeView>,
    after: Seq<ReadOutcomeView>,
)
    requires
        state.valid(),
        host_stayed(after),
    ensures
        delivered(state, before.push(ReadOutcomeView::HostDisconnected) + after) == delivered(
            state,
            before,
        ) + lines(line::line_events(received(after))),
{
    let gone = before.push(ReadOutcomeView::HostDisconnected);
    let mid = after_reads(state, before);
    law_every_payload_is_content(state, before, 0);
    assert(gone.drop_last() =~= before);
    lemma_deliveries_of_read(mid, ReadOutcomeView::HostDisconnected);
    assert(delivered(state, gone) =~= delivered(state, before));
    lemma_reads_add(state, gone, after);
    law_transfers_do_not_matter(mid.after_disconnect(), after);
    assert(mid.after_disconnect().line + received(after) =~= received(after));
}

/// How many lines there are among one sequence of events after another.
proof fn lemma_line_count_add(a: Seq<LineEventView>, b: Seq<LineEventView>)
    ensures
        line::line_count(a + b) == line::line_count(a) + line::line_count(b),
    decreases b.len(),
{
    if b.len() == 0 {
        assert(a + b =~= a);
    } else {
        lemma_line_count_add(a, b.drop_last());
        assert((a + b).drop_last() =~= a + b.drop_last());
    }
}

/// What is done about one sequence of events after another.
proof fn lemma_event_actions_add(a: Seq<LineEventView>, b: Seq<LineEventView>, earlier: nat)
    ensures
        event_actions(a + b, earlier) == event_actions(a, earlier) + event_actions(
            b,
            earlier + line::line_count(a),
        ),
    decreases b.len(),
{
    if b.len() == 0 {
        assert(a + b =~= a);
        assert(event_actions(a, earlier) + Seq::<ReaderActionView>::empty() =~= event_actions(
            a,
            earlier,
        ));
    } else {
        lemma_event_actions_add(a, b.drop_last(), earlier);
        lemma_line_count_add(a, b);
        assert((a + b).drop_last() =~= a + b.drop_last());
        assert(event_actions(a + b, earlier) =~= event_actions(a, earlier) + event_actions(
            b,
            earlier + line::line_count(a),
        ));
    }
}

/// What is done about line events is to show and to deliver.
proof fn lemma_events_show_or_deliver(events: Seq<LineEventView>, earlier: nat, i: int)
    requires
        0 <= i < event_actions(events, earlier).len(),
    ensures
        event_actions(events, earlier)[i] is Show || event_actions(events, earlier)[i] is Deliver,
    decreases events.len(),
{
    if events.len() > 0 && i < event_actions(events.drop_last(), earlier).len() {
        lemma_events_show_or_deliver(events.drop_last(), earlier, i);
    }
}

/// No read ends the reader, and the host is waited for exactly if it went away:
/// then once, and whatever was received before.
pub proof fn law_no_read_ends_the_reader(state: ReaderView, outcome: ReadOutcomeView, i: int)
    requires
        state.valid(),
        0 <= i < state.actions(outcome).len(),
    ensures
        !(state.actions(outcome)[i] is Exit),
        state.actions(outcome)[i] is WaitForConnection <==> outcome is HostDisconnected && i == 1,
{
    if let ReadOutcomeView::Data(bytes) = outcome {
        if i > 0 {
            lemma_events_show_or_deliver(
                line::line_events(state.line + bytes),
                state.total_lines,
                i - 1,
            );
        }
    }
}

/// A host that goes away is announced and waited for; once it is back, the reader
/// is ready under the same endpoints and reads on. The unfinished line is all that
/// is forgotten.
pub proof fn law_disconnect_is_waited_out(state: ReaderView)
    requires
        state.valid(),
    ensures
        state.actions(ReadOutcomeView::HostDisconnected).len() == 3,
        state.actions(ReadOutcomeView::HostDisconnected)[0] == ReaderActionView::Show(
            "WebUSB: waiting for host"@,
        ),
        state.actions(ReadOutcomeView::HostDisconnected)[1] is WaitForConnection,
        state.actions(ReadOutcomeView::HostDisconnected)[2] == ReaderActionView::Show(
            status::ready_text(state.ep_out, state.ep_in),
        ),
        state.after(ReadOutcomeView::HostDisconnected).line.len() == 0,
        state.after(ReadOutcomeView::HostDisconnected).ep_out == state.ep_out,
        state.after(ReadOutcomeView::HostDisconnected).ep_in == state.ep_in,
        state.after(ReadOutcomeView::HostDisconnected).total_bytes == state.total_bytes,
        state.after(ReadOutcomeView::HostDisconnected).total_lines == state.total_lines,
{
}

/// A failed read is shown with its error, whole, and changes nothing; nor does a
/// read that gave nothing, of which nothing is shown.
pub proof fn law_fruitless_reads_change_nothing(state: ReaderView, error: Seq<char>)
    requires
        state.valid(),
    ensures
        state.after(ReadOutcomeView::Failed(error)) == state,
        state.actions(ReadOutcomeView::Failed(error)).len() == 1,
        state.actions(ReadOutcomeView::Failed(error))[0] == ReaderActionView::Show(
            "read err: "@ + error,
        ),
        state.after(ReadOutcomeView::Data(Seq::empty())) == state,
        state.actions(ReadOutcomeView::Data(Seq::empty())).len() == 0,
{
    assert(state.line + Seq::<u8>::empty() =~= state.line);
    line::law_line_content_is_held(state.line);
}

/// When bytes arrive, the totals come first: how many arrived now, how many in
/// all, and the lines so far. The totals count every byte and every delivery, and
/// the endpoints stay.
pub proof fn law_totals_count_everything(state: ReaderView, bytes: Seq<u8>)
    requires
        state.valid(),
    ensures
        bytes.len() > 0 ==> state.actions(ReadOutcomeView::Data(bytes)).len() > 0 && state.actions(
            ReadOutcomeView::Data(bytes),
        )[0] == ReaderActionView::Show(
            status::received_text(
                bytes.len(),
                state.total_bytes + bytes.len(),
                state.total_lines,
            ),
        ),
        state.after(ReadOutcomeView::Data(bytes)).total_bytes == state.total_bytes + bytes.len(),
        state.after(ReadOutcomeView::Data(bytes)).total_lines == state.total_lines + deliveries(
            state.actions(ReadOutcomeView::Data(bytes)),
        ).len(),
        state.after(ReadOutcomeView::Data(bytes)).ep_out == state.ep_out,
        state.after(ReadOutcomeView::Data(bytes)).ep_in == state.ep_in,
{
    lemma_deliveries_of_read(state, ReadOutcomeView::Data(bytes));
    lemma_lines_are_counted(line::line_events(state.line + bytes));
}

/// The count of lines is the number of lines.
proof fn lemma_lines_are_counted(events: Seq<LineEventView>)
    ensures
        lines(events).len() == line::line_count(events),
    decreases events.len(),
{
    if events.len() > 0 {
        lemma_lines_are_counted(events.drop_last());
    }
}

/// What one byte does. A line feed has the line that is held announced under the
/// next number and delivered, unless it is blank; a carriage return does nothing;
/// another byte extends the line, or, at 16 KiB, has it dropped.
pub proof fn law_what_one_byte_does(state: ReaderView, b: u8)
    requires
        state.valid(),
    ensures
        ({
            let actions = state.actions(ReadOutcomeView::Data(seq![b]));
            let after = state.after(ReadOutcomeView::Data(seq![b]));
            if b == 10 && state.line.len() > 0 {
                &&& actions.len() == 3
                &&& actions[1] == ReaderActionView::Show(
                    status::got_line_text(state.total_lines + 1, state.line.len()),
                )
                &&& actions[2] == ReaderActionView::Deliver(state.line)
                &&& after.line.len() == 0
            } else if b == 10 || b == 13 {
                &&& actions.len() == 1
                &&& after.line == state.line
            } else if state.line.len() < 16384 {
                &&& actions.len() == 1
                &&& after.line == state.line.push(b)
            } else {
                &&& actions.len() == 2
                &&& actions[1] == ReaderActionView::Show("rx: oversize line dropped"@)
                &&& after.line.len() == 0
            }
        }),
{
    reveal_with_fuel(event_actions, 2);
    reveal_with_fuel(line::line_count, 2);
    assert(state.line + seq![b] =~= state.line.push(b));
    line::law_line_content_is_held(state.line);
    let events = line::line_events(state.line.push(b));
    if b == 10 {
        line::law_line_feed_ends_the_line(state.line);
        if state.line.len() > 0 {
            assert(events =~= seq![LineEventView::Line(state.line)]);
            assert(events.drop_last() =~= Seq::empty());
        }
    } else if b == 13 {
        line::law_carriage_return_is_ignored(state.line);
    } else {
        line::law_byte_extends_the_line(state.line, b);
        if state.line.len() >= 16384 {
            assert(events =~= seq![LineEventView::Dropped]);
            assert(events.drop_last() =~= Seq::empty());
        }
    }
}

/// Two reads do what one read of all their bytes does, but that the totals are
/// shown once more.
pub proof fn law_reads_can_be_joined(state: ReaderView, first: Seq<u8>, second: Seq<u8>)
    requires
        state.valid(),
        first.len() > 0,
        second.len() > 0,
    ensures
        ({
            let between = state.after(ReadOutcomeView::Data(first));
            &&& state.after(ReadOutcomeView::Data(first + second)) == between.after(
                ReadOutcomeView::Data(second),
            )
            &&& state.actions(ReadOutcomeView::Data(first + second)).skip(1) == state.actions(
                ReadOutcomeView::Data(first),
            ).skip(1) + between.actions(ReadOutcomeView::Data(second)).skip(1)
        }),
{
    let between = state.after(ReadOutcomeView::Data(first));
    let a = line::line_events(state.line + first);
    let b = line::line_events(between.line + second);
    assert(state.line + (first + second) =~= (state.line + first) + second);
    line::law_chunking_is_transparent(state.line + first, second);
    lemma_line_count_add(a, b);
    lemma_event_actions_add(a, b, state.total_lines);
    assert(state.actions(ReadOutcomeView::Data(first)).skip(1) =~= event_actions(
        a,
        state.total_lines,
    ));
    assert(between.actions(ReadOutcomeView::Data(second)).skip(1) =~= event_actions(
        b,
        between.total_lines,
    ));
    assert(state.actions(ReadOutcomeView::Data(first + second)).skip(1) =~= event_actions(
        a + b,
        state.total_lines,
    ));
}

/// Once its buffer is mapped the reader reads: it shows its endpoints and goes on.
/// Without a buffer it shows why and exits.
pub proof fn law_reader_runs_with_a_buffer(state: ReaderView, error: Seq<char>)
    ensures
        state.started_actions(None).len() == 1,
        state.started_actions(None)[0] == ReaderActionView::Show(
            status::reader_started_text(state.ep_out, state.ep_in),
        ),
        state.started_actions(Some(error)).len() == 2,
        state.started_actions(Some(error))[0] == ReaderActionView::Show(
            "reader: map err "@ + error,
        ),
        state.started_actions(Some(error))[1] is Exit,
{
}

/// The view of actions loses nothing: as many, in the same order, with the same
/// contents.
pub proof fn law_action_views_are_faithful(actions: Seq<ReaderAction>, i: int)
    requires
        0 <= i < actions.len(),
    ensures
        action_views(actions).len() == actions.len(),
        match actions[i] {
            ReaderAction::Show(status) => action_views(actions)[i] == ReaderActionView::Show(
                status@,
            ),
            ReaderAction::Deliver(payload) => action_views(actions)[i]
                == ReaderActionView::Deliver(payload@),
            ReaderAction::WaitForConnection => action_views(actions)[i] is WaitForConnection,
            ReaderAction::Exit => action_views(actions)[i] is Exit,
        },
{
}

/// The view of a read's outcome loses nothing.
pub proof fn law_read_outcome_view_is_faithful(outcome: ReadOutcome)
    ensures
        match outcome {
            ReadOutcome::Data(bytes) => outcome@ == ReadOutcomeView::Data(bytes@),
            ReadOutcome::HostDisconnected => outcome@ is HostDisconnected,
            ReadOutcome::Failed(error) => outcome@ == ReadOutcomeView::Failed(error@),
        },
{
}

/// Without a dispatcher the reader says so and exits, whatever it has seen.
pub proof fn law_reader_exits_without_a_dispatcher(state: ReaderView)
    ensures
        state.delivery_failed_actions().len() == 2,
        state.delivery_failed_actions()[0] == ReaderActionView::Show("dispatcher gone"@),
        state.delivery_failed_actions()[1] is Exit,
{
}

} // verus!

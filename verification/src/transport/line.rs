//! Newline-delimited framing of the byte stream that arrives from the host.
//!
//! A line ends at `\n`. Carriage returns are ignored wherever they stand, and
//! blank lines carry nothing. A line that outgrows [`MAX_LINE_BYTES`] is
//! thrown away together with the byte that did not fit, and collection starts
//! over with the byte after it.

use vstd::prelude::*;

verus! {

/// Most bytes that a single line may hold.
pub const MAX_LINE_BYTES: usize = 16 * 1024;

/// Line feed: ends a line.
pub const LF: u8 = 0x0a;

/// Carriage return: ignored.
pub const CR: u8 = 0x0d;

/// What a stretch of input brings about.
pub enum LineEvent {
    /// A complete, non-empty line, without its terminator.
    Line(Vec<u8>),
    /// The line in progress outgrew the cap and was thrown away.
    Dropped,
}

/// Mathematical counterpart of [`LineEvent`].
pub enum LineEventView {
    Line(Seq<u8>),
    Dropped,
}

impl View for LineEvent {
    type V = LineEventView;

    open spec fn view(&self) -> LineEventView {
        match *self {
            LineEvent::Line(payload) => LineEventView::Line(payload@),
            LineEvent::Dropped => LineEventView::Dropped,
        }
    }
}

/// The views of a sequence of events.
pub open spec fn event_views(events: Seq<LineEvent>) -> Seq<LineEventView> {
    events.map_values(|e: LineEvent| e@)
}

/// The bytes after the last line feed of `s` (all of `s` if it has none).
pub open spec fn last_line(s: Seq<u8>) -> Seq<u8>
    decreases s.len(),
{
    if s.len() == 0 || s.last() == LF {
        Seq::empty()
    } else {
        last_line(s.drop_last()).push(s.last())
    }
}

/// `s` with its carriage returns removed.
pub open spec fn without_cr(s: Seq<u8>) -> Seq<u8> {
    s.filter(|b: u8| b != CR)
}

/// What the cap leaves of the bytes of one line: as long as they are too many,
/// the line collected so far goes, together with the byte that did not fit.
pub open spec fn kept(w: Seq<u8>) -> Seq<u8>
    decreases w.len(),
{
    if w.len() <= MAX_LINE_BYTES {
        w
    } else {
        kept(w.skip(MAX_LINE_BYTES + 1))
    }
}

/// The unfinished line that is held once the stream `s` has been read.
pub open spec fn pending(s: Seq<u8>) -> Seq<u8> {
    kept(without_cr(last_line(s)))
}

/// Everything that the stream `s` brings about, in order: a line for each line
/// feed that finds a non-empty line, a drop for each byte that does not fit.
pub open spec fn line_events(s: Seq<u8>) -> Seq<LineEventView>
    decreases s.len(),
{
    if s.len() == 0 {
        Seq::empty()
    } else {
        let earlier = line_events(s.drop_last());
        let held = pending(s.drop_last());
        if s.last() == LF {
            if held.len() == 0 {
                earlier
            } else {
                earlier.push(LineEventView::Line(held))
            }
        } else if s.last() != CR && held.len() == MAX_LINE_BYTES {
            earlier.push(LineEventView::Dropped)
        } else {
            earlier
        }
    }
}

/// How many of the events are lines.
pub open spec fn line_count(events: Seq<LineEventView>) -> nat
    decreases events.len(),
{
    if events.len() == 0 {
        0
    } else {
        line_count(events.drop_last()) + if events.last() is Line {
            1nat
        } else {
            0nat
        }
    }
}

/// Whether `s` can stand in the middle of a line: no terminator, no carriage
/// return, and within the cap.
pub open spec fn is_line_content(s: Seq<u8>) -> bool {
    &&& s.len() <= MAX_LINE_BYTES
    &&& !s.contains(LF)
    &&& !s.contains(CR)
}

/// How the cap treats one more byte of a line.
proof fn lemma_kept_push(w: Seq<u8>, b: u8)
    ensures
        kept(w.push(b)) == (if kept(w).len() == MAX_LINE_BYTES {
            Seq::<u8>::empty()
        } else {
            kept(w).push(b)
        }),
    decreases w.len(),
{
    reveal_with_fuel(kept, 2);
    let over = MAX_LINE_BYTES + 1;
    if w.len() == MAX_LINE_BYTES {
        assert(w.push(b).skip(over) =~= Seq::<u8>::empty());
    } else if w.len() > MAX_LINE_BYTES {
        lemma_kept_push(w.skip(over), b);
        assert(w.push(b).skip(over) =~= w.skip(over).push(b));
    }
}

/// The empty stream.
proof fn lemma_pending_empty()
    ensures
        pending(Seq::<u8>::empty()) == Seq::<u8>::empty(),
{
    assert(without_cr(Seq::<u8>::empty()) =~= Seq::<u8>::empty()) by {
        reveal(Seq::filter);
    }
}

/// One more byte of the stream.
proof fn lemma_pending_push(s: Seq<u8>, b: u8)
    ensures
        pending(s.push(b)) == (if b == LF {
            Seq::<u8>::empty()
        } else if b == CR {
            pending(s)
        } else if pending(s).len() == MAX_LINE_BYTES {
            Seq::<u8>::empty()
        } else {
            pending(s).push(b)
        }),
        line_events(s.push(b)) == (if b == LF && pending(s).len() > 0 {
            line_events(s).push(LineEventView::Line(pending(s)))
        } else if b != LF && b != CR && pending(s).len() == MAX_LINE_BYTES {
            line_events(s).push(LineEventView::Dropped)
        } else {
            line_events(s)
        }),
{
    let t = s.push(b);
    assert(t.drop_last() =~= s);
    let keep = |x: u8| x != CR;
    let w = without_cr(last_line(s));
    lemma_kept_push(w, b);
    if b == LF {
        lemma_pending_empty();
        assert(last_line(t) == last_line(Seq::empty()));
    } else {
        assert(last_line(t) == last_line(s).push(b));
        last_line(s).lemma_filter_push(b, keep);
        if b == CR {
            assert(without_cr(last_line(t)) == w);
        } else {
            assert(without_cr(last_line(t)) == w.push(b));
        }
    }
}

/// What is held after any stream is line content: within the cap and free of
/// line feeds and carriage returns.
pub proof fn law_pending_is_line_content(s: Seq<u8>)
    ensures
        is_line_content(pending(s)),
    decreases s.len(),
{
    if s.len() == 0 {
        assert(s =~= Seq::empty());
        lemma_pending_empty();
    } else {
        law_pending_is_line_content(s.drop_last());
        assert(s.drop_last().push(s.last()) =~= s);
        lemma_pending_push(s.drop_last(), s.last());
        let p = pending(s.drop_last());
        let b = s.last();
        if b != LF && b != CR && p.len() < MAX_LINE_BYTES {
            assert forall|x: u8| p.push(b).contains(x) implies p.contains(x) || x == b by {
                let i = choose|i: int| 0 <= i < p.push(b).len() && p.push(b)[i] == x;
                if i < p.len() {
                    assert(p[i] == x);
                }
            }
        }
    }
}

/// Line content, read from nothing, is held whole and brings about nothing.
pub proof fn law_line_content_is_held(p: Seq<u8>)
    requires
        is_line_content(p),
    ensures
        pending(p) == p,
        line_events(p) == Seq::<LineEventView>::empty(),
    decreases p.len(),
{
    if p.len() == 0 {
        assert(p =~= Seq::empty());
        lemma_pending_empty();
    } else {
        let q = p.drop_last();
        assert(q.push(p.last()) =~= p);
        assert forall|x: u8| q.contains(x) implies p.contains(x) by {
            let i = choose|i: int| 0 <= i < q.len() && q[i] == x;
            assert(p[i] == x);
        }
        law_line_content_is_held(q);
        lemma_pending_push(q, p.last());
        assert(p.contains(p.last()));
    }
}

/// Where the stream is cut does not matter: reading `t` with the line held
/// after `s` gives what reading `s + t` in one go gives.
pub proof fn law_chunking_is_transparent(s: Seq<u8>, t: Seq<u8>)
    ensures
        pending(s + t) == pending(pending(s) + t),
        line_events(s + t) == line_events(s) + line_events(pending(s) + t),
    decreases t.len(),
{
    let p = pending(s);
    if t.len() == 0 {
        assert(s + t =~= s);
        assert(p + t =~= p);
        law_pending_is_line_content(s);
        law_line_content_is_held(p);
        assert(line_events(s) + Seq::<LineEventView>::empty() =~= line_events(s));
    } else {
        let u = t.drop_last();
        let b = t.last();
        law_chunking_is_transparent(s, u);
        assert((s + u).push(b) =~= s + t);
        assert((p + u).push(b) =~= p + t);
        lemma_pending_push(s + u, b);
        lemma_pending_push(p + u, b);
        assert(line_events(s + t) =~= line_events(s) + line_events(p + t));
    }
}

/// A line feed puts the reader back to the start: whatever came before it, the
/// rest of the stream is read as if it stood alone.
pub proof fn law_line_feed_resynchronises(s: Seq<u8>, t: Seq<u8>)
    ensures
        pending(s.push(LF) + t) == pending(t),
        line_events(s.push(LF) + t) == line_events(s.push(LF)) + line_events(t),
{
    lemma_pending_push(s, LF);
    law_chunking_is_transparent(s.push(LF), t);
    assert(Seq::<u8>::empty() + t =~= t);
}

/// Every line that is delivered is non-empty, within the cap, and free of line
/// feeds and carriage returns.
pub proof fn law_delivered_lines_are_content(s: Seq<u8>, i: int)
    requires
        0 <= i < line_events(s).len(),
    ensures
        line_events(s)[i] matches LineEventView::Line(p) ==> p.len() > 0 && is_line_content(p),
    decreases s.len(),
{
    let before = s.drop_last();
    law_pending_is_line_content(before);
    if i < line_events(before).len() {
        law_delivered_lines_are_content(before, i);
    }
}

/// Carriage returns change nothing, wherever they stand.
pub proof fn law_carriage_returns_are_ignored(s: Seq<u8>)
    ensures
        pending(without_cr(s)) == pending(s),
        line_events(without_cr(s)) == line_events(s),
    decreases s.len(),
{
    if s.len() == 0 {
        assert(without_cr(s) =~= s) by {
            reveal(Seq::filter);
        }
    } else {
        let before = s.drop_last();
        law_carriage_returns_are_ignored(before);
        assert(before.push(s.last()) =~= s);
        before.lemma_filter_push(s.last(), |b: u8| b != CR);
        lemma_pending_push(before, s.last());
        lemma_pending_push(without_cr(before), s.last());
    }
}

/// A line one byte over the cap is dropped whole, once, and nothing of it is
/// held.
pub proof fn law_oversize_line_is_dropped(p: Seq<u8>, b: u8)
    requires
        is_line_content(p),
        p.len() == MAX_LINE_BYTES,
        b != LF,
        b != CR,
    ensures
        line_events(p.push(b)) == seq![LineEventView::Dropped],
        pending(p.push(b)) == Seq::<u8>::empty(),
{
    law_line_content_is_held(p);
    lemma_pending_push(p, b);
    assert(line_events(p.push(b)) =~= seq![LineEventView::Dropped]);
}

/// Reading one framed payload delivers that payload and holds nothing.
pub proof fn law_framed_payload_is_delivered(payload: Seq<u8>)
    requires
        is_line_content(payload),
        payload.len() > 0,
    ensures
        line_events(payload.push(LF)) == seq![LineEventView::Line(payload)],
        pending(payload.push(LF)) == Seq::<u8>::empty(),
{
    law_line_content_is_held(payload);
    lemma_pending_push(payload, LF);
    assert(line_events(payload.push(LF)) =~= seq![LineEventView::Line(payload)]);
}

/// The stream that carries `payloads` one after the other, each with its line
/// feed.
pub open spec fn framed(payloads: Seq<Seq<u8>>) -> Seq<u8>
    decreases payloads.len(),
{
    if payloads.len() == 0 {
        Seq::empty()
    } else {
        framed(payloads.drop_last()) + payloads.last().push(LF)
    }
}

/// Reading framed payloads delivers exactly these payloads, in order, and holds
/// nothing at the end.
pub proof fn law_framed_payloads_are_delivered(payloads: Seq<Seq<u8>>)
    requires
        forall|i: int|
            0 <= i < payloads.len() ==> is_line_content(#[trigger] payloads[i]) && payloads[i].len()
                > 0,
    ensures
        line_events(framed(payloads)) == payloads.map_values(
            |p: Seq<u8>| LineEventView::Line(p),
        ),
        pending(framed(payloads)) == Seq::<u8>::empty(),
    decreases payloads.len(),
{
    let as_line = |p: Seq<u8>| LineEventView::Line(p);
    if payloads.len() == 0 {
        law_line_content_is_held(Seq::empty());
        assert(payloads.map_values(as_line) =~= Seq::empty());
    } else {
        let earlier = payloads.drop_last();
        let p = payloads.last();
        assert forall|i: int| 0 <= i < earlier.len() implies is_line_content(
            #[trigger] earlier[i],
        ) && earlier[i].len() > 0 by {
            assert(earlier[i] == payloads[i]);
        }
        law_framed_payloads_are_delivered(earlier);
        law_framed_payload_is_delivered(p);
        law_chunking_is_transparent(framed(earlier), p.push(LF));
        assert(Seq::<u8>::empty() + p.push(LF) =~= p.push(LF));
        assert(payloads.map_values(as_line) =~= earlier.map_values(as_line).push(as_line(p)));
        assert(earlier.map_values(as_line) + seq![as_line(p)] =~= earlier.map_values(as_line).push(
            as_line(p),
        ));
    }
}

/// Each delivered line used up at least two bytes, and each held byte one.
pub(crate) proof fn lemma_line_count_bound(s: Seq<u8>)
    ensures
        line_count(line_events(s)) + pending(s).len() <= s.len(),
    decreases s.len(),
{
    if s.len() == 0 {
        law_line_content_is_held(s);
    } else {
        let before = s.drop_last();
        assert(before.push(s.last()) =~= s);
        lemma_line_count_bound(before);
        lemma_pending_push(before, s.last());
        let e = line_events(before);
        assert(e.push(LineEventView::Dropped).drop_last() =~= e);
        assert(e.push(LineEventView::Line(pending(before))).drop_last() =~= e);
    }
}

/// Collects the bytes of the line in progress.
pub struct LineBuffer {
    line: Vec<u8>,
}

impl View for LineBuffer {
    type V = Seq<u8>;

    closed spec fn view(&self) -> Seq<u8> {
        self.line@
    }
}

impl LineBuffer {
    /// The line in progress is line content.
    pub open spec fn well_formed(self) -> bool {
        is_line_content(self@)
    }

    /// An empty buffer.
    pub fn new() -> (buffer: LineBuffer)
        ensures
            buffer.well_formed(),
            buffer@ == Seq::<u8>::empty(),
    {
        LineBuffer { line: Vec::new() }
    }

    /// Forgets the line in progress.
    pub fn clear(&mut self)
        ensures
            final(self).well_formed(),
            final(self)@ == Seq::<u8>::empty(),
    {
        self.line.clear();
    }

    /// Takes in one byte.
    fn push_byte(&mut self, b: u8) -> (event: Option<LineEvent>)
        requires
            old(self).well_formed(),
        ensures
            final(self).well_formed(),
            final(self)@ == pending(old(self)@.push(b)),
            match event {
                Some(e) => line_events(old(self)@.push(b)) == seq![e@],
                None => line_events(old(self)@.push(b)) == Seq::<LineEventView>::empty(),
            },
    {
        proof {
            law_line_content_is_held(self@);
            lemma_pending_push(self@, b);
            law_pending_is_line_content(self@.push(b));
        }
        if b == LF {
            if self.line.is_empty() {
                return None;
            }
            let mut line: Vec<u8> = Vec::new();
            std::mem::swap(&mut self.line, &mut line);
            Some(LineEvent::Line(line))
        } else if b == CR {
            None
        } else if self.line.len() >= MAX_LINE_BYTES {
            self.line.clear();
            Some(LineEvent::Dropped)
        } else {
            self.line.push(b);
            None
        }
    }

    /// Takes in the next stretch of the stream and tells what it brought about.
    pub fn feed(&mut self, chunk: &[u8]) -> (events: Vec<LineEvent>)
        requires
            old(self).well_formed(),
        ensures
            final(self).well_formed(),
            final(self)@ == pending(old(self)@ + chunk@),
            event_views(events@) == line_events(old(self)@ + chunk@),
    {
        let ghost start = self@;
        let mut events: Vec<LineEvent> = Vec::new();
        let mut i: usize = 0;
        proof {
            assert(start + chunk@.take(0) =~= start);
            law_line_content_is_held(start);
            assert(event_views(events@) =~= line_events(start));
        }
        while i < chunk.len()
            invariant
                i <= chunk@.len(),
                self.well_formed(),
                self@ == pending(start + chunk@.take(i as int)),
                event_views(events@) == line_events(start + chunk@.take(i as int)),
            decreases chunk@.len() - i,
        {
            let b: u8 = chunk[i];
            let ghost read = start + chunk@.take(i as int);
            let ghost before = events@;
            proof {
                assert(start + chunk@.take(i + 1) =~= read.push(b));
                assert(read.push(b) =~= read + seq![b]);
                assert(self@.push(b) =~= self@ + seq![b]);
                law_chunking_is_transparent(read, seq![b]);
            }
            match self.push_byte(b) {
                Some(event) => {
                    events.push(event);
                    assert(event_views(events@) =~= event_views(before) + seq![event@]);
                },
                None => {
                    assert(event_views(before) =~= event_views(before) + Seq::empty());
                },
            }
            i = i + 1;
        }
        assert(chunk@.take(i as int) =~= chunk@);
        events
    }
}

/// Line content is at most 16 KiB without line feed and carriage return.
pub proof fn law_what_line_content_is(s: Seq<u8>)
    ensures
        is_line_content(s) <==> s.len() <= 16384 && !s.contains(10) && !s.contains(13),
{
}

/// The empty stream holds nothing and brings about nothing.
pub proof fn law_empty_stream_is_silent()
    ensures
        pending(Seq::<u8>::empty()).len() == 0,
        line_events(Seq::<u8>::empty()).len() == 0,
{
    lemma_pending_empty();
}

/// A line feed ends the line that is held: a non-empty one is delivered whole, a
/// blank one brings about nothing, and nothing is held afterwards.
pub proof fn law_line_feed_ends_the_line(s: Seq<u8>)
    ensures
        pending(s.push(10)).len() == 0,
        pending(s).len() > 0 ==> line_events(s.push(10)) == line_events(s).push(
            LineEventView::Line(pending(s)),
        ),
        pending(s).len() == 0 ==> line_events(s.push(10)) == line_events(s),
{
    lemma_pending_push(s, LF);
}

/// A carriage return changes nothing.
pub proof fn law_carriage_return_is_ignored(s: Seq<u8>)
    ensures
        pending(s.push(13)) == pending(s),
        line_events(s.push(13)) == line_events(s),
{
    lemma_pending_push(s, CR);
}

/// Any other byte extends the line that is held. Only if that holds 16 KiB
/// already, the line is dropped together with the byte.
pub proof fn law_byte_extends_the_line(s: Seq<u8>, b: u8)
    requires
        b != 10,
        b != 13,
    ensures
        pending(s).len() < 16384 ==> pending(s.push(b)) == pending(s).push(b) && line_events(
            s.push(b),
        ) == line_events(s),
        pending(s).len() >= 16384 ==> pending(s.push(b)).len() == 0 && line_events(s.push(b))
            == line_events(s).push(LineEventView::Dropped),
{
    lemma_pending_push(s, b);
    law_pending_is_line_content(s);
}

/// The view of events loses nothing: as many, in the same order, with the same
/// bytes.
pub proof fn law_event_views_are_faithful(events: Seq<LineEvent>, i: int)
    requires
        0 <= i < events.len(),
    ensures
        event_views(events).len() == events.len(),
        match events[i] {
            LineEvent::Line(payload) => event_views(events)[i] == LineEventView::Line(payload@),
            LineEvent::Dropped => event_views(events)[i] is Dropped,
        },
{
}

} // verus!

//! A mathematical model of the writer and the guarantees the logger gives.
//!
//! The writer thread is driven by the command channel, so its end-to-end
//! behaviour cannot be observed from any one call's contract. This module
//! states that behaviour over a model: a record is a timestamp, a severity
//! and a realized text; the sink is the pending buffer plus the durable file;
//! and the writer consumes inputs one by one, exactly as [`crate::writer`]
//! directs the loop to. The public proof functions here are the library's
//! laws: one output line per record, in submission order; records below the
//! filter never admitted and never written; and after a flush barrier the
//! durable output holds everything delivered before it.

use vstd::prelude::*;
use crate::level::Level;
use crate::line::line_body;
use crate::line::line_of;

verus! {

/// A realized record: the timestamp the writer stamped it with, the severity
/// it was submitted under, and the text its formatter produced.
pub struct RecordModel {
    pub stamp: Seq<char>,
    pub level: Level,
    pub text: Seq<char>,
}

/// The full line the writer appends for a record, newline included.
pub open spec fn record_line(r: RecordModel) -> Seq<char> {
    line_of(r.stamp, r.level, r.text)
}

/// The body of the line the writer appends for a record: everything before
/// the terminating newline.
pub open spec fn record_body(r: RecordModel) -> Seq<char> {
    line_body(r.stamp, r.level, r.text)
}

/// `s` contains no newline.
pub open spec fn newline_free(s: Seq<char>) -> bool {
    forall|i: int| 0 <= i < s.len() ==> s[i] != '\n'
}

/// A record whose timestamp and text contain no newline, so that it occupies
/// exactly one line of output.
pub open spec fn clean(r: RecordModel) -> bool {
    newline_free(r.stamp) && newline_free(r.text)
}

/// The bytes the writer appends for a sequence of records, in order.
pub open spec fn rendered(rs: Seq<RecordModel>) -> Seq<char>
    decreases rs.len(),
{
    if rs.len() == 0 {
        Seq::empty()
    } else {
        record_line(rs.first()) + rendered(rs.drop_first())
    }
}

/// Splits `s` at each newline: the lines of `s`, without their newlines.
/// `cur` accumulates the line under construction; a trailing fragment with no
/// newline counts as a line of its own.
pub open spec fn split_acc(s: Seq<char>, cur: Seq<char>) -> Seq<Seq<char>>
    decreases s.len(),
{
    if s.len() == 0 {
        if cur.len() == 0 {
            Seq::empty()
        } else {
            seq![cur]
        }
    } else if s.first() == '\n' {
        seq![cur] + split_acc(s.drop_first(), Seq::empty())
    } else {
        split_acc(s.drop_first(), cur.push(s.first()))
    }
}

/// The lines of `s`, in order, without their newlines.
pub open spec fn split_lines(s: Seq<char>) -> Seq<Seq<char>> {
    split_acc(s, Seq::empty())
}

proof fn lemma_label_newline_free(l: Level)
    ensures
        newline_free(l.label()),
{
    reveal_strlit("DEBUG");
    reveal_strlit("INFO");
    reveal_strlit("WARN");
    reveal_strlit("ERROR");
}

proof fn lemma_body_newline_free(r: RecordModel)
    requires
        clean(r),
    ensures
        newline_free(record_body(r)),
{
    reveal_strlit(" [");
    reveal_strlit("] ");
    lemma_label_newline_free(r.level);
    let body = record_body(r);
    assert forall|i: int| 0 <= i < body.len() implies body[i] != '\n' by {
        assert(body == r.stamp + " ["@ + r.level.label() + "] "@ + r.text);
    }
}

proof fn lemma_line_is_body_newline(r: RecordModel)
    ensures
        record_line(r) == record_body(r) + seq!['\n'],
{
    reveal_strlit("\n");
    assert("\n"@ =~= seq!['\n']);
    assert(record_line(r) =~= record_body(r) + seq!['\n']);
}

proof fn lemma_split_acc_line(body: Seq<char>, tail: Seq<char>, cur: Seq<char>)
    requires
        newline_free(body),
    ensures
        split_acc(body + seq!['\n'] + tail, cur) == seq![cur + body] + split_acc(tail, Seq::empty()),
    decreases body.len(),
{
    let s = body + seq!['\n'] + tail;
    if body.len() == 0 {
        assert(s =~= seq!['\n'] + tail);
        assert(s.first() == '\n');
        assert(s.drop_first() =~= tail);
        assert(cur + body =~= cur);
        assert(split_acc(s, cur) =~= seq![cur + body] + split_acc(tail, Seq::empty()));
    } else {
        assert(s.first() == body.first());
        assert(body.first() != '\n');
        assert(s.drop_first() =~= body.drop_first() + seq!['\n'] + tail);
        assert(newline_free(body.drop_first()));
        lemma_split_acc_line(body.drop_first(), tail, cur.push(body.first()));
        assert(cur.push(body.first()) + body.drop_first() =~= cur + body);
    }
}

/// Law: rendering a sequence of records yields exactly one output line per
/// record — no more, no fewer — and the i-th line is the line body of the
/// i-th record, so the output preserves the order in which the records were
/// delivered.
pub proof fn lemma_one_line_per_record(rs: Seq<RecordModel>)
    requires
        forall|i: int| 0 <= i < rs.len() ==> clean(#[trigger] rs[i]),
    ensures
        split_lines(rendered(rs)) == rs.map_values(|r: RecordModel| record_body(r)),
        split_lines(rendered(rs)).len() == rs.len(),
    decreases rs.len(),
{
    let f = |r: RecordModel| record_body(r);
    if rs.len() == 0 {
        assert(split_lines(rendered(rs)) =~= rs.map_values(f));
    } else {
        let first = rs.first();
        let rest = rs.drop_first();
        assert(clean(first));
        assert(forall|i: int| 0 <= i < rest.len() ==> clean(#[trigger] rest[i]));
        lemma_body_newline_free(first);
        lemma_line_is_body_newline(first);
        assert(rendered(rs) =~= record_body(first) + seq!['\n'] + rendered(rest));
        lemma_split_acc_line(record_body(first), rendered(rest), Seq::empty());
        assert(Seq::<char>::empty() + record_body(first) =~= record_body(first));
        lemma_one_line_per_record(rest);
        assert(split_lines(rendered(rs)) =~= seq![record_body(first)] + split_lines(rendered(rest)));
        assert(rs.map_values(f) =~= seq![record_body(first)] + rest.map_values(f));
    }
}

/// The records among `calls` that the handle admits to the channel under the
/// severity filter `filter`, in submission order. This is the decision that
/// [`crate::logger::Logger::admission`] ensures of each single record —
/// `Some` exactly when the severity passes the filter — taken over a whole
/// sequence of submissions.
pub open spec fn admitted(calls: Seq<RecordModel>, filter: Level) -> Seq<RecordModel>
    decreases calls.len(),
{
    if calls.len() == 0 {
        Seq::empty()
    } else if calls.first().level.spec_passes(filter) {
        seq![calls.first()] + admitted(calls.drop_first(), filter)
    } else {
        admitted(calls.drop_first(), filter)
    }
}

/// Law: everything admitted to the channel passes the severity filter, and
/// every admitted record is one of the submitted calls.
pub proof fn lemma_admitted_passes(calls: Seq<RecordModel>, filter: Level)
    ensures
        forall|i: int| 0 <= i < admitted(calls, filter).len()
            ==> (#[trigger] admitted(calls, filter)[i]).level.spec_passes(filter),
        forall|i: int| 0 <= i < admitted(calls, filter).len()
            ==> calls.contains(#[trigger] admitted(calls, filter)[i]),
    decreases calls.len(),
{
    if calls.len() == 0 {
    } else {
        let rest = calls.drop_first();
        lemma_admitted_passes(rest, filter);
        assert forall|i: int| 0 <= i < admitted(calls, filter).len() implies
            (#[trigger] admitted(calls, filter)[i]).level.spec_passes(filter)
            && calls.contains(admitted(calls, filter)[i]) by {
            if calls.first().level.spec_passes(filter) {
                if i == 0 {
                    assert(admitted(calls, filter)[0] == calls[0]);
                } else {
                    assert(admitted(calls, filter)[i] == admitted(rest, filter)[i - 1]);
                    assert(rest.contains(admitted(rest, filter)[i - 1]));
                    let j = choose|j: int| 0 <= j < rest.len() && rest[j] == admitted(rest, filter)[i - 1];
                    assert(calls[j + 1] == rest[j]);
                }
            } else {
                assert(admitted(calls, filter)[i] == admitted(rest, filter)[i]);
                assert(rest.contains(admitted(rest, filter)[i]));
                let j = choose|j: int| 0 <= j < rest.len() && rest[j] == admitted(rest, filter)[i];
                assert(calls[j + 1] == rest[j]);
            }
        }
    }
}

/// Law: a record below the configured severity filter is never admitted to
/// the channel, so it can never reach the writer nor the output file.
pub proof fn lemma_below_filter_excluded(calls: Seq<RecordModel>, filter: Level, r: RecordModel)
    requires
        !r.level.spec_passes(filter),
    ensures
        !admitted(calls, filter).contains(r),
{
    lemma_admitted_passes(calls, filter);
    if admitted(calls, filter).contains(r) {
        let i = choose|i: int| 0 <= i < admitted(calls, filter).len() && admitted(calls, filter)[i] == r;
        assert(admitted(calls, filter)[i].level.spec_passes(filter));
    }
}

/// Law: the lines that reach the output under a severity filter are exactly
/// the lines of the admitted records, in order; no line of a record below the
/// filter is among them.
pub proof fn lemma_filtered_never_written(calls: Seq<RecordModel>, filter: Level)
    requires
        forall|i: int| 0 <= i < calls.len() ==> clean(#[trigger] calls[i]),
    ensures
        split_lines(rendered(admitted(calls, filter)))
            == admitted(calls, filter).map_values(|r: RecordModel| record_body(r)),
        forall|i: int| 0 <= i < admitted(calls, filter).len()
            ==> (#[trigger] admitted(calls, filter)[i]).level.spec_passes(filter),
{
    lemma_admitted_passes(calls, filter);
    assert forall|i: int| 0 <= i < admitted(calls, filter).len() implies
        clean(#[trigger] admitted(calls, filter)[i]) by {
        assert(calls.contains(admitted(calls, filter)[i]));
        let j = choose|j: int| 0 <= j < calls.len() && calls[j] == admitted(calls, filter)[i];
        assert(clean(calls[j]));
    }
    lemma_one_line_per_record(admitted(calls, filter));
}

/// One input consumed by the writer loop, as the model sees it: a record
/// delivered from the channel, a flush barrier, or an empty poll (which also
/// flushes the pending buffer before the idle sleep).
pub enum WriterInput {
    Deliver(RecordModel),
    Barrier,
    Pause,
}

/// The sink as the model sees it: the bytes buffered but not yet flushed, and
/// the bytes durably in the file.
pub struct SinkModel {
    pub pending: Seq<char>,
    pub durable: Seq<char>,
}

/// The sink before anything happened: empty buffer, empty file.
pub open spec fn sink_init() -> SinkModel {
    SinkModel { pending: Seq::empty(), durable: Seq::empty() }
}

/// How one writer input changes the sink, exactly as the writer's directives
/// have the loop act: a delivered record is rendered and appended to the
/// pending buffer with no flush implied; a flush barrier and an empty poll
/// both move the whole pending buffer into the durable file.
pub open spec fn sink_step(m: SinkModel, c: WriterInput) -> SinkModel {
    match c {
        WriterInput::Deliver(r) => SinkModel {
            pending: m.pending + record_line(r),
            durable: m.durable,
        },
        WriterInput::Barrier => SinkModel {
            pending: Seq::empty(),
            durable: m.durable + m.pending,
        },
        WriterInput::Pause => SinkModel {
            pending: Seq::empty(),
            durable: m.durable + m.pending,
        },
    }
}

/// The sink after the writer has consumed `cs`, starting from `m`.
pub open spec fn sink_run(m: SinkModel, cs: Seq<WriterInput>) -> SinkModel
    decreases cs.len(),
{
    if cs.len() == 0 {
        m
    } else {
        sink_run(sink_step(m, cs.first()), cs.drop_first())
    }
}

/// The records delivered among the inputs `cs`, in delivery order.
pub open spec fn deliveries(cs: Seq<WriterInput>) -> Seq<RecordModel>
    decreases cs.len(),
{
    if cs.len() == 0 {
        Seq::empty()
    } else {
        match cs.first() {
            WriterInput::Deliver(r) => seq![r] + deliveries(cs.drop_first()),
            _ => deliveries(cs.drop_first()),
        }
    }
}

proof fn lemma_rendered_cons(r: RecordModel, rs: Seq<RecordModel>)
    ensures
        rendered(seq![r] + rs) == record_line(r) + rendered(rs),
{
    let s = seq![r] + rs;
    assert(s.first() == r);
    assert(s.drop_first() =~= rs);
}

/// Law: the writer loses nothing and invents nothing — after consuming any
/// inputs, the pending buffer and the durable file together hold exactly the
/// rendered lines of the delivered records, appended in delivery order to
/// whatever was there before.
pub proof fn lemma_sink_accounting(m: SinkModel, cs: Seq<WriterInput>)
    ensures
        sink_run(m, cs).durable + sink_run(m, cs).pending
            == m.durable + m.pending + rendered(deliveries(cs)),
    decreases cs.len(),
{
    if cs.len() == 0 {
        assert(m.durable + m.pending + rendered(deliveries(cs)) =~= m.durable + m.pending);
    } else {
        let m1 = sink_step(m, cs.first());
        lemma_sink_accounting(m1, cs.drop_first());
        match cs.first() {
            WriterInput::Deliver(r) => {
                lemma_rendered_cons(r, deliveries(cs.drop_first()));
                assert(deliveries(cs) == seq![r] + deliveries(cs.drop_first()));
                assert(m.durable + (m.pending + record_line(r)) + rendered(deliveries(cs.drop_first()))
                    =~= m.durable + m.pending + (record_line(r) + rendered(deliveries(cs.drop_first()))));
            }
            WriterInput::Barrier => {
                assert(deliveries(cs) == deliveries(cs.drop_first()));
                assert((m.durable + m.pending) + Seq::<char>::empty() + rendered(deliveries(cs.drop_first()))
                    =~= m.durable + m.pending + rendered(deliveries(cs.drop_first())));
            }
            WriterInput::Pause => {
                assert(deliveries(cs) == deliveries(cs.drop_first()));
                assert((m.durable + m.pending) + Seq::<char>::empty() + rendered(deliveries(cs.drop_first()))
                    =~= m.durable + m.pending + rendered(deliveries(cs.drop_first())));
            }
        }
    }
}

proof fn lemma_sink_run_snoc(m: SinkModel, cs: Seq<WriterInput>, c: WriterInput)
    ensures
        sink_run(m, cs.push(c)) == sink_step(sink_run(m, cs), c),
    decreases cs.len(),
{
    if cs.len() == 0 {
        assert(cs.push(c).drop_first() =~= cs);
        assert(cs.push(c).first() == c);
        assert(sink_run(m, cs.push(c)) == sink_run(sink_step(m, c), cs));
        assert(sink_run(sink_step(m, c), cs) == sink_step(m, c));
        assert(sink_step(sink_run(m, cs), c) == sink_step(m, c));
    } else {
        let s = cs.push(c);
        assert(s.first() == cs.first());
        assert(s.drop_first() =~= cs.drop_first().push(c));
        lemma_sink_run_snoc(sink_step(m, cs.first()), cs.drop_first(), c);
        assert(sink_run(m, s) == sink_run(sink_step(m, cs.first()), cs.drop_first().push(c)));
        assert(sink_run(m, cs) == sink_run(sink_step(m, cs.first()), cs.drop_first()));
    }
}

/// Law: the flush barrier. When the writer reaches a flush command, every
/// record delivered before it has been rendered and moved to the durable
/// file, in delivery order, and nothing remains buffered — this is what makes
/// it sound for the writer to acknowledge the flush, and for `flush()` to
/// promise on return that everything enqueued before the call is durable.
pub proof fn lemma_flush_barrier(cs: Seq<WriterInput>)
    ensures
        sink_run(sink_init(), cs.push(WriterInput::Barrier)).pending == Seq::<char>::empty(),
        sink_run(sink_init(), cs.push(WriterInput::Barrier)).durable
            == rendered(deliveries(cs)),
{
    lemma_sink_run_snoc(sink_init(), cs, WriterInput::Barrier);
    lemma_sink_accounting(sink_init(), cs);
    let end = sink_run(sink_init(), cs);
    assert(end.durable + end.pending =~= rendered(deliveries(cs)));
    assert(sink_run(sink_init(), cs.push(WriterInput::Barrier)).durable
        == end.durable + end.pending);
}

proof fn lemma_deliveries_of_records(rs: Seq<RecordModel>)
    ensures
        deliveries(rs.map_values(|r: RecordModel| WriterInput::Deliver(r))) == rs,
    decreases rs.len(),
{
    let f = |r: RecordModel| WriterInput::Deliver(r);
    let cs = rs.map_values(f);
    if rs.len() == 0 {
        assert(deliveries(cs) =~= rs);
    } else {
        assert(cs.first() == f(rs.first()));
        assert(cs.drop_first() =~= rs.drop_first().map_values(f));
        lemma_deliveries_of_records(rs.drop_first());
        assert(deliveries(cs) == seq![rs.first()] + deliveries(cs.drop_first()));
        assert(seq![rs.first()] + rs.drop_first() =~= rs);
    }
}

/// Law: after a flush barrier, the durable file holds exactly one line per
/// record delivered before the barrier, in delivery order.
pub proof fn lemma_barrier_lines(cs: Seq<WriterInput>)
    requires
        forall|i: int| 0 <= i < deliveries(cs).len() ==> clean(#[trigger] deliveries(cs)[i]),
    ensures
        split_lines(sink_run(sink_init(), cs.push(WriterInput::Barrier)).durable)
            == deliveries(cs).map_values(|r: RecordModel| record_body(r)),
        split_lines(sink_run(sink_init(), cs.push(WriterInput::Barrier)).durable).len()
            == deliveries(cs).len(),
{
    lemma_flush_barrier(cs);
    lemma_one_line_per_record(deliveries(cs));
}

/// Law, end to end: take any sequence of submissions and any severity filter.
/// The handle admits exactly the submissions that pass the filter, in
/// submission order; when the writer has consumed those records followed by a
/// flush barrier, the durable file holds exactly one line per admitted
/// record, in that order — so a producer that enqueues N passing messages and
/// then flushes finds exactly N lines, in its enqueue order, and no trace of
/// anything below the filter.
pub proof fn lemma_submissions_to_durable_lines(calls: Seq<RecordModel>, filter: Level)
    requires
        forall|i: int| 0 <= i < calls.len() ==> clean(#[trigger] calls[i]),
    ensures
        ({
            let kept = admitted(calls, filter);
            let inputs = kept.map_values(|r: RecordModel| WriterInput::Deliver(r));
            let durable = sink_run(sink_init(), inputs.push(WriterInput::Barrier)).durable;
            &&& split_lines(durable) == kept.map_values(|r: RecordModel| record_body(r))
            &&& split_lines(durable).len() == kept.len()
            &&& forall|i: int| 0 <= i < kept.len()
                ==> (#[trigger] kept[i]).level.spec_passes(filter)
        }),
{
    let kept = admitted(calls, filter);
    lemma_admitted_passes(calls, filter);
    assert forall|i: int| 0 <= i < kept.len() implies clean(#[trigger] kept[i]) by {
        assert(calls.contains(kept[i]));
        let j = choose|j: int| 0 <= j < calls.len() && calls[j] == kept[i];
        assert(clean(calls[j]));
    }
    let inputs = kept.map_values(|r: RecordModel| WriterInput::Deliver(r));
    lemma_deliveries_of_records(kept);
    lemma_barrier_lines(inputs);
}

} // verus!

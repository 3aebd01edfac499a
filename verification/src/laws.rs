//! Laws of the pipeline, each proved from the definitions it speaks of.
use vstd::prelude::*;

use crate::lazy_file::WriterAction;
use crate::level::Level;
use crate::level::SeverityFilter;
use crate::once::Once;
use crate::pipeline::file_target;
use crate::pipeline::first_step;
use crate::pipeline::reconfiguration_steps;
use crate::pipeline::second_step;
use crate::pipeline::Pipeline;
use crate::pipeline::SinkId;
use crate::pipeline::Update;
use crate::sink::rendering_of;
use crate::sink::Rendering;
use crate::sink::SinkState;

verus! {

/// A sink whose filter is set to `threshold` renders an event exactly when
/// the event carries a real severity that is no less severe than the
/// threshold: every event that is less severe is dropped, and every event
/// that is as severe or more severe is rendered.
pub proof fn lemma_filter_threshold(sink: SinkState, threshold: Level, event: Level)
    requires
        sink.filter == threshold.filter(),
    ensures
        event.verbosity() > threshold.verbosity() ==> !sink.renders(event),
        event != Level::Off && event.verbosity() <= threshold.verbosity() ==> sink.renders(event),
        threshold == Level::Off ==> !sink.renders(event),
        threshold == Level::Trace && event != Level::Off ==> sink.renders(event),
{
}

/// What a filter admits, every less restrictive filter admits too.
pub proof fn lemma_filter_monotone(tight: Level, loose: Level, event: Level)
    requires
        tight.verbosity() <= loose.verbosity(),
        tight.filter().admits(event),
    ensures
        loose.filter().admits(event),
{
}

/// Two steps taken in order are the first and then the second.
pub proof fn lemma_two_steps(pipeline: Pipeline, first: Update, second: Update)
    ensures
        pipeline.applied_all(seq![first, second]) == pipeline.applied(first).applied(second),
{
    let both = seq![first, second];
    let one = seq![first];
    assert(both.drop_last() =~= one);
    assert(one.drop_last() =~= Seq::<Update>::empty());
    assert(both.last() == second);
    assert(one.last() == first);
    reveal_with_fuel(Pipeline::applied_all, 3);
}

/// A request is carried out as its two steps, taken in order.
pub proof fn lemma_reconfigured_by_steps(
    pipeline: Pipeline,
    level: Level,
    file_name: Option<Seq<char>>,
)
    ensures
        pipeline.reconfigured(level, file_name) == pipeline.applied_all(
            reconfiguration_steps(level, file_name),
        ),
{
    lemma_two_steps(pipeline, first_step(level, file_name), second_step(file_name));
}

/// What a request leaves in force does not depend on what was in force
/// before it: both filters are the request's own, and so is the file sink's
/// writer where the request names a file. Of requests carried out one after
/// another, the last alone decides.
pub proof fn lemma_last_request_decides(
    one: Pipeline,
    other: Pipeline,
    level: Level,
    file_name: Option<Seq<char>>,
)
    ensures
        one.reconfigured(level, file_name).console.filter == other.reconfigured(
            level,
            file_name,
        ).console.filter,
        one.reconfigured(level, file_name).file.filter == other.reconfigured(
            level,
            file_name,
        ).file.filter,
        file_name is Some ==> one.reconfigured(level, file_name).file.writer == other.reconfigured(
            level,
            file_name,
        ).file.writer,
        one.reconfigured(level, file_name).exclusive(),
{
}

/// After an initialisation the slot is filled, and the two outputs exclude
/// each other: with no file name the console has the requested level and the
/// file sink is off with the writer that it had; with a file name the file
/// sink has the level and an unused resource of that name, and the console is
/// off.
pub proof fn lemma_initialized(before: Once, level: Level, file_name: Option<Seq<char>>)
    ensures
        before.initialized(level, file_name).pipeline is Some,
        before.initialized(level, file_name).pipeline->0.exclusive(),
        before.wf() ==> before.initialized(level, file_name).wf(),
        file_name is None ==> ({
            let after = before.initialized(level, file_name).pipeline->0;
            &&& after.console.filter == level.filter()
            &&& after.file.filter == SeverityFilter::Off
            &&& after.file.writer == before.prepared(file_name).file.writer
        }),
        file_name matches Some(name) ==> ({
            let after = before.initialized(level, file_name).pipeline->0;
            &&& after.console.filter == SeverityFilter::Off
            &&& after.file.filter == level.filter()
            &&& after.file.writer == Some(file_target(name))
        }),
{
}

/// An initialisation with no file name after one with a file name turns the
/// file output off and the console on at the new level; the writer of the
/// earlier call stays in place, unused by the second call.
pub proof fn lemma_redirect_to_console(
    before: Once,
    earlier: Level,
    file_name: Seq<char>,
    later: Level,
)
    ensures
        ({
            let between = before.initialized(earlier, Some(file_name));
            let after = between.initialized(later, None).pipeline->0;
            &&& after.console.filter == later.filter()
            &&& after.file.filter == SeverityFilter::Off
            &&& after.file.writer == Some(file_target(file_name))
            &&& forall|event: Level| !after.file.renders(event)
        }),
{
}

/// An initialisation with a file name after one with none turns the console
/// off and the file output on at the new level, with an unused resource of
/// that name.
pub proof fn lemma_redirect_to_file(before: Once, earlier: Level, later: Level, file_name: Seq<char>)
    ensures
        ({
            let between = before.initialized(earlier, None);
            let after = between.initialized(later, Some(file_name)).pipeline->0;
            &&& after.console.filter == SeverityFilter::Off
            &&& after.file.filter == later.filter()
            &&& after.file.writer == Some(file_target(file_name))
            &&& forall|event: Level| !after.console.renders(event)
        }),
{
}

/// Describing a file resource leaves it unused, and offering an event to a
/// sink makes the backing file needed only where the sink's filter admits the
/// event: a sink that is off never asks for it, and the one request that
/// has to create it is the first that is admitted.
pub proof fn lemma_file_needed_on_admitted_write(sink: SinkState, event: Level)
    requires
        sink.writer is Some,
    ensures
        !sink.renders(event) ==> sink.offered(event) == sink && rendering_of(sink, event)
            == Rendering::Dropped,
        sink.filter == SeverityFilter::Off ==> sink.offered(event) == sink,
        sink.renders(event) ==> sink.offered(event).writer->0.materialized,
        rendering_of(sink, event) == Rendering::Written(WriterAction::Create) <==> sink.renders(
            event,
        ) && !sink.writer->0.materialized,
        sink.offered(event).writer->0.directory == sink.writer->0.directory,
        sink.offered(event).writer->0.filename_prefix == sink.writer->0.filename_prefix,
{
}

/// Right after an initialisation with a file name the file is still
/// untouched, and dispatching an event touches it exactly when the event
/// passes both the source allow-list and the requested level.
pub proof fn lemma_file_untouched_until_admitted(
    before: Once,
    level: Level,
    file_name: Seq<char>,
    event: Level,
)
    ensures
        ({
            let pipeline = before.initialized(level, Some(file_name)).pipeline->0;
            let admitted = pipeline.source.admits(event) && level.filter().admits(event);
            &&& !pipeline.file.writer->0.materialized
            &&& pipeline.delivered(event).file.writer->0.materialized == admitted
            &&& pipeline.rendering(SinkId::File, event) == (if admitted {
                Rendering::Written(WriterAction::Create)
            } else {
                Rendering::Dropped
            })
        }),
{
}

/// A log call on an empty slot initialises it once, at `Warn` and with no
/// file, before the event is dispatched.
pub proof fn lemma_first_log_initializes(source: SeverityFilter, event: Level)
    requires
        event != Level::Off,
    ensures
        ({
            let before = Once::uninitialized(source);
            let implied = before.initialized(Level::Warn, None);
            &&& before.logged(event).pipeline == Some(implied.pipeline->0.delivered(event))
            &&& implied.pipeline->0.console.filter == SeverityFilter::Warn
            &&& implied.pipeline->0.file.filter == SeverityFilter::Off
        }),
{
}

/// A log call on a filled slot does not initialise again: the slot stays
/// filled, and both filters and the allow-list are as they were.
pub proof fn lemma_log_keeps_configuration(before: Once, event: Level)
    requires
        before.pipeline is Some,
    ensures
        before.logged(event).pipeline is Some,
        before.logged(event).source == before.source,
        before.logged(event).pipeline->0.console.filter == before.pipeline->0.console.filter,
        before.logged(event).pipeline->0.file.filter == before.pipeline->0.file.filter,
        before.logged(event).pipeline->0.source == before.pipeline->0.source,
        event != Level::Off ==> before.logged(event).pipeline == Some(
            before.pipeline->0.delivered(event),
        ),
        before.wf() ==> before.logged(event).wf(),
{
}

/// Two log calls on an empty slot: the first initialises, the second finds
/// the pipeline of the first and only dispatches its event.
pub proof fn lemma_second_log_does_not_initialize(source: SeverityFilter, first: Level, second: Level)
    requires
        first != Level::Off,
        second != Level::Off,
    ensures
        ({
            let before = Once::uninitialized(source);
            let implied = before.initialized(Level::Warn, None).pipeline->0;
            before.logged(first).logged(second).pipeline == Some(
                implied.delivered(first).delivered(second),
            )
        }),
{
}

/// Steps that address one sink leave the other as it was.
pub proof fn lemma_other_sink_untouched(pipeline: Pipeline, updates: Seq<Update>, sink: SinkId)
    requires
        forall|j: int| 0 <= j < updates.len() ==> (#[trigger] updates[j]).sink != sink,
    ensures
        pipeline.applied_all(updates).sink(sink) == pipeline.sink(sink),
        pipeline.applied_all(updates).source == pipeline.source,
    decreases updates.len(),
{
    if updates.len() > 0 {
        lemma_other_sink_untouched(pipeline, updates.drop_last(), sink);
    }
}

/// However the steps of any number of requests are interleaved, a sink ends
/// up with the configuration that the last step addressed to it produced, as
/// a whole: that step's filter and, where it brought one, that step's writer.
/// No later step of another sink changes it.
pub proof fn lemma_last_step_wins(pipeline: Pipeline, updates: Seq<Update>, i: int)
    requires
        0 <= i < updates.len(),
        forall|j: int| i < j < updates.len() ==> (#[trigger] updates[j]).sink != updates[i].sink,
    ensures
        pipeline.applied_all(updates).sink(updates[i].sink) == pipeline.applied_all(
            updates.take(i),
        ).sink(updates[i].sink).reconfigured(updates[i].filter, updates[i].writer),
        pipeline.applied_all(updates).sink(updates[i].sink).filter == updates[i].filter,
        updates[i].writer is Some ==> pipeline.applied_all(updates).sink(updates[i].sink).writer
            == updates[i].writer,
    decreases updates.len(),
{
    let shorter = updates.drop_last();
    if i == updates.len() - 1 {
        assert(updates.take(i) =~= shorter);
    } else {
        assert(shorter.take(i) =~= updates.take(i));
        assert(shorter[i] == updates[i]);
        assert forall|j: int| i < j < shorter.len() implies (#[trigger] shorter[j]).sink
            != shorter[i].sink by {
            assert(shorter[j] == updates[j]);
        }
        lemma_last_step_wins(pipeline, shorter, i);
    }
}

/// After any interleaving of steps, the filter of a sink that some step
/// addressed is the filter of one of those steps.
pub proof fn lemma_filter_is_a_requested_one(pipeline: Pipeline, updates: Seq<Update>, sink: SinkId)
    requires
        exists|j: int| 0 <= j < updates.len() && (#[trigger] updates[j]).sink == sink,
    ensures
        exists|i: int|
            0 <= i < updates.len() && (#[trigger] updates[i]).sink == sink && pipeline.applied_all(
                updates,
            ).sink(sink).filter == updates[i].filter,
    decreases updates.len(),
{
    let shorter = updates.drop_last();
    let last = updates.len() - 1;
    if updates[last].sink == sink {
        lemma_last_step_wins(pipeline, updates, last);
    } else {
        let j = choose|j: int| 0 <= j < updates.len() && (#[trigger] updates[j]).sink == sink;
        assert(shorter[j] == updates[j]);
        lemma_filter_is_a_requested_one(pipeline, shorter, sink);
        let i = choose|i: int|
            0 <= i < shorter.len() && (#[trigger] shorter[i]).sink == sink && pipeline.applied_all(
                shorter,
            ).sink(sink).filter == shorter[i].filter;
        assert(updates[i] == shorter[i]);
    }
}

} // verus!

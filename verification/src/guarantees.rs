//! What holds of every conversion, however the outside work turns out.

use vstd::prelude::*;
use crate::area::AreaFile;
use crate::failure::{Failure, Fault};
use crate::invocation::render;
use crate::pipeline::{
    area_open, initial, next, pending, ActionView, ConversionView, EventView,
    RequestView, StageView,
};

verus! {

/// The conversion reached from `c` after the events of `events`, in order.
pub open spec fn run(c: ConversionView, events: Seq<EventView>) -> ConversionView
    decreases events.len(),
{
    if events.len() == 0 {
        c
    } else {
        next(run(c, events.drop_last()), events.last())
    }
}

/// The outcome that a history of events amounts to. The first fault
/// decides: while opening or writing it is a resource failure, while
/// launching an invocation failure, while reading a missing or an
/// unreadable output. Without a fault the outcome is what was read.
pub open spec fn verdict(events: Seq<EventView>) -> Result<Seq<u8>, Failure>
    recommends
        events.len() >= 5,
{
    if events[0] is Failed || events[1] is Failed || events[2] is Failed {
        Err(Failure::Resource)
    } else if events[3] is Failed {
        Err(Failure::Invocation)
    } else {
        match events[4] {
            EventView::Completed { output } => Ok(output),
            EventView::Failed { fault: Fault::NotFound } => Err(Failure::OutputMissing),
            EventView::Failed { fault: Fault::Other } => Err(Failure::Read),
        }
    }
}

/// The actions of a conversion in which nothing goes wrong, in order.
pub open spec fn script(request: RequestView, program: Seq<char>) -> Seq<ActionView> {
    seq![
        ActionView::OpenArea,
        ActionView::WriteFile { file: AreaFile::Body, contents: request.body },
        ActionView::WriteFile { file: AreaFile::Theme, contents: request.template },
        ActionView::Run { invocation: render(program) },
        ActionView::ReadFile { file: AreaFile::Output },
        ActionView::CloseArea,
        ActionView::Reply,
    ]
}

/// How many events a stage has behind it at least.
spec fn depth(stage: StageView) -> nat {
    match stage {
        StageView::Received => 0,
        StageView::AreaOpened => 1,
        StageView::BodyWritten => 2,
        StageView::InputsWritten => 3,
        StageView::RendererInvoked => 4,
        StageView::Succeeded { .. } => 5,
        StageView::Failed { .. } => 0,
        StageView::AreaClosed { outcome } => if outcome is Ok {
            6
        } else {
            0
        },
    }
}

/// One more event extends a run by one step.
proof fn run_one_more(c: ConversionView, events: Seq<EventView>, k: int)
    requires
        0 <= k < events.len(),
    ensures
        run(c, events.take(k + 1)) == next(run(c, events.take(k)), events[k]),
{
    assert(events.take(k + 1).drop_last() =~= events.take(k));
}

/// An area comes into being only by a completed `OpenArea`, and goes only by
/// `CloseArea`. A reply is due exactly when the outcome is settled, and then
/// no area is left.
pub proof fn area_lifecycle(c: ConversionView, event: EventView)
    ensures
        !area_open(c.stage) && area_open(next(c, event).stage) ==> pending(c) is OpenArea
            && event is Completed,
        area_open(c.stage) && !area_open(next(c, event).stage) ==> pending(c) is CloseArea,
        pending(c) is CloseArea ==> next(c, event).stage is AreaClosed,
        pending(c) is Reply <==> c.stage is AreaClosed,
        pending(c) is Reply ==> !area_open(c.stage),
{
}

/// A settled conversion stays as it is, whatever it is told.
pub proof fn settled_is_final(c: ConversionView, events: Seq<EventView>)
    requires
        c.stage is AreaClosed,
    ensures
        run(c, events) == c,
    decreases events.len(),
{
    if events.len() > 0 {
        settled_is_final(c, events.drop_last());
    }
}

/// Running through two histories in turn is running through both at once.
pub proof fn run_in_two_parts(c: ConversionView, first: Seq<EventView>, second: Seq<EventView>)
    ensures
        run(c, first + second) == run(run(c, first), second),
    decreases second.len(),
{
    if second.len() == 0 {
        assert(first + second =~= first);
    } else {
        run_in_two_parts(c, first, second.drop_last());
        assert((first + second).drop_last() =~= first + second.drop_last());
    }
}

/// A conversion has one working area, never a second: once anything has
/// happened, it does not ask to open an area again.
pub proof fn opens_once(c: ConversionView, events: Seq<EventView>)
    requires
        events.len() > 0,
    ensures
        !(pending(run(c, events)) is OpenArea),
{
}

/// Once a conversion has asked to close its area, nothing but the reply is
/// left: no write, no launch, no read and no second close follows.
pub proof fn close_comes_last(c: ConversionView, events: Seq<EventView>, k: int, j: int)
    requires
        0 <= k < j <= events.len(),
        pending(run(c, events.take(k))) is CloseArea,
    ensures
        pending(run(c, events.take(j))) is Reply,
{
    let closed = run(c, events.take(k + 1));
    run_one_more(c, events, k);
    assert(events.take(j) =~= events.take(k + 1) + events.subrange(k + 1, j));
    run_in_two_parts(c, events.take(k + 1), events.subrange(k + 1, j));
    settled_is_final(closed, events.subrange(k + 1, j));
}

/// A conversion keeps its request and its renderer from start to end.
pub proof fn inputs_are_kept(c: ConversionView, events: Seq<EventView>)
    ensures
        run(c, events).request == c.request,
        run(c, events).program == c.program,
    decreases events.len(),
{
    if events.len() > 0 {
        inputs_are_kept(c, events.drop_last());
    }
}

/// Whatever has happened to a conversion, the work it asks for speaks of
/// its own request only: a write carries the request's body into the body
/// file or its template into the theme file, unchanged, and a launch names
/// the renderer the conversion was started with, on its own body and output.
pub proof fn actions_use_own_inputs(
    request: RequestView,
    program: Seq<char>,
    events: Seq<EventView>,
)
    ensures
        match pending(run(initial(request, program), events)) {
            ActionView::WriteFile { file, contents } => (file == AreaFile::Body && contents
                == request.body) || (file == AreaFile::Theme && contents == request.template),
            ActionView::Run { invocation } => invocation == render(program),
            ActionView::ReadFile { file } => file == AreaFile::Output,
            _ => true,
        },
{
    inputs_are_kept(initial(request, program), events);
}

/// After six events every conversion is settled, with its area closed, and
/// its outcome is the verdict on its own history: nothing hangs, nothing is
/// retried, and nothing but the events of this conversion decides.
pub proof fn settles_with_verdict(
    request: RequestView,
    program: Seq<char>,
    events: Seq<EventView>,
)
    requires
        events.len() >= 6,
    ensures
        run(initial(request, program), events).stage == (StageView::AreaClosed {
            outcome: verdict(events),
        }),
        pending(run(initial(request, program), events)) is Reply,
    decreases events.len(),
{
    let c = initial(request, program);
    if events.len() == 6 {
        assert(run(c, events.take(0)) == c);
        run_one_more(c, events, 0);
        run_one_more(c, events, 1);
        run_one_more(c, events, 2);
        run_one_more(c, events, 3);
        run_one_more(c, events, 4);
        run_one_more(c, events, 5);
        assert(events.take(6) =~= events);
    } else {
        settles_with_verdict(request, program, events.drop_last());
    }
}

/// A conversion in which nothing goes wrong asks for exactly the actions of
/// the script, in order, and replies with exactly the bytes that were read.
pub proof fn faithful_passthrough(
    request: RequestView,
    program: Seq<char>,
    events: Seq<EventView>,
    k: int,
)
    requires
        events.len() >= 6,
        forall|i: int| 0 <= i < 5 ==> events[i] is Completed,
        0 <= k <= 6,
    ensures
        pending(run(initial(request, program), events.take(k))) == script(request, program)[k],
        run(initial(request, program), events).stage == (StageView::AreaClosed {
            outcome: Ok(events[4]->Completed_output),
        }),
{
    let c = initial(request, program);
    settles_with_verdict(request, program, events);
    assert(run(c, events.take(0)) == c);
    run_one_more(c, events, 0);
    run_one_more(c, events, 1);
    run_one_more(c, events, 2);
    run_one_more(c, events, 3);
    run_one_more(c, events, 4);
    run_one_more(c, events, 5);
}

/// A run is at least as long as the depth of the stage it ends in.
proof fn depth_is_earned(c: ConversionView, events: Seq<EventView>)
    requires
        c.stage is Received,
    ensures
        depth(run(c, events).stage) <= events.len(),
    decreases events.len(),
{
    if events.len() > 0 {
        depth_is_earned(c, events.drop_last());
    }
}

/// No success without the work: a conversion that ends in a document has
/// opened an area, written both inputs, run the renderer and read its
/// output, each without a fault, and the document is what that read gave.
/// Nothing is answered from an earlier conversion.
pub proof fn success_is_earned(
    request: RequestView,
    program: Seq<char>,
    events: Seq<EventView>,
    bytes: Seq<u8>,
)
    requires
        run(initial(request, program), events).stage == (StageView::AreaClosed {
            outcome: Ok(bytes),
        }),
    ensures
        events.len() >= 6,
        forall|i: int| 0 <= i < 5 ==> events[i] is Completed,
        events[4] == (EventView::Completed { output: bytes }),
{
    depth_is_earned(initial(request, program), events);
    settles_with_verdict(request, program, events);
}

/// Two conversions never influence each other: the stage that one reaches
/// depends on its own events alone, whatever request and renderer the other
/// was started with.
pub proof fn conversions_are_independent(
    first: ConversionView,
    second: ConversionView,
    events: Seq<EventView>,
)
    requires
        first.stage == second.stage,
    ensures
        run(first, events).stage == run(second, events).stage,
    decreases events.len(),
{
    if events.len() > 0 {
        conversions_are_independent(first, second, events.drop_last());
    }
}

} // verus!

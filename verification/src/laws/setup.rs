//! Laws of the render thread's start, and of what the platforms' setups share.

use vstd::prelude::*;

use crate::error::Error;
use crate::export::setup::{
    first_missing, import_error, setup_error, thread_started, waits_for, RenderThreadStart,
    SetupFailure, StartAction, StartStep, ThreadStart,
};

verus! {

/// A failed setup releases exactly `release`, in this order, and says `text`.
pub open spec fn unwound<R>(f: SetupFailure<R>, release: Seq<R>, text: Seq<char>) -> bool {
    &&& f.release@ == release
    &&& f.error matches Error::ExportSetup(why) && why@ == text
}

/// `load` was asked for the name and answered `found`.
pub open spec fn asked<L: Fn(&str) -> bool>(load: L, name: Seq<char>, found: bool) -> bool {
    exists|n: &str| n@ == name && #[trigger] call_ensures(load, (n,), found)
}

/// Failures of a setup and of an import say what they are given, each under its
/// own name.
pub proof fn law_failures_say_what_they_are_given(text: &str, setup: Error, import: Error)
    requires
        call_ensures(setup_error, (text,), setup),
        call_ensures(import_error, (text,), import),
    ensures
        setup matches Error::ExportSetup(why) && why@ == text@,
        import matches Error::WgpuImport(why) && why@ == text@,
{
}

/// A failure of a setup unwinds what is held from the newest to the oldest.
pub proof fn law_what_is_held_is_released_newest_first<R>(
    f: SetupFailure<R>,
    held: Seq<R>,
    text: Seq<char>,
)
    ensures
        f.unwinds(held, text) <==> {
            &&& f.release@.len() == held.len()
            &&& forall|i: int|
                0 <= i < held.len() ==> #[trigger] f.release@[i] == held[held.len() - 1 - i]
            &&& f.error matches Error::ExportSetup(why) && why@ == text
        },
{
    if f.release@.len() == held.len() && forall|i: int|
        0 <= i < held.len() ==> #[trigger] f.release@[i] == held[held.len() - 1 - i] {
        assert(f.release@ =~= held.reverse());
    }
}

/// Names are looked up in order up to the first that is missing, which is the
/// one that is told.
pub proof fn law_the_first_missing_name_is_told<L: Fn(&str) -> bool>(
    names: Vec<&'static str>,
    load: L,
    r: Option<usize>,
    j: int,
)
    requires
        call_ensures(first_missing::<L>, (&names, load), r),
        0 <= j < names@.len(),
    ensures
        r is None ==> call_ensures(load, (names@[j],), true),
        r matches Some(i) ==> {
            &&& i < names@.len()
            &&& call_ensures(load, (names@[i as int],), false)
            &&& j < i ==> call_ensures(load, (names@[j],), true)
        },
{
    let args = (&names, load);
    assert(args.0@[j] == names@[j]);
}

/// A render thread that starts well creates its context, makes it current,
/// creates mpv's render context with advanced control, registers for updates,
/// and then says once that it is up.
pub proof fn law_a_render_thread_comes_up_in_order(
    start: RenderThreadStart,
    a: &mut RenderThreadStart,
    b: &mut RenderThreadStart,
    c: &mut RenderThreadStart,
    d: &mut RenderThreadStart,
    e: &mut RenderThreadStart,
    f: &mut RenderThreadStart,
    first: StartStep,
    second: StartStep,
    third: StartStep,
    fourth: StartStep,
    answer: StartStep,
    late: Result<(), Error>,
    after: StartStep,
)
    requires
        call_ensures(RenderThreadStart::new, (), start),
        *old(a) == start,
        call_ensures(RenderThreadStart::next, (a, Ok(())), first),
        *old(b) == *final(a),
        call_ensures(RenderThreadStart::next, (b, Ok(())), second),
        *old(c) == *final(b),
        call_ensures(RenderThreadStart::next, (c, Ok(())), third),
        *old(d) == *final(c),
        call_ensures(RenderThreadStart::next, (d, Ok(())), fourth),
        *old(e) == *final(d),
        call_ensures(RenderThreadStart::next, (e, Ok(())), answer),
        *old(f) == *final(e),
        call_ensures(RenderThreadStart::next, (f, late), after),
    ensures
        first == StartStep::Do(StartAction::CreateContext),
        second == StartStep::Do(StartAction::MakeCurrent),
        third == StartStep::Do(StartAction::CreateRenderContext { advanced_control: true }),
        fourth == StartStep::Do(StartAction::RegisterUpdates),
        answer == StartStep::Answer(Ok(())),
        after == StartStep::Over,
{
}

/// Wherever it is in its start, a render thread that has not answered answers a
/// failure with that failure, and does and says nothing after it.
pub proof fn law_a_failed_start_is_told_once(
    a: &mut RenderThreadStart,
    b: &mut RenderThreadStart,
    error: Error,
    step: StartStep,
    late: Result<(), Error>,
    after: StartStep,
)
    requires
        !old(a)@.answered,
        call_ensures(RenderThreadStart::next, (a, Err(error)), step),
        *old(b) == *final(a),
        call_ensures(RenderThreadStart::next, (b, late), after),
    ensures
        step == StartStep::Answer(Err(error)),
        after == StartStep::Over,
        final(b)@ == final(a)@,
{
}

/// An attach is told what the render thread answered, or that it could not be
/// spawned, and why, or that it died without an answer.
pub proof fn law_an_attach_is_told_of_the_thread(start: ThreadStart, r: Result<(), Error>)
    requires
        call_ensures(thread_started, (start,), r),
    ensures
        start matches ThreadStart::Answered(answer) ==> r == answer,
        start matches ThreadStart::NotSpawned(why) ==> (r matches Err(Error::ExportSetup(text))
            && text@ == "spawning render thread: "@ + why@),
        start is Died ==> (r matches Err(Error::ExportSetup(text)) && text@
            == "render thread died during setup"@),
{
}

/// A thread waits for every thread but itself.
pub proof fn law_no_thread_waits_for_itself(thread: u64, current: u64, r: bool)
    requires
        call_ensures(waits_for, (thread, current), r),
    ensures
        !r <==> thread == current,
{
}

} // verus!

//! Laws of loads, commands and the queued source.

use vstd::prelude::*;

use crate::engine::{decides_what_plays, expects_render, Engine, EngineView, LoadStep};
#[allow(unused_imports)]
use crate::engine::{slice_texts, texts};
use crate::error::{Error, MpvError};
#[allow(unused_imports)]
use crate::event::PlaybackEvent;
#[allow(unused_imports)]
use crate::text::lists;

verus! {

/// `argv` is the command that loads `source`, and nothing more.
pub open spec fn loads(argv: Seq<String>, source: Seq<char>) -> bool {
    argv.len() == 2 && argv[0]@ == "loadfile"@ && argv[1]@ == source
}

/// Nothing but the queued source differs between `a` and `b`.
pub open spec fn same_but_queue<C, H>(a: EngineView<C, H>, b: EngineView<C, H>) -> bool {
    &&& a.render == b.render
    &&& a.update_callback == b.update_callback
    &&& a.orphan == b.orphan
    &&& a.next_observe_id == b.next_observe_id
    &&& a.deferred == b.deferred
    &&& a.generic == b.generic
}

proof fn lemma_texts(argv: Seq<String>, wanted: Seq<Seq<char>>)
    requires
        texts(argv) == wanted,
    ensures
        argv.len() == wanted.len(),
        forall|i: int| 0 <= i < wanted.len() ==> (#[trigger] argv[i])@ == wanted[i],
{
    assert forall|i: int| 0 <= i < wanted.len() implies (#[trigger] argv[i])@ == wanted[i] by {
        assert(texts(argv)[i] == argv[i]@);
    }
}

/// Frames route through the render API if and only if `vo` could be read and
/// one of its comma-separated pieces is exactly `libmpv` once trimmed.
pub proof fn law_only_libmpv_awaits_a_context(vo: Result<String, MpvError>, r: bool)
    requires
        call_ensures(expects_render, (vo,), r),
    ensures
        r <==> (vo matches Ok(chain) && lists(chain@, ',', "libmpv"@)),
{
}

/// A source waits if and only if one of the pieces of `vo` is exactly `libmpv`
/// once trimmed and nothing is attached. Otherwise it is loaded at once, and a
/// source that waited is forgotten: either way this one is the newest.
pub proof fn law_a_source_waits_only_for_a_context<C, H>(
    e: &mut Engine<C, H>,
    source: &str,
    vo: Result<String, MpvError>,
    r: LoadStep,
)
    requires
        call_ensures(Engine::<C, H>::load_when_ready, (e, source, vo), r),
    ensures
        r is Queued <==> old(e)@.render is None && (vo matches Ok(chain) && lists(
            chain@,
            ',',
            "libmpv"@,
        )),
        r is Queued ==> final(e)@.pending == Some(source@),
        r matches LoadStep::Now(argv) ==> loads(argv@, source@) && final(e)@.pending is None,
        same_but_queue(old(e)@, final(e)@),
{
    if let LoadStep::Now(argv) = r {
        lemma_texts(argv@, seq!["loadfile"@, source@]);
    }
}

/// A load is issued at once and leaves nothing queued.
pub proof fn law_a_load_runs_at_once<C, H>(e: &mut Engine<C, H>, source: &str, argv: Vec<String>)
    requires
        call_ensures(Engine::<C, H>::load, (e, source), argv),
    ensures
        loads(argv@, source@),
        final(e)@.pending is None,
        same_but_queue(old(e)@, final(e)@),
{
    lemma_texts(argv@, seq!["loadfile"@, source@]);
}

/// A paused load is issued only where the pause went through. Where it did not,
/// its error is given back and what was queued stays.
pub proof fn law_a_paused_load_needs_the_pause<C, H>(
    e: &mut Engine<C, H>,
    paused: Result<(), Error>,
    source: &str,
    r: Result<Vec<String>, Error>,
)
    requires
        call_ensures(Engine::<C, H>::load_paused, (e, paused, source), r),
    ensures
        paused is Ok ==> (r matches Ok(argv) && loads(argv@, source@)) && final(e)@.pending is None,
        paused matches Err(error) ==> r == Err::<Vec<String>, Error>(error) && final(e)@.pending
            == old(e)@.pending,
        same_but_queue(old(e)@, final(e)@),
{
    if let Ok(argv) = r {
        lemma_texts(argv@, seq!["loadfile"@, source@]);
    }
}

/// A command is issued as the name and the arguments that it was given, each an
/// argument of its own.
pub proof fn law_commands_are_issued_verbatim<C, H>(
    e: &mut Engine<C, H>,
    name: &str,
    args: &[&str],
    argv: Vec<String>,
)
    requires
        call_ensures(Engine::<C, H>::command, (e, name, args), argv),
    ensures
        argv@.len() == args@.len() + 1,
        argv@[0]@ == name@,
        forall|i: int| 0 <= i < args@.len() ==> argv@[i + 1]@ == (#[trigger] args@[i])@,
{
    lemma_texts(argv@, seq![name@] + slice_texts(args@));
    assert forall|i: int| 0 <= i < args@.len() implies argv@[i + 1]@ == (#[trigger] args@[i])@ by {
        assert((seq![name@] + slice_texts(args@))[i + 1] == slice_texts(args@)[i]);
    }
}

/// A command discards a queued source if and only if it is `loadfile`,
/// `loadlist`, `stop`, `quit` or `quit-watch-later`. Every other command leaves
/// it queued, and none changes anything else of the engine.
pub proof fn law_only_transport_commands_discard<C, H>(
    e: &mut Engine<C, H>,
    name: &str,
    args: &[&str],
    argv: Vec<String>,
)
    requires
        call_ensures(Engine::<C, H>::command, (e, name, args), argv),
    ensures
        name@ == "loadfile"@ || name@ == "loadlist"@ || name@ == "stop"@ || name@ == "quit"@
            || name@ == "quit-watch-later"@ ==> final(e)@.pending is None,
        name@ != "loadfile"@ && name@ != "loadlist"@ && name@ != "stop"@ && name@ != "quit"@
            && name@ != "quit-watch-later"@ ==> final(e)@.pending == old(e)@.pending,
        same_but_queue(old(e)@, final(e)@),
{
}

/// Exactly those five commands decide what plays next.
pub proof fn law_five_commands_decide_what_plays(name: &str, r: bool)
    requires
        call_ensures(decides_what_plays, (name,), r),
    ensures
        r <==> name@ == "loadfile"@ || name@ == "loadlist"@ || name@ == "stop"@ || name@
            == "quit"@ || name@ == "quit-watch-later"@,
{
}

/// A stop is the `stop` command alone and leaves nothing queued.
pub proof fn law_a_stop_stops<C, H>(e: &mut Engine<C, H>, argv: Vec<String>)
    requires
        call_ensures(Engine::<C, H>::stop, (e,), argv),
    ensures
        argv@.len() == 1,
        argv@[0]@ == "stop"@,
        final(e)@.pending is None,
        same_but_queue(old(e)@, final(e)@),
{
    lemma_texts(argv@, seq!["stop"@]);
}

/// A seek goes to the position, or by the delta, that it was given, and leaves
/// a queued source alone.
pub proof fn law_seeks_go_where_asked<C, H>(
    e: &mut Engine<C, H>,
    f: &mut Engine<C, H>,
    secs: &str,
    to: Vec<String>,
    by: Vec<String>,
)
    requires
        call_ensures(Engine::<C, H>::seek_absolute, (e, secs), to),
        call_ensures(Engine::<C, H>::seek_relative, (f, secs), by),
    ensures
        to@.len() == 3 && to@[0]@ == "seek"@ && to@[1]@ == secs@ && to@[2]@ == "absolute"@,
        by@.len() == 3 && by@[0]@ == "seek"@ && by@[1]@ == secs@ && by@[2]@ == "relative"@,
        final(e)@.pending == old(e)@.pending,
        final(f)@.pending == old(f)@.pending,
        same_but_queue(old(e)@, final(e)@),
        same_but_queue(old(f)@, final(f)@),
{
    lemma_texts(to@, seq!["seek"@, secs@, "absolute"@]);
    lemma_texts(by@, seq!["seek"@, secs@, "relative"@]);
}

/// An attach issues the load of the queued source, once: what waited is gone,
/// and without one there is nothing to issue.
pub proof fn law_the_queued_source_is_loaded<C, H>(e: &mut Engine<C, H>, r: Option<Vec<String>>)
    requires
        call_ensures(Engine::<C, H>::load_pending, (e,), r),
    ensures
        old(e)@.pending matches Some(source) ==> (r matches Some(argv) && loads(argv@, source)),
        old(e)@.pending is None ==> r is None,
        final(e)@.pending is None,
        same_but_queue(old(e)@, final(e)@),
{
    if let Some(argv) = r {
        lemma_texts(argv@, seq!["loadfile"@, old(e)@.pending->0]);
    }
}

/// A source that was queued is the one that an attach loads, and the second
/// time there is none.
pub proof fn law_what_is_queued_is_what_is_loaded<C, H>(
    e: &mut Engine<C, H>,
    f: &mut Engine<C, H>,
    g: &mut Engine<C, H>,
    source: &str,
    vo: Result<String, MpvError>,
    r: Option<Vec<String>>,
    again: Option<Vec<String>>,
)
    requires
        call_ensures(Engine::<C, H>::load_when_ready, (e, source, vo), LoadStep::Queued),
        *old(f) == *final(e),
        call_ensures(Engine::<C, H>::load_pending, (f,), r),
        *old(g) == *final(f),
        call_ensures(Engine::<C, H>::load_pending, (g,), again),
    ensures
        r matches Some(argv) && loads(argv@, source@),
        again is None,
{
    law_the_queued_source_is_loaded(f, r);
    law_the_queued_source_is_loaded(g, again);
}

/// A queued source that a command other than those five leaves is still the one
/// that an attach loads; a stop leaves nothing to load.
pub proof fn law_other_commands_keep_what_is_loaded<C, H>(
    e: &mut Engine<C, H>,
    f: &mut Engine<C, H>,
    g: &mut Engine<C, H>,
    source: &str,
    vo: Result<String, MpvError>,
    name: &str,
    args: &[&str],
    argv: Vec<String>,
    r: Option<Vec<String>>,
)
    requires
        call_ensures(Engine::<C, H>::load_when_ready, (e, source, vo), LoadStep::Queued),
        *old(f) == *final(e),
        call_ensures(Engine::<C, H>::command, (f, name, args), argv),
        *old(g) == *final(f),
        call_ensures(Engine::<C, H>::load_pending, (g,), r),
    ensures
        r is None <==> name@ == "loadfile"@ || name@ == "loadlist"@ || name@ == "stop"@ || name@
            == "quit"@ || name@ == "quit-watch-later"@,
        r matches Some(load) ==> loads(load@, source@),
{
    law_only_transport_commands_discard(f, name, args, argv);
    law_the_queued_source_is_loaded(g, r);
}

/// A queued source that fails to load is reported behind everything that
/// waited, and the shell is woken up for it; one that loads is not. Nothing
/// else of the engine changes.
pub proof fn law_a_failed_queued_load_is_reported<C, H>(
    e: &mut Engine<C, H>,
    reply: Result<(), Error>,
    wake: bool,
)
    requires
        call_ensures(Engine::<C, H>::drain_pending_load, (e, reply), wake),
    ensures
        wake <==> reply is Err,
        reply is Ok ==> final(e)@.deferred == old(e)@.deferred,
        reply matches Err(error) ==> {
            &&& final(e)@.deferred.len() == old(e)@.deferred.len() + 1
            &&& forall|i: int|
                0 <= i < old(e)@.deferred.len() ==> #[trigger] final(e)@.deferred[i]
                    == old(e)@.deferred[i]
            &&& final(e)@.deferred.last() == (match error {
                Error::Mpv(MpvError { code: Some(code), text }) => PlaybackEvent::Failed {
                    code,
                    message: text,
                },
                _ => PlaybackEvent::Failed { code: -20i32, message: old(e)@.generic },
            })
        },
        final(e)@.pending == old(e)@.pending,
        final(e)@.render == old(e)@.render,
        final(e)@.update_callback == old(e)@.update_callback,
        final(e)@.orphan == old(e)@.orphan,
        final(e)@.next_observe_id == old(e)@.next_observe_id,
        final(e)@.generic == old(e)@.generic,
{
}

} // verus!

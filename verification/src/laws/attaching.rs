//! Laws of bringing an engine up, and of attaching and detaching a render
//! backend.

use vstd::prelude::*;

use crate::engine::{
    BuildAction, BuildStep, Detached, DetachPath, Engine, EngineBuild, EngineBuilder, EngineView,
    Replacement,
};
use crate::error::{Error, MpvError};
use crate::render::{GlRenderOptions, RenderBackend};

verus! {

/// `a` and `b` have the same queue, waiting events, ids and text for a failure
/// without a code.
pub open spec fn same_but_render<C, H>(a: EngineView<C, H>, b: EngineView<C, H>) -> bool {
    &&& a.pending == b.pending
    &&& a.deferred == b.deferred
    &&& a.next_observe_id == b.next_observe_id
    &&& a.generic == b.generic
}

/// The neutral builder sets nothing. The video preset routes frames through the
/// render API, decodes in hardware where that is safe, and stays open at the
/// end; the headless one has no video output.
pub proof fn law_presets_set_their_properties(
    neutral: EngineBuilder,
    video: EngineBuilder,
    headless: EngineBuilder,
)
    requires
        call_ensures(Engine::<(), ()>::builder, (), neutral),
        call_ensures(Engine::<(), ()>::video, (), video),
        call_ensures(Engine::<(), ()>::headless, (), headless),
    ensures
        neutral@.len() == 0,
        video@.len() == 3,
        video@[0] == ("vo"@, "libmpv"@),
        video@[1] == ("hwdec"@, "auto-safe"@),
        video@[2] == ("keep-open"@, "always"@),
        headless@.len() == 2,
        headless@[0] == ("vo"@, "null"@),
        headless@[1] == ("keep-open"@, "always"@),
{
}

/// A property that is set on a builder comes behind all that were set before,
/// which stay.
pub proof fn law_a_builder_adds_in_call_order(
    builder: EngineBuilder,
    name: &str,
    value: &str,
    r: EngineBuilder,
)
    requires
        call_ensures(EngineBuilder::property, (builder, name, value), r),
    ensures
        r@.len() == builder@.len() + 1,
        r@.last() == (name@, value@),
        forall|i: int| 0 <= i < builder@.len() ==> #[trigger] r@[i] == builder@[i],
{
}

/// A core is brought up by forcing the numeric locale, creating the core,
/// setting each property in call order, and initializing it last.
pub proof fn law_a_core_is_brought_up_in_order(builder: EngineBuilder, r: EngineBuild)
    requires
        call_ensures(EngineBuilder::build, (builder,), r),
    ensures
        r@.todo.len() == builder@.len() + 3,
        r@.todo[0] is ForceNumericLocale,
        r@.todo[1] is CreateCore,
        r@.todo[builder@.len() as int + 2] is Initialize,
        forall|i: int|
            0 <= i < builder@.len() ==> (#[trigger] r@.todo[i + 2] matches BuildAction::SetProperty {
                name,
                value,
            } && name@ == builder@[i].0 && value@ == builder@[i].1),
        !r@.told,
{
    assert forall|i: int| 0 <= i < builder@.len() implies (
    #[trigger] r@.todo[i + 2] matches BuildAction::SetProperty { name, value } && name@
        == builder@[i].0 && value@ == builder@[i].1) by {
        assert(r@.todo[i + 2].sets(builder@[i]));
    }
}

/// A step of a build is the next one to do, once the last went well. Past the
/// last one the core is up. An error of mpv's ends the build with that error,
/// and after either nothing more is done or told.
pub proof fn law_a_build_ends_up_or_failed(
    build: &mut EngineBuild,
    last: Result<(), MpvError>,
    r: BuildStep,
)
    requires
        call_ensures(EngineBuild::next, (build, last), r),
    ensures
        old(build)@.told ==> r is Over && final(build)@ == old(build)@,
        !old(build)@.told && last is Ok && old(build)@.todo.len() > 0 ==> {
            &&& r == BuildStep::Do(old(build)@.todo[0])
            &&& final(build)@.todo == old(build)@.todo.skip(1)
            &&& !final(build)@.told
        },
        !old(build)@.told && last is Ok && old(build)@.todo.len() == 0 ==> r is Done
            && final(build)@.told,
        !old(build)@.told && last is Err ==> r == BuildStep::Failed(Error::Mpv(last->Err_0))
            && final(build)@.told,
{
    if old(build)@.todo.len() > 0 {
        assert(old(build)@.todo.drop_first() =~= old(build)@.todo.skip(1));
    }
}

/// A new engine has nothing attached, queued, waiting or parked, and its first
/// observation has id 1.
pub proof fn law_a_new_engine_is_empty<C, H>(generic: String, r: Engine<C, H>)
    requires
        call_ensures(Engine::<C, H>::new, (generic,), r),
    ensures
        r@.render is None,
        r@.update_callback is None,
        r@.orphan is None,
        r@.pending is None,
        r@.deferred.len() == 0,
        r@.next_observe_id == 1,
        r@.generic == generic,
{
}

/// An attach registers its callback and gives back the one that it displaces.
/// Where a context is attached it is an error, changes nothing, and gives the
/// new callback back.
pub proof fn law_an_attach_registers_its_callback<C, H>(
    e: &mut Engine<C, H>,
    on_update: C,
    r: Result<Option<C>, (Error, C)>,
)
    requires
        call_ensures(Engine::<C, H>::begin_attach, (e, on_update), r),
    ensures
        old(e)@.render is None ==> {
            &&& r == Ok::<Option<C>, (Error, C)>(old(e)@.update_callback)
            &&& final(e)@.update_callback == Some(on_update)
            &&& final(e)@.render is None
            &&& final(e)@.orphan == old(e)@.orphan
        },
        old(e)@.render is Some ==> {
            &&& r == Err::<Option<C>, (Error, C)>((Error::AlreadyAttached, on_update))
            &&& final(e)@ == old(e)@
        },
        same_but_render(old(e)@, final(e)@),
{
}

/// A context that was created is attached as what it is: OpenGL with the pacing
/// that was asked for, software, or exported with its render thread. One that
/// could not be created attaches nothing, gives its error and the callback
/// back, and leaves none registered. A queued source stays queued either way.
pub proof fn law_what_was_created_is_attached<C, H>(
    e: &mut Engine<C, H>,
    f: &mut Engine<C, H>,
    g: &mut Engine<C, H>,
    created: Result<(), Error>,
    up: Result<u64, Error>,
    options: GlRenderOptions,
    gl: Result<(), (Error, Option<C>)>,
    sw: Result<(), (Error, Option<C>)>,
    exported: Result<(), (Error, Option<C>)>,
)
    requires
        call_ensures(Engine::<C, H>::attach_gl_render, (e, created, options), gl),
        call_ensures(Engine::<C, H>::attach_sw_render, (f, created), sw),
        call_ensures(Engine::<C, H>::attach_exported_render, (g, up), exported),
    ensures
        created is Ok ==> {
            &&& gl is Ok && sw is Ok
            &&& final(e)@.render == Some(
                RenderBackend::Gl { block_for_target_time: options.block_for_target_time },
            )
            &&& final(f)@.render == Some(RenderBackend::Sw)
            &&& final(e)@.update_callback == old(e)@.update_callback
            &&& final(f)@.update_callback == old(f)@.update_callback
        },
        up matches Ok(thread) ==> {
            &&& exported is Ok
            &&& final(g)@.render == Some(RenderBackend::Exported { thread })
            &&& final(g)@.update_callback == old(g)@.update_callback
        },
        created matches Err(error) ==> {
            &&& gl == Err::<(), (Error, Option<C>)>((error, old(e)@.update_callback))
            &&& sw == Err::<(), (Error, Option<C>)>((error, old(f)@.update_callback))
            &&& final(e)@.render == old(e)@.render && final(e)@.update_callback is None
            &&& final(f)@.render == old(f)@.render && final(f)@.update_callback is None
        },
        up matches Err(error) ==> {
            &&& exported == Err::<(), (Error, Option<C>)>((error, old(g)@.update_callback))
            &&& final(g)@.render == old(g)@.render && final(g)@.update_callback is None
        },
        final(e)@.orphan == old(e)@.orphan,
        final(f)@.orphan == old(f)@.orphan,
        final(g)@.orphan == old(g)@.orphan,
        same_but_render(old(e)@, final(e)@),
        same_but_render(old(f)@, final(f)@),
        same_but_render(old(g)@, final(g)@),
{
}

/// The registered callback fires once more at the end of an attach if and only
/// if a frame waits and the exported backend is the one attached.
pub proof fn law_a_waiting_frame_is_signaled<C: Clone, H>(
    e: Engine<C, H>,
    published: bool,
    r: Option<C>,
)
    requires
        call_ensures(Engine::<C, H>::refire, (&e, published), r),
    ensures
        r is Some <==> published && e@.render is Some && e@.render->0 is Exported
            && e@.update_callback is Some,
        r matches Some(fire) ==> cloned(e@.update_callback->0, fire),
{
}

/// The registered callback is the one to fire.
pub proof fn law_the_registered_callback_fires<C, H>(e: Engine<C, H>, r: Option<&C>)
    requires
        call_ensures(Engine::<C, H>::update_callback, (&e,), r),
    ensures
        r is Some <==> e@.update_callback is Some,
        r matches Some(callback) ==> e@.update_callback == Some(*callback),
{
}

/// A replacement is registered in place of the old callback, which is given
/// back, and the new one is to fire. With nothing attached it is an error,
/// changes nothing, and gives the new callback back.
pub proof fn law_a_callback_is_replaced<C: Clone, H>(
    e: &mut Engine<C, H>,
    on_update: C,
    r: Result<Replacement<C>, (Error, C)>,
)
    requires
        call_ensures(Engine::<C, H>::set_render_update_callback, (e, on_update), r),
    ensures
        old(e)@.render is Some ==> {
            &&& r matches Ok(new) && new.displaced == old(e)@.update_callback && cloned(
                on_update,
                new.fire,
            )
            &&& final(e)@.update_callback == Some(on_update)
            &&& final(e)@.render == old(e)@.render
            &&& final(e)@.orphan == old(e)@.orphan
        },
        old(e)@.render is None ==> {
            &&& r == Err::<Replacement<C>, (Error, C)>((Error::NotAttached, on_update))
            &&& final(e)@ == old(e)@
        },
        same_but_render(old(e)@, final(e)@),
{
}

/// Firing a replacement calls the new callback, and gives the old one back.
pub proof fn law_a_replacement_fires_the_new_callback<C, F: FnOnce(&C)>(
    new: Replacement<C>,
    call: F,
    r: Option<C>,
)
    requires
        call_ensures(Replacement::<C>::fire::<F>, (new, call), r),
    ensures
        call_ensures(call, (&new.fire,), ()),
        r == new.displaced,
{
}

/// A detach waits for the teardown unless it runs on the exported backend's own
/// thread, and there is nothing to do where nothing is attached.
pub proof fn law_a_detach_never_waits_for_its_own_thread<C, H>(
    e: Engine<C, H>,
    current: u64,
    r: DetachPath,
)
    requires
        call_ensures(Engine::<C, H>::detach_path, (&e, current), r),
    ensures
        r == DetachPath::Nothing <==> e@.render is None,
        r == DetachPath::Own <==> (e@.render matches Some(RenderBackend::Exported { thread })
            && thread == current),
{
}

/// A detach takes out the backend and the callback that were there. On the
/// exported backend's own thread it parks that thread's handle, and gives back
/// one that was parked before; otherwise it gives the handle back and leaves
/// what is parked. With nothing attached it changes nothing.
pub proof fn law_a_detach_takes_out_what_is_attached<C, H>(
    e: &mut Engine<C, H>,
    own: bool,
    handle: Option<H>,
    r: Detached<C, H>,
)
    requires
        call_ensures(Engine::<C, H>::detach_render, (e, own, handle), r),
    ensures
        r.taken == old(e)@.render,
        final(e)@.render is None,
        old(e)@.render is Some ==> r.displaced == old(e)@.update_callback
            && final(e)@.update_callback is None,
        old(e)@.render is None ==> r.displaced is None && r.unparked == handle && final(e)@
            == old(e)@,
        own && (old(e)@.render matches Some(RenderBackend::Exported { thread })) ==> {
            &&& handle matches Some(h) ==> final(e)@.orphan == Some(
                (old(e)@.render->0->thread, h),
            )
            &&& handle is None ==> final(e)@.orphan is None
            &&& old(e)@.orphan matches Some(parked) ==> r.unparked == Some(parked.1)
            &&& old(e)@.orphan is None ==> r.unparked is None
        },
        !own || !(old(e)@.render matches Some(RenderBackend::Exported { thread })) ==> {
            &&& final(e)@.orphan == old(e)@.orphan
            &&& r.unparked == handle
        },
        same_but_render(old(e)@, final(e)@),
{
}

/// A parked thread is joined from every thread but itself, and is parked no
/// longer then; on itself it stays parked.
pub proof fn law_a_parked_thread_is_joined_by_others<C, H>(
    e: &mut Engine<C, H>,
    current: u64,
    r: Option<H>,
)
    requires
        call_ensures(Engine::<C, H>::join_orphaned_render, (e, current), r),
    ensures
        old(e)@.orphan matches Some(parked) ==> if parked.0 == current {
            r is None && final(e)@.orphan == old(e)@.orphan
        } else {
            r == Some(parked.1) && final(e)@.orphan is None
        },
        old(e)@.orphan is None ==> r is None && final(e)@.orphan is None,
        final(e)@.render == old(e)@.render,
        final(e)@.update_callback == old(e)@.update_callback,
        same_but_render(old(e)@, final(e)@),
{
}

} // verus!

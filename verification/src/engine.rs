//! The engine's decisions: what a call asks of mpv, and what it leaves behind.
//!
//! A call that talks to mpv comes in two halves. The engine says what to
//! issue, the shell's runtime issues it, and what came back goes into the next
//! call. Nothing here blocks, so one short lock around an engine is enough.

use vstd::prelude::*;

use crate::error::{Error, MpvError};
use crate::event::{failure, EventPump, ObserveId, PlaybackEvent};
#[allow(unused_imports)]
use crate::error::MPV_ERROR_GENERIC;
#[allow(unused_imports)]
use crate::event::{
    clean_ends, ends, errored_ends, failed, failures, genuine_batch, reported_all, tells_failure,
    tells_failures, MpvEvent,
};
#[allow(unused_imports)]
use crate::event::{law_every_failure_tells_its_code, law_failures_are_the_errored_ends};
use crate::property::{Double, PropertyFormat, PropertyGet, PropertyValue};
use crate::render::{prepare_sw, GlDraw, GlRenderOptions, RenderBackend, RenderKind, SwDraw};
#[allow(unused_imports)]
use crate::render::{drawable, fitted, kind_of, SwFormat};
#[allow(unused_imports)]
use crate::sealed::PropertyGetImpl;
use crate::text::{lists_name, same_text};
#[allow(unused_imports)]
use crate::text::lists;

verus! {

/// The texts of some strings.
pub open spec fn texts(v: Seq<String>) -> Seq<Seq<char>> {
    v.map_values(|s: String| s@)
}

/// The texts of some string slices.
pub open spec fn slice_texts(v: Seq<&str>) -> Seq<Seq<char>> {
    v.map_values(|s: &str| s@)
}

/// One step of bringing an mpv core up.
#[derive(Debug)]
pub enum BuildAction {
    /// Force `LC_NUMERIC=C`: mpv refuses to work under a comma-decimal
    /// locale.
    ForceNumericLocale,
    /// Create the core.
    CreateCore,
    /// Set a property before initialization.
    SetProperty {
        /// The property's name.
        name: String,
        /// Its value.
        value: String,
    },
    /// Initialize the core.
    Initialize,
}

impl BuildAction {
    /// The action sets property `p.0` to `p.1`.
    pub open spec fn sets(self, p: (Seq<char>, Seq<char>)) -> bool {
        self matches BuildAction::SetProperty { name, value } && name@ == p.0 && value@ == p.1
    }
}

/// What comes next while a core is brought up.
#[derive(Debug)]
pub enum BuildStep {
    /// Do this, and hand back what came of it.
    Do(BuildAction),
    /// The core is up.
    Done,
    /// The core cannot be brought up.
    Failed(Error),
    /// It was told already that the core is up, or that it cannot be.
    Over,
}

/// Configures and creates an engine. Properties set here are applied before
/// `mpv_initialize`, which some options require.
pub struct EngineBuilder {
    props: Vec<(String, String)>,
}

impl View for EngineBuilder {
    type V = Seq<(Seq<char>, Seq<char>)>;

    closed spec fn view(&self) -> Seq<(Seq<char>, Seq<char>)> {
        self.props@.map_values(|p: (String, String)| (p.0@, p.1@))
    }
}

/// The steps of bringing a core up that configures `props`: the locale, the
/// core, the properties in call order, initialization.
pub open spec fn is_plan(
    plan: Seq<BuildAction>,
    props: Seq<(Seq<char>, Seq<char>)>,
) -> bool {
    &&& plan.len() == props.len() + 3
    &&& plan[0] is ForceNumericLocale
    &&& plan[1] is CreateCore
    &&& forall|i: int| 0 <= i < props.len() ==> (#[trigger] plan[i + 2]).sets(props[i])
    &&& plan.last() is Initialize
}

impl EngineBuilder {
    /// Set an mpv property/option before initialization.
    pub fn property(self, name: &str, value: &str) -> (r: Self)
        ensures
            r@ == self@.push((name@, value@)),
    {
        let mut props = self.props;
        props.push((name.to_owned(), value.to_owned()));
        let r = EngineBuilder { props };
        assert(r@ =~= self@.push((name@, value@)));
        r
    }

    /// Bring an engine up: force `LC_NUMERIC=C`, create the core, apply the
    /// queued properties in call order, initialize.
    pub fn build(self) -> (r: EngineBuild)
        ensures
            is_plan(r@.todo, self@),
            !r@.told,
    {
        let ghost props = self@;
        let ghost all = self.props@;
        let mut rest = self.props;
        let mut todo: Vec<BuildAction> = Vec::new();
        todo.push(BuildAction::ForceNumericLocale);
        todo.push(BuildAction::CreateCore);
        let ghost mut done: int = 0;
        while rest.len() > 0
            invariant
                0 <= done <= all.len(),
                props == all.map_values(|p: (String, String)| (p.0@, p.1@)),
                rest@ == all.skip(done),
                todo@.len() == done + 2,
                todo@[0] is ForceNumericLocale,
                todo@[1] is CreateCore,
                forall|i: int| 0 <= i < done ==> (#[trigger] todo@[i + 2]).sets(props[i]),
            decreases rest@.len(),
        {
            let (name, value) = rest.remove(0);
            proof {
                assert((name, value) == all[done]);
                assert(rest@ == all.skip(done + 1));
                done = done + 1;
            }
            todo.push(BuildAction::SetProperty { name, value });
        }
        todo.push(BuildAction::Initialize);
        EngineBuild { todo, told: false }
    }
}

/// How far a build has come.
#[verifier::ext_equal]
pub struct BuildView {
    /// The steps still to be done.
    pub todo: Seq<BuildAction>,
    /// It was told that the core is up, or that it cannot be.
    pub told: bool,
}

impl BuildView {
    /// What [`EngineBuild::next`] gives.
    pub open spec fn step(self, last: Result<(), MpvError>) -> BuildStep {
        if self.told {
            BuildStep::Over
        } else {
            match last {
                Err(e) => BuildStep::Failed(Error::Mpv(e)),
                Ok(_) => if self.todo.len() > 0 {
                    BuildStep::Do(self.todo[0])
                } else {
                    BuildStep::Done
                },
            }
        }
    }

    /// What [`EngineBuild::next`] leaves.
    pub open spec fn stepped(self, last: Result<(), MpvError>) -> Self {
        if self.told {
            self
        } else if last is Ok && self.todo.len() > 0 {
            BuildView { todo: self.todo.drop_first(), ..self }
        } else {
            BuildView { told: true, ..self }
        }
    }

    /// The build after its first `n` replies.
    pub open spec fn after(self, replies: Seq<Result<(), MpvError>>, n: nat) -> Self
        decreases n,
    {
        if n == 0 {
            self
        } else {
            self.after(replies, (n - 1) as nat).stepped(replies[n - 1])
        }
    }
}

/// The steps still to be done before a core is up.
pub struct EngineBuild {
    todo: Vec<BuildAction>,
    told: bool,
}

impl View for EngineBuild {
    type V = BuildView;

    closed spec fn view(&self) -> BuildView {
        BuildView { todo: self.todo@, told: self.told }
    }
}

impl EngineBuild {
    /// The next step, after what came of the last one. The first failure ends
    /// the build, and how it ended is told once.
    pub fn next(&mut self, last: Result<(), MpvError>) -> (r: BuildStep)
        ensures
            r == old(self)@.step(last),
            final(self)@ == old(self)@.stepped(last),
    {
        if self.told {
            return BuildStep::Over;
        }
        match last {
            Err(e) => {
                self.told = true;
                BuildStep::Failed(Error::Mpv(e))
            },
            Ok(_) => if self.todo.len() > 0 {
                BuildStep::Do(self.todo.remove(0))
            } else {
                self.told = true;
                BuildStep::Done
            },
        }
    }
}

/// A build does its steps in order while all goes well. It tells that the core
/// is up after the last one, or of the first failure, which no further step
/// follows.
pub proof fn law_build_goes_in_order(
    build: BuildView,
    replies: Seq<Result<(), MpvError>>,
    n: nat,
)
    requires
        !build.told,
        n < replies.len(),
        n <= build.todo.len(),
        forall|i: int| 0 <= i < n ==> #[trigger] replies[i] is Ok,
    ensures
        build.after(replies, n) == (BuildView { todo: build.todo.skip(n as int), told: false }),
        build.after(replies, n).step(replies[n as int]) == (match replies[n as int] {
            Err(e) => BuildStep::Failed(Error::Mpv(e)),
            Ok(_) => if n < build.todo.len() {
                BuildStep::Do(build.todo[n as int])
            } else {
                BuildStep::Done
            },
        }),
    decreases n,
{
    if n > 0 {
        law_build_goes_in_order(build, replies, (n - 1) as nat);
        assert(build.todo.skip(n - 1).drop_first() =~= build.todo.skip(n as int));
    } else {
        assert(build.todo.skip(0) =~= build.todo);
    }
}

/// How a build ended is told once: a core that could not be brought up is
/// never said to be up, whatever is handed in later.
pub proof fn law_build_is_told_once(
    build: BuildView,
    replies: Seq<Result<(), MpvError>>,
    n: nat,
    m: nat,
)
    requires
        n < m < replies.len(),
        build.after(replies, n).step(replies[n as int]) is Failed || build.after(replies, n).step(
            replies[n as int],
        ) is Done,
    ensures
        build.after(replies, m).told,
        build.after(replies, m).step(replies[m as int]) is Over,
    decreases m,
{
    if m > n + 1 {
        law_build_is_told_once(build, replies, n, (m - 1) as nat);
    }
}

/// What an engine holds.
#[verifier::ext_equal]
pub struct EngineView<C, H> {
    /// The attached render backend.
    pub render: Option<RenderBackend>,
    /// The live render-update callback.
    pub update_callback: Option<C>,
    /// A render thread whose detach ran on that thread, and what joins it.
    pub orphan: Option<(u64, H)>,
    /// The id of the next observation.
    pub next_observe_id: u64,
    /// The source queued until a render context attaches.
    pub pending: Option<Seq<char>>,
    /// Events that the engine made itself, waiting for the next drain.
    pub deferred: Seq<PlaybackEvent>,
    /// mpv's text for a failure without a code.
    pub generic: String,
}

/// A command that decides what plays next.
pub open spec fn supersedes(name: Seq<char>) -> bool {
    name == "loadfile"@ || name == "loadlist"@ || name == "stop"@ || name == "quit"@ || name
        == "quit-watch-later"@
}

/// Whether `name` is a command that decides what plays next. Changing the
/// queue and issuing such a command is one step.
pub fn decides_what_plays(name: &str) -> (r: bool)
    ensures
        r == supersedes(name@),
{
    same_text(name, "loadfile") || same_text(name, "loadlist") || same_text(name, "stop")
        || same_text(name, "quit") || same_text(name, "quit-watch-later")
}

/// The arguments of the command that loads `source`.
pub open spec fn loadfile_argv(source: Seq<char>) -> Seq<Seq<char>> {
    seq!["loadfile"@, source]
}

/// The arguments of the command that loads `source`: an array, so that paths
/// with spaces or quotes need no escaping.
fn loadfile(source: String) -> (argv: Vec<String>)
    ensures
        texts(argv@) == loadfile_argv(source@),
{
    let mut argv: Vec<String> = Vec::new();
    argv.push("loadfile".to_owned());
    argv.push(source);
    assert(texts(argv@) =~= loadfile_argv(source@));
    argv
}

/// The current `vo` property routes frames through the render API.
pub open spec fn render_expected(vo: Result<String, MpvError>) -> bool {
    vo matches Ok(vo) && lists(vo@, ',', "libmpv"@)
}

/// Whether frames route through the render API, going by what reading the
/// `vo` property gave: it is a comma-separated fallback chain. A failed read
/// errs toward a plain load, which then surfaces the real error.
pub fn expects_render(vo: Result<String, MpvError>) -> (r: bool)
    ensures
        r == render_expected(vo),
{
    match vo {
        Ok(vo) => lists_name(vo.as_str(), ',', "libmpv"),
        Err(_) => false,
    }
}

impl<C, H> EngineView<C, H> {
    /// The engine without a queued source.
    pub open spec fn discarded(self) -> Self {
        EngineView { pending: None, ..self }
    }

    /// The engine with `source` queued.
    pub open spec fn queued(self, source: Seq<char>) -> Self {
        EngineView { pending: Some(source), ..self }
    }

    /// The engine after a command was issued.
    pub open spec fn commanded(self, name: Seq<char>) -> Self {
        if supersedes(name) {
            self.discarded()
        } else {
            self
        }
    }

    /// `load_when_ready` queues rather than loads.
    pub open spec fn defers(self, vo: Result<String, MpvError>) -> bool {
        render_expected(vo) && self.render is None
    }

    /// The engine once an attach has begun.
    pub open spec fn attaching(self, on_update: C) -> Self {
        EngineView { update_callback: Some(on_update), ..self }
    }

    /// The engine once a backend is attached.
    pub open spec fn attached(self, backend: RenderBackend) -> Self {
        EngineView { render: Some(backend), ..self }
    }

    /// The engine once an attach failed.
    pub open spec fn attach_failed(self) -> Self {
        EngineView { update_callback: None, ..self }
    }

    /// The engine once an attach issued the queued source.
    pub open spec fn drained(self, reply: Result<(), Error>) -> Self {
        match reply {
            Ok(_) => self,
            Err(e) => EngineView { deferred: self.deferred.push(failed(e, self.generic)), ..self },
        }
    }

    /// What an exported attach fires at its end, where `published` says whether
    /// a frame waits.
    pub open spec fn refired(self, published: bool) -> Option<C> {
        if published && (self.render matches Some(backend) && backend is Exported) {
            self.update_callback
        } else {
            None
        }
    }

    /// The engine once its waiting events were taken.
    pub open spec fn pumped(self) -> Self {
        EngineView { deferred: Seq::empty(), ..self }
    }

    /// A detach parks the render thread's handle.
    pub open spec fn parks(self, own: bool) -> bool {
        own && (self.render matches Some(RenderBackend::Exported { .. }))
    }

    /// The engine once its backend is gone.
    pub open spec fn detached(self, own: bool, handle: Option<H>) -> Self {
        match self.render {
            None => self,
            Some(backend) => EngineView {
                render: None,
                update_callback: None,
                orphan: if self.parks(own) {
                    match handle {
                        Some(h) => Some((backend->thread, h)),
                        None => None,
                    }
                } else {
                    self.orphan
                },
                ..self
            },
        }
    }

    /// The engine once an id was given to an observation.
    pub open spec fn observed(self) -> Self {
        EngineView { next_observe_id: self.next_observe_id.wrapping_add(1), ..self }
    }

    /// The parked render thread is joined from `current`.
    pub open spec fn joins(self, current: u64) -> bool {
        self.orphan matches Some(orphan) && orphan.0 != current
    }
}

/// How to load a source.
#[derive(Debug)]
pub enum LoadStep {
    /// Issue this command now.
    Now(Vec<String>),
    /// The source waits for a render context.
    Queued,
}

/// An observation to register with mpv.
#[derive(Debug)]
pub struct Observation {
    /// The observation's handle, whose id mpv is to tag its events with.
    pub id: ObserveId,
    /// The property's name.
    pub name: String,
    /// The format to deliver it in.
    pub format: PropertyFormat,
}

impl Observation {
    /// The observation's handle, where mpv took it.
    pub fn registered(self, reply: Result<(), MpvError>) -> (r: Result<ObserveId, Error>)
        ensures
            r == (match reply {
                Ok(_) => Ok::<ObserveId, Error>(self.id),
                Err(e) => Err(Error::Mpv(e)),
            }),
    {
        match reply {
            Ok(_) => Ok(self.id),
            Err(e) => Err(Error::Mpv(e)),
        }
    }
}

/// How a detach goes about it.
#[derive(Debug, Clone, Copy, PartialEq, Eq, Structural)]
pub enum DetachPath {
    /// Nothing is attached.
    Nothing,
    /// The caller is the backend's own render thread: do not wait for it.
    Own,
    /// The caller is any other thread: wait for the teardown.
    Other,
}

/// A render-update callback that replaced another. It fires once right away, so
/// that a frame signaled to the other one is not lost.
#[must_use]
pub struct Replacement<C> {
    /// The callback that was registered.
    pub displaced: Option<C>,
    /// The callback that is to fire.
    pub fire: C,
}

impl<C> Replacement<C> {
    /// Fire the new callback through `call`, and give back the displaced one.
    /// With no lock held: both may call back into the engine.
    pub fn fire<F: FnOnce(&C)>(self, call: F) -> (r: Option<C>)
        requires
            call_requires(call, (&self.fire,)),
        ensures
            call_ensures(call, (&self.fire,), ()),
            r == self.displaced,
    {
        call(&self.fire);
        self.displaced
    }
}

/// What a detach took out of the engine. Drop it with no lock held.
pub struct Detached<C, H> {
    /// The backend that was attached.
    pub taken: Option<RenderBackend>,
    /// The callback that was registered.
    pub displaced: Option<C>,
    /// A handle that is not parked: the one that was parked before, or the
    /// given one where nothing was to be parked.
    pub unparked: Option<H>,
}

/// The state behind one embedded mpv player core, for callbacks of type `C`
/// and render-thread handles of type `H`.
pub struct Engine<C, H> {
    render: Option<RenderBackend>,
    update_callback: Option<C>,
    orphan: Option<(u64, H)>,
    next_observe_id: u64,
    pending_load: Option<String>,
    deferred_events: Vec<PlaybackEvent>,
    generic: String,
}

impl<C, H> View for Engine<C, H> {
    type V = EngineView<C, H>;

    closed spec fn view(&self) -> EngineView<C, H> {
        EngineView {
            render: self.render,
            update_callback: self.update_callback,
            orphan: self.orphan,
            next_observe_id: self.next_observe_id,
            pending: match self.pending_load {
                Some(source) => Some(source@),
                None => None,
            },
            deferred: self.deferred_events@,
            generic: self.generic,
        }
    }
}

impl<C, H> Engine<C, H> {
    /// The state of a core that has just come up, where `generic` is mpv's
    /// text for a failure without a code.
    pub fn new(generic: String) -> (r: Self)
        ensures
            r@ == (EngineView::<C, H> {
                render: None,
                update_callback: None,
                orphan: None,
                next_observe_id: 1,
                pending: None,
                deferred: Seq::empty(),
                generic,
            }),
    {
        Engine {
            render: None,
            update_callback: None,
            orphan: None,
            next_observe_id: 1,
            pending_load: None,
            deferred_events: Vec::new(),
            generic,
        }
    }

    /// Load a file path or URL and start playback. Supersedes a queued
    /// source. Returns the command to issue.
    pub fn load(&mut self, source: &str) -> (argv: Vec<String>)
        ensures
            texts(argv@) == loadfile_argv(source@),
            final(self)@ == old(self)@.discarded(),
    {
        self.pending_load = None;
        loadfile(source.to_owned())
    }

    /// [`load`](Self::load), but paused: `paused` is what came of
    /// [`set_paused`](Engine::set_paused), which runs first so that demuxing
    /// and audio don't start before the shell is ready.
    pub fn load_paused(&mut self, paused: Result<(), Error>, source: &str) -> (r: Result<
        Vec<String>,
        Error,
    >)
        ensures
            match paused {
                Err(e) => r == Err::<Vec<String>, Error>(e) && final(self)@ == old(self)@,
                Ok(_) => {
                    &&& r matches Ok(argv) && texts(argv@) == loadfile_argv(source@)
                    &&& final(self)@ == old(self)@.discarded()
                },
            },
    {
        match paused {
            Err(e) => Err(e),
            Ok(_) => Ok(self.load(source)),
        }
    }

    /// [`load`](Self::load), deferred until frames have somewhere to go: with
    /// `vo` on the render API and no context attached yet, the source is
    /// queued, and the attach issues it. `vo` is what reading the current
    /// `vo` property gave. A second call replaces a queued source.
    pub fn load_when_ready(&mut self, source: &str, vo: Result<String, MpvError>) -> (r: LoadStep)
        ensures
            if old(self)@.defers(vo) {
                r == LoadStep::Queued && final(self)@ == old(self)@.queued(source@)
            } else {
                &&& r matches LoadStep::Now(argv) && texts(argv@) == loadfile_argv(source@)
                &&& final(self)@ == old(self)@.discarded()
            },
    {
        if !expects_render(vo) || self.has_render() {
            return LoadStep::Now(self.load(source));
        }
        self.pending_load = Some(source.to_owned());
        LoadStep::Queued
    }

    /// Escape hatch: any mpv command, args passed as an array (no quoting
    /// needed). Commands that decide what plays next also discard a queued
    /// source. Returns the command to issue.
    pub fn command(&mut self, name: &str, args: &[&str]) -> (argv: Vec<String>)
        ensures
            texts(argv@) == seq![name@] + slice_texts(args@),
            final(self)@ == old(self)@.commanded(name@),
    {
        let mut argv: Vec<String> = Vec::new();
        argv.push(name.to_owned());
        let mut i: usize = 0;
        while i < args.len()
            invariant
                0 <= i <= args.len(),
                argv.len() == i + 1,
                argv@[0]@ == name@,
                forall|j: int| 0 <= j < i ==> (#[trigger] argv@[j + 1])@ == args@[j]@,
            decreases args.len() - i,
        {
            argv.push(args[i].to_owned());
            i = i + 1;
        }
        assert forall|j: int| 0 <= j < argv@.len() implies #[trigger] texts(argv@)[j] == (seq![
            name@,
        ] + slice_texts(args@))[j] by {
            if j > 0 {
                assert(argv@[(j - 1) + 1]@ == args@[j - 1]@);
            }
        }
        assert(texts(argv@) =~= seq![name@] + slice_texts(args@));
        if decides_what_plays(name) {
            self.pending_load = None;
        }
        argv
    }

    /// Stop playback and unload the current file. Also discards a queued
    /// source: there is nothing left to play. Returns the command to issue.
    pub fn stop(&mut self) -> (argv: Vec<String>)
        ensures
            texts(argv@) == seq!["stop"@],
            final(self)@ == old(self)@.discarded(),
    {
        let argv = self.command("stop", &[]);
        assert(texts(argv@) =~= seq!["stop"@]);
        argv
    }

    /// Seek to an absolute position, given in seconds as text. Returns the
    /// command to issue.
    pub fn seek_absolute(&mut self, secs: &str) -> (argv: Vec<String>)
        ensures
            texts(argv@) == seq!["seek"@, secs@, "absolute"@],
            final(self)@ == old(self)@,
    {
        let argv = self.command("seek", &[secs, "absolute"]);
        proof {
            lemma_seek_decides_nothing();
        }
        assert(texts(argv@) =~= seq!["seek"@, secs@, "absolute"@]);
        argv
    }

    /// Seek by a delta, given in seconds as text (negative seeks backward).
    /// Returns the command to issue.
    pub fn seek_relative(&mut self, secs: &str) -> (argv: Vec<String>)
        ensures
            texts(argv@) == seq!["seek"@, secs@, "relative"@],
            final(self)@ == old(self)@,
    {
        let argv = self.command("seek", &[secs, "relative"]);
        proof {
            lemma_seek_decides_nothing();
        }
        assert(texts(argv@) =~= seq!["seek"@, secs@, "relative"@]);
        argv
    }

    /// Observe property `name` for changes, delivered in `format`: what to
    /// register with mpv. Each observation gets a fresh id, so that canceling
    /// one is precise.
    pub fn observe(&mut self, name: &str, format: PropertyFormat) -> (r: Observation)
        ensures
            r.id == ObserveId::tagged(old(self)@.next_observe_id),
            r.id@ == old(self)@.next_observe_id,
            r.name@ == name@,
            r.format == format,
            final(self)@ == old(self)@.observed(),
    {
        let id: u64 = self.next_observe_id;
        self.next_observe_id = id.wrapping_add(1);
        Observation { id: ObserveId::from_userdata(id), name: name.to_owned(), format }
    }

    /// Start a drain of mpv's event queue. Events that the engine made itself
    /// come first: they predate whatever mpv has queued now.
    pub fn pump_events(&mut self) -> (r: EventPump)
        ensures
            r.wf(),
            r.first() == old(self)@.deferred,
            r.seen() == Seq::<MpvEvent>::empty(),
            r.generic() == old(self)@.generic,
            final(self)@ == old(self)@.pumped(),
    {
        let mut deferred: Vec<PlaybackEvent> = Vec::new();
        std::mem::swap(&mut deferred, &mut self.deferred_events);
        EventPump::new(deferred, self.generic.clone())
    }

    /// Begin to attach a render context: register `on_update`. Returns the
    /// displaced callback, or the new one where a context is attached
    /// already. Drop either with no lock held.
    pub fn begin_attach(&mut self, on_update: C) -> (r: Result<Option<C>, (Error, C)>)
        ensures
            match old(self)@.render {
                Some(_) => {
                    &&& r == Err::<Option<C>, (Error, C)>((Error::AlreadyAttached, on_update))
                    &&& final(self)@ == old(self)@
                },
                None => {
                    &&& r == Ok::<Option<C>, (Error, C)>(old(self)@.update_callback)
                    &&& final(self)@ == old(self)@.attaching(on_update)
                },
            },
    {
        if self.render.is_some() {
            return Err((Error::AlreadyAttached, on_update));
        }
        let displaced = self.update_callback.take();
        self.update_callback = Some(on_update);
        Ok(displaced)
    }

    /// End an attach: store the backend, or release the callback where no
    /// context could be created.
    fn end_attach(&mut self, created: Result<RenderBackend, Error>) -> (r: Result<
        (),
        (Error, Option<C>),
    >)
        ensures
            match created {
                Ok(backend) => {
                    &&& r == Ok::<(), (Error, Option<C>)>(())
                    &&& final(self)@ == old(self)@.attached(backend)
                },
                Err(e) => {
                    &&& r == Err::<(), (Error, Option<C>)>((e, old(self)@.update_callback))
                    &&& final(self)@ == old(self)@.attach_failed()
                },
            },
    {
        match created {
            Ok(backend) => {
                self.render = Some(backend);
                Ok(())
            },
            Err(e) => Err((e, self.update_callback.take())),
        }
    }

    /// End an attach of the OpenGL backend, where `created` is what came of
    /// creating the context. A failure attaches nothing and returns the
    /// callback, whose captures a slot that nothing will ever fire must not
    /// pin.
    pub fn attach_gl_render(
        &mut self,
        created: Result<(), Error>,
        options: GlRenderOptions,
    ) -> (r: Result<(), (Error, Option<C>)>)
        ensures
            match created {
                Ok(_) => {
                    &&& r == Ok::<(), (Error, Option<C>)>(())
                    &&& final(self)@ == old(self)@.attached(
                        RenderBackend::Gl { block_for_target_time: options.block_for_target_time },
                    )
                },
                Err(e) => {
                    &&& r == Err::<(), (Error, Option<C>)>((e, old(self)@.update_callback))
                    &&& final(self)@ == old(self)@.attach_failed()
                },
            },
    {
        match created {
            Ok(_) => self.end_attach(
                Ok(RenderBackend::Gl { block_for_target_time: options.block_for_target_time }),
            ),
            Err(e) => self.end_attach(Err(e)),
        }
    }

    /// End an attach of the software backend, as
    /// [`attach_gl_render`](Self::attach_gl_render) does.
    pub fn attach_sw_render(&mut self, created: Result<(), Error>) -> (r: Result<
        (),
        (Error, Option<C>),
    >)
        ensures
            match created {
                Ok(_) => {
                    &&& r == Ok::<(), (Error, Option<C>)>(())
                    &&& final(self)@ == old(self)@.attached(RenderBackend::Sw)
                },
                Err(e) => {
                    &&& r == Err::<(), (Error, Option<C>)>((e, old(self)@.update_callback))
                    &&& final(self)@ == old(self)@.attach_failed()
                },
            },
    {
        match created {
            Ok(_) => self.end_attach(Ok(RenderBackend::Sw)),
            Err(e) => self.end_attach(Err(e)),
        }
    }

    /// End an attach of the exported-frame backend, where `created` is the
    /// render thread that came up, as
    /// [`attach_gl_render`](Self::attach_gl_render) does.
    pub fn attach_exported_render(&mut self, created: Result<u64, Error>) -> (r: Result<
        (),
        (Error, Option<C>),
    >)
        ensures
            match created {
                Ok(thread) => {
                    &&& r == Ok::<(), (Error, Option<C>)>(())
                    &&& final(self)@ == old(self)@.attached(RenderBackend::Exported { thread })
                },
                Err(e) => {
                    &&& r == Err::<(), (Error, Option<C>)>((e, old(self)@.update_callback))
                    &&& final(self)@ == old(self)@.attach_failed()
                },
            },
    {
        match created {
            Ok(thread) => self.end_attach(Ok(RenderBackend::Exported { thread })),
            Err(e) => self.end_attach(Err(e)),
        }
    }

    /// The callback to fire once more now that an exported attach is complete,
    /// where `published` says whether a frame waits: its publish fired when the
    /// frame could not be acquired yet. Fire it with no lock held.
    pub fn refire(&self, published: bool) -> (r: Option<C>) where C: Clone
        ensures
            match self@.refired(published) {
                Some(registered) => r matches Some(fire) && cloned(registered, fire),
                None => r is None,
            },
    {
        match &self.render {
            Some(RenderBackend::Exported { .. }) if published => match &self.update_callback {
                Some(registered) => Some(registered.clone()),
                None => None,
            },
            _ => None,
        }
    }

    /// Take the queued source, now that a render context is stored. Returns
    /// the command to issue, if any.
    pub fn load_pending(&mut self) -> (r: Option<Vec<String>>)
        ensures
            match old(self)@.pending {
                Some(source) => r matches Some(argv) && texts(argv@) == loadfile_argv(source),
                None => r is None,
            },
            final(self)@ == old(self)@.discarded(),
    {
        match self.pending_load.take() {
            Some(source) => Some(loadfile(source)),
            None => None,
        }
    }

    /// Take in what came of the load that an attach issued. The context stays
    /// either way, so a failure goes onto the event stream. Returns whether
    /// to wake the shell up for it.
    pub fn drain_pending_load(&mut self, reply: Result<(), Error>) -> (r: bool)
        ensures
            r == (reply is Err),
            final(self)@ == old(self)@.drained(reply),
    {
        match reply {
            Ok(_) => false,
            Err(e) => {
                self.deferred_events.push(failure(e, &self.generic));
                true
            },
        }
    }

    /// How a detach on thread `current` goes about it.
    pub fn detach_path(&self, current: u64) -> (r: DetachPath)
        ensures
            r == (match self@.render {
                None => DetachPath::Nothing,
                Some(backend) => if backend == (RenderBackend::Exported { thread: current }) {
                    DetachPath::Own
                } else {
                    DetachPath::Other
                },
            }),
    {
        match &self.render {
            None => DetachPath::Nothing,
            Some(backend) => if backend.on_own_render_thread(current) {
                DetachPath::Own
            } else {
                DetachPath::Other
            },
        }
    }

    /// Take the render backend and its callback out of the engine. On the
    /// backend's own thread (`own`) the teardown cannot be waited for, so the
    /// thread's `handle` is parked for a later call from another thread.
    pub fn detach_render(&mut self, own: bool, handle: Option<H>) -> (r: Detached<C, H>)
        ensures
            r.taken == old(self)@.render,
            r.displaced == (if old(self)@.render is Some {
                old(self)@.update_callback
            } else {
                None
            }),
            r.unparked == (if old(self)@.parks(own) {
                match old(self)@.orphan {
                    Some(orphan) => Some(orphan.1),
                    None => None,
                }
            } else {
                handle
            }),
            final(self)@ == old(self)@.detached(own, handle),
    {
        match self.render.take() {
            None => Detached { taken: None, displaced: None, unparked: handle },
            Some(backend) => {
                let displaced = self.update_callback.take();
                if own {
                    if let RenderBackend::Exported { thread } = backend {
                        let unparked = match self.orphan.take() {
                            Some(orphan) => Some(orphan.1),
                            None => None,
                        };
                        self.orphan = match handle {
                            Some(h) => Some((thread, h)),
                            None => None,
                        };
                        return Detached { taken: Some(backend), displaced, unparked };
                    }
                }
                Detached { taken: Some(backend), displaced, unparked: handle }
            },
        }
    }

    /// The handle of a parked render thread to join from thread `current`, if
    /// any. On the parked thread itself it stays parked for a real joiner.
    pub fn join_orphaned_render(&mut self, current: u64) -> (r: Option<H>)
        ensures
            if old(self)@.joins(current) {
                &&& r == Some((old(self)@.orphan->0).1)
                &&& final(self)@ == (EngineView { orphan: None, ..old(self)@ })
            } else {
                r is None && final(self)@ == old(self)@
            },
    {
        match self.orphan.take() {
            Some(orphan) => if orphan.0 == current {
                self.orphan = Some(orphan);
                None
            } else {
                Some(orphan.1)
            },
            None => None,
        }
    }

    /// Whether a render context is attached.
    pub fn has_render(&self) -> (r: bool)
        ensures
            r == (self@.render is Some),
    {
        self.attached_render().is_some()
    }

    /// Which render backend is attached, if any.
    pub fn attached_render(&self) -> (r: Option<RenderKind>)
        ensures
            r == (match self@.render {
                Some(backend) => Some(kind_of(backend)),
                None => None,
            }),
    {
        match &self.render {
            Some(backend) => Some(backend.kind()),
            None => None,
        }
    }

    /// The live render-update callback.
    pub fn update_callback(&self) -> (r: Option<&C>)
        ensures
            match r {
                Some(cb) => self@.update_callback == Some(*cb),
                None => self@.update_callback is None,
            },
    {
        self.update_callback.as_ref()
    }

    /// Replace the render-update callback registered at attach. Returns what
    /// is displaced and what is to fire, or the new callback where no context
    /// is attached: a callback that could never fire is a wiring bug. Drop
    /// either with no lock held.
    pub fn set_render_update_callback(&mut self, on_update: C) -> (r: Result<
        Replacement<C>,
        (Error, C),
    >) where C: Clone
        ensures
            match old(self)@.render {
                None => {
                    &&& r == Err::<Replacement<C>, (Error, C)>((Error::NotAttached, on_update))
                    &&& final(self)@ == old(self)@
                },
                Some(_) => {
                    &&& r matches Ok(new) && new.displaced == old(self)@.update_callback && cloned(
                        on_update,
                        new.fire,
                    )
                    &&& final(self)@ == old(self)@.attaching(on_update)
                },
            },
    {
        if !self.has_render() {
            return Err((Error::NotAttached, on_update));
        }
        let fire = on_update.clone();
        let displaced = self.update_callback.take();
        self.update_callback = Some(on_update);
        Ok(Replacement { displaced, fire })
    }

    /// Whether pending render work is processed by this call: a context is
    /// attached, and no render thread of its own services it.
    pub fn render_update(&self) -> (r: bool)
        ensures
            r == (self@.render matches Some(backend) && !(backend is Exported)),
    {
        match &self.render {
            Some(backend) => backend.updates_here(),
            None => false,
        }
    }

    /// Draw the current frame into `fbo`: the draw to make, none before an
    /// attach, an error if another backend is attached.
    pub fn render_gl(&self, fbo: i32, w: i32, h: i32, flip_y: bool) -> (r: Result<
        Option<GlDraw>,
        Error,
    >)
        ensures
            r == (match self@.render {
                Some(RenderBackend::Gl { block_for_target_time }) => Ok::<Option<GlDraw>, Error>(
                    Some(
                        GlDraw {
                            fbo,
                            width: w,
                            height: h,
                            internal_format: 0,
                            flip_y,
                            block_for_target_time,
                        },
                    ),
                ),
                Some(_) => Err(Error::RenderBackendMismatch),
                None => Ok(None),
            }),
    {
        match &self.render {
            Some(RenderBackend::Gl { block_for_target_time }) => Ok(
                Some(
                    GlDraw {
                        fbo,
                        width: w,
                        height: h,
                        internal_format: 0,
                        flip_y,
                        block_for_target_time: *block_for_target_time,
                    },
                ),
            ),
            Some(_) => Err(Error::RenderBackendMismatch),
            None => Ok(None),
        }
    }

    /// Render the current frame as RGBA8 into `buf`: the draw to make into
    /// the resized `buf`, none before an attach or with nothing to draw, an
    /// error if another backend is attached.
    pub fn render_sw(&self, w: i32, h: i32, buf: &mut Vec<u8>) -> (r: Result<
        Option<SwDraw>,
        Error,
    >)
        ensures
            match self@.render {
                Some(RenderBackend::Sw) => if drawable(w, h) {
                    &&& r matches Ok(Some(draw)) && draw.width == w && draw.height == h
                        && draw.format == SwFormat::Rgb0 && draw.stride == w * 4
                    &&& final(buf)@ == fitted(old(buf)@, w * h * 4)
                } else {
                    r == Ok::<Option<SwDraw>, Error>(None) && final(buf)@ == old(buf)@
                },
                Some(_) => {
                    &&& r == Err::<Option<SwDraw>, Error>(Error::RenderBackendMismatch)
                    &&& final(buf)@ == old(buf)@
                },
                None => r == Ok::<Option<SwDraw>, Error>(None) && final(buf)@ == old(buf)@,
            },
    {
        match &self.render {
            Some(RenderBackend::Sw) => Ok(prepare_sw(w, h, buf)),
            Some(_) => Err(Error::RenderBackendMismatch),
            None => Ok(None),
        }
    }

    /// Whether there is a pool to take the newest published frame from: not
    /// before an attach, an error if another backend is attached.
    pub fn acquire_frame(&self) -> (r: Result<bool, Error>)
        ensures
            r == (match self@.render {
                Some(RenderBackend::Exported { .. }) => Ok::<bool, Error>(true),
                Some(_) => Err(Error::RenderBackendMismatch),
                None => Ok(false),
            }),
    {
        match &self.render {
            Some(RenderBackend::Exported { .. }) => Ok(true),
            Some(_) => Err(Error::RenderBackendMismatch),
            None => Ok(false),
        }
    }

    /// Resize the exported backend's frames: the size to set on its pool, none
    /// before an attach, an error if another backend is attached.
    pub fn set_export_size(&self, width: u32, height: u32) -> (r: Result<
        Option<(u32, u32)>,
        Error,
    >)
        ensures
            r == (match self@.render {
                Some(RenderBackend::Exported { .. }) => Ok::<Option<(u32, u32)>, Error>(
                    Some((width, height)),
                ),
                Some(_) => Err(Error::RenderBackendMismatch),
                None => Ok(None),
            }),
    {
        match self.acquire_frame() {
            Ok(true) => Ok(Some((width, height))),
            Ok(false) => Ok(None),
            Err(e) => Err(e),
        }
    }
}

/// A seek is no command that decides what plays next.
proof fn lemma_seek_decides_nothing()
    ensures
        !supersedes("seek"@),
{
    reveal_strlit("seek");
    reveal_strlit("loadfile");
    reveal_strlit("loadlist");
    reveal_strlit("stop");
    reveal_strlit("quit");
    reveal_strlit("quit-watch-later");
    assert("seek"@[1] != "stop"@[1]);
    assert("seek"@[0] != "quit"@[0]);
}

/// What a reply of mpv comes to.
pub open spec fn outcome<T>(reply: Result<T, MpvError>) -> Result<T, Error> {
    match reply {
        Ok(v) => Ok(v),
        Err(e) => Err(Error::Mpv(e)),
    }
}

/// What a reply of mpv comes to.
pub fn settle<T>(reply: Result<T, MpvError>) -> (r: Result<T, Error>)
    ensures
        r == outcome(reply),
{
    match reply {
        Ok(v) => Ok(v),
        Err(e) => Err(Error::Mpv(e)),
    }
}

// What needs no state of an engine: presets, and properties through the
// caller's own access to mpv.
impl Engine<(), ()> {
    /// Neutral builder with no properties preset.
    pub fn builder() -> (r: EngineBuilder)
        ensures
            r@ == Seq::<(Seq<char>, Seq<char>)>::empty(),
    {
        let r = EngineBuilder { props: Vec::new() };
        assert(r@ =~= Seq::<(Seq<char>, Seq<char>)>::empty());
        r
    }

    /// Builder preset for video playback via the libmpv render API. Frames
    /// appear only after an attach.
    pub fn video() -> (r: EngineBuilder)
        ensures
            r@ == seq![
                ("vo"@, "libmpv"@),
                ("hwdec"@, "auto-safe"@),
                ("keep-open"@, "always"@),
            ],
    {
        let r = Self::builder().property("vo", "libmpv").property("hwdec", "auto-safe").property(
            "keep-open",
            "always",
        );
        assert(r@ =~= seq![
            ("vo"@, "libmpv"@),
            ("hwdec"@, "auto-safe"@),
            ("keep-open"@, "always"@),
        ]);
        r
    }

    /// Builder preset for audio-only / headless use: playback starts as soon
    /// as a load runs, no render target needed.
    pub fn headless() -> (r: EngineBuilder)
        ensures
            r@ == seq![("vo"@, "null"@), ("keep-open"@, "always"@)],
    {
        let r = Self::builder().property("vo", "null").property("keep-open", "always");
        assert(r@ =~= seq![("vo"@, "null"@), ("keep-open"@, "always"@)]);
        r
    }

    /// Set an mpv property through `write`. Accepts anything that is a
    /// [`PropertyValue`].
    pub fn set_property<V: Into<PropertyValue>, W: FnOnce(&str, PropertyValue) -> Result<
        (),
        MpvError,
    >>(write: W, name: &str, value: V) -> (r: Result<(), Error>)
        requires
            forall|v: PropertyValue| call_requires(write, (name, v)),
        ensures
            exists|v: PropertyValue, reply: Result<(), MpvError>|
                {
                    &&& call_ensures(V::into, (value,), v)
                    &&& #[trigger] call_ensures(write, (name, v), reply)
                    &&& r == outcome(reply)
                },
    {
        let v: PropertyValue = value.into();
        settle(write(name, v))
    }

    /// Read an mpv property through `read`, in the format that `T` is read
    /// in.
    pub fn get_property<T: PropertyGet, R: FnOnce(&str, PropertyFormat) -> Result<T, MpvError>>(
        read: R,
        name: &str,
    ) -> (r: Result<T, Error>)
        requires
            call_requires(read, (name, T::wire_format())),
        ensures
            exists|reply: Result<T, MpvError>|
                #[trigger] call_ensures(read, (name, T::wire_format()), reply) && r == outcome(
                    reply,
                ),
    {
        settle(read(name, T::format()))
    }

    /// Pause (`true`) or resume (`false`) playback.
    pub fn set_paused<W: FnOnce(&str, PropertyValue) -> Result<(), MpvError>>(
        write: W,
        paused: bool,
    ) -> (r: Result<(), Error>)
        requires
            forall|v: PropertyValue| call_requires(write, ("pause", v)),
        ensures
            exists|reply: Result<(), MpvError>|
                {
                    &&& #[trigger] call_ensures(write, ("pause", PropertyValue::Flag(paused)), reply)
                    &&& r == outcome(reply)
                },
    {
        Self::set_property(write, "pause", paused)
    }

    /// Best-effort pause-state query; `false` when it cannot be read.
    pub fn is_paused<R: FnOnce(&str, PropertyFormat) -> Result<bool, MpvError>>(read: R) -> (r:
        bool)
        requires
            call_requires(read, ("pause", PropertyFormat::Flag)),
        ensures
            exists|reply: Result<bool, MpvError>|
                {
                    &&& #[trigger] call_ensures(read, ("pause", PropertyFormat::Flag), reply)
                    &&& r == (reply matches Ok(v) && v)
                },
    {
        match Self::get_property::<bool, R>(read, "pause") {
            Ok(v) => v,
            Err(_) => false,
        }
    }

    /// True when no file is loaded, or when that cannot be read:
    /// distinguishes "nothing to pause" from "not paused".
    pub fn is_idle<R: FnOnce(&str, PropertyFormat) -> Result<bool, MpvError>>(read: R) -> (r: bool)
        requires
            call_requires(read, ("idle-active", PropertyFormat::Flag)),
        ensures
            exists|reply: Result<bool, MpvError>|
                {
                    &&& #[trigger] call_ensures(read, ("idle-active", PropertyFormat::Flag), reply)
                    &&& r == (reply matches Ok(v) ==> v)
                },
    {
        match Self::get_property::<bool, R>(read, "idle-active") {
            Ok(v) => v,
            Err(_) => true,
        }
    }

    /// Mute (`true`) or unmute (`false`) audio.
    pub fn set_muted<W: FnOnce(&str, PropertyValue) -> Result<(), MpvError>>(
        write: W,
        muted: bool,
    ) -> (r: Result<(), Error>)
        requires
            forall|v: PropertyValue| call_requires(write, ("mute", v)),
        ensures
            exists|reply: Result<(), MpvError>|
                {
                    &&& #[trigger] call_ensures(write, ("mute", PropertyValue::Flag(muted)), reply)
                    &&& r == outcome(reply)
                },
    {
        Self::set_property(write, "mute", muted)
    }

    /// Best-effort mute-state query; `false` when it cannot be read.
    pub fn is_muted<R: FnOnce(&str, PropertyFormat) -> Result<bool, MpvError>>(read: R) -> (r:
        bool)
        requires
            call_requires(read, ("mute", PropertyFormat::Flag)),
        ensures
            exists|reply: Result<bool, MpvError>|
                {
                    &&& #[trigger] call_ensures(read, ("mute", PropertyFormat::Flag), reply)
                    &&& r == (reply matches Ok(v) && v)
                },
    {
        match Self::get_property::<bool, R>(read, "mute") {
            Ok(v) => v,
            Err(_) => false,
        }
    }

    /// Volume in percent: 0–100 is normal range, above 100 amplifies.
    pub fn set_volume<W: FnOnce(&str, PropertyValue) -> Result<(), MpvError>>(
        write: W,
        percent: Double,
    ) -> (r: Result<(), Error>)
        requires
            forall|v: PropertyValue| call_requires(write, ("volume", v)),
        ensures
            exists|reply: Result<(), MpvError>|
                {
                    &&& #[trigger] call_ensures(
                        write,
                        ("volume", PropertyValue::Double(percent)),
                        reply,
                    )
                    &&& r == outcome(reply)
                },
    {
        Self::set_property(write, "volume", percent)
    }

    /// Playback speed multiplier (one is normal).
    pub fn set_speed<W: FnOnce(&str, PropertyValue) -> Result<(), MpvError>>(
        write: W,
        speed: Double,
    ) -> (r: Result<(), Error>)
        requires
            forall|v: PropertyValue| call_requires(write, ("speed", v)),
        ensures
            exists|reply: Result<(), MpvError>|
                {
                    &&& #[trigger] call_ensures(
                        write,
                        ("speed", PropertyValue::Double(speed)),
                        reply,
                    )
                    &&& r == outcome(reply)
                },
    {
        Self::set_property(write, "speed", speed)
    }

    /// A double property, where it can be read.
    fn double_property<R: FnOnce(&str, PropertyFormat) -> Result<Double, MpvError>>(
        read: R,
        name: &str,
    ) -> (r: Option<Double>)
        requires
            call_requires(read, (name, PropertyFormat::Double)),
        ensures
            exists|reply: Result<Double, MpvError>|
                {
                    &&& #[trigger] call_ensures(read, (name, PropertyFormat::Double), reply)
                    &&& r == reply.ok()
                },
    {
        match Self::get_property::<Double, R>(read, name) {
            Ok(v) => Some(v),
            Err(_) => None,
        }
    }

    /// Best-effort volume query in percent.
    pub fn volume<R: FnOnce(&str, PropertyFormat) -> Result<Double, MpvError>>(read: R) -> (r:
        Option<Double>)
        requires
            call_requires(read, ("volume", PropertyFormat::Double)),
        ensures
            exists|reply: Result<Double, MpvError>|
                {
                    &&& #[trigger] call_ensures(read, ("volume", PropertyFormat::Double), reply)
                    &&& r == reply.ok()
                },
    {
        Self::double_property(read, "volume")
    }

    /// Best-effort speed query.
    pub fn speed<R: FnOnce(&str, PropertyFormat) -> Result<Double, MpvError>>(read: R) -> (r:
        Option<Double>)
        requires
            call_requires(read, ("speed", PropertyFormat::Double)),
        ensures
            exists|reply: Result<Double, MpvError>|
                {
                    &&& #[trigger] call_ensures(read, ("speed", PropertyFormat::Double), reply)
                    &&& r == reply.ok()
                },
    {
        Self::double_property(read, "speed")
    }

    /// Current playback position in seconds, if a file is loaded.
    pub fn position<R: FnOnce(&str, PropertyFormat) -> Result<Double, MpvError>>(read: R) -> (r:
        Option<Double>)
        requires
            call_requires(read, ("time-pos", PropertyFormat::Double)),
        ensures
            exists|reply: Result<Double, MpvError>|
                {
                    &&& #[trigger] call_ensures(read, ("time-pos", PropertyFormat::Double), reply)
                    &&& r == reply.ok()
                },
    {
        Self::double_property(read, "time-pos")
    }

    /// Total duration in seconds. `None` while it is not known.
    pub fn duration<R: FnOnce(&str, PropertyFormat) -> Result<Double, MpvError>>(read: R) -> (r:
        Option<Double>)
        requires
            call_requires(read, ("duration", PropertyFormat::Double)),
        ensures
            exists|reply: Result<Double, MpvError>|
                {
                    &&& #[trigger] call_ensures(read, ("duration", PropertyFormat::Double), reply)
                    &&& r == reply.ok()
                },
    {
        Self::double_property(read, "duration")
    }

    /// Cancel one observation through `cancel`.
    pub fn unobserve<W: FnOnce(u64) -> Result<(), MpvError>>(cancel: W, id: ObserveId) -> (r:
        Result<(), Error>)
        requires
            call_requires(cancel, (id@,)),
        ensures
            exists|reply: Result<(), MpvError>|
                #[trigger] call_ensures(cancel, (id@,), reply) && r == outcome(reply),
    {
        settle(cancel(id.userdata()))
    }
}

/// The newest transport call wins: a second queued source replaces the first,
/// a load and every command that decides what plays next discard it, and any
/// other command leaves it.
pub proof fn law_newest_transport_call_wins<C, H>(
    v: EngineView<C, H>,
    first: Seq<char>,
    second: Seq<char>,
    name: Seq<char>,
)
    ensures
        v.queued(first).queued(second) == v.queued(second),
        v.queued(first).discarded() == v.discarded(),
        v.discarded().pending is None,
        supersedes(name) ==> v.queued(first).commanded(name).pending is None,
        !supersedes(name) ==> v.queued(first).commanded(name).pending == Some(first),
{
}

/// A queued source is issued exactly once: it survives an attach, and taking
/// it leaves nothing to take.
pub proof fn law_queued_source_is_issued_once<C, H>(
    v: EngineView<C, H>,
    source: Seq<char>,
    on_update: C,
    backend: RenderBackend,
)
    ensures
        v.queued(source).attaching(on_update).attached(backend).pending == Some(source),
        v.queued(source).attaching(on_update).attached(backend).discarded().pending is None,
{
}

/// An attach that fails attaches nothing and pins no callback; a queued source
/// stays queued.
pub proof fn law_failed_attach_attaches_nothing<C, H>(v: EngineView<C, H>, on_update: C)
    requires
        v.render is None,
    ensures
        v.attaching(on_update).attach_failed().render is None,
        v.attaching(on_update).attach_failed().update_callback is None,
        v.attaching(on_update).attach_failed().pending == v.pending,
        v.attaching(on_update).attach_failed().deferred == v.deferred,
{
}

/// A queued source that fails to load leaves the context attached, and its
/// failure is the last event that the engine has waiting.
pub proof fn law_failed_queued_load_keeps_the_context<C, H>(
    v: EngineView<C, H>,
    backend: RenderBackend,
    error: Error,
)
    ensures
        v.attached(backend).drained(Err(error)).render == Some(backend),
        v.attached(backend).drained(Err(error)).deferred == v.deferred.push(
            failed(error, v.generic),
        ),
        v.attached(backend).drained(Ok(())) == v.attached(backend),
{
}

impl<C, H> EngineView<C, H> {
    /// What the engine will report of failures is mpv's own: its text for a
    /// failure without a code, and every failure that waits.
    pub open spec fn tells(self, describe: spec_fn(i32) -> Seq<char>) -> bool {
        self.generic@ == describe(MPV_ERROR_GENERIC) && tells_failures(self.deferred, describe)
    }
}

/// A queued source that fails to load fails no attach: the context is there,
/// and the failure that waits has a negative code and mpv's text for it.
pub proof fn law_failed_queued_load_is_told<C, H>(
    v: EngineView<C, H>,
    backend: RenderBackend,
    error: Error,
    describe: spec_fn(i32) -> Seq<char>,
)
    requires
        v.tells(describe),
        error.genuine(describe),
    ensures
        v.attached(backend).drained(Err(error)).render == Some(backend),
        v.attached(backend).drained(Err(error)).tells(describe),
        v.attached(backend).drained(Err(error)).deferred.len() == v.deferred.len() + 1,
        v.attached(backend).drained(Err(error)).deferred.last() matches PlaybackEvent::Failed {
            code,
            message,
        } && code < 0 && message@ == describe(code),
{
    let w = v.attached(backend).drained(Err(error));
    assert forall|i: int| 0 <= i < w.deferred.len() implies tells_failure(
        #[trigger] w.deferred[i],
        describe,
    ) by {
        if i < v.deferred.len() {
            assert(w.deferred[i] == v.deferred[i]);
        }
    }
}

/// Nothing else that an engine does changes what it will report.
pub proof fn law_reports_stay_told<C, H>(
    v: EngineView<C, H>,
    source: Seq<char>,
    name: Seq<char>,
    on_update: C,
    backend: RenderBackend,
    own: bool,
    handle: Option<H>,
    describe: spec_fn(i32) -> Seq<char>,
)
    requires
        v.tells(describe),
    ensures
        v.discarded().tells(describe),
        v.queued(source).tells(describe),
        v.commanded(name).tells(describe),
        v.observed().tells(describe),
        v.attaching(on_update).tells(describe),
        v.attached(backend).tells(describe),
        v.attach_failed().tells(describe),
        v.detached(own, handle).tells(describe),
        v.drained(Ok(())).tells(describe),
        v.pumped().tells(describe),
{
}

/// What a drain gives of failures: each has a negative code and mpv's text for
/// it, and there are as many as waited in the engine plus the errored ends of
/// file; no errored end is also reported as an end.
pub proof fn law_pump_tells_every_failure<C, H>(
    v: EngineView<C, H>,
    batch: Seq<MpvEvent>,
    describe: spec_fn(i32) -> Seq<char>,
)
    requires
        v.tells(describe),
        genuine_batch(batch, describe),
    ensures
        tells_failures(v.deferred + reported_all(batch, v.generic), describe),
        failures(v.deferred + reported_all(batch, v.generic)).len() == failures(v.deferred).len()
            + errored_ends(batch).len(),
        ends(v.deferred + reported_all(batch, v.generic)).len() == ends(v.deferred).len()
            + clean_ends(batch).len(),
{
    let queue = reported_all(batch, v.generic);
    law_every_failure_tells_its_code(batch, v.generic, describe);
    law_failures_are_the_errored_ends(batch, v.generic);
    Seq::filter_distributes_over_add(v.deferred, queue, |e: PlaybackEvent| e is Failed);
    Seq::filter_distributes_over_add(v.deferred, queue, |e: PlaybackEvent| e is Ended);
    let all = v.deferred + queue;
    assert forall|i: int| 0 <= i < all.len() implies tells_failure(
        #[trigger] all[i],
        describe,
    ) by {
        if i < v.deferred.len() {
            assert(all[i] == v.deferred[i]);
        } else {
            assert(all[i] == queue[i - v.deferred.len()]);
        }
    }
}

/// After a detach nothing is attached and no callback is registered, and the
/// next attach starts from its own; with `vo` on the render API sources queue
/// again, and a queued one is kept.
pub proof fn law_detached_engine_queues_again<C, H>(
    v: EngineView<C, H>,
    own: bool,
    handle: Option<H>,
    vo: Result<String, MpvError>,
    on_update: C,
)
    requires
        v.render is Some,
    ensures
        v.detached(own, handle).render is None,
        v.detached(own, handle).update_callback is None,
        v.detached(own, handle).pending == v.pending,
        v.detached(own, handle).deferred == v.deferred,
        v.detached(own, handle).defers(vo) == render_expected(vo),
        v.detached(own, handle).attaching(on_update).update_callback == Some(on_update),
{
}

/// At the end of an exported attach its callback fires once more if and only if
/// a frame waits, which can then be acquired, whatever came of a queued source.
/// A failed attach fires nothing, attaches nothing and keeps the queued source.
pub proof fn law_no_publish_is_lost_to_an_attach<C, H>(
    v: EngineView<C, H>,
    on_update: C,
    thread: u64,
    reply: Result<(), Error>,
    published: bool,
)
    requires
        v.render is None,
    ensures
        ({
            let up = v.attaching(on_update).attached(RenderBackend::Exported { thread });
            let done = up.discarded().drained(reply);
            &&& done.render == Some(RenderBackend::Exported { thread })
            &&& done.refired(published) == (if published {
                Some(on_update)
            } else {
                None
            })
            &&& v.attaching(on_update).attach_failed().refired(published) is None
            &&& v.attaching(on_update).attach_failed().render is None
            &&& v.attaching(on_update).attach_failed().pending == v.pending
        }),
{
}

/// What an engine does between an attach and the detach.
pub enum EngineStep {
    /// A load, or another command that discards a queued source.
    Discard,
    /// A source is queued.
    Queue(Seq<char>),
    /// A command by its name.
    Command(Seq<char>),
    /// A property is observed.
    Observe,
    /// A queued source was loaded, or not.
    Drain(Result<(), Error>),
    /// The events are drained.
    Pump,
    /// An ended render thread is joined.
    Join,
}

impl<C, H> EngineView<C, H> {
    /// The engine after `step`.
    pub open spec fn after(self, step: EngineStep) -> Self {
        match step {
            EngineStep::Discard => self.discarded(),
            EngineStep::Queue(source) => self.queued(source),
            EngineStep::Command(name) => self.commanded(name),
            EngineStep::Observe => self.observed(),
            EngineStep::Drain(reply) => self.drained(reply),
            EngineStep::Pump => self.pumped(),
            EngineStep::Join => EngineView { orphan: None, ..self },
        }
    }

    /// The engine after the first `n` of `steps`.
    pub open spec fn after_first(self, steps: Seq<EngineStep>, n: nat) -> Self
        decreases n,
    {
        if n == 0 {
            self
        } else {
            self.after_first(steps, (n - 1) as nat).after(steps[n - 1])
        }
    }
}

/// A callback that replaced another gets every later update, and the other
/// none: whatever the engine does until a detach or another replacement, it is
/// the one that is registered, and the context stays attached.
pub proof fn law_replacement_gets_every_later_update<C, H>(
    v: EngineView<C, H>,
    on_update: C,
    steps: Seq<EngineStep>,
    n: nat,
)
    requires
        n <= steps.len(),
    ensures
        v.attaching(on_update).after_first(steps, n).update_callback == Some(on_update),
        v.attaching(on_update).after_first(steps, n).render == v.render,
    decreases n,
{
    if n > 0 {
        law_replacement_gets_every_later_update(v, on_update, steps, (n - 1) as nat);
    }
}

/// With a context attached, or with `vo` off the render API, nothing queues.
pub proof fn law_loads_run_where_nothing_is_awaited<C, H>(
    v: EngineView<C, H>,
    vo: Result<String, MpvError>,
    backend: RenderBackend,
)
    ensures
        !v.attached(backend).defers(vo),
        !render_expected(vo) ==> !v.defers(vo),
        vo is Err ==> !v.defers(vo),
{
}

/// A detach on the render thread itself parks that thread's handle. It stays
/// parked there and is joined from any other thread.
pub proof fn law_parked_thread_is_joined_elsewhere<C, H>(
    v: EngineView<C, H>,
    thread: u64,
    handle: H,
    current: u64,
)
    requires
        v.render == Some(RenderBackend::Exported { thread }),
    ensures
        v.detached(true, Some(handle)).orphan == Some((thread, handle)),
        v.detached(true, Some(handle)).joins(current) == (current != thread),
{
}

/// The engine once `n` observations got their ids.
pub open spec fn observed_times<C, H>(v: EngineView<C, H>, n: nat) -> EngineView<C, H>
    decreases n,
{
    if n == 0 {
        v
    } else {
        observed_times(v, (n - 1) as nat).observed()
    }
}

/// Every observation gets an id that differs from those of all others, until
/// the counter has gone round.
pub proof fn law_observation_ids_are_distinct<C, H>(v: EngineView<C, H>, i: nat, j: nat)
    requires
        i < j,
        j - i <= u64::MAX,
    ensures
        observed_times(v, i).next_observe_id != observed_times(v, j).next_observe_id,
{
    lemma_nth_id(v, i);
    lemma_nth_id(v, j);
}

/// The id after `n` observations.
proof fn lemma_nth_id<C, H>(v: EngineView<C, H>, n: nat)
    ensures
        observed_times(v, n).next_observe_id == (v.next_observe_id + n) % 0x1_0000_0000_0000_0000,
    decreases n,
{
    if n > 0 {
        lemma_nth_id(v, (n - 1) as nat);
    }
}

} // verus!

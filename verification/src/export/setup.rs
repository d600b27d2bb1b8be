//! What the platforms' setups have in common: failures that release what is
//! held, entry points that must be there, and the render thread's own start
//! and end.

use vstd::prelude::*;

use crate::error::Error;

verus! {

/// A setup that failed half way: what to release, in this order, and why.
pub struct SetupFailure<R> {
    /// What is still held, newest first.
    pub release: Vec<R>,
    /// Why the setup failed.
    pub error: Error,
}

/// `error` is a failed setup that says `text`.
pub open spec fn is_setup_error(error: Error, text: Seq<char>) -> bool {
    error matches Error::ExportSetup(t) && t@ == text
}

/// `error` is a failed import that says `text`.
pub open spec fn is_import_error(error: Error, text: Seq<char>) -> bool {
    error matches Error::WgpuImport(t) && t@ == text
}

impl<R> SetupFailure<R> {
    /// The failure releases all of `held`, newest first, and says `text`.
    pub open spec fn unwinds(self, held: Seq<R>, text: Seq<char>) -> bool {
        self.release@ == held.reverse() && is_setup_error(self.error, text)
    }
}

/// A failed setup that says `text`.
pub fn setup_error(text: &str) -> (r: Error)
    ensures
        is_setup_error(r, text@),
{
    Error::ExportSetup(text.to_owned())
}

/// A failed import that says `text`.
pub fn import_error(text: &str) -> (r: Error)
    ensures
        is_import_error(r, text@),
{
    Error::WgpuImport(text.to_owned())
}

/// `load` was asked for the entry point `name` and answered `found`.
pub open spec fn looked_up<L: Fn(&str) -> bool>(load: L, name: Seq<char>, found: bool) -> bool {
    exists|asked: &str| asked@ == name && #[trigger] call_ensures(load, (asked,), found)
}

/// The first of `names` that `load` does not find. Nothing after it is asked
/// for.
pub fn first_missing<L: Fn(&str) -> bool>(names: &Vec<&'static str>, load: L) -> (r: Option<usize>)
    requires
        forall|name: &str| call_requires(load, (name,)),
    ensures
        match r {
            Some(i) => {
                &&& i < names@.len()
                &&& call_ensures(load, (names@[i as int],), false)
                &&& forall|j: int|
                    0 <= j < i ==> call_ensures(load, (#[trigger] names@[j],), true)
            },
            None => forall|j: int|
                0 <= j < names@.len() ==> call_ensures(load, (#[trigger] names@[j],), true),
        },
{
    let mut i: usize = 0;
    while i < names.len()
        invariant
            0 <= i <= names@.len(),
            forall|name: &str| call_requires(load, (name,)),
            forall|j: int| 0 <= j < i ==> call_ensures(load, (#[trigger] names@[j],), true),
        decreases names@.len() - i,
    {
        if !load(names[i]) {
            return Some(i);
        }
        i = i + 1;
    }
    None
}

/// One step of the render thread's start.
#[derive(Debug, Clone, Copy, PartialEq, Eq, Structural)]
pub enum StartAction {
    /// Create the hidden GL context.
    CreateContext,
    /// Make it current on this thread.
    MakeCurrent,
    /// Create mpv's render context on it.
    CreateRenderContext {
        /// mpv's advanced control: the thread services every update promptly.
        advanced_control: bool,
    },
    /// Register for mpv's updates.
    RegisterUpdates,
}

/// How many steps the render thread's start has.
pub const START_ACTIONS: u32 = 4;

/// The steps of the render thread's start, in order.
pub open spec fn start_action(i: nat) -> StartAction {
    if i == 0 {
        StartAction::CreateContext
    } else if i == 1 {
        StartAction::MakeCurrent
    } else if i == 2 {
        StartAction::CreateRenderContext { advanced_control: true }
    } else {
        StartAction::RegisterUpdates
    }
}

/// What comes next while the render thread starts.
#[derive(Debug)]
pub enum StartStep {
    /// Do this, and hand back what came of it.
    Do(StartAction),
    /// Tell the attach that waits. The thread goes on only where it is up.
    Answer(Result<(), Error>),
    /// The attach was told.
    Over,
}

/// How far a start has come.
#[verifier::ext_equal]
pub struct StartView {
    /// The steps begun.
    pub begun: nat,
    /// The attach was told.
    pub answered: bool,
}

/// The start of the render thread.
pub struct RenderThreadStart {
    begun: u32,
    answered: bool,
}

impl View for RenderThreadStart {
    type V = StartView;

    closed spec fn view(&self) -> StartView {
        StartView { begun: self.begun as nat, answered: self.answered }
    }
}

/// What [`RenderThreadStart::next`] gives and leaves.
pub open spec fn start_next(v: StartView, last: Result<(), Error>) -> (StartStep, StartView) {
    if v.answered {
        (StartStep::Over, v)
    } else {
        match last {
            Err(e) => (StartStep::Answer(Err(e)), StartView { answered: true, ..v }),
            Ok(_) => if v.begun < START_ACTIONS {
                (StartStep::Do(start_action(v.begun)), StartView { begun: v.begun + 1, ..v })
            } else {
                (StartStep::Answer(Ok(())), StartView { answered: true, ..v })
            },
        }
    }
}

impl RenderThreadStart {
    /// Nothing is done yet.
    pub fn new() -> (r: Self)
        ensures
            r@ == (StartView { begun: 0, answered: false }),
    {
        RenderThreadStart { begun: 0, answered: false }
    }

    /// The next step, after what came of the last one: the first failure ends
    /// the start, and the attach is told once.
    pub fn next(&mut self, last: Result<(), Error>) -> (r: StartStep)
        ensures
            (r, final(self)@) == start_next(old(self)@, last),
    {
        if self.answered {
            return StartStep::Over;
        }
        match last {
            Err(e) => {
                self.answered = true;
                StartStep::Answer(Err(e))
            },
            Ok(_) => {
                if self.begun >= START_ACTIONS {
                    self.answered = true;
                    return StartStep::Answer(Ok(()));
                }
                let action = if self.begun == 0 {
                    StartAction::CreateContext
                } else if self.begun == 1 {
                    StartAction::MakeCurrent
                } else if self.begun == 2 {
                    StartAction::CreateRenderContext { advanced_control: true }
                } else {
                    StartAction::RegisterUpdates
                };
                self.begun = self.begun + 1;
                StartStep::Do(action)
            },
        }
    }
}

/// The start after its first `n` replies.
pub open spec fn start_after(replies: Seq<Result<(), Error>>, n: nat) -> StartView
    decreases n,
{
    if n == 0 {
        StartView { begun: 0, answered: false }
    } else {
        start_next(start_after(replies, (n - 1) as nat), replies[n - 1]).1
    }
}

/// The steps go in order while all goes well. The attach is told that the
/// thread is up after the last one, or of the first failure, which no further
/// step follows.
pub proof fn law_start_goes_in_order(replies: Seq<Result<(), Error>>, n: nat)
    requires
        n < replies.len(),
        n <= START_ACTIONS,
        forall|i: int| 0 <= i < n ==> #[trigger] replies[i] is Ok,
    ensures
        start_after(replies, n) == (StartView { begun: n, answered: false }),
        start_next(start_after(replies, n), replies[n as int]).0 == (match replies[n as int] {
            Err(e) => StartStep::Answer(Err(e)),
            Ok(_) => if n < START_ACTIONS {
                StartStep::Do(start_action(n))
            } else {
                StartStep::Answer(Ok(()))
            },
        }),
    decreases n,
{
    if n > 0 {
        law_start_goes_in_order(replies, (n - 1) as nat);
    }
}

/// The attach is told once: whatever is handed in after the answer, nothing
/// more is done or told.
pub proof fn law_start_answers_once(replies: Seq<Result<(), Error>>, n: nat, m: nat)
    requires
        n < m < replies.len(),
        start_next(start_after(replies, n), replies[n as int]).0 is Answer,
    ensures
        start_after(replies, m).answered,
        start_next(start_after(replies, m), replies[m as int]).0 is Over,
    decreases m,
{
    if m > n + 1 {
        law_start_answers_once(replies, n, (m - 1) as nat);
    }
}

/// What came of starting the render thread.
pub enum ThreadStart {
    /// It could not be spawned, for this reason.
    NotSpawned(String),
    /// It came up, or said why it could not.
    Answered(Result<(), Error>),
    /// It ended without an answer.
    Died,
}

/// What an attach is told of a render thread's start.
pub fn thread_started(start: ThreadStart) -> (r: Result<(), Error>)
    ensures
        match start {
            ThreadStart::NotSpawned(why) => r matches Err(e) && is_setup_error(
                e,
                "spawning render thread: "@ + why@,
            ),
            ThreadStart::Answered(answer) => r == answer,
            ThreadStart::Died => r matches Err(e) && is_setup_error(
                e,
                "render thread died during setup"@,
            ),
        },
{
    match start {
        ThreadStart::NotSpawned(why) => Err(
            Error::ExportSetup(crate::error::prefixed("spawning render thread: ", &why)),
        ),
        ThreadStart::Answered(answer) => answer,
        ThreadStart::Died => Err(setup_error("render thread died during setup")),
    }
}

/// Whether a thread waits for a render thread that ends: a thread that is
/// the render thread itself must not.
pub fn waits_for(thread: u64, current: u64) -> (r: bool)
    ensures
        r == (thread != current),
{
    thread != current
}

} // verus!

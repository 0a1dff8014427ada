//! The state stack manager: an ordered stack of application states of which only the top one
//! is active, and the protocol by which states are pushed, popped and replaced.
//!
//! Every lifecycle hook of a state answers with a [`StackAction`], which is itself applied to
//! the stack before anything else happens, so one transition may set off others. How deep
//! transitions may nest is bounded by a `depth` that the caller gives: a transition that would
//! need more is left unfinished, and the manager says so.
//!
//! The stack is modelled as a sequence of states, bottom first. What a transition does to it is
//! defined by the recursive functions [`apply_spec`], [`push_spec`], [`pop_spec`] and
//! [`replace_spec`]. The manager itself does not recurse: it keeps a list of the steps that
//! are left of a transition and takes them one by one, and is proved to compute exactly what
//! the recursive functions say.

use std::marker::PhantomData;
use vstd::prelude::*;

use crate::keyboard::KeyboardTimedState;

verus! {

/// An action to apply to the stack of states.
///
/// `M` is the pop message, handed to the state beneath the one that is popped; `S` is the type
/// of the states.
#[derive(Clone, PartialEq, Eq, Debug)]
pub enum StackAction<M, S> {
    /// Remove the top state and hand the message to the one beneath it.
    Pop(M),
    /// Put a new state on top of the current one.
    Push(S),
    /// Put a new state in place of the current one.
    Replace(S),
    /// Leave the stack as it is.
    Nop,
}

/// A state of the application.
///
/// Each hook changes the state and answers with an action for the stack. What a hook does is
/// given by a spec function of the same name, from the state before (and the hook's argument)
/// to the state after and the action; rendering only changes the state. Unless a state says
/// otherwise, a hook is taken to leave the state as it is and to ask for nothing.
pub trait State<M>: Sized {
    /// What `create` does.
    open spec fn create_spec(&self) -> (Self, StackAction<M, Self>) {
        (*self, StackAction::Nop)
    }

    /// Called once, when the state is added to the stack.
    fn create(&mut self) -> (action: StackAction<M, Self>)
        ensures
            (*final(self), action) == old(self).create_spec(),
    ;

    /// What `pause` does.
    open spec fn pause_spec(&self) -> (Self, StackAction<M, Self>) {
        (*self, StackAction::Nop)
    }

    /// Called when another state is pushed on top of this one.
    fn pause(&mut self) -> (action: StackAction<M, Self>)
        ensures
            (*final(self), action) == old(self).pause_spec(),
    ;

    /// What `resume` does.
    open spec fn resume_spec(&self, pop_message: M) -> (Self, StackAction<M, Self>) {
        (*self, StackAction::Nop)
    }

    /// Called when the state on top of this one is popped, with that state's message.
    fn resume(&mut self, pop_message: M) -> (action: StackAction<M, Self>)
        ensures
            (*final(self), action) == old(self).resume_spec(pop_message),
    ;

    /// What `quit` does.
    open spec fn quit_spec(&self) -> (Self, StackAction<M, Self>) {
        (*self, StackAction::Nop)
    }

    /// Called when the state itself is removed from the stack.
    fn quit(&mut self) -> (action: StackAction<M, Self>)
        ensures
            (*final(self), action) == old(self).quit_spec(),
    ;

    /// What `update` does.
    open spec fn update_spec(&self, keyboard_state: KeyboardTimedState) -> (
        Self,
        StackAction<M, Self>,
    ) {
        (*self, StackAction::Nop)
    }

    /// Called once per frame on the active state: the logic of the state.
    fn update(&mut self, keyboard_state: &KeyboardTimedState) -> (action: StackAction<M, Self>)
        ensures
            (*final(self), action) == old(self).update_spec(*keyboard_state),
    ;

    /// What `render` does to the state.
    open spec fn render_spec(&self) -> Self {
        *self
    }

    /// Called on the active state at the end of a frame in which no transition took place.
    fn render(&mut self)
        ensures
            *final(self) == old(self).render_spec(),
    ;
}

/// The result of applying a transition to a stack.
pub struct Resolution<S> {
    /// The stack afterwards, bottom first.
    pub stack: Seq<S>,
    /// The state that the transition itself took off the stack, as its `quit` left it.
    pub removed: Option<S>,
    /// Whether the transition and all that it set off were carried out within the depth given.
    pub complete: bool,
}

/// The stack with its top state exchanged for `top`.
pub open spec fn with_top<S>(stack: Seq<S>, top: S) -> Seq<S> {
    stack.drop_last().push(top)
}

/// Applies `action` to `stack`, allowing transitions to nest `depth` deep.
pub open spec fn apply_spec<M, S: State<M>>(
    stack: Seq<S>,
    action: StackAction<M, S>,
    depth: nat,
) -> Resolution<S>
    decreases depth, 1nat,
{
    match action {
        StackAction::Pop(msg) => pop_spec(stack, msg, depth),
        StackAction::Push(state) => push_spec(stack, state, depth),
        StackAction::Replace(state) => replace_spec(stack, state, depth),
        StackAction::Nop => Resolution { stack, removed: None, complete: true },
    }
}

/// Pushes `state`: the current top, if there is one, is paused and what its `pause` asks for
/// is carried out; then `state` is created and what its `create` asks for is carried out;
/// then `state` is placed on top.
pub open spec fn push_spec<M, S: State<M>>(stack: Seq<S>, state: S, depth: nat) -> Resolution<S>
    decreases depth, 0nat,
{
    if depth == 0 {
        Resolution { stack, removed: None, complete: false }
    } else {
        let paused = if stack.len() > 0 {
            let (top, action) = stack.last().pause_spec();
            apply_spec(with_top(stack, top), action, (depth - 1) as nat)
        } else {
            Resolution { stack, removed: None, complete: true }
        };
        if !paused.complete {
            Resolution { stack: paused.stack, removed: None, complete: false }
        } else {
            let (state, action) = state.create_spec();
            let created = apply_spec(paused.stack, action, (depth - 1) as nat);
            if !created.complete {
                Resolution { stack: created.stack, removed: None, complete: false }
            } else {
                Resolution { stack: created.stack.push(state), removed: None, complete: true }
            }
        }
    }
}

/// Pops the top state: it is removed, its `quit` is called and what that asks for is carried
/// out; then the new top, if there is one, is resumed with `msg` and what its `resume` asks
/// for is carried out. On an empty stack nothing happens.
pub open spec fn pop_spec<M, S: State<M>>(stack: Seq<S>, msg: M, depth: nat) -> Resolution<S>
    decreases depth, 0nat,
{
    if stack.len() == 0 {
        Resolution { stack, removed: None, complete: true }
    } else if depth == 0 {
        Resolution { stack, removed: None, complete: false }
    } else {
        let (gone, action) = stack.last().quit_spec();
        let quitted = apply_spec(stack.drop_last(), action, (depth - 1) as nat);
        if !quitted.complete || quitted.stack.len() == 0 {
            Resolution { stack: quitted.stack, removed: Some(gone), complete: quitted.complete }
        } else {
            let (top, action) = quitted.stack.last().resume_spec(msg);
            let resumed = apply_spec(with_top(quitted.stack, top), action, (depth - 1) as nat);
            Resolution { stack: resumed.stack, removed: Some(gone), complete: resumed.complete }
        }
    }
}

/// Replaces the top state by `state`: the top, if there is one, is removed, its `quit` is
/// called and what that asks for is carried out; then `state` is created, what its `create`
/// asks for is carried out, and `state` is placed on top. No state is paused or resumed.
pub open spec fn replace_spec<M, S: State<M>>(stack: Seq<S>, state: S, depth: nat) -> Resolution<S>
    decreases depth, 0nat,
{
    if depth == 0 {
        Resolution { stack, removed: None, complete: false }
    } else {
        let removed = if stack.len() > 0 {
            Some(stack.last().quit_spec().0)
        } else {
            None
        };
        let quitted = if stack.len() > 0 {
            apply_spec(stack.drop_last(), stack.last().quit_spec().1, (depth - 1) as nat)
        } else {
            Resolution { stack, removed: None, complete: true }
        };
        if !quitted.complete {
            Resolution { stack: quitted.stack, removed, complete: false }
        } else {
            let (state, action) = state.create_spec();
            let created = apply_spec(quitted.stack, action, (depth - 1) as nat);
            if !created.complete {
                Resolution { stack: created.stack, removed, complete: false }
            } else {
                Resolution { stack: created.stack.push(state), removed, complete: true }
            }
        }
    }
}

/// Popping from an empty stack does nothing and is complete, whatever the depth.
pub proof fn lemma_pop_empty<M, S: State<M>>(msg: M, depth: nat)
    ensures
        pop_spec(Seq::<S>::empty(), msg, depth) == (Resolution {
            stack: Seq::<S>::empty(),
            removed: None,
            complete: true,
        }),
{
}

/// `Nop` leaves every stack as it is, whatever the depth.
pub proof fn lemma_nop_keeps_stack<M, S: State<M>>(stack: Seq<S>, depth: nat)
    ensures
        apply_spec(stack, StackAction::<M, S>::Nop, depth).stack == stack,
        apply_spec(stack, StackAction::<M, S>::Nop, depth).complete,
{
}

/// A transition that is complete within `depth` has the same result at every greater depth:
/// what a complete transition does to the stack does not depend on the depth allowed.
pub proof fn lemma_deeper_apply<M, S: State<M>>(
    stack: Seq<S>,
    action: StackAction<M, S>,
    depth: nat,
    deeper: nat,
)
    requires
        depth <= deeper,
        apply_spec(stack, action, depth).complete,
    ensures
        apply_spec(stack, action, deeper) == apply_spec(stack, action, depth),
    decreases depth, 1nat,
{
    match action {
        StackAction::Pop(msg) => lemma_deeper_pop(stack, msg, depth, deeper),
        StackAction::Push(state) => lemma_deeper_push(stack, state, depth, deeper),
        StackAction::Replace(state) => lemma_deeper_replace(stack, state, depth, deeper),
        StackAction::Nop => {},
    }
}

/// A push that is complete within `depth` has the same result at every greater depth.
pub proof fn lemma_deeper_push<M, S: State<M>>(stack: Seq<S>, state: S, depth: nat, deeper: nat)
    requires
        depth <= deeper,
        push_spec(stack, state, depth).complete,
    ensures
        push_spec(stack, state, deeper) == push_spec(stack, state, depth),
    decreases depth, 0nat,
{
    let inner = (depth - 1) as nat;
    let inner_deeper = (deeper - 1) as nat;
    if stack.len() > 0 {
        let (top, action) = stack.last().pause_spec();
        lemma_deeper_apply(with_top(stack, top), action, inner, inner_deeper);
        let paused = apply_spec(with_top(stack, top), action, inner);
        lemma_deeper_apply(paused.stack, state.create_spec().1, inner, inner_deeper);
    } else {
        lemma_deeper_apply(stack, state.create_spec().1, inner, inner_deeper);
    }
}

/// A pop that is complete within `depth` has the same result at every greater depth.
pub proof fn lemma_deeper_pop<M, S: State<M>>(stack: Seq<S>, msg: M, depth: nat, deeper: nat)
    requires
        depth <= deeper,
        pop_spec(stack, msg, depth).complete,
    ensures
        pop_spec(stack, msg, deeper) == pop_spec(stack, msg, depth),
    decreases depth, 0nat,
{
    if stack.len() > 0 {
        let inner = (depth - 1) as nat;
        let inner_deeper = (deeper - 1) as nat;
        let (gone, action) = stack.last().quit_spec();
        lemma_deeper_apply(stack.drop_last(), action, inner, inner_deeper);
        let quitted = apply_spec(stack.drop_last(), action, inner);
        if quitted.stack.len() > 0 {
            let (top, action) = quitted.stack.last().resume_spec(msg);
            lemma_deeper_apply(with_top(quitted.stack, top), action, inner, inner_deeper);
        }
    }
}

/// A replacement that is complete within `depth` has the same result at every greater depth.
pub proof fn lemma_deeper_replace<M, S: State<M>>(
    stack: Seq<S>,
    state: S,
    depth: nat,
    deeper: nat,
)
    requires
        depth <= deeper,
        replace_spec(stack, state, depth).complete,
    ensures
        replace_spec(stack, state, deeper) == replace_spec(stack, state, depth),
    decreases depth, 0nat,
{
    let inner = (depth - 1) as nat;
    let inner_deeper = (deeper - 1) as nat;
    if stack.len() > 0 {
        let action = stack.last().quit_spec().1;
        lemma_deeper_apply(stack.drop_last(), action, inner, inner_deeper);
        let quitted = apply_spec(stack.drop_last(), action, inner);
        lemma_deeper_apply(quitted.stack, state.create_spec().1, inner, inner_deeper);
    } else {
        lemma_deeper_apply(stack, state.create_spec().1, inner, inner_deeper);
    }
}

/// Where the hooks involved ask for nothing, a push only pauses the top and places the new
/// state, as created, above it.
pub proof fn lemma_quiet_push<M, S: State<M>>(stack: Seq<S>, state: S, depth: nat)
    requires
        depth > 0,
        stack.len() > 0 ==> stack.last().pause_spec().1 is Nop,
        state.create_spec().1 is Nop,
    ensures
        push_spec(stack, state, depth).complete,
        push_spec(stack, state, depth).stack == (if stack.len() > 0 {
            with_top(stack, stack.last().pause_spec().0)
        } else {
            stack
        }).push(state.create_spec().0),
{
}

/// Where the hooks involved ask for nothing, a pop only removes the top and resumes the
/// state beneath it with the message.
pub proof fn lemma_quiet_pop<M, S: State<M>>(stack: Seq<S>, msg: M, depth: nat)
    requires
        depth > 0,
        stack.len() > 0,
        stack.last().quit_spec().1 is Nop,
        stack.len() > 1 ==> stack[stack.len() - 2].resume_spec(msg).1 is Nop,
    ensures
        pop_spec(stack, msg, depth).complete,
        pop_spec(stack, msg, depth).removed == Some(stack.last().quit_spec().0),
        pop_spec(stack, msg, depth).stack == (if stack.len() > 1 {
            with_top(stack.drop_last(), stack[stack.len() - 2].resume_spec(msg).0)
        } else {
            stack.drop_last()
        }),
{
}

/// Where the hooks involved ask for nothing, a replacement only exchanges the top for the new
/// state, as created: the states beneath are neither paused nor resumed.
pub proof fn lemma_quiet_replace<M, S: State<M>>(stack: Seq<S>, state: S, depth: nat)
    requires
        depth > 0,
        stack.len() > 0,
        stack.last().quit_spec().1 is Nop,
        state.create_spec().1 is Nop,
    ensures
        replace_spec(stack, state, depth).complete,
        replace_spec(stack, state, depth).removed == Some(stack.last().quit_spec().0),
        replace_spec(stack, state, depth).stack == with_top(stack, state.create_spec().0),
{
}

/// How a frame ended.
#[derive(Clone, Copy, PartialEq, Eq, Structural, Debug)]
pub enum FrameOutcome {
    /// The stack was empty: there is no active state, and the run is over.
    Finished,
    /// The active state asked for no transition and was rendered.
    Rendered,
    /// The active state asked for a transition, which was carried out; nothing was rendered.
    Transitioned,
    /// The active state asked for a transition that nests deeper than allowed; nothing was
    /// rendered.
    Unresolved,
}

/// One frame on `stack`: the active state is updated with the keyboard state; if it asks for
/// a transition, that is applied, else the active state is rendered.
pub open spec fn frame_spec<M, S: State<M>>(
    stack: Seq<S>,
    keyboard_state: KeyboardTimedState,
    depth: nat,
) -> (Seq<S>, FrameOutcome) {
    if stack.len() == 0 {
        (stack, FrameOutcome::Finished)
    } else {
        let (top, action) = stack.last().update_spec(keyboard_state);
        if action is Nop {
            (with_top(stack, top.render_spec()), FrameOutcome::Rendered)
        } else {
            let resolution = apply_spec(with_top(stack, top), action, depth);
            (
                resolution.stack,
                if resolution.complete {
                    FrameOutcome::Transitioned
                } else {
                    FrameOutcome::Unresolved
                },
            )
        }
    }
}

/// The number of milliseconds in a second.
pub const MILLIS_PER_SECOND: u64 = 1000;

/// The time to sleep at the end of a frame that took `elapsed` milliseconds, where a frame is
/// to last `interval` milliseconds: the rest of the interval, or nothing if the frame has
/// already taken as long or longer.
pub open spec fn sleep_time_spec(interval: u64, elapsed: u64) -> Option<u32> {
    if elapsed < interval {
        Some((interval - elapsed) as u32)
    } else {
        None
    }
}

/// The length of a frame with its sleep: the time that the work took, and then the sleep.
pub open spec fn frame_period(interval: u64, elapsed: u64) -> int {
    match sleep_time_spec(interval, elapsed) {
        Some(sleep) => elapsed + sleep,
        None => elapsed as int,
    }
}

/// A frame whose work takes less than the interval lasts exactly the interval; one whose work
/// takes as long or longer is not slept after, and lasts as long as its work.
pub proof fn lemma_frame_period(interval: u64, elapsed: u64)
    requires
        interval <= MILLIS_PER_SECOND,
    ensures
        elapsed < interval ==> frame_period(interval, elapsed) == interval,
        elapsed >= interval ==> sleep_time_spec(interval, elapsed) is None,
        elapsed >= interval ==> frame_period(interval, elapsed) == elapsed,
{
}

/// Paces the frames of a run at a fixed rate.
pub struct FramePacer {
    interval: u64,
}

impl FramePacer {
    #[verifier::type_invariant]
    spec fn within_a_second(self) -> bool {
        self.interval <= MILLIS_PER_SECOND
    }

    /// The length of a frame, in milliseconds.
    pub closed spec fn interval_spec(&self) -> u64 {
        self.interval
    }

    /// A pacer for `fps` frames per second: a frame lasts a whole number of milliseconds, the
    /// second divided by `fps` and rounded down.
    pub fn new(fps: u64) -> (pacer: Self)
        requires
            fps > 0,
        ensures
            pacer.interval_spec() == MILLIS_PER_SECOND / fps,
    {
        FramePacer { interval: MILLIS_PER_SECOND / fps }
    }

    /// The length of a frame, in milliseconds: at most a second.
    #[verifier::when_used_as_spec(interval_spec)]
    pub fn interval(&self) -> (interval: u64)
        ensures
            interval == self.interval_spec(),
            interval <= MILLIS_PER_SECOND,
    {
        proof {
            use_type_invariant(self);
        }
        self.interval
    }

    /// The time to sleep, in milliseconds, at the end of a frame whose work took `elapsed`
    /// milliseconds: what is left of the interval, and `None` if nothing is left.
    pub fn sleep_time(&self, elapsed: u64) -> (sleep: Option<u32>)
        ensures
            sleep == sleep_time_spec(self.interval_spec(), elapsed),
            elapsed < self.interval_spec() ==> sleep is Some && elapsed + sleep->0
                == self.interval_spec(),
            elapsed >= self.interval_spec() ==> sleep is None,
    {
        proof {
            use_type_invariant(self);
        }
        if elapsed < self.interval {
            Some((self.interval - elapsed) as u32)
        } else {
            None
        }
    }
}

/// A step that is still to be taken in carrying out a transition. The manager keeps the steps
/// that are left in a list and takes them one by one, so that transitions within transitions
/// do not nest calls.
enum Task<M, S> {
    /// Apply an action, allowing transitions to nest so deep.
    Apply(StackAction<M, S>, usize),
    /// Pause the top of the stack, if there is one, and apply what it asks for.
    Pause(usize),
    /// Create a state, apply what it asks for, and place it on top.
    Create(S, usize),
    /// Place a state on top.
    Place(S),
    /// Resume the top of the stack, if there is one, with a message, and apply what it asks
    /// for.
    Resume(M, usize),
}

/// What taking a step comes to: the stack afterwards, and whether the step was completed.
spec fn do_task<M, S: State<M>>(stack: Seq<S>, task: Task<M, S>) -> (Seq<S>, bool) {
    match task {
        Task::Apply(action, depth) => {
            let applied = apply_spec(stack, action, depth as nat);
            (applied.stack, applied.complete)
        },
        Task::Pause(depth) => if stack.len() > 0 {
            let (top, action) = stack.last().pause_spec();
            let applied = apply_spec(with_top(stack, top), action, depth as nat);
            (applied.stack, applied.complete)
        } else {
            (stack, true)
        },
        Task::Create(state, depth) => {
            let (state, action) = state.create_spec();
            let applied = apply_spec(stack, action, depth as nat);
            if applied.complete {
                (applied.stack.push(state), true)
            } else {
                (applied.stack, false)
            }
        },
        Task::Place(state) => (stack.push(state), true),
        Task::Resume(msg, depth) => if stack.len() > 0 {
            let (top, action) = stack.last().resume_spec(msg);
            let applied = apply_spec(with_top(stack, top), action, depth as nat);
            (applied.stack, applied.complete)
        } else {
            (stack, true)
        },
    }
}

/// What taking all steps of a list comes to, the last of the list first; the steps after one
/// that was not completed are not taken.
spec fn do_tasks<M, S: State<M>>(stack: Seq<S>, pending: Seq<Task<M, S>>) -> (Seq<S>, bool)
    decreases pending.len(),
{
    if pending.len() == 0 {
        (stack, true)
    } else {
        let (stack, complete) = do_task(stack, pending.last());
        if complete {
            do_tasks(stack, pending.drop_last())
        } else {
            (stack, false)
        }
    }
}

/// A bound on the steps that applying an action takes at a depth: each step sets off at most
/// two others, and only the application of an action at a lower depth among them.
spec fn apply_weight(depth: nat) -> nat
    decreases depth,
{
    if depth == 0 {
        1
    } else {
        4 + 2 * apply_weight((depth - 1) as nat)
    }
}

/// A bound on the steps that a step takes, itself included.
spec fn weight<M, S>(task: Task<M, S>) -> nat {
    match task {
        Task::Apply(_, depth) => apply_weight(depth as nat),
        Task::Pause(depth) => 1 + apply_weight(depth as nat),
        Task::Create(_, depth) => 2 + apply_weight(depth as nat),
        Task::Place(_) => 1,
        Task::Resume(_, depth) => 1 + apply_weight(depth as nat),
    }
}

/// A bound on the steps that a list of steps takes.
spec fn total_weight<M, S>(pending: Seq<Task<M, S>>) -> nat
    decreases pending.len(),
{
    if pending.len() == 0 {
        0
    } else {
        total_weight(pending.drop_last()) + weight(pending.last())
    }
}

/// A step added to a list is taken first, and the list after it.
proof fn lemma_do_tasks_push<M, S: State<M>>(
    stack: Seq<S>,
    pending: Seq<Task<M, S>>,
    task: Task<M, S>,
)
    ensures
        do_tasks(stack, pending.push(task)) == (if do_task(stack, task).1 {
            do_tasks(do_task(stack, task).0, pending)
        } else {
            (do_task(stack, task).0, false)
        }),
        total_weight(pending.push(task)) == total_weight(pending) + weight(task),
{
    assert(pending.push(task).drop_last() == pending);
}

/// The state manager: it owns the states on the stack.
pub struct StateManager<M, S> {
    stack: Vec<S>,
    message: PhantomData<M>,
}

impl<M, S: State<M>> View for StateManager<M, S> {
    type V = Seq<S>;

    /// The states on the stack, bottom first: the last one is the active state.
    closed spec fn view(&self) -> Seq<S> {
        self.stack@
    }
}

impl<M, S: State<M>> StateManager<M, S> {
    /// Creates a manager with an empty stack.
    pub fn new() -> (manager: Self)
        ensures
            manager@ == Seq::<S>::empty(),
    {
        StateManager { stack: Vec::new(), message: PhantomData }
    }

    /// The number of states on the stack.
    pub fn len(&self) -> (len: usize)
        ensures
            len == self@.len(),
    {
        self.stack.len()
    }

    /// Whether no state is left, so that there is no active state.
    pub fn is_empty(&self) -> (empty: bool)
        ensures
            empty == (self@.len() == 0),
    {
        self.stack.len() == 0
    }

    /// The active state: the top of the stack.
    pub fn active(&self) -> (top: Option<&S>)
        ensures
            self@.len() == 0 ==> top is None,
            self@.len() > 0 ==> top == Some(&self@.last()),
    {
        if self.stack.len() == 0 {
            None
        } else {
            Some(&self.stack[self.stack.len() - 1])
        }
    }

    /// The states on the stack, bottom first.
    pub fn states(&self) -> (states: &Vec<S>)
        ensures
            states@ == self@,
    {
        &self.stack
    }

    /// Applies `action` to the stack, with all that it sets off, and says whether that could
    /// be done within `depth` nested transitions.
    pub fn apply(&mut self, action: StackAction<M, S>, depth: usize) -> (complete: bool)
        ensures
            final(self)@ == apply_spec(old(self)@, action, depth as nat).stack,
            complete == apply_spec(old(self)@, action, depth as nat).complete,
    {
        let mut pending: Vec<Task<M, S>> = Vec::new();
        pending.push(Task::Apply(action, depth));
        proof {
            lemma_do_tasks_push(self@, Seq::empty(), Task::Apply(action, depth));
        }
        self.resolve(pending)
    }

    /// Pushes `state` on the stack and says whether the transition was completed; see
    /// [`push_spec`]. When it was, `state` is the active state, as its `create` left it.
    pub fn push_to_stack(&mut self, state: S, depth: usize) -> (complete: bool)
        ensures
            final(self)@ == push_spec(old(self)@, state, depth as nat).stack,
            complete == push_spec(old(self)@, state, depth as nat).complete,
            complete ==> final(self)@.len() > 0 && final(self)@.last() == state.create_spec().0,
    {
        self.apply(StackAction::Push(state), depth)
    }

    /// Pops the top of the stack; see [`pop_spec`]. Returns the state that was removed, and
    /// whether the transition was completed. On an empty stack this does nothing, whatever
    /// the depth.
    pub fn pop_from_stack(&mut self, msg: M, depth: usize) -> (popped: (Option<S>, bool))
        ensures
            final(self)@ == pop_spec(old(self)@, msg, depth as nat).stack,
            popped.0 == pop_spec(old(self)@, msg, depth as nat).removed,
            popped.1 == pop_spec(old(self)@, msg, depth as nat).complete,
            old(self)@.len() == 0 ==> final(self)@ == old(self)@ && popped == (None::<S>, true),
    {
        if self.stack.len() == 0 {
            return (None, true);
        }
        if depth == 0 {
            return (None, false);
        }
        let mut gone = self.stack.pop().unwrap();
        let action = gone.quit();
        let mut pending: Vec<Task<M, S>> = Vec::new();
        pending.push(Task::Resume(msg, depth - 1));
        pending.push(Task::Apply(action, depth - 1));
        proof {
            let resume = Task::Resume(msg, (depth - 1) as usize);
            let quitted = do_task(self@, Task::Apply(action, (depth - 1) as usize));
            lemma_do_tasks_push(self@, seq![resume], Task::Apply(action, (depth - 1) as usize));
            lemma_do_tasks_push(quitted.0, Seq::empty(), resume);
        }
        let complete = self.resolve(pending);
        (Some(gone), complete)
    }

    /// Puts `state` in place of the top of the stack; see [`replace_spec`]. Returns the state
    /// that was removed, and whether the transition was completed. When it was, `state` is the
    /// active state, as its `create` left it.
    pub fn replace_top_stack(&mut self, state: S, depth: usize) -> (replaced: (Option<S>, bool))
        ensures
            final(self)@ == replace_spec(old(self)@, state, depth as nat).stack,
            replaced.0 == replace_spec(old(self)@, state, depth as nat).removed,
            replaced.1 == replace_spec(old(self)@, state, depth as nat).complete,
            replaced.1 ==> final(self)@.len() > 0 && final(self)@.last() == state.create_spec().0,
    {
        if depth == 0 {
            return (None, false);
        }
        let mut pending: Vec<Task<M, S>> = Vec::new();
        pending.push(Task::Create(state, depth - 1));
        let ghost create = Task::Create(state, (depth - 1) as usize);
        proof {
            lemma_do_tasks_push(self@, Seq::empty(), create);
        }
        let mut removed = None;
        if self.stack.len() > 0 {
            let mut gone = self.stack.pop().unwrap();
            let action = gone.quit();
            removed = Some(gone);
            pending.push(Task::Apply(action, depth - 1));
            proof {
                let quitted = do_task(self@, Task::Apply(action, (depth - 1) as usize));
                lemma_do_tasks_push(self@, seq![create], Task::Apply(action, (depth - 1) as usize));
                lemma_do_tasks_push(quitted.0, Seq::empty(), create);
            }
        }
        let complete = self.resolve(pending);
        (removed, complete)
    }

    /// Takes the steps of a list, the last of the list first, with all the steps that they set
    /// off, until none is left or one cannot be completed.
    fn resolve(&mut self, tasks: Vec<Task<M, S>>) -> (complete: bool)
        ensures
            (final(self)@, complete) == do_tasks(old(self)@, tasks@),
    {
        let mut pending = tasks;
        while pending.len() > 0
            invariant
                do_tasks(self@, pending@) == do_tasks(old(self)@, tasks@),
            decreases total_weight(pending@),
        {
            let task = pending.pop().unwrap();
            let ghost rest = pending@;
            match task {
                Task::Apply(action, depth) => match action {
                    StackAction::Nop => {},
                    StackAction::Pop(msg) => {
                        if self.stack.len() > 0 {
                            if depth == 0 {
                                return false;
                            }
                            let mut gone = self.stack.pop().unwrap();
                            let action = gone.quit();
                            pending.push(Task::Resume(msg, depth - 1));
                            pending.push(Task::Apply(action, depth - 1));
                            proof {
                                let resume = Task::Resume(msg, (depth - 1) as usize);
                                let apply = Task::Apply(action, (depth - 1) as usize);
                                lemma_do_tasks_push(self@, rest.push(resume), apply);
                                lemma_do_tasks_push(do_task(self@, apply).0, rest, resume);
                                lemma_do_tasks_push::<M, S>(self@, rest, resume);
                            }
                        }
                    },
                    StackAction::Push(state) => {
                        if depth == 0 {
                            return false;
                        }
                        pending.push(Task::Create(state, depth - 1));
                        pending.push(Task::Pause(depth - 1));
                        proof {
                            let create = Task::Create(state, (depth - 1) as usize);
                            let pause = Task::<M, S>::Pause((depth - 1) as usize);
                            lemma_do_tasks_push(self@, rest.push(create), pause);
                            lemma_do_tasks_push(do_task(self@, pause).0, rest, create);
                            lemma_do_tasks_push(self@, rest, create);
                        }
                    },
                    StackAction::Replace(state) => {
                        if depth == 0 {
                            return false;
                        }
                        pending.push(Task::Create(state, depth - 1));
                        let ghost create = Task::Create(state, (depth - 1) as usize);
                        proof {
                            lemma_do_tasks_push(self@, rest, create);
                        }
                        if self.stack.len() > 0 {
                            let mut gone = self.stack.pop().unwrap();
                            let action = gone.quit();
                            pending.push(Task::Apply(action, depth - 1));
                            proof {
                                let apply = Task::Apply(action, (depth - 1) as usize);
                                lemma_do_tasks_push(self@, rest.push(create), apply);
                                lemma_do_tasks_push(do_task(self@, apply).0, rest, create);
                            }
                        }
                    },
                },
                Task::Pause(depth) => {
                    if self.stack.len() > 0 {
                        let action = self.pause_top();
                        pending.push(Task::Apply(action, depth));
                        proof {
                            lemma_do_tasks_push(self@, rest, Task::Apply(action, depth));
                        }
                    }
                },
                Task::Create(state, depth) => {
                    let mut state = state;
                    let action = state.create();
                    pending.push(Task::Place(state));
                    pending.push(Task::Apply(action, depth));
                    proof {
                        let place = Task::<M, S>::Place(state);
                        let apply = Task::Apply(action, depth);
                        lemma_do_tasks_push(self@, rest.push(place), apply);
                        lemma_do_tasks_push(do_task(self@, apply).0, rest, place);
                        lemma_do_tasks_push(self@, rest, place);
                    }
                },
                Task::Place(state) => {
                    self.stack.push(state);
                },
                Task::Resume(msg, depth) => {
                    if self.stack.len() > 0 {
                        let action = self.resume_top(msg);
                        pending.push(Task::Apply(action, depth));
                        proof {
                            lemma_do_tasks_push(self@, rest, Task::Apply(action, depth));
                        }
                    }
                },
            }
        }
        true
    }

    /// Starts a run at `fps` frames per second: pushes the initial state, and returns the pacer
    /// for the frames with the answer of [`Self::push_to_stack`]. The caller then calls
    /// [`Self::frame`] once per frame, until it finds the stack empty.
    pub fn run(&mut self, initial_state: S, fps: u64, depth: usize) -> (started: (FramePacer, bool))
        requires
            fps > 0,
        ensures
            started.0.interval_spec() == MILLIS_PER_SECOND / fps,
            final(self)@ == push_spec(old(self)@, initial_state, depth as nat).stack,
            started.1 == push_spec(old(self)@, initial_state, depth as nat).complete,
    {
        let pacer = FramePacer::new(fps);
        let complete = self.push_to_stack(initial_state, depth);
        (pacer, complete)
    }

    /// Runs one frame: the active state is updated with the keyboard state; if it asks for a
    /// transition, that is applied to the stack, else the active state is rendered. Only the
    /// active state is touched unless a transition takes place.
    pub fn frame(
        &mut self,
        keyboard_state: &KeyboardTimedState,
        depth: usize,
    ) -> (outcome: FrameOutcome)
        ensures
            (final(self)@, outcome) == frame_spec(old(self)@, *keyboard_state, depth as nat),
            outcome is Finished <==> old(self)@.len() == 0,
            outcome is Rendered ==> final(self)@.len() == old(self)@.len()
                && final(self)@.drop_last() == old(self)@.drop_last(),
    {
        if self.stack.len() == 0 {
            return FrameOutcome::Finished;
        }
        let mut top = self.stack.pop().unwrap();
        let action = top.update(keyboard_state);
        match action {
            StackAction::Nop => {
                top.render();
                self.stack.push(top);
                FrameOutcome::Rendered
            },
            action => {
                self.stack.push(top);
                if self.apply(action, depth) {
                    FrameOutcome::Transitioned
                } else {
                    FrameOutcome::Unresolved
                }
            },
        }
    }

    /// Calls `pause` on the top of the stack.
    fn pause_top(&mut self) -> (action: StackAction<M, S>)
        requires
            old(self)@.len() > 0,
        ensures
            final(self)@ == with_top(old(self)@, old(self)@.last().pause_spec().0),
            action == old(self)@.last().pause_spec().1,
    {
        let mut top = self.stack.pop().unwrap();
        let action = top.pause();
        self.stack.push(top);
        action
    }

    /// Calls `resume` on the top of the stack.
    fn resume_top(&mut self, msg: M) -> (action: StackAction<M, S>)
        requires
            old(self)@.len() > 0,
        ensures
            final(self)@ == with_top(old(self)@, old(self)@.last().resume_spec(msg).0),
            action == old(self)@.last().resume_spec(msg).1,
    {
        let mut top = self.stack.pop().unwrap();
        let action = top.resume(msg);
        self.stack.push(top);
        action
    }
}

} // verus!

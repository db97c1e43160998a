//! The run-loop state machine: which phase the application is in, and what
//! each event of the windowing system makes it do.

use vstd::prelude::*;
use winit::window::Window;

verus! {

/// Declares `winit::window::Window`. Nothing is claimed of it: the library
/// never looks inside a window, it only hands one on to the logic's
/// `render`.
#[verifier::external_type_specification]
#[verifier::external_body]
pub struct ExWindow(Window);

/// The per-frame hooks of the consuming application.
pub trait AppLogic {
    /// Advances the application's state by one frame.
    fn update(&mut self);

    /// Draws the current state into `window`.
    fn render(&mut self, window: &Window);
}

/// Where the application stands in its life.
#[derive(Debug, Clone, Copy, PartialEq, Eq, Structural)]
pub enum Phase {
    /// Neither window nor graphics context exists yet.
    Idle,
    /// Window and graphics context both exist; frames are drawn.
    Active,
    /// The event loop was told to exit; nothing more is done.
    Terminated,
}

/// An event addressed to the application's window.
#[derive(Debug, Clone, Copy, PartialEq, Eq, Structural)]
pub enum WindowEvent {
    /// The user asked for the window to close.
    CloseRequested,
    /// The window's contents are to be painted again.
    RedrawRequested,
    /// Any other kind: resize, focus, input and the like.
    Other,
}

/// An event that the windowing system delivers.
#[derive(Debug, Clone, Copy, PartialEq, Eq, Structural)]
pub enum Event {
    /// The application became active.
    Resumed,
    /// Something happened to the window.
    Window(WindowEvent),
}

/// One thing to do in answer to an event.
#[derive(Debug, Clone, Copy, PartialEq, Eq, Structural)]
pub enum Action {
    /// Create the window, titled with the application's name.
    CreateWindow,
    /// Create the graphics context for the window.
    CreateContext,
    /// Call the logic's `update`.
    Update,
    /// Call the logic's `render` with the window.
    Render,
    /// Ask the windowing system for another redraw.
    RequestRedraw,
    /// Tell the event loop to exit.
    Exit,
}

/// The phase that follows `phase` when `event` arrives.
pub open spec fn transition(phase: Phase, event: Event) -> Phase {
    match (phase, event) {
        (Phase::Idle, Event::Resumed) => Phase::Active,
        (Phase::Idle, Event::Window(WindowEvent::CloseRequested)) => Phase::Terminated,
        (Phase::Active, Event::Window(WindowEvent::CloseRequested)) => Phase::Terminated,
        _ => phase,
    }
}

/// What is done, in order, when `event` arrives in `phase`.
pub open spec fn reaction(phase: Phase, event: Event) -> Seq<Action> {
    match (phase, event) {
        (Phase::Idle, Event::Resumed) => seq![Action::CreateWindow, Action::CreateContext],
        (Phase::Idle, Event::Window(WindowEvent::CloseRequested)) => seq![Action::Exit],
        (Phase::Active, Event::Window(WindowEvent::CloseRequested)) => seq![Action::Exit],
        (Phase::Active, Event::Window(WindowEvent::RedrawRequested)) => seq![
            Action::Update,
            Action::Render,
            Action::RequestRedraw,
        ],
        _ => Seq::<Action>::empty(),
    }
}

/// The phase reached from `phase` once all of `events` have arrived.
pub open spec fn phase_after(phase: Phase, events: Seq<Event>) -> Phase
    decreases events.len(),
{
    if events.len() == 0 {
        phase
    } else {
        transition(phase_after(phase, events.drop_last()), events.last())
    }
}

/// Everything done, in order, while `events` arrive one by one from `phase`.
pub open spec fn trace(phase: Phase, events: Seq<Event>) -> Seq<Action>
    decreases events.len(),
{
    if events.len() == 0 {
        Seq::<Action>::empty()
    } else {
        trace(phase, events.drop_last()) + reaction(
            phase_after(phase, events.drop_last()),
            events.last(),
        )
    }
}

/// How often `action` occurs in `actions`.
pub open spec fn count(actions: Seq<Action>, action: Action) -> nat
    decreases actions.len(),
{
    if actions.len() == 0 {
        0
    } else {
        count(actions.drop_last(), action) + if actions.last() == action {
            1nat
        } else {
            0nat
        }
    }
}

/// How many of `events` are redraw requests that arrive while the
/// application is active.
pub open spec fn frames(phase: Phase, events: Seq<Event>) -> nat
    decreases events.len(),
{
    if events.len() == 0 {
        0
    } else {
        frames(phase, events.drop_last()) + if phase_after(phase, events.drop_last())
            == Phase::Active && events.last() == Event::Window(WindowEvent::RedrawRequested) {
            1nat
        } else {
            0nat
        }
    }
}

/// One step of the state machine: the next phase and what to do.
pub fn step(phase: Phase, event: Event) -> (next: (Phase, Vec<Action>))
    ensures
        next.0 == transition(phase, event),
        next.1@ == reaction(phase, event),
{
    let mut actions: Vec<Action> = Vec::new();
    let next: Phase = match (phase, event) {
        (Phase::Idle, Event::Resumed) => {
            actions.push(Action::CreateWindow);
            actions.push(Action::CreateContext);
            Phase::Active
        },
        (Phase::Idle, Event::Window(WindowEvent::CloseRequested)) => {
            actions.push(Action::Exit);
            Phase::Terminated
        },
        (Phase::Active, Event::Window(WindowEvent::CloseRequested)) => {
            actions.push(Action::Exit);
            Phase::Terminated
        },
        (Phase::Active, Event::Window(WindowEvent::RedrawRequested)) => {
            actions.push(Action::Update);
            actions.push(Action::Render);
            actions.push(Action::RequestRedraw);
            Phase::Active
        },
        _ => phase,
    };
    assert(actions@ =~= reaction(phase, event));
    (next, actions)
}

/// The application: the logic it drives, its name, and its phase.
pub struct Application<T: AppLogic> {
    logic: T,
    app_name: &'static str,
    phase: Phase,
}

impl<T: AppLogic> Application<T> {
    /// The phase the application is in.
    pub closed spec fn phase(&self) -> Phase {
        self.phase
    }

    /// The application's name: the window's title and the name given to
    /// the driver.
    pub closed spec fn name(&self) -> Seq<char> {
        self.app_name@
    }

    /// The logic that the application drives.
    pub closed spec fn logic(&self) -> T {
        self.logic
    }

    /// An idle application around `logic`.
    pub fn new(logic: T, app_name: &'static str) -> (app: Self)
        ensures
            app.phase() == Phase::Idle,
            app.name() == app_name@,
            app.logic() == logic,
    {
        Application { logic, app_name, phase: Phase::Idle }
    }

    /// The phase the application is in.
    pub fn current_phase(&self) -> (phase: Phase)
        ensures
            phase == self.phase(),
    {
        self.phase
    }

    /// The application's name.
    pub fn app_name(&self) -> (name: &'static str)
        ensures
            name@ == self.name(),
    {
        self.app_name
    }

    /// Takes one event: moves to the next phase and says what to do.
    pub fn handle(&mut self, event: Event) -> (actions: Vec<Action>)
        ensures
            final(self).phase() == transition(old(self).phase(), event),
            actions@ == reaction(old(self).phase(), event),
            final(self).name() == old(self).name(),
            final(self).logic() == old(self).logic(),
    {
        let (next, actions) = step(self.phase, event);
        self.phase = next;
        actions
    }

    /// The application became active: on the first time the window and
    /// then the graphics context are to be created, later nothing.
    pub fn resumed(&mut self) -> (actions: Vec<Action>)
        ensures
            final(self).phase() == transition(old(self).phase(), Event::Resumed),
            actions@ == reaction(old(self).phase(), Event::Resumed),
            final(self).name() == old(self).name(),
            final(self).logic() == old(self).logic(),
    {
        self.handle(Event::Resumed)
    }

    /// Something happened to the window: a redraw request asks for one
    /// frame and another redraw, a close request for the loop's exit, and
    /// anything else for nothing.
    pub fn window_event(&mut self, event: WindowEvent) -> (actions: Vec<Action>)
        ensures
            final(self).phase() == transition(old(self).phase(), Event::Window(event)),
            actions@ == reaction(old(self).phase(), Event::Window(event)),
            final(self).name() == old(self).name(),
            final(self).logic() == old(self).logic(),
    {
        self.handle(Event::Window(event))
    }

    /// Takes a run of events one by one, as [`Application::handle`] does,
    /// and says everything there is to do, in order.
    pub fn handle_all(&mut self, events: &Vec<Event>) -> (actions: Vec<Action>)
        ensures
            final(self).phase() == phase_after(old(self).phase(), events@),
            actions@ == trace(old(self).phase(), events@),
            final(self).name() == old(self).name(),
            final(self).logic() == old(self).logic(),
    {
        let mut actions: Vec<Action> = Vec::new();
        let mut i: usize = 0;
        while i < events.len()
            invariant
                i <= events.len(),
                self.phase() == phase_after(old(self).phase(), events@.take(i as int)),
                actions@ == trace(old(self).phase(), events@.take(i as int)),
                self.name() == old(self).name(),
                self.logic() == old(self).logic(),
            decreases events.len() - i,
        {
            let mut more = self.handle(events[i]);
            actions.append(&mut more);
            proof {
                let next = events@.take(i + 1);
                assert(next.drop_last() =~= events@.take(i as int));
                assert(next.last() == events@[i as int]);
            }
            i += 1;
        }
        assert(events@.take(i as int) =~= events@);
        actions
    }

    /// The logic that the application drives.
    pub fn logic_ref(&self) -> (logic: &T)
        ensures
            *logic == self.logic(),
    {
        &self.logic
    }

    /// Carries out [`Action::Update`]: calls the logic's `update`, once, and
    /// nothing else. The logic afterwards is what that one call made of the
    /// logic before: an outcome that the hook's own contract allows,
    /// whatever the implementation states there.
    pub fn update(&mut self)
        ensures
            final(self).phase() == old(self).phase(),
            final(self).name() == old(self).name(),
            exists|hook: &mut T|
                *hook == old(self).logic() && *final(hook) == final(self).logic()
                    && #[trigger] call_ensures(T::update, (hook,), ()),
    {
        self.logic.update();
    }

    /// Carries out [`Action::Render`]: calls the logic's `render` with
    /// `window`, once, and nothing else. The logic afterwards is what that
    /// one call made of the logic before.
    pub fn render(&mut self, window: &Window)
        ensures
            final(self).phase() == old(self).phase(),
            final(self).name() == old(self).name(),
            exists|hook: &mut T|
                *hook == old(self).logic() && *final(hook) == final(self).logic()
                    && #[trigger] call_ensures(T::render, (hook, window), ()),
    {
        self.logic.render(window);
    }
}

/// Counting over a concatenation is adding the counts.
pub proof fn lemma_count_concat(left: Seq<Action>, right: Seq<Action>, action: Action)
    ensures
        count(left + right, action) == count(left, action) + count(right, action),
    decreases right.len(),
{
    if right.len() == 0 {
        assert(left + right =~= left);
    } else {
        lemma_count_concat(left, right.drop_last(), action);
        assert((left + right).drop_last() =~= left + right.drop_last());
        assert((left + right).last() == right.last());
    }
}

/// Events that arrive one after another act as the first run followed by
/// the second run from the phase that the first one reached.
pub proof fn lemma_events_concat(phase: Phase, first: Seq<Event>, second: Seq<Event>)
    ensures
        phase_after(phase, first + second) == phase_after(phase_after(phase, first), second),
        trace(phase, first + second) == trace(phase, first) + trace(
            phase_after(phase, first),
            second,
        ),
    decreases second.len(),
{
    if second.len() == 0 {
        assert(first + second =~= first);
        assert(trace(phase, first) + Seq::<Action>::empty() =~= trace(phase, first));
    } else {
        lemma_events_concat(phase, first, second.drop_last());
        assert((first + second).drop_last() =~= first + second.drop_last());
        assert((first + second).last() == second.last());
        let mid = phase_after(phase, first);
        assert(trace(phase, first + second) =~= trace(phase, first) + trace(mid, second));
    }
}

/// A redraw request that arrives in the active phase is answered by one
/// `update`, then one `render`, then the request for another redraw; no
/// other event in any phase calls either hook.
pub proof fn law_frame_is_update_then_render(phase: Phase, event: Event)
    ensures
        phase == Phase::Active && event == Event::Window(WindowEvent::RedrawRequested)
            ==> reaction(phase, event) == seq![
            Action::Update,
            Action::Render,
            Action::RequestRedraw,
        ],
        !(phase == Phase::Active && event == Event::Window(WindowEvent::RedrawRequested))
            ==> forall|i: int|
            0 <= i < reaction(phase, event).len() ==> reaction(phase, event)[i] != Action::Update
                && reaction(phase, event)[i] != Action::Render,
        count(reaction(phase, event), Action::Update) == count(
            reaction(phase, event),
            Action::Render,
        ),
        count(reaction(phase, event), Action::Update) == if phase == Phase::Active && event
            == Event::Window(WindowEvent::RedrawRequested) {
            1nat
        } else {
            0nat
        },
{
    let r = reaction(phase, event);
    lemma_count_small(r, Action::Update);
    lemma_count_small(r, Action::Render);
}

/// The count of a sequence of at most three actions, written out.
proof fn lemma_count_small(actions: Seq<Action>, action: Action)
    requires
        actions.len() <= 3,
    ensures
        count(actions, action) == (if actions.len() > 0 && actions[0] == action {
            1nat
        } else {
            0nat
        }) + (if actions.len() > 1 && actions[1] == action {
            1nat
        } else {
            0nat
        }) + (if actions.len() > 2 && actions[2] == action {
            1nat
        } else {
            0nat
        }),
    decreases actions.len(),
{
    if actions.len() > 0 {
        lemma_count_small(actions.drop_last(), action);
    }
}

/// Over any run of events from any phase, `update` and `render` are each
/// called once for every redraw request that arrived while the
/// application was active, and never otherwise.
pub proof fn law_one_frame_per_redraw(phase: Phase, events: Seq<Event>)
    ensures
        count(trace(phase, events), Action::Update) == frames(phase, events),
        count(trace(phase, events), Action::Render) == frames(phase, events),
    decreases events.len(),
{
    if events.len() > 0 {
        let before = events.drop_last();
        let at = phase_after(phase, before);
        law_one_frame_per_redraw(phase, before);
        law_frame_is_update_then_render(at, events.last());
        lemma_count_concat(trace(phase, before), reaction(at, events.last()), Action::Update);
        lemma_count_concat(trace(phase, before), reaction(at, events.last()), Action::Render);
    }
}

/// Whether the action at place `i` of `actions` is paired as a frame asks:
/// a `render` comes directly after an `update`, and an `update` is
/// directly followed by a `render`.
pub open spec fn paired_at(actions: Seq<Action>, i: int) -> bool {
    &&& actions[i] == Action::Render ==> i > 0 && actions[i - 1] == Action::Update
    &&& actions[i] == Action::Update ==> i + 1 < actions.len() && actions[i + 1]
        == Action::Render
}

/// In any run of events, every `render` comes directly after an `update`
/// and every `update` is directly followed by a `render`.
pub proof fn law_update_precedes_render(phase: Phase, events: Seq<Event>)
    ensures
        forall|i: int|
            0 <= i < trace(phase, events).len() ==> #[trigger] paired_at(trace(phase, events), i),
    decreases events.len(),
{
    if events.len() > 0 {
        let before = events.drop_last();
        let at = phase_after(phase, before);
        law_update_precedes_render(phase, before);
        let head = trace(phase, before);
        let tail = reaction(at, events.last());
        let all = trace(phase, events);
        assert(all == head + tail);
        assert forall|i: int| 0 <= i < all.len() implies #[trigger] paired_at(all, i) by {
            if i < head.len() {
                assert(paired_at(head, i));
                assert(all[i] == head[i]);
                if i > 0 {
                    assert(all[i - 1] == head[i - 1]);
                }
                if i + 1 < head.len() {
                    assert(all[i + 1] == head[i + 1]);
                }
            } else {
                let k = i - head.len();
                assert(all[i] == tail[k]);
                if tail[k] == Action::Render {
                    assert(k == 1);
                    assert(all[i - 1] == tail[0]);
                }
                if tail[k] == Action::Update {
                    assert(k == 0);
                    assert(all[i + 1] == tail[1]);
                }
            }
        }
    }
}

/// Once terminated, the application stays terminated and does nothing,
/// whatever arrives.
pub proof fn law_terminated_is_final(events: Seq<Event>)
    ensures
        phase_after(Phase::Terminated, events) == Phase::Terminated,
        trace(Phase::Terminated, events) == Seq::<Action>::empty(),
    decreases events.len(),
{
    if events.len() > 0 {
        law_terminated_is_final(events.drop_last());
        assert(trace(Phase::Terminated, events) =~= Seq::<Action>::empty());
    }
}

/// A close request that arrives in the active phase terminates the
/// application: the loop is told to exit, and whatever arrives later adds
/// nothing, so neither hook is called again.
pub proof fn law_close_ends_all_work(phase: Phase, before: Seq<Event>, after: Seq<Event>)
    requires
        phase_after(phase, before) == Phase::Active,
    ensures
        phase_after(phase, before.push(Event::Window(WindowEvent::CloseRequested)))
            == Phase::Terminated,
        phase_after(phase, before.push(Event::Window(WindowEvent::CloseRequested)) + after)
            == Phase::Terminated,
        trace(phase, before.push(Event::Window(WindowEvent::CloseRequested)) + after) == trace(
            phase,
            before,
        ).push(Action::Exit),
        frames(phase, before.push(Event::Window(WindowEvent::CloseRequested)) + after) == frames(
            phase,
            before,
        ),
{
    let close = Event::Window(WindowEvent::CloseRequested);
    let closed = before.push(close);
    assert(closed.drop_last() =~= before);
    assert(closed.last() == close);
    assert(trace(phase, closed) =~= trace(phase, before).push(Action::Exit));
    lemma_events_concat(phase, closed, after);
    law_terminated_is_final(after);
    assert(trace(phase, closed + after) =~= trace(phase, before).push(Action::Exit));
    law_one_frame_per_redraw(phase, closed + after);
    law_one_frame_per_redraw(phase, before);
    lemma_count_concat(trace(phase, before), seq![Action::Exit], Action::Update);
    assert(trace(phase, before).push(Action::Exit) =~= trace(phase, before) + seq![Action::Exit]);
    lemma_count_small(seq![Action::Exit], Action::Update);
}

/// The graphics context is asked for only together with the window and
/// after it: the one event that creates either is the first activation.
pub proof fn law_window_before_context(phase: Phase, event: Event)
    ensures
        phase == Phase::Idle && event == Event::Resumed ==> reaction(phase, event) == seq![
            Action::CreateWindow,
            Action::CreateContext,
        ] && transition(phase, event) == Phase::Active,
        !(phase == Phase::Idle && event == Event::Resumed) ==> forall|i: int|
            0 <= i < reaction(phase, event).len() ==> reaction(phase, event)[i]
                != Action::CreateWindow && reaction(phase, event)[i] != Action::CreateContext,
{
}

} // verus!

//! The render loop: what the render thread does with each thing that
//! happens to it.
//!
//! The thread itself blocks on a channel, calls the driver and the toolkit,
//! and sends replies. It takes no decision of its own: it reports each event
//! to a [`RenderLoop`] and performs the actions that come back, in order.
//! When an action is one whose outcome matters (creating the context,
//! resizing the drawable) the thread reports the outcome as the next event.

use crate::message::{
    is_size_valid, size_valid, DisplayHandle, RenderMessage, SurfaceHandle, WindowingMessage,
};
use crate::trusted::{physical_window_size, window_size};
use crate::ui::egl::ContextError;
use slint::platform::WindowEvent;
use slint::WindowSize;
use vstd::prelude::*;

pub mod laws;

verus! {

/// A resize that the control thread asked for.
#[derive(Debug, Clone, Copy, PartialEq, Eq)]
pub struct ResizeRequest {
    /// The size asked for, in physical pixels, width first.
    pub size: (u32, u32),
    /// The token that the acknowledgement must carry.
    pub serial: u32,
}

/// Where the render loop stands.
#[derive(Debug, Clone, Copy, PartialEq, Eq)]
pub enum LoopState {
    /// Nothing has arrived yet; the thread blocks until the first message.
    AwaitingSurface,
    /// The surface was announced with this size and the graphics context is
    /// being created on it.
    CreatingContext { size: (u32, u32) },
    /// The context is up. `size` is the size of the drawable and of the
    /// rendering window; `pending` is a resize handed to the driver whose
    /// outcome is not known yet.
    Running { size: (u32, u32), pending: Option<ResizeRequest> },
    /// The loop is over and does not start again.
    Terminated,
}

/// What can happen to the render thread.
#[derive(Debug, PartialEq)]
pub enum LoopEvent {
    /// A message from the control thread arrived.
    Message(WindowingMessage),
    /// The control thread closed its end of the channel.
    Disconnected,
    /// The graphics context and the rendering window are up.
    ContextCreated,
    /// The graphics context could not be brought up.
    ContextFailed(ContextError),
    /// The driver has given the drawable the size of the request `serial`.
    ResizeApplied { serial: u32 },
    /// The driver could not resize the drawable for the request `serial`.
    ResizeFailed { serial: u32 },
    /// A frame could not be drawn or presented.
    FrameFailed,
    /// The user submitted a credential in the rendering window.
    PasswordSubmitted(String),
    /// No message is waiting.
    Drained,
    /// Timers and animations were advanced; `damaged` says whether the
    /// rendering window now has something to redraw.
    Ticked { damaged: bool },
}

/// What the render thread must do.
#[derive(Debug, PartialEq)]
pub enum RenderAction {
    /// Bring up the graphics context on these handles at this size, and the
    /// rendering window on it. Report `ContextCreated` or `ContextFailed`.
    CreateContext { display_id: DisplayHandle, surface_id: SurfaceHandle, size: (u32, u32) },
    /// Resize the drawable. Report `ResizeApplied` or `ResizeFailed` with
    /// this serial.
    ResizeSurface { size: (u32, u32), serial: u32 },
    /// Give the rendering window this size.
    SetWindowSize(WindowSize),
    /// Send this message to the control thread.
    Send(RenderMessage),
    /// Hand this event to the rendering window.
    DispatchEvent(WindowEvent),
    /// Tell the rendering window that the credential was rejected.
    ShowUnlockFailed,
    /// Advance timers and animations by one tick, without blocking, and
    /// report `Ticked`.
    Tick,
    /// Draw a frame and present it. Report `FrameFailed` if that fails.
    Redraw,
}

/// Why the render loop ended abnormally.
#[derive(Debug, PartialEq)]
pub enum RenderError {
    /// The first message did not announce the surface; it is handed back.
    UnexpectedFirstMessage(WindowingMessage),
    /// The surface was announced with a side of zero pixels.
    InvalidSize,
    /// The graphics context could not be created.
    Context(ContextError),
}

/// A size in physical pixels, width first, as the toolkit takes it.
pub open spec fn physical(size: (u32, u32)) -> WindowSize {
    physical_window_size(size.0, size.1)
}

/// One step of the loop: the state it leads to and either the actions to
/// perform, in order, or the error that ended the loop.
pub struct Transition {
    pub next: LoopState,
    pub output: Result<Seq<RenderAction>, RenderError>,
}

/// A step that changes nothing and asks for nothing.
pub open spec fn stay(s: LoopState) -> Transition {
    Transition { next: s, output: Ok(Seq::empty()) }
}

/// A step that keeps the state and asks for `actions`.
pub open spec fn act(s: LoopState, actions: Seq<RenderAction>) -> Transition {
    Transition { next: s, output: Ok(actions) }
}

/// Before the surface is known. The first message must announce it, with a
/// size that a drawable can have; any other message ends the loop at once.
pub open spec fn step_awaiting(e: LoopEvent) -> Transition {
    match e {
        LoopEvent::Message(WindowingMessage::SurfaceReady { display_id, surface_id, size }) => {
            if size_valid(size) {
                Transition {
                    next: LoopState::CreatingContext { size },
                    output: Ok(seq![RenderAction::CreateContext { display_id, surface_id, size }]),
                }
            } else {
                Transition { next: LoopState::Terminated, output: Err(RenderError::InvalidSize) }
            }
        },
        LoopEvent::Message(other) => Transition {
            next: LoopState::Terminated,
            output: Err(RenderError::UnexpectedFirstMessage(other)),
        },
        LoopEvent::Disconnected => stay(LoopState::Terminated),
        _ => stay(LoopState::AwaitingSurface),
    }
}

/// While the context is being created. Success starts the loop proper at
/// the announced size; failure is fatal.
pub open spec fn step_creating(size: (u32, u32), e: LoopEvent) -> Transition {
    match e {
        LoopEvent::ContextCreated => Transition {
            next: LoopState::Running { size, pending: None },
            output: Ok(seq![RenderAction::SetWindowSize(physical(size))]),
        },
        LoopEvent::ContextFailed(error) => Transition {
            next: LoopState::Terminated,
            output: Err(RenderError::Context(error)),
        },
        LoopEvent::Disconnected => stay(LoopState::Terminated),
        _ => stay(LoopState::CreatingContext { size }),
    }
}

/// While running.
///
/// * A resize request with a valid size goes to the driver and is
///   remembered in place of any earlier one; a request with a side of zero
///   is dropped. When the driver reports that request done, the window
///   takes the size and the acknowledgement is sent, in this order. A
///   report that names another serial is stale and is dropped. When the
///   driver reports that the resize failed, the request is forgotten and
///   nothing is sent.
/// * A window event and a rejected unlock go to the rendering window; any
///   other message is dropped.
/// * A submitted credential goes to the control thread; the loop does not
///   wait for the verdict.
/// * When no message is waiting, timers and animations are advanced, and a
///   frame is drawn only if that left something to redraw.
/// * A frame that failed is passed over: the next one tries again.
/// * A closed channel ends the loop.
pub open spec fn step_running(size: (u32, u32), pending: Option<ResizeRequest>, e: LoopEvent)
    -> Transition {
    let here = LoopState::Running { size, pending };
    match e {
        LoopEvent::Message(WindowingMessage::SurfaceResize { size: wanted, serial }) => {
            if size_valid(wanted) {
                Transition {
                    next: LoopState::Running {
                        size,
                        pending: Some(ResizeRequest { size: wanted, serial }),
                    },
                    output: Ok(seq![RenderAction::ResizeSurface { size: wanted, serial }]),
                }
            } else {
                stay(here)
            }
        },
        LoopEvent::Message(WindowingMessage::SlintWindowEvent(event)) => act(
            here,
            seq![RenderAction::DispatchEvent(event)],
        ),
        LoopEvent::Message(WindowingMessage::UnlockFailed) => act(
            here,
            seq![RenderAction::ShowUnlockFailed],
        ),
        LoopEvent::Message(_) => stay(here),
        LoopEvent::ResizeApplied { serial } => match pending {
            Some(request) if request.serial == serial => Transition {
                next: LoopState::Running { size: request.size, pending: None },
                output: Ok(
                    seq![
                        RenderAction::SetWindowSize(physical(request.size)),
                        RenderAction::Send(RenderMessage::AckResize { serial }),
                    ],
                ),
            },
            _ => stay(here),
        },
        LoopEvent::ResizeFailed { serial } => match pending {
            Some(request) if request.serial == serial => stay(
                LoopState::Running { size, pending: None },
            ),
            _ => stay(here),
        },
        LoopEvent::FrameFailed => stay(here),
        LoopEvent::ContextCreated => stay(here),
        LoopEvent::ContextFailed(_) => stay(here),
        LoopEvent::PasswordSubmitted(password) => act(
            here,
            seq![RenderAction::Send(RenderMessage::UnlockWithPassword { password })],
        ),
        LoopEvent::Drained => act(here, seq![RenderAction::Tick]),
        LoopEvent::Ticked { damaged } => if damaged {
            act(here, seq![RenderAction::Redraw])
        } else {
            stay(here)
        },
        LoopEvent::Disconnected => stay(LoopState::Terminated),
    }
}

/// The render loop's transition function.
pub open spec fn step(s: LoopState, e: LoopEvent) -> Transition {
    match s {
        LoopState::AwaitingSurface => step_awaiting(e),
        LoopState::CreatingContext { size } => step_creating(size, e),
        LoopState::Running { size, pending } => step_running(size, pending, e),
        LoopState::Terminated => stay(LoopState::Terminated),
    }
}

/// What holds of every state that the loop can reach: a drawable, once
/// asked for, has no side of zero pixels, and neither has a resize that
/// went to the driver.
pub open spec fn state_valid(s: LoopState) -> bool {
    match s {
        LoopState::AwaitingSurface => true,
        LoopState::CreatingContext { size } => size_valid(size),
        LoopState::Running { size, pending } => {
            &&& size_valid(size)
            &&& pending matches Some(request) ==> size_valid(request.size)
        },
        LoopState::Terminated => true,
    }
}

/// The render loop. It starts out waiting for the surface.
#[derive(Debug)]
pub struct RenderLoop {
    state: LoopState,
}

impl View for RenderLoop {
    type V = LoopState;

    closed spec fn view(&self) -> LoopState {
        self.state
    }
}

impl RenderLoop {
    #[verifier::type_invariant]
    spec fn valid(self) -> bool {
        state_valid(self.state)
    }

    /// A loop that waits for the surface.
    pub fn new() -> (r: RenderLoop)
        ensures
            r@ == LoopState::AwaitingSurface,
    {
        RenderLoop { state: LoopState::AwaitingSurface }
    }

    /// Where the loop stands.
    pub fn state(&self) -> (s: LoopState)
        ensures
            s == self@,
            state_valid(s),
    {
        proof {
            use_type_invariant(self);
        }
        self.state
    }

    /// Whether the loop is over.
    pub fn is_terminated(&self) -> (b: bool)
        ensures
            b == (self@ is Terminated),
    {
        match self.state {
            LoopState::Terminated => true,
            _ => false,
        }
    }

    /// Takes one event and returns the actions to perform, in order. An
    /// error ends the loop: the thread has nothing to fall back on.
    pub fn handle(&mut self, event: LoopEvent) -> (r: Result<Vec<RenderAction>, RenderError>)
        ensures
            final(self)@ == step(old(self)@, event).next,
            match step(old(self)@, event).output {
                Ok(actions) => r matches Ok(v) && v@ == actions,
                Err(error) => r matches Err(e) && e == error,
            },
    {
        proof {
            use_type_invariant(&*self);
        }
        match self.state {
            LoopState::AwaitingSurface => self.handle_awaiting(event),
            LoopState::CreatingContext { size } => self.handle_creating(size, event),
            LoopState::Running { size, pending } => self.handle_running(size, pending, event),
            LoopState::Terminated => Ok(Vec::new()),
        }
    }

    fn handle_awaiting(&mut self, event: LoopEvent) -> (r: Result<Vec<RenderAction>, RenderError>)
        requires
            old(self)@ == LoopState::AwaitingSurface,
        ensures
            final(self)@ == step_awaiting(event).next,
            match step_awaiting(event).output {
                Ok(actions) => r matches Ok(v) && v@ == actions,
                Err(error) => r matches Err(e) && e == error,
            },
    {
        match event {
            LoopEvent::Message(WindowingMessage::SurfaceReady { display_id, surface_id, size }) => {
                if is_size_valid(size) {
                    self.state = LoopState::CreatingContext { size };
                    let create = RenderAction::CreateContext { display_id, surface_id, size };
                    let actions = vec![create];
                    Ok(actions)
                } else {
                    self.state = LoopState::Terminated;
                    Err(RenderError::InvalidSize)
                }
            },
            LoopEvent::Message(other) => {
                self.state = LoopState::Terminated;
                Err(RenderError::UnexpectedFirstMessage(other))
            },
            LoopEvent::Disconnected => {
                self.state = LoopState::Terminated;
                Ok(Vec::new())
            },
            _ => Ok(Vec::new()),
        }
    }

    fn handle_creating(&mut self, size: (u32, u32), event: LoopEvent) -> (r: Result<
        Vec<RenderAction>,
        RenderError,
    >)
        requires
            old(self)@ == (LoopState::CreatingContext { size }),
            size_valid(size),
        ensures
            final(self)@ == step_creating(size, event).next,
            match step_creating(size, event).output {
                Ok(actions) => r matches Ok(v) && v@ == actions,
                Err(error) => r matches Err(e) && e == error,
            },
    {
        match event {
            LoopEvent::ContextCreated => {
                self.state = LoopState::Running { size, pending: None };
                let window = window_size(size.0, size.1);
                let actions = vec![RenderAction::SetWindowSize(window)];
                Ok(actions)
            },
            LoopEvent::ContextFailed(error) => {
                self.state = LoopState::Terminated;
                Err(RenderError::Context(error))
            },
            LoopEvent::Disconnected => {
                self.state = LoopState::Terminated;
                Ok(Vec::new())
            },
            _ => Ok(Vec::new()),
        }
    }

    fn handle_running(
        &mut self,
        size: (u32, u32),
        pending: Option<ResizeRequest>,
        event: LoopEvent,
    ) -> (r: Result<Vec<RenderAction>, RenderError>)
        requires
            old(self)@ == (LoopState::Running { size, pending }),
            state_valid(old(self)@),
        ensures
            final(self)@ == step_running(size, pending, event).next,
            match step_running(size, pending, event).output {
                Ok(actions) => r matches Ok(v) && v@ == actions,
                Err(error) => r matches Err(e) && e == error,
            },
    {
        let mut actions: Vec<RenderAction> = Vec::new();
        match event {
            LoopEvent::Message(WindowingMessage::SurfaceResize { size: wanted, serial }) => {
                if is_size_valid(wanted) {
                    self.state = LoopState::Running {
                        size,
                        pending: Some(ResizeRequest { size: wanted, serial }),
                    };
                    actions.push(RenderAction::ResizeSurface { size: wanted, serial });
                }
            },
            LoopEvent::Message(WindowingMessage::SlintWindowEvent(event)) => {
                actions.push(RenderAction::DispatchEvent(event));
            },
            LoopEvent::Message(WindowingMessage::UnlockFailed) => {
                actions.push(RenderAction::ShowUnlockFailed);
            },
            LoopEvent::Message(_) => {},
            LoopEvent::ResizeApplied { serial } => {
                if let Some(request) = pending {
                    if request.serial == serial {
                        self.state = LoopState::Running { size: request.size, pending: None };
                        let window = window_size(request.size.0, request.size.1);
                        actions.push(RenderAction::SetWindowSize(window));
                        actions.push(RenderAction::Send(RenderMessage::AckResize { serial }));
                    }
                }
            },
            LoopEvent::ResizeFailed { serial } => {
                if let Some(request) = pending {
                    if request.serial == serial {
                        self.state = LoopState::Running { size, pending: None };
                    }
                }
            },
            LoopEvent::FrameFailed => {},
            LoopEvent::ContextCreated => {},
            LoopEvent::ContextFailed(_) => {},
            LoopEvent::PasswordSubmitted(password) => {
                actions.push(RenderAction::Send(RenderMessage::UnlockWithPassword { password }));
            },
            LoopEvent::Drained => {
                actions.push(RenderAction::Tick);
            },
            LoopEvent::Ticked { damaged } => {
                if damaged {
                    actions.push(RenderAction::Redraw);
                }
            },
            LoopEvent::Disconnected => {
                self.state = LoopState::Terminated;
            },
        }
        Ok(actions)
    }
}

/// The actions that a step asks for; none when it ended the loop.
pub open spec fn actions_of(t: Transition) -> Seq<RenderAction> {
    match t.output {
        Ok(actions) => actions,
        Err(_) => Seq::empty(),
    }
}

/// The state that `events`, handled in order, lead to from `s`.
pub open spec fn state_after(s: LoopState, events: Seq<LoopEvent>) -> LoopState
    decreases events.len(),
{
    if events.len() == 0 {
        s
    } else {
        state_after(step(s, events.first()).next, events.drop_first())
    }
}

/// All the actions asked for while `events` are handled in order from `s`.
pub open spec fn actions_during(s: LoopState, events: Seq<LoopEvent>) -> Seq<RenderAction>
    decreases events.len(),
{
    if events.len() == 0 {
        Seq::empty()
    } else {
        let t = step(s, events.first());
        actions_of(t) + actions_during(t.next, events.drop_first())
    }
}

/// The error that ends the loop while `events` are handled in order from
/// `s`, if one does.
pub open spec fn error_during(s: LoopState, events: Seq<LoopEvent>) -> Option<RenderError>
    decreases events.len(),
{
    if events.len() == 0 {
        None
    } else {
        let t = step(s, events.first());
        match t.output {
            Err(error) => Some(error),
            Ok(_) => error_during(t.next, events.drop_first()),
        }
    }
}

/// A loop that is over stays over whatever happens, asks for nothing and
/// fails no more.
pub proof fn lemma_nothing_happens_after_the_end(events: Seq<LoopEvent>)
    ensures
        state_after(LoopState::Terminated, events) == LoopState::Terminated,
        actions_during(LoopState::Terminated, events) == Seq::<RenderAction>::empty(),
        error_during(LoopState::Terminated, events) is None,
    decreases events.len(),
{
    if events.len() > 0 {
        lemma_nothing_happens_after_the_end(events.drop_first());
    }
}

/// Handling one more event after `events` is one more step from where
/// `events` led.
pub proof fn lemma_one_more_event(s: LoopState, events: Seq<LoopEvent>, e: LoopEvent)
    ensures
        state_after(s, events.push(e)) == step(state_after(s, events), e).next,
        actions_during(s, events.push(e)) == actions_during(s, events) + actions_of(
            step(state_after(s, events), e),
        ),
        error_during(s, events.push(e)) == match error_during(s, events) {
            Some(error) => Some(error),
            None => match step(state_after(s, events), e).output {
                Err(error) => Some(error),
                Ok(_) => None,
            },
        },
        error_during(s, events) is Some ==> state_after(s, events) == LoopState::Terminated,
    decreases events.len(),
{
    let more = events.push(e);
    if events.len() == 0 {
        let t = step(s, e);
        let none = Seq::<LoopEvent>::empty();
        assert(more.drop_first() =~= none);
        assert(state_after(t.next, none) == t.next);
        assert(actions_during(t.next, none) =~= Seq::<RenderAction>::empty());
        assert(error_during(t.next, none) is None);
    } else {
        let t = step(s, events.first());
        assert(more.drop_first() =~= events.drop_first().push(e));
        lemma_one_more_event(t.next, events.drop_first(), e);
        if t.output is Err {
            lemma_nothing_happens_after_the_end(events.drop_first());
            lemma_nothing_happens_after_the_end(more.drop_first());
        }
    }
}

/// What a render thread does from its start when `events` happen to it.
#[derive(Debug, PartialEq)]
pub struct Run {
    /// Where the loop stands in the end.
    pub state: LoopState,
    /// Everything the thread must do, in order.
    pub actions: Vec<RenderAction>,
    /// The error that ended the loop, if one did.
    pub error: Option<RenderError>,
}

/// Runs a render loop from its start over `events`: the messages from the
/// control thread and whatever else happens to the thread, in the order in
/// which it happens. Returns all that the thread must do about it.
pub fn render_thread(events: Vec<LoopEvent>) -> (run: Run)
    ensures
        run.state == state_after(LoopState::AwaitingSurface, events@),
        run.actions@ == actions_during(LoopState::AwaitingSurface, events@),
        run.error == error_during(LoopState::AwaitingSurface, events@),
{
    let mut render_loop = RenderLoop::new();
    let mut actions: Vec<RenderAction> = Vec::new();
    let mut error: Option<RenderError> = None;
    let ghost start = LoopState::AwaitingSurface;
    let ghost all = events@;
    for event in it: events.into_iter()
        invariant
            it.seq() == all,
            render_loop@ == state_after(start, all.take(it.index() as int)),
            actions@ == actions_during(start, all.take(it.index() as int)),
            error == error_during(start, all.take(it.index() as int)),
    {
        proof {
            let done = all.take(it.index() as int);
            lemma_one_more_event(start, done, event);
            assert(all.take(it.index() as int + 1) =~= done.push(event));
        }
        match render_loop.handle(event) {
            Ok(mut asked) => {
                actions.append(&mut asked);
            },
            Err(ended) => {
                error = Some(ended);
            },
        }
    }
    proof {
        assert(all.take(all.len() as int) =~= all);
    }
    Run { state: render_loop.state(), actions, error }
}

} // verus!

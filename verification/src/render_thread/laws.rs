//! What holds of the render loop, whatever happens to it.

use crate::message::{size_valid, RenderMessage, WindowingMessage};
use crate::render_thread::{
    act, actions_during, actions_of, lemma_nothing_happens_after_the_end, physical, state_after,
    state_valid, stay, step, LoopEvent, LoopState, RenderAction, RenderError, ResizeRequest,
    Transition,
};
use vstd::prelude::*;

verus! {

/// An acknowledgement as the control thread gets it, together with the size
/// that the drawable has at the moment it is sent.
pub struct Ack {
    pub serial: u32,
    pub size: (u32, u32),
}

/// The size of the drawable; `(0, 0)` while there is none.
pub open spec fn drawable_size(s: LoopState) -> (u32, u32) {
    match s {
        LoopState::Running { size, .. } => size,
        _ => (0, 0),
    }
}

/// The acknowledgement that a step sends, if it sends one.
pub open spec fn ack_of(t: Transition) -> Option<Ack> {
    let actions = actions_of(t);
    if exists|i: int| 0 <= i < actions.len() && is_ack(#[trigger] actions[i]) {
        let i = choose|i: int| 0 <= i < actions.len() && is_ack(#[trigger] actions[i]);
        Some(Ack { serial: acked_serial(actions[i]), size: drawable_size(t.next) })
    } else {
        None
    }
}

/// Whether an action sends a resize acknowledgement.
pub open spec fn is_ack(a: RenderAction) -> bool {
    a matches RenderAction::Send(RenderMessage::AckResize { .. })
}

/// The serial that an acknowledgement carries.
pub open spec fn acked_serial(a: RenderAction) -> u32
    recommends
        is_ack(a),
{
    match a {
        RenderAction::Send(RenderMessage::AckResize { serial }) => serial,
        _ => 0,
    }
}

/// The acknowledgements sent while `events` are handled in order from `s`.
pub open spec fn ack_trace(s: LoopState, events: Seq<LoopEvent>) -> Seq<Ack>
    decreases events.len(),
{
    if events.len() == 0 {
        Seq::empty()
    } else {
        let t = step(s, events.first());
        let rest = ack_trace(t.next, events.drop_first());
        match ack_of(t) {
            Some(ack) => seq![ack] + rest,
            None => rest,
        }
    }
}

/// The events of a burst of resizes: each request as it arrives, followed
/// by the driver's report that it was applied.
pub open spec fn resize_events(requests: Seq<ResizeRequest>) -> Seq<LoopEvent>
    decreases requests.len(),
{
    if requests.len() == 0 {
        Seq::empty()
    } else {
        seq![
            LoopEvent::Message(
                WindowingMessage::SurfaceResize {
                    size: requests.first().size,
                    serial: requests.first().serial,
                },
            ),
            LoopEvent::ResizeApplied { serial: requests.first().serial },
        ] + resize_events(requests.drop_first())
    }
}

/// The acknowledgement owed to a request.
pub open spec fn ack_for(request: ResizeRequest) -> Ack {
    Ack { serial: request.serial, size: request.size }
}

/// No step leaves the valid states.
pub proof fn lemma_step_preserves_validity(s: LoopState, e: LoopEvent)
    requires
        state_valid(s),
    ensures
        state_valid(step(s, e).next),
{
}

/// A step sends at most one acknowledgement, and sends it only when the
/// driver has reported a resize done: it carries the serial of that resize,
/// and the drawable has the size of that resize as it is sent.
pub proof fn lemma_ack_only_when_applied(s: LoopState, e: LoopEvent)
    ensures
        match ack_of(step(s, e)) {
            Some(ack) => {
                &&& s matches LoopState::Running { pending: Some(request), .. }
                &&& e == LoopEvent::ResizeApplied { serial: request.serial }
                &&& ack == ack_for(request)
                &&& step(s, e).next == (LoopState::Running { size: request.size, pending: None })
                &&& actions_of(step(s, e)) == seq![
                    RenderAction::SetWindowSize(physical(request.size)),
                    RenderAction::Send(RenderMessage::AckResize { serial: request.serial }),
                ]
            },
            None => forall|i: int|
                0 <= i < actions_of(step(s, e)).len() ==> !is_ack(
                    #[trigger] actions_of(step(s, e))[i],
                ),
        },
{
    let actions = actions_of(step(s, e));
    if ack_of(step(s, e)) is Some {
        // The step sends an acknowledgement: look at the action that does.
        let i = choose|i: int| 0 <= i < actions.len() && is_ack(#[trigger] actions[i]);
        assert(is_ack(actions[i]));
    }
}

/// One resize from request to acknowledgement: the request goes to the
/// driver as it is; once applied, the window takes the size and the
/// acknowledgement with the request's serial is sent.
pub proof fn lemma_resize_round(s: LoopState, request: ResizeRequest)
    requires
        s is Running,
        size_valid(request.size),
    ensures
        ({
            let asked = step(
                s,
                LoopEvent::Message(
                    WindowingMessage::SurfaceResize { size: request.size, serial: request.serial },
                ),
            );
            let done = step(asked.next, LoopEvent::ResizeApplied { serial: request.serial });
            &&& asked.output == Ok::<Seq<RenderAction>, RenderError>(
                seq![RenderAction::ResizeSurface { size: request.size, serial: request.serial }],
            )
            &&& ack_of(asked) is None
            &&& done.output == Ok::<Seq<RenderAction>, RenderError>(
                seq![
                    RenderAction::SetWindowSize(physical(request.size)),
                    RenderAction::Send(RenderMessage::AckResize { serial: request.serial }),
                ],
            )
            &&& ack_of(done) == Some(ack_for(request))
            &&& done.next == (LoopState::Running { size: request.size, pending: None })
        }),
{
    let asked = step(
        s,
        LoopEvent::Message(
            WindowingMessage::SurfaceResize { size: request.size, serial: request.serial },
        ),
    );
    let done = step(asked.next, LoopEvent::ResizeApplied { serial: request.serial });
    lemma_ack_only_when_applied(
        s,
        LoopEvent::Message(
            WindowingMessage::SurfaceResize { size: request.size, serial: request.serial },
        ),
    );
    lemma_ack_only_when_applied(asked.next, LoopEvent::ResizeApplied { serial: request.serial });
}

/// For any burst of resize requests with valid sizes, each applied before
/// the next is taken up, the acknowledgements go out one per request and in
/// the order of the requests, each carrying its request's serial while the
/// drawable has its request's size. It holds whatever the serials are, so
/// in particular when they increase.
pub proof fn lemma_acks_follow_requests(s: LoopState, requests: Seq<ResizeRequest>)
    requires
        s is Running,
        forall|i: int| 0 <= i < requests.len() ==> size_valid(#[trigger] requests[i].size),
    ensures
        ack_trace(s, resize_events(requests)) == requests.map_values(
            |request: ResizeRequest| ack_for(request),
        ),
        requests.len() > 0 ==> state_after(s, resize_events(requests)) == (LoopState::Running {
            size: requests.last().size,
            pending: None,
        }),
        requests.len() == 0 ==> state_after(s, resize_events(requests)) == s,
    decreases requests.len(),
{
    if requests.len() > 0 {
        let request = requests.first();
        let rest = requests.drop_first();
        let message = LoopEvent::Message(
            WindowingMessage::SurfaceResize { size: request.size, serial: request.serial },
        );
        let events = resize_events(requests);
        let asked = step(s, message);
        let applied = LoopEvent::ResizeApplied { serial: request.serial };
        let done = step(asked.next, applied);
        lemma_resize_round(s, request);
        assert(events.drop_first().drop_first() =~= resize_events(rest));
        assert forall|i: int| 0 <= i < rest.len() implies size_valid(#[trigger] rest[i].size) by {
            assert(rest[i] == requests[i + 1]);
        }
        lemma_acks_follow_requests(done.next, rest);
        assert(ack_trace(asked.next, events.drop_first()) == seq![ack_for(request)] + ack_trace(
            done.next,
            resize_events(rest),
        ));
        assert(state_after(asked.next, events.drop_first()) == state_after(
            done.next,
            resize_events(rest),
        ));
        if rest.len() > 0 {
            assert(rest.last() == requests.last());
        }
    }
}

/// `a` can be had from `b` by leaving elements out.
pub open spec fn is_subsequence<A>(a: Seq<A>, b: Seq<A>) -> bool
    decreases b.len(),
{
    if a.len() == 0 {
        true
    } else if b.len() == 0 {
        false
    } else if a.first() == b.first() {
        is_subsequence(a.drop_first(), b.drop_first()) || is_subsequence(a, b.drop_first())
    } else {
        is_subsequence(a, b.drop_first())
    }
}

/// The resize requests with a valid size among `events`, in the order in
/// which they arrive.
pub open spec fn requests_in(events: Seq<LoopEvent>) -> Seq<ResizeRequest>
    decreases events.len(),
{
    if events.len() == 0 {
        Seq::empty()
    } else {
        let rest = requests_in(events.drop_first());
        match events.first() {
            LoopEvent::Message(WindowingMessage::SurfaceResize { size, serial }) => {
                if size_valid(size) {
                    seq![ResizeRequest { size, serial }] + rest
                } else {
                    rest
                }
            },
            _ => rest,
        }
    }
}

/// The request that the driver is working on, if there is one.
pub open spec fn outstanding(s: LoopState) -> Seq<ResizeRequest> {
    match s {
        LoopState::Running { pending: Some(request), .. } => seq![request],
        _ => Seq::empty(),
    }
}

/// The acknowledgements that can be owed while `events` are handled from
/// `s`: one for the request outstanding at the start and one for each
/// request that arrives, in this order.
pub open spec fn acks_owed(s: LoopState, events: Seq<LoopEvent>) -> Seq<Ack> {
    (outstanding(s) + requests_in(events)).map_values(|request: ResizeRequest| ack_for(request))
}

/// What can be had from a sequence can be had from a longer one.
pub proof fn lemma_subsequence_of_longer<A>(a: Seq<A>, x: A, b: Seq<A>)
    requires
        is_subsequence(a, b),
    ensures
        is_subsequence(a, seq![x] + b),
{
    let longer = seq![x] + b;
    assert(longer.drop_first() =~= b);
}

/// Whatever happens to the loop and in whatever order, the
/// acknowledgements it sends follow the order of the requests: each
/// answers a request that arrived before it and after every request
/// answered earlier, with that request's serial and while the drawable has
/// that request's size. No request is answered twice, none is answered
/// that did not arrive, and a later one is never answered before an
/// earlier one.
pub proof fn lemma_acks_keep_request_order(s: LoopState, events: Seq<LoopEvent>)
    ensures
        is_subsequence(ack_trace(s, events), acks_owed(s, events)),
    decreases events.len(),
{
    let owed = acks_owed(s, events);
    if events.len() > 0 {
        let e = events.first();
        let rest = events.drop_first();
        let t = step(s, e);
        let owed_later = acks_owed(t.next, rest);
        lemma_acks_keep_request_order(t.next, rest);
        lemma_ack_only_when_applied(s, e);
        match ack_of(t) {
            Some(ack) => {
                // The acknowledgement sent at this step is the first one owed.
                assert(ack_trace(s, events).drop_first() =~= ack_trace(t.next, rest));
                assert(owed.drop_first() =~= owed_later);
            },
            None => {
                // Nothing is sent at this step, and what is owed later is what
                // is owed now, but for a request that this step set aside.
                let now = outstanding(s) + requests_in(events);
                let later = outstanding(t.next) + requests_in(rest);
                if !(now =~= later) {
                    assert(now =~= seq![now[0]] + later);
                    assert(owed =~= seq![ack_for(now[0])] + owed_later);
                    lemma_subsequence_of_longer(
                        ack_trace(t.next, rest),
                        ack_for(now[0]),
                        owed_later,
                    );
                }
            },
        }
    }
}

/// A first message that does not announce the surface ends the loop at
/// once. No graphics context is asked for, neither at that step nor at any
/// later one, and the loop keeps nothing of what it was handed.
pub proof fn lemma_first_message_must_announce_surface(
    first: WindowingMessage,
    later: Seq<LoopEvent>,
)
    requires
        !(first is SurfaceReady),
    ensures
        step(LoopState::AwaitingSurface, LoopEvent::Message(first)) == (Transition {
            next: LoopState::Terminated,
            output: Err(RenderError::UnexpectedFirstMessage(first)),
        }),
        state_after(LoopState::Terminated, later) == LoopState::Terminated,
        actions_during(LoopState::Terminated, later) == Seq::<RenderAction>::empty(),
{
    lemma_nothing_happens_after_the_end(later);
}

/// A report on a resize counts only if it names the request that is
/// pending. Any other is stale: it is dropped, nothing is sent and nothing
/// changes.
pub proof fn lemma_stale_report_is_dropped(s: LoopState, serial: u32)
    requires
        s matches LoopState::Running { pending, .. } ==> (pending matches Some(request)
            ==> request.serial != serial),
    ensures
        step(s, LoopEvent::ResizeApplied { serial }) == stay(s),
        step(s, LoopEvent::ResizeFailed { serial }) == stay(s),
{
}

/// A failure of the driver while the loop runs never ends it and never
/// produces an acknowledgement: a resize that failed is forgotten, a frame
/// that failed is passed over.
pub proof fn lemma_failures_while_running_are_transient(
    size: (u32, u32),
    pending: Option<ResizeRequest>,
    serial: u32,
)
    ensures
        step(LoopState::Running { size, pending }, LoopEvent::FrameFailed) == stay(
            LoopState::Running { size, pending },
        ),
        step(LoopState::Running { size, pending }, LoopEvent::ResizeFailed { serial }).next
            is Running,
        step(LoopState::Running { size, pending }, LoopEvent::ResizeFailed { serial }).output
            == Ok::<Seq<RenderAction>, RenderError>(Seq::empty()),
        pending matches Some(request) && request.serial == serial ==> step(
            LoopState::Running { size, pending },
            LoopEvent::ResizeFailed { serial },
        ).next == (LoopState::Running { size, pending: None }),
{
}

/// A resize request with a side of zero pixels is dropped where it
/// arrives: no action is asked for, so nothing of it reaches the graphics
/// context, and a running loop stays exactly as it was.
pub proof fn lemma_zero_size_resize_is_dropped(s: LoopState, size: (u32, u32), serial: u32)
    requires
        size.0 == 0 || size.1 == 0,
    ensures
        actions_of(step(s, LoopEvent::Message(WindowingMessage::SurfaceResize { size, serial })))
            == Seq::<RenderAction>::empty(),
        s is Running ==> step(
            s,
            LoopEvent::Message(WindowingMessage::SurfaceResize { size, serial }),
        ) == stay(s),
{
}

/// Whatever the event, a size that the loop hands on for a drawable has no
/// side of zero pixels.
pub proof fn lemma_sizes_handed_on_are_valid(s: LoopState, e: LoopEvent, i: int)
    requires
        state_valid(s),
        0 <= i < actions_of(step(s, e)).len(),
    ensures
        match actions_of(step(s, e))[i] {
            RenderAction::CreateContext { size, .. } => size_valid(size),
            RenderAction::ResizeSurface { size, .. } => size_valid(size),
            RenderAction::SetWindowSize(size) => exists|valid: (u32, u32)|
                size_valid(valid) && size == #[trigger] physical(valid),
            _ => true,
        },
{
}

/// A rejected unlock reaches the rendering window and leaves the loop as
/// it was, ready for the next message; a submitted credential is sent on
/// and the loop does not wait for the verdict.
pub proof fn lemma_unlock_does_not_stall(s: LoopState, password: String)
    requires
        s is Running,
    ensures
        step(s, LoopEvent::PasswordSubmitted(password)) == act(
            s,
            seq![RenderAction::Send(RenderMessage::UnlockWithPassword { password })],
        ),
        step(s, LoopEvent::Message(WindowingMessage::UnlockFailed)) == act(
            s,
            seq![RenderAction::ShowUnlockFailed],
        ),
{
}

/// A loop that is over stays over and asks for nothing.
pub proof fn lemma_terminated_is_final(e: LoopEvent)
    ensures
        step(LoopState::Terminated, e) == stay(LoopState::Terminated),
{
}

} // verus!

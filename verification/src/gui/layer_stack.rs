//! A stack of panels, and the routing of events to its layers.

use super::bus::{share, Bus, Provenance};
use super::dispatch::Step;
use super::event::{PanelEvent, Route};
use super::identity::{Identity, IdentitySource};
use async_event_streams::{EventStream, SentEvent};
use vstd::prelude::*;

verus! {

/// The layers that an event is for, in the order in which they get it.
/// `layers` lists a stack from the topmost layer down.
pub open spec fn targets(layers: Seq<Identity>, event: PanelEvent) -> Seq<Identity> {
    match event.route() {
        Route::AllLayers => layers,
        Route::TopLayer => if layers.len() > 0 {
            seq![layers[0]]
        } else {
            Seq::empty()
        },
    }
}

/// What a stack does first when an event comes with a new size: it gives
/// that size to its own frame.
pub open spec fn resizing(event: PanelEvent) -> Seq<Step> {
    match event.new_size() {
        Some(size) => seq![Step::Resize(size)],
        None => Seq::empty(),
    }
}

/// One delivery for each of `panels`, in their order.
pub open spec fn deliveries(panels: Seq<Identity>) -> Seq<Step> {
    panels.map_values(|panel: Identity| Step::Deliver(panel))
}

/// Everything a stack with these layers does about an event if nothing
/// fails: it takes the new size if there is one, delivers the event to the
/// layers it is for, and puts it on its own outward stream.
pub open spec fn plan(layers: Seq<Identity>, event: PanelEvent) -> Seq<Step> {
    resizing(event) + deliveries(targets(layers, event)) + seq![Step::Emitted]
}

/// The layers of a stack once `panel` has been pushed: it is the topmost.
pub open spec fn pushed(layers: Seq<Identity>, panel: Identity) -> Seq<Identity> {
    seq![panel] + layers
}

/// Whether `at` is where `panel` first occurs among `layers`, counted from
/// the topmost layer.
pub open spec fn is_first_position(layers: Seq<Identity>, panel: Identity, at: int) -> bool {
    &&& 0 <= at < layers.len()
    &&& layers[at] == panel
    &&& forall|above: int| 0 <= above < at ==> layers[above] != panel
}

/// The course of a stack's dispatch: what it set out to do and how much of
/// it has been issued.
pub struct StackCourse {
    pub event: PanelEvent,
    pub plan: Seq<Step>,
    pub issued: nat,
    pub failed: bool,
}

impl StackCourse {
    /// The course of a dispatch that has just begun on these layers.
    pub open spec fn begin(layers: Seq<Identity>, event: PanelEvent) -> StackCourse {
        StackCourse { event, plan: plan(layers, event), issued: 0, failed: false }
    }

    /// The step that is issued next.
    pub open spec fn pending(self) -> Step {
        if self.failed {
            Step::Abort
        } else if self.issued < self.plan.len() {
            self.plan[self.issued as int]
        } else {
            Step::Complete
        }
    }

    /// The course once the pending step has been issued.
    pub open spec fn advanced(self) -> StackCourse {
        if !self.failed && self.issued < self.plan.len() {
            StackCourse { issued: self.issued + 1, ..self }
        } else {
            self
        }
    }

    /// The course once the driver has reported a failure.
    pub open spec fn fail(self) -> StackCourse {
        StackCourse { failed: true, ..self }
    }

    /// The steps that are issued from here on, the last one included, when
    /// the driver reports a failure of the step issued `fail_at` steps from
    /// now (counting from 0) and of no other. With a negative `fail_at`
    /// nothing fails.
    pub open spec fn trace(self, fail_at: int) -> Seq<Step>
        decreases self.plan.len() - self.issued,
    {
        let step = self.pending();
        if step.is_last() {
            seq![step]
        } else {
            let then = if fail_at == 0 {
                self.advanced().fail()
            } else {
                self.advanced()
            };
            seq![step] + then.trace(fail_at - 1)
        }
    }
}

/// One dispatch of a panel event by a [`LayerStack`]. It works on the layers
/// that the stack had when the dispatch began.
pub struct StackDispatch<E> {
    event: PanelEvent,
    source: Provenance,
    plan: Vec<Step>,
    issued: usize,
    failure: Option<E>,
}

impl<E> View for StackDispatch<E> {
    type V = StackCourse;

    closed spec fn view(&self) -> StackCourse {
        StackCourse {
            event: self.event,
            plan: self.plan@,
            issued: self.issued as nat,
            failed: self.failure is Some,
        }
    }
}

impl<E> StackDispatch<E> {
    /// The failure that ended the dispatch, if one was reported.
    pub closed spec fn failure(&self) -> Option<E> {
        self.failure
    }

    /// The provenance that goes with everything this dispatch sends.
    pub closed spec fn source(&self) -> Provenance {
        self.source
    }

    /// Reports that the step issued last has failed, with the error it
    /// failed with. The dispatch keeps the first failure it is told of.
    pub fn fail(&mut self, error: E)
        ensures
            final(self)@ == old(self)@.fail(),
            final(self).failure() == if old(self).failure() is Some {
                old(self).failure()
            } else {
                Some(error)
            },
            final(self).source() == old(self).source(),
    {
        if self.failure.is_none() {
            self.failure = Some(error);
        }
    }

    /// Ends the dispatch: the first failure that was reported, or success.
    pub fn finish(self) -> (result: Result<(), E>)
        ensures
            result == match self.failure() {
                Some(error) => Err::<(), E>(error),
                None => Ok(()),
            },
    {
        match self.failure {
            Some(error) => Err(error),
            None => Ok(()),
        }
    }
}

/// The layers that a [`LayerStack`] starts with.
pub struct LayerStackParams {
    layers: Vec<Identity>,
}

impl View for LayerStackParams {
    type V = Seq<Identity>;

    /// The layers, from the topmost down.
    closed spec fn view(&self) -> Seq<Identity> {
        self.layers@
    }
}

impl LayerStackParams {
    /// No layers.
    pub fn new() -> (params: Self)
        ensures
            params@ == Seq::<Identity>::empty(),
    {
        LayerStackParams { layers: Vec::new() }
    }

    /// Adds a layer on top of those that are there.
    pub fn push_panel(self, panel: Identity) -> (params: Self)
        ensures
            params@ == pushed(self@, panel),
    {
        let mut layers = self.layers;
        layers.insert(0, panel);
        LayerStackParams { layers }
    }
}

/// An ordered stack of panels. The layers are listed from the topmost down:
/// the panel pushed last is the first of them.
pub struct LayerStack {
    id: Identity,
    layers: Vec<Identity>,
    panel_events: Bus<PanelEvent>,
}

impl View for LayerStack {
    type V = Seq<Identity>;

    /// The layers, from the topmost down.
    closed spec fn view(&self) -> Seq<Identity> {
        self.layers@
    }
}

impl LayerStack {
    /// The identity of the stack.
    pub closed spec fn identity(&self) -> Identity {
        self.id
    }

    /// The panel events that wait on the stack's outward stream, each with
    /// its provenance.
    pub closed spec fn emitted(&self) -> Seq<(PanelEvent, Provenance)> {
        self.panel_events.queued()
    }

    /// That the stack's outward stream was called to send `event` with
    /// `source` and gave `handle`, as [`Bus::sent`] has it.
    pub closed spec fn sent_out(
        &self,
        event: PanelEvent,
        source: Provenance,
        handle: SentEvent,
    ) -> bool {
        self.panel_events.sent(event, source, handle)
    }

    /// That the stack's outward stream was called to register a subscriber
    /// and gave `stream`, as [`Bus::subscribed`] has it.
    pub closed spec fn subscribed(&self, stream: EventStream<PanelEvent>) -> bool {
        self.panel_events.subscribed(stream)
    }

    /// A stack with these layers and an identity of its own, minted for it
    /// from `ids`, on whose outward stream nothing has been put. There is no
    /// stack if `ids` has no identity left to give.
    pub fn new(ids: &mut IdentitySource, params: LayerStackParams) -> (made: Option<Self>)
        ensures
            match made {
                Some(stack) => {
                    &&& IdentitySource::mints(*old(ids), *final(ids), stack.identity())
                    &&& stack@ == params@
                    &&& stack.emitted() == Seq::<(PanelEvent, Provenance)>::empty()
                },
                None => old(ids).exhausted() && *final(ids) == *old(ids),
            },
    {
        match ids.mint() {
            Some(id) => Some(LayerStack { id, layers: params.layers, panel_events: Bus::new() }),
            None => None,
        }
    }

    /// The identity of the stack.
    pub fn id(&self) -> (id: Identity)
        ensures
            id == self.identity(),
    {
        self.id
    }

    /// Subscribes to the panel events that the stack has routed: the stream
    /// is a new subscriber of the stack's outward stream.
    pub fn event_stream(&self) -> (stream: EventStream<PanelEvent>)
        ensures
            self.subscribed(stream),
    {
        self.panel_events.subscribe()
    }

    /// The topmost layer, if the stack has any.
    pub fn top(&self) -> (top: Option<Identity>)
        ensures
            top == if self@.len() > 0 {
                Some(self@[0])
            } else {
                None
            },
    {
        if self.layers.len() > 0 {
            Some(self.layers[0])
        } else {
            None
        }
    }

    /// The layers from the lowest up: the order in which to put them into
    /// a frame that takes each new child on top of the others.
    pub fn bottom_up(&self) -> (layers: Vec<Identity>)
        ensures
            layers@.len() == self@.len(),
            forall|i: int| 0 <= i < self@.len() ==> layers@[i] == self@[self@.len() - 1 - i],
    {
        let mut layers: Vec<Identity> = Vec::new();
        let mut left: usize = self.layers.len();
        while left > 0
            invariant
                left <= self.layers.len(),
                layers@.len() == self.layers@.len() - left,
                forall|i: int|
                    0 <= i < layers@.len() ==> layers@[i] == self.layers@[self.layers@.len() - 1
                        - i],
            decreases left,
        {
            left = left - 1;
            layers.push(self.layers[left]);
        }
        layers
    }

    /// Takes the stack apart and hands back its layers, from the topmost
    /// down, for their owner to detach.
    pub fn into_layers(self) -> (layers: Vec<Identity>)
        ensures
            layers@ == self@,
    {
        self.layers
    }

    /// The layers as they are now, from the topmost down.
    pub fn layers(&self) -> (layers: Vec<Identity>)
        ensures
            layers@ == self@,
    {
        let mut layers: Vec<Identity> = Vec::new();
        let mut i: usize = 0;
        while i < self.layers.len()
            invariant
                i <= self.layers.len(),
                layers@ == self.layers@.take(i as int),
            decreases self.layers.len() - i,
        {
            layers.push(self.layers[i]);
            assert(self.layers@.take(i + 1) == self.layers@.take(i as int).push(self.layers@[i as int]));
            i = i + 1;
        }
        assert(self.layers@.take(i as int) == self.layers@);
        layers
    }

    /// Puts a panel on top of the stack. From now on it is the one that
    /// gets what is meant for the topmost layer.
    pub fn push_panel(&mut self, panel: Identity)
        ensures
            final(self)@ == pushed(old(self)@, panel),
            final(self).identity() == old(self).identity(),
            final(self).emitted() == old(self).emitted(),
    {
        self.layers.insert(0, panel);
    }

    /// Where a panel is in the stack, counted from the topmost layer, if it
    /// is there.
    pub fn position(&self, panel: Identity) -> (found: Option<usize>)
        ensures
            match found {
                Some(at) => is_first_position(self@, panel, at as int),
                None => !self@.contains(panel),
            },
    {
        let mut i: usize = 0;
        while i < self.layers.len()
            invariant
                i <= self.layers.len(),
                forall|above: int| 0 <= above < i ==> self.layers@[above] != panel,
            decreases self.layers.len() - i,
        {
            if self.layers[i] == panel {
                return Some(i);
            }
            i = i + 1;
        }
        None
    }

    /// Takes a panel out of the stack and says where it was. The layers that
    /// remain keep their order. A panel that is not in the stack is not an
    /// error: the stack is then left as it is.
    pub fn remove_panel(&mut self, panel: Identity) -> (removed: Option<usize>)
        ensures
            match removed {
                Some(at) => is_first_position(old(self)@, panel, at as int) && final(self)@ == old(
                    self,
                )@.remove(at as int),
                None => !old(self)@.contains(panel) && final(self)@ == old(self)@,
            },
            final(self).identity() == old(self).identity(),
            final(self).emitted() == old(self).emitted(),
    {
        let found = self.position(panel);
        if let Some(index) = found {
            self.layers.remove(index);
        }
        found
    }

    /// Plans the delivery of an event to every layer, from the topmost down.
    fn translate_event_to_all_layers(&self, plan: &mut Vec<Step>)
        ensures
            final(plan)@ == old(plan)@ + deliveries(self@),
    {
        let mut i: usize = 0;
        while i < self.layers.len()
            invariant
                i <= self.layers.len(),
                plan@ == old(plan)@ + deliveries(self.layers@.take(i as int)),
            decreases self.layers.len() - i,
        {
            plan.push(Step::Deliver(self.layers[i]));
            assert(self.layers@.take(i + 1) == self.layers@.take(i as int).push(self.layers@[i as int]));
            i = i + 1;
        }
        assert(self.layers@.take(i as int) == self.layers@);
    }

    /// Plans the delivery of an event to the topmost layer, if there is one.
    fn translate_event_to_top_layer(&self, plan: &mut Vec<Step>)
        ensures
            final(plan)@ == old(plan)@ + deliveries(
                if self@.len() > 0 {
                    seq![self@[0]]
                } else {
                    Seq::empty()
                },
            ),
    {
        if self.layers.len() > 0 {
            plan.push(Step::Deliver(self.layers[0]));
        }
    }

    /// Plans what the stack does about an event.
    fn translate_event(&self, event: &PanelEvent) -> (steps: Vec<Step>)
        ensures
            steps@ == plan(self@, *event),
    {
        let mut steps: Vec<Step> = Vec::new();
        match event {
            PanelEvent::Resized(size) => {
                steps.push(Step::Resize(*size));
                self.translate_event_to_all_layers(&mut steps);
            },
            PanelEvent::MouseInput { .. } => {
                self.translate_event_to_top_layer(&mut steps);
            },
            _ => {
                self.translate_event_to_all_layers(&mut steps);
            },
        }
        steps.push(Step::Emitted);
        steps
    }

    /// Begins the dispatch of a panel event that reached the stack. The
    /// dispatch goes by the layers that the stack has now, whatever is
    /// pushed or removed while it runs.
    pub fn on_event<E>(&self, event: PanelEvent, source: Provenance) -> (dispatch: StackDispatch<E>)
        ensures
            dispatch@ == StackCourse::begin(self@, event),
            dispatch.failure() is None,
            dispatch.source() == source,
    {
        let plan = self.translate_event(&event);
        StackDispatch { event, source, plan, issued: 0, failure: None }
    }

    /// Issues the next step of a dispatch.
    ///
    /// The steps come in the order of the plan. When the step is
    /// [`Step::Emitted`], the stack has put the event on its outward stream
    /// with the provenance of the dispatch, and the handle to await comes
    /// with the step. Once a failure was reported, the step is
    /// [`Step::Abort`] and nothing else happens.
    pub fn next<E>(&mut self, dispatch: &mut StackDispatch<E>) -> (issued: (
        Step,
        Option<SentEvent>,
    ))
        ensures
            issued.0 == old(dispatch)@.pending(),
            issued.1 is Some <==> issued.0 is Emitted,
            final(dispatch)@ == old(dispatch)@.advanced(),
            final(dispatch).failure() == old(dispatch).failure(),
            final(dispatch).source() == old(dispatch).source(),
            final(self).emitted() == if issued.0 is Emitted {
                old(self).emitted().push((old(dispatch)@.event, old(dispatch).source()))
            } else {
                old(self).emitted()
            },
            issued.1 matches Some(handle) ==> final(self).sent_out(
                old(dispatch)@.event,
                old(dispatch).source(),
                handle,
            ),
            final(self)@ == old(self)@,
            final(self).identity() == old(self).identity(),
    {
        if dispatch.failure.is_some() {
            return (Step::Abort, None);
        }
        if dispatch.issued < dispatch.plan.len() {
            let step = dispatch.plan[dispatch.issued];
            dispatch.issued = dispatch.issued + 1;
            match step {
                Step::Emitted => {
                    let sent = self.panel_events.send(dispatch.event, share(&dispatch.source));
                    (step, Some(sent))
                },
                _ => (step, None),
            }
        } else {
            (Step::Complete, None)
        }
    }
}

/// No step of a stack's plan ends the dispatch: a dispatch ends after its
/// plan or by a failure.
proof fn lemma_plan_has_no_last_step(layers: Seq<Identity>, event: PanelEvent)
    ensures
        forall|i: int| 0 <= i < plan(layers, event).len() ==> !(#[trigger] plan(layers, event)[i]).is_last(),
{
}

/// The steps of a course whose plan is free of last steps: the rest of the
/// plan and completion if nothing fails, else the plan up to the failed step
/// and the abort.
proof fn lemma_trace(course: StackCourse, fail_at: int)
    requires
        !course.failed,
        course.issued <= course.plan.len(),
        forall|i: int| 0 <= i < course.plan.len() ==> !(#[trigger] course.plan[i]).is_last(),
    ensures
        (fail_at < 0 || fail_at >= course.plan.len() - course.issued) ==> course.trace(fail_at)
            == course.plan.skip(course.issued as int).push(Step::Complete),
        0 <= fail_at < course.plan.len() - course.issued ==> course.trace(fail_at)
            == course.plan.subrange(course.issued as int, course.issued + fail_at + 1).push(
            Step::Abort,
        ),
    decreases course.plan.len() - course.issued,
{
    let rest = course.plan.skip(course.issued as int);
    if course.issued < course.plan.len() {
        let step = course.plan[course.issued as int];
        let then = course.advanced();
        if fail_at == 0 {
            assert(then.fail().trace(-1) == seq![Step::Abort]);
            assert(course.trace(0) == seq![step] + seq![Step::Abort]);
            assert(course.plan.subrange(course.issued as int, course.issued as int + 1).push(Step::Abort)
                == seq![step] + seq![Step::Abort]);
        } else {
            lemma_trace(then, fail_at - 1);
            assert(course.trace(fail_at) == seq![step] + then.trace(fail_at - 1));
            if fail_at < 0 || fail_at >= course.plan.len() - course.issued {
                assert(seq![step] + course.plan.skip(then.issued as int).push(Step::Complete)
                    == rest.push(Step::Complete));
            } else {
                assert(seq![step] + course.plan.subrange(
                    then.issued as int,
                    then.issued + fail_at,
                ).push(Step::Abort) == course.plan.subrange(
                    course.issued as int,
                    course.issued + fail_at + 1,
                ).push(Step::Abort));
            }
        }
    } else {
        assert(rest.push(Step::Complete) == seq![Step::Complete]);
    }
}

/// If nothing fails, a dispatch issues its plan, step by step, and
/// completes.
pub proof fn law_dispatch_follows_plan(layers: Seq<Identity>, event: PanelEvent)
    ensures
        StackCourse::begin(layers, event).trace(-1) == plan(layers, event).push(Step::Complete),
{
    lemma_plan_has_no_last_step(layers, event);
    lemma_trace(StackCourse::begin(layers, event), -1);
    assert(plan(layers, event).skip(0) == plan(layers, event));
}

/// A dispatch stops at the first failure: when the step at `failed` of the
/// plan fails, the steps before it and that step have been issued, and the
/// only thing issued after it is the abort.
pub proof fn law_dispatch_stops_at_first_failure(
    layers: Seq<Identity>,
    event: PanelEvent,
    failed: int,
)
    requires
        0 <= failed < plan(layers, event).len(),
    ensures
        StackCourse::begin(layers, event).trace(failed) == plan(layers, event).take(
            failed + 1,
        ).push(Step::Abort),
{
    lemma_plan_has_no_last_step(layers, event);
    lemma_trace(StackCourse::begin(layers, event), failed);
}

/// An event for all layers reaches every layer, from the topmost down, after
/// the stack took the new size if the event brought one; the stack then puts
/// the event on its outward stream.
pub proof fn law_broadcast_reaches_every_layer_in_order(layers: Seq<Identity>, event: PanelEvent)
    requires
        event.route() == Route::AllLayers,
    ensures
        StackCourse::begin(layers, event).trace(-1) == resizing(event) + deliveries(layers)
            + seq![Step::Emitted, Step::Complete],
{
    law_dispatch_follows_plan(layers, event);
    assert(plan(layers, event).push(Step::Complete) == resizing(event) + deliveries(layers)
        + seq![Step::Emitted, Step::Complete]);
}

/// When the layer at `failed` fails an event for all layers, the layers
/// below it get nothing of that event, and the stack does not put it on its
/// outward stream.
pub proof fn law_failed_layer_ends_broadcast(layers: Seq<Identity>, event: PanelEvent, failed: int)
    requires
        event.route() == Route::AllLayers,
        0 <= failed < layers.len(),
    ensures
        StackCourse::begin(layers, event).trace(resizing(event).len() + failed) == resizing(event)
            + deliveries(layers.take(failed + 1)) + seq![Step::Abort],
{
    let at = resizing(event).len() + failed;
    law_dispatch_stops_at_first_failure(layers, event, at);
    assert(plan(layers, event).take(at + 1).push(Step::Abort) == resizing(event) + deliveries(
        layers.take(failed + 1),
    ) + seq![Step::Abort]);
}

/// Pointer input reaches the topmost layer and no other: there is one
/// delivery, to the first of the layers, and none if the stack is empty.
pub proof fn law_pointer_input_reaches_top_layer_only(layers: Seq<Identity>, event: PanelEvent)
    requires
        event.route() == Route::TopLayer,
    ensures
        StackCourse::begin(layers, event).trace(-1) == if layers.len() > 0 {
            seq![Step::Deliver(layers[0]), Step::Emitted, Step::Complete]
        } else {
            seq![Step::Emitted, Step::Complete]
        },
{
    law_dispatch_follows_plan(layers, event);
    if layers.len() > 0 {
        assert(plan(layers, event).push(Step::Complete) == seq![
            Step::Deliver(layers[0]),
            Step::Emitted,
            Step::Complete,
        ]);
    } else {
        assert(plan(layers, event).push(Step::Complete) == seq![Step::Emitted, Step::Complete]);
    }
}

/// The panel pushed last is the topmost: after three pushes the layers are
/// the third, the second, the first, and below them what was there before.
pub proof fn law_last_pushed_is_topmost(
    layers: Seq<Identity>,
    first: Identity,
    second: Identity,
    third: Identity,
)
    ensures
        pushed(pushed(pushed(layers, first), second), third) == seq![third, second, first]
            + layers,
        pushed(pushed(pushed(layers, first), second), third)[0] == third,
{
}

/// Removing a layer leaves the others in their order: each layer above the
/// removed one stays where it was, and each layer below it moves up by one.
pub proof fn law_removal_keeps_order(layers: Seq<Identity>, panel: Identity, at: int)
    requires
        is_first_position(layers, panel, at),
    ensures
        layers.remove(at).len() == layers.len() - 1,
        forall|i: int| 0 <= i < at ==> layers.remove(at)[i] == layers[i],
        forall|i: int| at <= i < layers.len() - 1 ==> layers.remove(at)[i] == layers[i + 1],
{
}

/// Of three panels pushed one after the other, removing the second leaves
/// the third on top of the first.
pub proof fn law_removing_the_middle_of_three(
    layers: Seq<Identity>,
    first: Identity,
    second: Identity,
    third: Identity,
)
    requires
        second != third,
    ensures
        is_first_position(pushed(pushed(pushed(layers, first), second), third), second, 1),
        pushed(pushed(pushed(layers, first), second), third).remove(1) == pushed(
            pushed(layers, first),
            third,
        ),
{
}

/// Pushing a panel and removing it again leaves the stack as it was.
pub proof fn law_push_then_remove_restores(layers: Seq<Identity>, panel: Identity)
    ensures
        is_first_position(pushed(layers, panel), panel, 0),
        pushed(layers, panel).remove(0) == layers,
{
}

} // verus!

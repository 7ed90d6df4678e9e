//! A drawing surface: it asks for a redraw whenever its size changes.

use super::bus::{share, Bus, Provenance};
use super::dispatch::Step;
use super::event::{PanelEvent, Size};
use super::identity::{Identity, IdentitySource};
use async_event_streams::{EventStream, SentEvent};
use vstd::prelude::*;

verus! {

/// What a surface tells whoever draws on it.
#[derive(Clone, Copy, Debug, PartialEq, Eq, Hash, Structural)]
pub enum SurfaceEvent {
    /// The surface has this size now and wants to be drawn anew.
    Redraw(Size),
}

/// The redraw that a surface asks for at a new size, as it waits on the
/// surface's stream of redraws: without provenance.
pub open spec fn redraw(size: Size) -> (SurfaceEvent, Provenance) {
    (SurfaceEvent::Redraw(size), None)
}

/// How far a surface's dispatch has come.
#[derive(Clone, Copy, Debug, PartialEq, Eq, Hash, Structural)]
pub enum SurfaceStage {
    /// Nothing has been issued yet.
    Start,
    /// The surface's frame was told to take this size.
    Sizing(Size),
    /// The panel event was put on the outward stream.
    Emitted,
    /// There is nothing left to do.
    Done,
}

/// The course of a surface's dispatch.
pub struct SurfaceCourse {
    pub event: PanelEvent,
    pub stage: SurfaceStage,
    pub failed: bool,
}

impl SurfaceCourse {
    /// The course of a dispatch that has just begun.
    pub open spec fn begin(event: PanelEvent) -> SurfaceCourse {
        SurfaceCourse { event, stage: SurfaceStage::Start, failed: false }
    }

    /// The step that is issued next.
    pub open spec fn pending(self) -> Step {
        if self.failed {
            Step::Abort
        } else {
            match self.stage {
                SurfaceStage::Start => match self.event.new_size() {
                    Some(size) => Step::Resize(size),
                    None => Step::Emitted,
                },
                SurfaceStage::Sizing(_) => Step::Emitted,
                SurfaceStage::Emitted => Step::Complete,
                SurfaceStage::Done => Step::Complete,
            }
        }
    }

    /// The course once the pending step has been issued.
    pub open spec fn advanced(self) -> SurfaceCourse {
        if self.failed {
            self
        } else {
            let stage = match self.stage {
                SurfaceStage::Start => match self.event.new_size() {
                    Some(size) => SurfaceStage::Sizing(size),
                    None => SurfaceStage::Emitted,
                },
                SurfaceStage::Sizing(_) => SurfaceStage::Emitted,
                SurfaceStage::Emitted => SurfaceStage::Done,
                SurfaceStage::Done => SurfaceStage::Done,
            };
            SurfaceCourse { stage, ..self }
        }
    }

    /// The redraws that wait for the surface's subscribers once the pending
    /// step has been issued, if `waiting` are those that wait now. When the
    /// frame has taken a new size, what waited is stale: it is discarded,
    /// and one redraw for the new size takes its place. A redraw is the
    /// surface's own doing and has no provenance.
    pub open spec fn redraws_then(self, waiting: Seq<(SurfaceEvent, Provenance)>) -> Seq<
        (SurfaceEvent, Provenance),
    > {
        match self.stage {
            SurfaceStage::Sizing(size) if !self.failed => seq![redraw(size)],
            _ => waiting,
        }
    }

    /// The course once the driver has reported a failure.
    pub open spec fn fail(self) -> SurfaceCourse {
        SurfaceCourse { failed: true, ..self }
    }

    /// How many steps a dispatch at this stage can still issue before the
    /// last one.
    pub open spec fn steps_left(self) -> nat {
        match self.stage {
            SurfaceStage::Start => 2,
            SurfaceStage::Sizing(_) => 1,
            SurfaceStage::Emitted => 0,
            SurfaceStage::Done => 0,
        }
    }

    /// The steps that are issued from here on, the last one included, when
    /// the driver reports a failure of the step issued `fail_at` steps from
    /// now (counting from 0) and of no other. With a negative `fail_at`
    /// nothing fails.
    pub open spec fn trace(self, fail_at: int) -> Seq<Step>
        decreases self.steps_left(),
    {
        let step = self.pending();
        if step.is_last() {
            seq![step]
        } else {
            let then = if fail_at == 0 {
                self.advanced().fail()
            } else {
                self.advanced()
            };
            seq![step] + then.trace(fail_at - 1)
        }
    }

    /// The redraws that wait when the dispatch is over, under the same
    /// driver as in [`SurfaceCourse::trace`], if `waiting` are those that
    /// wait now.
    pub open spec fn redraws_at_end(
        self,
        waiting: Seq<(SurfaceEvent, Provenance)>,
        fail_at: int,
    ) -> Seq<(SurfaceEvent, Provenance)>
        decreases self.steps_left(),
    {
        if self.pending().is_last() {
            waiting
        } else {
            let then = if fail_at == 0 {
                self.advanced().fail()
            } else {
                self.advanced()
            };
            then.redraws_at_end(self.redraws_then(waiting), fail_at - 1)
        }
    }
}

/// One dispatch of a panel event by a [`Surface`].
pub struct SurfaceDispatch<E> {
    event: PanelEvent,
    source: Provenance,
    stage: SurfaceStage,
    failure: Option<E>,
}

impl<E> View for SurfaceDispatch<E> {
    type V = SurfaceCourse;

    closed spec fn view(&self) -> SurfaceCourse {
        SurfaceCourse { event: self.event, stage: self.stage, failed: self.failure is Some }
    }
}

impl<E> SurfaceDispatch<E> {
    /// The failure that ended the dispatch, if one was reported.
    pub closed spec fn failure(&self) -> Option<E> {
        self.failure
    }

    /// The provenance that goes with the panel event this dispatch sends.
    pub closed spec fn source(&self) -> Provenance {
        self.source
    }

    /// Reports that the step issued last has failed, with the error it
    /// failed with. The dispatch keeps the first failure it is told of.
    pub fn fail(&mut self, error: E)
        ensures
            final(self)@ == old(self)@.fail(),
            final(self).failure() == if old(self).failure() is Some {
                old(self).failure()
            } else {
                Some(error)
            },
            final(self).source() == old(self).source(),
    {
        if self.failure.is_none() {
            self.failure = Some(error);
        }
    }

    /// Ends the dispatch: the first failure that was reported, or success.
    pub fn finish(self) -> (result: Result<(), E>)
        ensures
            result == match self.failure() {
                Some(error) => Err::<(), E>(error),
                None => Ok(()),
            },
    {
        match self.failure {
            Some(error) => Err(error),
            None => Ok(()),
        }
    }
}

/// A surface to draw on. It has two streams: the panel events it has
/// handled, and the redraws it asks for.
pub struct Surface {
    id: Identity,
    panel_events: Bus<PanelEvent>,
    surface_events: Bus<SurfaceEvent>,
}

impl Surface {
    /// The identity of the surface.
    pub closed spec fn identity(&self) -> Identity {
        self.id
    }

    /// The panel events that wait on the surface's outward stream, each
    /// with its provenance.
    pub closed spec fn emitted(&self) -> Seq<(PanelEvent, Provenance)> {
        self.panel_events.queued()
    }

    /// The redraws that wait for whoever draws on the surface, each with its
    /// provenance.
    pub closed spec fn redraws(&self) -> Seq<(SurfaceEvent, Provenance)> {
        self.surface_events.queued()
    }

    /// That the surface's outward stream was called to send `event` with
    /// `source` and gave `handle`, as [`Bus::sent`] has it.
    pub closed spec fn sent_out(
        &self,
        event: PanelEvent,
        source: Provenance,
        handle: SentEvent,
    ) -> bool {
        self.panel_events.sent(event, source, handle)
    }

    /// That the surface's stream of redraws was called to discard what
    /// waited and then to post the redraw for `size`, without provenance, as
    /// [`Bus::cleared`] and [`Bus::posted`] have it.
    pub closed spec fn asked_anew(&self, size: Size) -> bool {
        &&& self.surface_events.cleared()
        &&& self.surface_events.posted(SurfaceEvent::Redraw(size), None)
    }

    /// That the surface's outward stream was called to register a subscriber
    /// and gave `stream`, as [`Bus::subscribed`] has it.
    pub closed spec fn subscribed(&self, stream: EventStream<PanelEvent>) -> bool {
        self.panel_events.subscribed(stream)
    }

    /// That the surface's stream of redraws was called to register a
    /// subscriber and gave `stream`, as [`Bus::subscribed`] has it.
    pub closed spec fn redraw_subscribed(&self, stream: EventStream<SurfaceEvent>) -> bool {
        self.surface_events.subscribed(stream)
    }

    /// A surface with an identity of its own, minted for it from `ids`, on
    /// whose streams nothing has been put. There is no surface if `ids` has
    /// no identity left to give.
    pub fn new(ids: &mut IdentitySource) -> (made: Option<Self>)
        ensures
            match made {
                Some(surface) => {
                    &&& IdentitySource::mints(*old(ids), *final(ids), surface.identity())
                    &&& surface.emitted() == Seq::<(PanelEvent, Provenance)>::empty()
                    &&& surface.redraws() == Seq::<(SurfaceEvent, Provenance)>::empty()
                },
                None => old(ids).exhausted() && *final(ids) == *old(ids),
            },
    {
        match ids.mint() {
            Some(id) => Some(Surface { id, panel_events: Bus::new(), surface_events: Bus::new() }),
            None => None,
        }
    }

    /// The identity of the surface.
    pub fn id(&self) -> (id: Identity)
        ensures
            id == self.identity(),
    {
        self.id
    }

    /// Subscribes to the panel events that the surface has handled: the
    /// stream is a new subscriber of the surface's outward stream.
    pub fn event_stream(&self) -> (stream: EventStream<PanelEvent>)
        ensures
            self.subscribed(stream),
    {
        self.panel_events.subscribe()
    }

    /// Subscribes to the redraws that the surface asks for: the stream is a
    /// new subscriber of the surface's stream of redraws.
    pub fn redraw_stream(&self) -> (stream: EventStream<SurfaceEvent>)
        ensures
            self.redraw_subscribed(stream),
    {
        self.surface_events.subscribe()
    }

    /// Begins the dispatch of a panel event that reached the surface.
    pub fn on_event<E>(&self, event: PanelEvent, source: Provenance) -> (dispatch: SurfaceDispatch<
        E,
    >)
        ensures
            dispatch@ == SurfaceCourse::begin(event),
            dispatch.failure() is None,
            dispatch.source() == source,
    {
        SurfaceDispatch { event, source, stage: SurfaceStage::Start, failure: None }
    }

    /// Issues the next step of a dispatch.
    ///
    /// An event that brings a new size first has the surface's frame take
    /// it. Once that is done, the surface drops the redraws that nobody has
    /// read yet and asks for one redraw at the new size, without provenance.
    /// Then, as with any other event, it puts the panel event on its outward
    /// stream with the provenance of the dispatch; the handle to await comes
    /// with that step. Once a failure was reported, the step is
    /// [`Step::Abort`] and nothing else happens.
    pub fn next<E>(&mut self, dispatch: &mut SurfaceDispatch<E>) -> (issued: (
        Step,
        Option<SentEvent>,
    ))
        ensures
            issued.0 == old(dispatch)@.pending(),
            issued.1 is Some <==> issued.0 is Emitted,
            final(dispatch)@ == old(dispatch)@.advanced(),
            final(dispatch).failure() == old(dispatch).failure(),
            final(dispatch).source() == old(dispatch).source(),
            final(self).redraws() == old(dispatch)@.redraws_then(old(self).redraws()),
            final(self).emitted() == if issued.0 is Emitted {
                old(self).emitted().push((old(dispatch)@.event, old(dispatch).source()))
            } else {
                old(self).emitted()
            },
            issued.1 matches Some(handle) ==> final(self).sent_out(
                old(dispatch)@.event,
                old(dispatch).source(),
                handle,
            ),
            match old(dispatch)@.stage {
                SurfaceStage::Sizing(size) if !old(dispatch)@.failed => final(self).asked_anew(
                    size,
                ),
                _ => true,
            },
            final(self).identity() == old(self).identity(),
    {
        if dispatch.failure.is_some() {
            return (Step::Abort, None);
        }
        match dispatch.stage {
            SurfaceStage::Start => match dispatch.event.resized_to() {
                Some(size) => {
                    dispatch.stage = SurfaceStage::Sizing(size);
                    (Step::Resize(size), None)
                },
                None => {
                    let sent = self.panel_events.send(dispatch.event, share(&dispatch.source));
                    dispatch.stage = SurfaceStage::Emitted;
                    (Step::Emitted, Some(sent))
                },
            },
            SurfaceStage::Sizing(size) => {
                self.surface_events.clear();
                self.surface_events.post(SurfaceEvent::Redraw(size), None);
                let sent = self.panel_events.send(dispatch.event, share(&dispatch.source));
                dispatch.stage = SurfaceStage::Emitted;
                (Step::Emitted, Some(sent))
            },
            SurfaceStage::Emitted => {
                dispatch.stage = SurfaceStage::Done;
                (Step::Complete, None)
            },
            SurfaceStage::Done => (Step::Complete, None),
        }
    }
}

/// A surface that is given a new size has its frame take the size and puts
/// the event on its outward stream. Whatever redraws waited before, exactly
/// one waits afterwards: the one for the new size.
pub proof fn law_resize_leaves_one_redraw(size: Size, waiting: Seq<(SurfaceEvent, Provenance)>)
    ensures
        SurfaceCourse::begin(PanelEvent::Resized(size)).trace(-1) == seq![
            Step::Resize(size),
            Step::Emitted,
            Step::Complete,
        ],
        SurfaceCourse::begin(PanelEvent::Resized(size)).redraws_at_end(waiting, -1) == seq![
            redraw(size),
        ],
{
    reveal_with_fuel(SurfaceCourse::trace, 4);
    reveal_with_fuel(SurfaceCourse::redraws_at_end, 4);
    assert(SurfaceCourse::begin(PanelEvent::Resized(size)).trace(-1) =~= seq![
        Step::Resize(size),
        Step::Emitted,
        Step::Complete,
    ]);
}

/// Redraws do not pile up: of two sizes given one after the other, with
/// nothing read in between, only the redraw for the second one waits.
pub proof fn law_only_the_newest_redraw_waits(
    first: Size,
    second: Size,
    waiting: Seq<(SurfaceEvent, Provenance)>,
)
    ensures
        SurfaceCourse::begin(PanelEvent::Resized(second)).redraws_at_end(
            SurfaceCourse::begin(PanelEvent::Resized(first)).redraws_at_end(waiting, -1),
            -1,
        ) == seq![redraw(second)],
{
    law_resize_leaves_one_redraw(
        second,
        SurfaceCourse::begin(PanelEvent::Resized(first)).redraws_at_end(waiting, -1),
    );
}

/// When the frame cannot take the new size, the surface asks for no redraw
/// and puts nothing on its outward stream.
pub proof fn law_failed_resize_changes_nothing(
    size: Size,
    waiting: Seq<(SurfaceEvent, Provenance)>,
)
    ensures
        SurfaceCourse::begin(PanelEvent::Resized(size)).trace(0) == seq![
            Step::Resize(size),
            Step::Abort,
        ],
        SurfaceCourse::begin(PanelEvent::Resized(size)).redraws_at_end(waiting, 0) == waiting,
{
    reveal_with_fuel(SurfaceCourse::trace, 3);
    reveal_with_fuel(SurfaceCourse::redraws_at_end, 3);
}

/// An event that brings no new size goes on the outward stream and asks for
/// no redraw.
pub proof fn law_other_events_pass_through(
    event: PanelEvent,
    waiting: Seq<(SurfaceEvent, Provenance)>,
)
    requires
        event.new_size() is None,
    ensures
        SurfaceCourse::begin(event).trace(-1) == seq![Step::Emitted, Step::Complete],
        SurfaceCourse::begin(event).redraws_at_end(waiting, -1) == waiting,
{
    reveal_with_fuel(SurfaceCourse::trace, 3);
    reveal_with_fuel(SurfaceCourse::redraws_at_end, 3);
}

} // verus!

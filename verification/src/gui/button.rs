//! A push button: a skin that shows it, and the state that makes a click.

use super::bus::{share, Bus, Provenance};
use super::dispatch::Step;
use super::event::{ElementState, MouseButton, PanelEvent};
use super::identity::{Identity, IdentitySource};
use async_event_streams::{EventStream, SentEvent};
use vstd::prelude::*;

verus! {

/// What a button tells its subscribers.
#[derive(Clone, Copy, Debug, PartialEq, Eq, Hash, Structural)]
pub enum ButtonEvent {
    /// The button went down.
    Press,
    /// The button came up; the flag says whether the pointer was still
    /// inside it, which makes the difference between a click and a
    /// cancelled one.
    Release(bool),
}

/// What a button does about a panel event, given whether it is held down:
/// the left button going down inside it presses it, the left button coming
/// up releases it if it was pressed, and nothing else concerns it.
pub open spec fn reaction(pressed: bool, event: PanelEvent) -> Option<ButtonEvent> {
    match event {
        PanelEvent::MouseInput { in_slot, state, button } => {
            if button != MouseButton::Left {
                None
            } else if state == ElementState::Pressed {
                if in_slot {
                    Some(ButtonEvent::Press)
                } else {
                    None
                }
            } else if pressed {
                Some(ButtonEvent::Release(in_slot))
            } else {
                None
            }
        },
        _ => None,
    }
}

/// Whether a button is held down after it reacted.
pub open spec fn pressed_after(pressed: bool, reaction: Option<ButtonEvent>) -> bool {
    match reaction {
        Some(ButtonEvent::Press) => true,
        Some(ButtonEvent::Release(_)) => false,
        None => pressed,
    }
}

/// How far a button's dispatch has come.
#[derive(Clone, Copy, Debug, PartialEq, Eq, Hash, Structural)]
pub enum ButtonStage {
    /// Nothing has been issued yet.
    Start,
    /// The panel event was handed to the skin.
    Forwarded,
    /// The panel event was put on the outward stream.
    Emitted,
    /// The button reacted, and the skin was told this button event.
    Notified(ButtonEvent),
    /// The button event was put on the stream of button events.
    Announced,
    /// There is nothing left to do.
    Done,
}

/// The course of a button's dispatch, as far as the next step depends on it.
pub struct ButtonCourse {
    pub event: PanelEvent,
    pub stage: ButtonStage,
    pub failed: bool,
}

impl ButtonCourse {
    /// The course of a dispatch that has just begun.
    pub open spec fn begin(event: PanelEvent) -> ButtonCourse {
        ButtonCourse { event, stage: ButtonStage::Start, failed: false }
    }

    /// The step that is issued next, for a button with this skin that is
    /// held down or not.
    pub open spec fn pending(self, skin: Identity, pressed: bool) -> Step {
        if self.failed {
            Step::Abort
        } else {
            match self.stage {
                ButtonStage::Start => Step::Deliver(skin),
                ButtonStage::Forwarded => Step::Emitted,
                ButtonStage::Emitted => match reaction(pressed, self.event) {
                    Some(event) => Step::Notify(skin, event),
                    None => Step::Complete,
                },
                ButtonStage::Notified(event) => Step::Announced(event),
                ButtonStage::Announced => Step::Complete,
                ButtonStage::Done => Step::Complete,
            }
        }
    }

    /// The course once the pending step has been issued.
    pub open spec fn advanced(self, pressed: bool) -> ButtonCourse {
        if self.failed {
            self
        } else {
            let stage = match self.stage {
                ButtonStage::Start => ButtonStage::Forwarded,
                ButtonStage::Forwarded => ButtonStage::Emitted,
                ButtonStage::Emitted => match reaction(pressed, self.event) {
                    Some(event) => ButtonStage::Notified(event),
                    None => ButtonStage::Done,
                },
                ButtonStage::Notified(_) => ButtonStage::Announced,
                ButtonStage::Announced => ButtonStage::Done,
                ButtonStage::Done => ButtonStage::Done,
            };
            ButtonCourse { stage, ..self }
        }
    }

    /// Whether the button is held down once the pending step has been
    /// issued: it changes when, and only when, the button reacts.
    pub open spec fn pressed_then(self, pressed: bool) -> bool {
        if !self.failed && self.stage == ButtonStage::Emitted {
            pressed_after(pressed, reaction(pressed, self.event))
        } else {
            pressed
        }
    }

    /// The course once the driver has reported a failure.
    pub open spec fn fail(self) -> ButtonCourse {
        ButtonCourse { failed: true, ..self }
    }

    /// How many steps a dispatch at this stage can still issue before the
    /// last one.
    pub open spec fn steps_left(self) -> nat {
        match self.stage {
            ButtonStage::Start => 4,
            ButtonStage::Forwarded => 3,
            ButtonStage::Emitted => 2,
            ButtonStage::Notified(_) => 1,
            ButtonStage::Announced => 0,
            ButtonStage::Done => 0,
        }
    }

    /// The steps that are issued from here on, the last one included, when
    /// the driver reports a failure of the step issued `fail_at` steps from
    /// now (counting from 0) and of no other. With a negative `fail_at`
    /// nothing fails.
    pub open spec fn trace(self, skin: Identity, pressed: bool, fail_at: int) -> Seq<Step>
        decreases self.steps_left(),
    {
        let step = self.pending(skin, pressed);
        if step.is_last() {
            seq![step]
        } else {
            let then = if fail_at == 0 {
                self.advanced(pressed).fail()
            } else {
                self.advanced(pressed)
            };
            seq![step] + then.trace(skin, self.pressed_then(pressed), fail_at - 1)
        }
    }

    /// Whether the button is held down when the dispatch is over, under the
    /// same driver as in [`ButtonCourse::trace`].
    pub open spec fn pressed_at_end(self, skin: Identity, pressed: bool, fail_at: int) -> bool
        decreases self.steps_left(),
    {
        if self.pending(skin, pressed).is_last() {
            pressed
        } else {
            let then = if fail_at == 0 {
                self.advanced(pressed).fail()
            } else {
                self.advanced(pressed)
            };
            then.pressed_at_end(skin, self.pressed_then(pressed), fail_at - 1)
        }
    }
}

/// One dispatch of a panel event by a [`Button`].
pub struct ButtonDispatch<E> {
    event: PanelEvent,
    source: Provenance,
    stage: ButtonStage,
    failure: Option<E>,
}

impl<E> View for ButtonDispatch<E> {
    type V = ButtonCourse;

    closed spec fn view(&self) -> ButtonCourse {
        ButtonCourse { event: self.event, stage: self.stage, failed: self.failure is Some }
    }
}

impl<E> ButtonDispatch<E> {
    /// The failure that ended the dispatch, if one was reported.
    pub closed spec fn failure(&self) -> Option<E> {
        self.failure
    }

    /// The provenance that goes with everything this dispatch sends.
    pub closed spec fn source(&self) -> Provenance {
        self.source
    }

    /// Reports that the step issued last has failed, with the error it
    /// failed with. The dispatch keeps the first failure it is told of.
    pub fn fail(&mut self, error: E)
        ensures
            final(self)@ == old(self)@.fail(),
            final(self).failure() == if old(self).failure() is Some {
                old(self).failure()
            } else {
                Some(error)
            },
            final(self).source() == old(self).source(),
    {
        if self.failure.is_none() {
            self.failure = Some(error);
        }
    }

    /// Ends the dispatch: the first failure that was reported, or success.
    pub fn finish(self) -> (result: Result<(), E>)
        ensures
            result == match self.failure() {
                Some(error) => Err::<(), E>(error),
                None => Ok(()),
            },
    {
        match self.failure {
            Some(error) => Err(error),
            None => Ok(()),
        }
    }
}

/// What a button needs of the panel that shows it: a skin is a panel, so it
/// has an identity, by which the button's dispatches name it.
pub trait ButtonSkin {
    /// The identity of the skin.
    fn id(&self) -> Identity;
}

/// What a [`Button`] is made from.
pub struct ButtonParams {
    skin: Identity,
}

impl ButtonParams {
    /// The identity of the skin that the button will have.
    pub closed spec fn skin(&self) -> Identity {
        self.skin
    }

    /// Parameters for a button that shows itself through `skin`: the
    /// button's skin is the panel that `skin` says it is.
    pub fn new<S: ButtonSkin>(skin: &S) -> (params: Self)
        ensures
            S::id.ensures((skin,), params.skin()),
    {
        ButtonParams { skin: skin.id() }
    }
}

/// A push button. It shows itself through a skin, a panel of its own that
/// is told every panel event the button gets and every button event the
/// button makes of them.
pub struct Button {
    id: Identity,
    skin: Identity,
    pressed: bool,
    panel_events: Bus<PanelEvent>,
    button_events: Bus<ButtonEvent>,
}

impl Button {
    /// The identity of the button.
    pub closed spec fn identity(&self) -> Identity {
        self.id
    }

    /// The identity of the button's skin.
    pub closed spec fn skin(&self) -> Identity {
        self.skin
    }

    /// Whether the button is held down.
    pub closed spec fn pressed(&self) -> bool {
        self.pressed
    }

    /// The panel events that wait on the button's outward stream, each with
    /// its provenance.
    pub closed spec fn emitted(&self) -> Seq<(PanelEvent, Provenance)> {
        self.panel_events.queued()
    }

    /// The button events that wait on the button's stream of button events,
    /// each with its provenance.
    pub closed spec fn announced(&self) -> Seq<(ButtonEvent, Provenance)> {
        self.button_events.queued()
    }

    /// That the button's outward stream was called to send `event` with
    /// `source` and gave `handle`, as [`Bus::sent`] has it.
    pub closed spec fn sent_out(
        &self,
        event: PanelEvent,
        source: Provenance,
        handle: SentEvent,
    ) -> bool {
        self.panel_events.sent(event, source, handle)
    }

    /// That the button's stream of button events was called to send `event`
    /// with `source` and gave `handle`, as [`Bus::sent`] has it.
    pub closed spec fn announced_as(
        &self,
        event: ButtonEvent,
        source: Provenance,
        handle: SentEvent,
    ) -> bool {
        self.button_events.sent(event, source, handle)
    }

    /// That the button's outward stream was called to register a subscriber
    /// and gave `stream`, as [`Bus::subscribed`] has it.
    pub closed spec fn subscribed(&self, stream: EventStream<PanelEvent>) -> bool {
        self.panel_events.subscribed(stream)
    }

    /// That the button's stream of button events was called to register a
    /// subscriber and gave `stream`, as [`Bus::subscribed`] has it.
    pub closed spec fn button_subscribed(&self, stream: EventStream<ButtonEvent>) -> bool {
        self.button_events.subscribed(stream)
    }

    /// A button with an identity of its own, minted for it from `ids`, that
    /// is not held down and on whose streams nothing has been put. There is
    /// no button if `ids` has no identity left to give.
    pub fn new(ids: &mut IdentitySource, params: ButtonParams) -> (made: Option<Self>)
        ensures
            match made {
                Some(button) => {
                    &&& IdentitySource::mints(*old(ids), *final(ids), button.identity())
                    &&& button.skin() == params.skin()
                    &&& !button.pressed()
                    &&& button.emitted() == Seq::<(PanelEvent, Provenance)>::empty()
                    &&& button.announced() == Seq::<(ButtonEvent, Provenance)>::empty()
                },
                None => old(ids).exhausted() && *final(ids) == *old(ids),
            },
    {
        match ids.mint() {
            Some(id) => Some(
                Button {
                    id,
                    skin: params.skin,
                    pressed: false,
                    panel_events: Bus::new(),
                    button_events: Bus::new(),
                },
            ),
            None => None,
        }
    }

    /// The identity of the button.
    pub fn id(&self) -> (id: Identity)
        ensures
            id == self.identity(),
    {
        self.id
    }

    /// The identity of the button's skin.
    pub fn skin_panel(&self) -> (skin: Identity)
        ensures
            skin == self.skin(),
    {
        self.skin
    }

    /// Whether the button is held down.
    pub fn is_pressed(&self) -> (pressed: bool)
        ensures
            pressed == self.pressed(),
    {
        self.pressed
    }

    /// Subscribes to the panel events that the button has handled: the
    /// stream is a new subscriber of the button's outward stream.
    pub fn event_stream(&self) -> (stream: EventStream<PanelEvent>)
        ensures
            self.subscribed(stream),
    {
        self.panel_events.subscribe()
    }

    /// Subscribes to the button events that the button makes: the stream is
    /// a new subscriber of the button's stream of button events.
    pub fn button_event_stream(&self) -> (stream: EventStream<ButtonEvent>)
        ensures
            self.button_subscribed(stream),
    {
        self.button_events.subscribe()
    }

    /// The button goes down.
    fn press(&mut self) -> (event: ButtonEvent)
        ensures
            event == ButtonEvent::Press,
            final(self).pressed(),
            final(self).identity() == old(self).identity(),
            final(self).skin() == old(self).skin(),
            final(self).emitted() == old(self).emitted(),
            final(self).announced() == old(self).announced(),
    {
        self.pressed = true;
        ButtonEvent::Press
    }

    /// The button comes up, with the pointer inside it or not.
    fn release(&mut self, in_slot: bool) -> (event: ButtonEvent)
        ensures
            event == ButtonEvent::Release(in_slot),
            !final(self).pressed(),
            final(self).identity() == old(self).identity(),
            final(self).skin() == old(self).skin(),
            final(self).emitted() == old(self).emitted(),
            final(self).announced() == old(self).announced(),
    {
        self.pressed = false;
        ButtonEvent::Release(in_slot)
    }

    /// Lets the button react to a panel event: it goes down or comes up as
    /// [`reaction`] says, and the button event that this makes is returned.
    pub fn react(&mut self, event: &PanelEvent) -> (made: Option<ButtonEvent>)
        ensures
            made == reaction(old(self).pressed(), *event),
            final(self).pressed() == pressed_after(old(self).pressed(), made),
            final(self).identity() == old(self).identity(),
            final(self).skin() == old(self).skin(),
            final(self).emitted() == old(self).emitted(),
            final(self).announced() == old(self).announced(),
    {
        match event {
            PanelEvent::MouseInput { in_slot, state, button } => {
                if *button == MouseButton::Left {
                    if *state == ElementState::Pressed {
                        if *in_slot {
                            Some(self.press())
                        } else {
                            None
                        }
                    } else if self.pressed {
                        Some(self.release(*in_slot))
                    } else {
                        None
                    }
                } else {
                    None
                }
            },
            _ => None,
        }
    }

    /// Begins the dispatch of a panel event that reached the button.
    pub fn on_event<E>(&self, event: PanelEvent, source: Provenance) -> (dispatch: ButtonDispatch<E>)
        ensures
            dispatch@ == ButtonCourse::begin(event),
            dispatch.failure() is None,
            dispatch.source() == source,
    {
        ButtonDispatch { event, source, stage: ButtonStage::Start, failure: None }
    }

    /// Issues the next step of a dispatch.
    ///
    /// The skin gets the panel event first; then the event goes on the
    /// outward stream; then the button reacts, and if that makes a button
    /// event, the skin is told and the event goes on the stream of button
    /// events. Whatever goes on a stream goes with the provenance of the
    /// dispatch, and the step that puts it there comes with the handle to
    /// await. Once a failure was reported, the step is [`Step::Abort`] and
    /// nothing else happens.
    pub fn next<E>(&mut self, dispatch: &mut ButtonDispatch<E>) -> (issued: (
        Step,
        Option<SentEvent>,
    ))
        ensures
            issued.0 == old(dispatch)@.pending(old(self).skin(), old(self).pressed()),
            issued.1 is Some <==> issued.0.is_sent(),
            final(dispatch)@ == old(dispatch)@.advanced(old(self).pressed()),
            final(dispatch).failure() == old(dispatch).failure(),
            final(dispatch).source() == old(dispatch).source(),
            final(self).pressed() == old(dispatch)@.pressed_then(old(self).pressed()),
            final(self).emitted() == if issued.0 is Emitted {
                old(self).emitted().push((old(dispatch)@.event, old(dispatch).source()))
            } else {
                old(self).emitted()
            },
            final(self).announced() == match issued.0 {
                Step::Announced(event) => old(self).announced().push(
                    (event, old(dispatch).source()),
                ),
                _ => old(self).announced(),
            },
            issued.1 matches Some(handle) ==> match issued.0 {
                Step::Announced(event) => final(self).announced_as(
                    event,
                    old(dispatch).source(),
                    handle,
                ),
                _ => final(self).sent_out(old(dispatch)@.event, old(dispatch).source(), handle),
            },
            final(self).identity() == old(self).identity(),
            final(self).skin() == old(self).skin(),
    {
        if dispatch.failure.is_some() {
            return (Step::Abort, None);
        }
        match dispatch.stage {
            ButtonStage::Start => {
                dispatch.stage = ButtonStage::Forwarded;
                (Step::Deliver(self.skin), None)
            },
            ButtonStage::Forwarded => {
                let sent = self.panel_events.send(dispatch.event, share(&dispatch.source));
                dispatch.stage = ButtonStage::Emitted;
                (Step::Emitted, Some(sent))
            },
            ButtonStage::Emitted => {
                match self.react(&dispatch.event) {
                    Some(event) => {
                        dispatch.stage = ButtonStage::Notified(event);
                        (Step::Notify(self.skin, event), None)
                    },
                    None => {
                        dispatch.stage = ButtonStage::Done;
                        (Step::Complete, None)
                    },
                }
            },
            ButtonStage::Notified(event) => {
                let sent = self.button_events.send(event, share(&dispatch.source));
                dispatch.stage = ButtonStage::Announced;
                (Step::Announced(event), Some(sent))
            },
            ButtonStage::Announced => {
                dispatch.stage = ButtonStage::Done;
                (Step::Complete, None)
            },
            ButtonStage::Done => (Step::Complete, None),
        }
    }
}

/// What a reaction adds to a dispatch: the skin is told the button event,
/// and the event is announced.
pub open spec fn reaction_steps(skin: Identity, made: Option<ButtonEvent>) -> Seq<Step> {
    match made {
        Some(event) => seq![Step::Notify(skin, event), Step::Announced(event)],
        None => Seq::empty(),
    }
}

/// If nothing fails, a button hands the panel event to its skin, puts it
/// on its outward stream, and reacts; if the reaction makes a button event,
/// the skin is told it and it is announced. The button is then held down
/// or not as the reaction says.
pub proof fn law_button_dispatch(event: PanelEvent, skin: Identity, pressed: bool)
    ensures
        ButtonCourse::begin(event).trace(skin, pressed, -1) == seq![
            Step::Deliver(skin),
            Step::Emitted,
        ] + reaction_steps(skin, reaction(pressed, event)) + seq![Step::Complete],
        ButtonCourse::begin(event).pressed_at_end(skin, pressed, -1) == pressed_after(
            pressed,
            reaction(pressed, event),
        ),
{
    reveal_with_fuel(ButtonCourse::trace, 6);
    reveal_with_fuel(ButtonCourse::pressed_at_end, 6);
    let made = reaction(pressed, event);
    assert(ButtonCourse::begin(event).trace(skin, pressed, -1) =~= seq![
        Step::Deliver(skin),
        Step::Emitted,
    ] + reaction_steps(skin, made) + seq![Step::Complete]);
}

/// When the skin fails the panel event, the button does nothing more: the
/// event is not put on the outward stream, and the button does not react.
pub proof fn law_skin_failure_stops_button(event: PanelEvent, skin: Identity, pressed: bool)
    ensures
        ButtonCourse::begin(event).trace(skin, pressed, 0) == seq![
            Step::Deliver(skin),
            Step::Abort,
        ],
        ButtonCourse::begin(event).pressed_at_end(skin, pressed, 0) == pressed,
{
    reveal_with_fuel(ButtonCourse::trace, 3);
    reveal_with_fuel(ButtonCourse::pressed_at_end, 3);
}

/// When the skin fails the button event, the event is not announced; the
/// button has reacted all the same.
pub proof fn law_unannounced_reaction(
    event: PanelEvent,
    skin: Identity,
    pressed: bool,
    made: ButtonEvent,
)
    requires
        reaction(pressed, event) == Some(made),
    ensures
        ButtonCourse::begin(event).trace(skin, pressed, 2) == seq![
            Step::Deliver(skin),
            Step::Emitted,
            Step::Notify(skin, made),
            Step::Abort,
        ],
        ButtonCourse::begin(event).pressed_at_end(skin, pressed, 2) == pressed_after(
            pressed,
            Some(made),
        ),
{
    reveal_with_fuel(ButtonCourse::trace, 5);
    reveal_with_fuel(ButtonCourse::pressed_at_end, 5);
    assert(ButtonCourse::begin(event).trace(skin, pressed, 2) =~= seq![
        Step::Deliver(skin),
        Step::Emitted,
        Step::Notify(skin, made),
        Step::Abort,
    ]);
}

/// The left button going down inside the button presses it, whether or not
/// it was held down already.
pub proof fn law_press_inside_presses(pressed: bool)
    ensures
        reaction(
            pressed,
            PanelEvent::MouseInput {
                in_slot: true,
                state: ElementState::Pressed,
                button: MouseButton::Left,
            },
        ) == Some(ButtonEvent::Press),
        pressed_after(pressed, Some(ButtonEvent::Press)),
{
}

/// The left button coming up releases a button that is held down, inside
/// it or not, and the release says which.
pub proof fn law_release_ends_press(in_slot: bool)
    ensures
        reaction(
            true,
            PanelEvent::MouseInput {
                in_slot,
                state: ElementState::Released,
                button: MouseButton::Left,
            },
        ) == Some(ButtonEvent::Release(in_slot)),
        !pressed_after(true, Some(ButtonEvent::Release(in_slot))),
{
}

/// A button that is not held down ignores the left button coming up, and
/// the left button going down outside it.
pub proof fn law_idle_button_ignores(in_slot: bool)
    ensures
        reaction(
            false,
            PanelEvent::MouseInput {
                in_slot,
                state: ElementState::Released,
                button: MouseButton::Left,
            },
        ) is None,
        reaction(
            false,
            PanelEvent::MouseInput {
                in_slot: false,
                state: ElementState::Pressed,
                button: MouseButton::Left,
            },
        ) is None,
{
}

/// The button events that a button makes of the panel events it gets one
/// after the other, when it is held down or not before the first of them.
pub open spec fn occurrences(pressed: bool, events: Seq<PanelEvent>) -> Seq<ButtonEvent>
    decreases events.len(),
{
    if events.len() == 0 {
        Seq::empty()
    } else {
        let made = reaction(pressed, events[0]);
        let rest = occurrences(pressed_after(pressed, made), events.drop_first());
        match made {
            Some(event) => seq![event] + rest,
            None => rest,
        }
    }
}

/// A press inside the button followed by a release makes a press and a
/// release, and the release says whether it happened inside: a click if it
/// did, a cancelled click if not.
pub proof fn law_press_and_release_make_a_click(inside: bool)
    ensures
        occurrences(
            false,
            seq![
                PanelEvent::MouseInput {
                    in_slot: true,
                    state: ElementState::Pressed,
                    button: MouseButton::Left,
                },
                PanelEvent::MouseInput {
                    in_slot: inside,
                    state: ElementState::Released,
                    button: MouseButton::Left,
                },
            ],
        ) == seq![ButtonEvent::Press, ButtonEvent::Release(inside)],
{
    let press = PanelEvent::MouseInput {
        in_slot: true,
        state: ElementState::Pressed,
        button: MouseButton::Left,
    };
    let release = PanelEvent::MouseInput {
        in_slot: inside,
        state: ElementState::Released,
        button: MouseButton::Left,
    };
    let both = seq![press, release];
    assert(both.drop_first() == seq![release]);
    assert(seq![release].drop_first() == Seq::<PanelEvent>::empty());
    reveal_with_fuel(occurrences, 3);
    assert(occurrences(true, seq![release]) == seq![ButtonEvent::Release(inside)]);
}

/// A release without a press before it makes nothing.
pub proof fn law_lone_release_makes_nothing(inside: bool)
    ensures
        occurrences(
            false,
            seq![
                PanelEvent::MouseInput {
                    in_slot: inside,
                    state: ElementState::Released,
                    button: MouseButton::Left,
                },
            ],
        ) == Seq::<ButtonEvent>::empty(),
{
    let release = PanelEvent::MouseInput {
        in_slot: inside,
        state: ElementState::Released,
        button: MouseButton::Left,
    };
    assert(seq![release].drop_first() == Seq::<PanelEvent>::empty());
    reveal_with_fuel(occurrences, 2);
}

/// Whatever a button gets, it never makes a release that no press stands
/// behind: the button event just before a release is a press, and if a
/// release is the first button event of all, the button was held down to
/// begin with.
pub proof fn law_every_release_follows_a_press(pressed: bool, events: Seq<PanelEvent>, at: int)
    requires
        0 <= at < occurrences(pressed, events).len(),
        occurrences(pressed, events)[at] is Release,
    ensures
        if at == 0 {
            pressed
        } else {
            occurrences(pressed, events)[at - 1] == ButtonEvent::Press
        },
    decreases events.len(),
{
    if events.len() > 0 {
        let made = reaction(pressed, events[0]);
        let then = pressed_after(pressed, made);
        let rest = occurrences(then, events.drop_first());
        match made {
            Some(event) => {
                assert(occurrences(pressed, events) == seq![event] + rest);
                if at > 0 {
                    law_every_release_follows_a_press(then, events.drop_first(), at - 1);
                }
            },
            None => {
                law_every_release_follows_a_press(then, events.drop_first(), at);
            },
        }
    }
}

} // verus!

//! A plain skin for a button: a text on a background that darkens while the
//! button is held down.

use super::bus::Provenance;
use super::button::{ButtonEvent, ButtonSkin};
use super::dispatch::Step;
use super::event::PanelEvent;
use super::identity::{Identity, IdentitySource};
use super::layer_stack::{pushed, LayerStack, LayerStackParams, StackCourse, StackDispatch};
use async_event_streams::{EventStream, SentEvent};
use vstd::prelude::*;

verus! {

/// How a [`SimpleButtonSkin`] colours its background.
#[derive(Clone, Copy, Debug, PartialEq, Eq, Hash, Structural)]
pub enum SkinColor {
    /// The colour of a button at rest.
    Magenta,
    /// The colour of a button that is held down.
    DarkMagenta,
}

/// The colour that shows a button event.
pub open spec fn shade(event: ButtonEvent) -> SkinColor {
    match event {
        ButtonEvent::Press => SkinColor::DarkMagenta,
        ButtonEvent::Release(_) => SkinColor::Magenta,
    }
}

/// A plain skin: a text on a coloured background, which darkens while the
/// button is held down. The two are the layers of a stack, the text on top,
/// and the skin routes panel events as that stack does.
pub struct SimpleButtonSkin {
    id: Identity,
    layer_stack: LayerStack,
    text: Identity,
    background: Identity,
}

impl SimpleButtonSkin {
    /// The identity of the skin. It is the skin's own: neither its stack
    /// nor its text nor its background has it.
    pub closed spec fn identity(&self) -> Identity {
        self.id
    }

    /// The identity of the panel with the skin's text.
    pub closed spec fn text(&self) -> Identity {
        self.text
    }

    /// The identity of the panel with the skin's background.
    pub closed spec fn background(&self) -> Identity {
        self.background
    }

    /// The layers of the skin, from the topmost down.
    pub closed spec fn layers(&self) -> Seq<Identity> {
        self.layer_stack@
    }

    /// The identity of the stack that holds the skin's layers.
    pub closed spec fn frame(&self) -> Identity {
        self.layer_stack.identity()
    }

    /// The panel events that wait on the outward stream of the skin's stack,
    /// each with its provenance.
    pub closed spec fn emitted(&self) -> Seq<(PanelEvent, Provenance)> {
        self.layer_stack.emitted()
    }

    /// That the outward stream of the skin's stack was called to send
    /// `event` with `source` and gave `handle`.
    pub closed spec fn sent_out(
        &self,
        event: PanelEvent,
        source: Provenance,
        handle: SentEvent,
    ) -> bool {
        self.layer_stack.sent_out(event, source, handle)
    }

    /// That the outward stream of the skin's stack was called to register a
    /// subscriber and gave `stream`.
    pub closed spec fn subscribed(&self, stream: EventStream<PanelEvent>) -> bool {
        self.layer_stack.subscribed(stream)
    }

    /// A skin made of a background and, on top of it, a text. The stack
    /// that holds the two and the skin itself each get an identity of their
    /// own, minted from `ids` in that order. There is no skin, and `ids` is
    /// left as it was, if `ids` has fewer than two identities left to give.
    pub fn new(ids: &mut IdentitySource, background: Identity, text: Identity) -> (made: Option<
        Self,
    >)
        ensures
            match made {
                Some(skin) => {
                    &&& IdentitySource::mints_two(
                        *old(ids),
                        *final(ids),
                        skin.frame(),
                        skin.identity(),
                    )
                    &&& skin.text() == text
                    &&& skin.background() == background
                    &&& skin.layers() == seq![text, background]
                    &&& skin.emitted() == Seq::<(PanelEvent, Provenance)>::empty()
                },
                None => old(ids).issued() + 2 > u64::MAX && *final(ids) == *old(ids),
            },
    {
        if ids.left() < 2 {
            return None;
        }
        let params = LayerStackParams::new().push_panel(background).push_panel(text);
        assert(pushed(pushed(Seq::empty(), background), text) == seq![text, background]);
        match LayerStack::new(ids, params) {
            Some(layer_stack) => match ids.mint() {
                Some(id) => Some(SimpleButtonSkin { id, layer_stack, text, background }),
                None => None,
            },
            None => None,
        }
    }

    /// The stack that holds the skin's layers.
    pub fn layer_stack(&self) -> (stack: &LayerStack)
        ensures
            stack@ == self.layers(),
            stack.identity() == self.frame(),
            stack.emitted() == self.emitted(),
    {
        &self.layer_stack
    }

    /// The identity of the panel whose colour shows the button's state.
    pub fn background_panel(&self) -> (background: Identity)
        ensures
            background == self.background(),
    {
        self.background
    }

    /// Subscribes to the panel events that the skin has routed: the stream
    /// is a new subscriber of the outward stream of the skin's stack, on
    /// which what the skin routes goes out.
    pub fn event_stream(&self) -> (stream: EventStream<PanelEvent>)
        ensures
            self.subscribed(stream),
    {
        self.layer_stack.event_stream()
    }

    /// Says how to show a button event: the colour that the background is
    /// to take.
    pub fn on_button_event(&self, event: &ButtonEvent) -> (color: SkinColor)
        ensures
            color == shade(*event),
    {
        match event {
            ButtonEvent::Press => SkinColor::DarkMagenta,
            ButtonEvent::Release(_) => SkinColor::Magenta,
        }
    }

    /// Begins the dispatch of a panel event that reached the skin: it is
    /// routed to the skin's layers as their stack routes it.
    pub fn on_event<E>(&self, event: PanelEvent, source: Provenance) -> (dispatch: StackDispatch<E>)
        ensures
            dispatch@ == StackCourse::begin(self.layers(), event),
            dispatch.failure() is None,
            dispatch.source() == source,
    {
        self.layer_stack.on_event(event, source)
    }

    /// Issues the next step of a dispatch, as the skin's stack does.
    pub fn next<E>(&mut self, dispatch: &mut StackDispatch<E>) -> (issued: (
        Step,
        Option<SentEvent>,
    ))
        ensures
            issued.0 == old(dispatch)@.pending(),
            issued.1 is Some <==> issued.0 is Emitted,
            final(dispatch)@ == old(dispatch)@.advanced(),
            final(dispatch).failure() == old(dispatch).failure(),
            final(dispatch).source() == old(dispatch).source(),
            final(self).emitted() == if issued.0 is Emitted {
                old(self).emitted().push((old(dispatch)@.event, old(dispatch).source()))
            } else {
                old(self).emitted()
            },
            issued.1 matches Some(handle) ==> final(self).sent_out(
                old(dispatch)@.event,
                old(dispatch).source(),
                handle,
            ),
            final(self).layers() == old(self).layers(),
            final(self).identity() == old(self).identity(),
            final(self).text() == old(self).text(),
            final(self).background() == old(self).background(),
            final(self).frame() == old(self).frame(),
    {
        self.layer_stack.next(dispatch)
    }
}

impl ButtonSkin for SimpleButtonSkin {
    fn id(&self) -> (id: Identity)
        ensures
            id == self.identity(),
    {
        self.id
    }
}

} // verus!

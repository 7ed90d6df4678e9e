use std::sync::Arc;

use async_event_streams::{EventBox, SentEvent};
use futures::executor::block_on;
use futures::{FutureExt, StreamExt};
use panel_stack::gui::{
    Bus, ElementState, IdentitySource, MouseButton, PanelEvent, Size, Step, Surface, SurfaceEvent,
};

/// An occurrence to serve as provenance, and the handle that is done once
/// nothing holds the occurrence any more.
fn occurrence() -> (Option<Arc<EventBox>>, SentEvent) {
    let mut cause: Bus<u32> = Bus::new();
    let mut stream = cause.subscribe();
    let sent = cause.send(1, None);
    let event = stream.next().now_or_never().unwrap().unwrap();
    (event.into(), sent)
}

fn surface() -> Surface {
    let mut ids = IdentitySource::new();
    Surface::new(&mut ids).unwrap()
}

fn square(side: u32) -> Size {
    Size { width: side, height: side }
}

/// Runs one dispatch to its end. The driver fails the step that `fails`
/// names.
fn drive(surface: &mut Surface, event: PanelEvent, fails: Option<Step>) -> (Vec<Step>, Result<(), u32>) {
    let mut dispatch = surface.on_event::<u32>(event, None);
    let mut steps = Vec::new();
    loop {
        let (step, sent) = surface.next(&mut dispatch);
        steps.push(step);
        assert_eq!(sent.is_some(), step == Step::Emitted);
        if Some(step) == fails {
            dispatch.fail(steps.len() as u32);
        }
        if step == Step::Complete || step == Step::Abort {
            return (steps, dispatch.finish());
        }
    }
}

#[test]
fn only_the_newest_redraw_waits() {
    let mut surface = surface();
    let mut redraws = surface.redraw_stream();
    drive(&mut surface, PanelEvent::Resized(square(50)), None);
    drive(&mut surface, PanelEvent::Resized(square(75)), None);
    drop(surface);
    let seen: Vec<SurfaceEvent> = block_on(redraws.by_ref().map(|event| *event).collect());
    assert_eq!(seen, vec![SurfaceEvent::Redraw(square(75))]);
}

#[test]
fn a_redraw_that_was_read_is_not_taken_back() {
    let mut surface = surface();
    let mut redraws = surface.redraw_stream();
    drive(&mut surface, PanelEvent::Resized(square(50)), None);
    let first = redraws.next().now_or_never().unwrap().unwrap();
    drive(&mut surface, PanelEvent::Resized(square(75)), None);
    let second = redraws.next().now_or_never().unwrap().unwrap();
    assert_eq!(*first, SurfaceEvent::Redraw(square(50)));
    assert_eq!(*second, SurfaceEvent::Redraw(square(75)));
    assert!(redraws.next().now_or_never().is_none());
}

#[test]
fn many_resizes_leave_one_redraw() {
    let mut surface = surface();
    let mut redraws = surface.redraw_stream();
    for side in 1..=20 {
        drive(&mut surface, PanelEvent::Resized(square(side)), None);
    }
    drop(surface);
    let seen: Vec<SurfaceEvent> = block_on(redraws.by_ref().map(|event| *event).collect());
    assert_eq!(seen, vec![SurfaceEvent::Redraw(square(20))]);
}

#[test]
fn the_steps_of_a_resize() {
    let mut surface = surface();
    let size = Size { width: 100, height: 200 };
    let mut observer = surface.event_stream();
    let (steps, result) = drive(&mut surface, PanelEvent::Resized(size), None);
    assert_eq!(steps, vec![Step::Resize(size), Step::Emitted, Step::Complete]);
    assert_eq!(result, Ok(()));
    drop(surface);
    let seen: Vec<PanelEvent> = block_on(observer.by_ref().map(|event| *event).collect());
    assert_eq!(seen, vec![PanelEvent::Resized(size)]);
}

#[test]
fn a_frame_that_cannot_be_resized_asks_for_no_redraw() {
    let mut surface = surface();
    let size = Size { width: 100, height: 200 };
    let mut redraws = surface.redraw_stream();
    let mut observer = surface.event_stream();
    let (steps, result) = drive(&mut surface, PanelEvent::Resized(size), Some(Step::Resize(size)));
    assert_eq!(steps, vec![Step::Resize(size), Step::Abort]);
    assert_eq!(result, Err(1));
    drop(surface);
    let asked: Vec<SurfaceEvent> = block_on(redraws.by_ref().map(|event| *event).collect());
    let seen: Vec<PanelEvent> = block_on(observer.by_ref().map(|event| *event).collect());
    assert_eq!(asked, vec![]);
    assert_eq!(seen, vec![]);
}

#[test]
fn a_failed_resize_keeps_the_redraw_that_waited() {
    let mut surface = surface();
    let mut redraws = surface.redraw_stream();
    drive(&mut surface, PanelEvent::Resized(square(50)), None);
    drive(&mut surface, PanelEvent::Resized(square(75)), Some(Step::Resize(square(75))));
    drop(surface);
    let seen: Vec<SurfaceEvent> = block_on(redraws.by_ref().map(|event| *event).collect());
    assert_eq!(seen, vec![SurfaceEvent::Redraw(square(50))]);
}

#[test]
fn other_events_pass_through_without_a_redraw() {
    let mut surface = surface();
    let mut redraws = surface.redraw_stream();
    let mut observer = surface.event_stream();
    let click = PanelEvent::MouseInput {
        in_slot: true,
        state: ElementState::Pressed,
        button: MouseButton::Left,
    };
    for event in [click, PanelEvent::Other(3)] {
        let (steps, result) = drive(&mut surface, event, None);
        assert_eq!(steps, vec![Step::Emitted, Step::Complete]);
        assert_eq!(result, Ok(()));
    }
    drop(surface);
    let asked: Vec<SurfaceEvent> = block_on(redraws.by_ref().map(|event| *event).collect());
    let seen: Vec<PanelEvent> = block_on(observer.by_ref().map(|event| *event).collect());
    assert_eq!(asked, vec![]);
    assert_eq!(seen, vec![click, PanelEvent::Other(3)]);
}

#[test]
fn other_events_leave_the_waiting_redraw_alone() {
    let mut surface = surface();
    let mut redraws = surface.redraw_stream();
    drive(&mut surface, PanelEvent::Resized(square(50)), None);
    drive(&mut surface, PanelEvent::Other(3), None);
    drop(surface);
    let seen: Vec<SurfaceEvent> = block_on(redraws.by_ref().map(|event| *event).collect());
    assert_eq!(seen, vec![SurfaceEvent::Redraw(square(50))]);
}

#[test]
fn the_identity_of_a_surface_does_not_change() {
    let mut ids = IdentitySource::new();
    let mut surface = Surface::new(&mut ids).unwrap();
    let id = surface.id();
    drive(&mut surface, PanelEvent::Resized(square(5)), None);
    assert_eq!(surface.id(), id);
    let other = Surface::new(&mut ids).unwrap();
    assert_ne!(surface.id(), other.id());
}

#[test]
fn a_surface_dispatch_that_is_over_stays_over() {
    let mut surface = surface();
    let mut dispatch = surface.on_event::<u32>(PanelEvent::Other(1), None);
    assert_eq!(surface.next(&mut dispatch).0, Step::Emitted);
    assert_eq!(surface.next(&mut dispatch).0, Step::Complete);
    assert_eq!(surface.next(&mut dispatch).0, Step::Complete);
    dispatch.fail(9);
    dispatch.fail(10);
    assert_eq!(surface.next(&mut dispatch).0, Step::Abort);
    assert_eq!(dispatch.finish(), Err(9));
}

#[test]
fn a_redraw_has_no_provenance() {
    let mut surface = surface();
    let mut redraws = surface.redraw_stream();
    let (source, mut caused) = occurrence();
    let mut dispatch = surface.on_event::<u32>(PanelEvent::Resized(square(50)), source);
    assert_eq!(surface.next(&mut dispatch).0, Step::Resize(square(50)));
    assert_eq!(surface.next(&mut dispatch).0, Step::Emitted);
    assert_eq!(surface.next(&mut dispatch).0, Step::Complete);
    assert_eq!((&mut caused).now_or_never(), None);
    assert_eq!(dispatch.finish(), Ok(()));
    assert_eq!(caused.now_or_never(), Some(()));
    let redraw = redraws.next().now_or_never().unwrap().unwrap();
    assert_eq!(*redraw, SurfaceEvent::Redraw(square(50)));
}

#[test]
fn a_resize_goes_out_with_the_provenance_of_its_dispatch() {
    let mut surface = surface();
    let mut observer = surface.event_stream();
    let (source, mut caused) = occurrence();
    let mut dispatch = surface.on_event::<u32>(PanelEvent::Resized(square(50)), source);
    assert_eq!(surface.next(&mut dispatch).0, Step::Resize(square(50)));
    assert_eq!(surface.next(&mut dispatch).0, Step::Emitted);
    assert_eq!(surface.next(&mut dispatch).0, Step::Complete);
    assert_eq!(dispatch.finish(), Ok(()));
    assert_eq!((&mut caused).now_or_never(), None);
    let event = observer.next().now_or_never().unwrap().unwrap();
    assert_eq!(*event, PanelEvent::Resized(square(50)));
    drop(event);
    assert_eq!(caused.now_or_never(), Some(()));
}

#[test]
fn any_other_event_goes_out_with_the_provenance_of_its_dispatch() {
    let mut surface = surface();
    let mut observer = surface.event_stream();
    let (source, mut caused) = occurrence();
    let mut dispatch = surface.on_event::<u32>(PanelEvent::Other(3), source);
    assert_eq!(surface.next(&mut dispatch).0, Step::Emitted);
    assert_eq!(surface.next(&mut dispatch).0, Step::Complete);
    assert_eq!(dispatch.finish(), Ok(()));
    assert_eq!((&mut caused).now_or_never(), None);
    let event = observer.next().now_or_never().unwrap().unwrap();
    assert_eq!(*event, PanelEvent::Other(3));
    drop(event);
    assert_eq!(caused.now_or_never(), Some(()));
}

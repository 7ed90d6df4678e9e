use std::sync::Arc;

use async_event_streams::{EventBox, SentEvent};
use futures::executor::block_on;
use futures::{FutureExt, StreamExt};
use panel_stack::gui::{
    Bus, ElementState, Identity, IdentitySource, LayerStack, LayerStackParams, MouseButton,
    PanelEvent, Size, Step,
};

/// An occurrence to serve as provenance, and the handle that is done once
/// nothing holds the occurrence any more.
fn occurrence() -> (Option<Arc<EventBox>>, SentEvent) {
    let mut cause: Bus<u32> = Bus::new();
    let mut stream = cause.subscribe();
    let sent = cause.send(1, None);
    let event = stream.next().now_or_never().unwrap().unwrap();
    (event.into(), sent)
}

fn three_layers() -> (LayerStack, Identity, Identity, Identity) {
    let mut ids = IdentitySource::new();
    let bottom = ids.mint().unwrap();
    let mid = ids.mint().unwrap();
    let top = ids.mint().unwrap();
    let mut stack = LayerStack::new(&mut ids, LayerStackParams::new()).unwrap();
    stack.push_panel(bottom);
    stack.push_panel(mid);
    stack.push_panel(top);
    (stack, top, mid, bottom)
}

fn press() -> PanelEvent {
    PanelEvent::MouseInput { in_slot: true, state: ElementState::Pressed, button: MouseButton::Left }
}

/// Runs one dispatch to its end. The driver fails the step that `fails`
/// names, with that step's description as the error.
fn drive(
    stack: &mut LayerStack,
    event: PanelEvent,
    fails: Option<Step>,
) -> (Vec<Step>, Result<(), String>) {
    let mut dispatch = stack.on_event::<String>(event, None);
    let mut steps = Vec::new();
    loop {
        let (step, sent) = stack.next(&mut dispatch);
        steps.push(step);
        assert_eq!(sent.is_some(), step == Step::Emitted);
        if Some(step) == fails {
            dispatch.fail(format!("{:?} failed", step));
        }
        if step == Step::Complete || step == Step::Abort {
            return (steps, dispatch.finish());
        }
    }
}

#[test]
fn the_panel_pushed_last_is_the_topmost() {
    let mut ids = IdentitySource::new();
    let a = ids.mint().unwrap();
    let b = ids.mint().unwrap();
    let c = ids.mint().unwrap();
    let mut stack = LayerStack::new(&mut ids, LayerStackParams::new()).unwrap();
    assert_eq!(stack.top(), None);
    stack.push_panel(a);
    assert_eq!(stack.top(), Some(a));
    stack.push_panel(b);
    stack.push_panel(c);
    assert_eq!(stack.top(), Some(c));
    assert_eq!(stack.layers(), vec![c, b, a]);
}

#[test]
fn removing_a_panel_keeps_the_order_of_the_others() {
    let mut ids = IdentitySource::new();
    let a = ids.mint().unwrap();
    let b = ids.mint().unwrap();
    let c = ids.mint().unwrap();
    let mut stack = LayerStack::new(&mut ids, LayerStackParams::new()).unwrap();
    stack.push_panel(a);
    stack.push_panel(b);
    stack.push_panel(c);
    assert_eq!(stack.remove_panel(b), Some(1));
    assert_eq!(stack.layers(), vec![c, a]);
    assert_eq!(stack.top(), Some(c));
}

#[test]
fn removing_a_panel_that_is_not_there_changes_nothing() {
    let (mut stack, top, mid, bottom) = three_layers();
    let stranger = stack.id();
    assert_eq!(stack.position(stranger), None);
    assert_eq!(stack.remove_panel(stranger), None);
    assert_eq!(stack.layers(), vec![top, mid, bottom]);
    assert_eq!(stack.remove_panel(mid), Some(1));
    assert_eq!(stack.remove_panel(mid), None);
    assert_eq!(stack.layers(), vec![top, bottom]);
}

#[test]
fn removing_from_an_empty_stack_changes_nothing() {
    let mut ids = IdentitySource::new();
    let a = ids.mint().unwrap();
    let mut stack = LayerStack::new(&mut ids, LayerStackParams::new()).unwrap();
    assert_eq!(stack.remove_panel(a), None);
    assert_eq!(stack.layers(), Vec::<Identity>::new());
}

#[test]
fn of_a_panel_pushed_twice_the_upper_one_is_removed() {
    let mut ids = IdentitySource::new();
    let a = ids.mint().unwrap();
    let b = ids.mint().unwrap();
    let mut stack = LayerStack::new(&mut ids, LayerStackParams::new()).unwrap();
    stack.push_panel(a);
    stack.push_panel(b);
    stack.push_panel(a);
    assert_eq!(stack.layers(), vec![a, b, a]);
    assert_eq!(stack.position(a), Some(0));
    assert_eq!(stack.remove_panel(a), Some(0));
    assert_eq!(stack.layers(), vec![b, a]);
    assert_eq!(stack.position(a), Some(1));
}

#[test]
fn position_counts_from_the_top() {
    let (stack, top, mid, bottom) = three_layers();
    assert_eq!(stack.position(top), Some(0));
    assert_eq!(stack.position(mid), Some(1));
    assert_eq!(stack.position(bottom), Some(2));
}

#[test]
fn a_stack_starts_with_the_layers_of_its_params() {
    let mut ids = IdentitySource::new();
    let background = ids.mint().unwrap();
    let text = ids.mint().unwrap();
    let params = LayerStackParams::new().push_panel(background).push_panel(text);
    let stack = LayerStack::new(&mut ids, params).unwrap();
    assert_eq!(stack.id().raw(), 2);
    assert_eq!(ids.mint().unwrap().raw(), 3);
    assert_eq!(stack.layers(), vec![text, background]);
    assert_eq!(stack.bottom_up(), vec![background, text]);
    assert_eq!(stack.into_layers(), vec![text, background]);
}

#[test]
fn bottom_up_of_an_empty_stack_is_empty() {
    let mut ids = IdentitySource::new();
    let stack = LayerStack::new(&mut ids, LayerStackParams::new()).unwrap();
    assert_eq!(stack.bottom_up(), Vec::<Identity>::new());
}

#[test]
fn the_identity_of_a_stack_does_not_change() {
    let (mut stack, _top, mid, _bottom) = three_layers();
    let id = stack.id();
    stack.remove_panel(mid);
    stack.push_panel(mid);
    drive(&mut stack, press(), None);
    assert_eq!(stack.id(), id);
    assert_eq!(stack.id(), stack.id());
}

#[test]
fn a_resize_reaches_every_layer_in_order() {
    let (mut stack, top, mid, bottom) = three_layers();
    let size = Size { width: 100, height: 200 };
    let mut observer = stack.event_stream();
    let (steps, result) = drive(&mut stack, PanelEvent::Resized(size), None);
    assert_eq!(
        steps,
        vec![
            Step::Resize(size),
            Step::Deliver(top),
            Step::Deliver(mid),
            Step::Deliver(bottom),
            Step::Emitted,
            Step::Complete,
        ]
    );
    assert_eq!(result, Ok(()));
    drop(stack);
    let seen: Vec<PanelEvent> = block_on(observer.by_ref().map(|event| *event).collect());
    assert_eq!(seen, vec![PanelEvent::Resized(size)]);
}

#[test]
fn a_failing_layer_ends_the_resize_for_the_layers_below() {
    let (mut stack, top, mid, _bottom) = three_layers();
    let size = Size { width: 100, height: 200 };
    let mut observer = stack.event_stream();
    let (steps, result) = drive(&mut stack, PanelEvent::Resized(size), Some(Step::Deliver(mid)));
    assert_eq!(
        steps,
        vec![Step::Resize(size), Step::Deliver(top), Step::Deliver(mid), Step::Abort]
    );
    assert_eq!(result, Err(format!("{:?} failed", Step::Deliver(mid))));
    drop(stack);
    let seen: Vec<PanelEvent> = block_on(observer.by_ref().map(|event| *event).collect());
    assert_eq!(seen, vec![]);
}

#[test]
fn a_frame_that_cannot_be_resized_ends_the_dispatch_at_once() {
    let (mut stack, _top, _mid, _bottom) = three_layers();
    let size = Size { width: 10, height: 20 };
    let (steps, result) = drive(&mut stack, PanelEvent::Resized(size), Some(Step::Resize(size)));
    assert_eq!(steps, vec![Step::Resize(size), Step::Abort]);
    assert_eq!(result, Err(format!("{:?} failed", Step::Resize(size))));
}

#[test]
fn pointer_input_reaches_the_top_layer_only() {
    let (mut stack, top, _mid, _bottom) = three_layers();
    let (steps, result) = drive(&mut stack, press(), None);
    assert_eq!(steps, vec![Step::Deliver(top), Step::Emitted, Step::Complete]);
    assert_eq!(result, Ok(()));
}

#[test]
fn pointer_input_does_not_fall_through_when_the_top_layer_fails() {
    let (mut stack, top, _mid, _bottom) = three_layers();
    let (steps, result) = drive(&mut stack, press(), Some(Step::Deliver(top)));
    assert_eq!(steps, vec![Step::Deliver(top), Step::Abort]);
    assert_eq!(result, Err(format!("{:?} failed", Step::Deliver(top))));
}

#[test]
fn pointer_input_to_an_empty_stack_is_dropped() {
    let mut ids = IdentitySource::new();
    let mut stack = LayerStack::new(&mut ids, LayerStackParams::new()).unwrap();
    let (steps, result) = drive(&mut stack, press(), None);
    assert_eq!(steps, vec![Step::Emitted, Step::Complete]);
    assert_eq!(result, Ok(()));
}

#[test]
fn any_other_event_reaches_every_layer_without_a_resize() {
    let (mut stack, top, mid, bottom) = three_layers();
    let (steps, result) = drive(&mut stack, PanelEvent::Other(9), None);
    assert_eq!(
        steps,
        vec![
            Step::Deliver(top),
            Step::Deliver(mid),
            Step::Deliver(bottom),
            Step::Emitted,
            Step::Complete,
        ]
    );
    assert_eq!(result, Ok(()));
}

#[test]
fn any_other_event_stops_at_the_first_layer_that_fails() {
    let (mut stack, top, _mid, _bottom) = three_layers();
    let (steps, result) = drive(&mut stack, PanelEvent::Other(9), Some(Step::Deliver(top)));
    assert_eq!(steps, vec![Step::Deliver(top), Step::Abort]);
    assert!(result.is_err());
}

#[test]
fn a_dispatch_goes_by_the_layers_it_began_with() {
    let (mut stack, top, mid, bottom) = three_layers();
    let mut dispatch = stack.on_event::<String>(PanelEvent::Other(1), None);
    assert_eq!(stack.next(&mut dispatch).0, Step::Deliver(top));
    stack.remove_panel(mid);
    stack.push_panel(mid);
    assert_eq!(stack.next(&mut dispatch).0, Step::Deliver(mid));
    assert_eq!(stack.next(&mut dispatch).0, Step::Deliver(bottom));
    assert_eq!(stack.next(&mut dispatch).0, Step::Emitted);
    assert_eq!(stack.next(&mut dispatch).0, Step::Complete);
    assert_eq!(stack.layers(), vec![mid, top, bottom]);
}

#[test]
fn a_dispatch_that_is_over_stays_over() {
    let (mut stack, top, _mid, _bottom) = three_layers();
    let mut done = stack.on_event::<String>(press(), None);
    assert_eq!(stack.next(&mut done).0, Step::Deliver(top));
    assert_eq!(stack.next(&mut done).0, Step::Emitted);
    assert_eq!(stack.next(&mut done).0, Step::Complete);
    assert_eq!(stack.next(&mut done).0, Step::Complete);
    let mut failed = stack.on_event::<String>(press(), None);
    assert_eq!(stack.next(&mut failed).0, Step::Deliver(top));
    failed.fail("no".to_string());
    assert_eq!(stack.next(&mut failed).0, Step::Abort);
    assert_eq!(stack.next(&mut failed).0, Step::Abort);
    assert_eq!(failed.finish(), Err("no".to_string()));
}

#[test]
fn a_dispatch_keeps_the_first_failure() {
    let (stack, _top, _mid, _bottom) = three_layers();
    let mut dispatch = stack.on_event::<u32>(press(), None);
    dispatch.fail(1);
    dispatch.fail(2);
    assert_eq!(dispatch.finish(), Err(1));
}

#[test]
fn the_handle_of_an_emitted_event_is_done_when_the_observers_are() {
    let (mut stack, top, _mid, _bottom) = three_layers();
    let mut observer = stack.event_stream();
    let mut dispatch = stack.on_event::<String>(press(), None);
    assert_eq!(stack.next(&mut dispatch).0, Step::Deliver(top));
    let (step, sent) = stack.next(&mut dispatch);
    assert_eq!(step, Step::Emitted);
    let mut sent = sent.unwrap();
    assert_eq!((&mut sent).now_or_never(), None);
    let event = observer.next().now_or_never().unwrap().unwrap();
    assert_eq!(*event, press());
    drop(event);
    assert_eq!(sent.now_or_never(), Some(()));
    assert_eq!(stack.next(&mut dispatch).0, Step::Complete);
    assert_eq!(dispatch.finish(), Ok(()));
}

#[test]
fn observers_see_the_routed_events_in_order() {
    let (mut stack, _top, _mid, _bottom) = three_layers();
    let mut observer = stack.event_stream();
    drive(&mut stack, PanelEvent::Other(1), None);
    drive(&mut stack, press(), None);
    drive(&mut stack, PanelEvent::Other(2), Some(Step::Emitted));
    drop(stack);
    let seen: Vec<PanelEvent> = block_on(observer.by_ref().map(|event| *event).collect());
    assert_eq!(seen, vec![PanelEvent::Other(1), press(), PanelEvent::Other(2)]);
}

#[test]
fn a_routed_event_goes_out_with_the_provenance_of_its_dispatch() {
    let (mut stack, top, _mid, _bottom) = three_layers();
    let mut observer = stack.event_stream();
    let (source, mut caused) = occurrence();
    let mut dispatch = stack.on_event::<String>(press(), source);
    assert_eq!(stack.next(&mut dispatch).0, Step::Deliver(top));
    assert_eq!(stack.next(&mut dispatch).0, Step::Emitted);
    assert_eq!(stack.next(&mut dispatch).0, Step::Complete);
    assert_eq!(dispatch.finish(), Ok(()));
    assert_eq!((&mut caused).now_or_never(), None);
    let event = observer.next().now_or_never().unwrap().unwrap();
    assert_eq!(*event, press());
    assert_eq!((&mut caused).now_or_never(), None);
    drop(event);
    assert_eq!(caused.now_or_never(), Some(()));
}

#[test]
fn a_dispatch_that_fails_lets_go_of_its_provenance() {
    let (mut stack, top, _mid, _bottom) = three_layers();
    let mut observer = stack.event_stream();
    let (source, mut caused) = occurrence();
    let mut dispatch = stack.on_event::<String>(press(), source);
    assert_eq!(stack.next(&mut dispatch).0, Step::Deliver(top));
    dispatch.fail("no".to_string());
    assert_eq!(stack.next(&mut dispatch).0, Step::Abort);
    assert_eq!((&mut caused).now_or_never(), None);
    assert_eq!(dispatch.finish(), Err("no".to_string()));
    assert_eq!(caused.now_or_never(), Some(()));
    assert!(observer.next().now_or_never().is_none());
}

#[test]
fn stacks_from_one_source_have_identities_of_their_own() {
    let mut ids = IdentitySource::new();
    let one = LayerStack::new(&mut ids, LayerStackParams::new()).unwrap();
    let other = LayerStack::new(&mut ids, LayerStackParams::new()).unwrap();
    assert_ne!(one.id(), other.id());
    drop(one);
    let third = LayerStack::new(&mut ids, LayerStackParams::new()).unwrap();
    assert_ne!(third.id(), other.id());
    assert_eq!(third.id().raw(), 2);
}

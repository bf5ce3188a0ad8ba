use drag_test::{Bezier, Border, Button, Event, Interaction, Layer, MouseEvent, Rgb, State};
use iced::widget::canvas::Cursor;
use iced::{Point, Rectangle, Size};

const THIN: Layer = Layer::Outline(Border { width: 2, color: Rgb { r: 0, g: 0, b: 0 } });
const RED: Layer = Layer::Outline(Border { width: 10, color: Rgb { r: 255, g: 0, b: 0 } });

fn area() -> Rectangle {
    Rectangle { x: 10.0, y: 20.0, width: 100.0, height: 50.0 }
}

#[test]
fn at_rest_the_thin_outline_is_painted() {
    let shell = State::default();
    let widget = Bezier { state: &shell };
    let state = State::default();
    assert_eq!(widget.draw(&state), vec![Layer::StateDump, THIN]);
}

#[test]
fn while_dragging_the_red_outline_lies_on_top() {
    let shell = State::default();
    let widget = Bezier { state: &shell };
    let mut state = State::default();
    let here = Cursor::Available(Point::new(10.0, 10.0));
    widget.update(&mut state, Event::Mouse(MouseEvent::ButtonPressed(Button::Left)), here);
    assert_eq!(widget.draw(&state), vec![Layer::StateDump, THIN, RED]);
    widget.update(&mut state, Event::Mouse(MouseEvent::ButtonReleased(Button::Left)), here);
    assert_eq!(widget.draw(&state), vec![Layer::StateDump, THIN]);
}

#[test]
fn a_crosshair_over_the_widget() {
    let shell = State::default();
    let widget = Bezier { state: &shell };
    let inside = Cursor::Available(Point::new(50.0, 40.0));
    assert_eq!(widget.mouse_interaction(area(), inside), Interaction::Crosshair);
    let corner = Cursor::Available(Point::new(110.0, 70.0));
    assert_eq!(widget.mouse_interaction(area(), corner), Interaction::Crosshair);
}

#[test]
fn the_default_shape_elsewhere() {
    let shell = State::default();
    let widget = Bezier { state: &shell };
    let left_of_it = Cursor::Available(Point::new(5.0, 40.0));
    assert_eq!(widget.mouse_interaction(area(), left_of_it), Interaction::Idle);
    let below_it = Cursor::Available(Point::new(50.0, 70.5));
    assert_eq!(widget.mouse_interaction(area(), below_it), Interaction::Idle);
    assert_eq!(widget.mouse_interaction(area(), Cursor::Unavailable), Interaction::Idle);
}

#[test]
fn the_shape_follows_the_answer() {
    assert_eq!(Bezier::interaction_for(true), Interaction::Crosshair);
    assert_eq!(Bezier::interaction_for(false), Interaction::Idle);
}

fn paint(state: &State) -> bool {
    let mut painted = false;
    let _ = state.cache().draw(Size::new(40.0, 30.0), |_frame| painted = true);
    painted
}

#[test]
fn a_new_widget_is_painted_once() {
    let state = State::default();
    assert!(paint(&state));
    assert!(!paint(&state));
}

#[test]
fn request_redraw_forces_the_next_painting() {
    let mut state = State::default();
    assert!(paint(&state));
    assert!(!paint(&state));
    state.request_redraw();
    assert!(paint(&state));
    assert!(!paint(&state));
}

#[test]
fn request_redraw_keeps_pointer_and_drag() {
    let shell = State::default();
    let widget = Bezier { state: &shell };
    let mut state = State::default();
    let here = Cursor::Available(Point::new(7.0, 8.0));
    widget.update(&mut state, Event::Mouse(MouseEvent::ButtonPressed(Button::Left)), here);
    state.request_redraw();
    assert!(state.dragging());
    assert_eq!(state.cursor(), Some(here));
}

#[test]
fn events_leave_the_painting_alone() {
    let shell = State::default();
    let widget = Bezier { state: &shell };
    let mut state = State::default();
    assert!(paint(&state));
    let here = Cursor::Available(Point::new(7.0, 8.0));
    widget.update(&mut state, Event::Mouse(MouseEvent::ButtonPressed(Button::Left)), here);
    widget.update(&mut state, Event::Keyboard, here);
    assert!(!paint(&state));
}

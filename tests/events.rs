use piston_app::events::{dispatch, Callback, Dispatcher, EventParts};

type Parts = EventParts<f64, f64, u32, [f64; 2]>;
type Call = Callback<f64, f64, u32, [f64; 2]>;

fn render(dt: f64) -> Parts {
    EventParts { render: Some(dt), update: None, button: None, pointer_move: None }
}

fn update(dt: f64) -> Parts {
    EventParts { render: None, update: Some(dt), button: None, pointer_move: None }
}

fn button(code: u32) -> Parts {
    EventParts { render: None, update: None, button: Some(code), pointer_move: None }
}

fn pointer(x: f64, y: f64) -> Parts {
    EventParts { render: None, update: None, button: None, pointer_move: Some([x, y]) }
}

fn nothing() -> Parts {
    EventParts { render: None, update: None, button: None, pointer_move: None }
}

fn run(source: Vec<Parts>) -> (Vec<Call>, Dispatcher<f64, f64, u32, [f64; 2]>) {
    let mut d = Dispatcher::new();
    let mut source = source.into_iter();
    let mut calls = Vec::new();
    while d.is_running() {
        calls.extend(d.step(source.next()));
    }
    (calls, d)
}

#[test]
fn scripted_events_reach_callbacks_in_order() {
    let (calls, d) = run(vec![render(0.5), update(0.25), button(42), pointer(3.0, 4.5), render(0.75)]);
    assert_eq!(
        calls,
        vec![
            Callback::Draw(0.5),
            Callback::Update(0.25),
            Callback::Input(42),
            Callback::PointerMove([3.0, 4.5]),
            Callback::Draw(0.75),
        ]
    );
    assert!(!d.is_running());
}

#[test]
fn one_drawing_scope_per_render_event() {
    let (calls, _) = run(vec![render(0.0), nothing(), render(0.0), button(1), render(0.0)]);
    let scopes = calls.iter().filter(|c| matches!(c, Callback::Draw(_))).count();
    assert_eq!(scopes, 3);
    assert_eq!(calls.len(), 4);
}

#[test]
fn exhausted_source_ends_the_loop() {
    let mut d: Dispatcher<f64, f64, u32, [f64; 2]> = Dispatcher::new();
    assert!(d.is_running());
    assert_eq!(d.step(Some(update(1.0))), vec![Callback::Update(1.0)]);
    assert!(d.step(None).is_empty());
    assert!(!d.is_running());
    assert!(d.step(Some(render(1.0))).is_empty());
    assert!(d.step(Some(pointer(1.0, 2.0))).is_empty());
    assert!(!d.is_running());
}

#[test]
fn empty_source_makes_no_callback() {
    let (calls, d) = run(Vec::new());
    assert!(calls.is_empty());
    assert!(!d.is_running());
}

#[test]
fn every_part_of_one_event_is_routed_in_order() {
    let e = EventParts { render: Some(1.0), update: Some(2.0), button: Some(3), pointer_move: Some([4.0, 5.0]) };
    assert_eq!(
        dispatch(e),
        vec![Callback::Draw(1.0), Callback::Update(2.0), Callback::Input(3), Callback::PointerMove([4.0, 5.0])]
    );
}

#[test]
fn event_without_parts_makes_no_callback() {
    assert!(dispatch(nothing()).is_empty());
    let mut d: Dispatcher<f64, f64, u32, [f64; 2]> = Dispatcher::new();
    assert!(d.step(Some(nothing())).is_empty());
    assert!(d.is_running());
}

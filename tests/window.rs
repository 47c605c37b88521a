use piston_app::window::{ColorPrecision, WindowBuilder, OPENGL_MAJOR, OPENGL_MINOR};

#[test]
fn first_request_asks_for_enhanced_precision() {
    let b = WindowBuilder::new("demo", [640, 480]);
    assert!(!b.is_finished());
    let q = b.next_request().expect("an attempt is due");
    assert_eq!(q.title, "demo");
    assert_eq!(q.width, 640);
    assert_eq!(q.height, 480);
    assert!(q.exit_on_esc);
    assert_eq!((q.opengl_major, q.opengl_minor), (3, 2));
    assert_eq!((OPENGL_MAJOR, OPENGL_MINOR), (3, 2));
    assert_eq!(q.precision, ColorPrecision::Enhanced);
}

#[test]
fn enhanced_success_needs_no_fallback() {
    let mut b = WindowBuilder::new("demo", [800, 600]);
    let r = b.record(Ok::<u32, String>(7));
    assert!(matches!(r, Some(Ok(7))));
    assert!(b.is_finished());
    assert!(b.next_request().is_none());
}

#[test]
fn fallback_success_returns_fallback_window() {
    let mut b = WindowBuilder::new("demo", [800, 600]);
    let r = b.record(Err::<u32, String>("no sRGB surface".to_string()));
    assert!(r.is_none());
    assert!(!b.is_finished());
    let q = b.next_request().expect("the fallback attempt is due");
    assert_eq!(q.precision, ColorPrecision::Standard);
    assert_eq!(q.title, "demo");
    assert_eq!((q.width, q.height), (800, 600));
    assert!(q.exit_on_esc);
    let r = b.record(Ok::<u32, String>(9));
    assert!(matches!(r, Some(Ok(9))));
    assert!(b.is_finished());
    assert!(b.next_request().is_none());
}

#[test]
fn double_failure_reports_both_causes() {
    let mut b = WindowBuilder::new("demo", [1, 1]);
    assert!(b.record(Err::<u32, String>("first cause".to_string())).is_none());
    let f = match b.record(Err::<u32, String>("second cause".to_string())) {
        Some(Err(f)) => f,
        _ => panic!("both attempts failed, so the acquisition must fail"),
    };
    assert_eq!(f.enhanced, "first cause");
    assert_eq!(f.fallback, "second cause");
    assert_eq!(
        f.message(),
        "Failed to build a window: with sRGB: first cause; without sRGB: second cause"
    );
    assert!(b.is_finished());
    assert!(b.next_request().is_none());
}

#[test]
fn empty_title_and_zero_size_are_carried_over() {
    let b = WindowBuilder::new("", [0, 0]);
    let q = b.next_request().expect("an attempt is due");
    assert_eq!(q.title, "");
    assert_eq!((q.width, q.height), (0, 0));
}

#[test]
fn largest_size_is_carried_over() {
    let b = WindowBuilder::new("big", [u32::MAX, u32::MAX]);
    let q = b.next_request().expect("an attempt is due");
    assert_eq!((q.width, q.height), (u32::MAX, u32::MAX));
}

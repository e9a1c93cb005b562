use foray_render::bank::PipelineBank;
use foray_render::color::Channel;
use foray_render::color::RgbaColor;
use foray_render::frame::LoadOp;
use foray_render::frame::PassPipeline;
use foray_render::geometry::GeometryBuffers;
use foray_render::reactor::InputEvent;
use foray_render::reactor::InputReactor;
use foray_render::reactor::KeyCode;
use foray_render::reactor::PointerButton;
use foray_render::reactor::Reaction;
use foray_render::reactor::pointer_color_update;
use foray_render::session::FormatOption;
use foray_render::session::SurfaceSession;

fn ch(num: i64, den: i64) -> Channel {
    Channel { num, den }
}

fn white() -> RgbaColor {
    RgbaColor::new((ch(1, 1), ch(1, 1), ch(1, 1), ch(1, 1))).expect("white lies in [0, 1]^4")
}

fn session() -> SurfaceSession {
    SurfaceSession::initialize(
        &vec![FormatOption { id: 2, srgb: true }],
        &vec![0],
        &vec![0],
        800,
        600,
    )
    .expect("capability lists are non-empty")
}

fn bank() -> PipelineBank {
    let entries = vec![
        (String::from("vs_main"), String::from("fs_main")),
        (String::from("vs_main"), String::from("fs_main_pos")),
    ];
    PipelineBank::build(1, &entries).expect("entry list is non-empty")
}

#[test]
fn pointer_at_origin_yields_black() {
    let c = pointer_color_update(0, 0, 800, 600).expect("the origin lies inside the window");
    assert!(c.red().eqv(&ch(0, 1)));
    assert!(c.green().eqv(&ch(0, 1)));
    assert!(c.blue().eqv(&ch(0, 1)));
    assert!(c.alpha().eqv(&ch(1, 1)));
}

#[test]
fn pointer_at_far_corner_yields_white() {
    let c = pointer_color_update(800, 600, 800, 600).expect("the corner lies inside the window");
    assert!(c.red().eqv(&ch(1, 1)));
    assert!(c.green().eqv(&ch(1, 1)));
    assert!(c.blue().eqv(&ch(1, 1)));
    assert!(c.alpha().eqv(&ch(1, 1)));
}

#[test]
fn pointer_at_top_right_yields_half_blue() {
    let c = pointer_color_update(800, 0, 800, 600).expect("the corner lies inside the window");
    assert!(c.red().eqv(&ch(1, 1)));
    assert!(c.green().eqv(&ch(0, 1)));
    assert!(c.blue().eqv(&ch(1, 2)));
    assert!(c.alpha().eqv(&ch(1, 1)));
}

#[test]
fn pointer_normalization_is_exact_elsewhere_too() {
    let c = pointer_color_update(200, 150, 800, 600).expect("the point lies inside the window");
    assert!(c.red().eqv(&ch(1, 4)));
    assert!(c.green().eqv(&ch(1, 4)));
    assert!(c.blue().eqv(&ch(1, 4)));
}

#[test]
fn pointer_outside_the_window_yields_no_color() {
    assert!(pointer_color_update(801, 0, 800, 600).is_none());
    assert!(pointer_color_update(0, -1, 800, 600).is_none());
}

#[test]
fn pointer_in_degenerate_window_yields_no_color() {
    assert!(pointer_color_update(0, 0, 0, 600).is_none());
    assert!(pointer_color_update(0, 0, 800, 0).is_none());
    assert!(pointer_color_update(0, 0, -1, -1).is_none());
}

#[test]
fn resize_event_resizes_the_session() {
    let mut reactor = InputReactor::new(white());
    let mut s = session();
    let mut b = bank();
    let r = reactor.handle_event(&mut s, &mut b, None, InputEvent::WindowResized(1024, 768));
    assert_eq!(r, Reaction::Resized);
    assert_eq!(s.size, (1024, 768));
    assert_eq!(s.config.width, 1024);
    assert_eq!(s.config.height, 768);
    assert_eq!(b.selection, 0);
}

#[test]
fn degenerate_resize_event_changes_nothing() {
    let mut reactor = InputReactor::new(white());
    let mut s = session();
    let before = s;
    let mut b = bank();
    let r = reactor.handle_event(&mut s, &mut b, None, InputEvent::WindowResized(0, 768));
    assert_eq!(r, Reaction::Resized);
    assert_eq!(s, before);
}

#[test]
fn escape_key_requests_a_close() {
    let mut reactor = InputReactor::new(white());
    let mut s = session();
    let mut b = bank();
    let r = reactor.handle_event(&mut s, &mut b, None, InputEvent::KeyPressed(KeyCode::Escape));
    assert_eq!(r, Reaction::CloseRequested);
    assert_eq!(b.selection, 0);
}

#[test]
fn left_button_requests_a_close() {
    let mut reactor = InputReactor::new(white());
    let mut s = session();
    let mut b = bank();
    let r = reactor.handle_event(
        &mut s,
        &mut b,
        None,
        InputEvent::ButtonPressed(PointerButton::LeftButton),
    );
    assert_eq!(r, Reaction::CloseRequested);
}

#[test]
fn space_key_advances_the_selection_and_recomposes() {
    let mut reactor = InputReactor::new(white());
    let mut s = session();
    let mut b = bank();
    let g = GeometryBuffers::pentagon();
    let r = reactor.handle_event(&mut s, &mut b, Some(&g), InputEvent::KeyPressed(KeyCode::Space));
    assert_eq!(b.selection, 1);
    match r {
        Reaction::Recompose(plan) => {
            assert_eq!(plan.foreground.pipeline, PassPipeline::Selected(1));
            assert_eq!(plan.background.load, LoadOp::Clear(white()));
        }
        other => panic!("expected a recomposition, got {:?}", other),
    }
}

#[test]
fn pointer_move_replaces_the_color_and_recomposes() {
    let mut reactor = InputReactor::new(white());
    let mut s = session();
    let mut b = bank();
    let r = reactor.handle_event(&mut s, &mut b, None, InputEvent::PointerMoved(0, 0));
    let c = reactor.state.color;
    assert!(c.red().eqv(&ch(0, 1)));
    assert!(c.green().eqv(&ch(0, 1)));
    assert!(c.blue().eqv(&ch(0, 1)));
    assert!(c.alpha().eqv(&ch(1, 1)));
    match r {
        Reaction::Recompose(plan) => assert_eq!(plan.background.load, LoadOp::Clear(c)),
        other => panic!("expected a recomposition, got {:?}", other),
    }
}

#[test]
fn pointer_move_outside_keeps_the_previous_color() {
    let mut reactor = InputReactor::new(white());
    let mut s = session();
    let mut b = bank();
    let r = reactor.handle_event(&mut s, &mut b, None, InputEvent::PointerMoved(2000, 2000));
    assert_eq!(reactor.state.color, white());
    match r {
        Reaction::Recompose(plan) => assert_eq!(plan.background.load, LoadOp::Clear(white())),
        other => panic!("expected a recomposition, got {:?}", other),
    }
}

#[test]
fn other_keys_and_events_are_ignored() {
    let mut reactor = InputReactor::new(white());
    let mut s = session();
    let mut b = bank();
    let before_color = reactor.state.color;
    let r = reactor.handle_event(&mut s, &mut b, None, InputEvent::KeyPressed(KeyCode::OtherKey));
    assert_eq!(r, Reaction::Ignored);
    let r = reactor.handle_event(
        &mut s,
        &mut b,
        None,
        InputEvent::ButtonPressed(PointerButton::OtherButton),
    );
    assert_eq!(r, Reaction::Ignored);
    let r = reactor.handle_event(&mut s, &mut b, None, InputEvent::Unrecognized);
    assert_eq!(r, Reaction::Ignored);
    assert_eq!(reactor.state.color, before_color);
    assert_eq!(b.selection, 0);
}

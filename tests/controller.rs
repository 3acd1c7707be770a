use gpu_surface::controller::{
    Action, Bootstrap, Controller, Event, CANVAS_ID, WINDOW_HEIGHT, WINDOW_TITLE, WINDOW_WIDTH,
};
use gpu_surface::surface::{clear_color, Extent, State};
use wgpu::{CompositeAlphaMode, TextureFormat};

fn manager(width: u32, height: u32) -> State {
    State::new(
        &vec![TextureFormat::Rgba8Unorm, TextureFormat::Rgba8UnormSrgb],
        &vec![CompositeAlphaMode::Auto],
        Extent::new(width, height),
    )
    .unwrap()
}

fn started(bootstrap: Bootstrap) -> Controller {
    let mut c = Controller::new(bootstrap);
    assert!(matches!(c.handle(Event::Resumed), Action::CreateWindow(e) if e == Extent::new(400, 400)));
    assert!(matches!(c.handle(Event::WindowOpened), Action::StartInitialization(b) if b == bootstrap));
    c
}

#[test]
fn window_constants() {
    assert_eq!(WINDOW_TITLE, "Minecraft Launcher");
    assert_eq!(CANVAS_ID, "canvas");
    assert_eq!((WINDOW_WIDTH, WINDOW_HEIGHT), (400, 400));
}

#[test]
fn events_before_ready_are_ignored() {
    let mut c = Controller::new(Bootstrap::Blocking);
    assert!(matches!(c.handle(Event::RedrawRequested), Action::Nothing));
    assert!(matches!(c.handle(Event::Resized(Extent::new(5, 5))), Action::Nothing));
    assert!(matches!(c.handle(Event::Resumed), Action::CreateWindow(_)));
    assert!(matches!(c.handle(Event::RedrawRequested), Action::Nothing));
    assert!(matches!(c.handle(Event::WindowOpened), Action::StartInitialization(_)));
    assert!(matches!(c.handle(Event::RedrawRequested), Action::Nothing));
    assert!(matches!(c.handle(Event::Resized(Extent::new(5, 5))), Action::Nothing));
    assert!(!c.is_ready());
}

#[test]
fn second_resume_creates_no_window() {
    let mut c = Controller::new(Bootstrap::Blocking);
    assert!(matches!(c.handle(Event::Resumed), Action::CreateWindow(_)));
    assert!(matches!(c.handle(Event::Resumed), Action::Nothing));
}

#[test]
fn blocking_bootstrap_then_render() {
    let mut c = started(Bootstrap::Blocking);
    assert!(matches!(c.handle(Event::ManagerInitialized(manager(400, 400))), Action::Nothing));
    assert!(c.is_ready());
    match c.handle(Event::RedrawRequested) {
        Action::Render(p) => {
            assert_eq!((p.width, p.height), (400, 400));
            assert_eq!(p.clear, clear_color());
        },
        _ => panic!("expected a frame"),
    }
}

#[test]
fn deferred_bootstrap_requests_redraw() {
    let mut c = started(Bootstrap::Deferred);
    assert!(matches!(c.handle(Event::ManagerInitialized(manager(400, 400))), Action::RequestRedraw));
    assert!(c.is_ready());
}

#[test]
fn resize_reconfigures_when_ready() {
    let mut c = started(Bootstrap::Blocking);
    c.handle(Event::ManagerInitialized(manager(400, 400)));
    match c.handle(Event::Resized(Extent::new(800, 600))) {
        Action::Reconfigure(cfg) => {
            assert_eq!((cfg.width, cfg.height), (800, 600));
            assert_eq!(cfg.format, TextureFormat::Rgba8UnormSrgb);
        },
        _ => panic!("expected a reconfiguration"),
    }
    assert!(matches!(c.handle(Event::Resized(Extent::new(0, 600))), Action::Nothing));
    match c.handle(Event::Resized(Extent::new(800, 600))) {
        Action::Reconfigure(cfg) => assert_eq!((cfg.width, cfg.height), (800, 600)),
        _ => panic!("expected a reconfiguration"),
    }
    match c.handle(Event::RedrawRequested) {
        Action::Render(p) => assert_eq!((p.width, p.height), (800, 600)),
        _ => panic!("expected a frame"),
    }
}

#[test]
fn close_ends_everything() {
    let mut c = started(Bootstrap::Blocking);
    c.handle(Event::ManagerInitialized(manager(400, 400)));
    assert!(matches!(c.handle(Event::CloseRequested), Action::Exit));
    assert!(c.is_closed());
    assert!(c.is_ready());
    assert!(matches!(c.handle(Event::RedrawRequested), Action::Nothing));
    assert!(matches!(c.handle(Event::Resized(Extent::new(9, 9))), Action::Nothing));
    assert!(c.is_ready());
    assert!(matches!(c.handle(Event::CloseRequested), Action::Nothing));
}

#[test]
fn close_before_ready() {
    let mut c = Controller::new(Bootstrap::Deferred);
    assert!(!c.is_closed());
    assert!(matches!(c.handle(Event::CloseRequested), Action::Exit));
    assert!(c.is_closed());
    assert!(!c.is_ready());
    assert!(matches!(c.handle(Event::Resumed), Action::Nothing));
}

#[test]
fn other_events_are_ignored() {
    let mut c = started(Bootstrap::Blocking);
    c.handle(Event::ManagerInitialized(manager(10, 10)));
    assert!(matches!(c.handle(Event::Other), Action::Nothing));
    assert!(matches!(c.handle(Event::ManagerInitialized(manager(20, 20))), Action::Nothing));
    match c.handle(Event::RedrawRequested) {
        Action::Render(p) => assert_eq!((p.width, p.height), (10, 10)),
        _ => panic!("expected a frame"),
    }
}

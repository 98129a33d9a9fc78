use wgpu_triangle::engine::{EngineRunner, LoopAction, LoopEvent, WindowEventKind};
use wgpu_triangle::surface::SurfaceSize;

fn ours(event: WindowEventKind) -> LoopEvent {
    LoopEvent::Window { ours: true, event }
}

#[test]
fn loop_answers_each_event() {
    assert_eq!(EngineRunner::decide(ours(WindowEventKind::CloseRequested)), LoopAction::Exit);
    assert_eq!(
        EngineRunner::decide(ours(WindowEventKind::Resized { width: 640, height: 0 })),
        LoopAction::ResizeAndRedraw { width: 640, height: 0 }
    );
    assert_eq!(EngineRunner::decide(ours(WindowEventKind::RedrawRequested)), LoopAction::RunFrame);
    assert_eq!(EngineRunner::decide(ours(WindowEventKind::Other)), LoopAction::Ignore);
    assert_eq!(EngineRunner::decide(LoopEvent::AboutToWait), LoopAction::RequestRedraw);
    assert_eq!(EngineRunner::decide(LoopEvent::Other), LoopAction::Ignore);
}

#[test]
fn other_windows_are_ignored() {
    let e = LoopEvent::Window { ours: false, event: WindowEventKind::CloseRequested };
    assert_eq!(EngineRunner::decide(e), LoopAction::Ignore);
    let e = LoopEvent::Window { ours: false, event: WindowEventKind::RedrawRequested };
    assert_eq!(EngineRunner::decide(e), LoopAction::Ignore);
}

#[test]
fn surface_size_is_never_zero() {
    let s = SurfaceSize::for_window(0, 0);
    assert_eq!((s.width(), s.height()), (1, 1));
    let s = SurfaceSize::for_window(800, 600);
    assert_eq!((s.width(), s.height()), (800, 600));
}

#[test]
fn resize_to_empty_side_is_ignored() {
    let mut s = SurfaceSize::for_window(800, 600);
    assert!(!s.resize(0, 500));
    assert!(!s.resize(500, 0));
    assert_eq!((s.width(), s.height()), (800, 600));
    assert!(s.resize(1024, 768));
    assert_eq!((s.width(), s.height()), (1024, 768));
}

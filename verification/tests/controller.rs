use metaview::controller::{resize_event, Action, App, ControllerError, Event, Phase};
use metaview::extract::ExtractError;

fn wide(text: &str, len: usize) -> Vec<u16> {
    let mut buffer: Vec<u16> = text.encode_utf16().collect();
    buffer.resize(len.max(buffer.len()), 0);
    buffer
}

fn ready(handle: isize) -> App {
    let mut app = App::default();
    assert_eq!(app.handle(Event::Create), Ok(Action::CreateSurface));
    assert_eq!(
        app.handle(Event::SurfaceCreated { handle }),
        Ok(Action::PrepareSurface { surface: handle, prompt: "DRAG AND DROP HERE!!".to_string() })
    );
    app
}

#[test]
fn starts_uninitialized() {
    let app = App::default();
    assert_eq!(app, App { hedit: 0, closed: false });
    assert_eq!(app.current_phase(), Phase::Uninitialized);
}

#[test]
fn creation_leads_to_ready() {
    let mut app = App::default();
    assert_eq!(app.handle(Event::Create), Ok(Action::CreateSurface));
    assert_eq!(app.current_phase(), Phase::Uninitialized);
    assert_eq!(
        app.handle(Event::SurfaceCreated { handle: 77 }),
        Ok(Action::PrepareSurface { surface: 77, prompt: "DRAG AND DROP HERE!!".to_string() })
    );
    assert_eq!(app.current_phase(), Phase::Ready);
    assert_eq!(app.hedit, 77);
}

#[test]
fn missing_surface_is_a_creation_failure() {
    let mut app = App::default();
    app.handle(Event::Create).unwrap();
    assert_eq!(
        app.handle(Event::SurfaceCreated { handle: 0 }),
        Err(ControllerError::ResourceCreationFailure)
    );
    assert_eq!(app, App::default());
}

#[test]
fn resize_before_creation_touches_nothing() {
    let mut app = App::default();
    assert_eq!(app.handle(Event::Resize { width: 800, height: 600 }), Ok(Action::Forward));
    assert_eq!(app, App::default());
    app.handle(Event::Create).unwrap();
    assert_eq!(app.handle(Event::Resize { width: 1, height: 2 }), Ok(Action::Forward));
    assert_eq!(app, App::default());
}

#[test]
fn resize_when_ready_fills_the_client_area() {
    let mut app = ready(42);
    let action = app.handle(Event::Resize { width: 800, height: 600 }).unwrap();
    assert_eq!(action, Action::ResizeSurface { surface: 42, width: 800, height: 600 });
    assert!(action.is_forwarded());
    assert_eq!(app, App { hedit: 42, closed: false });
}

#[test]
fn resize_event_unpacks_width_and_height() {
    assert_eq!(resize_event(0x0258_0320), Event::Resize { width: 800, height: 600 });
    assert_eq!(resize_event(0), Event::Resize { width: 0, height: 0 });
    assert_eq!(resize_event(-1), Event::Resize { width: 0xffff, height: 0xffff });
    assert_eq!(resize_event(0x0001_0002), Event::Resize { width: 2, height: 1 });
}

#[test]
fn drop_without_paths_changes_nothing() {
    let mut app = ready(42);
    assert_eq!(app.handle(Event::Drop { paths: Vec::new() }), Ok(Action::Nothing));
    assert_eq!(app, App { hedit: 42, closed: false });
    let mut fresh = App::default();
    assert_eq!(fresh.handle(Event::Drop { paths: Vec::new() }), Ok(Action::Nothing));
    assert_eq!(fresh, App::default());
}

#[test]
fn drop_reads_the_first_file_only() {
    let mut app = ready(42);
    let paths = vec![wide("C:\\first.png", 1024), wide("C:\\second.png", 1024)];
    assert_eq!(
        app.handle(Event::Drop { paths }),
        Ok(Action::ReadFile { path: "C:\\first.png".encode_utf16().collect() })
    );
    assert_eq!(app, App { hedit: 42, closed: false });
}

#[test]
fn drop_before_creation_is_ignored() {
    let mut app = App::default();
    let paths = vec![wide("C:\\first.png", 1024)];
    assert_eq!(app.handle(Event::Drop { paths }), Ok(Action::Nothing));
    assert_eq!(app, App::default());
}

#[test]
fn report_replaces_the_text() {
    let mut app = ready(42);
    let report = "\u{3010}Title\u{3011}\r\nHello\r\nWorld\r\n\r\n".to_string();
    assert_eq!(
        app.handle(Event::Extracted { outcome: Ok(report.clone()) }),
        Ok(Action::ShowText { surface: 42, text: report })
    );
}

#[test]
fn empty_report_blanks_the_display() {
    let mut app = ready(42);
    assert_eq!(
        app.handle(Event::Extracted { outcome: Ok(String::new()) }),
        Ok(Action::ShowText { surface: 42, text: String::new() })
    );
}

#[test]
fn failure_is_shown_as_an_error_line() {
    let mut app = ready(42);
    let outcome = Err(ExtractError::Io("No such file or directory (os error 2)".to_string()));
    assert_eq!(
        app.handle(Event::Extracted { outcome }),
        Ok(Action::ShowText {
            surface: 42,
            text: "ERROR: No such file or directory (os error 2)".to_string()
        })
    );
    let outcome = Err(ExtractError::Format("Invalid PNG signature.".to_string()));
    assert_eq!(
        app.handle(Event::Extracted { outcome }),
        Ok(Action::ShowText { surface: 42, text: "ERROR: Invalid PNG signature.".to_string() })
    );
    assert_eq!(app.current_phase(), Phase::Ready);
}

#[test]
fn destroy_releases_the_surface_and_closes() {
    let mut app = ready(42);
    let action = app.handle(Event::Destroy).unwrap();
    assert_eq!(action, Action::Quit { release: Some(42) });
    assert!(!action.is_forwarded());
    assert_eq!(app.current_phase(), Phase::Closed);
    assert_eq!(app, App { hedit: 0, closed: true });
}

#[test]
fn destroy_before_creation_closes_without_release() {
    let mut app = App::default();
    assert_eq!(app.handle(Event::Destroy), Ok(Action::Quit { release: None }));
    assert_eq!(app.current_phase(), Phase::Closed);
}

#[test]
fn nothing_is_accepted_after_closing() {
    let mut app = ready(42);
    app.handle(Event::Destroy).unwrap();
    let closed = app;
    let events = vec![
        Event::Create,
        Event::SurfaceCreated { handle: 9 },
        Event::SurfaceCreated { handle: 0 },
        Event::Resize { width: 3, height: 4 },
        Event::Drop { paths: vec![wide("a.png", 16)] },
        Event::Drop { paths: Vec::new() },
        Event::Extracted { outcome: Ok("x".to_string()) },
        Event::Destroy,
        Event::Other,
    ];
    for event in events {
        assert_eq!(app.handle(event), Ok(Action::Forward));
        assert_eq!(app, closed);
    }
}

#[test]
fn other_events_are_forwarded() {
    let mut app = App::default();
    let action = app.handle(Event::Other).unwrap();
    assert_eq!(action, Action::Forward);
    assert!(action.is_forwarded());
    let mut app = ready(5);
    assert_eq!(app.handle(Event::Other), Ok(Action::Forward));
    assert_eq!(app, App { hedit: 5, closed: false });
}

#[test]
fn second_creation_is_ignored() {
    let mut app = ready(5);
    assert_eq!(app.handle(Event::Create), Ok(Action::Nothing));
    assert_eq!(app.handle(Event::SurfaceCreated { handle: 6 }), Ok(Action::Nothing));
    assert_eq!(app, App { hedit: 5, closed: false });
}

#[test]
fn phase_of_a_state() {
    assert_eq!(App { hedit: 0, closed: false }.current_phase(), Phase::Uninitialized);
    assert_eq!(App { hedit: -3, closed: false }.current_phase(), Phase::Ready);
    assert_eq!(App { hedit: 0, closed: true }.current_phase(), Phase::Closed);
    assert_eq!(App { hedit: 8, closed: true }.current_phase(), Phase::Closed);
}

use crossbeam::channel::{unbounded, Receiver, Sender};

use mars::app::App;
use mars::error::Result;
use mars::window::{UserMsg, WindowConfig, WindowEvent, WindowEvents, WindowHandle};
use mars::window_plugin::WindowPlugin;

#[derive(Clone)]
pub struct TestHarness {
    pub tx_events: Sender<WindowEvent>,
    pub rx_user: Receiver<UserMsg>,
}

fn start_mock(_cfg: WindowConfig) -> (Result<WindowHandle>, TestHarness) {
    let (tx_events, rx_events) = unbounded::<WindowEvent>();
    let (tx_user, rx_user) = unbounded::<UserMsg>();

    let harness = TestHarness { tx_events, rx_user };
    let handle = WindowHandle { tx_user, rx_events };

    (Ok(handle), harness)
}

#[test]
fn registers_resources_and_drains_events() -> Result<()> {
    let mut app = App::new();

    let (handle_res, harness) = start_mock(WindowConfig::default());
    let handle = handle_res?;

    let plugin = WindowPlugin::with_starter(
        WindowConfig::default(),
        Box::new(move |_| Ok(handle.clone())),
    );
    app.add_plugin(plugin);
    app.build()?;

    assert!(app.get_resource::<WindowEvents>().is_some());

    harness.tx_events.send(WindowEvent::Resized { width: 800, height: 600 }).unwrap();
    harness.tx_events.send(WindowEvent::CloseRequested).unwrap();

    app.run_once()?;

    let collected = {
        let wev = app.get_resource_mut::<WindowEvents>().unwrap();
        wev.drain().into_iter().collect::<Vec<_>>()
    };

    assert!(matches!(collected[0], WindowEvent::Resized { width: 800, height: 600 }));
    assert!(matches!(collected[1], WindowEvent::CloseRequested));
    Ok(())
}

#[test]
fn render_stage_requests_redraw() -> Result<()> {
    let mut app = App::new();

    let (handle_res, harness) = start_mock(WindowConfig::default());
    let handle = handle_res?;

    let plugin = WindowPlugin::with_starter(
        WindowConfig::default(),
        Box::new(move |_| Ok(handle.clone())),
    );
    app.add_plugin(plugin);
    app.build()?;
    app.run_once()?;

    let mut saw = false;
    while let Ok(msg) = harness.rx_user.try_recv() {
        if matches!(msg, UserMsg::RequestRedraw) {
            saw = true;
            break;
        }
    }
    assert!(saw, "expected a RequestRedraw message during Render");
    Ok(())
}

#[test]
fn queue_after_one_tick_is_exactly_the_events_then_redraw() -> Result<()> {
    let (handle_res, harness) = start_mock(WindowConfig::default());
    let handle = handle_res?;
    let mut app = App::new();
    app.add_plugin(WindowPlugin::with_starter(WindowConfig::default(), Box::new(move |_| Ok(handle.clone()))));
    harness.tx_events.send(WindowEvent::Resized { width: 800, height: 600 }).unwrap();
    harness.tx_events.send(WindowEvent::CloseRequested).unwrap();
    app.run_once()?;
    let collected = app.get_resource_mut::<WindowEvents>().unwrap().drain();
    assert_eq!(
        collected,
        vec![
            WindowEvent::Resized { width: 800, height: 600 },
            WindowEvent::CloseRequested,
            WindowEvent::Redraw
        ]
    );
    assert!(app.get_resource::<WindowEvents>().unwrap().queue.is_empty());
    Ok(())
}

#[test]
fn each_render_pass_sends_one_redraw_request() -> Result<()> {
    let (handle_res, harness) = start_mock(WindowConfig::default());
    let handle = handle_res?;
    let mut app = App::new();
    app.add_plugin(WindowPlugin::with_starter(WindowConfig::default(), Box::new(move |_| Ok(handle.clone()))));
    app.run_once()?;
    assert_eq!(harness.rx_user.try_iter().count(), 1);
    app.run_once()?;
    app.run_once()?;
    assert_eq!(harness.rx_user.try_iter().count(), 2);
    Ok(())
}

#[test]
fn closed_command_channel_is_not_an_error() -> Result<()> {
    let (handle_res, harness) = start_mock(WindowConfig::default());
    let handle = handle_res?;
    drop(harness);
    let mut app = App::new();
    app.add_plugin(WindowPlugin::with_starter(WindowConfig::default(), Box::new(move |_| Ok(handle.clone()))));
    app.run_once()?;
    Ok(())
}

#[test]
fn failing_starter_fails_the_build() {
    let mut app = App::new();
    app.add_plugin(WindowPlugin::with_starter(
        WindowConfig::default(),
        Box::new(|cfg: WindowConfig| {
            Err(mars::error::MarsError::Config(format!("no window {}x{}", cfg.width, cfg.height)))
        }),
    ));
    match app.build() {
        Err(mars::error::MarsError::Config(m)) => assert_eq!(m, "no window 1280x720"),
        other => panic!("unexpected result {:?}", other),
    }
    assert!(app.get_resource::<WindowEvents>().is_none());
}

#[test]
fn window_config_default_values() {
    let c = WindowConfig::default();
    assert_eq!(c.title, "Mars");
    assert_eq!((c.width, c.height), (1280, 720));
    let p = WindowPlugin::with_starter(c.clone(), Box::new(move |_| start_mock(WindowConfig::default()).0));
    assert_eq!(p.config().title, "Mars");
}

#[test]
fn window_events_queue_operations() {
    let mut q = WindowEvents::new();
    q.push(WindowEvent::Keyboard);
    q.push_all(&vec![WindowEvent::FocusChanged { focused: true }, WindowEvent::Mouse]);
    assert_eq!(
        q.drain(),
        vec![WindowEvent::Keyboard, WindowEvent::FocusChanged { focused: true }, WindowEvent::Mouse]
    );
    assert!(q.drain().is_empty());
}

#[test]
fn receive_pending_keeps_arrival_order() {
    let (tx, rx) = unbounded::<WindowEvent>();
    tx.send(WindowEvent::ScaleFactorChanged { scale_bits: 2.0f64.to_bits() }).unwrap();
    tx.send(WindowEvent::Redraw).unwrap();
    let got = mars::window::receive_pending(&rx);
    assert_eq!(got, vec![WindowEvent::ScaleFactorChanged { scale_bits: 2.0f64.to_bits() }, WindowEvent::Redraw]);
    assert!(mars::window::receive_pending(&rx).is_empty());
}

#[test]
fn drain_system_moves_received_events_into_the_queue() {
    let (tx, rx) = unbounded::<WindowEvent>();
    let mut app = App::new();
    assert!(mars::window_plugin::drain_window_events(&mut app, &rx).is_empty());
    app.insert_window_events(WindowEvents::new());
    app.window_events_mut().unwrap().push(WindowEvent::Mouse);
    tx.send(WindowEvent::Resized { width: 3, height: 4 }).unwrap();
    tx.send(WindowEvent::Keyboard).unwrap();
    let moved = mars::window_plugin::drain_window_events(&mut app, &rx);
    assert_eq!(moved, vec![WindowEvent::Resized { width: 3, height: 4 }, WindowEvent::Keyboard]);
    assert_eq!(
        app.get_resource::<WindowEvents>().unwrap().queue,
        vec![WindowEvent::Mouse, WindowEvent::Resized { width: 3, height: 4 }, WindowEvent::Keyboard]
    );
}

#[test]
fn redraw_system_queues_redraw_and_sends_one_command() {
    let (tx, rx) = unbounded::<UserMsg>();
    let mut app = App::new();
    assert!(mars::window_plugin::request_redraw(&mut app, &tx));
    assert!(app.window_events_mut().is_none());
    app.insert_window_events(WindowEvents::new());
    assert!(mars::window_plugin::request_redraw(&mut app, &tx));
    assert_eq!(app.get_resource::<WindowEvents>().unwrap().queue, vec![WindowEvent::Redraw]);
    assert_eq!(rx.try_iter().collect::<Vec<_>>(), vec![UserMsg::RequestRedraw, UserMsg::RequestRedraw]);
    drop(rx);
    assert!(!mars::window_plugin::request_redraw(&mut app, &tx));
}

#[test]
fn full_bounded_command_channel_does_not_block() -> Result<()> {
    let (tx_user, rx_user) = crossbeam::channel::bounded::<UserMsg>(1);
    let (_tx_events, rx_events) = unbounded::<WindowEvent>();
    let handle = WindowHandle { tx_user, rx_events };
    let mut app = App::new();
    app.add_plugin(WindowPlugin::with_starter(WindowConfig::default(), Box::new(move |_| Ok(handle.clone()))));
    app.run_once()?;
    app.run_once()?;
    assert_eq!(rx_user.try_iter().count(), 1);
    Ok(())
}

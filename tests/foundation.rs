use std::sync::atomic::{AtomicBool, AtomicUsize, Ordering};
use std::sync::{Arc, Mutex};

use mars::app::{App, Stage};
use mars::error::{MarsError, Result};
use mars::ids::Id;
use mars::plugin::{AppExt, Plugin};

#[test]
fn internal_error_message() {
    let err = MarsError::Internal("boom".into());
    assert_eq!(err.to_string(), "internal engine error: boom");
}

#[test]
fn io_error_conversion() {
    let io = std::io::Error::new(std::io::ErrorKind::NotFound, "no_such_file");
    let e: MarsError = io.into();
    assert!(matches!(e, MarsError::Io(_)));
}

#[test]
fn config_and_io_error_messages() {
    let err = MarsError::Config("bad width".into());
    assert_eq!(err.to_string(), "configuration error: bad width");
    let io = std::io::Error::new(std::io::ErrorKind::Other, "disk gone");
    let err = MarsError::from(io);
    assert_eq!(err.to_string(), "I/O error: disk gone");
}

struct DummyPlugin;
impl Plugin for DummyPlugin {
    fn name(&self) -> &'static str {
        "Dummy"
    }
    fn build(&self, _app: &mut App) -> Result<()> {
        Ok(())
    }
}

#[test]
fn plugin_adds_and_runs() -> Result<()> {
    let mut app = App::new();
    app.add_plugin(DummyPlugin).run_once()?;
    Ok(())
}

#[test]
fn foundation_smoke_test_runs_once() -> Result<()> {
    let ran = Arc::new(AtomicBool::new(false));
    let ran_flag = ran.clone();

    let mut app = App::new();
    app.add_system(move |_app| {
        ran_flag.store(true, Ordering::Relaxed);
        Ok(())
    });

    app.run_once()?;
    assert!(ran.load(Ordering::Relaxed));
    Ok(())
}

#[test]
fn foundation_render_system_runs() -> Result<()> {
    let rendered = Arc::new(AtomicBool::new(false));
    let rendered_flag = rendered.clone();

    let mut app = App::new();
    app.add_render_system(move |_app| {
        rendered_flag.store(true, Ordering::Relaxed);
        Ok(())
    });

    app.run_once()?;
    assert!(rendered.load(Ordering::Relaxed));
    Ok(())
}

#[test]
fn foundation_startup_runs_before_update() -> Result<()> {
    let order: Arc<Mutex<Vec<&'static str>>> = Arc::new(Mutex::new(Vec::new()));
    let a = order.clone();
    let b = order.clone();

    let mut app = App::new();
    app.add_startup_system(move |_app| {
        a.lock().unwrap().push("startup");
        Ok(())
    });
    app.add_system(move |_app| {
        b.lock().unwrap().push("update");
        Ok(())
    });

    app.run_once()?;
    let got = order.lock().unwrap().clone();
    assert_eq!(got, vec!["startup", "update"]);
    Ok(())
}

fn logger(log: &Arc<Mutex<Vec<&'static str>>>, token: &'static str) -> impl FnMut(&mut App) -> Result<()> + 'static {
    let log = log.clone();
    move |_app| {
        log.lock().unwrap().push(token);
        Ok(())
    }
}

#[test]
fn stage_runs_systems_in_insertion_order() -> Result<()> {
    let log = Arc::new(Mutex::new(Vec::new()));
    let mut app = App::new();
    app.add_system_to_stage(Stage::Update, logger(&log, "a"));
    app.add_system_to_stage(Stage::Update, logger(&log, "b"));
    app.add_system_to_stage(Stage::Update, logger(&log, "c"));
    app.run_once()?;
    assert_eq!(*log.lock().unwrap(), vec!["a", "b", "c"]);
    Ok(())
}

#[test]
fn run_once_runs_every_stage_in_order() -> Result<()> {
    let log = Arc::new(Mutex::new(Vec::new()));
    let mut app = App::new();
    app.add_system_to_stage(Stage::Render, logger(&log, "render"));
    app.add_system_to_stage(Stage::PostUpdate, logger(&log, "post"));
    app.add_system_to_stage(Stage::Update, logger(&log, "update"));
    app.add_system_to_stage(Stage::PreUpdate, logger(&log, "pre"));
    app.add_system_to_stage(Stage::Startup, logger(&log, "startup"));
    app.run_once()?;
    assert_eq!(*log.lock().unwrap(), vec!["startup", "pre", "update", "post", "render"]);
    Ok(())
}

#[test]
fn failing_system_stops_its_stage_and_the_run() {
    let log = Arc::new(Mutex::new(Vec::new()));
    let mut app = App::new();
    app.add_system_to_stage(Stage::Update, logger(&log, "first"));
    app.add_system_to_stage(Stage::Update, |_app| Err(MarsError::Internal("broken".into())));
    app.add_system_to_stage(Stage::Update, logger(&log, "after"));
    app.add_system_to_stage(Stage::Render, logger(&log, "render"));
    let r = app.run_once();
    match r {
        Err(MarsError::Internal(m)) => assert_eq!(m, "broken"),
        other => panic!("unexpected result {:?}", other),
    }
    assert_eq!(*log.lock().unwrap(), vec!["first"]);
}

#[test]
fn failed_pass_keeps_the_stage_systems() -> Result<()> {
    let count = Arc::new(AtomicUsize::new(0));
    let c = count.clone();
    let mut app = App::new();
    app.add_system_to_stage(Stage::Update, move |_app| {
        if c.fetch_add(1, Ordering::Relaxed) == 0 {
            Err(MarsError::Config("first pass fails".into()))
        } else {
            Ok(())
        }
    });
    assert!(app.run_once().is_err());
    app.run_once()?;
    assert_eq!(count.load(Ordering::Relaxed), 2);
    Ok(())
}

#[test]
fn insert_resource_twice_keeps_the_second_value() {
    let mut app = App::new();
    app.insert_resource(1u32);
    app.insert_resource(2u32);
    assert_eq!(app.get_resource::<u32>(), Some(&2u32));
}

#[test]
fn absent_resource_is_none() {
    let mut app = App::new();
    assert!(app.get_resource::<String>().is_none());
    app.insert_resource(7u64);
    assert!(app.get_resource::<String>().is_none());
    assert!(app.get_resource::<u32>().is_none());
    assert!(app.get_resource_mut::<i64>().is_none());
    assert_eq!(app.get_resource::<u64>(), Some(&7u64));
}

#[test]
fn resource_can_be_changed_in_place() {
    let mut app = App::new();
    app.insert_resource(String::from("a"));
    app.get_resource_mut::<String>().unwrap().push('b');
    assert_eq!(app.get_resource::<String>().map(|s| s.as_str()), Some("ab"));
}

#[test]
fn stop_in_pre_update_finishes_the_tick() -> Result<()> {
    let log = Arc::new(Mutex::new(Vec::new()));
    let l = log.clone();
    let mut app = App::new();
    app.add_system_to_stage(Stage::PreUpdate, move |app| {
        l.lock().unwrap().push("pre");
        app.stop();
        Ok(())
    });
    app.add_system_to_stage(Stage::Update, logger(&log, "update"));
    app.add_system_to_stage(Stage::PostUpdate, logger(&log, "post"));
    app.add_system_to_stage(Stage::Render, logger(&log, "render"));
    app.add_system_to_stage(Stage::Startup, logger(&log, "startup"));
    app.run()?;
    assert_eq!(*log.lock().unwrap(), vec!["pre", "update", "post", "render"]);
    Ok(())
}

#[test]
fn run_repeats_ticks_until_stopped() -> Result<()> {
    let ticks = Arc::new(AtomicUsize::new(0));
    let t = ticks.clone();
    let mut app = App::new();
    app.add_system_to_stage(Stage::Render, move |app| {
        if t.fetch_add(1, Ordering::Relaxed) + 1 == 3 {
            app.stop();
        }
        Ok(())
    });
    app.run()?;
    assert_eq!(ticks.load(Ordering::Relaxed), 3);
    Ok(())
}

#[test]
fn system_added_during_a_pass_runs_from_the_next_pass() -> Result<()> {
    let log = Arc::new(Mutex::new(Vec::new()));
    let l = log.clone();
    let added = Arc::new(AtomicBool::new(false));
    let mut app = App::new();
    app.add_system_to_stage(Stage::Update, move |app| {
        l.lock().unwrap().push("adder");
        if !added.swap(true, Ordering::Relaxed) {
            let l2 = l.clone();
            app.add_system_to_stage(Stage::Update, move |_app| {
                l2.lock().unwrap().push("late");
                Ok(())
            });
        }
        Ok(())
    });
    app.run_once()?;
    assert_eq!(*log.lock().unwrap(), vec!["adder"]);
    app.run_once()?;
    assert_eq!(*log.lock().unwrap(), vec!["adder", "adder", "late"]);
    Ok(())
}

struct CountingPlugin {
    builds: Arc<AtomicUsize>,
}
impl Plugin for CountingPlugin {
    fn name(&self) -> &'static str {
        "Counting"
    }
    fn build(&self, app: &mut App) -> Result<()> {
        self.builds.fetch_add(1, Ordering::Relaxed);
        app.insert_resource(42u8);
        Ok(())
    }
}

#[test]
fn plugin_is_built_once() -> Result<()> {
    let builds = Arc::new(AtomicUsize::new(0));
    let mut app = App::new();
    app.add_plugin(CountingPlugin { builds: builds.clone() });
    app.build()?;
    app.run_once()?;
    app.build()?;
    assert_eq!(builds.load(Ordering::Relaxed), 1);
    assert_eq!(app.get_resource::<u8>(), Some(&42u8));
    Ok(())
}

struct FailingPlugin;
impl Plugin for FailingPlugin {
    fn name(&self) -> &'static str {
        "Failing"
    }
    fn build(&self, _app: &mut App) -> Result<()> {
        Err(MarsError::Config("cannot build".into()))
    }
}

#[test]
fn failing_plugin_aborts_the_build() {
    let builds = Arc::new(AtomicUsize::new(0));
    let mut app = App::new();
    app.add_plugin(FailingPlugin);
    app.add_plugin(CountingPlugin { builds: builds.clone() });
    let r = app.run_once();
    assert!(matches!(r, Err(MarsError::Config(_))));
    assert_eq!(builds.load(Ordering::Relaxed), 0);
}

struct NestingPlugin {
    builds: Arc<AtomicUsize>,
}
impl Plugin for NestingPlugin {
    fn name(&self) -> &'static str {
        "Nesting"
    }
    fn build(&self, app: &mut App) -> Result<()> {
        app.add_plugin(CountingPlugin { builds: self.builds.clone() });
        Ok(())
    }
}

#[test]
fn plugin_added_during_build_is_kept() -> Result<()> {
    let builds = Arc::new(AtomicUsize::new(0));
    let mut app = App::new();
    app.add_plugin(NestingPlugin { builds: builds.clone() });
    app.build()?;
    assert_eq!(builds.load(Ordering::Relaxed), 0);
    app.build()?;
    assert_eq!(builds.load(Ordering::Relaxed), 1);
    Ok(())
}

#[test]
fn ids_compare_by_raw_value() {
    let a: Id<u8> = Id::from_raw(5);
    let b: Id<u8> = Id::from_raw(5);
    let c: Id<u8> = Id::from_raw(6);
    assert!(a == b);
    assert!(a != c);
    assert_eq!(c.raw(), 6);
}

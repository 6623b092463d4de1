use vstd::prelude::*;
use crossbeam::channel::{Receiver, Sender};
use crate::app::{following, App, Stage};
use crate::error::{MarsError, Result};
use crate::plugin::Plugin;
use crate::window::{
    clone_receiver, clone_sender, receive_pending, send_message, UserMsg, WindowConfig, WindowEvent, WindowEvents, WindowHandle,
};

verus! {

/// Moves the events queued on `rx` into the `WindowEvents` resource, in
/// arrival order, and returns them. Without that resource nothing is received
/// and the events stay on the channel. Which events are queued is up to the
/// bridge thread; whatever they are, they end the queue in the order received.
pub fn drain_window_events(app: &mut App, rx: &Receiver<WindowEvent>) -> (moved: Vec<WindowEvent>)
    ensures
        old(app).window_queue() is Some ==> final(app).window_queue() == Some(
            old(app).window_queue().unwrap() + moved@,
        ),
        old(app).window_queue() is None ==> moved@.len() == 0 && final(app).window_queue() is None,
        final(app).same_schedule(*old(app)),
        final(app).resource_keys() == old(app).resource_keys(),
{
    match app.window_events_mut() {
        Some(events) => {
            let pending = receive_pending(rx);
            events.push_all(&pending);
            pending
        },
        None => Vec::new(),
    }
}

/// Appends a local `Redraw` event to the `WindowEvents` resource, if there is
/// one, and offers one `RequestRedraw` command to the bridge thread without
/// blocking. A full or closed command channel is not an error: the command is
/// dropped, and `false` is returned.
pub fn request_redraw(app: &mut App, tx: &Sender<UserMsg>) -> (delivered: bool)
    ensures
        old(app).window_queue() is Some ==> final(app).window_queue() == Some(
            old(app).window_queue().unwrap().push(WindowEvent::Redraw),
        ),
        old(app).window_queue() is None ==> final(app).window_queue() is None,
        final(app).same_schedule(*old(app)),
        final(app).resource_keys() == old(app).resource_keys(),
{
    match app.window_events_mut() {
        Some(events) => events.push(WindowEvent::Redraw),
        None => {},
    }
    send_message(tx, UserMsg::RequestRedraw)
}

/// Connects the host to a bridge: stores `handle` and an empty event queue as
/// resources, then registers one `PreUpdate` system that drains the inbound
/// events into the queue and one `Render` system that requests a redraw.
pub fn install_bridge(app: &mut App, handle: WindowHandle)
    ensures
        final(app).systems(Stage::PreUpdate) == old(app).systems(Stage::PreUpdate).push(
            old(app).next_number(),
        ),
        final(app).systems(Stage::Render) == old(app).systems(Stage::Render).push(
            following(old(app).next_number()),
        ),
        final(app).systems(Stage::Startup) == old(app).systems(Stage::Startup),
        final(app).systems(Stage::Update) == old(app).systems(Stage::Update),
        final(app).systems(Stage::PostUpdate) == old(app).systems(Stage::PostUpdate),
        final(app).window_queue() == Some(Seq::<WindowEvent>::empty()),
        final(app).next_number() == following(following(old(app).next_number())),
        final(app).plugins() == old(app).plugins(),
        final(app).plugins_built() == old(app).plugins_built(),
        final(app).applied() == old(app).applied(),
        final(app).last_build_failed() == old(app).last_build_failed(),
        final(app).is_running() == old(app).is_running(),
        final(app).history() == old(app).history(),
{
    let event_rx = clone_receiver(&handle.rx_events);
    let user_tx = clone_sender(&handle.tx_user);
    app.insert_resource(handle);
    app.insert_window_events(WindowEvents::new());
    app.add_system_to_stage(
        Stage::PreUpdate,
        move |app: &mut App| -> (r: Result<()>)
            {
                let _moved = drain_window_events(app, &event_rx);
                Ok(())
            },
    );
    app.add_system_to_stage(
        Stage::Render,
        move |app: &mut App| -> (r: Result<()>)
            {
                let _delivered = request_redraw(app, &user_tx);
                Ok(())
            },
    );
}

/// The plugin that opens the window bridge: it starts the bridge with its
/// starter function and installs the bridge's systems on the host.
pub struct WindowPlugin<S: Fn(WindowConfig) -> Result<WindowHandle>> {
    config: WindowConfig,
    starter: Box<S>,
}

impl<S: Fn(WindowConfig) -> Result<WindowHandle>> WindowPlugin<S> {
    #[verifier::type_invariant]
    spec fn starter_accepts_all(self) -> bool {
        forall|c: WindowConfig| call_requires(*self.starter, (c,))
    }

    /// The window parameters handed to the starter.
    pub closed spec fn window_config(self) -> WindowConfig {
        self.config
    }

    /// The function that starts the bridge.
    pub closed spec fn starter(self) -> S {
        *self.starter
    }

    /// A plugin that starts its bridge by calling `starter` with `config`.
    pub fn with_starter(config: WindowConfig, starter: Box<S>) -> (r: Self)
        requires
            forall|c: WindowConfig| call_requires(*starter, (c,)),
        ensures
            r.window_config() == config,
    {
        WindowPlugin { config, starter }
    }

    /// The window parameters handed to the starter.
    pub fn config(&self) -> (r: &WindowConfig)
        ensures
            *r == self.window_config(),
    {
        &self.config
    }
}

impl<S: Fn(WindowConfig) -> Result<WindowHandle>> Plugin for WindowPlugin<S> {
    fn name(&self) -> &'static str {
        "WindowPlugin"
    }

    /// Starts the bridge with the plugin's configuration; on success installs
    /// it with `install_bridge`, on failure leaves the host as it was.
    fn build(&self, app: &mut App) -> (r: Result<()>)
        ensures
            r is Err ==> *final(app) == *old(app),
            r is Err ==> exists|e: MarsError|
                call_ensures(self.starter(), (self.window_config(),), Err(e)),
            r is Ok ==> exists|h: WindowHandle|
                call_ensures(self.starter(), (self.window_config(),), Ok(h)),
            r is Ok ==> final(app).systems(Stage::PreUpdate) == old(app).systems(
                Stage::PreUpdate,
            ).push(old(app).next_number()),
            r is Ok ==> final(app).systems(Stage::Render) == old(app).systems(Stage::Render).push(
                following(old(app).next_number()),
            ),
            r is Ok ==> final(app).systems(Stage::Startup) == old(app).systems(Stage::Startup),
            r is Ok ==> final(app).systems(Stage::Update) == old(app).systems(Stage::Update),
            r is Ok ==> final(app).systems(Stage::PostUpdate) == old(app).systems(
                Stage::PostUpdate,
            ),
            r is Ok ==> final(app).window_queue() == Some(Seq::<WindowEvent>::empty()),
            r is Ok ==> final(app).plugins() == old(app).plugins(),
            r is Ok ==> final(app).history() == old(app).history(),
    {
        proof {
            use_type_invariant(self);
        }
        let start: &S = &self.starter;
        let handle = start(self.config.clone())?;
        install_bridge(app, handle);
        Ok(())
    }
}

} // verus!

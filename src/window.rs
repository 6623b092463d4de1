use vstd::prelude::*;
use crossbeam::channel::{Receiver, Sender};
use vstd::string::StringExecFns;

verus! {

#[verifier::external_type_specification]
#[verifier::external_body]
#[verifier::reject_recursive_types(T)]
pub struct ExSender<T>(Sender<T>);

#[verifier::external_type_specification]
#[verifier::external_body]
#[verifier::reject_recursive_types(T)]
pub struct ExReceiver<T>(Receiver<T>);

/// Relies on `Sender::clone`: another handle on the same channel.
#[verifier::external_body]
pub(crate) fn clone_sender<T>(tx: &Sender<T>) -> Sender<T> {
    tx.clone()
}

/// Relies on `Receiver::clone`: another handle on the same channel.
#[verifier::external_body]
pub(crate) fn clone_receiver<T>(rx: &Receiver<T>) -> Receiver<T> {
    rx.clone()
}

/// Relies on `Sender::try_send`: queues `msg` if the channel has room, never
/// blocking; `false` when it is full or every receiver is gone.
#[verifier::external_body]
pub(crate) fn send_message<T>(tx: &Sender<T>, msg: T) -> bool {
    tx.try_send(msg).is_ok()
}

/// Relies on `Receiver::try_recv`: the oldest queued message, or `None` when
/// nothing is queued now or every sender is gone. Never blocks.
#[verifier::external_body]
pub(crate) fn try_receive<T>(rx: &Receiver<T>) -> Option<T> {
    rx.try_recv().ok()
}

/// Relies on `Receiver::len`: how many messages are queued at this moment.
#[verifier::external_body]
pub(crate) fn queued_count<T>(rx: &Receiver<T>) -> usize {
    rx.len()
}

/// The parameters of the window that the bridge opens.
#[derive(Debug)]
pub struct WindowConfig {
    pub title: String,
    pub width: u32,
    pub height: u32,
}

impl Clone for WindowConfig {
    fn clone(&self) -> (r: Self)
        ensures
            r == *self,
    {
        WindowConfig { title: self.title.clone(), width: self.width, height: self.height }
    }
}

impl Default for WindowConfig {
    fn default() -> (r: Self)
        ensures
            r.title@ == "Mars"@,
            r.width == 1280,
            r.height == 720,
    {
        WindowConfig { title: String::from_str("Mars"), width: 1280, height: 720 }
    }
}

/// An event of the OS window, as the bridge thread delivers it.
#[derive(Clone, Copy, Debug, PartialEq, Eq, Structural)]
pub enum WindowEvent {
    CloseRequested,
    Resized { width: u32, height: u32 },
    /// The new scale factor, as the bit pattern of an IEEE-754 double.
    ScaleFactorChanged { scale_bits: u64 },
    FocusChanged { focused: bool },
    Keyboard,
    Mouse,
    Redraw,
}

/// The queue of window events that the host has received, oldest first.
pub struct WindowEvents {
    pub queue: Vec<WindowEvent>,
}

impl WindowEvents {
    /// An empty queue.
    pub fn new() -> (r: Self)
        ensures
            r.queue@ == Seq::<WindowEvent>::empty(),
    {
        WindowEvents { queue: Vec::new() }
    }

    /// Takes every queued event out, oldest first, leaving the queue empty.
    pub fn drain(&mut self) -> (r: Vec<WindowEvent>)
        ensures
            r@ == old(self).queue@,
            final(self).queue@ == Seq::<WindowEvent>::empty(),
    {
        let mut taken: Vec<WindowEvent> = Vec::new();
        std::mem::swap(&mut taken, &mut self.queue);
        taken
    }

    /// Appends `ev` to the queue.
    pub fn push(&mut self, ev: WindowEvent)
        ensures
            final(self).queue@ == old(self).queue@.push(ev),
    {
        self.queue.push(ev);
    }

    /// Appends `evs` to the queue, keeping their order.
    pub fn push_all(&mut self, evs: &Vec<WindowEvent>)
        ensures
            final(self).queue@ == old(self).queue@ + evs@,
    {
        let n = evs.len();
        let mut i: usize = 0;
        while i < n
            invariant
                n == evs.len(),
                0 <= i <= n,
                self.queue@ == old(self).queue@ + evs@.take(i as int),
            decreases n - i,
        {
            self.queue.push(evs[i]);
            i = i + 1;
            assert(evs@.take(i as int) == evs@.take(i - 1).push(evs@[i - 1]));
        }
        assert(evs@.take(n as int) == evs@);
    }
}

/// Commands from the host to the bridge thread.
#[derive(Clone, Copy, Debug, PartialEq, Eq, Structural)]
pub enum UserMsg {
    RequestRedraw,
}

/// The host's ends of the two channels to the bridge thread: commands out,
/// events in.
pub struct WindowHandle {
    pub tx_user: Sender<UserMsg>,
    pub rx_events: Receiver<WindowEvent>,
}

impl Clone for WindowHandle {
    fn clone(&self) -> Self {
        WindowHandle { tx_user: clone_sender(&self.tx_user), rx_events: clone_receiver(&self.rx_events) }
    }
}

/// Takes, without blocking, the events that were queued on `rx` when the call
/// began, oldest first; stops early if the channel runs dry.
pub fn receive_pending(rx: &Receiver<WindowEvent>) -> (r: Vec<WindowEvent>) {
    let n = queued_count(rx);
    let mut got: Vec<WindowEvent> = Vec::new();
    let mut i: usize = 0;
    let mut dry = false;
    while i < n && !dry
        decreases n - i,
    {
        match try_receive(rx) {
            Some(ev) => got.push(ev),
            None => dry = true,
        }
        i = i + 1;
    }
    got
}

} // verus!

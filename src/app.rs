use vstd::prelude::*;
use core::any::TypeId;
use crate::error::{MarsError, Result};
use crate::plugin::Plugin;
use crate::resources::{stored_keys, window_queues, Resources};
use crate::window::{WindowEvent, WindowEvents};
use vstd::string::StringExecFns;

verus! {

/// The phases of execution. `Startup` runs only in a single-shot run; the
/// other four make up a tick and always run in this order.
#[derive(Copy, Clone, Debug, PartialEq, Eq, Structural)]
pub enum Stage {
    Startup,
    PreUpdate,
    Update,
    PostUpdate,
    Render,
}

/// The stages that a single-shot run executes, in order.
pub open spec fn once_plan() -> Seq<Stage> {
    seq![Stage::Startup, Stage::PreUpdate, Stage::Update, Stage::PostUpdate, Stage::Render]
}

/// The stages of one tick, in order.
pub open spec fn tick_plan() -> Seq<Stage> {
    seq![Stage::PreUpdate, Stage::Update, Stage::PostUpdate, Stage::Render]
}

/// The registration numbers in a record of plugin builds.
pub open spec fn numbers_of(s: Seq<(u64, bool)>) -> Seq<u64> {
    s.map_values(|p: (u64, bool)| p.0)
}

/// The registration number that follows `n`, wrapping to zero after the largest.
pub open spec fn following(n: u64) -> u64 {
    if n == u64::MAX {
        0
    } else {
        (n + 1) as u64
    }
}

/// The record of one pass of the scheduler over a stage.
pub struct Pass {
    pub stage: Stage,
    /// Registration numbers of the systems that the stage held when the pass began.
    pub listed: Seq<u64>,
    /// Registration numbers of the systems that the pass invoked, in call order.
    pub invoked: Seq<u64>,
    /// What each invoked system returned, in call order: `true` for success.
    pub outcomes: Seq<bool>,
    /// Every invoked system returned success.
    pub succeeded: bool,
    /// The host's running flag when the pass ended.
    pub running_after: bool,
}

impl Pass {
    /// The pass invoked the stage's systems one after another in stage order,
    /// all of them when it succeeded, and stopped at the first that failed:
    /// every system before the last one invoked succeeded.
    pub open spec fn in_order(self) -> bool {
        &&& self.invoked.len() <= self.listed.len()
        &&& self.invoked == self.listed.take(self.invoked.len() as int)
        &&& self.outcomes.len() == self.invoked.len()
        &&& forall|j: int| 0 <= j < self.outcomes.len() - 1 ==> #[trigger] self.outcomes[j]
        &&& self.succeeded ==> self.invoked == self.listed
        &&& self.succeeded ==> forall|j: int| 0 <= j < self.outcomes.len() ==> #[trigger] self.outcomes[j]
        &&& !self.succeeded ==> self.invoked.len() > 0 && !self.outcomes.last()
    }
}

/// `h` ends with succeeded passes over the stages of `plan`, in that order.
pub open spec fn ends_with_plan(h: Seq<Pass>, plan: Seq<Stage>) -> bool {
    &&& plan.len() <= h.len()
    &&& forall|i: int|
        0 <= i < plan.len() ==> {
            &&& h[h.len() - plan.len() + i].stage == #[trigger] plan[i]
            &&& h[h.len() - plan.len() + i].succeeded
        }
}

/// `h` is made of whole ticks: each group of four passes runs the stages of a
/// tick in order, and every pass succeeded.
pub open spec fn whole_ticks(h: Seq<Pass>) -> bool
    decreases h.len(),
{
    if h.len() == 0 {
        true
    } else if h.len() < 4 {
        false
    } else {
        ends_with_plan(h, tick_plan()) && whole_ticks(h.take(h.len() - 4))
    }
}

/// `h` ends with a run over a prefix of `plan` that stopped at a failure:
/// succeeded passes over the first stages of `plan`, then a failed pass over
/// the next stage, and nothing after it.
pub open spec fn ends_with_failure(h: Seq<Pass>, plan: Seq<Stage>) -> bool {
    exists|k: int|
        0 <= k < plan.len() && h.len() > 0 && ends_with_plan(h.drop_last(), plan.take(k))
            && h.last().stage == #[trigger] plan[k] && !h.last().succeeded
}

/// The stages that come before the `k`-th stage of a single-shot run hold no
/// systems in `app`.
pub open spec fn earlier_stages_empty(app: App, k: int) -> bool {
    forall|j: int| 0 <= j < k ==> (#[trigger] app.systems(once_plan()[j])).len() == 0
}

/// The last five passes of `h` list the systems that `app` registered to their
/// stages, for each stage that no earlier stage's systems could have changed.
pub open spec fn passes_list_registered(h: Seq<Pass>, app: App) -> bool {
    forall|k: int|
        0 <= k < 5 && earlier_stages_empty(app, k) ==> h[h.len() - 5 + k].listed == app.systems(
            #[trigger] once_plan()[k],
        )
}

/// Every tick of `h` but the last ended with the running flag set: the loop
/// went on only while it was set.
pub open spec fn running_through(h: Seq<Pass>) -> bool
    decreases h.len(),
{
    if h.len() == 0 {
        true
    } else if h.len() < 4 {
        false
    } else {
        h.last().running_after && running_through(h.take(h.len() - 4))
    }
}

/// `h` is whole ticks that went on while the running flag was set at the end
/// of each tick, and stopped after the first tick that ended with it cleared.
pub open spec fn ticks_until_stop(h: Seq<Pass>) -> bool {
    &&& whole_ticks(h)
    &&& h.len() >= 4
    &&& !h.last().running_after
    &&& running_through(h.take(h.len() - 4))
}

/// Within a pass, the j-th system invoked is the j-th system registered to the
/// stage: a pass calls the stage's systems in registration order, and a pass
/// that succeeded called every one of them.
pub proof fn lemma_pass_in_registration_order(p: Pass, j: int)
    requires
        p.in_order(),
        0 <= j < p.invoked.len(),
    ensures
        p.invoked[j] == p.listed[j],
        p.succeeded ==> p.invoked.len() == p.listed.len(),
{
    assert(p.invoked[j] == p.listed.take(p.invoked.len() as int)[j]);
}

/// In a single-shot run, the `Startup` pass comes first, and the passes of the
/// tick (`PreUpdate`, `Update`, `PostUpdate`, `Render`) follow it.
pub proof fn lemma_startup_runs_first(h: Seq<Pass>)
    requires
        ends_with_plan(h, once_plan()),
    ensures
        h[h.len() - 5].stage == Stage::Startup,
        forall|i: int| h.len() - 5 < i < h.len() ==> (#[trigger] h[i]).stage != Stage::Startup,
        h[h.len() - 4].stage == Stage::PreUpdate,
        h[h.len() - 3].stage == Stage::Update,
        h[h.len() - 2].stage == Stage::PostUpdate,
        h[h.len() - 1].stage == Stage::Render,
{
    let b = h.len() - 5;
    assert(h[b].stage == once_plan()[0]);
    assert(h[b + 1].stage == once_plan()[1]);
    assert(h[b + 2].stage == once_plan()[2]);
    assert(h[b + 3].stage == once_plan()[3]);
    assert(h[b + 4].stage == once_plan()[4]);
}

/// In a run made of whole ticks, every `PreUpdate` pass is followed by the
/// `Update`, `PostUpdate` and `Render` passes of its tick, all succeeded: a
/// `stop` called during `PreUpdate` does not cut the tick short.
pub proof fn lemma_tick_runs_to_end(h: Seq<Pass>, i: int)
    requires
        whole_ticks(h),
        0 <= i < h.len(),
        h[i].stage == Stage::PreUpdate,
    ensures
        i + 3 < h.len(),
        h[i + 1].stage == Stage::Update,
        h[i + 2].stage == Stage::PostUpdate,
        h[i + 3].stage == Stage::Render,
        h[i + 1].succeeded && h[i + 2].succeeded && h[i + 3].succeeded,
    decreases h.len(),
{
    let b = h.len() - 4;
    assert(h[b].stage == tick_plan()[0] && h[b].succeeded);
    assert(h[b + 1].stage == tick_plan()[1] && h[b + 1].succeeded);
    assert(h[b + 2].stage == tick_plan()[2] && h[b + 2].succeeded);
    assert(h[b + 3].stage == tick_plan()[3] && h[b + 3].succeeded);
    if i < b {
        let rest = h.take(b);
        assert(rest[i] == h[i]);
        lemma_tick_runs_to_end(rest, i);
        assert(rest[i + 1] == h[i + 1]);
        assert(rest[i + 2] == h[i + 2]);
        assert(rest[i + 3] == h[i + 3]);
    }
}

/// In whole ticks that went on only while the running flag was set, every
/// tick's `Render` pass ended with the flag set.
pub proof fn lemma_running_through_render(h: Seq<Pass>, i: int)
    requires
        whole_ticks(h),
        running_through(h),
        0 <= i < h.len(),
        h[i].stage == Stage::Render,
    ensures
        h[i].running_after,
    decreases h.len(),
{
    let b = h.len() - 4;
    assert(h[b].stage == tick_plan()[0]);
    assert(h[b + 1].stage == tick_plan()[1]);
    assert(h[b + 2].stage == tick_plan()[2]);
    assert(h[b + 3].stage == tick_plan()[3]);
    if i < b {
        let rest = h.take(b);
        assert(rest[i] == h[i]);
        lemma_running_through_render(rest, i);
    }
}

/// A run ends at the first tick boundary where the running flag is cleared:
/// the `Render` pass of every tick but the last ended with the flag set, and
/// the last one with it cleared.
pub proof fn lemma_run_ends_at_first_stop(h: Seq<Pass>, i: int)
    requires
        ticks_until_stop(h),
        0 <= i < h.len(),
        h[i].stage == Stage::Render,
    ensures
        i < h.len() - 1 ==> h[i].running_after,
        i == h.len() - 1 ==> !h[i].running_after,
{
    let b = h.len() - 4;
    assert(h[b].stage == tick_plan()[0]);
    assert(h[b + 1].stage == tick_plan()[1]);
    assert(h[b + 2].stage == tick_plan()[2]);
    if i < b {
        let rest = h.take(b);
        assert(rest[i] == h[i]);
        lemma_running_through_render(rest, i);
    }
}

/// The registration numbers of the systems that a list holds, in list order.
pub uninterp spec fn system_numbers(l: SystemList) -> Seq<u64>;

/// An ordered list of systems: callables that take the host and report success.
#[verifier::external_body]
pub struct SystemList {
    items: Vec<(u64, Box<dyn FnMut(&mut App) -> Result<()>>)>,
}

impl SystemList {
    /// Relies on `Vec::new`: the list starts empty.
    #[verifier::external_body]
    fn new() -> (r: SystemList)
        ensures
            system_numbers(r) == Seq::<u64>::empty(),
    {
        SystemList { items: Vec::new() }
    }

    /// Relies on `Vec::len`.
    #[verifier::external_body]
    fn len(&self) -> (r: usize)
        ensures
            r == system_numbers(*self).len(),
    {
        self.items.len()
    }

    /// Relies on `Vec::push`: the system goes to the end, under its number.
    #[verifier::external_body]
    fn push<F: FnMut(&mut App) -> Result<()> + 'static>(&mut self, number: u64, f: F)
        ensures
            system_numbers(*final(self)) == system_numbers(*old(self)).push(number),
    {
        self.items.push((number, Box::new(f)));
    }

    /// Relies on `Vec::append`: the systems of `other` follow those of `self`.
    #[verifier::external_body]
    fn append(&mut self, other: SystemList)
        ensures
            system_numbers(*final(self)) == system_numbers(*old(self)) + system_numbers(other),
    {
        let mut other = other;
        self.items.append(&mut other.items);
    }

    /// Invokes the system at `i` on the host; the list itself keeps its systems.
    #[verifier::external_body]
    fn call(&mut self, i: usize, app: &mut App) -> (r: Result<()>)
        requires
            i < system_numbers(*old(self)).len(),
        ensures
            system_numbers(*final(self)) == system_numbers(*old(self)),
    {
        (self.items[i].1)(app)
    }
}

/// The registration numbers of the plugins that a list holds, in list order.
pub uninterp spec fn plugin_numbers(l: PluginList) -> Seq<u64>;

/// An ordered list of plugins.
#[verifier::external_body]
pub struct PluginList {
    items: Vec<(u64, Box<dyn Plugin>)>,
}

impl PluginList {
    /// Relies on `Vec::new`: the list starts empty.
    #[verifier::external_body]
    fn new() -> (r: PluginList)
        ensures
            plugin_numbers(r) == Seq::<u64>::empty(),
    {
        PluginList { items: Vec::new() }
    }

    /// Relies on `Vec::len`.
    #[verifier::external_body]
    fn len(&self) -> (r: usize)
        ensures
            r == plugin_numbers(*self).len(),
    {
        self.items.len()
    }

    /// Relies on `Vec::push`: the plugin goes to the end, under its number.
    #[verifier::external_body]
    fn push<P: Plugin + 'static>(&mut self, number: u64, p: P)
        ensures
            plugin_numbers(*final(self)) == plugin_numbers(*old(self)).push(number),
    {
        self.items.push((number, Box::new(p)));
    }

    /// Relies on `Vec::append`: the plugins of `other` follow those of `self`.
    #[verifier::external_body]
    fn append(&mut self, other: PluginList)
        ensures
            plugin_numbers(*final(self)) == plugin_numbers(*old(self)) + plugin_numbers(other),
    {
        let mut other = other;
        self.items.append(&mut other.items);
    }

    /// Relies on `Vec`'s indexing: the plugin at `i`.
    #[verifier::external_body]
    fn get(&self, i: usize) -> (r: &dyn Plugin)
        requires
            i < plugin_numbers(*self).len(),
    {
        &*self.items[i].1
    }
}

/// The application host: plugins, the systems of each stage, the running
/// flag and the resource registry.
pub struct App {
    plugins: PluginList,
    built: usize,
    startup: SystemList,
    pre_update: SystemList,
    update: SystemList,
    post_update: SystemList,
    render: SystemList,
    running: bool,
    resources: Resources,
    window_key: TypeId,
    next_number: u64,
    history: Ghost<Seq<Pass>>,
    applied: Ghost<Seq<(u64, bool)>>,
    build_failed: Ghost<bool>,
}

impl App {
    /// Registration numbers of the systems of `stage`, in registration order.
    pub closed spec fn systems(self, stage: Stage) -> Seq<u64> {
        match stage {
            Stage::Startup => system_numbers(self.startup),
            Stage::PreUpdate => system_numbers(self.pre_update),
            Stage::Update => system_numbers(self.update),
            Stage::PostUpdate => system_numbers(self.post_update),
            Stage::Render => system_numbers(self.render),
        }
    }

    /// Registration numbers of the plugins, in registration order.
    pub closed spec fn plugins(self) -> Seq<u64> {
        plugin_numbers(self.plugins)
    }

    /// How many plugins, from the front of the list, have been applied.
    pub closed spec fn plugins_built(self) -> nat {
        if self.built <= plugin_numbers(self.plugins).len() {
            self.built as nat
        } else {
            plugin_numbers(self.plugins).len()
        }
    }

    /// The plugins whose build this host has invoked, in call order: each
    /// plugin's registration number and whether its build succeeded.
    pub closed spec fn applied(self) -> Seq<(u64, bool)> {
        self.applied@
    }

    /// Whether the latest build ended in a plugin's failure.
    pub closed spec fn last_build_failed(self) -> bool {
        self.build_failed@
    }

    /// The number that the next registered system or plugin receives.
    pub closed spec fn next_number(self) -> u64 {
        self.next_number
    }

    /// Whether the run loop goes on to another tick.
    pub closed spec fn is_running(self) -> bool {
        self.running
    }

    /// The type tokens under which a resource is stored.
    pub closed spec fn resource_keys(self) -> Set<TypeId> {
        stored_keys(self.resources)
    }

    /// The type token of `WindowEvents`, under which the event queue is stored.
    pub closed spec fn window_events_key(self) -> TypeId {
        self.window_key
    }

    /// The queue of the stored `WindowEvents` resource, if there is one.
    pub closed spec fn window_queue(self) -> Option<Seq<WindowEvent>> {
        if window_queues(self.resources).contains_key(self.window_key) {
            Some(window_queues(self.resources)[self.window_key])
        } else {
            None
        }
    }

    /// The passes that the scheduler has made over stages, oldest first.
    pub closed spec fn history(self) -> Seq<Pass> {
        self.history@
    }

    /// `self` and `other` agree on everything but the systems of the stages.
    pub open spec fn same_but_systems(self, other: App) -> bool {
        &&& self.plugins() == other.plugins()
        &&& self.plugins_built() == other.plugins_built()
        &&& self.applied() == other.applied()
        &&& self.last_build_failed() == other.last_build_failed()
        &&& self.is_running() == other.is_running()
        &&& self.resource_keys() == other.resource_keys()
        &&& self.window_queue() == other.window_queue()
        &&& self.history() == other.history()
    }

    /// `self` and `other` agree on everything but the resources: the same
    /// plugins, systems, flags, registration numbers and history.
    pub open spec fn same_schedule(self, other: App) -> bool {
        &&& forall|s: Stage| self.systems(s) == other.systems(s)
        &&& self.plugins() == other.plugins()
        &&& self.plugins_built() == other.plugins_built()
        &&& self.applied() == other.applied()
        &&& self.last_build_failed() == other.last_build_failed()
        &&& self.is_running() == other.is_running()
        &&& self.history() == other.history()
        &&& self.next_number() == other.next_number()
        &&& self.window_events_key() == other.window_events_key()
    }

    /// `self` and `other` agree on everything but the history of passes.
    pub open spec fn same_but_history(self, other: App) -> bool {
        &&& forall|s: Stage| self.systems(s) == other.systems(s)
        &&& self.plugins() == other.plugins()
        &&& self.plugins_built() == other.plugins_built()
        &&& self.applied() == other.applied()
        &&& self.last_build_failed() == other.last_build_failed()
        &&& self.is_running() == other.is_running()
        &&& self.resource_keys() == other.resource_keys()
        &&& self.window_queue() == other.window_queue()
        &&& self.next_number() == other.next_number()
        &&& self.window_events_key() == other.window_events_key()
    }

    /// An empty host: no plugins, no systems, no resources, not running.
    pub fn new() -> (r: Self)
        ensures
            forall|s: Stage| r.systems(s) == Seq::<u64>::empty(),
            r.plugins() == Seq::<u64>::empty(),
            r.plugins_built() == 0,
            r.applied().len() == 0,
            !r.last_build_failed(),
            !r.is_running(),
            r.resource_keys() == Set::<TypeId>::empty(),
            r.window_queue() is None,
            r.history() == Seq::<Pass>::empty(),
    {
        App {
            plugins: PluginList::new(),
            built: 0,
            startup: SystemList::new(),
            pre_update: SystemList::new(),
            update: SystemList::new(),
            post_update: SystemList::new(),
            render: SystemList::new(),
            running: false,
            resources: Resources::new(),
            window_key: TypeId::of::<WindowEvents>(),
            next_number: 1,
            history: Ghost(Seq::empty()),
            applied: Ghost(Seq::empty()),
            build_failed: Ghost(false),
        }
    }

    /// Stores `value` as the resource of type `T`, replacing any earlier one.
    pub fn insert_resource<T: Send + Sync + 'static>(&mut self, value: T)
        ensures
            exists|key: TypeId| final(self).resource_keys() == old(self).resource_keys().insert(key),
            forall|s: Stage| final(self).systems(s) == old(self).systems(s),
            final(self).plugins() == old(self).plugins(),
            final(self).plugins_built() == old(self).plugins_built(),
            final(self).applied() == old(self).applied(),
            final(self).last_build_failed() == old(self).last_build_failed(),
            final(self).is_running() == old(self).is_running(),
            final(self).history() == old(self).history(),
            final(self).next_number() == old(self).next_number(),
    {
        let ghost before = self.resource_keys();
        let key = TypeId::of::<T>();
        self.resources.insert(key, value);
        assert(self.resource_keys() == before.insert(key));
    }

    /// The resource of type `T`, or `None` when none of that exact type is stored.
    pub fn get_resource<T: Send + Sync + 'static>(&self) -> (r: Option<&T>)
        ensures
            self.resource_keys() == Set::<TypeId>::empty() ==> r is None,
    {
        let key = TypeId::of::<T>();
        self.resources.get(&key)
    }

    /// The resource of type `T` for mutation, or `None` when none of that exact type is stored.
    pub fn get_resource_mut<T: Send + Sync + 'static>(&mut self) -> (r: Option<&mut T>)
        ensures
            old(self).resource_keys() == Set::<TypeId>::empty() ==> r is None,
            final(self).resource_keys() == old(self).resource_keys(),
            forall|s: Stage| final(self).systems(s) == old(self).systems(s),
            final(self).plugins() == old(self).plugins(),
            final(self).plugins_built() == old(self).plugins_built(),
            final(self).applied() == old(self).applied(),
            final(self).last_build_failed() == old(self).last_build_failed(),
            final(self).is_running() == old(self).is_running(),
            final(self).history() == old(self).history(),
            final(self).next_number() == old(self).next_number(),
    {
        let key = TypeId::of::<T>();
        self.resources.get_mut(&key)
    }

    /// Stores `events` as the `WindowEvents` resource, replacing any earlier one.
    pub fn insert_window_events(&mut self, events: WindowEvents)
        ensures
            final(self).window_queue() == Some(events.queue@),
            final(self).resource_keys() == old(self).resource_keys().insert(
                old(self).window_events_key(),
            ),
            forall|s: Stage| final(self).systems(s) == old(self).systems(s),
            final(self).plugins() == old(self).plugins(),
            final(self).plugins_built() == old(self).plugins_built(),
            final(self).applied() == old(self).applied(),
            final(self).last_build_failed() == old(self).last_build_failed(),
            final(self).is_running() == old(self).is_running(),
            final(self).history() == old(self).history(),
            final(self).next_number() == old(self).next_number(),
            final(self).window_events_key() == old(self).window_events_key(),
    {
        self.resources.insert_window_events(self.window_key, events);
    }

    /// The `WindowEvents` resource for mutation, or `None` when there is none;
    /// what is written through it becomes the stored queue.
    pub fn window_events_mut(&mut self) -> (r: Option<&mut WindowEvents>)
        ensures
            r is Some <==> old(self).window_queue() is Some,
            r is Some ==> r.unwrap().queue@ == old(self).window_queue().unwrap(),
            r is Some ==> final(self).window_queue() == Some(final(r.unwrap()).queue@),
            r is None ==> final(self).window_queue() == old(self).window_queue(),
            final(self).resource_keys() == old(self).resource_keys(),
            forall|s: Stage| final(self).systems(s) == old(self).systems(s),
            final(self).plugins() == old(self).plugins(),
            final(self).plugins_built() == old(self).plugins_built(),
            final(self).applied() == old(self).applied(),
            final(self).last_build_failed() == old(self).last_build_failed(),
            final(self).is_running() == old(self).is_running(),
            final(self).history() == old(self).history(),
            final(self).next_number() == old(self).next_number(),
            final(self).window_events_key() == old(self).window_events_key(),
    {
        self.resources.window_events_mut(&self.window_key)
    }

    /// Ends the run loop at the end of the current tick.
    pub fn stop(&mut self)
        ensures
            !final(self).is_running(),
            final(self).window_queue() == old(self).window_queue(),
            forall|s: Stage| final(self).systems(s) == old(self).systems(s),
            final(self).plugins() == old(self).plugins(),
            final(self).plugins_built() == old(self).plugins_built(),
            final(self).applied() == old(self).applied(),
            final(self).last_build_failed() == old(self).last_build_failed(),
            final(self).resource_keys() == old(self).resource_keys(),
            final(self).history() == old(self).history(),
            final(self).next_number() == old(self).next_number(),
    {
        self.running = false;
    }

    /// Appends `f` to the systems of `stage`, under the next registration number.
    pub fn add_system_to_stage(
        &mut self,
        stage: Stage,
        f: impl FnMut(&mut App) -> Result<()> + 'static,
    )
        ensures
            final(self).systems(stage) == old(self).systems(stage).push(old(self).next_number()),
            forall|s: Stage| s != stage ==> final(self).systems(s) == old(self).systems(s),
            final(self).same_but_systems(*old(self)),
            final(self).next_number() == following(old(self).next_number()),
            final(self).window_events_key() == old(self).window_events_key(),
    {
        let number = self.next_number;
        self.next_number = if self.next_number == u64::MAX {
            0
        } else {
            self.next_number + 1
        };
        match stage {
            Stage::Startup => self.startup.push(number, f),
            Stage::PreUpdate => self.pre_update.push(number, f),
            Stage::Update => self.update.push(number, f),
            Stage::PostUpdate => self.post_update.push(number, f),
            Stage::Render => self.render.push(number, f),
        }
    }

    /// Appends `plugin` to the plugins, under the next registration number; it
    /// is applied by the next `build`.
    pub fn add_plugin<P: Plugin + 'static>(&mut self, plugin: P) -> (r: &mut Self)
        ensures
            r.plugins() == old(self).plugins().push(old(self).next_number()),
            r.next_number() == following(old(self).next_number()),
            r.window_events_key() == old(self).window_events_key(),
            r.plugins_built() == old(self).plugins_built(),
            r.applied() == old(self).applied(),
            r.last_build_failed() == old(self).last_build_failed(),
            r.is_running() == old(self).is_running(),
            r.resource_keys() == old(self).resource_keys(),
            r.window_queue() == old(self).window_queue(),
            r.history() == old(self).history(),
            forall|s: Stage| r.systems(s) == old(self).systems(s),
            *final(self) == *final(r),
    {
        let count = self.plugins.len();
        if self.built > count {
            self.built = count;
        }
        let number = self.next_number;
        self.next_number = if self.next_number == u64::MAX {
            0
        } else {
            self.next_number + 1
        };
        self.plugins.push(number, plugin);
        self
    }

    /// Applies, in registration order, each plugin that has not been applied
    /// yet, with exclusive access to the host. The first failure ends the
    /// build and is returned; the failed plugin counts as applied, and what the
    /// applied plugins registered stays. Plugins registered during the build
    /// are kept after the others and applied by the next build.
    pub fn build(&mut self) -> (r: Result<()>)
        ensures
            old(self).plugins().is_prefix_of(final(self).plugins()),
            old(self).plugins_built() <= final(self).plugins_built() <= old(self).plugins().len(),
            final(self).applied().take(old(self).applied().len() as int) == old(self).applied(),
            numbers_of(final(self).applied()) == numbers_of(old(self).applied())
                + old(self).plugins().subrange(
                old(self).plugins_built() as int,
                final(self).plugins_built() as int,
            ),
            forall|j: int|
                old(self).applied().len() <= j < final(self).applied().len() - 1 ==> (
                #[trigger] final(self).applied()[j]).1,
            r is Ok ==> forall|j: int|
                old(self).applied().len() <= j < final(self).applied().len() ==> (
                #[trigger] final(self).applied()[j]).1,
            r is Err ==> final(self).applied().len() > old(self).applied().len()
                && !final(self).applied().last().1,
            r is Ok ==> final(self).plugins_built() == old(self).plugins().len(),
            r is Err ==> old(self).plugins_built() < final(self).plugins_built(),
            final(self).last_build_failed() == (r is Err),
            old(self).plugins_built() == old(self).plugins().len() ==> {
                &&& r is Ok
                &&& final(self).plugins() == old(self).plugins()
                &&& forall|s: Stage| final(self).systems(s) == old(self).systems(s)
                &&& final(self).history() == old(self).history()
            },
    {
        let ghost past = self.applied@;
        let mut list = PluginList::new();
        std::mem::swap(&mut self.plugins, &mut list);
        let ghost numbers = plugin_numbers(list);
        let n = list.len();
        let start = if self.built <= n {
            self.built
        } else {
            n
        };
        let ghost mut applied: Seq<(u64, bool)> = Seq::empty();
        let ghost detached = *self;
        let mut result: Result<()> = Ok(());
        let mut failed = false;
        let mut i: usize = start;
        while i < n && !failed
            invariant
                i == start ==> *self == detached,
                n == numbers.len(),
                plugin_numbers(list) == numbers,
                start <= i <= n,
                applied.len() == i - start,
                numbers_of(applied) == numbers.subrange(start as int, i as int),
                forall|j: int| 0 <= j < applied.len() - 1 ==> (#[trigger] applied[j]).1,
                !failed ==> forall|j: int| 0 <= j < applied.len() ==> (#[trigger] applied[j]).1,
                failed ==> i > start && !applied.last().1,
                failed == (result is Err),
            decreases n - i,
        {
            let ghost before_call = applied;
            let plugin = list.get(i);
            match plugin.build(self) {
                Ok(()) => {
                    proof {
                        applied = applied.push((numbers[i as int], true));
                    }
                },
                Err(e) => {
                    result = Err(e);
                    failed = true;
                    proof {
                        applied = applied.push((numbers[i as int], false));
                    }
                },
            }
            i = i + 1;
            assert(numbers_of(applied) =~= numbers_of(before_call).push(numbers[i - 1]));
            assert(numbers.subrange(start as int, i as int) =~= numbers.subrange(
                start as int,
                i - 1,
            ).push(numbers[i - 1]));
        }
        let mut added = PluginList::new();
        std::mem::swap(&mut self.plugins, &mut added);
        list.append(added);
        self.plugins = list;
        self.built = i;
        self.applied = Ghost(past + applied);
        self.build_failed = Ghost(failed);
        assert(numbers_of(past + applied) =~= numbers_of(past) + numbers_of(applied));
        assert((past + applied).take(past.len() as int) =~= past);
        result
    }

    /// Builds, then runs `Startup` and one tick (`PreUpdate`, `Update`,
    /// `PostUpdate`, `Render`), in that order; the first failure ends the run
    /// and is returned, and no later stage runs.
    pub fn run_once(&mut self) -> (r: Result<()>)
        ensures
            r is Ok ==> ends_with_plan(final(self).history(), once_plan()),
            r is Ok ==> forall|i: int|
                final(self).history().len() - 5 <= i < final(self).history().len()
                    ==> (#[trigger] final(self).history()[i]).in_order(),
            r is Ok && old(self).plugins_built() == old(self).plugins().len()
                ==> passes_list_registered(final(self).history(), *old(self)),
            r is Err ==> final(self).last_build_failed() || ends_with_failure(
                final(self).history(),
                once_plan(),
            ),
    {
        let ghost a0 = *self;
        let built = self.build();
        if built.is_err() {
            return built;
        }
        let ghost h0 = self.history@;
        let ghost a1 = *self;
        let plan: Vec<Stage> = vec![
            Stage::Startup,
            Stage::PreUpdate,
            Stage::Update,
            Stage::PostUpdate,
            Stage::Render,
        ];
        assert(plan@ =~= once_plan());
        let mut k: usize = 0;
        while k < 5
            invariant
                plan@ == once_plan(),
                0 <= k <= 5,
                self.history@.len() == h0.len() + k,
                self.history@.take(h0.len() as int) == h0,
                forall|j: int|
                    0 <= j < k ==> {
                        &&& (#[trigger] self.history@[h0.len() + j]).stage == once_plan()[j]
                        &&& self.history@[h0.len() + j].succeeded
                        &&& self.history@[h0.len() + j].in_order()
                    },
                earlier_stages_empty(a1, k as int) ==> self.same_but_history(a1),
                forall|j: int|
                    0 <= j < k && earlier_stages_empty(a1, j) ==> (#[trigger] self.history@[h0.len()
                        + j]).listed == a1.systems(once_plan()[j]),
            decreases 5 - k,
        {
            let ghost hk = self.history@;
            let ghost ak = *self;
            let res = self.run_stage(plan[k]);
            proof {
                let h = self.history@;
                assert(h == hk.push(h.last()));
                assert(h.take(h0.len() as int) =~= h0);
                assert(h[h0.len() + k] == h.last());
                if earlier_stages_empty(a1, k + 1) {
                    assert(a1.systems(once_plan()[k as int]).len() == 0);
                }
            }
            if res.is_err() {
                proof {
                    let h = self.history@;
                    assert(h.drop_last() =~= hk);
                    assert(ends_with_plan(hk, once_plan().take(k as int))) by {
                        assert forall|i: int| 0 <= i < once_plan().take(k as int).len() implies {
                            &&& hk[hk.len() - once_plan().take(k as int).len() + i].stage
                                == #[trigger] once_plan().take(k as int)[i]
                            &&& hk[hk.len() - once_plan().take(k as int).len() + i].succeeded
                        } by {
                            assert(hk[h0.len() + i].stage == once_plan()[i]);
                        }
                    }
                    assert(h.last().stage == once_plan()[k as int]);
                }
                return res;
            }
            k = k + 1;
        }
        proof {
            let h = self.history@;
            assert(h.len() - 5 == h0.len());
            assert forall|i: int| 0 <= i < once_plan().len() implies {
                &&& h[h.len() - once_plan().len() + i].stage == #[trigger] once_plan()[i]
                &&& h[h.len() - once_plan().len() + i].succeeded
            } by {
                assert(h[h0.len() + i].stage == once_plan()[i]);
            }
            assert forall|i: int| h.len() - 5 <= i < h.len() implies (#[trigger] h[i]).in_order() by {
                assert(h[h0.len() + (i - h0.len())].in_order());
            }
            if a0.plugins_built() == a0.plugins().len() {
                assert forall|j: int| 0 <= j < 5 && earlier_stages_empty(a0, j) implies h[h.len() - 5
                    + j].listed == a0.systems(#[trigger] once_plan()[j]) by {
                    assert(earlier_stages_empty(a1, j));
                    assert(h[h0.len() + j].listed == a1.systems(once_plan()[j]));
                }
            }
        }
        Ok(())
    }

    /// Builds, then runs whole ticks (`PreUpdate`, `Update`, `PostUpdate`,
    /// `Render`) until `stop` has been called. The running flag is read only
    /// between ticks, so a tick in which `stop` is called runs to its end and
    /// is the last. The first failure ends the run and is returned; so does
    /// exhausting the 64-bit tick counter.
    pub fn run(&mut self) -> (r: Result<()>)
        ensures
            r is Ok ==> !final(self).is_running(),
            r is Ok ==> exists|k: int|
                0 <= k <= final(self).history().len() && ticks_until_stop(
                    #[trigger] final(self).history().subrange(k, final(self).history().len() as int),
                ),
            r is Ok && old(self).plugins_built() == old(self).plugins().len() ==> ticks_until_stop(
                final(self).history().subrange(
                    old(self).history().len() as int,
                    final(self).history().len() as int,
                ),
            ),
            r is Err ==> final(self).last_build_failed() || (final(self).history().len() > 0
                && !final(self).history().last().succeeded) || final(self).history().len() >= 4
                * u64::MAX,
    {
        let ghost a0 = *self;
        let built = self.build();
        if built.is_err() {
            return built;
        }
        self.running = true;
        let ghost start = self.history@.len() as int;
        let mut ticks: u64 = 0;
        while self.running
            invariant
                0 <= start <= self.history@.len(),
                a0.plugins_built() == a0.plugins().len() ==> start == a0.history().len(),
                self.history@.len() == start + 4 * ticks,
                whole_ticks(self.history@.subrange(start, self.history@.len() as int)),
                ticks == 0 ==> self.running,
                ticks > 0 ==> self.history@.last().running_after == self.running,
                ticks > 0 ==> running_through(
                    self.history@.subrange(start, self.history@.len() - 4),
                ),
            decreases u64::MAX - ticks,
        {
            if ticks == u64::MAX {
                return Err(MarsError::Internal(String::from_str("tick limit reached")));
            }
            let ghost h0 = self.history@;
            proof {
                let old_part = h0.subrange(start, h0.len() as int);
                if ticks > 0 {
                    assert(old_part.take(old_part.len() - 4) =~= h0.subrange(start, h0.len() - 4));
                    assert(old_part.last() == h0.last());
                }
                assert(running_through(old_part));
            }
            let r0 = self.run_stage(Stage::PreUpdate);
            if r0.is_err() {
                return r0;
            }
            let ghost h1 = self.history@;
            let r1 = self.run_stage(Stage::Update);
            if r1.is_err() {
                return r1;
            }
            let ghost h2 = self.history@;
            let r2 = self.run_stage(Stage::PostUpdate);
            if r2.is_err() {
                return r2;
            }
            let ghost h3 = self.history@;
            let r3 = self.run_stage(Stage::Render);
            if r3.is_err() {
                return r3;
            }
            proof {
                let h = self.history@;
                let old_part = h0.subrange(start, h0.len() as int);
                let part = h.subrange(start, h.len() as int);
                assert(part =~= old_part.push(h1.last()).push(h2.last()).push(h3.last()).push(
                    h.last(),
                ));
                let b = part.len() - 4;
                assert(part[b] == h1.last());
                assert(part[b + 1] == h2.last());
                assert(part[b + 2] == h3.last());
                assert(part[b + 3] == h.last());
                assert(ends_with_plan(part, tick_plan()));
                assert(part.take(part.len() - 4) =~= old_part);
                assert(h.subrange(start, h.len() - 4) =~= old_part);
            }
            ticks = ticks + 1;
        }
        proof {
            let h = self.history@;
            let part = h.subrange(start, h.len() as int);
            assert(part.take(part.len() - 4) =~= h.subrange(start, h.len() - 4));
            assert(part.last() == h.last());
            assert(ticks_until_stop(part));
            assert(self.history() == h);
            assert(ticks_until_stop(self.history().subrange(start, self.history().len() as int)));
        }
        Ok(())
    }

    /// Detaches the systems of `stage`, leaving that stage empty.
    fn take_systems(&mut self, stage: Stage) -> (r: SystemList)
        ensures
            system_numbers(r) == old(self).systems(stage),
            final(self).systems(stage) == Seq::<u64>::empty(),
            forall|s: Stage| s != stage ==> final(self).systems(s) == old(self).systems(s),
            final(self).same_but_systems(*old(self)),
            final(self).next_number() == old(self).next_number(),
            final(self).window_events_key() == old(self).window_events_key(),
    {
        let mut list = SystemList::new();
        match stage {
            Stage::Startup => std::mem::swap(&mut self.startup, &mut list),
            Stage::PreUpdate => std::mem::swap(&mut self.pre_update, &mut list),
            Stage::Update => std::mem::swap(&mut self.update, &mut list),
            Stage::PostUpdate => std::mem::swap(&mut self.post_update, &mut list),
            Stage::Render => std::mem::swap(&mut self.render, &mut list),
        }
        list
    }

    /// Puts back the systems of `stage`: those of `list` first, then those
    /// that were registered to the stage while it was detached.
    fn restore_systems(&mut self, stage: Stage, list: SystemList)
        ensures
            final(self).systems(stage) == system_numbers(list) + old(self).systems(stage),
            forall|s: Stage| s != stage ==> final(self).systems(s) == old(self).systems(s),
            final(self).same_but_systems(*old(self)),
            final(self).next_number() == old(self).next_number(),
            final(self).window_events_key() == old(self).window_events_key(),
    {
        let mut list = list;
        let added = self.take_systems(stage);
        list.append(added);
        match stage {
            Stage::Startup => self.startup = list,
            Stage::PreUpdate => self.pre_update = list,
            Stage::Update => self.update = list,
            Stage::PostUpdate => self.post_update = list,
            Stage::Render => self.render = list,
        }
    }

    /// One pass over `stage`: invokes the stage's systems in registration
    /// order, each with exclusive access to the host, and stops at the first
    /// failure, which it returns. Systems registered to the stage during the
    /// pass are kept after the others and first run in the next pass.
    fn run_stage(&mut self, stage: Stage) -> (r: Result<()>)
        ensures
            final(self).history() == old(self).history().push(final(self).history().last()),
            final(self).history().last().stage == stage,
            final(self).history().last().listed == old(self).systems(stage),
            final(self).history().last().in_order(),
            final(self).history().last().running_after == final(self).is_running(),
            r is Ok <==> final(self).history().last().succeeded,
            old(self).systems(stage).is_prefix_of(final(self).systems(stage)),
            old(self).systems(stage).len() == 0 ==> final(self).same_but_history(*old(self)),
    {
        let ghost past = self.history@;
        let ghost before = *self;
        let mut systems = self.take_systems(stage);
        let ghost listed = system_numbers(systems);
        let ghost detached = *self;
        let ghost mut invoked: Seq<u64> = Seq::empty();
        let ghost mut outcomes: Seq<bool> = Seq::empty();
        let n = systems.len();
        let mut result: Result<()> = Ok(());
        let mut failed = false;
        let mut i: usize = 0;
        while i < n && !failed
            invariant
                i == 0 ==> *self == detached,
                n == listed.len(),
                system_numbers(systems) == listed,
                0 <= i <= n,
                invoked == listed.take(i as int),
                outcomes.len() == i,
                forall|j: int| 0 <= j < i - 1 ==> #[trigger] outcomes[j],
                !failed ==> forall|j: int| 0 <= j < i ==> #[trigger] outcomes[j],
                failed ==> i > 0 && !outcomes.last(),
                failed == (result is Err),
            decreases n - i,
        {
            proof {
                invoked = invoked.push(listed[i as int]);
            }
            match systems.call(i, self) {
                Ok(()) => {
                    proof {
                        outcomes = outcomes.push(true);
                    }
                },
                Err(e) => {
                    result = Err(e);
                    failed = true;
                    proof {
                        outcomes = outcomes.push(false);
                    }
                },
            }
            i = i + 1;
            assert(invoked == listed.take(i as int));
        }
        self.restore_systems(stage, systems);
        let ghost pass = Pass {
            stage,
            listed,
            invoked,
            outcomes,
            succeeded: !failed,
            running_after: self.running,
        };
        assert(!failed ==> invoked == listed);
        self.history = Ghost(past.push(pass));
        proof {
            if listed.len() == 0 {
                assert(self.systems(stage) =~= before.systems(stage));
            }
        }
        result
    }
}

impl Default for App {
    /// The same empty host as `App::new`.
    fn default() -> (r: Self)
        ensures
            forall|s: Stage| r.systems(s) == Seq::<u64>::empty(),
            r.plugins() == Seq::<u64>::empty(),
            !r.is_running(),
            r.resource_keys() == Set::<TypeId>::empty(),
            r.history() == Seq::<Pass>::empty(),
    {
        App::new()
    }
}

} // verus!

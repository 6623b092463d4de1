use vstd::prelude::*;
use crate::app::{following, App, Stage};
use crate::error::Result;

verus! {

/// A unit of deferred registration: applied once, when the host builds.
pub trait Plugin {
    /// A short label for the plugin.
    fn name(&self) -> &'static str;

    /// Registers the plugin's resources and systems on the host.
    fn build(&self, app: &mut App) -> Result<()>;
}

/// Shorthands for registering systems to the common stages.
pub trait AppExt: Sized {
    /// Registration numbers of the systems of `stage`, in registration order.
    spec fn stage_systems(&self, stage: Stage) -> Seq<u64>;

    /// The number that the next registered system receives.
    spec fn upcoming_number(&self) -> u64;

    /// `self` and `other` agree on everything but the systems of the stages
    /// and the next registration number.
    spec fn same_apart_from_systems(&self, other: &Self) -> bool;

    /// Registers `f` to `Startup`.
    fn add_startup_system(&mut self, f: impl FnMut(&mut App) -> Result<()> + 'static) -> (r:
        &mut Self)
        ensures
            r.stage_systems(Stage::Startup) == old(self).stage_systems(Stage::Startup).push(
                old(self).upcoming_number(),
            ),
            forall|s: Stage| s != Stage::Startup ==> r.stage_systems(s) == old(self).stage_systems(s),
            r.same_apart_from_systems(old(self)),
            r.upcoming_number() == following(old(self).upcoming_number()),
            *final(self) == *final(r),
    ;

    /// Registers `f` to `Update`.
    fn add_system(&mut self, f: impl FnMut(&mut App) -> Result<()> + 'static) -> (r: &mut Self)
        ensures
            r.stage_systems(Stage::Update) == old(self).stage_systems(Stage::Update).push(
                old(self).upcoming_number(),
            ),
            forall|s: Stage| s != Stage::Update ==> r.stage_systems(s) == old(self).stage_systems(s),
            r.same_apart_from_systems(old(self)),
            r.upcoming_number() == following(old(self).upcoming_number()),
            *final(self) == *final(r),
    ;

    /// Registers `f` to `Render`.
    fn add_render_system(&mut self, f: impl FnMut(&mut App) -> Result<()> + 'static) -> (r:
        &mut Self)
        ensures
            r.stage_systems(Stage::Render) == old(self).stage_systems(Stage::Render).push(
                old(self).upcoming_number(),
            ),
            forall|s: Stage| s != Stage::Render ==> r.stage_systems(s) == old(self).stage_systems(s),
            r.same_apart_from_systems(old(self)),
            r.upcoming_number() == following(old(self).upcoming_number()),
            *final(self) == *final(r),
    ;
}

impl AppExt for App {
    open spec fn stage_systems(&self, stage: Stage) -> Seq<u64> {
        self.systems(stage)
    }

    open spec fn upcoming_number(&self) -> u64 {
        self.next_number()
    }

    open spec fn same_apart_from_systems(&self, other: &Self) -> bool {
        self.same_but_systems(*other) && self.window_events_key() == other.window_events_key()
    }

    fn add_startup_system(&mut self, f: impl FnMut(&mut App) -> Result<()> + 'static) -> (r:
        &mut Self) {
        self.add_system_to_stage(Stage::Startup, f);
        self
    }

    fn add_system(&mut self, f: impl FnMut(&mut App) -> Result<()> + 'static) -> (r: &mut Self) {
        self.add_system_to_stage(Stage::Update, f);
        self
    }

    fn add_render_system(&mut self, f: impl FnMut(&mut App) -> Result<()> + 'static) -> (r:
        &mut Self) {
        self.add_system_to_stage(Stage::Render, f);
        self
    }
}

} // verus!

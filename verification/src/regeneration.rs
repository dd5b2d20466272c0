//! When a pattern is laid out again: a controller with two states, and the
//! layout pass for either mode.

use vstd::prelude::*;
use crate::flower::{seed_element, seed_layout, spawn_flower_seeds, SeedSettings};
use crate::layout::{PlacedElement, PlacedElementView, ShapeKind};
use crate::petal::{petal_element, petal_layout, spawn_petals};
use crate::ui::FlowerMode;

verus! {

/// Whether what is on screen shows the current settings.
#[derive(Clone, Copy, Debug, PartialEq, Eq, Structural)]
pub enum ControllerState {
    /// The last layout was made from the settings as they are now.
    Clean,
    /// The settings changed since the last layout, or nothing was laid out
    /// yet: a pass is due.
    Dirty,
}

/// The kind of the geometry that the elements of a pattern share.
pub open spec fn shared_kind(mode: FlowerMode) -> ShapeKind {
    match mode {
        FlowerMode::Seed => ShapeKind::Circle,
        FlowerMode::Petal => ShapeKind::InnerEllipse,
    }
}

/// The pattern of the given mode and settings.
pub open spec fn layout_of(mode: FlowerMode, settings: SeedSettings) -> Seq<PlacedElementView> {
    match mode {
        FlowerMode::Seed => seed_layout(settings),
        FlowerMode::Petal => petal_layout(settings),
    }
}

/// Element number `index` of the pattern of the given mode and settings.
pub open spec fn element_of(mode: FlowerMode, settings: SeedSettings, index: int) -> PlacedElementView {
    match mode {
        FlowerMode::Seed => seed_element(settings, index),
        FlowerMode::Petal => petal_element(settings, index),
    }
}

/// The settings as a pass in the given mode leaves them.
pub open spec fn settings_after_pass(mode: FlowerMode, settings: SeedSettings) -> SeedSettings {
    settings.with_cache(shared_kind(mode))
}

/// Lays out the pattern of the given mode, making the shared geometry and
/// material first where the settings hold none.
pub fn generate(mode: FlowerMode, settings: &mut SeedSettings) -> (elements: Vec<PlacedElement>)
    ensures
        *final(settings) == settings_after_pass(mode, *old(settings)),
        elements.deep_view() == layout_of(mode, *old(settings)),
        elements@.len() == old(settings).element_count(),
        forall|k: int|
            0 <= k < elements@.len() ==> (#[trigger] elements@[k])@ == element_of(
                mode,
                *old(settings),
                k + 1,
            ),
{
    match mode {
        FlowerMode::Seed => spawn_flower_seeds(settings),
        FlowerMode::Petal => spawn_petals(settings),
    }
}

/// Decides when a layout pass runs.
#[derive(Clone, Copy, Debug, PartialEq, Eq, Structural)]
pub struct RegenerationController {
    pub state: ControllerState,
}

impl RegenerationController {
    /// A controller for a pattern that was never laid out: a pass is due.
    pub fn new() -> (controller: RegenerationController)
        ensures
            controller.state == ControllerState::Dirty,
    {
        RegenerationController { state: ControllerState::Dirty }
    }

    /// Whether a pass is due.
    pub fn is_dirty(&self) -> (dirty: bool)
        ensures
            dirty == (self.state == ControllerState::Dirty),
    {
        match self.state {
            ControllerState::Dirty => true,
            ControllerState::Clean => false,
        }
    }

    /// Records that the settings changed.
    pub fn mark_dirty(&mut self)
        ensures
            final(self).state == ControllerState::Dirty,
    {
        self.state = ControllerState::Dirty;
    }

    /// Runs a pass where one is due, and none where none is. The elements
    /// that come back replace all that were laid out before.
    pub fn maybe_regenerate(&mut self, mode: FlowerMode, settings: &mut SeedSettings) -> (pass:
        Option<Vec<PlacedElement>>)
        ensures
            final(self).state == ControllerState::Clean,
            old(self).state == ControllerState::Dirty ==> pass is Some
                && pass.unwrap().deep_view() == layout_of(mode, *old(settings))
                && pass.unwrap()@.len() == old(settings).element_count()
                && *final(settings) == settings_after_pass(mode, *old(settings)),
            forall|k: int|
                pass is Some && 0 <= k < pass.unwrap()@.len() ==> (#[trigger] pass.unwrap()@[k])@
                    == element_of(mode, *old(settings), k + 1),
            old(self).state == ControllerState::Clean ==> pass is None && *final(settings) == *old(
                settings,
            ),
    {
        match self.state {
            ControllerState::Clean => None,
            ControllerState::Dirty => {
                self.state = ControllerState::Clean;
                Some(generate(mode, settings))
            },
        }
    }
}

} // verus!

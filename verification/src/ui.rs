//! The control panel: the pattern mode, the panel's own state, and the rules
//! by which what a user does on the panel edits the pattern's settings.

use vstd::prelude::*;
use crate::flower::{clamped_amount, decremented_amount, incremented_amount, SeedSettings};
use crate::regeneration::{ControllerState, RegenerationController};
use crate::scalar::{
    Scalar, E_FRACTION_BITS, GOLDEN_FRACTION_BITS, HUNDRED_BITS, PI_FRACTION_BITS,
    QUARTER_PERCENT_BITS, TENTH_BITS, THIRTY_BITS,
};

verus! {

/// Which pattern is shown.
#[derive(Debug, PartialEq, Eq, Structural, Clone, Copy)]
pub enum FlowerMode {
    /// Seeds on Vogel's spiral.
    Seed,
    /// Petals on a ring.
    Petal,
}

impl FlowerMode {
    /// The largest spacing that the panel is meant to offer in this mode:
    /// `30.0` for seeds, `100.0` for petals. Nothing enforces it.
    pub open spec fn spec_max_density(self) -> Scalar {
        match self {
            FlowerMode::Seed => Scalar { bits: THIRTY_BITS },
            FlowerMode::Petal => Scalar { bits: HUNDRED_BITS },
        }
    }

    /// The largest number of elements a pattern of this mode may hold.
    pub open spec fn spec_max_amount(self) -> i32 {
        match self {
            FlowerMode::Seed => 500,
            FlowerMode::Petal => 40,
        }
    }

    /// The largest spacing that the panel is meant to offer in this mode.
    #[verifier::when_used_as_spec(spec_max_density)]
    pub fn max_density(self) -> (cap: Scalar)
        ensures
            cap == self.spec_max_density(),
    {
        match self {
            FlowerMode::Seed => Scalar { bits: THIRTY_BITS },
            FlowerMode::Petal => Scalar { bits: HUNDRED_BITS },
        }
    }

    /// The largest number of elements a pattern of this mode may hold.
    #[verifier::when_used_as_spec(spec_max_amount)]
    pub fn max_amount(self) -> (cap: i32)
        ensures
            cap == self.spec_max_amount(),
    {
        match self {
            FlowerMode::Seed => 500,
            FlowerMode::Petal => 40,
        }
    }
}

/// Whether a scalar is a step size that the panel offers: a number from
/// `0.0` to `0.1`.
///
/// Among the numbers that are not negative the bits are ordered as the
/// numbers are, and every negative number, `-0.0`, the infinities and the
/// NaNs have greater bits than `0.1` has: one comparison decides.
pub open spec fn spec_is_step_size(step: Scalar) -> bool {
    step.bits <= TENTH_BITS
}

/// Whether a scalar is a step size that the panel offers.
#[verifier::when_used_as_spec(spec_is_step_size)]
pub fn is_step_size(step: Scalar) -> (offered: bool)
    ensures
        offered == spec_is_step_size(step),
{
    step.bits <= TENTH_BITS
}

/// What the panel keeps besides the pattern's settings.
#[derive(Debug, PartialEq, Eq)]
pub struct UiState {
    /// The text of the rotation's expression field.
    pub fraction_content: String,
    /// By how much of a turn the rotation grows in a second of animation.
    pub step_size: Scalar,
    /// Whether the rotation is being animated.
    pub animate: bool,
    pub flower_mode: FlowerMode,
}

impl UiState {
    /// Whether the animation, where it runs, runs on a seed pattern: the
    /// panel offers it in no other mode.
    pub open spec fn animation_in_seed_mode(self) -> bool {
        self.animate ==> self.flower_mode == FlowerMode::Seed
    }

    /// Whether the step size is one that the panel offers.
    pub open spec fn step_size_in_range(self) -> bool {
        spec_is_step_size(self.step_size)
    }
}

impl Default for UiState {
    /// The panel as it opens: an empty expression, a step of `0.0025`, no
    /// animation, the seed pattern.
    fn default() -> (ui: UiState)
        ensures
            ui.fraction_content@ == Seq::<char>::empty(),
            ui.step_size == (Scalar { bits: QUARTER_PERCENT_BITS }),
            !ui.animate,
            ui.flower_mode == FlowerMode::Seed,
    {
        UiState {
            fraction_content: String::new(),
            step_size: Scalar { bits: QUARTER_PERCENT_BITS },
            animate: false,
            flower_mode: FlowerMode::Seed,
        }
    }
}

/// A constant whose fractional part the panel offers as a rotation.
#[derive(Clone, Copy, Debug, PartialEq, Eq, Structural)]
pub enum RotationPreset {
    /// The golden ratio.
    Phi,
    /// The circle constant.
    Pi,
    /// Euler's number.
    E,
}

impl RotationPreset {
    /// The constant less its integer part.
    pub open spec fn spec_fraction(self) -> Scalar {
        match self {
            RotationPreset::Phi => Scalar { bits: GOLDEN_FRACTION_BITS },
            RotationPreset::Pi => Scalar { bits: PI_FRACTION_BITS },
            RotationPreset::E => Scalar { bits: E_FRACTION_BITS },
        }
    }

    /// The constant less its integer part.
    #[verifier::when_used_as_spec(spec_fraction)]
    pub fn fraction(self) -> (rotation: Scalar)
        ensures
            rotation == self.spec_fraction(),
    {
        match self {
            RotationPreset::Phi => Scalar { bits: GOLDEN_FRACTION_BITS },
            RotationPreset::Pi => Scalar { bits: PI_FRACTION_BITS },
            RotationPreset::E => Scalar { bits: E_FRACTION_BITS },
        }
    }
}

/// One thing a user did on the panel.
#[derive(Clone, Copy, Debug, PartialEq, Eq, Structural)]
pub enum UiEvent {
    /// The rotation was dragged to a value.
    RotationDragged(Scalar),
    /// The expression field was submitted. It holds the value of the
    /// expression, or nothing where the text has no value.
    ExpressionEntered(Option<Scalar>),
    /// One of the constants was picked.
    PresetPressed(RotationPreset),
    /// The step size was moved to a value. Offered for seeds only, and
    /// from `0.0` to `0.1` only.
    StepSizeSlid(Scalar),
    /// The animation was started or stopped. Offered for seeds only.
    AnimationToggled,
    /// The amount was moved to a value.
    AmountSlid(i32),
    /// One element less was asked for.
    MinusPressed,
    /// One element more was asked for.
    PlusPressed,
    /// The defaults were asked for.
    ResetPressed,
    /// A mode was picked.
    ModeSelected(FlowerMode),
}

/// Whether an event edits the pattern, so that it has to be laid out again.
/// An expression without a value edits nothing; the animation's controls and
/// the choice of a mode do not touch the settings themselves.
pub open spec fn touches_pattern(event: UiEvent) -> bool {
    match event {
        UiEvent::RotationDragged(_) => true,
        UiEvent::ExpressionEntered(value) => value is Some,
        UiEvent::PresetPressed(_) => true,
        UiEvent::StepSizeSlid(_) => false,
        UiEvent::AnimationToggled => false,
        UiEvent::AmountSlid(_) => true,
        UiEvent::MinusPressed => true,
        UiEvent::PlusPressed => true,
        UiEvent::ResetPressed => true,
        UiEvent::ModeSelected(_) => false,
    }
}

/// The settings after one event, on a panel that showed `mode` when the
/// frame began.
pub open spec fn settings_after_event(
    mode: FlowerMode,
    settings: SeedSettings,
    event: UiEvent,
) -> SeedSettings {
    match event {
        UiEvent::RotationDragged(rotation) => settings.with_rotation(rotation),
        UiEvent::ExpressionEntered(Some(rotation)) => settings.with_rotation(rotation),
        UiEvent::ExpressionEntered(None) => settings,
        UiEvent::PresetPressed(preset) => settings.with_rotation(preset.spec_fraction()),
        UiEvent::StepSizeSlid(_) => settings,
        UiEvent::AnimationToggled => settings,
        UiEvent::AmountSlid(wanted) => settings.with_amount(clamped_amount(mode, wanted)),
        UiEvent::MinusPressed => settings.with_amount(decremented_amount(settings.amount)),
        UiEvent::PlusPressed => settings.with_amount(incremented_amount(mode, settings.amount)),
        UiEvent::ResetPressed => SeedSettings::mode_defaults(mode),
        UiEvent::ModeSelected(_) => settings,
    }
}

/// The panel's state after one event, on a panel that showed `mode` when the
/// frame began. The animation's controls do nothing unless that mode is the
/// seed pattern, and a step size that the panel does not offer is not taken.
pub open spec fn ui_after_event(mode: FlowerMode, ui: UiState, event: UiEvent) -> UiState {
    match event {
        UiEvent::StepSizeSlid(step_size) => if mode == FlowerMode::Seed && spec_is_step_size(
            step_size,
        ) {
            UiState { step_size, ..ui }
        } else {
            ui
        },
        UiEvent::AnimationToggled => if mode == FlowerMode::Seed {
            UiState { animate: !ui.animate, ..ui }
        } else {
            ui
        },
        UiEvent::ModeSelected(selected) => UiState { flower_mode: selected, ..ui },
        _ => ui,
    }
}

/// The settings after the events of a frame, taken in order.
pub open spec fn settings_after_events(
    mode: FlowerMode,
    settings: SeedSettings,
    events: Seq<UiEvent>,
) -> SeedSettings
    decreases events.len(),
{
    if events.len() == 0 {
        settings
    } else {
        settings_after_event(
            mode,
            settings_after_events(mode, settings, events.drop_last()),
            events.last(),
        )
    }
}

/// The panel's state after the events of a frame, taken in order.
pub open spec fn ui_after_events(mode: FlowerMode, ui: UiState, events: Seq<UiEvent>) -> UiState
    decreases events.len(),
{
    if events.len() == 0 {
        ui
    } else {
        ui_after_event(mode, ui_after_events(mode, ui, events.drop_last()), events.last())
    }
}

/// Whether one of the events edits the pattern.
pub open spec fn any_touches_pattern(events: Seq<UiEvent>) -> bool
    decreases events.len(),
{
    if events.len() == 0 {
        false
    } else {
        any_touches_pattern(events.drop_last()) || touches_pattern(events.last())
    }
}

/// The mode that the panel shows when the frame ends.
pub open spec fn mode_after_frame(ui: UiState, events: Seq<UiEvent>) -> FlowerMode {
    ui_after_events(ui.flower_mode, ui, events).flower_mode
}

/// Whether the frame ends in another mode than it began in.
pub open spec fn mode_switched(ui: UiState, events: Seq<UiEvent>) -> bool {
    mode_after_frame(ui, events) != ui.flower_mode
}

/// Whether the pattern has to be laid out again after the frame: an event
/// edited it, or the mode was switched.
pub open spec fn frame_regenerates(ui: UiState, events: Seq<UiEvent>) -> bool {
    any_touches_pattern(events) || mode_switched(ui, events)
}

/// The settings when the frame ends. A switch of mode puts the defaults of
/// the new mode in place of whatever the events made; and whenever the
/// pattern has to be laid out again, no geometry stays cached.
pub open spec fn settings_after_frame(
    settings: SeedSettings,
    ui: UiState,
    events: Seq<UiEvent>,
) -> SeedSettings {
    let edited = if mode_switched(ui, events) {
        SeedSettings::mode_defaults(mode_after_frame(ui, events))
    } else {
        settings_after_events(ui.flower_mode, settings, events)
    };
    if frame_regenerates(ui, events) {
        edited.without_mesh()
    } else {
        edited
    }
}

/// The panel's state when the frame ends. A switch of mode stops the
/// animation.
pub open spec fn ui_after_frame(ui: UiState, events: Seq<UiEvent>) -> UiState {
    let edited = ui_after_events(ui.flower_mode, ui, events);
    if mode_switched(ui, events) {
        UiState { animate: false, ..edited }
    } else {
        edited
    }
}

/// Applies one event, and says whether it edited the pattern. `mode` is the
/// mode that the panel showed when the frame began: the caps of that mode
/// hold for the whole frame.
pub fn apply_event(
    mode: FlowerMode,
    settings: &mut SeedSettings,
    ui_state: &mut UiState,
    event: UiEvent,
) -> (changed: bool)
    ensures
        *final(settings) == settings_after_event(mode, *old(settings), event),
        *final(ui_state) == ui_after_event(mode, *old(ui_state), event),
        changed == touches_pattern(event),
{
    match event {
        UiEvent::RotationDragged(rotation) => {
            settings.set_rotation(rotation);
            true
        },
        UiEvent::ExpressionEntered(value) => {
            match value {
                Some(rotation) => {
                    settings.set_rotation(rotation);
                    true
                },
                None => false,
            }
        },
        UiEvent::PresetPressed(preset) => {
            settings.set_rotation(preset.fraction());
            true
        },
        UiEvent::StepSizeSlid(step_size) => {
            match mode {
                FlowerMode::Seed => {
                    if is_step_size(step_size) {
                        ui_state.step_size = step_size;
                    }
                },
                FlowerMode::Petal => {},
            }
            false
        },
        UiEvent::AnimationToggled => {
            match mode {
                FlowerMode::Seed => {
                    ui_state.animate = !ui_state.animate;
                },
                FlowerMode::Petal => {},
            }
            false
        },
        UiEvent::AmountSlid(wanted) => {
            settings.set_amount(mode, wanted);
            true
        },
        UiEvent::MinusPressed => {
            settings.decrement_amount();
            true
        },
        UiEvent::PlusPressed => {
            settings.increment_amount(mode);
            true
        },
        UiEvent::ResetPressed => {
            settings.reset(mode);
            true
        },
        UiEvent::ModeSelected(selected) => {
            ui_state.flower_mode = selected;
            false
        },
    }
}

/// Works through what happened on the panel in one frame.
///
/// The events are applied in order. If the frame ends in another mode than
/// it began in, the animation stops and the settings become the defaults of
/// the new mode. If an event edited the pattern or the mode was switched,
/// the cached geometry is dropped and the controller is told that a pass is
/// due.
pub fn settings_ui(
    settings: &mut SeedSettings,
    ui_state: &mut UiState,
    controller: &mut RegenerationController,
    events: &Vec<UiEvent>,
)
    ensures
        *final(settings) == settings_after_frame(*old(settings), *old(ui_state), events@),
        *final(ui_state) == ui_after_frame(*old(ui_state), events@),
        final(controller).state == (if frame_regenerates(*old(ui_state), events@) {
            ControllerState::Dirty
        } else {
            old(controller).state
        }),
{
    let ghost settings_before = *settings;
    let ghost ui_before = *ui_state;
    let mode = ui_state.flower_mode;
    let mut changed = false;
    let mut done: usize = 0;
    while done < events.len()
        invariant
            done <= events.len(),
            mode == ui_before.flower_mode,
            *settings == settings_after_events(
                mode,
                settings_before,
                events@.subrange(0, done as int),
            ),
            *ui_state == ui_after_events(mode, ui_before, events@.subrange(0, done as int)),
            changed == any_touches_pattern(events@.subrange(0, done as int)),
            *controller == *old(controller),
        decreases events.len() - done,
    {
        let event = events[done];
        proof {
            let next = events@.subrange(0, done as int + 1);
            assert(next.drop_last() =~= events@.subrange(0, done as int));
            assert(next.last() == event);
        }
        let touched = apply_event(mode, settings, ui_state, event);
        changed = changed || touched;
        done = done + 1;
    }
    assert(events@.subrange(0, done as int) =~= events@);
    let switched = mode != ui_state.flower_mode;
    if switched {
        ui_state.animate = false;
        settings.reset(ui_state.flower_mode);
    }
    if changed || switched {
        settings.invalidate_mesh();
        controller.mark_dirty();
    }
}

} // verus!

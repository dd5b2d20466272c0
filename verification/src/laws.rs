//! What holds of the panel, the cache and the layouts whatever the settings
//! and whatever the user does.

use vstd::prelude::*;
use crate::flower::{
    clamped_amount, decremented_amount, incremented_amount, seed_layout, SeedSettings,
};
use crate::layout::{ShapeKind, ShapeRef};
use crate::petal::petal_layout;
use crate::regeneration::{layout_of, settings_after_pass, shared_kind};
use crate::ui::{
    any_touches_pattern, frame_regenerates, mode_after_frame, mode_switched, settings_after_event,
    settings_after_events, settings_after_frame, touches_pattern, ui_after_event, ui_after_events,
    ui_after_frame, FlowerMode, UiEvent, UiState,
};

verus! {

/// Whether two settings agree in every parameter; the handles may differ.
pub open spec fn same_parameters(a: SeedSettings, b: SeedSettings) -> bool {
    &&& a.rotation == b.rotation
    &&& a.distance == b.distance
    &&& a.radius == b.radius
    &&& a.amount == b.amount
    &&& a.color == b.color
}

/// An amount that is set lands between 0 and the mode's largest amount: on
/// the cap where more was asked for, on 0 where less than 0 was, else on what
/// was asked for. Taking one away never leaves less than 1, also from 0;
/// adding one never leaves more than the cap.
pub proof fn lemma_amount_edits_respect_bounds(mode: FlowerMode, amount: i32, wanted: i32)
    ensures
        0 <= clamped_amount(mode, wanted) <= mode.spec_max_amount(),
        wanted > mode.spec_max_amount() ==> clamped_amount(mode, wanted) == mode.spec_max_amount(),
        wanted < 0 ==> clamped_amount(mode, wanted) == 0,
        0 <= wanted <= mode.spec_max_amount() ==> clamped_amount(mode, wanted) == wanted,
        decremented_amount(amount) >= 1,
        amount > 1 ==> decremented_amount(amount) == amount - 1,
        incremented_amount(mode, amount) <= mode.spec_max_amount(),
        amount < mode.spec_max_amount() ==> incremented_amount(mode, amount) == amount + 1,
{
}

/// No event takes the amount out of the range of the mode in which the
/// frame began.
pub proof fn lemma_event_keeps_amount_in_range(
    mode: FlowerMode,
    settings: SeedSettings,
    event: UiEvent,
)
    requires
        settings.amount_in_range(mode),
    ensures
        settings_after_event(mode, settings, event).amount_in_range(mode),
{
}

/// No run of events takes the amount out of the range of the mode in which
/// the frame began.
pub proof fn lemma_events_keep_amount_in_range(
    mode: FlowerMode,
    settings: SeedSettings,
    events: Seq<UiEvent>,
)
    requires
        settings.amount_in_range(mode),
    ensures
        settings_after_events(mode, settings, events).amount_in_range(mode),
    decreases events.len(),
{
    if events.len() > 0 {
        lemma_events_keep_amount_in_range(mode, settings, events.drop_last());
        lemma_event_keeps_amount_in_range(
            mode,
            settings_after_events(mode, settings, events.drop_last()),
            events.last(),
        );
    }
}

/// The amount is in the range of the panel's mode after a frame if it was
/// before, whether or not the mode was switched.
pub proof fn lemma_frame_keeps_amount_in_range(
    settings: SeedSettings,
    ui: UiState,
    events: Seq<UiEvent>,
)
    requires
        settings.amount_in_range(ui.flower_mode),
    ensures
        settings_after_frame(settings, ui, events).amount_in_range(mode_after_frame(ui, events)),
{
    lemma_events_keep_amount_in_range(ui.flower_mode, settings, events);
}

/// A frame that ends in another mode than it began in leaves the defaults of
/// the new mode, with no geometry and no material cached, stops the
/// animation, and has the pattern laid out again: whatever the settings were
/// and whatever else happened in the frame.
pub proof fn lemma_mode_switch_resets(settings: SeedSettings, ui: UiState, events: Seq<UiEvent>)
    requires
        mode_switched(ui, events),
    ensures
        settings_after_frame(settings, ui, events) == SeedSettings::mode_defaults(
            mode_after_frame(ui, events),
        ),
        settings_after_frame(settings, ui, events).mesh_handle is None,
        settings_after_frame(settings, ui, events).material_handle is None,
        !ui_after_frame(ui, events).animate,
        ui_after_frame(ui, events).flower_mode == mode_after_frame(ui, events),
        frame_regenerates(ui, events),
{
}

/// A frame in which the pattern is edited or the mode switched ends with no
/// geometry cached; any other frame leaves the settings as they were.
pub proof fn lemma_frame_invalidates_geometry(
    settings: SeedSettings,
    ui: UiState,
    events: Seq<UiEvent>,
)
    ensures
        frame_regenerates(ui, events) ==> settings_after_frame(
            settings,
            ui,
            events,
        ).mesh_handle is None,
        !frame_regenerates(ui, events) ==> settings_after_frame(settings, ui, events) == settings,
{
    if !frame_regenerates(ui, events) {
        lemma_untouched_settings(ui.flower_mode, settings, events);
    }
}

/// Events that do not edit the pattern leave the settings as they were.
pub proof fn lemma_untouched_settings(
    mode: FlowerMode,
    settings: SeedSettings,
    events: Seq<UiEvent>,
)
    requires
        !any_touches_pattern(events),
    ensures
        settings_after_events(mode, settings, events) == settings,
    decreases events.len(),
{
    if events.len() > 0 {
        lemma_untouched_settings(mode, settings, events.drop_last());
    }
}

/// Events leave a handle that they do not drop standing for what it stood
/// for: a cache that fits the parameters still fits them afterwards.
pub proof fn lemma_events_keep_cache_coherent(
    mode: FlowerMode,
    settings: SeedSettings,
    events: Seq<UiEvent>,
    kind: ShapeKind,
)
    requires
        settings.cache_coherent(kind),
    ensures
        settings_after_events(mode, settings, events).cache_coherent(kind),
    decreases events.len(),
{
    if events.len() > 0 {
        lemma_events_keep_cache_coherent(mode, settings, events.drop_last(), kind);
    }
}

/// If the cache fits the parameters and the mode before a frame, it fits
/// them after it.
pub proof fn lemma_frame_keeps_cache_coherent(
    settings: SeedSettings,
    ui: UiState,
    events: Seq<UiEvent>,
)
    requires
        settings.cache_coherent(shared_kind(ui.flower_mode)),
    ensures
        settings_after_frame(settings, ui, events).cache_coherent(
            shared_kind(mode_after_frame(ui, events)),
        ),
{
    if !mode_switched(ui, events) {
        lemma_events_keep_cache_coherent(
            ui.flower_mode,
            settings,
            events,
            shared_kind(ui.flower_mode),
        );
    }
}

/// A pass leaves both handles present, keeps a cache that fits fitting, and
/// touches no parameter.
pub proof fn lemma_pass_fills_cache(mode: FlowerMode, settings: SeedSettings)
    ensures
        settings_after_pass(mode, settings).mesh_handle is Some,
        settings_after_pass(mode, settings).material_handle is Some,
        same_parameters(settings_after_pass(mode, settings), settings),
        settings.cache_coherent(shared_kind(mode)) ==> settings_after_pass(
            mode,
            settings,
        ).cache_coherent(shared_kind(mode)),
{
}

/// The same parameters give the same pattern: two settings that agree in
/// every parameter, each with a cache that fits, are laid out alike, element
/// for element.
pub proof fn lemma_layout_depends_on_parameters_alone(
    mode: FlowerMode,
    a: SeedSettings,
    b: SeedSettings,
)
    requires
        same_parameters(a, b),
        a.cache_coherent(shared_kind(mode)),
        b.cache_coherent(shared_kind(mode)),
    ensures
        layout_of(mode, a) == layout_of(mode, b),
        settings_after_pass(mode, a) == settings_after_pass(mode, b),
{
    assert(a.cached_mesh(shared_kind(mode)) == b.cached_mesh(shared_kind(mode)));
    assert(a.cached_material() == b.cached_material());
    assert(layout_of(mode, a) =~= layout_of(mode, b));
}

/// A second pass repeats the first: it gives the same elements and leaves
/// the settings as the first pass left them.
pub proof fn lemma_second_pass_repeats_first(mode: FlowerMode, settings: SeedSettings)
    ensures
        layout_of(mode, settings_after_pass(mode, settings)) == layout_of(mode, settings),
        settings_after_pass(mode, settings_after_pass(mode, settings)) == settings_after_pass(
            mode,
            settings,
        ),
{
    let after = settings_after_pass(mode, settings);
    assert(after.cached_mesh(shared_kind(mode)) == settings.cached_mesh(shared_kind(mode)));
    assert(after.cached_material() == settings.cached_material());
    assert(layout_of(mode, after) =~= layout_of(mode, settings));
}

/// A pattern holds exactly as many elements as its amount says, in either
/// mode: none for an amount of 0, and the amount itself wherever it is in
/// the mode's range.
pub proof fn lemma_layout_holds_the_amount(mode: FlowerMode, settings: SeedSettings)
    ensures
        layout_of(mode, settings).len() == settings.element_count(),
        settings.amount == 0 ==> layout_of(mode, settings).len() == 0,
        settings.amount_in_range(mode) ==> layout_of(mode, settings).len() == settings.amount,
{
}

/// Every seed of a pass is drawn with the one geometry and the one material
/// that the settings hold after it.
pub proof fn lemma_seeds_share_the_cache(settings: SeedSettings, k: int)
    requires
        0 <= k < seed_layout(settings).len(),
    ensures
        seed_layout(settings)[k].shape == (ShapeRef {
            mesh: settings.with_cache(ShapeKind::Circle).mesh_handle->0,
            material: settings.with_cache(ShapeKind::Circle).material_handle->0,
            shared: true,
        }),
        seed_layout(settings)[k].index == k + 1,
        seed_layout(settings)[k].children.len() == 0,
{
}

/// Every petal of a pass holds exactly one nested element, drawn with the
/// one geometry and the one material that the settings hold after the pass;
/// the petal's own body is shared with nothing.
pub proof fn lemma_petals_share_the_cache(settings: SeedSettings, k: int)
    requires
        0 <= k < petal_layout(settings).len(),
    ensures
        petal_layout(settings)[k].children.len() == 1,
        petal_layout(settings)[k].children[0].shape == (ShapeRef {
            mesh: settings.with_cache(ShapeKind::InnerEllipse).mesh_handle->0,
            material: settings.with_cache(ShapeKind::InnerEllipse).material_handle->0,
            shared: true,
        }),
        !petal_layout(settings)[k].shape.shared,
        petal_layout(settings)[k].index == k + 1,
        petal_layout(settings)[k].z_order == k + 1,
{
}

/// In a frame that began in the petal mode no event starts the animation.
pub proof fn lemma_petal_panel_never_animates(ui: UiState, events: Seq<UiEvent>)
    requires
        ui.flower_mode == FlowerMode::Petal,
    ensures
        ui_after_events(FlowerMode::Petal, ui, events).animate == ui.animate,
    decreases events.len(),
{
    if events.len() > 0 {
        lemma_petal_panel_never_animates(ui, events.drop_last());
    }
}

/// The animation runs on seed patterns only: if that holds before a frame,
/// it holds after it.
pub proof fn lemma_frame_keeps_animation_in_seed_mode(ui: UiState, events: Seq<UiEvent>)
    requires
        ui.animation_in_seed_mode(),
    ensures
        ui_after_frame(ui, events).animation_in_seed_mode(),
{
    if ui.flower_mode == FlowerMode::Petal {
        lemma_petal_panel_never_animates(ui, events);
    }
}

/// No run of events takes the step size out of the range that the panel
/// offers.
pub proof fn lemma_events_keep_step_size_in_range(
    mode: FlowerMode,
    ui: UiState,
    events: Seq<UiEvent>,
)
    requires
        ui.step_size_in_range(),
    ensures
        ui_after_events(mode, ui, events).step_size_in_range(),
    decreases events.len(),
{
    if events.len() > 0 {
        lemma_events_keep_step_size_in_range(mode, ui, events.drop_last());
    }
}

/// The step size is in the range that the panel offers after a frame if it
/// was before.
pub proof fn lemma_frame_keeps_step_size_in_range(ui: UiState, events: Seq<UiEvent>)
    requires
        ui.step_size_in_range(),
    ensures
        ui_after_frame(ui, events).step_size_in_range(),
{
    lemma_events_keep_step_size_in_range(ui.flower_mode, ui, events);
}

/// An expression without a value changes nothing at all.
pub proof fn lemma_invalid_expression_is_ignored(
    mode: FlowerMode,
    settings: SeedSettings,
    ui: UiState,
)
    ensures
        settings_after_event(mode, settings, UiEvent::ExpressionEntered(None)) == settings,
        ui_after_event(mode, ui, UiEvent::ExpressionEntered(None)) == ui,
        !touches_pattern(UiEvent::ExpressionEntered(None)),
{
}

} // verus!

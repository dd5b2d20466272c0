//! The settings of a pattern, and the seed pattern laid out from them.

use vstd::prelude::*;
use crate::layout::{
    Arrangement, Color, Geometry, MaterialHandle, MeshHandle, Orientation, PlacedElement,
    PlacedElementView, ShapeKind, ShapeRef,
};
use crate::scalar::{
    Scalar, FIFTY_BITS, FOUR_BITS, GOLDEN_FRACTION_BITS, TEN_BITS, TWENTY_BITS, ZERO_BITS,
};
use crate::regeneration::{ControllerState, RegenerationController};
use crate::ui::{FlowerMode, UiState};

verus! {

/// The parameters of a pattern together with the geometry and the material
/// that were made for it.
///
/// Each handle is absent until a layout pass first needs it, and present from
/// then on until it is cleared; a pass never replaces a handle it finds.
#[derive(Clone, Copy, Debug, PartialEq, Eq, Structural)]
pub struct SeedSettings {
    /// The fraction of a full turn between one element and the next.
    pub rotation: Scalar,
    /// The spacing: the unit of distance from the centre.
    pub distance: Scalar,
    /// The element radius.
    pub radius: Scalar,
    /// How many elements the pattern holds.
    pub amount: i32,
    pub color: Color,
    pub material_handle: Option<MaterialHandle>,
    pub mesh_handle: Option<MeshHandle>,
}

/// The amount nearest to `wanted` between 0 and what the mode allows.
pub open spec fn clamped_amount(mode: FlowerMode, wanted: i32) -> i32 {
    if wanted < 0 {
        0
    } else if wanted > mode.spec_max_amount() {
        mode.spec_max_amount()
    } else {
        wanted
    }
}

/// One less than `amount`, and 1 where that would be less than 1.
pub open spec fn decremented_amount(amount: i32) -> i32 {
    if amount > 1 {
        (amount - 1) as i32
    } else {
        1
    }
}

/// One more than `amount`, and the mode's largest amount where that would be
/// more.
pub open spec fn incremented_amount(mode: FlowerMode, amount: i32) -> i32 {
    if amount < mode.spec_max_amount() {
        (amount + 1) as i32
    } else {
        mode.spec_max_amount()
    }
}

impl SeedSettings {
    /// The settings a seed pattern starts from: a rotation of the golden
    /// ratio's fraction, spacing 20, radius 10, 100 elements, green, and
    /// nothing cached.
    pub open spec fn seed_defaults() -> SeedSettings {
        SeedSettings {
            rotation: Scalar { bits: GOLDEN_FRACTION_BITS },
            distance: Scalar { bits: TWENTY_BITS },
            radius: Scalar { bits: TEN_BITS },
            amount: 100,
            color: Color::spec_green(),
            material_handle: None,
            mesh_handle: None,
        }
    }

    /// The settings a petal pattern starts from: no rotation, spacing 50,
    /// radius 4, one element, green, and nothing cached.
    pub open spec fn petal_defaults() -> SeedSettings {
        SeedSettings {
            rotation: Scalar { bits: ZERO_BITS },
            distance: Scalar { bits: FIFTY_BITS },
            radius: Scalar { bits: FOUR_BITS },
            amount: 1,
            color: Color::spec_green(),
            material_handle: None,
            mesh_handle: None,
        }
    }

    /// The settings a pattern of the given mode starts from.
    pub open spec fn mode_defaults(mode: FlowerMode) -> SeedSettings {
        match mode {
            FlowerMode::Seed => SeedSettings::seed_defaults(),
            FlowerMode::Petal => SeedSettings::petal_defaults(),
        }
    }

    /// The settings a petal pattern starts from.
    pub fn default_petal() -> (settings: SeedSettings)
        ensures
            settings == SeedSettings::petal_defaults(),
    {
        SeedSettings {
            rotation: Scalar { bits: ZERO_BITS },
            distance: Scalar { bits: FIFTY_BITS },
            radius: Scalar { bits: FOUR_BITS },
            amount: 1,
            color: Color::green(),
            material_handle: None,
            mesh_handle: None,
        }
    }

    /// The settings a pattern of the given mode starts from.
    pub fn for_mode(mode: FlowerMode) -> (settings: SeedSettings)
        ensures
            settings == SeedSettings::mode_defaults(mode),
    {
        match mode {
            FlowerMode::Seed => SeedSettings::default(),
            FlowerMode::Petal => SeedSettings::default_petal(),
        }
    }

    /// How many elements a layout of these settings holds: the amount, or
    /// none where the amount is negative.
    pub open spec fn element_count(self) -> nat {
        if self.amount > 0 {
            self.amount as nat
        } else {
            0
        }
    }

    /// The geometry that a pass over these settings shares among its
    /// elements: the cached one, or a new one of the given kind and the
    /// current radius.
    pub open spec fn cached_mesh(self, kind: ShapeKind) -> MeshHandle {
        match self.mesh_handle {
            Some(handle) => handle,
            None => MeshHandle { geometry: Geometry { kind, radius: self.radius } },
        }
    }

    /// The material that a pass over these settings shares among its
    /// elements: the cached one, or a new one of the current colour.
    pub open spec fn cached_material(self) -> MaterialHandle {
        match self.material_handle {
            Some(handle) => handle,
            None => MaterialHandle { color: self.color },
        }
    }

    /// The shared pair of geometry and material of a pass over these settings.
    pub open spec fn spec_shared_shape(self, kind: ShapeKind) -> ShapeRef {
        ShapeRef { mesh: self.cached_mesh(kind), material: self.cached_material(), shared: true }
    }

    /// These settings after a pass: both handles present, the parameters as
    /// they were.
    pub open spec fn with_cache(self, kind: ShapeKind) -> SeedSettings {
        SeedSettings {
            material_handle: Some(self.cached_material()),
            mesh_handle: Some(self.cached_mesh(kind)),
            ..self
        }
    }

    /// Whether each handle that is present stands for what a pass of the
    /// given kind would make from the current parameters.
    pub open spec fn cache_coherent(self, kind: ShapeKind) -> bool {
        &&& self.mesh_handle matches Some(handle) ==> handle.geometry == (Geometry {
            kind,
            radius: self.radius,
        })
        &&& self.material_handle matches Some(handle) ==> handle.color == self.color
    }

    /// These settings with another rotation.
    pub open spec fn with_rotation(self, rotation: Scalar) -> SeedSettings {
        SeedSettings { rotation, ..self }
    }

    /// These settings with another amount.
    pub open spec fn with_amount(self, amount: i32) -> SeedSettings {
        SeedSettings { amount, ..self }
    }

    /// These settings with no geometry cached.
    pub open spec fn without_mesh(self) -> SeedSettings {
        SeedSettings { mesh_handle: None, ..self }
    }

    /// Whether the amount lies between 0 and what the mode allows.
    pub open spec fn amount_in_range(self, mode: FlowerMode) -> bool {
        0 <= self.amount <= mode.spec_max_amount()
    }

    /// Takes the rotation as given: any value, a NaN too.
    pub fn set_rotation(&mut self, rotation: Scalar)
        ensures
            *final(self) == old(self).with_rotation(rotation),
    {
        self.rotation = rotation;
    }

    /// Sets the amount to the nearest value between 0 and what the mode
    /// allows.
    pub fn set_amount(&mut self, mode: FlowerMode, wanted: i32)
        ensures
            *final(self) == old(self).with_amount(clamped_amount(mode, wanted)),
    {
        let cap = mode.max_amount();
        if wanted < 0 {
            self.amount = 0;
        } else if wanted > cap {
            self.amount = cap;
        } else {
            self.amount = wanted;
        }
    }

    /// Takes one element away, but never goes below one element.
    pub fn decrement_amount(&mut self)
        ensures
            *final(self) == old(self).with_amount(decremented_amount(old(self).amount)),
    {
        if self.amount > 1 {
            self.amount = self.amount - 1;
        } else {
            self.amount = 1;
        }
    }

    /// Adds one element, but never goes above what the mode allows.
    pub fn increment_amount(&mut self, mode: FlowerMode)
        ensures
            *final(self) == old(self).with_amount(incremented_amount(mode, old(self).amount)),
    {
        let cap = mode.max_amount();
        if self.amount < cap {
            self.amount = self.amount + 1;
        } else {
            self.amount = cap;
        }
    }

    /// Puts the settings back to what a pattern of the given mode starts
    /// from, handles included.
    pub fn reset(&mut self, mode: FlowerMode)
        ensures
            *final(self) == SeedSettings::mode_defaults(mode),
    {
        *self = SeedSettings::for_mode(mode);
    }

    /// Drops the cached geometry, so that the next pass makes a new one.
    pub fn invalidate_mesh(&mut self)
        ensures
            *final(self) == old(self).without_mesh(),
    {
        self.mesh_handle = None;
    }

    /// Makes the geometry and the material where they are absent, and gives
    /// the pair that the elements of a pass share.
    pub fn shared_shape(&mut self, kind: ShapeKind) -> (shape: ShapeRef)
        ensures
            *final(self) == old(self).with_cache(kind),
            shape == old(self).spec_shared_shape(kind),
    {
        let mesh = match self.mesh_handle {
            Some(handle) => handle,
            None => MeshHandle { geometry: Geometry { kind, radius: self.radius } },
        };
        let material = match self.material_handle {
            Some(handle) => handle,
            None => MaterialHandle { color: self.color },
        };
        self.mesh_handle = Some(mesh);
        self.material_handle = Some(material);
        ShapeRef { mesh, material, shared: true }
    }
}

impl Default for SeedSettings {
    /// The settings a seed pattern starts from.
    fn default() -> (settings: SeedSettings)
        ensures
            settings == SeedSettings::seed_defaults(),
    {
        SeedSettings {
            rotation: Scalar { bits: GOLDEN_FRACTION_BITS },
            distance: Scalar { bits: TWENTY_BITS },
            radius: Scalar { bits: TEN_BITS },
            amount: 100,
            color: Color::green(),
            material_handle: None,
            mesh_handle: None,
        }
    }
}

/// Moves the rotation on while the animation runs, and asks for a pass.
///
/// `advanced_rotation` is the rotation plus the step size times the seconds
/// that went by since the last frame. It is taken where the animation is on,
/// and then a pass is due; where the animation is off, nothing changes.
pub fn animate_flower_seeds(
    settings: &mut SeedSettings,
    ui_state: &UiState,
    controller: &mut RegenerationController,
    advanced_rotation: Scalar,
)
    ensures
        ui_state.animate ==> *final(settings) == old(settings).with_rotation(advanced_rotation)
            && final(controller).state == ControllerState::Dirty,
        !ui_state.animate ==> *final(settings) == *old(settings) && *final(controller) == *old(
            controller,
        ),
{
    if !ui_state.animate {
        return ;
    }
    settings.set_rotation(advanced_rotation);
    controller.mark_dirty();
}

/// Seed number `index` of a pattern with the given settings: on the spiral,
/// upright, at depth 0, drawn with the shared circle and material, with
/// nothing nested in it.
pub open spec fn seed_element(settings: SeedSettings, index: int) -> PlacedElementView {
    PlacedElementView {
        index,
        rotation: settings.rotation,
        spacing: settings.distance,
        arrangement: Arrangement::Spiral,
        orientation: Orientation::Upright,
        z_order: 0,
        shape: settings.spec_shared_shape(ShapeKind::Circle),
        children: Seq::empty(),
    }
}

/// The seed pattern of the given settings: seeds 1 to the amount, in order.
pub open spec fn seed_layout(settings: SeedSettings) -> Seq<PlacedElementView> {
    Seq::new(settings.element_count(), |k: int| seed_element(settings, k + 1))
}

/// Lays out the seed pattern, making the shared circle and material first
/// where the settings hold none.
pub fn spawn_flower_seeds(settings: &mut SeedSettings) -> (elements: Vec<PlacedElement>)
    ensures
        *final(settings) == old(settings).with_cache(ShapeKind::Circle),
        elements.deep_view() == seed_layout(*old(settings)),
        elements@.len() == old(settings).element_count(),
        forall|k: int|
            0 <= k < elements@.len() ==> (#[trigger] elements@[k])@ == seed_element(
                *old(settings),
                k + 1,
            ),
{
    let ghost before = *settings;
    let shape = settings.shared_shape(ShapeKind::Circle);
    let amount = settings.amount;
    let rotation = settings.rotation;
    let spacing = settings.distance;
    let mut elements: Vec<PlacedElement> = Vec::new();
    let mut index: i32 = 0;
    while index < amount
        invariant
            amount == before.amount,
            rotation == before.rotation,
            spacing == before.distance,
            0 <= index,
            index <= amount || index == 0,
            shape == before.spec_shared_shape(ShapeKind::Circle),
            elements@.len() == index,
            forall|k: int| 0 <= k < index ==> (#[trigger] elements@[k])@ == seed_element(before, k + 1),
        decreases amount - index,
    {
        index = index + 1;
        elements.push(
            PlacedElement {
                index,
                rotation,
                spacing,
                arrangement: Arrangement::Spiral,
                orientation: Orientation::Upright,
                z_order: 0,
                shape,
                children: Vec::new(),
            },
        );
    }
    assert(elements.deep_view() =~= seed_layout(before)) by {
        assert forall|k: int| 0 <= k < elements@.len() implies elements.deep_view()[k]
            == seed_element(before, k + 1) by {
            assert(elements@[k]@ == seed_element(before, k + 1));
        }
    }
    elements
}

} // verus!

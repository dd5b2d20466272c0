//! The petal pattern.

use vstd::prelude::*;
use crate::flower::SeedSettings;
use crate::layout::{
    Arrangement, Color, Geometry, MaterialHandle, MeshHandle, NestedElement, Orientation,
    PlacedElement, PlacedElementView, ShapeKind, ShapeRef,
};
use crate::scalar::{Scalar, HALF_BITS, ZERO_BITS};

verus! {

/// The body of a petal: an outer ellipse of the current radius in plain
/// green, allocated for the petal alone.
pub open spec fn petal_body(settings: SeedSettings) -> ShapeRef {
    ShapeRef {
        mesh: MeshHandle {
            geometry: Geometry { kind: ShapeKind::OuterEllipse, radius: settings.radius },
        },
        material: MaterialHandle { color: Color::spec_green() },
        shared: false,
    }
}

/// The highlight of a petal: the shared inner ellipse and material, half a
/// step in front of the petal's body.
pub open spec fn petal_highlight(settings: SeedSettings) -> NestedElement {
    NestedElement {
        x: Scalar { bits: ZERO_BITS },
        y: Scalar { bits: ZERO_BITS },
        z: Scalar { bits: HALF_BITS },
        shape: settings.spec_shared_shape(ShapeKind::InnerEllipse),
    }
}

/// Petal number `index` of a pattern with the given settings: on the ring,
/// turned along the radius, at depth `index`, drawn with a body of its own
/// and holding the one highlight.
pub open spec fn petal_element(settings: SeedSettings, index: int) -> PlacedElementView {
    PlacedElementView {
        index,
        rotation: settings.rotation,
        spacing: settings.distance,
        arrangement: Arrangement::Ring,
        orientation: Orientation::AlongRadius,
        z_order: index,
        shape: petal_body(settings),
        children: seq![petal_highlight(settings)],
    }
}

/// The petal pattern of the given settings: petals 1 to the amount, in order.
pub open spec fn petal_layout(settings: SeedSettings) -> Seq<PlacedElementView> {
    Seq::new(settings.element_count(), |k: int| petal_element(settings, k + 1))
}

/// Lays out the petal pattern, making the shared inner ellipse and material
/// first where the settings hold none. Every petal gets a body of its own.
pub fn spawn_petals(settings: &mut SeedSettings) -> (elements: Vec<PlacedElement>)
    ensures
        *final(settings) == old(settings).with_cache(ShapeKind::InnerEllipse),
        elements.deep_view() == petal_layout(*old(settings)),
        elements@.len() == old(settings).element_count(),
        forall|k: int|
            0 <= k < elements@.len() ==> (#[trigger] elements@[k])@ == petal_element(
                *old(settings),
                k + 1,
            ),
        forall|k: int| 0 <= k < elements@.len() ==> (#[trigger] elements@[k]).children@.len() == 1,
{
    let ghost before = *settings;
    let shared = settings.shared_shape(ShapeKind::InnerEllipse);
    let amount = settings.amount;
    let radius = settings.radius;
    let rotation = settings.rotation;
    let spacing = settings.distance;
    let mut elements: Vec<PlacedElement> = Vec::new();
    let mut index: i32 = 0;
    while index < amount
        invariant
            amount == before.amount,
            radius == before.radius,
            rotation == before.rotation,
            spacing == before.distance,
            0 <= index,
            index <= amount || index == 0,
            shared == before.spec_shared_shape(ShapeKind::InnerEllipse),
            elements@.len() == index,
            forall|k: int|
                0 <= k < index ==> (#[trigger] elements@[k])@ == petal_element(before, k + 1),
        decreases amount - index,
    {
        index = index + 1;
        let body = ShapeRef {
            mesh: MeshHandle { geometry: Geometry { kind: ShapeKind::OuterEllipse, radius } },
            material: MaterialHandle { color: Color::green() },
            shared: false,
        };
        let highlight = NestedElement {
            x: Scalar { bits: ZERO_BITS },
            y: Scalar { bits: ZERO_BITS },
            z: Scalar { bits: HALF_BITS },
            shape: shared,
        };
        let mut children: Vec<NestedElement> = Vec::new();
        children.push(highlight);
        assert(children@ =~= seq![petal_highlight(before)]);
        elements.push(
            PlacedElement {
                index,
                rotation,
                spacing,
                arrangement: Arrangement::Ring,
                orientation: Orientation::AlongRadius,
                z_order: index,
                shape: body,
                children,
            },
        );
    }
    assert(elements.deep_view() =~= petal_layout(before)) by {
        assert forall|k: int| 0 <= k < elements@.len() implies elements.deep_view()[k]
            == petal_element(before, k + 1) by {
            assert(elements@[k]@ == petal_element(before, k + 1));
        }
    }
    elements
}

} // verus!

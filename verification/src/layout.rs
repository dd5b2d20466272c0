//! What a pattern is drawn from and what a layout consists of: colours,
//! shapes, the handles that stand for them, and placed elements.

use vstd::prelude::*;
use crate::scalar::{Scalar, CSS_GREEN_BITS, ONE_BITS, ZERO_BITS};

verus! {

/// A colour by its red, green, blue and alpha channels in sRGB.
#[derive(Clone, Copy, Debug, PartialEq, Eq, Structural)]
pub struct Color {
    pub red: Scalar,
    pub green: Scalar,
    pub blue: Scalar,
    pub alpha: Scalar,
}

impl Color {
    /// CSS green, `#008000`, fully opaque.
    pub open spec fn spec_green() -> Color {
        Color {
            red: Scalar { bits: ZERO_BITS },
            green: Scalar { bits: CSS_GREEN_BITS },
            blue: Scalar { bits: ZERO_BITS },
            alpha: Scalar { bits: ONE_BITS },
        }
    }

    /// CSS green, `#008000`, fully opaque.
    #[verifier::when_used_as_spec(spec_green)]
    pub fn green() -> (c: Color)
        ensures
            c == Color::spec_green(),
    {
        Color {
            red: Scalar { bits: ZERO_BITS },
            green: Scalar { bits: CSS_GREEN_BITS },
            blue: Scalar { bits: ZERO_BITS },
            alpha: Scalar { bits: ONE_BITS },
        }
    }
}

/// The outline of a drawn primitive. Its semi-axes are multiples of the
/// element radius, counted in tenths.
#[derive(Clone, Copy, Debug, PartialEq, Eq, Structural)]
pub enum ShapeKind {
    /// A seed: a disc of the element radius.
    Circle,
    /// The highlight inside a petal: 5 radii wide by 10 radii high.
    InnerEllipse,
    /// The body of a petal: 5.1 radii wide by 10.1 radii high.
    OuterEllipse,
}

impl ShapeKind {
    /// The horizontal semi-axis, in tenths of the element radius.
    pub open spec fn spec_half_width_tenths(self) -> u32 {
        match self {
            ShapeKind::Circle => 10,
            ShapeKind::InnerEllipse => 50,
            ShapeKind::OuterEllipse => 51,
        }
    }

    /// The vertical semi-axis, in tenths of the element radius.
    pub open spec fn spec_half_height_tenths(self) -> u32 {
        match self {
            ShapeKind::Circle => 10,
            ShapeKind::InnerEllipse => 100,
            ShapeKind::OuterEllipse => 101,
        }
    }

    /// The horizontal semi-axis, in tenths of the element radius.
    #[verifier::when_used_as_spec(spec_half_width_tenths)]
    pub fn half_width_tenths(self) -> (tenths: u32)
        ensures
            tenths == self.spec_half_width_tenths(),
    {
        match self {
            ShapeKind::Circle => 10,
            ShapeKind::InnerEllipse => 50,
            ShapeKind::OuterEllipse => 51,
        }
    }

    /// The vertical semi-axis, in tenths of the element radius.
    #[verifier::when_used_as_spec(spec_half_height_tenths)]
    pub fn half_height_tenths(self) -> (tenths: u32)
        ensures
            tenths == self.spec_half_height_tenths(),
    {
        match self {
            ShapeKind::Circle => 10,
            ShapeKind::InnerEllipse => 100,
            ShapeKind::OuterEllipse => 101,
        }
    }
}

/// A shape of a given kind, scaled by an element radius. The radius is taken
/// as it is: zero and negative radii give degenerate shapes.
#[derive(Clone, Copy, Debug, PartialEq, Eq, Structural)]
pub struct Geometry {
    pub kind: ShapeKind,
    pub radius: Scalar,
}

/// Stands for one allocated geometry, and records what it was allocated for.
#[derive(Clone, Copy, Debug, PartialEq, Eq, Structural)]
pub struct MeshHandle {
    pub geometry: Geometry,
}

/// Stands for one allocated material, and records its colour.
#[derive(Clone, Copy, Debug, PartialEq, Eq, Structural)]
pub struct MaterialHandle {
    pub color: Color,
}

/// The geometry and material that an element is drawn with.
#[derive(Clone, Copy, Debug, PartialEq, Eq, Structural)]
pub struct ShapeRef {
    pub mesh: MeshHandle,
    pub material: MaterialHandle,
    /// `true` where the pair is the cached one, lent to every element that
    /// refers to it; `false` where it was allocated for this element alone.
    pub shared: bool,
}

/// The curve on which the elements of a pattern lie.
#[derive(Clone, Copy, Debug, PartialEq, Eq, Structural)]
pub enum Arrangement {
    /// Vogel's spiral: an element lies twice the square root of its index
    /// spacings from the centre.
    Spiral,
    /// A ring: every element lies one spacing from the centre.
    Ring,
}

/// How an element is turned about its own centre.
#[derive(Clone, Copy, Debug, PartialEq, Eq, Structural)]
pub enum Orientation {
    /// Not turned.
    Upright,
    /// Turned by the element's angle round the centre plus a quarter turn.
    AlongRadius,
}

/// An element drawn inside another, at a fixed offset from it.
#[derive(Clone, Copy, Debug, PartialEq, Eq, Structural)]
pub struct NestedElement {
    pub x: Scalar,
    pub y: Scalar,
    pub z: Scalar,
    pub shape: ShapeRef,
}

/// One element of a layout.
///
/// The element stands `index` times `rotation` of a full turn round the
/// centre, at the distance that its arrangement gives in units of `spacing`.
/// The coordinates themselves are left to whoever draws the element.
#[derive(Debug, PartialEq, Eq)]
pub struct PlacedElement {
    /// The element's number in the pattern, counted from 1.
    pub index: i32,
    /// The fraction of a full turn between one element and the next.
    pub rotation: Scalar,
    /// The unit of distance from the centre.
    pub spacing: Scalar,
    pub arrangement: Arrangement,
    pub orientation: Orientation,
    /// The depth at which the element is drawn; higher is nearer.
    pub z_order: i32,
    pub shape: ShapeRef,
    /// The elements drawn inside this one.
    pub children: Vec<NestedElement>,
}

/// A placed element as a mathematical value.
pub struct PlacedElementView {
    pub index: int,
    pub rotation: Scalar,
    pub spacing: Scalar,
    pub arrangement: Arrangement,
    pub orientation: Orientation,
    pub z_order: int,
    pub shape: ShapeRef,
    pub children: Seq<NestedElement>,
}

impl View for PlacedElement {
    type V = PlacedElementView;

    open spec fn view(&self) -> PlacedElementView {
        PlacedElementView {
            index: self.index as int,
            rotation: self.rotation,
            spacing: self.spacing,
            arrangement: self.arrangement,
            orientation: self.orientation,
            z_order: self.z_order as int,
            shape: self.shape,
            children: self.children@,
        }
    }
}

impl DeepView for PlacedElement {
    type V = PlacedElementView;

    open spec fn deep_view(&self) -> PlacedElementView {
        self@
    }
}

} // verus!

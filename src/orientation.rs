//! The caller's choice of handedness, front-face winding and output form.
use vstd::prelude::*;

verus! {

/// The handedness of the coordinate system, with +X rightward and +Y upward.
#[derive(Clone, Copy, PartialEq, Eq, Structural, Debug)]
pub enum Chirality {
    /// +Z forward, away from the viewer.
    Left,
    /// +Z backward, toward the viewer.
    Right,
}

/// Which traversal direction, seen from the front, makes a front face.
#[derive(Clone, Copy, PartialEq, Eq, Structural, Debug)]
pub enum Winding {
    Clockwise,
    Counterclockwise,
}

/// The local space of a shape: its handedness and its front-face convention.
#[derive(Clone, Copy, PartialEq, Eq, Structural, Debug)]
pub struct Orientation {
    /// Whether the coordinate space is left- or right-handed.
    pub chirality: Chirality,
    /// How the vertex order defines the front and back faces.
    pub winding: Winding,
}

impl Orientation {
    pub fn is_left(&self) -> (r: bool)
        ensures
            r == (self.chirality == Chirality::Left),
    {
        self.chirality == Chirality::Left
    }

    pub fn is_right(&self) -> (r: bool)
        ensures
            r == (self.chirality == Chirality::Right),
    {
        self.chirality == Chirality::Right
    }

    pub fn is_cw(&self) -> (r: bool)
        ensures
            r == (self.winding == Winding::Clockwise),
    {
        self.winding == Winding::Clockwise
    }

    pub fn is_ccw(&self) -> (r: bool)
        ensures
            r == (self.winding == Winding::Counterclockwise),
    {
        self.winding == Winding::Counterclockwise
    }
}

impl Default for Orientation {
    /// Right-handed, counterclockwise.
    fn default() -> (r: Self)
        ensures
            r.chirality == Chirality::Right,
            r.winding == Winding::Counterclockwise,
    {
        Orientation { chirality: Chirality::Right, winding: Winding::Counterclockwise }
    }
}

/// What a generator is asked for.
#[derive(Clone, Copy, PartialEq, Eq, Structural, Debug)]
pub struct Configuration {
    /// Controls the coordinate space chirality and the primitive winding order.
    pub orientation: Orientation,
    /// Whether the shape should include normal data.
    pub generate_normals: bool,
    /// Provides index data as triangle strips.
    pub prefer_strips: bool,
}

impl Default for Configuration {
    /// Right-handed, counterclockwise, no normals, triangle lists.
    fn default() -> (r: Self)
        ensures
            r == default_configuration(),
    {
        Configuration {
            orientation: Orientation::default(),
            generate_normals: false,
            prefer_strips: false,
        }
    }
}

/// The configuration that `Configuration::default` returns.
pub open spec fn default_configuration() -> Configuration {
    Configuration {
        orientation: Orientation { chirality: Chirality::Right, winding: Winding::Counterclockwise },
        generate_normals: false,
        prefer_strips: false,
    }
}

/// The configuration `c` with chirality `h`.
pub open spec fn with_chirality(c: Configuration, h: Chirality) -> Configuration {
    Configuration { orientation: Orientation { chirality: h, ..c.orientation }, ..c }
}

/// The configuration `c` with winding `w`.
pub open spec fn with_winding(c: Configuration, w: Winding) -> Configuration {
    Configuration { orientation: Orientation { winding: w, ..c.orientation }, ..c }
}

/// The configuration `c` with or without strips.
pub open spec fn with_strips(c: Configuration, strips: bool) -> Configuration {
    Configuration { prefer_strips: strips, ..c }
}

} // verus!

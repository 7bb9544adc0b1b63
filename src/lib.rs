//! Procedural meshes for regular polygons and the five Platonic solids.
//!
//! Coordinates are exact: a solid's vertex is a triple of golden integers
//! scaled per axis by a square root, a polygon's vertex is a position on the
//! circumscribed circle.  Evaluating them to floating point is left to the
//! renderer.
pub mod exact;
pub mod orientation;
pub mod platonic;
pub mod polygon;
pub mod shape;
mod solid_facts;
pub mod targa;

pub use exact::{Coordinate, Golden, SolidPoint, SCALE_DENOMINATOR};
pub use orientation::{Chirality, Configuration, Orientation, Winding};
pub use platonic::PlatonicSolid;
pub use polygon::{PlanePoint, Polygon, Polygons, ShapeError};
pub use shape::{strips_to_triangles, Face, Shape, Shaper};
pub use targa::{decode_targa, encode_targa, TargaError, TargaImage};

//! The integer-valued decisions of a Monte Carlo path tracer, verified: the
//! image configuration and the order in which pixels are written, the
//! plain-text RGB encoding of the image, the bounce budget of each light path,
//! the choice of the nearest hit among the surfaces of a scene, and the draw
//! budget of rejection sampling.
use vstd::prelude::*;

pub mod image;
pub mod ppm;
pub mod sampling;
pub mod scene;
pub mod trace;

verus! {

} // verus!

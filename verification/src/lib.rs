//! The decision logic of a Monte Carlo path tracer: reflectance-kind flag
//! sets, lobe selection inside a scattering aggregate, the strategy choices of
//! the direct-lighting estimator, the per-bounce state machine of the path
//! integrator, bucket search in piecewise-constant distributions, and the
//! tiling of the output image.

pub mod bsdf;
pub mod bxdf;
pub mod debugger;
pub mod distribution;
pub mod image_tiler;
pub mod intersect;
pub mod light;
pub mod material;
pub mod raytracer;
pub mod types;

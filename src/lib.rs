//! Discrete core of a Monte Carlo path tracer: ray-parameter ordering,
//! sphere root selection, closest-hit aggregation over a scene, the bounded
//! bounce loop of the integrator, the output pixel grid and its plain-text
//! image encoding. Floating-point kernels run on top of these decisions.
pub mod key;
pub mod sphere;
pub mod scene;
pub mod integrator;
pub mod image;
pub mod ppm;
pub mod vector;

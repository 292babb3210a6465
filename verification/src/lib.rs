//! A 2D flocking simulation ("boids"): a population of agents, each with a
//! position, heading and speed, advanced once per frame by local steering
//! rules with boundary reflection at the screen edges.
//!
//! All quantities are held in fixed-point form: an `i64` counts multiples of
//! `1/SCALE` of a screen unit (or of a radian, for angles and headings).
//! Trigonometry is not computed here; the per-frame update is split into a
//! planning step, which reports for each agent the direction query it needs
//! answered, and a commit step, which takes the answers and writes the new
//! agent states.

pub mod boid;
pub mod flock;
pub mod geometry;

pub use boid::Boid;
pub use boid::Rgba;
pub use flock::AgentPlan;
pub use flock::Config;
pub use flock::Flock;
pub use flock::HeadingPlan;
pub use geometry::Point;

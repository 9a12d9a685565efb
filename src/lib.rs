//! Simulation core of a small 2D action game: typed component tables over
//! entity identifiers, and the systems that advance them one fixed tick at a
//! time (kinematics, player control, a recycled bullet pool, a grappling hook
//! with pendulum swing, and a boss enemy).
//!
//! All quantities are integers in fixed-point units (see `units`): motion
//! under velocity and gravity is exact, and every contract speaks of plain
//! integer arithmetic.

pub mod units;
pub mod ecs;
pub mod input;
pub mod world;
pub mod physics;
pub mod control;
pub mod projectiles;
pub mod grapple;
pub mod boss;
pub mod game;

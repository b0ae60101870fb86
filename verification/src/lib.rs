//! Discrete trajectory generation for one-dimensional stochastic process
//! models: a simple random walk, a Bernoulli-trial path, a recurrence-based
//! geometric Brownian-motion variant, and a Poisson arrival process.
//!
//! Every coordinate and model parameter is the bit pattern of an IEEE 754
//! single-precision value (see the `scalar` module). Each model owns one
//! trajectory, appends exactly one point per step, and spends a distance
//! budget fixed at construction. The budget is held as the number of steps
//! left (the distance divided by the step size), so that `generate` always
//! terminates, whatever the floating-point parameters; the Poisson model,
//! whose gaps are drawn rather than fixed, carries an explicit event cap for
//! the same reason. Randomness is injected per model instance through the
//! `random` module, so seeded and scripted runs are deterministic.

pub mod base;
pub mod bernoulli;
pub mod brownian;
pub mod poisson;
pub mod random;
pub mod rwalk;
pub mod scalar;

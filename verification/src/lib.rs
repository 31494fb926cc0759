//! Constrained adjoint-gradient optimization driver for force-density
//! networks.
//!
//! Numerical values flow through this library as IEEE-754 binary64 bit
//! patterns held in `u64`. The `num` module gives those patterns their
//! order, finiteness tests and the handful of exact operations the driver
//! needs; the remaining modules build the parameter codec, the
//! factorization-strategy selector, the memoizing evaluation cache and the
//! restart-controlling optimization driver on top of it.

pub mod cache;
pub mod codec;
pub mod driver;
pub mod num;
pub mod strategy;

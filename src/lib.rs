//! Bonding-curve pricing and the decisions around a curve's migration into an
//! external constant-product pool whose liquidity is then locked.
pub mod error;
pub mod curve;
pub mod curve_laws;
pub mod swap;
pub mod encoding;
pub mod migration;
pub mod lock;

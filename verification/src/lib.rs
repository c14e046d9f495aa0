//! Exact kernel of a Landau-Lifshitz-Gilbert (LLG) spin integrator.
//!
//! The LLG equation moves a magnetic moment (a 3-vector) under an effective
//! field: a precession term `spin x field` plus a damping term
//! `spin x (spin x field)`.  Everything that can be said exactly about that
//! law is integer vector algebra, and this crate states and proves it: the
//! cross-product identities, and the fact that the LLG torque is always
//! orthogonal to the spin, which is what conserves the spin's length under
//! the continuous flow.

pub mod torque;
pub mod vec3;

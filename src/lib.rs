//! Decision logic of two quadrature rules (a fixed-step composite trapezoid
//! rule and a curvature-driven adaptive trapezoid rule), stated over IEEE-754
//! binary64 values held as their bit patterns.
//!
//! The arithmetic of the rules is floating point and runs in the caller; what
//! the rules decide (how an interval is ordered, whether a step size is
//! acceptable, how a degenerate estimate is neutralised and how a step is
//! bounded) is defined and proved here.

pub mod binary64;
pub mod rules;

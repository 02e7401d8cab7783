//! The ambient color uniform: the frame's clear color.

use vstd::prelude::*;

use crate::mesh::Color;

verus! {

/// A four-channel color record mirrored to the GPU as the clear
/// color.
#[derive(Clone, Copy, Debug, PartialEq, Eq, Structural)]
pub struct ColorUniform {
    pub color: Color,
}

} // verus!

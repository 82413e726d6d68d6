//! Markers for the interface documentation: the document generator itself is
//! an outward concern a thin shell drives; the core only names the two
//! documents it contributes.

use vstd::prelude::*;

verus! {

/// Marker for the generated description of the task routes.
#[derive(Debug)]
pub struct TodolistApi;

/// Marker for the generated top-level service description.
#[derive(Debug)]
pub struct ApiDoc;

} // verus!

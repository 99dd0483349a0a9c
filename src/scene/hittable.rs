//! Objects of a scene that rays can hit.

use vstd::prelude::*;

verus! {

/// First step of building a sphere: the center comes next, then the radius and the material.
#[derive(Debug, Clone, Copy)]
pub struct SphereCenterBuilder;

/// Which root of the ray-sphere quadratic is the hit.
#[derive(Debug, Clone, Copy, PartialEq, Eq, Structural)]
pub enum SphereRoot {
    /// The smaller root.
    Near,
    /// The larger root.
    Far,
}

/// The hit of a ray on a sphere: none where the discriminant is negative; else the
/// smaller root if it lies in the ray's interval, else the larger one if it does,
/// else none.
pub open spec fn spec_sphere_root(discriminant_negative: bool, near_in_range: bool, far_in_range: bool) -> Option<SphereRoot> {
    if discriminant_negative {
        None
    } else if near_in_range {
        Some(SphereRoot::Near)
    } else if far_in_range {
        Some(SphereRoot::Far)
    } else {
        None
    }
}

/// Chooses the root that a ray hits a sphere at, from the sign of the discriminant
/// and whether each root lies within the ray's valid interval.
pub fn sphere_root(discriminant_negative: bool, near_in_range: bool, far_in_range: bool) -> (r: Option<SphereRoot>)
    ensures
        r == spec_sphere_root(discriminant_negative, near_in_range, far_in_range),
{
    if discriminant_negative {
        None
    } else if near_in_range {
        Some(SphereRoot::Near)
    } else if far_in_range {
        Some(SphereRoot::Far)
    } else {
        None
    }
}

/// Which side of a surface a ray meets, and so which way the recorded normal points.
#[derive(Debug, Clone, Copy, PartialEq, Eq, Structural)]
pub enum Facing {
    /// The ray meets the outside: the normal is the outward normal.
    Front,
    /// The ray meets the inside: the normal is the outward normal negated.
    Back,
}

/// The side of a surface that a ray meets; `against_outward` tells whether the ray
/// direction has a negative dot product with the outward normal.
pub fn facing(against_outward: bool) -> (f: Facing)
    ensures
        against_outward ==> f == Facing::Front,
        !against_outward ==> f == Facing::Back,
{
    if against_outward {
        Facing::Front
    } else {
        Facing::Back
    }
}

/// A list of objects has a bounding box exactly when it is not empty and each of
/// its objects has one; `has_box[i]` tells whether object `i` has one.
pub fn list_has_box(has_box: &Vec<bool>) -> (b: bool)
    ensures
        b == (has_box@.len() > 0 && forall|i: int| 0 <= i < has_box@.len() ==> #[trigger] has_box@[i]),
{
    if has_box.len() == 0 {
        return false;
    }
    let mut i: usize = 0;
    while i < has_box.len()
        invariant
            i <= has_box@.len(),
            forall|j: int| 0 <= j < i ==> #[trigger] has_box@[j],
        decreases has_box@.len() - i,
    {
        if !has_box[i] {
            return false;
        }
        i = i + 1;
    }
    true
}

} // verus!

use glam::IVec2;
use vstd::prelude::*;

verus! {

/// `glam::IVec2`, the pair of `i32` that names a cell or an offset between
/// cells. The type is taken as glam declares it: a struct of the two public
/// fields `x` and `y`, which verified code reads directly.
#[verifier::external_type_specification]
pub struct ExIVec2(IVec2);

/// `glam::IVec2::new` returns the vector whose fields `x` and `y` hold its
/// first and its second argument. This is taken from glam and not proved.
pub assume_specification[ IVec2::new ](x: i32, y: i32) -> (v: IVec2)
    ensures
        v.x == x,
        v.y == y,
;

} // verus!

//! The checks a linear estimation of model parameters makes on its point
//! correspondences before solving.

use vstd::prelude::*;
use vstd::string::*;

use crate::camera::{CameraKind, CameraModelError};
use crate::text::{decimal, digit_char};

verus! {

/// The fewest correspondences the linear estimation of model `k` needs.
pub open spec fn minimum_points(k: CameraKind) -> nat {
    match k {
        CameraKind::Fov => 2,
        CameraKind::RadTan => 3,
        CameraKind::KannalaBrandt => 4,
        _ => 0,
    }
}

/// The complaint about too few correspondences for the estimation of `k`.
pub open spec fn too_few_points_message(k: CameraKind) -> Seq<char> {
    match k {
        CameraKind::Fov => "Need at least 2 points for FOV linear estimation"@,
        CameraKind::RadTan => "Need at least 3 points for RadTan linear estimation"@,
        CameraKind::KannalaBrandt => "Not enough points for linear estimation (need at least 4)"@,
        _ => Seq::empty(),
    }
}

/// Checks the correspondences given to the linear estimation of model `k`:
/// as many 3D points as 2D points, and at least the model's minimum.
pub fn check_estimation_input(k: CameraKind, n_3d: usize, n_2d: usize) -> (r: Result<(), CameraModelError>)
    ensures
        if n_3d != n_2d {
            r matches Err(CameraModelError::InvalidParams(m)) && m@ == "Number of 2D and 3D points must match"@
        } else if n_3d < minimum_points(k) {
            r matches Err(CameraModelError::InvalidParams(m)) && m@ == too_few_points_message(k)
        } else {
            r is Ok
        },
{
    if n_3d != n_2d {
        return Err(CameraModelError::InvalidParams(String::from_str("Number of 2D and 3D points must match")));
    }
    match k {
        CameraKind::Fov => {
            if n_3d < 2 {
                return Err(CameraModelError::InvalidParams(String::from_str("Need at least 2 points for FOV linear estimation")));
            }
        },
        CameraKind::RadTan => {
            if n_3d < 3 {
                return Err(CameraModelError::InvalidParams(String::from_str("Need at least 3 points for RadTan linear estimation")));
            }
        },
        CameraKind::KannalaBrandt => {
            if n_3d < 4 {
                return Err(CameraModelError::InvalidParams(String::from_str("Not enough points for linear estimation (need at least 4)")));
            }
        },
        _ => {},
    }
    Ok(())
}

/// The number of correspondences a linear estimation asks for is the one
/// its complaint names: the field of view model needs 2, the
/// radial-tangential model 3 and the Kannala-Brandt model 4; the other
/// models are estimated from any number of correspondences.  So the check
/// accepts every matching count at least that number (500 correspondences
/// pass for every model) and refuses every smaller one with that complaint.
pub proof fn lemma_minimum_is_the_stated_count(k: CameraKind, n: nat)
    ensures
        k == CameraKind::Fov ==> minimum_points(k) == 2
            && too_few_points_message(k) == "Need at least "@ + decimal(minimum_points(k)) + " points for FOV linear estimation"@,
        k == CameraKind::RadTan ==> minimum_points(k) == 3
            && too_few_points_message(k) == "Need at least "@ + decimal(minimum_points(k)) + " points for RadTan linear estimation"@,
        k == CameraKind::KannalaBrandt ==> minimum_points(k) == 4
            && too_few_points_message(k) == "Not enough points for linear estimation (need at least "@ + decimal(minimum_points(k)) + ")"@,
        k != CameraKind::Fov && k != CameraKind::RadTan && k != CameraKind::KannalaBrandt ==> minimum_points(k) == 0,
        n >= 4 ==> n >= minimum_points(k),
{
    reveal_strlit("Need at least ");
    reveal_strlit(" points for FOV linear estimation");
    reveal_strlit("Need at least 2 points for FOV linear estimation");
    reveal_strlit(" points for RadTan linear estimation");
    reveal_strlit("Need at least 3 points for RadTan linear estimation");
    reveal_strlit("Not enough points for linear estimation (need at least ");
    reveal_strlit(")");
    reveal_strlit("Not enough points for linear estimation (need at least 4)");
    assert(decimal(2) == seq![digit_char(2)]);
    assert(decimal(3) == seq![digit_char(3)]);
    assert(decimal(4) == seq![digit_char(4)]);
    assert("Need at least 2 points for FOV linear estimation"@ =~= "Need at least "@ + decimal(2) + " points for FOV linear estimation"@);
    assert("Need at least 3 points for RadTan linear estimation"@ =~= "Need at least "@ + decimal(3) + " points for RadTan linear estimation"@);
    assert("Not enough points for linear estimation (need at least 4)"@ =~= "Not enough points for linear estimation (need at least "@ + decimal(4) + ")"@);
}

} // verus!

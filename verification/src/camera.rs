//! Camera models: intrinsics, resolution, the named distortion models and the
//! selection of distortion parameters for each of them.

use vstd::prelude::*;
use vstd::string::*;

use crate::text::{join_text, str_eq};

verus! {

/// Camera intrinsic parameters, each the bit pattern of an `f64`.
#[derive(Debug, Clone, Copy, PartialEq, Eq, Structural)]
pub struct Intrinsics {
    pub fx: u64,
    pub fy: u64,
    pub cx: u64,
    pub cy: u64,
}

/// Image resolution in pixels.
#[derive(Debug, Clone, Copy, PartialEq, Eq, Structural)]
pub struct Resolution {
    pub width: u32,
    pub height: u32,
}

/// Errors of camera model handling.
#[derive(Debug, Clone)]
pub enum CameraModelError {
    ProjectionOutSideImage,
    PointIsOutSideImage,
    PointAtCameraCenter,
    FocalLengthMustBePositive,
    PrincipalPointMustBeFinite,
    InvalidParams(String),
    YamlError(String),
    IOError(String),
    NumericalError(String),
}

impl CameraModelError {
    /// The human-readable description of the error.
    pub fn message(&self) -> (r: String)
        ensures
            r@ == self.spec_message(),
    {
        match self {
            CameraModelError::ProjectionOutSideImage => String::from_str("Projection is outside the image"),
            CameraModelError::PointIsOutSideImage => String::from_str("Input point is outside the image"),
            CameraModelError::PointAtCameraCenter => String::from_str("z is close to zero, point is at camera center"),
            CameraModelError::FocalLengthMustBePositive => String::from_str("Focal length must be positive"),
            CameraModelError::PrincipalPointMustBeFinite => String::from_str("Principal point must be finite"),
            CameraModelError::InvalidParams(s) => join_text("Invalid camera parameters: ", s.as_str()),
            CameraModelError::YamlError(s) => join_text("Failed to load YAML: ", s.as_str()),
            CameraModelError::IOError(s) => join_text("IO Error: ", s.as_str()),
            CameraModelError::NumericalError(s) => join_text("NumericalError: ", s.as_str()),
        }
    }

    /// The description `message` returns.
    pub open spec fn spec_message(&self) -> Seq<char> {
        match self {
            CameraModelError::ProjectionOutSideImage => "Projection is outside the image"@,
            CameraModelError::PointIsOutSideImage => "Input point is outside the image"@,
            CameraModelError::PointAtCameraCenter => "z is close to zero, point is at camera center"@,
            CameraModelError::FocalLengthMustBePositive => "Focal length must be positive"@,
            CameraModelError::PrincipalPointMustBeFinite => "Principal point must be finite"@,
            CameraModelError::InvalidParams(s) => "Invalid camera parameters: "@ + s@,
            CameraModelError::YamlError(s) => "Failed to load YAML: "@ + s@,
            CameraModelError::IOError(s) => "IO Error: "@ + s@,
            CameraModelError::NumericalError(s) => "NumericalError: "@ + s@,
        }
    }
}

/// The camera models this library knows, by their canonical names.
#[derive(Debug, Clone, Copy, PartialEq, Eq, Structural)]
pub enum CameraKind {
    Pinhole,
    DoubleSphere,
    Eucm,
    Fov,
    KannalaBrandt,
    RadTan,
    Ucm,
}

impl CameraKind {
    /// The canonical name of the model.
    pub open spec fn canonical_name(self) -> Seq<char> {
        match self {
            CameraKind::Pinhole => "pinhole"@,
            CameraKind::DoubleSphere => "double_sphere"@,
            CameraKind::Eucm => "eucm"@,
            CameraKind::Fov => "fov"@,
            CameraKind::KannalaBrandt => "kannala_brandt"@,
            CameraKind::RadTan => "rad_tan"@,
            CameraKind::Ucm => "ucm"@,
        }
    }

    /// The number of distortion parameters the model reads.
    pub open spec fn distortion_len(self) -> nat {
        match self {
            CameraKind::Pinhole => 0,
            CameraKind::DoubleSphere => 2,
            CameraKind::Eucm => 2,
            CameraKind::Fov => 1,
            CameraKind::KannalaBrandt => 4,
            CameraKind::RadTan => 5,
            CameraKind::Ucm => 1,
        }
    }

    /// The complaint about too few distortion parameters for the model.
    pub open spec fn shortage_message(self) -> Seq<char> {
        match self {
            CameraKind::Pinhole => Seq::empty(),
            CameraKind::DoubleSphere => "DS needs 2 distortion params"@,
            CameraKind::Eucm => "EUCM needs 2 distortion params"@,
            CameraKind::Fov => "FOV needs 1 distortion param"@,
            CameraKind::KannalaBrandt => "KB needs 4 distortion params"@,
            CameraKind::RadTan => "RadTan needs 5 distortion params"@,
            CameraKind::Ucm => "UCM needs 1 distortion param"@,
        }
    }

    /// The number of distortion parameters the model reads.
    pub fn distortion_count(&self) -> (r: usize)
        ensures
            r == self.distortion_len(),
    {
        match self {
            CameraKind::Pinhole => 0,
            CameraKind::DoubleSphere => 2,
            CameraKind::Eucm => 2,
            CameraKind::Fov => 1,
            CameraKind::KannalaBrandt => 4,
            CameraKind::RadTan => 5,
            CameraKind::Ucm => 1,
        }
    }

    /// The canonical name of the model.
    pub fn name(&self) -> (r: &'static str)
        ensures
            r@ == self.canonical_name(),
    {
        match self {
            CameraKind::Pinhole => "pinhole",
            CameraKind::DoubleSphere => "double_sphere",
            CameraKind::Eucm => "eucm",
            CameraKind::Fov => "fov",
            CameraKind::KannalaBrandt => "kannala_brandt",
            CameraKind::RadTan => "rad_tan",
            CameraKind::Ucm => "ucm",
        }
    }
}

/// The model whose canonical name is `name`, if any.
pub open spec fn kind_of(name: Seq<char>) -> Option<CameraKind> {
    if name == "pinhole"@ {
        Some(CameraKind::Pinhole)
    } else if name == "double_sphere"@ {
        Some(CameraKind::DoubleSphere)
    } else if name == "eucm"@ {
        Some(CameraKind::Eucm)
    } else if name == "fov"@ {
        Some(CameraKind::Fov)
    } else if name == "kannala_brandt"@ {
        Some(CameraKind::KannalaBrandt)
    } else if name == "rad_tan"@ {
        Some(CameraKind::RadTan)
    } else if name == "ucm"@ {
        Some(CameraKind::Ucm)
    } else {
        None
    }
}

/// The model whose canonical name is `name`, if any.
pub fn kind_from_name(name: &str) -> (r: Option<CameraKind>)
    ensures
        r == kind_of(name@),
{
    if str_eq(name, "pinhole") {
        Some(CameraKind::Pinhole)
    } else if str_eq(name, "double_sphere") {
        Some(CameraKind::DoubleSphere)
    } else if str_eq(name, "eucm") {
        Some(CameraKind::Eucm)
    } else if str_eq(name, "fov") {
        Some(CameraKind::Fov)
    } else if str_eq(name, "kannala_brandt") {
        Some(CameraKind::KannalaBrandt)
    } else if str_eq(name, "rad_tan") {
        Some(CameraKind::RadTan)
    } else if str_eq(name, "ucm") {
        Some(CameraKind::Ucm)
    } else {
        None
    }
}

/// The canonical names of the models are pairwise distinct: each names its
/// own model.
pub proof fn lemma_kind_of_canonical_name(k: CameraKind)
    ensures
        kind_of(k.canonical_name()) == Some(k),
{
    reveal_strlit("pinhole");
    reveal_strlit("double_sphere");
    reveal_strlit("eucm");
    reveal_strlit("fov");
    reveal_strlit("kannala_brandt");
    reveal_strlit("rad_tan");
    reveal_strlit("ucm");
    // The canonical names differ in their first character.
    assert("pinhole"@[0] == 'p');
    assert("double_sphere"@[0] == 'd');
    assert("eucm"@[0] == 'e');
    assert("fov"@[0] == 'f');
    assert("kannala_brandt"@[0] == 'k');
    assert("rad_tan"@[0] == 'r');
    assert("ucm"@[0] == 'u');
}

/// A lens distortion model with its parameters (each the bit pattern of an
/// `f64`).
#[derive(Debug, Clone, Copy, PartialEq, Eq, Structural)]
pub enum DistortionModel {
    NoDistortion,
    BrownConrady { k1: u64, k2: u64, p1: u64, p2: u64, k3: u64 },
    KannalaBrandt { k1: u64, k2: u64, k3: u64, k4: u64 },
    FOV { w: u64 },
    UCM { alpha: u64 },
    EUCM { alpha: u64, beta: u64 },
    DoubleSphere { xi: u64, alpha: u64 },
}

/// The distortion model of kind `k` read from the stored parameter list `d`
/// (the double sphere model stores `[alpha, xi]`).
pub open spec fn distortion_of(k: CameraKind, d: Seq<u64>) -> DistortionModel {
    match k {
        CameraKind::Pinhole => DistortionModel::NoDistortion,
        CameraKind::DoubleSphere => DistortionModel::DoubleSphere { xi: d[1], alpha: d[0] },
        CameraKind::Eucm => DistortionModel::EUCM { alpha: d[0], beta: d[1] },
        CameraKind::Fov => DistortionModel::FOV { w: d[0] },
        CameraKind::KannalaBrandt => DistortionModel::KannalaBrandt { k1: d[0], k2: d[1], k3: d[2], k4: d[3] },
        CameraKind::RadTan => DistortionModel::BrownConrady { k1: d[0], k2: d[1], p1: d[2], p2: d[3], k3: d[4] },
        CameraKind::Ucm => DistortionModel::UCM { alpha: d[0] },
    }
}

/// The abstract content of a camera: what the library's contracts speak of.
pub struct CameraSpec {
    pub intrinsics: Intrinsics,
    pub resolution: Resolution,
    pub model_name: Seq<char>,
    pub distortion: Seq<u64>,
}

/// A camera model together with the resolution of its images.
#[derive(Debug, Clone)]
pub struct CameraWithResolution {
    pub intrinsics: Intrinsics,
    pub resolution: Resolution,
    pub model_name: String,
    pub distortion_params: Vec<u64>,
}

impl View for CameraWithResolution {
    type V = CameraSpec;

    open spec fn view(&self) -> CameraSpec {
        CameraSpec {
            intrinsics: self.intrinsics,
            resolution: self.resolution,
            model_name: self.model_name@,
            distortion: self.distortion_params@,
        }
    }
}

impl CameraWithResolution {
    /// The distortion model named by `model_name`, with its parameters taken
    /// from the front of `distortion_params`.
    pub fn make_distortion_model(&self) -> (r: Result<DistortionModel, CameraModelError>)
        ensures
            match kind_of(self.model_name@) {
                None => r matches Err(CameraModelError::InvalidParams(m))
                    && m@ == "Unknown model: "@ + self.model_name@,
                Some(k) => if self.distortion_params@.len() < k.distortion_len() {
                    r matches Err(CameraModelError::InvalidParams(m)) && m@ == k.shortage_message()
                } else {
                    r == Ok::<DistortionModel, CameraModelError>(distortion_of(k, self.distortion_params@))
                },
            },
    {
        let d = &self.distortion_params;
        match kind_from_name(self.model_name.as_str()) {
            Some(CameraKind::Pinhole) => Ok(DistortionModel::NoDistortion),
            Some(CameraKind::DoubleSphere) => {
                if d.len() < 2 {
                    return Err(CameraModelError::InvalidParams(String::from_str("DS needs 2 distortion params")));
                }
                Ok(DistortionModel::DoubleSphere { xi: d[1], alpha: d[0] })
            },
            Some(CameraKind::Eucm) => {
                if d.len() < 2 {
                    return Err(CameraModelError::InvalidParams(String::from_str("EUCM needs 2 distortion params")));
                }
                Ok(DistortionModel::EUCM { alpha: d[0], beta: d[1] })
            },
            Some(CameraKind::Fov) => {
                if d.len() == 0 {
                    return Err(CameraModelError::InvalidParams(String::from_str("FOV needs 1 distortion param")));
                }
                Ok(DistortionModel::FOV { w: d[0] })
            },
            Some(CameraKind::KannalaBrandt) => {
                if d.len() < 4 {
                    return Err(CameraModelError::InvalidParams(String::from_str("KB needs 4 distortion params")));
                }
                Ok(DistortionModel::KannalaBrandt { k1: d[0], k2: d[1], k3: d[2], k4: d[3] })
            },
            Some(CameraKind::RadTan) => {
                if d.len() < 5 {
                    return Err(CameraModelError::InvalidParams(String::from_str("RadTan needs 5 distortion params")));
                }
                Ok(DistortionModel::BrownConrady { k1: d[0], k2: d[1], p1: d[2], p2: d[3], k3: d[4] })
            },
            Some(CameraKind::Ucm) => {
                if d.len() == 0 {
                    return Err(CameraModelError::InvalidParams(String::from_str("UCM needs 1 distortion param")));
                }
                Ok(DistortionModel::UCM { alpha: d[0] })
            },
            None => Err(CameraModelError::InvalidParams(join_text("Unknown model: ", self.model_name.as_str()))),
        }
    }

    /// The image resolution.
    pub fn get_resolution(&self) -> (r: Resolution)
        ensures
            r == self.resolution,
    {
        self.resolution
    }

    /// The intrinsic parameters.
    pub fn get_intrinsics(&self) -> (r: Intrinsics)
        ensures
            r == self.intrinsics,
    {
        self.intrinsics
    }

    /// A copy of the distortion parameters.
    pub fn get_distortion(&self) -> (r: Vec<u64>)
        ensures
            r@ == self.distortion_params@,
    {
        self.distortion_params.clone()
    }

    /// The model name.
    pub fn get_model_name(&self) -> (r: &str)
        ensures
            r@ == self.model_name@,
    {
        self.model_name.as_str()
    }
}

} // verus!

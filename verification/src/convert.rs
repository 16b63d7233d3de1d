//! The decisions of a model conversion: which target models an input model
//! is converted to, the model a conversion starts from, the parameter vector
//! the optimizer works on and how its result is written back, and the
//! validation outcome used when no validation could be computed.

use vstd::prelude::*;
use vstd::string::*;

use crate::camera::{CameraKind, CameraModelError, CameraSpec, CameraWithResolution, Intrinsics};
use crate::float_bits::{HALF_BITS, NAN_BITS, ONE_BITS, TENTH_BITS, ZERO_BITS};
use crate::sampling::Point2;
use crate::text::str_eq;
use crate::yaml_io::{alias_kind, intrinsics_nodes, real_bits, YamlNode};

verus! {

/// Options of the `convert` command.
#[derive(Debug, Clone)]
pub struct ConvertArgs {
    /// Type of the input camera model (kb, ds, radtan, ucm, eucm, fov, pinhole)
    pub input_model: String,
    /// Path to the input model YAML file
    pub input_path: String,
    /// Number of sample points to generate for optimization
    pub num_points: usize,
    /// Path to the input image for processing and quality assessment
    pub image_path: Option<String>,
}

/// The lower-case form of a text, as `str::to_lowercase` computes it.
pub uninterp spec fn lowercase(s: Seq<char>) -> Seq<char>;

/// Calls `str::to_lowercase`.  Its result is the Unicode lower-case mapping
/// of the text; the contract names it `lowercase` and says no more.
#[verifier::external_body]
pub(crate) fn to_lowercase(s: &str) -> (r: String)
    ensures
        r@ == lowercase(s@),
{
    s.to_lowercase()
}

/// The models an input model is converted to, in the order they are tried.
pub open spec fn target_order() -> Seq<CameraKind> {
    seq![
        CameraKind::DoubleSphere,
        CameraKind::KannalaBrandt,
        CameraKind::RadTan,
        CameraKind::Ucm,
        CameraKind::Eucm,
        CameraKind::Fov,
    ]
}

/// The lower-case input model types under which the input already is the
/// target model `k`, so that no conversion to `k` is made.
pub open spec fn is_input_alias(k: CameraKind, lower: Seq<char>) -> bool {
    match k {
        CameraKind::DoubleSphere => lower == "ds"@ || lower == "double_sphere"@,
        CameraKind::KannalaBrandt => lower == "kb"@ || lower == "kannala_brandt"@,
        CameraKind::RadTan => lower == "radtan"@ || lower == "rad_tan"@,
        CameraKind::Ucm => lower == "ucm"@ || lower == "unified"@,
        CameraKind::Eucm => lower == "eucm"@ || lower == "extended_unified"@,
        CameraKind::Fov => lower == "fov"@ || lower == "field_of_view"@,
        CameraKind::Pinhole => false,
    }
}

/// The targets of a conversion from the model type `lower` (lower case):
/// every target model, in order, except the input model itself.
pub open spec fn targets_for(lower: Seq<char>) -> Seq<CameraKind> {
    target_order().filter(|k: CameraKind| !is_input_alias(k, lower))
}

fn is_input_alias_exec(k: CameraKind, lower: &str) -> (r: bool)
    ensures
        r == is_input_alias(k, lower@),
{
    match k {
        CameraKind::DoubleSphere => str_eq(lower, "ds") || str_eq(lower, "double_sphere"),
        CameraKind::KannalaBrandt => str_eq(lower, "kb") || str_eq(lower, "kannala_brandt"),
        CameraKind::RadTan => str_eq(lower, "radtan") || str_eq(lower, "rad_tan"),
        CameraKind::Ucm => str_eq(lower, "ucm") || str_eq(lower, "unified"),
        CameraKind::Eucm => str_eq(lower, "eucm") || str_eq(lower, "extended_unified"),
        CameraKind::Fov => str_eq(lower, "fov") || str_eq(lower, "field_of_view"),
        CameraKind::Pinhole => false,
    }
}

/// The models that an input model of type `lower` (already in lower case)
/// is converted to, in the order the conversions are made.
pub fn targets_for_type(lower: &str) -> (r: Vec<CameraKind>)
    ensures
        r@ == targets_for(lower@),
{
    let mut r: Vec<CameraKind> = Vec::new();
    let order = [
        CameraKind::DoubleSphere,
        CameraKind::KannalaBrandt,
        CameraKind::RadTan,
        CameraKind::Ucm,
        CameraKind::Eucm,
        CameraKind::Fov,
    ];
    assert(order@ =~= target_order());
    let ghost keep = |k: CameraKind| !is_input_alias(k, lower@);
    let mut i: usize = 0;
    while i < 6
        invariant
            order@ == target_order(),
            i <= 6,
            keep == (|k: CameraKind| !is_input_alias(k, lower@)),
            r@ == target_order().take(i as int).filter(keep),
        decreases 6 - i,
    {
        let k = order[i];
        proof {
            reveal_with_fuel(Seq::<_>::filter, 1);
            assert(target_order().take(i + 1).drop_last() =~= target_order().take(i as int));
        }
        if !is_input_alias_exec(k, lower) {
            r.push(k);
        }
        i = i + 1;
    }
    assert(target_order().take(6) =~= target_order());
    r
}

/// The models that an input model of type `input_model` (any case) is
/// converted to, in the order the conversions are made: the type is
/// lower-cased and then read as `targets_for_type` reads it.
pub fn conversion_targets(input_model: &str) -> (r: Vec<CameraKind>)
    ensures
        r@ == targets_for(lowercase(input_model@)),
{
    let lower = to_lowercase(input_model);
    targets_for_type(lower.as_str())
}

/// The name a conversion's results are reported under.
pub open spec fn display_label(k: CameraKind) -> Seq<char> {
    match k {
        CameraKind::DoubleSphere => "Double Sphere"@,
        CameraKind::KannalaBrandt => "Kannala-Brandt"@,
        CameraKind::RadTan => "Radial-Tangential"@,
        CameraKind::Ucm => "Unified Camera Model"@,
        CameraKind::Eucm => "Extended Unified Camera Model"@,
        CameraKind::Fov => "Field-of-View"@,
        CameraKind::Pinhole => "Pinhole"@,
    }
}

/// The name a conversion's results are reported under.
pub fn display_name(k: CameraKind) -> (r: &'static str)
    ensures
        r@ == display_label(k),
{
    match k {
        CameraKind::DoubleSphere => "Double Sphere",
        CameraKind::KannalaBrandt => "Kannala-Brandt",
        CameraKind::RadTan => "Radial-Tangential",
        CameraKind::Ucm => "Unified Camera Model",
        CameraKind::Eucm => "Extended Unified Camera Model",
        CameraKind::Fov => "Field-of-View",
        CameraKind::Pinhole => "Pinhole",
    }
}

/// The name of the target model in the announcement of a conversion.
pub open spec fn heading_label(k: CameraKind) -> Seq<char> {
    match k {
        CameraKind::DoubleSphere => "Double Sphere"@,
        CameraKind::KannalaBrandt => "Kannala-Brandt"@,
        CameraKind::RadTan => "Radial-Tangential"@,
        CameraKind::Ucm => "Unified Camera Model (UCM)"@,
        CameraKind::Eucm => "Extended Unified Camera Model (EUCM)"@,
        CameraKind::Fov => "Field-of-View (FOV)"@,
        CameraKind::Pinhole => "Pinhole"@,
    }
}

/// The name of the target model in the announcement of a conversion.
pub fn heading_name(k: CameraKind) -> (r: &'static str)
    ensures
        r@ == heading_label(k),
{
    match k {
        CameraKind::DoubleSphere => "Double Sphere",
        CameraKind::KannalaBrandt => "Kannala-Brandt",
        CameraKind::RadTan => "Radial-Tangential",
        CameraKind::Ucm => "Unified Camera Model (UCM)",
        CameraKind::Eucm => "Extended Unified Camera Model (EUCM)",
        CameraKind::Fov => "Field-of-View (FOV)",
        CameraKind::Pinhole => "Pinhole",
    }
}

/// The stem of the file names of a conversion's images.
pub open spec fn image_label(k: CameraKind) -> Seq<char> {
    match k {
        CameraKind::DoubleSphere => "double_sphere_apex"@,
        CameraKind::KannalaBrandt => "kannala_brandt_apex"@,
        CameraKind::RadTan => "radial_tangential_apex"@,
        CameraKind::Ucm => "unified_camera_model_apex"@,
        CameraKind::Eucm => "extended_unified_camera_model_apex"@,
        CameraKind::Fov => "fov_apex"@,
        CameraKind::Pinhole => "pinhole_apex"@,
    }
}

/// The stem of the file names of a conversion's images.
pub fn image_stem(k: CameraKind) -> (r: &'static str)
    ensures
        r@ == image_label(k),
{
    match k {
        CameraKind::DoubleSphere => "double_sphere_apex",
        CameraKind::KannalaBrandt => "kannala_brandt_apex",
        CameraKind::RadTan => "radial_tangential_apex",
        CameraKind::Ucm => "unified_camera_model_apex",
        CameraKind::Eucm => "extended_unified_camera_model_apex",
        CameraKind::Fov => "fov_apex",
        CameraKind::Pinhole => "pinhole_apex",
    }
}

/// The distortion parameters a conversion to model `k` starts from.
pub open spec fn initial_distortion(k: CameraKind) -> Seq<u64> {
    match k {
        CameraKind::DoubleSphere => seq![HALF_BITS, TENTH_BITS],
        CameraKind::KannalaBrandt => seq![ZERO_BITS, ZERO_BITS, ZERO_BITS, ZERO_BITS],
        CameraKind::RadTan => seq![ZERO_BITS, ZERO_BITS, ZERO_BITS, ZERO_BITS, ZERO_BITS],
        CameraKind::Ucm => seq![HALF_BITS],
        CameraKind::Eucm => seq![HALF_BITS, ONE_BITS],
        CameraKind::Fov => seq![ONE_BITS],
        CameraKind::Pinhole => Seq::empty(),
    }
}

/// The model a conversion of `input` to model `k` starts from: the input's
/// intrinsics and resolution, the target's name and its initial distortion
/// parameters.
pub fn initial_target_model(input: &CameraWithResolution, k: CameraKind) -> (r: CameraWithResolution)
    ensures
        r@ == (CameraSpec {
            intrinsics: input.intrinsics,
            resolution: input.resolution,
            model_name: k.canonical_name(),
            distortion: initial_distortion(k),
        }),
{
    let mut d: Vec<u64> = Vec::new();
    match k {
        CameraKind::DoubleSphere => {
            d.push(HALF_BITS);
            d.push(TENTH_BITS);
        },
        CameraKind::KannalaBrandt => {
            d.push(ZERO_BITS);
            d.push(ZERO_BITS);
            d.push(ZERO_BITS);
            d.push(ZERO_BITS);
        },
        CameraKind::RadTan => {
            d.push(ZERO_BITS);
            d.push(ZERO_BITS);
            d.push(ZERO_BITS);
            d.push(ZERO_BITS);
            d.push(ZERO_BITS);
        },
        CameraKind::Ucm => {
            d.push(HALF_BITS);
        },
        CameraKind::Eucm => {
            d.push(HALF_BITS);
            d.push(ONE_BITS);
        },
        CameraKind::Fov => {
            d.push(ONE_BITS);
        },
        CameraKind::Pinhole => {},
    }
    assert(d@ =~= initial_distortion(k));
    CameraWithResolution {
        intrinsics: input.get_intrinsics(),
        resolution: input.get_resolution(),
        model_name: String::from_str(k.name()),
        distortion_params: d,
    }
}

/// The input model types that exclude a target are the names under which a
/// calibration file names that model.
proof fn lemma_input_alias_is_model_alias(k: CameraKind, lower: Seq<char>)
    requires
        k != CameraKind::Pinhole,
    ensures
        is_input_alias(k, lower) <==> alias_kind(lower) == Some(k),
{
    reveal_strlit("pinhole");
    reveal_strlit("double_sphere");
    reveal_strlit("ds");
    reveal_strlit("eucm");
    reveal_strlit("extended_unified");
    reveal_strlit("fov");
    reveal_strlit("field_of_view");
    reveal_strlit("kannala_brandt");
    reveal_strlit("kb");
    reveal_strlit("rad_tan");
    reveal_strlit("radtan");
    reveal_strlit("ucm");
    reveal_strlit("unified");
    assert("pinhole"@[0] == 'p');
    assert("double_sphere"@[0] == 'd');
    assert("ds"@[0] == 'd');
    assert("eucm"@[0] == 'e');
    assert("extended_unified"@[0] == 'e');
    assert("fov"@[0] == 'f');
    assert("field_of_view"@[0] == 'f');
    assert("kannala_brandt"@[0] == 'k');
    assert("kb"@[0] == 'k');
    assert("rad_tan"@[0] == 'r');
    assert("radtan"@[0] == 'r');
    assert("ucm"@[0] == 'u');
    assert("unified"@[0] == 'u');
}

/// A model is a conversion target exactly when it is not the pinhole model
/// and the input model type does not name it: no model is converted to
/// itself, and every other model is converted to.
pub proof fn lemma_targets_exclude_input(lower: Seq<char>, k: CameraKind)
    ensures
        targets_for(lower).contains(k) <==> (k != CameraKind::Pinhole && alias_kind(lower) != Some(k)),
{
    let pred = |m: CameraKind| !is_input_alias(m, lower);
    let order = target_order();
    if targets_for(lower).contains(k) {
        order.lemma_filter_contains_rev(pred, k);
        let j = choose|j: int| 0 <= j < order.filter(pred).len() && order.filter(pred)[j] == k;
        order.lemma_filter_pred(pred, j);
        assert(k != CameraKind::Pinhole);
        lemma_input_alias_is_model_alias(k, lower);
    }
    if k != CameraKind::Pinhole && alias_kind(lower) != Some(k) {
        lemma_input_alias_is_model_alias(k, lower);
        let i: int = match k {
            CameraKind::DoubleSphere => 0,
            CameraKind::KannalaBrandt => 1,
            CameraKind::RadTan => 2,
            CameraKind::Ucm => 3,
            CameraKind::Eucm => 4,
            _ => 5,
        };
        assert(order[i] == k);
        order.lemma_filter_contains(pred, i);
    }
}

/// The conversions are made in the order double sphere, Kannala-Brandt,
/// radial-tangential, unified, extended unified, field of view, leaving out
/// exactly the model that the input model type names (as a calibration file
/// would name it).
pub proof fn lemma_targets_in_order(lower: Seq<char>)
    ensures
        targets_for(lower) == seq![
            CameraKind::DoubleSphere,
            CameraKind::KannalaBrandt,
            CameraKind::RadTan,
            CameraKind::Ucm,
            CameraKind::Eucm,
            CameraKind::Fov,
        ].filter(|k: CameraKind| alias_kind(lower) != Some(k)),
{
    let order = seq![
        CameraKind::DoubleSphere,
        CameraKind::KannalaBrandt,
        CameraKind::RadTan,
        CameraKind::Ucm,
        CameraKind::Eucm,
        CameraKind::Fov,
    ];
    assert(target_order() == order);
    let p1 = |k: CameraKind| !is_input_alias(k, lower);
    let p2 = |k: CameraKind| alias_kind(lower) != Some(k);
    assert forall|i: int| 0 <= i < order.len() implies p1(#[trigger] order[i]) == p2(order[i]) by {
        lemma_input_alias_is_model_alias(order[i], lower);
    }
    lemma_filter_same_on_seq(order, p1, p2);
}

proof fn lemma_filter_same_on_seq(s: Seq<CameraKind>, p1: spec_fn(CameraKind) -> bool, p2: spec_fn(CameraKind) -> bool)
    requires
        forall|i: int| 0 <= i < s.len() ==> p1(#[trigger] s[i]) == p2(s[i]),
    ensures
        s.filter(p1) == s.filter(p2),
    decreases s.len(),
{
    reveal_with_fuel(Seq::<_>::filter, 1);
    if s.len() > 0 {
        let t = s.drop_last();
        assert forall|i: int| 0 <= i < t.len() implies p1(#[trigger] t[i]) == p2(t[i]) by {
            assert(t[i] == s[i]);
        }
        lemma_filter_same_on_seq(t, p1, p2);
        assert(p1(s[s.len() - 1]) == p2(s[s.len() - 1]));
    }
}

/// The distortion part of the optimizer's parameter vector: the double
/// sphere optimizer orders its parameters `[xi, alpha]` while the model stores
/// `[alpha, xi]`; every other model keeps the stored order.
pub open spec fn optimizer_distortion(k: CameraKind, d: Seq<u64>) -> Seq<u64> {
    match k {
        CameraKind::DoubleSphere => seq![d[1], d[0]],
        _ => d.take(k.distortion_len() as int),
    }
}

/// The parameter vector the optimizer starts from for a model of kind `k`:
/// `[fx, fy, cx, cy]` followed by the distortion parameters in the
/// optimizer's order.
pub open spec fn optimizer_layout(c: CameraSpec, k: CameraKind) -> Seq<u64> {
    seq![c.intrinsics.fx, c.intrinsics.fy, c.intrinsics.cx, c.intrinsics.cy] + optimizer_distortion(
        k,
        c.distortion,
    )
}

/// The model after the optimizer's result `p` is written back into `c`: the
/// intrinsics are `p[0..4]`; the double sphere model takes `alpha` from
/// `p[5]` and `xi` from `p[4]` in place, every other model takes its
/// distortion parameters from `p[4..]` in order.
pub open spec fn written_back(c: CameraSpec, k: CameraKind, p: Seq<u64>) -> CameraSpec {
    CameraSpec {
        intrinsics: Intrinsics { fx: p[0], fy: p[1], cx: p[2], cy: p[3] },
        resolution: c.resolution,
        model_name: c.model_name,
        distortion: match k {
            CameraKind::DoubleSphere => c.distortion.update(0, p[5]).update(1, p[4]),
            _ => p.subrange(4, 4 + k.distortion_len() as int),
        },
    }
}

/// The parameter vector the optimizer starts from (see `optimizer_layout`).
pub fn optimizer_parameters(model: &CameraWithResolution, k: CameraKind) -> (r: Vec<u64>)
    requires
        model.distortion_params@.len() >= k.distortion_len(),
    ensures
        r@ == optimizer_layout(model@, k),
{
    let d = &model.distortion_params;
    let mut r: Vec<u64> = Vec::new();
    r.push(model.intrinsics.fx);
    r.push(model.intrinsics.fy);
    r.push(model.intrinsics.cx);
    r.push(model.intrinsics.cy);
    match k {
        CameraKind::DoubleSphere => {
            r.push(d[1]);
            r.push(d[0]);
        },
        CameraKind::KannalaBrandt => {
            r.push(d[0]);
            r.push(d[1]);
            r.push(d[2]);
            r.push(d[3]);
        },
        CameraKind::RadTan => {
            r.push(d[0]);
            r.push(d[1]);
            r.push(d[2]);
            r.push(d[3]);
            r.push(d[4]);
        },
        CameraKind::Eucm => {
            r.push(d[0]);
            r.push(d[1]);
        },
        CameraKind::Ucm | CameraKind::Fov => {
            r.push(d[0]);
        },
        CameraKind::Pinhole => {},
    }
    assert(r@ =~= optimizer_layout(model@, k));
    r
}

/// Records the outcome of the optimization of a model of kind `k`: with the
/// optimizer's result `Some(p)` the result is written back (see
/// `written_back`) and the status is "Converged"; without one the model
/// keeps its linear estimate and the status is "Linear Only".
pub fn finish_optimization(
    model: &mut CameraWithResolution,
    k: CameraKind,
    optimized: Option<&Vec<u64>>,
) -> (status: String)
    requires
        optimized matches Some(p) ==> p@.len() >= 4 + k.distortion_len(),
        k == CameraKind::DoubleSphere ==> old(model).distortion_params@.len() >= 2,
    ensures
        match optimized {
            Some(p) => final(model)@ == written_back(old(model)@, k, p@) && status@ == "Converged"@,
            None => final(model)@ == old(model)@ && status@ == "Linear Only"@,
        },
{
    match optimized {
        Some(p) => {
            model.intrinsics.fx = p[0];
            model.intrinsics.fy = p[1];
            model.intrinsics.cx = p[2];
            model.intrinsics.cy = p[3];
            match k {
                CameraKind::DoubleSphere => {
                    model.distortion_params.set(0, p[5]);
                    model.distortion_params.set(1, p[4]);
                },
                _ => {
                    let n = k.distortion_count();
                    let mut d: Vec<u64> = Vec::new();
                    let mut i: usize = 0;
                    while i < n
                        invariant
                            n == k.distortion_len(),
                            p@.len() >= 4 + n,
                            i <= n,
                            d@ == p@.subrange(4, 4 + i),
                        decreases n - i,
                    {
                        d.push(p[4 + i]);
                        i = i + 1;
                        assert(d@ =~= p@.subrange(4, 4 + i));
                    }
                    model.distortion_params = d;
                },
            }
            let status = String::from_str("Converged");
            assert(model@ =~= written_back(old(model)@, k, p@));
            status
        },
        None => String::from_str("Linear Only"),
    }
}

/// Writing back the parameter vector the optimizer starts from leaves the
/// model unchanged, for a model holding exactly as many distortion
/// parameters as its kind reads.
pub proof fn lemma_optimizer_roundtrip(c: CameraSpec, k: CameraKind)
    requires
        c.distortion.len() == k.distortion_len(),
    ensures
        written_back(c, k, optimizer_layout(c, k)) == c,
{
    let p = optimizer_layout(c, k);
    let w = written_back(c, k, p);
    assert(w.distortion =~= c.distortion);
}

/// Where each parameter of a model sits in the optimizer's vector, and
/// where each entry of the optimizer's result goes back to: slots 0 to 3
/// hold `fx`, `fy`, `cx`, `cy`; for every model but double sphere, slot
/// `4 + i` holds stored distortion parameter `i` and gives it back (for the
/// extended unified model `alpha` is slot 4 and `beta` slot 5); for double
/// sphere, whose parameters are stored as `[alpha, xi]`, slot 4 is `xi` and
/// slot 5 is `alpha`.  The write-back keeps the resolution and the name.
pub proof fn lemma_optimizer_slots(c: CameraSpec, k: CameraKind, p: Seq<u64>)
    requires
        c.distortion.len() >= k.distortion_len(),
        p.len() >= 4 + k.distortion_len(),
    ensures
        optimizer_layout(c, k).len() == 4 + k.distortion_len(),
        optimizer_layout(c, k)[0] == c.intrinsics.fx,
        optimizer_layout(c, k)[1] == c.intrinsics.fy,
        optimizer_layout(c, k)[2] == c.intrinsics.cx,
        optimizer_layout(c, k)[3] == c.intrinsics.cy,
        k != CameraKind::DoubleSphere ==> forall|i: int|
            0 <= i < k.distortion_len() ==> #[trigger] optimizer_layout(c, k)[4 + i] == c.distortion[i],
        k == CameraKind::DoubleSphere ==> optimizer_layout(c, k)[4] == c.distortion[1]
            && optimizer_layout(c, k)[5] == c.distortion[0],
        written_back(c, k, p).intrinsics == (Intrinsics { fx: p[0], fy: p[1], cx: p[2], cy: p[3] }),
        written_back(c, k, p).resolution == c.resolution,
        written_back(c, k, p).model_name == c.model_name,
        k != CameraKind::DoubleSphere ==> written_back(c, k, p).distortion.len() == k.distortion_len(),
        k != CameraKind::DoubleSphere ==> forall|i: int|
            0 <= i < k.distortion_len() ==> #[trigger] written_back(c, k, p).distortion[i] == p[4 + i],
        k == CameraKind::DoubleSphere ==> written_back(c, k, p).distortion.len() == c.distortion.len()
            && written_back(c, k, p).distortion[0] == p[5]
            && written_back(c, k, p).distortion[1] == p[4]
            && forall|i: int| 2 <= i < c.distortion.len() ==> #[trigger] written_back(c, k, p).distortion[i] == c.distortion[i],
{
}

/// The `intrinsics` array a camera is written with holds the values of the
/// optimizer's start vector in the same order (`fx`, `fy`, `cx`, `cy`, then
/// the distortion parameters), for every model whose optimizer keeps the
/// stored order (all but double sphere) and a camera holding exactly its
/// model's number of distortion parameters.
pub proof fn lemma_written_array_is_optimizer_vector(c: CameraSpec, k: CameraKind)
    requires
        k != CameraKind::DoubleSphere,
        c.distortion.len() == k.distortion_len(),
    ensures
        intrinsics_nodes(c).map_values(|n: YamlNode| real_bits(n)) == optimizer_layout(c, k),
{
    assert(intrinsics_nodes(c).map_values(|n: YamlNode| real_bits(n)) =~= optimizer_layout(c, k));
}

/// The validation outcome of one image region: where the input and the
/// converted model project the region's point, when they can.
#[derive(Debug, Clone)]
pub struct RegionValidation {
    pub input_projection: Option<Point2>,
    pub output_projection: Option<Point2>,
}

/// Conversion accuracy measured across image regions (errors in pixels, as
/// `f64` bit patterns).
#[derive(Debug, Clone)]
pub struct ValidationResults {
    pub center_error: u64,
    pub near_center_error: u64,
    pub mid_region_error: u64,
    pub edge_region_error: u64,
    pub far_edge_error: u64,
    pub average_error: u64,
    pub max_error: u64,
    pub status: String,
    pub region_data: Vec<RegionValidation>,
}

/// The validation outcome recorded when the accuracy could not be measured:
/// every error is NaN, the status says the conversion needs improvement and
/// there is no region data.
pub fn default_validation() -> (r: ValidationResults)
    ensures
        r.center_error == NAN_BITS,
        r.near_center_error == NAN_BITS,
        r.mid_region_error == NAN_BITS,
        r.edge_region_error == NAN_BITS,
        r.far_edge_error == NAN_BITS,
        r.average_error == NAN_BITS,
        r.max_error == NAN_BITS,
        r.status@ == "NEEDS IMPROVEMENT"@,
        r.region_data@.len() == 0,
{
    ValidationResults {
        center_error: NAN_BITS,
        near_center_error: NAN_BITS,
        mid_region_error: NAN_BITS,
        edge_region_error: NAN_BITS,
        far_edge_error: NAN_BITS,
        average_error: NAN_BITS,
        max_error: NAN_BITS,
        status: String::from_str("NEEDS IMPROVEMENT"),
        region_data: Vec::new(),
    }
}

} // verus!

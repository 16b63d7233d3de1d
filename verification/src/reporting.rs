//! The decisions behind the conversion reports: how the input model's
//! parameters are labelled, which conversion was the most accurate or the
//! fastest, and how each validation region is reported.

use vstd::prelude::*;

use crate::camera::CameraKind;
use crate::convert::{lowercase, to_lowercase, RegionValidation, ValidationResults};
use crate::yaml_io::{alias_kind, alias_kind_of};
use crate::float_bits::{
    is_finite_bits, is_nan, is_nan_bits, lemma_scaled_magnitude_strictly_increases, lemma_scaled_magnitude_zero,
    magnitude, scaled_value, INFINITY_BITS, SIGN_BIT,
};
use crate::sampling::Point2;

verus! {

/// The label under which the parameters of an input model of type `lower`
/// (lower case) are shown; model types the report does not know, the field
/// of view model among them, are shown as "Model".
pub open spec fn parameter_label(lower: Seq<char>) -> Seq<char> {
    match alias_kind(lower) {
        Some(CameraKind::DoubleSphere) => "DS"@,
        Some(CameraKind::KannalaBrandt) => "KB"@,
        Some(CameraKind::RadTan) => "RadTan"@,
        Some(CameraKind::Ucm) => "UCM"@,
        Some(CameraKind::Eucm) => "EUCM"@,
        Some(CameraKind::Pinhole) => "Pinhole"@,
        _ => "Model"@,
    }
}

/// The names under which the distortion parameters of an input model of
/// type `lower` (lower case) are shown, in the order they are stored; none
/// for the model types shown as "Model" or "Pinhole".
pub open spec fn distortion_names(lower: Seq<char>) -> Seq<Seq<char>> {
    match alias_kind(lower) {
        Some(CameraKind::DoubleSphere) => seq!["alpha"@, "xi"@],
        Some(CameraKind::KannalaBrandt) => seq!["k1"@, "k2"@, "k3"@, "k4"@],
        Some(CameraKind::RadTan) => seq!["k1"@, "k2"@, "p1"@, "p2"@, "k3"@],
        Some(CameraKind::Ucm) => seq!["alpha"@],
        Some(CameraKind::Eucm) => seq!["alpha"@, "beta"@],
        _ => Seq::empty(),
    }
}

/// The texts of a list of string slices.
pub open spec fn texts(v: Seq<&str>) -> Seq<Seq<char>> {
    v.map_values(|s: &str| s@)
}

/// The label and the distortion parameter names under which the parameters
/// of an input model of type `lower` (lower case) are shown.
pub fn parameter_labels_for_type(lower: &str) -> (r: (&'static str, Vec<&'static str>))
    ensures
        r.0@ == parameter_label(lower@),
        texts(r.1@) == distortion_names(lower@),
{
    let r: (&'static str, Vec<&'static str>) = match alias_kind_of(lower) {
        Some(CameraKind::DoubleSphere) => ("DS", vec!["alpha", "xi"]),
        Some(CameraKind::KannalaBrandt) => ("KB", vec!["k1", "k2", "k3", "k4"]),
        Some(CameraKind::RadTan) => ("RadTan", vec!["k1", "k2", "p1", "p2", "k3"]),
        Some(CameraKind::Ucm) => ("UCM", vec!["alpha"]),
        Some(CameraKind::Eucm) => ("EUCM", vec!["alpha", "beta"]),
        Some(CameraKind::Pinhole) => ("Pinhole", Vec::new()),
        _ => ("Model", Vec::new()),
    };
    assert(texts(r.1@) =~= distortion_names(lower@));
    r
}

/// The label and the distortion parameter names under which the parameters
/// of an input model of type `model_type` (any case) are shown: the type is
/// lower-cased and then read as `parameter_labels_for_type` reads it.
pub fn input_parameter_labels(model_type: &str) -> (r: (&'static str, Vec<&'static str>))
    ensures
        r.0@ == parameter_label(lowercase(model_type@)),
        texts(r.1@) == distortion_names(lowercase(model_type@)),
{
    let lower = to_lowercase(model_type);
    parameter_labels_for_type(lower.as_str())
}

/// The position of an `f64` (given by its bits, not a NaN) on the real
/// line, up to scale: non-negative values keep their bits, negative values
/// the negated bits of their magnitude.  Two non-NaN values compare as
/// their positions do; `0.0` and `-0.0` share position 0.
pub open spec fn ordering_key(bits: u64) -> int {
    if bits >= SIGN_BIT {
        -(magnitude(bits) as int)
    } else {
        bits as int
    }
}

fn key_of(bits: u64) -> (k: i128)
    ensures
        k == ordering_key(bits),
{
    if bits >= SIGN_BIT {
        -((bits - SIGN_BIT) as i128)
    } else {
        bits as i128
    }
}

/// The index of the first smallest of `values`, comparing them as `f64`
/// values; `None` for an empty list.  Comparing a NaN fails, so the list
/// holds no NaN unless it has a single entry (which is never compared).
pub fn first_minimum(values: &Vec<u64>) -> (r: Option<usize>)
    requires
        values@.len() <= 1 || forall|i: int| 0 <= i < values@.len() ==> !is_nan_bits(#[trigger] values@[i]),
    ensures
        r is None <==> values@.len() == 0,
        r matches Some(m) ==> {
            &&& m < values@.len()
            &&& forall|j: int| 0 <= j < values@.len() ==> ordering_key(values@[m as int]) <= ordering_key(#[trigger] values@[j])
            &&& forall|j: int| 0 <= j < m ==> ordering_key(values@[m as int]) < ordering_key(#[trigger] values@[j])
        },
{
    let n = values.len();
    if n == 0 {
        return None;
    }
    let mut best: usize = 0;
    let mut best_key = key_of(values[0]);
    let mut i: usize = 1;
    while i < n
        invariant
            n == values@.len(),
            1 <= i <= n,
            best < i,
            best_key == ordering_key(values@[best as int]),
            forall|j: int| 0 <= j < i ==> best_key <= ordering_key(#[trigger] values@[j]),
            forall|j: int| 0 <= j < best ==> best_key < ordering_key(#[trigger] values@[j]),
        decreases n - i,
    {
        let k = key_of(values[i]);
        if k < best_key {
            best = i;
            best_key = k;
        }
        i = i + 1;
    }
    Some(best)
}

/// How the report shows one validation region.
#[derive(Debug, Clone, Copy, PartialEq, Eq, Structural)]
pub enum RegionReport {
    /// The region's error is NaN, or its projections are missing.
    Failed,
    /// Both models projected the region's point.
    Projected { input: Point2, output: Point2, error: u64 },
    /// Only the error is known (no projection data for the region).
    ErrorOnly { error: u64 },
}

/// The error of region `i` (centre, near centre, mid region, edge region,
/// far edge).
pub open spec fn region_error(v: ValidationResults, i: int) -> u64 {
    if i == 0 {
        v.center_error
    } else if i == 1 {
        v.near_center_error
    } else if i == 2 {
        v.mid_region_error
    } else if i == 3 {
        v.edge_region_error
    } else {
        v.far_edge_error
    }
}

/// How region `i` is reported.
pub open spec fn region_report(v: ValidationResults, i: int) -> RegionReport {
    let error = region_error(v, i);
    if is_nan_bits(error) {
        RegionReport::Failed
    } else if i < v.region_data@.len() {
        let r = v.region_data@[i];
        if r.input_projection is Some && r.output_projection is Some {
            RegionReport::Projected {
                input: r.input_projection->Some_0,
                output: r.output_projection->Some_0,
                error,
            }
        } else {
            RegionReport::Failed
        }
    } else {
        RegionReport::ErrorOnly { error }
    }
}

/// How each of the five validation regions is reported, in order.
pub fn region_reports(v: &ValidationResults) -> (r: Vec<RegionReport>)
    ensures
        r@.len() == 5,
        forall|i: int| 0 <= i < 5 ==> #[trigger] r@[i] == region_report(*v, i),
{
    let errors = [
        v.center_error,
        v.near_center_error,
        v.mid_region_error,
        v.edge_region_error,
        v.far_edge_error,
    ];
    let mut r: Vec<RegionReport> = Vec::new();
    let mut i: usize = 0;
    while i < 5
        invariant
            i <= 5,
            forall|j: int| 0 <= j < 5 ==> #[trigger] errors@[j] == region_error(*v, j),
            r@.len() == i,
            forall|j: int| 0 <= j < i ==> #[trigger] r@[j] == region_report(*v, j),
        decreases 5 - i,
    {
        let error = errors[i];
        let report = if is_nan(error) {
            RegionReport::Failed
        } else if i < v.region_data.len() {
            let region: &RegionValidation = &v.region_data[i];
            match (region.input_projection, region.output_projection) {
                (Some(input), Some(output)) => RegionReport::Projected { input, output, error },
                _ => RegionReport::Failed,
            }
        } else {
            RegionReport::ErrorOnly { error }
        };
        r.push(report);
        i = i + 1;
    }
    r
}

/// The five regions are reported in the order centre, near centre, mid
/// region, edge region, far edge, each with its own error field: region
/// `i` is reported failed when its error is NaN; otherwise, without
/// projection data for it, by its error alone; with projection data, by
/// both projections and its error when both are there, and as failed when
/// one is missing.
pub proof fn lemma_region_order(v: ValidationResults, i: int)
    requires
        0 <= i < 5,
    ensures
        ({
            let errors = seq![
                v.center_error,
                v.near_center_error,
                v.mid_region_error,
                v.edge_region_error,
                v.far_edge_error,
            ];
            let e = errors[i];
            &&& is_nan_bits(e) ==> region_report(v, i) == RegionReport::Failed
            &&& !is_nan_bits(e) && i >= v.region_data@.len() ==> region_report(v, i)
                == RegionReport::ErrorOnly { error: e }
            &&& !is_nan_bits(e) && i < v.region_data@.len() ==> region_report(v, i) == match (
                v.region_data@[i].input_projection,
                v.region_data@[i].output_projection,
            ) {
                (Some(input), Some(output)) => RegionReport::Projected { input, output, error: e },
                _ => RegionReport::Failed,
            }
        }),
{
}

/// Comparing by `ordering_key` is comparing the values the bits denote:
/// for finite `a` and `b`, `a` orders before `b` exactly when its value
/// (`scaled_value`, the value in units of `2^-1074`) is smaller, and they
/// tie exactly when the values are equal (`0.0` and `-0.0` tie).  Negative
/// infinity orders before and positive infinity after every finite value.
pub proof fn lemma_ordering_key_follows_value(a: u64, b: u64)
    requires
        is_finite_bits(a),
        is_finite_bits(b),
    ensures
        ordering_key(a) < ordering_key(b) <==> scaled_value(a) < scaled_value(b),
        ordering_key(a) == ordering_key(b) <==> scaled_value(a) == scaled_value(b),
        ordering_key((SIGN_BIT + INFINITY_BITS) as u64) < ordering_key(a) < ordering_key(INFINITY_BITS),
{
    lemma_scaled_magnitude_zero(a);
    lemma_scaled_magnitude_zero(b);
    if magnitude(a) < magnitude(b) {
        lemma_scaled_magnitude_strictly_increases(a, b);
    } else if magnitude(b) < magnitude(a) {
        lemma_scaled_magnitude_strictly_increases(b, a);
    }
    assert(magnitude((SIGN_BIT + INFINITY_BITS) as u64) == INFINITY_BITS);
}

} // verus!

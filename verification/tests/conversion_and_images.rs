use camera_tools::camera::{CameraKind, CameraModelError, CameraWithResolution, Intrinsics, Resolution};
use camera_tools::convert::{
    conversion_targets, default_validation, display_name, finish_optimization, heading_name,
    image_stem, initial_target_model, optimizer_parameters, targets_for_type,
};
use camera_tools::convert::RegionValidation;
use camera_tools::estimation::check_estimation_input;
use camera_tools::reporting::{
    first_minimum, input_parameter_labels, parameter_labels_for_type, region_reports, RegionReport,
};
use camera_tools::float_bits::{is_nan, is_positive, NAN_BITS};
use camera_tools::image_ops::{
    check_image_resolution, create_combined_projection_image,
    create_combined_projection_image_on_reference, create_projection_image, draw_disc,
    nearest_pixel, projection_visualization_image, psnr_error_totals, RgbImage,
};
use camera_tools::sampling::{select_points_in_front, Point2, Point3};
use camera_tools::text::{push_decimal, str_eq};
use camera_tools::util::UtilError;

fn bits(v: f64) -> u64 {
    v.to_bits()
}

fn camera(model: &str, d: Vec<f64>) -> CameraWithResolution {
    CameraWithResolution {
        intrinsics: Intrinsics { fx: bits(461.0), fy: bits(460.0), cx: bits(366.0), cy: bits(249.0) },
        resolution: Resolution { width: 752, height: 480 },
        model_name: model.to_string(),
        distortion_params: d.into_iter().map(bits).collect(),
    }
}

#[test]
fn targets_skip_the_input_model() {
    assert_eq!(conversion_targets("DS"), vec![CameraKind::KannalaBrandt, CameraKind::RadTan, CameraKind::Ucm, CameraKind::Eucm, CameraKind::Fov]);
    assert_eq!(conversion_targets("Kannala_Brandt"), vec![CameraKind::DoubleSphere, CameraKind::RadTan, CameraKind::Ucm, CameraKind::Eucm, CameraKind::Fov]);
    assert_eq!(conversion_targets("radtan"), vec![CameraKind::DoubleSphere, CameraKind::KannalaBrandt, CameraKind::Ucm, CameraKind::Eucm, CameraKind::Fov]);
    assert_eq!(conversion_targets("UNIFIED"), vec![CameraKind::DoubleSphere, CameraKind::KannalaBrandt, CameraKind::RadTan, CameraKind::Eucm, CameraKind::Fov]);
    assert_eq!(conversion_targets("extended_unified"), vec![CameraKind::DoubleSphere, CameraKind::KannalaBrandt, CameraKind::RadTan, CameraKind::Ucm, CameraKind::Fov]);
    assert_eq!(conversion_targets("Field_Of_View"), vec![CameraKind::DoubleSphere, CameraKind::KannalaBrandt, CameraKind::RadTan, CameraKind::Ucm, CameraKind::Eucm]);
    assert_eq!(conversion_targets("pinhole"), vec![CameraKind::DoubleSphere, CameraKind::KannalaBrandt, CameraKind::RadTan, CameraKind::Ucm, CameraKind::Eucm, CameraKind::Fov]);
}

#[test]
fn initial_models() {
    let input = camera("double_sphere", vec![0.58, -0.18]);
    let ds = initial_target_model(&input, CameraKind::DoubleSphere);
    assert_eq!(ds.model_name, "double_sphere");
    assert_eq!(ds.intrinsics, input.intrinsics);
    assert_eq!(ds.resolution, input.resolution);
    assert_eq!(ds.distortion_params, vec![bits(0.5), bits(0.1)]);
    assert_eq!(initial_target_model(&input, CameraKind::KannalaBrandt).distortion_params, vec![bits(0.0); 4]);
    assert_eq!(initial_target_model(&input, CameraKind::RadTan).distortion_params, vec![bits(0.0); 5]);
    assert_eq!(initial_target_model(&input, CameraKind::Ucm).distortion_params, vec![bits(0.5)]);
    assert_eq!(initial_target_model(&input, CameraKind::Eucm).distortion_params, vec![bits(0.5), bits(1.0)]);
    assert_eq!(initial_target_model(&input, CameraKind::Fov).distortion_params, vec![bits(1.0)]);
}

#[test]
fn double_sphere_optimizer_order() {
    let mut model = camera("double_sphere", vec![0.58, -0.18]);
    let p = optimizer_parameters(&model, CameraKind::DoubleSphere);
    assert_eq!(p, vec![bits(461.0), bits(460.0), bits(366.0), bits(249.0), bits(-0.18), bits(0.58)]);
    let optimized = vec![bits(1.0), bits(2.0), bits(3.0), bits(4.0), bits(-0.2), bits(0.6)];
    let status = finish_optimization(&mut model, CameraKind::DoubleSphere, Some(&optimized));
    assert_eq!(status, "Converged");
    assert_eq!(model.intrinsics, Intrinsics { fx: bits(1.0), fy: bits(2.0), cx: bits(3.0), cy: bits(4.0) });
    assert_eq!(model.distortion_params, vec![bits(0.6), bits(-0.2)]);
}

#[test]
fn optimizer_roundtrip_leaves_models_unchanged() {
    for (kind, d) in [
        (CameraKind::KannalaBrandt, vec![0.1, 0.2, 0.3, 0.4]),
        (CameraKind::RadTan, vec![0.1, 0.2, 0.3, 0.4, 0.5]),
        (CameraKind::Ucm, vec![0.7]),
        (CameraKind::Eucm, vec![0.6, 1.1]),
        (CameraKind::Fov, vec![0.9]),
        (CameraKind::DoubleSphere, vec![0.58, -0.18]),
    ] {
        let mut model = camera(kind.name(), d);
        let before = model.clone();
        let p = optimizer_parameters(&model, kind);
        assert_eq!(finish_optimization(&mut model, kind, Some(&p)), "Converged");
        assert_eq!(model.intrinsics, before.intrinsics);
        assert_eq!(model.distortion_params, before.distortion_params);
    }
}

#[test]
fn linear_only_keeps_estimate() {
    let mut model = camera("fov", vec![0.9]);
    assert_eq!(finish_optimization(&mut model, CameraKind::Fov, None), "Linear Only");
    assert_eq!(model.distortion_params, vec![bits(0.9)]);
    let mut model = camera("rad_tan", vec![0.1, 0.2, 0.0, 0.0, 0.3]);
    let p: Vec<u64> = (0..9).map(|i| bits(i as f64)).collect();
    finish_optimization(&mut model, CameraKind::RadTan, Some(&p));
    assert_eq!(model.distortion_params, vec![bits(4.0), bits(5.0), bits(6.0), bits(7.0), bits(8.0)]);
}

#[test]
fn default_validation_is_nan() {
    let v = default_validation();
    for e in [
        v.center_error,
        v.near_center_error,
        v.mid_region_error,
        v.edge_region_error,
        v.far_edge_error,
        v.average_error,
        v.max_error,
    ] {
        assert!(f64::from_bits(e).is_nan());
        assert!(is_nan(e));
    }
    assert_eq!(v.status, "NEEDS IMPROVEMENT");
    assert!(v.region_data.is_empty());
    assert_eq!(f64::NAN.to_bits(), NAN_BITS);
}

#[test]
fn float_bit_predicates() {
    for v in [1.0, 1e-300, 5e-324, f64::INFINITY, f64::MAX] {
        assert!(is_positive(bits(v)), "{v} is positive");
    }
    for v in [0.0, -0.0, -1.0, f64::NEG_INFINITY, f64::NAN, -f64::NAN] {
        assert!(!is_positive(bits(v)), "{v} is not positive");
    }
    assert!(is_nan(bits(-f64::NAN)));
    assert!(!is_nan(bits(f64::INFINITY)));
}

#[test]
fn points_in_front_are_kept_in_order() {
    let pixels: Vec<Point2> = (0..6).map(|i| Point2 { x: bits(i as f64), y: bits(2.0 * i as f64) }).collect();
    let ray = |z: f64| Some(Point3 { x: bits(0.1), y: bits(0.2), z: bits(z) });
    let rays = vec![ray(1.0), None, ray(0.0), ray(-0.5), ray(f64::NAN), ray(2.0)];
    let (p2, p3) = select_points_in_front(&pixels, &rays);
    assert_eq!(p2, vec![pixels[0], pixels[5]]);
    assert_eq!(p3.len(), 2);
    assert_eq!(p3[0].z, bits(1.0));
    assert_eq!(p3[1].z, bits(2.0));
}

#[test]
fn estimation_input_checks() {
    let message = |r: Result<(), CameraModelError>| match r {
        Err(CameraModelError::InvalidParams(m)) => m,
        _ => panic!("expected a complaint"),
    };
    assert_eq!(message(check_estimation_input(CameraKind::Ucm, 3, 2)), "Number of 2D and 3D points must match");
    assert_eq!(message(check_estimation_input(CameraKind::Fov, 1, 1)), "Need at least 2 points for FOV linear estimation");
    assert_eq!(message(check_estimation_input(CameraKind::RadTan, 2, 2)), "Need at least 3 points for RadTan linear estimation");
    assert_eq!(
        message(check_estimation_input(CameraKind::KannalaBrandt, 3, 3)),
        "Not enough points for linear estimation (need at least 4)"
    );
    assert!(check_estimation_input(CameraKind::DoubleSphere, 0, 0).is_ok());
    assert!(check_estimation_input(CameraKind::KannalaBrandt, 4, 4).is_ok());
}

#[test]
fn text_helpers() {
    let mut s = String::from("n=");
    push_decimal(&mut s, 0);
    s.push(',');
    push_decimal(&mut s, 1234567890);
    assert_eq!(s, "n=0,1234567890");
    assert!(str_eq("ds", "ds"));
    assert!(!str_eq("ds", "dS"));
    assert!(!str_eq("ds", "dsx"));
}

const BLACK: (u8, u8, u8) = (0, 0, 0);
const GREEN: (u8, u8, u8) = (0, 255, 0);
const MAGENTA: (u8, u8, u8) = (255, 0, 255);

fn in_disc(cx: i64, cy: i64, x: i64, y: i64) -> bool {
    (x - cx) * (x - cx) + (y - cy) * (y - cy) <= 4
}

#[test]
fn projection_image_draws_discs() {
    let img = create_projection_image(&vec![(5, 5), (0, 0)], &vec![(10, 20, 30), (1, 2, 3), (9, 9, 9)], 12, 8).unwrap();
    assert_eq!(img.dimensions(), (12, 8));
    for y in 0..8u32 {
        for x in 0..12u32 {
            let expected = if in_disc(0, 0, x as i64, y as i64) {
                (1, 2, 3)
            } else if in_disc(5, 5, x as i64, y as i64) {
                (10, 20, 30)
            } else {
                BLACK
            };
            assert_eq!(img.get_pixel(x, y), expected, "pixel ({x}, {y})");
        }
    }
}

#[test]
fn combined_image_draws_outputs_over_inputs() {
    let img = create_combined_projection_image(&vec![(3, 3)], &vec![(4, 3)], 8, 8).unwrap();
    assert_eq!(img.get_pixel(3, 3), MAGENTA);
    assert_eq!(img.get_pixel(1, 3), GREEN);
    assert_eq!(img.get_pixel(6, 3), MAGENTA);
    assert_eq!(img.get_pixel(7, 7), BLACK);
    let mut reference = RgbImage::new(8, 8);
    reference.put_pixel(7, 7, (5, 6, 7));
    let on_ref = create_combined_projection_image_on_reference(&vec![(0, 0)], &vec![], &reference).unwrap();
    assert_eq!(on_ref.get_pixel(7, 7), (5, 6, 7));
    assert_eq!(on_ref.get_pixel(2, 0), GREEN);
    assert_eq!(on_ref.get_pixel(2, 1), BLACK);
    let vis = projection_visualization_image(&vec![(7, 7)], Some(&reference), 99, 99).unwrap();
    assert_eq!(vis.dimensions(), (8, 8));
    assert_eq!(vis.get_pixel(7, 7), GREEN);
    let vis = projection_visualization_image(&vec![(7, 7)], None, 10, 9).unwrap();
    assert_eq!(vis.dimensions(), (10, 9));
    assert_eq!(vis.get_pixel(7, 5), GREEN);
    assert_eq!(vis.get_pixel(7, 4), BLACK);
}

#[test]
fn disc_clipped_at_borders() {
    let mut img = RgbImage::new(3, 3);
    draw_disc(&mut img, -1, -1, GREEN);
    assert_eq!(img.get_pixel(0, 0), GREEN);
    assert_eq!(img.get_pixel(1, 0), BLACK);
    assert_eq!(img.get_pixel(1, 1), BLACK);
    draw_disc(&mut img, 1, -1, GREEN);
    assert_eq!(img.get_pixel(1, 1), GREEN);
    assert_eq!(img.get_pixel(2, 1), BLACK);
    draw_disc(&mut img, i32::MAX, i32::MAX, MAGENTA);
    assert_eq!(img.get_pixel(2, 2), BLACK);
}

#[test]
fn psnr_totals_skip_black_pixels() {
    let mut a = RgbImage::new(2, 2);
    let mut b = RgbImage::new(2, 2);
    a.put_pixel(0, 0, (10, 0, 0));
    b.put_pixel(0, 0, (13, 4, 0));
    b.put_pixel(1, 1, (0, 0, 255));
    let (sse, channels) = psnr_error_totals(&a, &b).unwrap();
    assert_eq!(sse, 9 + 16 + 255 * 255);
    assert_eq!(channels, 6);
    match psnr_error_totals(&a, &RgbImage::new(2, 3)) {
        Err(UtilError::InvalidParams(m)) => assert_eq!(m, "Images must have the same dimensions"),
        _ => panic!("expected a complaint"),
    }
}

#[test]
fn nearest_pixel_lookup() {
    let mut img = RgbImage::new(4, 3);
    img.put_pixel(3, 2, (7, 8, 9));
    assert_eq!(nearest_pixel(&img, 3, 2), Some((7, 8, 9)));
    assert_eq!(nearest_pixel(&img, 0, 0), Some(BLACK));
    assert_eq!(nearest_pixel(&img, 4, 2), None);
    assert_eq!(nearest_pixel(&img, -1, 0), None);
    assert_eq!(nearest_pixel(&img, 0, 3), None);
}

#[test]
fn image_resolution_check() {
    let img = RgbImage::new(4, 3);
    assert!(check_image_resolution(&img, Resolution { width: 4, height: 3 }).is_ok());
    match check_image_resolution(&img, Resolution { width: 640, height: 480 }) {
        Err(UtilError::InvalidParams(m)) => assert_eq!(m, "Image 4x3 doesn't match model 640x480"),
        _ => panic!("expected a complaint"),
    }
}

#[test]
fn raw_image_roundtrip() {
    let data: Vec<u8> = (0..18).collect();
    let img = RgbImage::from_raw(3, 2, data.clone()).unwrap();
    assert_eq!(img.get_pixel(1, 1), (12, 13, 14));
    assert_eq!(img.clone_image().get_pixel(2, 0), (6, 7, 8));
    assert_eq!(img.into_raw(), data);
    assert!(RgbImage::from_raw(3, 2, vec![0; 17]).is_none());
}

#[test]
fn first_minimum_picks_the_earliest_smallest() {
    assert_eq!(first_minimum(&vec![]), None);
    assert_eq!(first_minimum(&vec![bits(f64::NAN)]), Some(0));
    assert_eq!(first_minimum(&vec![bits(3.0), bits(1.5), bits(7.0), bits(1.5)]), Some(1));
    assert_eq!(first_minimum(&vec![bits(0.0), bits(-0.0)]), Some(0));
    assert_eq!(first_minimum(&vec![bits(2.0), bits(-1.0), bits(-3.0), bits(f64::NEG_INFINITY)]), Some(3));
    assert_eq!(first_minimum(&vec![bits(1e-300), bits(5e-324), bits(f64::INFINITY)]), Some(1));
}

#[test]
fn region_reports_follow_validation_data() {
    let mut v = default_validation();
    assert!(region_reports(&v).iter().all(|r| *r == RegionReport::Failed));
    v.center_error = bits(0.5);
    v.near_center_error = bits(0.25);
    v.far_edge_error = bits(2.0);
    let p = Point2 { x: bits(1.0), y: bits(2.0) };
    let q = Point2 { x: bits(3.0), y: bits(4.0) };
    v.region_data = vec![
        RegionValidation { input_projection: Some(p), output_projection: Some(q) },
        RegionValidation { input_projection: Some(p), output_projection: None },
    ];
    let r = region_reports(&v);
    assert_eq!(r.len(), 5);
    assert_eq!(r[0], RegionReport::Projected { input: p, output: q, error: bits(0.5) });
    assert_eq!(r[1], RegionReport::Failed);
    assert_eq!(r[2], RegionReport::Failed);
    assert_eq!(r[3], RegionReport::Failed);
    assert_eq!(r[4], RegionReport::ErrorOnly { error: bits(2.0) });
}

#[test]
fn image_compared_with_itself_has_no_error() {
    let img = create_projection_image(&vec![(2, 2), (6, 1)], &vec![(9, 8, 7), (1, 1, 1)], 9, 5).unwrap();
    let (sse, channels) = psnr_error_totals(&img, &img).unwrap();
    assert_eq!(sse, 0);
    assert_eq!(channels, 3 * 25);
}

#[test]
fn targets_for_lower_case_types() {
    assert_eq!(targets_for_type("kb"), vec![CameraKind::DoubleSphere, CameraKind::RadTan, CameraKind::Ucm, CameraKind::Eucm, CameraKind::Fov]);
    assert_eq!(targets_for_type("fov"), vec![CameraKind::DoubleSphere, CameraKind::KannalaBrandt, CameraKind::RadTan, CameraKind::Ucm, CameraKind::Eucm]);
    // Upper-case types are not lower-cased here: nothing is excluded.
    assert_eq!(targets_for_type("KB").len(), 6);
    assert_eq!(targets_for_type("").len(), 6);
}

#[test]
fn conversion_labels() {
    let kinds = [CameraKind::DoubleSphere, CameraKind::KannalaBrandt, CameraKind::RadTan, CameraKind::Ucm, CameraKind::Eucm, CameraKind::Fov];
    let names: Vec<&str> = kinds.iter().map(|k| display_name(*k)).collect();
    assert_eq!(names, vec!["Double Sphere", "Kannala-Brandt", "Radial-Tangential", "Unified Camera Model", "Extended Unified Camera Model", "Field-of-View"]);
    let headings: Vec<&str> = kinds.iter().map(|k| heading_name(*k)).collect();
    assert_eq!(headings, vec!["Double Sphere", "Kannala-Brandt", "Radial-Tangential", "Unified Camera Model (UCM)", "Extended Unified Camera Model (EUCM)", "Field-of-View (FOV)"]);
    let stems: Vec<&str> = kinds.iter().map(|k| image_stem(*k)).collect();
    assert_eq!(stems, vec!["double_sphere_apex", "kannala_brandt_apex", "radial_tangential_apex", "unified_camera_model_apex", "extended_unified_camera_model_apex", "fov_apex"]);
}

#[test]
fn input_parameter_label_table() {
    assert_eq!(parameter_labels_for_type("ds"), ("DS", vec!["alpha", "xi"]));
    assert_eq!(parameter_labels_for_type("kannala_brandt"), ("KB", vec!["k1", "k2", "k3", "k4"]));
    assert_eq!(parameter_labels_for_type("radtan"), ("RadTan", vec!["k1", "k2", "p1", "p2", "k3"]));
    assert_eq!(parameter_labels_for_type("unified"), ("UCM", vec!["alpha"]));
    assert_eq!(parameter_labels_for_type("eucm"), ("EUCM", vec!["alpha", "beta"]));
    assert_eq!(parameter_labels_for_type("pinhole"), ("Pinhole", vec![]));
    assert_eq!(parameter_labels_for_type("fov"), ("Model", vec![]));
    assert_eq!(parameter_labels_for_type("mystery"), ("Model", vec![]));
    assert_eq!(input_parameter_labels("Double_Sphere"), ("DS", vec!["alpha", "xi"]));
    assert_eq!(input_parameter_labels("RADTAN"), ("RadTan", vec!["k1", "k2", "p1", "p2", "k3"]));
}

#[test]
fn psnr_totals_do_not_depend_on_image_order() {
    let mut a = RgbImage::new(3, 2);
    let mut b = RgbImage::new(3, 2);
    a.put_pixel(0, 0, (10, 200, 7));
    a.put_pixel(2, 1, (0, 0, 1));
    b.put_pixel(0, 0, (13, 4, 0));
    b.put_pixel(1, 1, (0, 0, 255));
    let ab = psnr_error_totals(&a, &b).unwrap();
    let ba = psnr_error_totals(&b, &a).unwrap();
    assert_eq!(ab, ba);
    assert_eq!(ab, (9 + 196 * 196 + 49 + 255 * 255 + 1, 9));
}

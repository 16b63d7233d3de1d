use camera_tools::camera::{
    CameraKind, CameraModelError, CameraWithResolution, DistortionModel, Intrinsics, Resolution,
};
use camera_tools::yaml_io::{
    expected_intrinsics_len, load_from_yaml, normalize_model_name, save_to_yaml, YamlCamera,
    YamlValue,
};

fn bits(v: f64) -> u64 {
    v.to_bits()
}

fn make_camera(model_name: &str, distortion_params: Vec<f64>) -> CameraWithResolution {
    CameraWithResolution {
        intrinsics: Intrinsics {
            fx: bits(350.0),
            fy: bits(350.0),
            cx: bits(320.0),
            cy: bits(240.0),
        },
        resolution: Resolution {
            width: 640,
            height: 480,
        },
        model_name: model_name.to_string(),
        distortion_params: distortion_params.into_iter().map(bits).collect(),
    }
}

fn text(s: &str) -> YamlValue {
    YamlValue::String(s.to_string())
}

fn reals(values: &[f64]) -> YamlValue {
    YamlValue::Array(values.iter().map(|v| YamlValue::Real(bits(*v))).collect())
}

fn calibration(fields: Vec<(&str, YamlValue)>) -> Vec<YamlValue> {
    let cam = YamlValue::Hash(fields.into_iter().map(|(k, v)| (text(k), v)).collect());
    vec![YamlValue::Hash(vec![(text("cam0"), cam)])]
}

fn invalid_message(r: Result<CameraWithResolution, CameraModelError>) -> String {
    match r {
        Err(CameraModelError::InvalidParams(m)) => m,
        other => panic!("expected InvalidParams, got {:?}", other.map(|c| c.model_name)),
    }
}

#[test]
fn test_model_names() {
    assert_eq!(make_camera("pinhole", vec![]).get_model_name(), "pinhole");
    assert_eq!(
        make_camera("double_sphere", vec![0.58, -0.18]).get_model_name(),
        "double_sphere"
    );
    assert_eq!(make_camera("eucm", vec![0.5, 1.0]).get_model_name(), "eucm");
    assert_eq!(make_camera("fov", vec![0.9]).get_model_name(), "fov");
    assert_eq!(
        make_camera("kannala_brandt", vec![0.0; 4]).get_model_name(),
        "kannala_brandt"
    );
    assert_eq!(
        make_camera("rad_tan", vec![0.0; 5]).get_model_name(),
        "rad_tan"
    );
    assert_eq!(make_camera("ucm", vec![0.8]).get_model_name(), "ucm");
}

#[test]
fn test_yaml_roundtrip() {
    let cam = make_camera("double_sphere", vec![0.58, -0.18]);
    let doc = cam.save_to_yaml();
    let loaded = CameraWithResolution::load_from_yaml(&vec![doc]).expect("load failed");
    assert_eq!(loaded.model_name, cam.model_name);
    assert_eq!(f64::from_bits(loaded.intrinsics.fx), 350.0);
    assert_eq!(f64::from_bits(loaded.intrinsics.fy), 350.0);
    assert_eq!(loaded.intrinsics, cam.intrinsics);
    assert_eq!(loaded.resolution.width, cam.resolution.width);
    assert_eq!(loaded.resolution, cam.resolution);
    assert_eq!(loaded.distortion_params.len(), cam.distortion_params.len());
    for (a, b) in loaded.distortion_params.iter().zip(cam.distortion_params.iter()) {
        assert_eq!(f64::from_bits(*a), f64::from_bits(*b));
    }
}

#[test]
fn yaml_roundtrip_every_model() {
    for (name, d) in [
        ("pinhole", vec![]),
        ("eucm", vec![0.5, 1.0]),
        ("fov", vec![0.9]),
        ("kannala_brandt", vec![-0.01, 0.05, -0.08, 0.04]),
        ("rad_tan", vec![-0.28, 0.07, 0.0002, 0.00002, 0.0]),
        ("ucm", vec![0.8]),
    ] {
        let cam = make_camera(name, d);
        let loaded = load_from_yaml(&vec![save_to_yaml(&cam)]).expect("load failed");
        assert_eq!(loaded.model_name, cam.model_name);
        assert_eq!(loaded.intrinsics, cam.intrinsics);
        assert_eq!(loaded.resolution, cam.resolution);
        assert_eq!(loaded.distortion_params, cam.distortion_params);
    }
}

#[test]
fn saved_document_layout() {
    let cam = make_camera("ucm", vec![0.8]);
    let doc = save_to_yaml(&cam);
    let YamlValue::Hash(top) = doc else { panic!("not a mapping") };
    assert_eq!(top.len(), 1);
    assert!(matches!(&top[0].0, YamlValue::String(s) if s == "cam0"));
    let YamlValue::Hash(fields) = &top[0].1 else { panic!("cam0 not a mapping") };
    assert_eq!(fields.len(), 3);
    assert!(matches!(&fields[0], (YamlValue::String(k), YamlValue::String(v)) if k == "camera_model" && v == "ucm"));
    match &fields[1] {
        (YamlValue::String(k), YamlValue::Array(v)) => {
            assert_eq!(k, "intrinsics");
            let values: Vec<u64> = v
                .iter()
                .map(|x| match x {
                    YamlValue::Real(b) => *b,
                    _ => panic!("not a real"),
                })
                .collect();
            assert_eq!(values, vec![bits(350.0), bits(350.0), bits(320.0), bits(240.0), bits(0.8)]);
        }
        _ => panic!("intrinsics missing"),
    }
    assert!(matches!(&fields[2], (YamlValue::String(k), YamlValue::Array(v))
        if k == "resolution" && matches!(v.as_slice(), [YamlValue::Integer(640), YamlValue::Integer(480)])));
}

#[test]
fn normalize_model_name_aliases() {
    for (alias, canonical) in [
        ("pinhole", "pinhole"),
        ("ds", "double_sphere"),
        ("double_sphere", "double_sphere"),
        ("extended_unified", "eucm"),
        ("eucm", "eucm"),
        ("field_of_view", "fov"),
        ("fov", "fov"),
        ("kb", "kannala_brandt"),
        ("kannala_brandt", "kannala_brandt"),
        ("radtan", "rad_tan"),
        ("rad_tan", "rad_tan"),
        ("unified", "ucm"),
        ("ucm", "ucm"),
    ] {
        assert_eq!(normalize_model_name(alias).unwrap(), canonical);
    }
    match normalize_model_name("DS") {
        Err(CameraModelError::InvalidParams(m)) => assert_eq!(m, "Unknown camera model: DS"),
        _ => panic!("DS is not a model name"),
    }
}

#[test]
fn expected_intrinsics_lengths() {
    assert_eq!(expected_intrinsics_len("pinhole"), 4);
    assert_eq!(expected_intrinsics_len("double_sphere"), 6);
    assert_eq!(expected_intrinsics_len("eucm"), 6);
    assert_eq!(expected_intrinsics_len("fov"), 5);
    assert_eq!(expected_intrinsics_len("kannala_brandt"), 8);
    assert_eq!(expected_intrinsics_len("rad_tan"), 9);
    assert_eq!(expected_intrinsics_len("ucm"), 5);
    assert_eq!(expected_intrinsics_len("ds"), 4);
}

#[test]
fn load_with_alias_and_separate_distortion() {
    let docs = calibration(vec![
        ("camera_model", text("radtan")),
        ("intrinsics", reals(&[458.0, 457.0, 367.0, 248.0])),
        ("distortion", reals(&[-0.28, 0.07, 0.0002, 0.00002])),
        ("resolution", YamlValue::Array(vec![YamlValue::Integer(752), YamlValue::Integer(480)])),
    ]);
    let cam = load_from_yaml(&docs).unwrap();
    assert_eq!(cam.model_name, "rad_tan");
    assert_eq!(cam.intrinsics.fx, bits(458.0));
    assert_eq!(cam.intrinsics.cy, bits(248.0));
    assert_eq!(cam.resolution, Resolution { width: 752, height: 480 });
    assert_eq!(
        cam.distortion_params,
        vec![bits(-0.28), bits(0.07), bits(0.0002), bits(0.00002)]
    );
    // Only four distortion parameters were given: the model cannot be used.
    match cam.make_distortion_model() {
        Err(CameraModelError::InvalidParams(m)) => assert_eq!(m, "RadTan needs 5 distortion params"),
        _ => panic!("expected a complaint"),
    }
}

#[test]
fn load_truncates_resolution_to_u32() {
    let docs = calibration(vec![
        ("camera_model", text("pinhole")),
        ("intrinsics", reals(&[1.0, 2.0, 3.0, 4.0])),
        ("resolution", YamlValue::Array(vec![YamlValue::Integer(-1), YamlValue::Integer(0x1_0000_0005)])),
    ]);
    let cam = load_from_yaml(&docs).unwrap();
    assert_eq!(cam.resolution, Resolution { width: u32::MAX, height: 5 });
    assert!(cam.distortion_params.is_empty());
}

#[test]
fn load_errors() {
    assert_eq!(invalid_message(load_from_yaml(&vec![])), "Empty YAML document");
    assert_eq!(
        invalid_message(load_from_yaml(&vec![YamlValue::Null])),
        "Missing 'cam0' node in YAML"
    );
    assert_eq!(
        invalid_message(load_from_yaml(&vec![YamlValue::Hash(vec![(text("cam0"), YamlValue::BadValue)])])),
        "Missing 'cam0' node in YAML"
    );
    assert_eq!(
        invalid_message(load_from_yaml(&calibration(vec![("intrinsics", reals(&[1.0]))]))),
        "Missing 'camera_model' field"
    );
    assert_eq!(
        invalid_message(load_from_yaml(&calibration(vec![("camera_model", text("mei"))]))),
        "Unknown camera model: mei"
    );
    assert_eq!(
        invalid_message(load_from_yaml(&calibration(vec![("camera_model", text("ds"))]))),
        "YAML missing 'intrinsics' array under 'cam0'"
    );
    assert_eq!(
        invalid_message(load_from_yaml(&calibration(vec![
            ("camera_model", text("kb")),
            ("intrinsics", reals(&[1.0, 2.0, 3.0, 4.0, 5.0])),
        ]))),
        "Intrinsics array must have at least 8 elements, got 5"
    );
    assert_eq!(
        invalid_message(load_from_yaml(&calibration(vec![
            ("camera_model", text("fov")),
            ("intrinsics", reals(&[1.0, 2.0, 3.0, 4.0, 5.0])),
        ]))),
        "YAML missing 'resolution' array under 'cam0'"
    );
    assert_eq!(
        invalid_message(load_from_yaml(&calibration(vec![
            ("camera_model", text("fov")),
            ("intrinsics", reals(&[1.0, 2.0, 3.0, 4.0, 5.0])),
            ("resolution", YamlValue::Array(vec![YamlValue::Integer(640)])),
        ]))),
        "Resolution array must have at least 2 elements"
    );
    let res = || YamlValue::Array(vec![YamlValue::Integer(640), YamlValue::Integer(480)]);
    assert_eq!(
        invalid_message(load_from_yaml(&calibration(vec![
            ("camera_model", text("pinhole")),
            (
                "intrinsics",
                YamlValue::Array(vec![
                    YamlValue::Real(bits(1.0)),
                    YamlValue::Integer(2),
                    YamlValue::Real(bits(3.0)),
                    YamlValue::Real(bits(4.0)),
                ]),
            ),
            ("resolution", res()),
        ]))),
        "Invalid fy: not a float"
    );
    assert_eq!(
        invalid_message(load_from_yaml(&calibration(vec![
            ("camera_model", text("pinhole")),
            ("intrinsics", reals(&[1.0, 2.0, 3.0, 4.0])),
            ("resolution", YamlValue::Array(vec![YamlValue::Integer(640), YamlValue::Real(bits(480.0))])),
        ]))),
        "Invalid height: not an integer"
    );
    assert_eq!(
        invalid_message(load_from_yaml(&calibration(vec![
            ("camera_model", text("ucm")),
            ("intrinsics", reals(&[1.0, 2.0, 3.0, 4.0])),
            ("distortion", YamlValue::Array(vec![YamlValue::Real(bits(0.5)), text("x")])),
            ("resolution", res()),
        ]))),
        "Invalid distortion[1]: not a float"
    );
    let mut intr: Vec<YamlValue> = [1.0, 2.0, 3.0, 4.0, 0.5, 0.1].iter().map(|v| YamlValue::Real(bits(*v))).collect();
    intr.push(YamlValue::Null);
    assert_eq!(
        invalid_message(load_from_yaml(&calibration(vec![
            ("camera_model", text("eucm")),
            ("intrinsics", YamlValue::Array(intr)),
            ("resolution", res()),
        ]))),
        "Invalid param[6]: not a float"
    );
}

#[test]
fn distortion_models() {
    let ds = make_camera("double_sphere", vec![0.58, -0.18]);
    assert_eq!(
        ds.make_distortion_model().unwrap(),
        DistortionModel::DoubleSphere { xi: bits(-0.18), alpha: bits(0.58) }
    );
    assert_eq!(make_camera("pinhole", vec![]).make_distortion_model().unwrap(), DistortionModel::NoDistortion);
    assert_eq!(
        make_camera("eucm", vec![0.5, 1.0]).make_distortion_model().unwrap(),
        DistortionModel::EUCM { alpha: bits(0.5), beta: bits(1.0) }
    );
    assert_eq!(
        make_camera("fov", vec![0.9, 7.0]).make_distortion_model().unwrap(),
        DistortionModel::FOV { w: bits(0.9) }
    );
    assert_eq!(
        make_camera("kannala_brandt", vec![1.0, 2.0, 3.0, 4.0]).make_distortion_model().unwrap(),
        DistortionModel::KannalaBrandt { k1: bits(1.0), k2: bits(2.0), k3: bits(3.0), k4: bits(4.0) }
    );
    assert_eq!(
        make_camera("rad_tan", vec![1.0, 2.0, 3.0, 4.0, 5.0]).make_distortion_model().unwrap(),
        DistortionModel::BrownConrady { k1: bits(1.0), k2: bits(2.0), p1: bits(3.0), p2: bits(4.0), k3: bits(5.0) }
    );
    assert_eq!(
        make_camera("ucm", vec![0.8]).make_distortion_model().unwrap(),
        DistortionModel::UCM { alpha: bits(0.8) }
    );
    for (name, message) in [
        ("double_sphere", "DS needs 2 distortion params"),
        ("eucm", "EUCM needs 2 distortion params"),
        ("fov", "FOV needs 1 distortion param"),
        ("kannala_brandt", "KB needs 4 distortion params"),
        ("rad_tan", "RadTan needs 5 distortion params"),
        ("ucm", "UCM needs 1 distortion param"),
    ] {
        match make_camera(name, vec![]).make_distortion_model() {
            Err(CameraModelError::InvalidParams(m)) => assert_eq!(m, message),
            _ => panic!("expected a complaint for {name}"),
        }
    }
    match make_camera("ds", vec![0.5, 0.1]).make_distortion_model() {
        Err(CameraModelError::InvalidParams(m)) => assert_eq!(m, "Unknown model: ds"),
        _ => panic!("aliases are not model names"),
    }
}

#[test]
fn getters_and_kinds() {
    let cam = make_camera("fov", vec![0.9]);
    assert_eq!(cam.get_resolution(), Resolution { width: 640, height: 480 });
    assert_eq!(cam.get_intrinsics().cx, bits(320.0));
    assert_eq!(cam.get_distortion(), vec![bits(0.9)]);
    assert_eq!(CameraKind::KannalaBrandt.name(), "kannala_brandt");
    assert_eq!(CameraKind::RadTan.distortion_count(), 5);
    assert_eq!(camera_tools::camera::kind_from_name("eucm"), Some(CameraKind::Eucm));
    assert_eq!(camera_tools::camera::kind_from_name("EUCM"), None);
}

#[test]
fn camera_error_messages() {
    assert_eq!(
        CameraModelError::InvalidParams("bad".to_string()).message(),
        "Invalid camera parameters: bad"
    );
    assert_eq!(CameraModelError::YamlError("x".to_string()).message(), "Failed to load YAML: x");
    assert_eq!(CameraModelError::IOError("y".to_string()).message(), "IO Error: y");
    assert_eq!(CameraModelError::NumericalError("z".to_string()).message(), "NumericalError: z");
    assert_eq!(
        CameraModelError::PointAtCameraCenter.message(),
        "z is close to zero, point is at camera center"
    );
    assert_eq!(CameraModelError::ProjectionOutSideImage.message(), "Projection is outside the image");
}

#[test]
fn load_calibration_text() {
    let text = "cam0:\n  camera_model: ds\n  intrinsics: [349.7, 349.8, 319.4, 238.9, 0.58, -0.18]\n  resolution: [640, 480]\n";
    let cam = camera_tools::yaml_io::load_calibration(text).unwrap();
    assert_eq!(cam.model_name, "double_sphere");
    assert_eq!(cam.intrinsics.fx, bits(349.7));
    assert_eq!(cam.intrinsics.cy, bits(238.9));
    assert_eq!(cam.resolution, Resolution { width: 640, height: 480 });
    assert_eq!(cam.distortion_params, vec![bits(0.58), bits(-0.18)]);
}

#[test]
fn load_calibration_text_errors() {
    let integer_fx = "cam0:\n  camera_model: pinhole\n  intrinsics: [350, 350.0, 320.0, 240.0]\n  resolution: [640, 480]\n";
    match camera_tools::yaml_io::load_calibration(integer_fx) {
        Err(CameraModelError::InvalidParams(m)) => assert_eq!(m, "Invalid fx: not a float"),
        other => panic!("unexpected {:?}", other.map(|c| c.model_name)),
    }
    match camera_tools::yaml_io::load_calibration("cam0: [1, 2") {
        Err(CameraModelError::YamlError(m)) => assert!(!m.is_empty()),
        other => panic!("unexpected {:?}", other.map(|c| c.model_name)),
    }
    match camera_tools::yaml_io::load_calibration("") {
        Err(CameraModelError::InvalidParams(m)) => assert_eq!(m, "Empty YAML document"),
        other => panic!("unexpected {:?}", other.map(|c| c.model_name)),
    }
}

#[test]
fn alias_model_names_read_back_as_canonical() {
    let cases = [
        ("ds", "double_sphere", vec![0.58, -0.18]),
        ("kb", "kannala_brandt", vec![0.1, 0.01, 0.0, 0.0]),
        ("radtan", "rad_tan", vec![0.1, 0.01, 0.001, 0.002, 0.0]),
        ("unified", "ucm", vec![0.6]),
        ("extended_unified", "eucm", vec![0.6, 1.1]),
        ("field_of_view", "fov", vec![0.9]),
    ];
    for (alias, canonical, d) in cases {
        let cam = make_camera(alias, d.clone());
        let loaded = load_from_yaml(&vec![save_to_yaml(&cam)]).unwrap();
        assert_eq!(loaded.model_name, canonical);
        assert_eq!(loaded.intrinsics, cam.intrinsics);
        assert_eq!(loaded.resolution, cam.resolution);
        assert_eq!(loaded.distortion_params, cam.distortion_params);
    }
}

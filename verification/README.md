# camera_tools

Verified bookkeeping for fisheye and wide-angle camera model conversion.

The library (`src/`, checked with Verus) holds the parts of the conversion
toolkit that decide rather than compute with floating point:

- `camera`: intrinsics, resolution, the named camera models and the choice of
  distortion parameters for each (`make_distortion_model`).
- `yaml_io`: the calibration document tree, reading a camera from it
  (`load_from_yaml`, and from calibration text through `yaml-rust` with
  `load_calibration`) and writing one into it (`save_to_yaml`), with the proof
  that reading back a written camera gives the camera again (its model name
  in canonical form).
- `convert`: conversion targets, starting models, the optimiser's parameter
  vector and how its result is written back, the names a conversion is
  reported under, the fallback validation result.
- `sampling`: keeping the sampled correspondences whose rays lie in front of
  the camera.
- `image_ops`: drawing projected points, the error totals of a PSNR
  comparison, pixel look-up and the resolution check, over `image::RgbImage`.
- `estimation`, `reporting`: input checks of the linear estimations; the
  labels of the input model's parameters, the choice of the most accurate /
  fastest conversion and the per-region report.

Real values are carried as IEEE-754 bit patterns (`u64`); `float_bits` gives
the predicates the library needs about them.

`app/` is the command-line tool (`convert`, `undistort`): file and image I/O,
YAML emission, projection through `apex-camera-models`, linear
estimation with `nalgebra`, optimisation with `apex-solver`, and reports.

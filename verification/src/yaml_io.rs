//! Calibration documents: the YAML tree of a camera calibration, how a
//! camera is read from it and how a camera is written into it.
//!
//! The tree mirrors the node kinds of a YAML loader; real scalars carry the
//! bit pattern of the `f64` they denote.

use vstd::prelude::*;
use vstd::string::*;

use crate::camera::{kind_from_name, kind_of, lemma_kind_of_canonical_name, CameraKind, CameraModelError, CameraSpec, CameraWithResolution, Intrinsics, Resolution};
use crate::text::{decimal, join_text, push_decimal, str_eq};
use yaml_rust::Yaml;

verus! {

/// A node of a YAML document.
#[derive(Debug)]
pub enum YamlValue {
    Real(u64),
    Integer(i64),
    String(String),
    Boolean(bool),
    Array(Vec<YamlValue>),
    Hash(Vec<(YamlValue, YamlValue)>),
    Alias(usize),
    Null,
    BadValue,
}

/// The abstract content of a YAML node.
pub enum YamlNode {
    Real(u64),
    Integer(i64),
    Text(Seq<char>),
    Boolean(bool),
    Array(Seq<YamlNode>),
    Hash(Seq<(YamlNode, YamlNode)>),
    Alias(usize),
    Null,
    BadValue,
}

/// The abstract content of a YAML node.
pub open spec fn yaml_node(v: YamlValue) -> YamlNode
    decreases v,
{
    match v {
        YamlValue::Real(b) => YamlNode::Real(b),
        YamlValue::Integer(i) => YamlNode::Integer(i),
        YamlValue::String(s) => YamlNode::Text(s@),
        YamlValue::Boolean(b) => YamlNode::Boolean(b),
        YamlValue::Array(items) => YamlNode::Array(
            Seq::new(
                items@.len(),
                |i: int|
                    if 0 <= i < items@.len() {
                        yaml_node(items@[i])
                    } else {
                        YamlNode::BadValue
                    },
            ),
        ),
        YamlValue::Hash(entries) => YamlNode::Hash(
            Seq::new(
                entries@.len(),
                |i: int|
                    if 0 <= i < entries@.len() {
                        (yaml_node(entries@[i].0), yaml_node(entries@[i].1))
                    } else {
                        (YamlNode::BadValue, YamlNode::BadValue)
                    },
            ),
        ),
        YamlValue::Alias(a) => YamlNode::Alias(a),
        YamlValue::Null => YamlNode::Null,
        YamlValue::BadValue => YamlNode::BadValue,
    }
}

impl View for YamlValue {
    type V = YamlNode;

    open spec fn view(&self) -> YamlNode {
        yaml_node(*self)
    }
}

/// The value of the first entry at or after `i` whose key is the text `key`;
/// `BadValue` when there is none.
pub open spec fn lookup_from(entries: Seq<(YamlNode, YamlNode)>, key: Seq<char>, i: int) -> YamlNode
    decreases entries.len() - i,
{
    if i < 0 || i >= entries.len() {
        YamlNode::BadValue
    } else if entries[i].0 == YamlNode::Text(key) {
        entries[i].1
    } else {
        lookup_from(entries, key, i + 1)
    }
}

/// `node[key]`: the value under the text key `key` of a mapping node;
/// `BadValue` for a missing key or a node that is not a mapping.
pub open spec fn node_get(node: YamlNode, key: Seq<char>) -> YamlNode {
    match node {
        YamlNode::Hash(entries) => lookup_from(entries, key, 0),
        _ => YamlNode::BadValue,
    }
}

/// The value under the text key `key` of a mapping node, or `None` where
/// `node[key]` is `BadValue` because the key is missing or the node is not a
/// mapping.
pub fn get_entry<'a>(node: &'a YamlValue, key: &str) -> (r: Option<&'a YamlValue>)
    ensures
        match r {
            Some(v) => v@ == node_get(node@, key@),
            None => node_get(node@, key@) == YamlNode::BadValue,
        },
{
    match node {
        YamlValue::Hash(entries) => {
            let ghost e = node@->Hash_0;
            let n = entries.len();
            let mut i: usize = 0;
            while i < n
                invariant
                    n == entries@.len(),
                    e.len() == n,
                    i <= n,
                    forall|j: int| 0 <= j < n ==> #[trigger] e[j] == (entries@[j].0@, entries@[j].1@),
                    node_get(node@, key@) == lookup_from(e, key@, 0),
                    lookup_from(e, key@, 0) == lookup_from(e, key@, i as int),
                decreases n - i,
            {
                assert(e[i as int] == (entries@[i as int].0@, entries@[i as int].1@));
                if let YamlValue::String(s) = &entries[i].0 {
                    if str_eq(s.as_str(), key) {
                        assert(entries@[i as int].0@ == YamlNode::Text(key@));
                        return Some(&entries[i].1);
                    }
                }
                i = i + 1;
            }
            None
        },
        _ => None,
    }
}

/// The canonical model named by `name` or one of its aliases.
pub open spec fn alias_kind(name: Seq<char>) -> Option<CameraKind> {
    if name == "pinhole"@ {
        Some(CameraKind::Pinhole)
    } else if name == "double_sphere"@ || name == "ds"@ {
        Some(CameraKind::DoubleSphere)
    } else if name == "eucm"@ || name == "extended_unified"@ {
        Some(CameraKind::Eucm)
    } else if name == "fov"@ || name == "field_of_view"@ {
        Some(CameraKind::Fov)
    } else if name == "kannala_brandt"@ || name == "kb"@ {
        Some(CameraKind::KannalaBrandt)
    } else if name == "rad_tan"@ || name == "radtan"@ {
        Some(CameraKind::RadTan)
    } else if name == "ucm"@ || name == "unified"@ {
        Some(CameraKind::Ucm)
    } else {
        None
    }
}

/// The model named by `name` or one of its aliases.
pub fn alias_kind_of(name: &str) -> (r: Option<CameraKind>)
    ensures
        r == alias_kind(name@),
{
    if str_eq(name, "pinhole") {
        Some(CameraKind::Pinhole)
    } else if str_eq(name, "double_sphere") || str_eq(name, "ds") {
        Some(CameraKind::DoubleSphere)
    } else if str_eq(name, "eucm") || str_eq(name, "extended_unified") {
        Some(CameraKind::Eucm)
    } else if str_eq(name, "fov") || str_eq(name, "field_of_view") {
        Some(CameraKind::Fov)
    } else if str_eq(name, "kannala_brandt") || str_eq(name, "kb") {
        Some(CameraKind::KannalaBrandt)
    } else if str_eq(name, "rad_tan") || str_eq(name, "radtan") {
        Some(CameraKind::RadTan)
    } else if str_eq(name, "ucm") || str_eq(name, "unified") {
        Some(CameraKind::Ucm)
    } else {
        None
    }
}

/// Maps the `camera_model` field of a calibration file to the canonical model
/// name.
pub fn normalize_model_name(name: &str) -> (r: Result<&'static str, CameraModelError>)
    ensures
        match alias_kind(name@) {
            Some(k) => r matches Ok(canonical) && canonical@ == k.canonical_name(),
            None => r matches Err(CameraModelError::InvalidParams(m))
                && m@ == "Unknown camera model: "@ + name@,
        },
{
    match alias_kind_of(name) {
        Some(k) => Ok(k.name()),
        None => Err(CameraModelError::InvalidParams(join_text("Unknown camera model: ", name))),
    }
}

/// The number of entries the `intrinsics` array of a model holds when it
/// also carries the distortion parameters.
pub open spec fn expected_len(model_name: Seq<char>) -> nat {
    match kind_of(model_name) {
        Some(k) => 4 + k.distortion_len(),
        None => 4,
    }
}

/// The number of entries the `intrinsics` array of a model holds when it
/// also carries the distortion parameters: four intrinsics followed by the
/// model's distortion parameters.
pub fn expected_intrinsics_len(model_name: &str) -> (r: usize)
    ensures
        r == expected_len(model_name@),
{
    match kind_from_name(model_name) {
        Some(CameraKind::Pinhole) => 4,
        Some(CameraKind::DoubleSphere) => 6,
        Some(CameraKind::Eucm) => 6,
        Some(CameraKind::Fov) => 5,
        Some(CameraKind::KannalaBrandt) => 8,
        Some(CameraKind::RadTan) => 9,
        Some(CameraKind::Ucm) => 5,
        None => 4,
    }
}

/// The bits of a real scalar (zero for any other node).
pub open spec fn real_bits(n: YamlNode) -> u64 {
    match n {
        YamlNode::Real(b) => b,
        _ => 0,
    }
}

/// The index of the first node at or after `i` that is not a real scalar;
/// the length of `items` when there is none.
pub open spec fn first_non_real(items: Seq<YamlNode>, i: int) -> int
    decreases items.len() - i,
{
    if i < 0 || i >= items.len() {
        items.len() as int
    } else if !(items[i] is Real) {
        i
    } else {
        first_non_real(items, i + 1)
    }
}

/// The bits of the real scalars of `items` from index `start` on.
pub open spec fn reals_from(items: Seq<YamlNode>, start: int) -> Seq<u64> {
    items.subrange(start, items.len() as int).map_values(|n: YamlNode| real_bits(n))
}

/// The complaint about an `intrinsics` array that is too short.
pub open spec fn too_few_intrinsics_message(required: nat, got: nat) -> Seq<char> {
    "Intrinsics array must have at least "@ + decimal(required) + " elements, got "@ + decimal(got)
}

/// The complaint about an entry of a parameter list that is not a real.
pub open spec fn not_a_float_message(list: Seq<char>, i: nat) -> Seq<char> {
    "Invalid "@ + list + "["@ + decimal(i) + "]: not a float"@
}

/// The distortion parameters of a calibration: those of the separate
/// `distortion` array where there is one, else the entries of `intrinsics`
/// after the fourth.  `Err` holds the complaint about the first entry that
/// is not a real.
pub open spec fn distortion_spec(intr: Seq<YamlNode>, sep: YamlNode) -> Result<Seq<u64>, Seq<char>> {
    match sep {
        YamlNode::Array(ds) => {
            let i = first_non_real(ds, 0);
            if i < ds.len() {
                Err(not_a_float_message("distortion"@, i as nat))
            } else {
                Ok(reals_from(ds, 0))
            }
        },
        _ => {
            let i = first_non_real(intr, 4);
            if i < intr.len() {
                Err(not_a_float_message("param"@, i as nat))
            } else {
                Ok(reals_from(intr, 4))
            }
        },
    }
}

/// The camera that the `cam0` node of a calibration describes once its
/// model is known to be `k`; `Err` holds the complaint.
pub open spec fn camera_fields_spec(cam: YamlNode, k: CameraKind) -> Result<CameraSpec, Seq<char>> {
    match node_get(cam, "intrinsics"@) {
        YamlNode::Array(intr) => {
            let sep = node_get(cam, "distortion"@);
            let required: nat = if sep is Array { 4 } else { 4 + k.distortion_len() };
            if intr.len() < required {
                Err(too_few_intrinsics_message(required, intr.len()))
            } else {
                match node_get(cam, "resolution"@) {
                    YamlNode::Array(res) => {
                        if res.len() < 2 {
                            Err("Resolution array must have at least 2 elements"@)
                        } else if !(intr[0] is Real) {
                            Err("Invalid fx: not a float"@)
                        } else if !(intr[1] is Real) {
                            Err("Invalid fy: not a float"@)
                        } else if !(intr[2] is Real) {
                            Err("Invalid cx: not a float"@)
                        } else if !(intr[3] is Real) {
                            Err("Invalid cy: not a float"@)
                        } else if !(res[0] is Integer) {
                            Err("Invalid width: not an integer"@)
                        } else if !(res[1] is Integer) {
                            Err("Invalid height: not an integer"@)
                        } else {
                            match distortion_spec(intr, sep) {
                                Err(m) => Err(m),
                                Ok(d) => Ok(
                                    CameraSpec {
                                        intrinsics: Intrinsics {
                                            fx: real_bits(intr[0]),
                                            fy: real_bits(intr[1]),
                                            cx: real_bits(intr[2]),
                                            cy: real_bits(intr[3]),
                                        },
                                        resolution: Resolution {
                                            width: (res[0]->Integer_0) as u32,
                                            height: (res[1]->Integer_0) as u32,
                                        },
                                        model_name: k.canonical_name(),
                                        distortion: d,
                                    },
                                ),
                            }
                        }
                    },
                    _ => Err("YAML missing 'resolution' array under 'cam0'"@),
                }
            }
        },
        _ => Err("YAML missing 'intrinsics' array under 'cam0'"@),
    }
}

/// The camera that a list of YAML documents describes: the `cam0` node of
/// the first document names the model (`camera_model`), the intrinsics and
/// possibly the distortion parameters (`intrinsics`, `distortion`) and the
/// resolution (`resolution`).  `Err` holds the complaint.
pub open spec fn load_spec(docs: Seq<YamlNode>) -> Result<CameraSpec, Seq<char>> {
    if docs.len() == 0 {
        Err("Empty YAML document"@)
    } else {
        let cam = node_get(docs[0], "cam0"@);
        if cam is BadValue {
            Err("Missing 'cam0' node in YAML"@)
        } else {
            match node_get(cam, "camera_model"@) {
                YamlNode::Text(raw) => match alias_kind(raw) {
                    None => Err("Unknown camera model: "@ + raw),
                    Some(k) => camera_fields_spec(cam, k),
                },
                _ => Err("Missing 'camera_model' field"@),
            }
        }
    }
}

fn invalid(message: &str) -> (e: CameraModelError)
    ensures
        e matches CameraModelError::InvalidParams(m) && m@ == message@,
{
    CameraModelError::InvalidParams(String::from_str(message))
}

/// The entries of the list `items` from index `start` on, as reals; the
/// complaint about the first that is not a real otherwise.
fn collect_reals(items: &Vec<YamlValue>, start: usize, list: &str) -> (r: Result<Vec<u64>, CameraModelError>)
    requires
        start <= items@.len(),
    ensures
        ({
            let nodes = Seq::new(items@.len(), |i: int| items@[i]@);
            let i = first_non_real(nodes, start as int);
            if i < nodes.len() {
                r matches Err(CameraModelError::InvalidParams(m)) && m@ == not_a_float_message(list@, i as nat)
            } else {
                r matches Ok(v) && v@ == reals_from(nodes, start as int)
            }
        }),
{
    let ghost nodes = Seq::new(items@.len(), |i: int| items@[i]@);
    let n = items.len();
    let mut out: Vec<u64> = Vec::new();
    let mut i: usize = start;
    while i < n
        invariant
            n == items@.len(),
            nodes == Seq::new(items@.len(), |i: int| items@[i]@),
            start <= i <= n,
            first_non_real(nodes, start as int) == first_non_real(nodes, i as int),
            out@ == reals_from(nodes, start as int).subrange(0, i - start),
        decreases n - i,
    {
        match &items[i] {
            YamlValue::Real(b) => {
                proof {
                    assert(nodes[i as int] == YamlNode::Real(*b));
                }
                out.push(*b);
                proof {
                    assert(out@ =~= reals_from(nodes, start as int).subrange(0, i + 1 - start));
                }
            },
            _ => {
                proof {
                    assert(!(nodes[i as int] is Real));
                }
                let mut m = String::from_str("Invalid ");
                m.append(list);
                m.append("[");
                push_decimal(&mut m, i as u64);
                m.append("]: not a float");
                proof {
                    assert(m@ =~= not_a_float_message(list@, i as nat));
                }
                return Err(CameraModelError::InvalidParams(m));
            },
        }
        i = i + 1;
    }
    assert(out@ =~= reals_from(nodes, start as int));
    Ok(out)
}

/// The abstract contents of a list of YAML nodes.
pub open spec fn nodes_of(items: Seq<YamlValue>) -> Seq<YamlNode> {
    Seq::new(items.len(), |i: int| items[i]@)
}

/// The list of an array node is the list of its items' contents.
proof fn lemma_array_nodes(v: &Vec<YamlValue>)
    ensures
        YamlValue::Array(*v)@ == YamlNode::Array(nodes_of(v@)),
{
    assert(YamlValue::Array(*v)@->Array_0 =~= nodes_of(v@));
}

/// Reads a camera from the documents of a calibration file (see
/// `load_spec`); every complaint is an `InvalidParams` error.
pub fn load_from_yaml(docs: &Vec<YamlValue>) -> (r: Result<CameraWithResolution, CameraModelError>)
    ensures
        match load_spec(nodes_of(docs@)) {
            Ok(c) => r matches Ok(cam) && cam@ == c,
            Err(m) => r matches Err(CameraModelError::InvalidParams(e)) && e@ == m,
        },
{
    let ghost nodes = nodes_of(docs@);
    if docs.len() == 0 {
        return Err(invalid("Empty YAML document"));
    }
    let doc = &docs[0];
    assert(nodes[0] == doc@);
    let cam_node = match get_entry(doc, "cam0") {
        Some(c) => c,
        None => {
            return Err(invalid("Missing 'cam0' node in YAML"));
        },
    };
    if let YamlValue::BadValue = cam_node {
        return Err(invalid("Missing 'cam0' node in YAML"));
    }
    let ghost cam = cam_node@;
    assert(!(cam is BadValue));
    let raw = match get_entry(cam_node, "camera_model") {
        Some(YamlValue::String(s)) => s,
        _ => {
            return Err(invalid("Missing 'camera_model' field"));
        },
    };
    assert(node_get(cam, "camera_model"@) == YamlNode::Text(raw@));
    let model_name = match normalize_model_name(raw.as_str()) {
        Ok(name) => name,
        Err(e) => {
            return Err(e);
        },
    };
    let ghost k = alias_kind(raw@)->Some_0;
    proof {
        lemma_kind_of_canonical_name(k);
    }
    let min_len = expected_intrinsics_len(model_name);
    assert(min_len == 4 + k.distortion_len());
    let intrinsics_yaml = match get_entry(cam_node, "intrinsics") {
        Some(YamlValue::Array(v)) => v,
        _ => {
            return Err(invalid("YAML missing 'intrinsics' array under 'cam0'"));
        },
    };
    proof {
        lemma_array_nodes(intrinsics_yaml);
    }
    let ghost intr = nodes_of(intrinsics_yaml@);
    assert(node_get(cam, "intrinsics"@) == YamlNode::Array(intr));
    let separate_distortion = match get_entry(cam_node, "distortion") {
        Some(YamlValue::Array(v)) => Some(v),
        _ => None,
    };
    let ghost sep = node_get(cam, "distortion"@);
    assert(separate_distortion is Some <==> sep is Array);
    let required_intrinsics: usize = if separate_distortion.is_some() { 4 } else { min_len };
    if intrinsics_yaml.len() < required_intrinsics {
        let mut m = String::from_str("Intrinsics array must have at least ");
        push_decimal(&mut m, required_intrinsics as u64);
        m.append(" elements, got ");
        push_decimal(&mut m, intrinsics_yaml.len() as u64);
        assert(m@ =~= too_few_intrinsics_message(required_intrinsics as nat, intrinsics_yaml@.len()));
        return Err(CameraModelError::InvalidParams(m));
    }
    let resolution_yaml = match get_entry(cam_node, "resolution") {
        Some(YamlValue::Array(v)) => v,
        _ => {
            return Err(invalid("YAML missing 'resolution' array under 'cam0'"));
        },
    };
    proof {
        lemma_array_nodes(resolution_yaml);
    }
    let ghost res = nodes_of(resolution_yaml@);
    assert(node_get(cam, "resolution"@) == YamlNode::Array(res));
    if resolution_yaml.len() < 2 {
        return Err(invalid("Resolution array must have at least 2 elements"));
    }
    assert(intr[0] == intrinsics_yaml@[0]@);
    assert(intr[1] == intrinsics_yaml@[1]@);
    assert(intr[2] == intrinsics_yaml@[2]@);
    assert(intr[3] == intrinsics_yaml@[3]@);
    assert(res[0] == resolution_yaml@[0]@);
    assert(res[1] == resolution_yaml@[1]@);
    let fx = match &intrinsics_yaml[0] {
        YamlValue::Real(b) => *b,
        _ => {
            return Err(invalid("Invalid fx: not a float"));
        },
    };
    let fy = match &intrinsics_yaml[1] {
        YamlValue::Real(b) => *b,
        _ => {
            return Err(invalid("Invalid fy: not a float"));
        },
    };
    let cx = match &intrinsics_yaml[2] {
        YamlValue::Real(b) => *b,
        _ => {
            return Err(invalid("Invalid cx: not a float"));
        },
    };
    let cy = match &intrinsics_yaml[3] {
        YamlValue::Real(b) => *b,
        _ => {
            return Err(invalid("Invalid cy: not a float"));
        },
    };
    let width = match &resolution_yaml[0] {
        YamlValue::Integer(i) => #[verifier::truncate] (*i as u32),
        _ => {
            return Err(invalid("Invalid width: not an integer"));
        },
    };
    let height = match &resolution_yaml[1] {
        YamlValue::Integer(i) => #[verifier::truncate] (*i as u32),
        _ => {
            return Err(invalid("Invalid height: not an integer"));
        },
    };
    let distortion_params = match separate_distortion {
        Some(ds) => {
            proof {
                lemma_array_nodes(ds);
            }
            collect_reals(ds, 0, "distortion")
        },
        None => collect_reals(intrinsics_yaml, 4, "param"),
    };
    proof {
        reveal_strlit("distortion");
        reveal_strlit("param");
    }
    let distortion_params = match distortion_params {
        Ok(d) => d,
        Err(e) => {
            return Err(e);
        },
    };
    Ok(
        CameraWithResolution {
            intrinsics: Intrinsics { fx, fy, cx, cy },
            resolution: Resolution { width, height },
            model_name: String::from_str(model_name),
            distortion_params,
        },
    )
}

/// The `intrinsics` array a camera is written with: the four intrinsics
/// followed by the distortion parameters.
pub open spec fn intrinsics_nodes(c: CameraSpec) -> Seq<YamlNode> {
    seq![
        YamlNode::Real(c.intrinsics.fx),
        YamlNode::Real(c.intrinsics.fy),
        YamlNode::Real(c.intrinsics.cx),
        YamlNode::Real(c.intrinsics.cy),
    ] + c.distortion.map_values(|b: u64| YamlNode::Real(b))
}

/// The document a camera is written as: a `cam0` mapping holding the model
/// name, the `intrinsics` array and the `resolution` array.
pub open spec fn save_spec(c: CameraSpec) -> YamlNode {
    YamlNode::Hash(
        seq![
            (
                YamlNode::Text("cam0"@),
                YamlNode::Hash(
                    seq![
                        (YamlNode::Text("camera_model"@), YamlNode::Text(c.model_name)),
                        (YamlNode::Text("intrinsics"@), YamlNode::Array(intrinsics_nodes(c))),
                        (
                            YamlNode::Text("resolution"@),
                            YamlNode::Array(
                                seq![
                                    YamlNode::Integer(c.resolution.width as i64),
                                    YamlNode::Integer(c.resolution.height as i64),
                                ],
                            ),
                        ),
                    ],
                ),
            ),
        ],
    )
}

fn text_node(s: &str) -> (r: YamlValue)
    ensures
        r@ == YamlNode::Text(s@),
{
    YamlValue::String(String::from_str(s))
}

/// The document that describes `cam` (see `save_spec`).
pub fn save_to_yaml(cam: &CameraWithResolution) -> (r: YamlValue)
    ensures
        r@ == save_spec(cam@),
{
    let ghost c = cam@;
    let mut intrinsics: Vec<YamlValue> = Vec::new();
    intrinsics.push(YamlValue::Real(cam.intrinsics.fx));
    intrinsics.push(YamlValue::Real(cam.intrinsics.fy));
    intrinsics.push(YamlValue::Real(cam.intrinsics.cx));
    intrinsics.push(YamlValue::Real(cam.intrinsics.cy));
    let n = cam.distortion_params.len();
    let mut i: usize = 0;
    while i < n
        invariant
            c == cam@,
            n == c.distortion.len(),
            i <= n,
            intrinsics@.len() == 4 + i,
            forall|j: int| 0 <= j < 4 + i ==> #[trigger] intrinsics@[j]@ == intrinsics_nodes(c)[j],
        decreases n - i,
    {
        intrinsics.push(YamlValue::Real(cam.distortion_params[i]));
        i = i + 1;
    }
    proof {
        lemma_array_nodes(&intrinsics);
        assert(nodes_of(intrinsics@) =~= intrinsics_nodes(c));
    }
    let mut resolution: Vec<YamlValue> = Vec::new();
    resolution.push(YamlValue::Integer(cam.resolution.width as i64));
    resolution.push(YamlValue::Integer(cam.resolution.height as i64));
    proof {
        lemma_array_nodes(&resolution);
        assert(nodes_of(resolution@) =~= seq![
            YamlNode::Integer(c.resolution.width as i64),
            YamlNode::Integer(c.resolution.height as i64),
        ]);
    }
    let intrinsics_node = YamlValue::Array(intrinsics);
    let resolution_node = YamlValue::Array(resolution);
    let ghost expected = save_spec(c)->Hash_0[0].1->Hash_0;
    assert(intrinsics_node@ == expected[1].1);
    assert(resolution_node@ == expected[2].1);
    let name_node = YamlValue::String(cam.model_name.clone());
    assert(name_node@ == expected[0].1);
    let mut fields: Vec<(YamlValue, YamlValue)> = Vec::new();
    fields.push((text_node("camera_model"), name_node));
    fields.push((text_node("intrinsics"), intrinsics_node));
    fields.push((text_node("resolution"), resolution_node));
    assert(fields@[0].0@ == expected[0].0 && fields@[0].1@ == expected[0].1);
    assert(fields@[1].0@ == expected[1].0 && fields@[1].1@ == expected[1].1);
    assert(fields@[2].0@ == expected[2].0 && fields@[2].1@ == expected[2].1);
    let cam_node = YamlValue::Hash(fields);
    assert(cam_node@->Hash_0 =~= expected);
    let mut top: Vec<(YamlValue, YamlValue)> = Vec::new();
    top.push((text_node("cam0"), cam_node));
    let doc = YamlValue::Hash(top);
    assert(doc@->Hash_0 =~= save_spec(c)->Hash_0);
    doc
}

/// A list whose entries from `i` on are all reals has no non-real there.
proof fn lemma_first_non_real_all_real(items: Seq<YamlNode>, i: int)
    requires
        0 <= i <= items.len(),
        forall|j: int| i <= j < items.len() ==> #[trigger] items[j] is Real,
    ensures
        first_non_real(items, i) == items.len(),
    decreases items.len() - i,
{
    if i < items.len() {
        lemma_first_non_real_all_real(items, i + 1);
    }
}

/// Each canonical model name is also accepted as the model's name in a
/// calibration file.
pub proof fn lemma_alias_kind_canonical(k: CameraKind)
    ensures
        alias_kind(k.canonical_name()) == Some(k),
{
    reveal_strlit("pinhole");
    reveal_strlit("double_sphere");
    reveal_strlit("ds");
    reveal_strlit("eucm");
    reveal_strlit("extended_unified");
    reveal_strlit("fov");
    reveal_strlit("field_of_view");
    reveal_strlit("kannala_brandt");
    reveal_strlit("kb");
    reveal_strlit("rad_tan");
    reveal_strlit("radtan");
    reveal_strlit("ucm");
    reveal_strlit("unified");
    assert("pinhole"@[0] == 'p');
    assert("double_sphere"@[0] == 'd');
    assert("ds"@[0] == 'd');
    assert("eucm"@[0] == 'e');
    assert("extended_unified"@[0] == 'e');
    assert("fov"@[0] == 'f');
    assert("field_of_view"@[0] == 'f');
    assert("kannala_brandt"@[0] == 'k');
    assert("kb"@[0] == 'k');
    assert("rad_tan"@[0] == 'r');
    assert("radtan"@[0] == 'r');
    assert("ucm"@[0] == 'u');
    assert("unified"@[0] == 'u');
}

/// Reading back the document that a camera is written as gives the camera
/// again, with its model name replaced by the canonical name of the model it
/// names: this holds for every camera whose model name is accepted in a
/// calibration file (a canonical name or an alias) and which holds at least
/// as many distortion parameters as that model reads.
pub proof fn lemma_save_load_alias_roundtrip(c: CameraSpec)
    requires
        alias_kind(c.model_name) is Some,
        c.distortion.len() >= alias_kind(c.model_name)->Some_0.distortion_len(),
    ensures
        load_spec(seq![save_spec(c)]) == Ok::<CameraSpec, Seq<char>>(
            CameraSpec {
                intrinsics: c.intrinsics,
                resolution: c.resolution,
                model_name: alias_kind(c.model_name)->Some_0.canonical_name(),
                distortion: c.distortion,
            },
        ),
{
    reveal_strlit("cam0");
    reveal_strlit("camera_model");
    reveal_strlit("intrinsics");
    reveal_strlit("resolution");
    reveal_strlit("distortion");
    assert("cam0"@[1] == 'a');
    assert("camera_model"@[0] == 'c' && "camera_model"@[1] == 'a');
    assert("intrinsics"@[0] == 'i');
    assert("resolution"@[0] == 'r');
    assert("distortion"@[0] == 'd');
    let doc = save_spec(c);
    let cam = doc->Hash_0[0].1;
    let entries = cam->Hash_0;
    assert(node_get(doc, "cam0"@) == cam);
    assert(node_get(cam, "camera_model"@) == YamlNode::Text(c.model_name));
    assert(lookup_from(entries, "intrinsics"@, 1) == entries[1].1);
    assert(node_get(cam, "intrinsics"@) == YamlNode::Array(intrinsics_nodes(c)));
    assert(lookup_from(entries, "resolution"@, 2) == entries[2].1);
    assert(lookup_from(entries, "resolution"@, 1) == entries[2].1);
    assert(lookup_from(entries, "distortion"@, 3) == YamlNode::BadValue);
    assert(lookup_from(entries, "distortion"@, 2) == YamlNode::BadValue);
    assert(lookup_from(entries, "distortion"@, 1) == YamlNode::BadValue);
    assert(node_get(cam, "distortion"@) == YamlNode::BadValue);
    let intr = intrinsics_nodes(c);
    assert(forall|j: int| 4 <= j < intr.len() ==> #[trigger] intr[j] is Real);
    lemma_first_non_real_all_real(intr, 4);
    assert(reals_from(intr, 4) =~= c.distortion);
    assert((c.resolution.width as i64) as u32 == c.resolution.width);
    assert((c.resolution.height as i64) as u32 == c.resolution.height);
}

/// Reading back the document that a camera is written as gives the camera
/// again, for a camera whose model name is canonical and which holds at
/// least as many distortion parameters as its model reads.
pub proof fn lemma_save_load_roundtrip(c: CameraSpec)
    requires
        kind_of(c.model_name) is Some,
        c.distortion.len() >= kind_of(c.model_name)->Some_0.distortion_len(),
    ensures
        load_spec(seq![save_spec(c)]) == Ok::<CameraSpec, Seq<char>>(c),
{
    let k = kind_of(c.model_name)->Some_0;
    lemma_kind_of_canonical_name(k);
    assert(k.canonical_name() == c.model_name);
    lemma_alias_kind_canonical(k);
    lemma_save_load_alias_roundtrip(c);
}

/// A camera read from a calibration whose `intrinsics` array carries the
/// distortion parameters (there is no separate `distortion` array) has a
/// canonical model name and at least as many distortion parameters as its
/// model reads, so its distortion model can be made.
pub proof fn lemma_loaded_camera_has_distortion(docs: Seq<YamlNode>)
    requires
        load_spec(docs) is Ok,
        !(node_get(node_get(docs[0], "cam0"@), "distortion"@) is Array),
    ensures
        kind_of(load_spec(docs)->Ok_0.model_name) matches Some(k)
            && load_spec(docs)->Ok_0.distortion.len() >= k.distortion_len(),
{
    let cam = node_get(docs[0], "cam0"@);
    let raw = node_get(cam, "camera_model"@)->Text_0;
    let k = alias_kind(raw)->Some_0;
    lemma_kind_of_canonical_name(k);
    let intr = node_get(cam, "intrinsics"@)->Array_0;
    assert(reals_from(intr, 4).len() == intr.len() - 4);
}

/// Reading and writing a camera as a calibration document.
pub trait YamlCamera: Sized {
    /// Reads a camera from the documents of a calibration file.
    fn load_from_yaml(docs: &Vec<YamlValue>) -> Result<Self, CameraModelError>;

    /// The document that describes the camera.
    fn save_to_yaml(&self) -> YamlValue;
}

impl YamlCamera for CameraWithResolution {
    fn load_from_yaml(docs: &Vec<YamlValue>) -> (r: Result<CameraWithResolution, CameraModelError>)
        ensures
            match load_spec(nodes_of(docs@)) {
                Ok(c) => r matches Ok(cam) && cam@ == c,
                Err(m) => r matches Err(CameraModelError::InvalidParams(e)) && e@ == m,
            },
    {
        load_from_yaml(docs)
    }

    fn save_to_yaml(&self) -> (r: YamlValue)
        ensures
            r@ == save_spec(self@),
    {
        save_to_yaml(self)
    }
}

/// The node kinds of a parsed YAML document, as the `yaml-rust` loader gives
/// them.
#[verifier::external_type_specification]
#[verifier::external_body]
pub struct ExYaml(Yaml);

/// What `yaml_rust::YamlLoader::load_from_str` makes of a text: the
/// documents it holds, or the message of the scan error.
pub uninterp spec fn yaml_load(text: Seq<char>) -> Result<Seq<YamlNode>, Seq<char>>;

/// The library's copy of a node produced by the loader (a real scalar is
/// the bit pattern of `Yaml::as_f64`, which the loader only produces for
/// texts it parses).
#[verifier::external_body]
fn copy_yaml_node(y: &Yaml) -> YamlValue {
    match y {
        Yaml::Real(_) => YamlValue::Real(y.as_f64().map(|v| v.to_bits()).unwrap_or(u64::MAX)),
        Yaml::Integer(i) => YamlValue::Integer(*i),
        Yaml::String(s) => YamlValue::String(s.clone()),
        Yaml::Boolean(b) => YamlValue::Boolean(*b),
        Yaml::Array(a) => YamlValue::Array(a.iter().map(copy_yaml_node).collect()),
        Yaml::Hash(h) => YamlValue::Hash(h.iter().map(|(k, v)| (copy_yaml_node(k), copy_yaml_node(v))).collect()),
        Yaml::Alias(a) => YamlValue::Alias(*a),
        Yaml::Null => YamlValue::Null,
        Yaml::BadValue => YamlValue::BadValue,
    }
}

/// Calls `yaml_rust::YamlLoader::load_from_str`: the documents of a YAML
/// text, or the message of the scan error; the contract names the outcome
/// `yaml_load`.
#[verifier::external_body]
fn yaml_documents(text: &str) -> (r: Result<Vec<YamlValue>, String>)
    ensures
        r matches Ok(docs) ==> (yaml_load(text@) matches Ok(d) && d == nodes_of(docs@)),
        r matches Err(m) ==> (yaml_load(text@) matches Err(e) && e == m@),
{
    match yaml_rust::YamlLoader::load_from_str(text) {
        Ok(docs) => Ok(docs.iter().map(copy_yaml_node).collect()),
        Err(e) => Err(e.to_string()),
    }
}

/// Reads a camera from the text of a calibration file: a text the YAML
/// loader rejects gives a `YamlError` with the loader's message; otherwise
/// the documents are read as `load_from_yaml` reads them.
pub fn load_calibration(text: &str) -> (r: Result<CameraWithResolution, CameraModelError>)
    ensures
        match yaml_load(text@) {
            Err(m) => r matches Err(CameraModelError::YamlError(e)) && e@ == m,
            Ok(docs) => match load_spec(docs) {
                Ok(c) => r matches Ok(cam) && cam@ == c,
                Err(m) => r matches Err(CameraModelError::InvalidParams(e)) && e@ == m,
            },
        },
{
    match yaml_documents(text) {
        Err(m) => Err(CameraModelError::YamlError(m)),
        Ok(docs) => load_from_yaml(&docs),
    }
}

} // verus!

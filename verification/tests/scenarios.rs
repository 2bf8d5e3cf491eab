use dragonbones::document::{decode, encode, Skeleton};
use dragonbones::version::Version;
use dragonbones::decode::Decode;
use dragonbones::encode::Encode;
use dragonbones::error::{DecodeError, Kind, Segment, Shape};
use dragonbones::geometry::{Color, Point, Transform};
use dragonbones::node::{Member, Node, Number};
use dragonbones::single::Single;
use dragonbones::skeleton::{Action, AnimationType, Armature, BlendMode, Bone, Ik, Slot};
use dragonbones::skin::{BoundBoxType, Display, DisplayType, Skin, SkinSlot};

fn text(s: &str) -> Node {
    Node::Text(s.to_string())
}

fn integer(v: i128) -> Node {
    Node::Number(Number::Int(v))
}

fn decimal(v: f32) -> Node {
    Node::Number(Number::Real(Single { bits: v.to_bits() }))
}

fn object(entries: Vec<(&str, Node)>) -> Node {
    Node::Object(entries.into_iter().map(|(k, v)| Member { key: k.to_string(), value: v }).collect())
}

fn list(items: Vec<Node>) -> Node {
    Node::List(items)
}

fn key(k: &str) -> Segment {
    Segment::Key(k.to_string())
}

fn value(s: Single) -> f32 {
    f32::from_bits(s.bits)
}

fn hero() -> Node {
    object(vec![
        ("name", text("hero")),
        ("version", text("5.5.0")),
        ("compatibleVersion", text("5.5.0")),
        ("frameRate", integer(24)),
        (
            "armature",
            list(vec![object(vec![
                ("name", text("body")),
                ("bone", list(vec![object(vec![("name", text("root")), ("parent", text(""))])])),
                ("slot", list(vec![])),
                ("skin", list(vec![])),
                ("ik", list(vec![])),
                ("animation", list(vec![])),
            ])]),
        ),
    ])
}

#[test]
fn hero_document_decodes_with_inherited_frame_rate() {
    let doc = decode(&hero()).unwrap();
    assert_eq!(doc.name, "hero");
    assert_eq!(value(doc.frame_rate), 24.0);
    assert_eq!(doc.version.text, "5.5.0");
    assert_eq!((doc.version.major, doc.version.minor, doc.version.patch), (5, 5, 0));
    assert_eq!(doc.compatible_version.major, 5);
    assert_eq!(doc.user_data, Node::Null);
    assert_eq!(doc.armature.len(), 1);
    let body = &doc.armature[0];
    assert_eq!(body.name, "body");
    assert_eq!(value(body.frame_rate), 24.0);
    assert_eq!(body.animation_type, AnimationType::Armature);
    assert_eq!(body.bone.len(), 1);
    assert_eq!(body.bone[0].name, "root");
    assert_eq!(body.bone[0].parent, "");
    let t = body.bone[0].transform;
    assert_eq!(value(t.x), 0.0);
    assert_eq!(value(t.y), 0.0);
    assert_eq!(value(t.sk_x), 0.0);
    assert_eq!(value(t.sk_y), 0.0);
    assert_eq!(value(t.sc_x), 1.0);
    assert_eq!(value(t.sc_y), 1.0);
    assert!(body.slot.is_empty());
    assert!(body.skin.is_empty());
    assert!(body.ik.is_empty());
    assert!(body.animation.is_empty());
    assert!(body.default_actions.is_empty());
}

#[test]
fn armature_with_its_own_frame_rate_keeps_it() {
    let root = object(vec![
        ("name", text("hero")),
        ("version", text("5.5.0")),
        ("compatibleVersion", text("5.0.0")),
        ("frameRate", integer(24)),
        (
            "armature",
            list(vec![
                object(vec![("name", text("a")), ("frameRate", decimal(30.0))]),
                object(vec![("name", text("b"))]),
                object(vec![("name", text("c")), ("frameRate", integer(-1))]),
            ]),
        ),
    ]);
    let doc = decode(&root).unwrap();
    assert_eq!(value(doc.armature[0].frame_rate), 30.0);
    assert_eq!(value(doc.armature[1].frame_rate), 24.0);
    assert_eq!(value(doc.armature[2].frame_rate), 24.0);
}

#[test]
fn armature_read_alone_carries_the_sentinel_rate() {
    let a = Armature::decode(&object(vec![("name", text("a"))])).unwrap();
    assert_eq!(value(a.frame_rate), -1.0);
    let resolved = a.resolve(Single { bits: 60.0f32.to_bits() });
    assert_eq!(value(resolved.frame_rate), 60.0);
    let own = Armature::decode(&object(vec![("name", text("a")), ("frameRate", integer(12))])).unwrap();
    assert_eq!(value(own.resolve(Single { bits: 60.0f32.to_bits() }).frame_rate), 12.0);
}

#[test]
fn slot_without_blend_mode_and_display_index_takes_defaults() {
    let slot = Slot::decode(&object(vec![("name", text("hand")), ("parent", text("arm"))])).unwrap();
    assert_eq!(slot.name, "hand");
    assert_eq!(slot.parent, "arm");
    assert_eq!(slot.blend_mode, BlendMode { name: "normal".to_string() });
    assert_eq!(slot.display_index, 0);
    assert_eq!(slot.user_data, Node::Null);
    assert_eq!(slot.color, Color::default());
    assert_eq!(value(slot.color.a_m), 100.0);
    assert_eq!(value(slot.color.r_m), 100.0);
    assert_eq!(value(slot.color.g_m), 100.0);
    assert_eq!(value(slot.color.b_m), 100.0);
    assert_eq!(value(slot.color.a_o), 0.0);
    assert_eq!(value(slot.color.r_o), 0.0);
    assert_eq!(value(slot.color.g_o), 0.0);
    assert_eq!(value(slot.color.b_o), 0.0);
    assert!(slot.actions.is_empty());
}

#[test]
fn slot_fields_that_are_given_are_kept() {
    let slot = Slot::decode(&object(vec![
        ("name", text("hand")),
        ("parent", text("arm")),
        ("displayIndex", integer(-1)),
        ("blendMode", text("add")),
        ("userData", object(vec![("note", text("left"))])),
        ("color", object(vec![("aM", integer(50)), ("rO", decimal(-12.5))])),
        ("actions", list(vec![list(vec![text("gotoAndPlay"), text("idle")])])),
    ]))
    .unwrap();
    assert_eq!(slot.display_index, -1);
    assert_eq!(slot.blend_mode.name, "add");
    assert_eq!(slot.user_data, object(vec![("note", text("left"))]));
    assert_eq!(value(slot.color.a_m), 50.0);
    assert_eq!(value(slot.color.r_m), 100.0);
    assert_eq!(value(slot.color.r_o), -12.5);
    assert_eq!(
        slot.actions,
        vec![Action { first: "gotoAndPlay".to_string(), second: "idle".to_string() }]
    );
}

#[test]
fn mesh_with_weights_not_in_threes_is_an_arity_violation() {
    let node = object(vec![
        ("name", text("cape")),
        ("type", text("mesh")),
        ("weights", list(vec![integer(1), integer(0), decimal(1.0), integer(1)])),
    ]);
    assert_eq!(
        Display::decode(&node),
        Err(DecodeError::ArityViolation { path: vec![key("weights")], arity: 3, length: 4 })
    );
}

#[test]
fn mesh_fields_are_read_for_a_mesh() {
    let node = object(vec![
        ("name", text("cape")),
        ("type", text("mesh")),
        ("vertices", list(vec![integer(0), integer(0), decimal(1.5), integer(2)])),
        ("uvs", list(vec![decimal(0.0), decimal(0.0), decimal(1.0), decimal(0.5)])),
        ("triangles", list(vec![integer(0), integer(1), integer(0)])),
        ("weights", list(vec![integer(1), integer(3), decimal(1.0), integer(2), integer(4), decimal(0.25)])),
        ("slotPose", list(vec![integer(1), integer(0), integer(0), integer(1), integer(5), integer(6)])),
        (
            "bonePose",
            list(vec![integer(3), integer(1), integer(0), integer(0), integer(1), decimal(0.5), decimal(-0.5)]),
        ),
    ]);
    let d = Display::decode(&node).unwrap();
    assert_eq!(d.display_type, DisplayType::Mesh);
    assert_eq!(d.vertices.len(), 2);
    assert_eq!((value(d.vertices[1].x), value(d.vertices[1].y)), (1.5, 2.0));
    assert_eq!((value(d.uvs[1].x), value(d.uvs[1].y)), (1.0, 0.5));
    assert_eq!(d.triangles, vec![0, 1, 0]);
    assert_eq!(d.weights.len(), 2);
    assert_eq!((d.weights[0].bone_count, d.weights[0].bone_index), (1, 3));
    assert_eq!(value(d.weights[0].weight), 1.0);
    assert_eq!((d.weights[1].bone_count, d.weights[1].bone_index), (2, 4));
    assert_eq!(value(d.weights[1].weight), 0.25);
    assert_eq!(d.slot_pose.len(), 1);
    assert_eq!(value(d.slot_pose[0].a), 1.0);
    assert_eq!(value(d.slot_pose[0].tx), 5.0);
    assert_eq!(value(d.slot_pose[0].ty), 6.0);
    assert_eq!(d.bone_pose.len(), 1);
    assert_eq!(d.bone_pose[0].bone_index, 3);
    assert_eq!(value(d.bone_pose[0].tx), 0.5);
    assert_eq!(value(d.bone_pose[0].ty), -0.5);
}

#[test]
fn mesh_fields_of_another_kind_are_left_empty_and_unread() {
    let node = object(vec![
        ("name", text("face")),
        ("type", text("image")),
        ("vertices", list(vec![integer(0)])),
        ("weights", text("none")),
        ("triangles", list(vec![integer(-4)])),
    ]);
    let d = Display::decode(&node).unwrap();
    assert_eq!(d.display_type, DisplayType::Image);
    assert!(d.vertices.is_empty());
    assert!(d.uvs.is_empty());
    assert!(d.triangles.is_empty());
    assert!(d.weights.is_empty());
    assert!(d.slot_pose.is_empty());
    assert!(d.bone_pose.is_empty());
}

#[test]
fn minimal_display_has_every_default() {
    let d = Display::decode(&object(vec![("name", text("face"))])).unwrap();
    assert_eq!(d.name, "face");
    assert_eq!(d.display_type, DisplayType::Image);
    assert_eq!(d.path, "");
    assert_eq!(d.share, "");
    assert!(d.inherit_fdd);
    assert_eq!(d.sub_type, BoundBoxType::Rectangle);
    assert_eq!(d.color, 0);
    assert_eq!(d.transform, Transform::default());
    assert_eq!((value(d.pivot.x), value(d.pivot.y)), (0.5, 0.5));
    assert_eq!(value(d.width), 0.0);
    assert_eq!(value(d.height), 0.0);
    assert!(d.vertices.is_empty() && d.uvs.is_empty() && d.triangles.is_empty());
    assert!(d.weights.is_empty() && d.slot_pose.is_empty() && d.bone_pose.is_empty());
}

#[test]
fn unknown_display_type_is_kept_letter_for_letter() {
    let d = Display::decode(&object(vec![("name", text("spark")), ("type", text("Particle FX 2"))]))
        .unwrap();
    assert_eq!(d.display_type, DisplayType::Other("Particle FX 2".to_string()));
    assert_eq!(d.name, "spark");
    assert_eq!(d.encode(), {
        let again = Display::decode(&d.encode()).unwrap();
        assert_eq!(again, d);
        again.encode()
    });
}

#[test]
fn known_display_types_are_told_apart() {
    for (tag, kind) in [
        ("image", DisplayType::Image),
        ("armature", DisplayType::Armature),
        ("mesh", DisplayType::Mesh),
        ("boundingBox", DisplayType::BoundingBox),
    ] {
        assert_eq!(DisplayType::decode(&text(tag)), Ok(kind));
    }
    assert_eq!(DisplayType::decode(&text("Mesh")), Ok(DisplayType::Other("Mesh".to_string())));
    assert_eq!(
        DisplayType::decode(&integer(1)),
        Err(DecodeError::ShapeMismatch { path: vec![], expected: Shape::Text, actual: Kind::Int })
    );
}

#[test]
fn bound_box_types_are_told_apart_and_unknown_ones_kept() {
    assert_eq!(BoundBoxType::decode(&text("rectangle")), Ok(BoundBoxType::Rectangle));
    assert_eq!(BoundBoxType::decode(&text("ellipse")), Ok(BoundBoxType::Ellipse));
    assert_eq!(BoundBoxType::decode(&text("polygon")), Ok(BoundBoxType::Polygon));
    assert_eq!(BoundBoxType::decode(&text("star")), Ok(BoundBoxType::Other("star".to_string())));
    let d = Display::decode(&object(vec![
        ("name", text("hit")),
        ("type", text("boundingBox")),
        ("subType", text("ellipse")),
        ("color", integer(0xFF00FF)),
        ("width", integer(10)),
        ("height", decimal(2.5)),
    ]))
    .unwrap();
    assert_eq!(d.display_type, DisplayType::BoundingBox);
    assert_eq!(d.sub_type, BoundBoxType::Ellipse);
    assert_eq!(d.color, 0xFF00FF);
    assert_eq!((value(d.width), value(d.height)), (10.0, 2.5));
}

#[test]
fn animation_types_are_told_apart_and_unknown_ones_refused() {
    assert_eq!(AnimationType::decode(&text("Armature")), Ok(AnimationType::Armature));
    assert_eq!(AnimationType::decode(&text("MovieClip")), Ok(AnimationType::MovieClip));
    assert_eq!(AnimationType::decode(&text("Stage")), Ok(AnimationType::Stage));
    assert_eq!(
        AnimationType::decode(&text("stage")),
        Err(DecodeError::ShapeMismatch {
            path: vec![],
            expected: Shape::AnimationType,
            actual: Kind::Text
        })
    );
    assert_eq!(
        Armature::decode(&object(vec![("name", text("a")), ("type", Node::Bool(true))])),
        Err(DecodeError::ShapeMismatch {
            path: vec![key("type")],
            expected: Shape::AnimationType,
            actual: Kind::Bool
        })
    );
}

#[test]
fn minimal_bone_ik_skin_take_defaults() {
    let bone = Bone::decode(&object(vec![("name", text("arm")), ("parent", text("root"))])).unwrap();
    assert_eq!(
        bone,
        Bone {
            name: "arm".to_string(),
            parent: "root".to_string(),
            user_data: Node::Null,
            transform: Transform::default(),
        }
    );
    let ik = Ik::decode(&object(vec![
        ("name", text("reach")),
        ("bone", text("hand")),
        ("target", text("goal")),
    ]))
    .unwrap();
    assert_eq!((ik.name.as_str(), ik.bone.as_str(), ik.target.as_str()), ("reach", "hand", "goal"));
    assert!(ik.bend_positive);
    assert_eq!(ik.chain, 0);
    assert_eq!(value(ik.weight), 0.0);
    let skin = Skin::decode(&object(vec![
        ("name", text("base")),
        ("slot", object(vec![("name", text("hand"))])),
    ]))
    .unwrap();
    assert_eq!(
        skin,
        Skin {
            name: "base".to_string(),
            slot: SkinSlot { name: "hand".to_string(), display: vec![] },
        }
    );
}

#[test]
fn order_of_lists_is_kept() {
    let a = Armature::decode(&object(vec![
        ("name", text("a")),
        (
            "bone",
            list(vec![
                object(vec![("name", text("c")), ("parent", text(""))]),
                object(vec![("name", text("a")), ("parent", text("c"))]),
                object(vec![("name", text("b")), ("parent", text("nowhere"))]),
            ]),
        ),
    ]))
    .unwrap();
    let names: Vec<&str> = a.bone.iter().map(|b| b.name.as_str()).collect();
    assert_eq!(names, vec!["c", "a", "b"]);
    assert_eq!(a.bone[2].parent, "nowhere");
}

#[test]
fn unknown_fields_are_ignored_and_the_first_of_two_equal_keys_counts() {
    let t = Transform::decode(&object(vec![
        ("x", integer(3)),
        ("rotation", text("ignored")),
        ("x", integer(4)),
        ("z", Node::Null),
    ]))
    .unwrap();
    assert_eq!(value(t.x), 3.0);
    assert_eq!(value(t.sc_x), 1.0);
}

#[test]
fn version_parts_come_from_the_parser() {
    let v = Version::parse("1.2.3-alpha.1+build.7").unwrap();
    assert_eq!(v.text, "1.2.3-alpha.1+build.7");
    assert_eq!((v.major, v.minor, v.patch), (1, 2, 3));
    assert_eq!(v.pre, "alpha.1");
    assert_eq!(v.build, "build.7");
    let plain = Version::parse("10.20.30").unwrap();
    assert_eq!((plain.major, plain.minor, plain.patch), (10, 20, 30));
    assert_eq!(plain.pre, "");
    assert_eq!(plain.build, "");
}

#[test]
fn malformed_version_is_a_version_error_with_the_text() {
    for bad in ["5.5", "", "v1.0.0", "1.0.0 ", "01.2.3", "1.2.3-", "a.b.c"] {
        assert_eq!(Version::parse(bad), Err(DecodeError::VersionParse { raw: bad.to_string() }));
    }
    let mut root = hero();
    if let Node::Object(members) = &mut root {
        members[2].value = text("5.x");
    }
    assert_eq!(decode(&root), Err(DecodeError::VersionParse { raw: "5.x".to_string() }));
}

#[test]
fn version_from_parts_follows_the_parse_result() {
    assert_eq!(
        Version::from_parts("1.0.0".to_string(), Ok((1, 0, 0, String::new(), String::new()))),
        Ok(Version {
            text: "1.0.0".to_string(),
            major: 1,
            minor: 0,
            patch: 0,
            pre: String::new(),
            build: String::new(),
        })
    );
    let refused = semver::Version::parse("nope").unwrap_err();
    assert_eq!(
        Version::from_parts("nope".to_string(), Err(refused)),
        Err(DecodeError::VersionParse { raw: "nope".to_string() })
    );
    // the parts are taken as they are handed in, whatever the text says
    let v = Version::from_parts("9.9.9".to_string(), Ok((1, 2, 3, "rc".to_string(), "b".to_string())));
    assert_eq!(v.as_ref().map(|v| (v.major, v.minor, v.patch)), Ok((1, 2, 3)));
    assert_eq!(v.as_ref().map(|v| v.text.as_str()), Ok("9.9.9"));
    assert_eq!(v.as_ref().map(|v| (v.pre.as_str(), v.build.as_str())), Ok(("rc", "b")));
}

#[test]
fn document_lacking_a_required_field_is_refused() {
    for (at, field) in [(0, "name"), (1, "version"), (2, "compatibleVersion"), (3, "frameRate")] {
        let mut root = hero();
        if let Node::Object(members) = &mut root {
            members.remove(at);
        }
        assert_eq!(
            decode(&root),
            Err(DecodeError::MissingField { path: vec![], field: field.to_string() })
        );
    }
    let mut root = hero();
    if let Node::Object(members) = &mut root {
        members.remove(4);
    }
    let doc: Skeleton = decode(&root).unwrap();
    assert!(doc.armature.is_empty());
}

#[test]
fn document_round_trips_through_its_tree() {
    let doc = decode(&hero()).unwrap();
    let tree = encode(&doc);
    assert_eq!(decode(&tree), Ok(doc));
}

#[test]
fn pivot_is_a_pair() {
    assert_eq!(
        Point::decode(&list(vec![decimal(0.25), integer(1)])),
        Ok(Point { x: Single { bits: 0.25f32.to_bits() }, y: Single { bits: 1.0f32.to_bits() } })
    );
    assert_eq!(
        Point::decode(&list(vec![decimal(0.25)])),
        Err(DecodeError::ArityViolation { path: vec![], arity: 2, length: 1 })
    );
    assert_eq!(
        Point::decode(&list(vec![integer(1), integer(2), integer(3), integer(4)])),
        Err(DecodeError::ArityViolation { path: vec![], arity: 2, length: 4 })
    );
    assert_eq!(
        Display::decode(&object(vec![("name", text("d")), ("pivot", list(vec![integer(0), text("y")]))])),
        Err(DecodeError::ShapeMismatch {
            path: vec![key("pivot"), Segment::Index(1)],
            expected: Shape::Number,
            actual: Kind::Text
        })
    );
}

use dragonbones::animation::{Animation, AnimationSlotFrame};
use dragonbones::decode::Decode;
use dragonbones::defaults::{
    default_animation_duration, default_animation_loop, default_armature_frame_rate,
    default_display_inherit_fdd, default_display_pivot, default_display_sub_type,
    default_ik_bend_positive, default_ik_chain, default_ik_weight, default_scale,
    default_slot_blend_mode, default_slot_display_index,
};
use dragonbones::document::{decode, encode};
use dragonbones::version::Version;
use dragonbones::geometry::{Color, Matrix, Point, Transform};
use dragonbones::encode::{encode_list, encode_packed, encode_record, Encode};
use dragonbones::node::{Member, Node, Number};
use dragonbones::single::Single;
use dragonbones::skeleton::{Action, AnimationType, Armature, BlendMode, Bone};
use dragonbones::skin::{BoundBoxType, Display, DisplayType, Weight};

fn text(s: &str) -> Node {
    Node::Text(s.to_string())
}

fn integer(v: i128) -> Node {
    Node::Number(Number::Int(v))
}

fn decimal(v: f32) -> Node {
    Node::Number(Number::Real(Single { bits: v.to_bits() }))
}

fn object(entries: Vec<(&str, Node)>) -> Node {
    Node::Object(entries.into_iter().map(|(k, v)| Member { key: k.to_string(), value: v }).collect())
}

fn list(items: Vec<Node>) -> Node {
    Node::List(items)
}

fn single(v: f32) -> Single {
    Single { bits: v.to_bits() }
}

fn rich_document() -> Node {
    let mesh = object(vec![
        ("name", text("cape")),
        ("type", text("mesh")),
        ("path", text("cape.png")),
        ("share", text("")),
        ("inheritFDD", Node::Bool(false)),
        ("transform", object(vec![("x", integer(3)), ("scY", decimal(-1.0))])),
        ("pivot", list(vec![decimal(0.25), decimal(0.75)])),
        ("vertices", list(vec![integer(0), integer(0), integer(10), integer(0), integer(0), integer(10)])),
        ("uvs", list(vec![integer(0), integer(0), integer(1), integer(0), integer(0), integer(1)])),
        ("triangles", list(vec![integer(0), integer(1), integer(2)])),
        ("weights", list(vec![integer(1), integer(0), integer(1), integer(1), integer(1), decimal(0.5)])),
        ("slotPose", list(vec![integer(1), integer(0), integer(0), integer(1), integer(0), integer(0)])),
        ("bonePose", list(vec![integer(0), integer(1), integer(0), integer(0), integer(1), integer(4), integer(5)])),
    ]);
    let bounds = object(vec![
        ("name", text("hit")),
        ("type", text("boundingBox")),
        ("subType", text("hexagon")),
        ("color", integer(255)),
        ("width", integer(20)),
        ("height", integer(30)),
        ("vertices", list(vec![integer(1)])),
    ]);
    let strange = object(vec![("name", text("glow")), ("type", text("shader")), ("extra", Node::Null)]);
    let animation = object(vec![
        ("name", text("walk")),
        ("loop", integer(0)),
        ("duration", integer(12)),
        (
            "frame",
            list(vec![object(vec![
                ("duration", integer(6)),
                ("sound", text("step")),
                (
                    "events",
                    list(vec![object(vec![
                        ("name", text("step")),
                        ("ints", list(vec![integer(1), integer(-2)])),
                        ("floats", list(vec![decimal(1.5)])),
                        ("strings", list(vec![text("left")])),
                    ])]),
                ),
                ("actions", list(vec![list(vec![text("play"), text("dust")])])),
            ])]),
        ),
        (
            "zOrder",
            list(vec![object(vec![(
                "frame",
                list(vec![object(vec![("zOrder", list(vec![integer(0), integer(1)]))])]),
            )])]),
        ),
        (
            "bone",
            list(vec![object(vec![
                ("name", text("leg")),
                ("scale", integer(2)),
                (
                    "frame",
                    list(vec![object(vec![
                        ("tween", object(vec![("curve", list(vec![decimal(0.3), decimal(0.7)]))])),
                        ("transform", object(vec![("skX", decimal(12.5))])),
                    ])]),
                ),
            ])]),
        ),
        (
            "slot",
            list(vec![object(vec![
                ("name", text("foot")),
                (
                    "frame",
                    list(vec![object(vec![
                        ("tweenEasing", decimal(0.5)),
                        ("displayIndex", integer(-1)),
                        ("color", object(vec![("aM", integer(0))])),
                    ])]),
                ),
            ])]),
        ),
        (
            "ffd",
            list(vec![object(vec![
                ("name", text("cape")),
                ("skin", text("base")),
                ("slot", text("back")),
                (
                    "frame",
                    list(vec![object(vec![
                        ("offset", integer(2)),
                        ("vertices", list(vec![decimal(0.5), decimal(0.5)])),
                    ])]),
                ),
            ])]),
        ),
    ]);
    object(vec![
        ("name", text("hero")),
        ("version", text("5.5.0-beta.2+exp.sha.5114f85")),
        ("compatibleVersion", text("5.0.0")),
        ("frameRate", integer(24)),
        ("userData", object(vec![("tags", list(vec![text("a"), Node::Bool(true), Node::Null]))])),
        (
            "armature",
            list(vec![
                object(vec![
                    ("name", text("body")),
                    ("type", text("MovieClip")),
                    ("defaultActions", list(vec![list(vec![text("gotoAndPlay"), text("walk")])])),
                    (
                        "bone",
                        list(vec![
                            object(vec![("name", text("root")), ("parent", text(""))]),
                            object(vec![
                                ("name", text("leg")),
                                ("parent", text("root")),
                                ("userData", integer(7)),
                                ("transform", object(vec![("x", decimal(1.5)), ("scX", integer(2))])),
                            ]),
                        ]),
                    ),
                    (
                        "slot",
                        list(vec![object(vec![
                            ("name", text("back")),
                            ("parent", text("root")),
                            ("displayIndex", integer(1)),
                            ("blendMode", text("multiply")),
                        ])]),
                    ),
                    (
                        "skin",
                        list(vec![object(vec![
                            ("name", text("base")),
                            (
                                "slot",
                                object(vec![
                                    ("name", text("back")),
                                    ("display", list(vec![mesh, bounds, strange])),
                                ]),
                            ),
                        ])]),
                    ),
                    (
                        "ik",
                        list(vec![object(vec![
                            ("name", text("reach")),
                            ("bone", text("leg")),
                            ("target", text("root")),
                            ("bendPositive", Node::Bool(false)),
                            ("chain", integer(1)),
                            ("weight", decimal(0.5)),
                        ])]),
                    ),
                    ("animation", list(vec![animation])),
                ]),
                object(vec![("name", text("prop")), ("frameRate", integer(60))]),
            ]),
        ),
    ])
}

#[test]
fn rich_document_decodes_as_written() {
    let doc = decode(&rich_document()).unwrap();
    assert_eq!(doc.version.pre, "beta.2");
    assert_eq!(doc.version.build, "exp.sha.5114f85");
    assert_eq!(doc.armature.len(), 2);
    let body = &doc.armature[0];
    assert_eq!(body.animation_type, AnimationType::MovieClip);
    assert_eq!(body.frame_rate, single(24.0));
    assert_eq!(doc.armature[1].frame_rate, single(60.0));
    assert_eq!(body.bone[1].user_data, integer(7));
    assert_eq!(body.bone[1].transform.sc_x, single(2.0));
    assert_eq!(body.slot[0].blend_mode.name, "multiply");
    let displays = &body.skin[0].slot.display;
    assert_eq!(displays[0].display_type, DisplayType::Mesh);
    assert_eq!(displays[0].vertices.len(), 3);
    assert!(!displays[0].inherit_fdd);
    assert_eq!(displays[0].pivot, Point { x: single(0.25), y: single(0.75) });
    assert_eq!(displays[1].display_type, DisplayType::BoundingBox);
    assert_eq!(displays[1].sub_type, BoundBoxType::Other("hexagon".to_string()));
    assert!(displays[1].vertices.is_empty());
    assert_eq!(displays[2].display_type, DisplayType::Other("shader".to_string()));
    assert_eq!(body.ik[0].chain, 1);
    let walk = &body.animation[0];
    assert_eq!(walk.frame[0].events[0].ints, vec![1, -2]);
    assert_eq!(walk.bone[0].frame[0].tween.curve, vec![single(0.3), single(0.7)]);
    assert_eq!(walk.slot[0].frame[0].color.a_m, single(0.0));
    assert_eq!(walk.ffd[0].frame[0].offset, 2);
}

#[test]
fn rich_document_round_trips_through_its_tree() {
    let doc = decode(&rich_document()).unwrap();
    let tree = encode(&doc);
    let again = decode(&tree).unwrap();
    assert_eq!(again, doc);
    assert_eq!(encode(&again), tree);
}

#[test]
fn every_entity_of_a_document_round_trips_by_itself() {
    let doc = decode(&rich_document()).unwrap();
    for armature in &doc.armature {
        // read alone, an armature keeps the rate that was written for it
        assert_eq!(Armature::decode(&armature.encode()).as_ref(), Ok(armature));
        for bone in &armature.bone {
            assert_eq!(Bone::decode(&bone.encode()).as_ref(), Ok(bone));
        }
        for skin in &armature.skin {
            for display in &skin.slot.display {
                assert_eq!(Display::decode(&display.encode()).as_ref(), Ok(display));
            }
        }
        for animation in &armature.animation {
            assert_eq!(Animation::decode(&animation.encode()).as_ref(), Ok(animation));
        }
    }
}

#[test]
fn a_transform_is_written_with_every_field_in_order() {
    let t = Transform {
        x: single(1.0),
        y: single(2.0),
        sk_x: single(3.0),
        sk_y: single(4.0),
        sc_x: single(5.0),
        sc_y: single(6.0),
    };
    assert_eq!(
        t.encode(),
        object(vec![
            ("x", decimal(1.0)),
            ("y", decimal(2.0)),
            ("skX", decimal(3.0)),
            ("skY", decimal(4.0)),
            ("scX", decimal(5.0)),
            ("scY", decimal(6.0)),
        ])
    );
    assert_eq!(Transform::decode(&t.encode()), Ok(t));
}

#[test]
fn a_slot_key_frame_is_written_with_its_tween_among_its_fields() {
    let f = AnimationSlotFrame::default();
    let tree = f.encode();
    let keys: Vec<String> = match &tree {
        Node::Object(members) => members.iter().map(|m| m.key.clone()).collect(),
        _ => vec![],
    };
    assert_eq!(
        keys,
        vec!["duration", "tweenType", "tweenEasing", "curve", "displayIndex", "color", "actions"]
    );
    assert_eq!(AnimationSlotFrame::decode(&tree), Ok(f));
}

#[test]
fn scalars_and_tags_are_written_as_they_are_read() {
    assert_eq!(5usize.encode(), integer(5));
    assert_eq!((-5isize).encode(), integer(-5));
    assert_eq!(7u32.encode(), integer(7));
    assert_eq!((-7i32).encode(), integer(-7));
    assert_eq!(true.encode(), Node::Bool(true));
    assert_eq!("abc".to_string().encode(), text("abc"));
    assert_eq!(single(0.5).encode(), decimal(0.5));
    assert_eq!(Node::Null.encode(), Node::Null);
    assert_eq!(AnimationType::Stage.encode(), text("Stage"));
    assert_eq!(AnimationType::MovieClip.encode(), text("MovieClip"));
    assert_eq!(AnimationType::Armature.encode(), text("Armature"));
    assert_eq!(DisplayType::BoundingBox.encode(), text("boundingBox"));
    assert_eq!(DisplayType::Other("x".to_string()).encode(), text("x"));
    assert_eq!(BoundBoxType::Polygon.encode(), text("polygon"));
    assert_eq!(BlendMode { name: "add".to_string() }.encode(), text("add"));
    assert_eq!(Version::parse("1.2.3").unwrap().encode(), text("1.2.3"));
    assert_eq!(
        Action { first: "a".to_string(), second: "b".to_string() }.encode(),
        list(vec![text("a"), text("b")])
    );
}

#[test]
fn lists_are_written_one_for_one_and_packed_lists_record_after_record() {
    assert_eq!(encode_list::<u32>(&vec![3, 1, 2]), list(vec![integer(3), integer(1), integer(2)]));
    assert_eq!(encode_list::<u32>(&vec![]), list(vec![]));
    let points = vec![Point { x: single(1.0), y: single(2.0) }, Point { x: single(3.0), y: single(4.0) }];
    assert_eq!(
        encode_packed::<Point>(&points),
        list(vec![decimal(1.0), decimal(2.0), decimal(3.0), decimal(4.0)])
    );
    let weights = vec![Weight { bone_count: 2, bone_index: 1, weight: single(0.5) }];
    assert_eq!(encode_packed::<Weight>(&weights), list(vec![integer(2), integer(1), decimal(0.5)]));
    let m = Matrix {
        a: single(1.0),
        b: single(2.0),
        c: single(3.0),
        d: single(4.0),
        tx: single(5.0),
        ty: single(6.0),
    };
    assert_eq!(
        encode_record::<Matrix>(&m),
        list(vec![decimal(1.0), decimal(2.0), decimal(3.0), decimal(4.0), decimal(5.0), decimal(6.0)])
    );
}

#[test]
fn a_copy_of_a_tree_is_the_same_tree() {
    let tree = rich_document();
    assert_eq!(tree.copy(), tree);
    assert_eq!(tree.clone(), tree);
    assert_eq!(Node::decode(&tree), Ok(tree));
}

#[test]
fn empty_transform_is_the_identity_and_not_zero() {
    let t = Transform::decode(&object(vec![])).unwrap();
    assert_eq!(t, Transform::default());
    assert_eq!(f32::from_bits(t.sc_x.bits), 1.0);
    assert_eq!(f32::from_bits(t.sc_y.bits), 1.0);
    assert_eq!(f32::from_bits(t.x.bits), 0.0);
    assert_eq!(f32::from_bits(t.y.bits), 0.0);
    assert_eq!(f32::from_bits(t.sk_x.bits), 0.0);
    assert_eq!(f32::from_bits(t.sk_y.bits), 0.0);
    let c = Color::decode(&object(vec![])).unwrap();
    assert_eq!(c, Color::default());
    assert_eq!(f32::from_bits(c.b_m.bits), 100.0);
    assert_eq!(f32::from_bits(c.b_o.bits), 0.0);
}

#[test]
fn constant_defaults_are_those_of_the_format() {
    assert_eq!(f32::from_bits(default_armature_frame_rate().bits), -1.0);
    assert_eq!(default_slot_blend_mode(), BlendMode { name: "normal".to_string() });
    assert_eq!(BlendMode::default(), BlendMode { name: "normal".to_string() });
    assert_eq!(default_display_sub_type(), BoundBoxType::Rectangle);
    assert!(default_ik_bend_positive());
    assert_eq!(default_ik_chain(), 0);
    assert_eq!(f32::from_bits(default_ik_weight().bits), 0.0);
    assert_eq!(default_animation_loop(), 1);
    assert_eq!(f32::from_bits(default_animation_duration().bits), 1.0);
    assert_eq!(f32::from_bits(default_scale().bits), 1.0);
    assert_eq!(default_slot_display_index(), 0);
    let pivot = default_display_pivot();
    assert_eq!((f32::from_bits(pivot.x.bits), f32::from_bits(pivot.y.bits)), (0.5, 0.5));
    assert!(default_display_inherit_fdd());
}

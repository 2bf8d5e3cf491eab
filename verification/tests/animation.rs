use dragonbones::animation::{
    Animation, AnimationBone, AnimationBoneFrame, AnimationFdd, AnimationFddFrame, AnimationFrame,
    AnimationSlot, AnimationSlotFrame, AnimationTween, AnimationZOrder, AnimationZOrderFrame, Event,
    ZOrderOffset,
};
use dragonbones::decode::Decode;
use dragonbones::error::{DecodeError, Kind, Segment, Shape};
use dragonbones::geometry::{Color, Transform};
use dragonbones::node::{Member, Node, Number};
use dragonbones::single::Single;
use dragonbones::skeleton::Action;

fn text(s: &str) -> Node {
    Node::Text(s.to_string())
}

fn integer(v: i128) -> Node {
    Node::Number(Number::Int(v))
}

fn decimal(v: f32) -> Node {
    Node::Number(Number::Real(Single { bits: v.to_bits() }))
}

fn object(entries: Vec<(&str, Node)>) -> Node {
    Node::Object(entries.into_iter().map(|(k, v)| Member { key: k.to_string(), value: v }).collect())
}

fn list(items: Vec<Node>) -> Node {
    Node::List(items)
}

fn single(v: f32) -> Single {
    Single { bits: v.to_bits() }
}

#[test]
fn minimal_animation_plays_once_for_one_frame() {
    let a = Animation::decode(&object(vec![("name", text("walk"))])).unwrap();
    assert_eq!(
        a,
        Animation {
            name: "walk".to_string(),
            loop_number: 1,
            duration: single(1.0),
            frame: vec![],
            z_order: vec![],
            bone: vec![],
            slot: vec![],
            ffd: vec![],
        }
    );
}

#[test]
fn animation_fields_that_are_given_are_kept() {
    let a = Animation::decode(&object(vec![
        ("name", text("walk")),
        ("loop", integer(0)),
        ("duration", integer(40)),
        ("frame", list(vec![object(vec![("sound", text("step.ogg"))])])),
        ("zOrder", list(vec![object(vec![])])),
        ("bone", list(vec![object(vec![("name", text("leg"))])])),
        ("slot", list(vec![object(vec![("name", text("foot"))])])),
        (
            "ffd",
            list(vec![object(vec![
                ("name", text("cape")),
                ("skin", text("base")),
                ("slot", text("back")),
            ])]),
        ),
    ]))
    .unwrap();
    assert_eq!(a.loop_number, 0);
    assert_eq!(a.duration, single(40.0));
    assert_eq!(a.frame.len(), 1);
    assert_eq!(a.frame[0].sound, "step.ogg");
    assert_eq!(a.z_order, vec![AnimationZOrder { frame: vec![] }]);
    assert_eq!(a.bone[0].name, "leg");
    assert_eq!(a.slot[0].name, "foot");
    assert_eq!(
        a.ffd,
        vec![AnimationFdd {
            name: "cape".to_string(),
            skin: "base".to_string(),
            slot: "back".to_string(),
            frame: vec![],
        }]
    );
}

#[test]
fn empty_key_frames_are_the_default_key_frames() {
    let empty = object(vec![]);
    assert_eq!(AnimationFrame::decode(&empty), Ok(AnimationFrame::default()));
    assert_eq!(AnimationZOrderFrame::decode(&empty), Ok(AnimationZOrderFrame::default()));
    assert_eq!(AnimationZOrder::decode(&empty), Ok(AnimationZOrder::default()));
    assert_eq!(AnimationBoneFrame::decode(&empty), Ok(AnimationBoneFrame::default()));
    assert_eq!(AnimationSlotFrame::decode(&empty), Ok(AnimationSlotFrame::default()));
    assert_eq!(AnimationFddFrame::decode(&empty), Ok(AnimationFddFrame::default()));
    assert_eq!(AnimationTween::decode(&empty), Ok(AnimationTween::default()));
    assert_eq!(Event::decode(&empty), Ok(Event::default()));
}

#[test]
fn default_key_frames_last_one_frame() {
    assert_eq!(
        AnimationFrame::default(),
        AnimationFrame { duration: single(1.0), sound: String::new(), events: vec![], actions: vec![] }
    );
    assert_eq!(
        AnimationZOrderFrame::default(),
        AnimationZOrderFrame { duration: single(1.0), z_order: vec![] }
    );
    let tween = AnimationTween { tween_type: 0, tween_easing: single(0.0), curve: vec![] };
    assert_eq!(AnimationTween::default(), tween);
    assert_eq!(
        AnimationBoneFrame::default(),
        AnimationBoneFrame {
            duration: single(1.0),
            tween: tween.clone(),
            transform: Transform::default(),
        }
    );
    assert_eq!(
        AnimationSlotFrame::default(),
        AnimationSlotFrame {
            duration: single(1.0),
            tween: tween.clone(),
            display_index: 0,
            color: Color::default(),
            actions: vec![],
        }
    );
    assert_eq!(
        AnimationFddFrame::default(),
        AnimationFddFrame { duration: single(1.0), tween, offset: 0, vertices: vec![] }
    );
    assert_eq!(
        Event::default(),
        Event {
            name: String::new(),
            bone: String::new(),
            slot: String::new(),
            ints: vec![],
            floats: vec![],
            strings: vec![],
        }
    );
}

#[test]
fn bone_timeline_scale_defaults_to_one_and_offset_to_zero() {
    let b = AnimationBone::decode(&object(vec![("name", text("leg"))])).unwrap();
    assert_eq!(b.scale, single(1.0));
    assert_eq!(b.offset, single(0.0));
    assert!(b.frame.is_empty());
    let b = AnimationBone::decode(&object(vec![
        ("name", text("leg")),
        ("scale", decimal(0.5)),
        ("offset", decimal(0.25)),
        ("frame", list(vec![object(vec![]), object(vec![("duration", integer(3))])])),
    ]))
    .unwrap();
    assert_eq!(b.scale, single(0.5));
    assert_eq!(b.offset, single(0.25));
    assert_eq!(b.frame.len(), 2);
    assert_eq!(b.frame[0].duration, single(1.0));
    assert_eq!(b.frame[1].duration, single(3.0));
}

#[test]
fn bone_key_frame_holds_its_tween_under_a_key_of_its_own() {
    let f = AnimationBoneFrame::decode(&object(vec![
        ("tweenEasing", decimal(0.75)),
        (
            "tween",
            object(vec![
                ("tweenType", integer(2)),
                ("tweenEasing", decimal(0.5)),
                ("curve", list(vec![decimal(0.1), integer(1)])),
            ]),
        ),
        ("transform", object(vec![("x", integer(7))])),
    ]))
    .unwrap();
    assert_eq!(f.tween.tween_type, 2);
    assert_eq!(f.tween.tween_easing, single(0.5));
    assert_eq!(f.tween.curve, vec![single(0.1), single(1.0)]);
    assert_eq!(f.transform.x, single(7.0));
    assert_eq!(f.transform.sc_x, single(1.0));
    assert_eq!(
        AnimationBoneFrame::decode(&object(vec![("tween", object(vec![("tweenType", decimal(1.0))]))])),
        Err(DecodeError::ShapeMismatch {
            path: vec![Segment::Key("tween".to_string()), Segment::Key("tweenType".to_string())],
            expected: Shape::Usize,
            actual: Kind::Real,
        })
    );
}

#[test]
fn slot_and_deformation_key_frames_hold_their_tween_among_their_own_fields() {
    let f = AnimationSlotFrame::decode(&object(vec![
        ("duration", integer(4)),
        ("tweenType", integer(1)),
        ("tweenEasing", decimal(-0.5)),
        ("curve", list(vec![integer(0), integer(1)])),
        ("displayIndex", integer(-1)),
        ("color", object(vec![("gM", integer(20))])),
        ("actions", list(vec![list(vec![text("a"), text("b")])])),
        ("tween", object(vec![("tweenType", integer(9))])),
    ]))
    .unwrap();
    assert_eq!(f.duration, single(4.0));
    assert_eq!(
        f.tween,
        AnimationTween {
            tween_type: 1,
            tween_easing: single(-0.5),
            curve: vec![single(0.0), single(1.0)],
        }
    );
    assert_eq!(f.display_index, -1);
    assert_eq!(f.color.g_m, single(20.0));
    assert_eq!(f.color.a_m, single(100.0));
    assert_eq!(f.actions, vec![Action { first: "a".to_string(), second: "b".to_string() }]);

    let f = AnimationFddFrame::decode(&object(vec![
        ("tweenEasing", integer(1)),
        ("offset", integer(6)),
        ("vertices", list(vec![decimal(0.5), decimal(-0.5), integer(2), integer(3)])),
    ]))
    .unwrap();
    assert_eq!(f.tween.tween_easing, single(1.0));
    assert_eq!(f.tween.tween_type, 0);
    assert_eq!(f.offset, 6);
    assert_eq!(f.vertices.len(), 2);
    assert_eq!((f.vertices[0].x, f.vertices[0].y), (single(0.5), single(-0.5)));
    assert_eq!((f.vertices[1].x, f.vertices[1].y), (single(2.0), single(3.0)));

    assert_eq!(
        AnimationSlotFrame::decode(&object(vec![("curve", text("bezier"))])),
        Err(DecodeError::ShapeMismatch {
            path: vec![Segment::Key("curve".to_string())],
            expected: Shape::List,
            actual: Kind::Text,
        })
    );
}

#[test]
fn deformation_vertices_must_come_in_pairs() {
    assert_eq!(
        AnimationFddFrame::decode(&object(vec![(
            "vertices",
            list(vec![integer(1), integer(2), integer(3)])
        )])),
        Err(DecodeError::ArityViolation {
            path: vec![Segment::Key("vertices".to_string())],
            arity: 2,
            length: 3,
        })
    );
}

#[test]
fn drawing_order_moves_are_pairs_of_slot_and_offset() {
    let f = AnimationZOrderFrame::decode(&object(vec![
        ("duration", integer(2)),
        ("zOrder", list(vec![integer(0), integer(2), integer(3), integer(-1)])),
    ]))
    .unwrap();
    assert_eq!(f.duration, single(2.0));
    assert_eq!(
        f.z_order,
        vec![ZOrderOffset { slot_index: 0, offset: 2 }, ZOrderOffset { slot_index: 3, offset: -1 }]
    );
    assert_eq!(
        AnimationZOrderFrame::decode(&object(vec![("zOrder", list(vec![integer(0)]))])),
        Err(DecodeError::ArityViolation {
            path: vec![Segment::Key("zOrder".to_string())],
            arity: 2,
            length: 1,
        })
    );
    assert_eq!(
        AnimationZOrderFrame::decode(&object(vec![(
            "zOrder",
            list(vec![integer(-1), integer(0)])
        )])),
        Err(DecodeError::ShapeMismatch {
            path: vec![Segment::Key("zOrder".to_string()), Segment::Index(0)],
            expected: Shape::Usize,
            actual: Kind::Int,
        })
    );
}

#[test]
fn events_carry_their_arguments() {
    let e = Event::decode(&object(vec![
        ("name", text("hit")),
        ("bone", text("fist")),
        ("ints", list(vec![integer(-3), integer(4)])),
        ("floats", list(vec![decimal(0.5), integer(2)])),
        ("strings", list(vec![text("a"), text("")])),
    ]))
    .unwrap();
    assert_eq!(e.name, "hit");
    assert_eq!(e.bone, "fist");
    assert_eq!(e.slot, "");
    assert_eq!(e.ints, vec![-3, 4]);
    assert_eq!(e.floats, vec![single(0.5), single(2.0)]);
    assert_eq!(e.strings, vec!["a".to_string(), String::new()]);
}

#[test]
fn timelines_require_their_names() {
    let missing =
        |field: &str| DecodeError::MissingField { path: vec![], field: field.to_string() };
    assert_eq!(AnimationBone::decode(&object(vec![])), Err(missing("name")));
    assert_eq!(AnimationSlot::decode(&object(vec![])), Err(missing("name")));
    assert_eq!(AnimationFdd::decode(&object(vec![])), Err(missing("name")));
    assert_eq!(AnimationFdd::decode(&object(vec![("name", text("m"))])), Err(missing("skin")));
    assert_eq!(
        AnimationFdd::decode(&object(vec![("name", text("m")), ("skin", text("s"))])),
        Err(missing("slot"))
    );
    assert_eq!(
        AnimationSlot::decode(&object(vec![("name", text("s"))])),
        Ok(AnimationSlot { name: "s".to_string(), frame: vec![] })
    );
}

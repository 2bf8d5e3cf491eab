use dragonbones::animation::{Animation, Event};
use dragonbones::decode::{decode_list, decode_packed, Decode};
use dragonbones::document::decode;
use dragonbones::error::{DecodeError, Kind, Segment, Shape};
use dragonbones::geometry::{Matrix, Point, Transform};
use dragonbones::node::{find, Member, Node, Number};
use dragonbones::single::Single;
use dragonbones::skeleton::{Action, Bone, Ik, Slot};
use dragonbones::skin::{BonePose, Display, Skin, Weight};

fn text(s: &str) -> Node {
    Node::Text(s.to_string())
}

fn integer(v: i128) -> Node {
    Node::Number(Number::Int(v))
}

fn decimal(v: f32) -> Node {
    Node::Number(Number::Real(Single { bits: v.to_bits() }))
}

fn object(entries: Vec<(&str, Node)>) -> Node {
    Node::Object(entries.into_iter().map(|(k, v)| Member { key: k.to_string(), value: v }).collect())
}

fn list(items: Vec<Node>) -> Node {
    Node::List(items)
}

fn key(k: &str) -> Segment {
    Segment::Key(k.to_string())
}

fn mismatch(path: Vec<Segment>, expected: Shape, actual: Kind) -> DecodeError {
    DecodeError::ShapeMismatch { path, expected, actual }
}

fn missing(path: Vec<Segment>, field: &str) -> DecodeError {
    DecodeError::MissingField { path, field: field.to_string() }
}

#[test]
fn missing_required_fields_are_named() {
    assert_eq!(Bone::decode(&object(vec![("name", text("arm"))])), Err(missing(vec![], "parent")));
    assert_eq!(Bone::decode(&object(vec![("parent", text("root"))])), Err(missing(vec![], "name")));
    assert_eq!(Bone::decode(&object(vec![])), Err(missing(vec![], "name")));
    assert_eq!(Slot::decode(&object(vec![("name", text("s"))])), Err(missing(vec![], "parent")));
    assert_eq!(
        Ik::decode(&object(vec![("name", text("k")), ("target", text("t"))])),
        Err(missing(vec![], "bone"))
    );
    assert_eq!(
        Ik::decode(&object(vec![("name", text("k")), ("bone", text("b"))])),
        Err(missing(vec![], "target"))
    );
    assert_eq!(Skin::decode(&object(vec![("name", text("k"))])), Err(missing(vec![], "slot")));
    assert_eq!(
        Skin::decode(&object(vec![("name", text("k")), ("slot", object(vec![]))])),
        Err(missing(vec![key("slot")], "name"))
    );
    assert_eq!(Display::decode(&object(vec![])), Err(missing(vec![], "name")));
    assert_eq!(Animation::decode(&object(vec![])), Err(missing(vec![], "name")));
}

#[test]
fn a_value_of_the_wrong_kind_is_reported_with_both_kinds() {
    assert_eq!(Bone::decode(&list(vec![])), Err(mismatch(vec![], Shape::Object, Kind::List)));
    assert_eq!(Bone::decode(&Node::Null), Err(mismatch(vec![], Shape::Object, Kind::Null)));
    assert_eq!(
        Bone::decode(&object(vec![("name", integer(5)), ("parent", text(""))])),
        Err(mismatch(vec![key("name")], Shape::Text, Kind::Int))
    );
    assert_eq!(
        Transform::decode(&object(vec![("skX", text("1"))])),
        Err(mismatch(vec![key("skX")], Shape::Number, Kind::Text))
    );
    assert_eq!(
        Transform::decode(&object(vec![("scY", Node::Null)])),
        Err(mismatch(vec![key("scY")], Shape::Number, Kind::Null))
    );
    assert_eq!(
        Display::decode(&object(vec![("name", text("d")), ("inheritFDD", integer(1))])),
        Err(mismatch(vec![key("inheritFDD")], Shape::Bool, Kind::Int))
    );
    assert_eq!(
        Slot::decode(&object(vec![
            ("name", text("s")),
            ("parent", text("b")),
            ("actions", object(vec![])),
        ])),
        Err(mismatch(vec![key("actions")], Shape::List, Kind::Object))
    );
}

#[test]
fn integers_must_be_written_as_integers_and_fit() {
    let ik = |chain: Node| {
        Ik::decode(&object(vec![
            ("name", text("k")),
            ("bone", text("b")),
            ("target", text("t")),
            ("chain", chain),
        ]))
    };
    assert_eq!(ik(integer(3)).unwrap().chain, 3);
    assert_eq!(ik(integer(-1)), Err(mismatch(vec![key("chain")], Shape::Usize, Kind::Int)));
    assert_eq!(ik(decimal(3.0)), Err(mismatch(vec![key("chain")], Shape::Usize, Kind::Real)));
    assert_eq!(
        ik(integer(usize::MAX as i128 + 1)),
        Err(mismatch(vec![key("chain")], Shape::Usize, Kind::Int))
    );
    assert_eq!(ik(integer(usize::MAX as i128)).unwrap().chain, usize::MAX);

    let slot = |index: Node| {
        Slot::decode(&object(vec![
            ("name", text("s")),
            ("parent", text("b")),
            ("displayIndex", index),
        ]))
    };
    assert_eq!(slot(integer(isize::MIN as i128)).unwrap().display_index, isize::MIN);
    assert_eq!(slot(integer(isize::MAX as i128)).unwrap().display_index, isize::MAX);
    assert_eq!(
        slot(integer(isize::MAX as i128 + 1)),
        Err(mismatch(vec![key("displayIndex")], Shape::Isize, Kind::Int))
    );
    assert_eq!(
        slot(integer(isize::MIN as i128 - 1)),
        Err(mismatch(vec![key("displayIndex")], Shape::Isize, Kind::Int))
    );

    let display = |color: Node| Display::decode(&object(vec![("name", text("d")), ("color", color)]));
    assert_eq!(display(integer(u32::MAX as i128)).unwrap().color, u32::MAX);
    assert_eq!(
        display(integer(u32::MAX as i128 + 1)),
        Err(mismatch(vec![key("color")], Shape::U32, Kind::Int))
    );

    let event = |ints: Vec<Node>| Event::decode(&object(vec![("ints", list(ints))]));
    assert_eq!(
        event(vec![integer(i32::MIN as i128), integer(i32::MAX as i128)]).unwrap().ints,
        vec![i32::MIN, i32::MAX]
    );
    assert_eq!(
        event(vec![integer(0), integer(i32::MAX as i128 + 1)]),
        Err(mismatch(vec![key("ints"), Segment::Index(1)], Shape::I32, Kind::Int))
    );
    assert_eq!(
        event(vec![integer(i32::MIN as i128 - 1)]),
        Err(mismatch(vec![key("ints"), Segment::Index(0)], Shape::I32, Kind::Int))
    );
}

#[test]
fn packed_lists_of_the_wrong_length_are_arity_violations() {
    let mesh = |field: &str, n: usize| {
        Display::decode(&object(vec![
            ("name", text("m")),
            ("type", text("mesh")),
            (field, list((0..n).map(|i| integer(i as i128)).collect())),
        ]))
    };
    for (field, arity) in
        [("vertices", 2), ("uvs", 2), ("weights", 3), ("slotPose", 6), ("bonePose", 7)]
    {
        for n in 0..30usize {
            let got = mesh(field, n);
            if n % arity == 0 {
                assert!(got.is_ok(), "{} {}", field, n);
            } else {
                assert_eq!(
                    got,
                    Err(DecodeError::ArityViolation { path: vec![key(field)], arity, length: n }),
                );
            }
        }
    }
    assert_eq!(mesh("vertices", 6).unwrap().vertices.len(), 3);
    assert_eq!(mesh("weights", 6).unwrap().weights.len(), 2);
    assert_eq!(mesh("slotPose", 12).unwrap().slot_pose.len(), 2);
    assert_eq!(mesh("bonePose", 21).unwrap().bone_pose.len(), 3);
}

#[test]
fn the_length_of_a_packed_list_is_checked_before_its_values() {
    let bad = vec![text("x"), integer(1), integer(2)];
    assert_eq!(
        decode_packed::<Point>(&bad),
        Err(DecodeError::ArityViolation { path: vec![], arity: 2, length: 3 })
    );
    assert_eq!(
        decode_packed::<Matrix>(&bad),
        Err(DecodeError::ArityViolation { path: vec![], arity: 6, length: 3 })
    );
    assert_eq!(
        decode_packed::<BonePose>(&bad),
        Err(DecodeError::ArityViolation { path: vec![], arity: 7, length: 3 })
    );
    assert_eq!(
        decode_packed::<Weight>(&bad),
        Err(mismatch(vec![Segment::Index(0)], Shape::Usize, Kind::Text))
    );
}

#[test]
fn a_bad_value_in_a_packed_list_is_found_at_its_position() {
    let items: Vec<Node> =
        vec![integer(1), integer(2), decimal(0.5), integer(1), decimal(2.0), decimal(0.5)];
    assert_eq!(
        decode_packed::<Weight>(&items),
        Err(mismatch(vec![Segment::Index(4)], Shape::Usize, Kind::Real))
    );
    let items: Vec<Node> = vec![integer(1), integer(2), integer(3), Node::Bool(false)];
    assert_eq!(
        decode_packed::<Point>(&items),
        Err(mismatch(vec![Segment::Index(3)], Shape::Number, Kind::Bool))
    );
    assert_eq!(decode_packed::<Point>(&Vec::new()), Ok(vec![]));
}

#[test]
fn the_first_failure_in_field_order_is_the_result() {
    // `parent` comes before `transform`: its absence is reported, not the bad transform
    assert_eq!(
        Bone::decode(&object(vec![("transform", integer(1)), ("name", text("b"))])),
        Err(missing(vec![], "parent"))
    );
    // within a list, the first failing element
    let bones = vec![
        object(vec![("name", text("a")), ("parent", text(""))]),
        object(vec![("name", text("b"))]),
        object(vec![]),
    ];
    assert_eq!(decode_list::<Bone>(&bones), Err(missing(vec![Segment::Index(1)], "parent")));
    // `x` is read before `y`
    assert_eq!(
        Transform::decode(&object(vec![("y", Node::Null), ("x", text("far"))])),
        Err(mismatch(vec![key("x")], Shape::Number, Kind::Text))
    );
}

#[test]
fn a_failure_deep_in_a_document_carries_the_whole_path() {
    let root = object(vec![
        ("name", text("hero")),
        ("version", text("5.5.0")),
        ("compatibleVersion", text("5.5.0")),
        ("frameRate", integer(24)),
        (
            "armature",
            list(vec![
                object(vec![("name", text("first"))]),
                object(vec![
                    ("name", text("second")),
                    (
                        "bone",
                        list(vec![
                            object(vec![("name", text("root")), ("parent", text(""))]),
                            object(vec![
                                ("name", text("arm")),
                                ("parent", text("root")),
                                ("transform", object(vec![("scX", text("wide"))])),
                            ]),
                        ]),
                    ),
                ]),
            ]),
        ),
    ]);
    assert_eq!(
        decode(&root),
        Err(mismatch(
            vec![
                key("armature"),
                Segment::Index(1),
                key("bone"),
                Segment::Index(1),
                key("transform"),
                key("scX"),
            ],
            Shape::Number,
            Kind::Text,
        ))
    );
}

#[test]
fn a_missing_field_deep_in_a_document_names_the_entity() {
    let root = object(vec![
        ("name", text("hero")),
        ("version", text("5.5.0")),
        ("compatibleVersion", text("5.5.0")),
        ("frameRate", integer(24)),
        (
            "armature",
            list(vec![object(vec![
                ("name", text("body")),
                ("skin", list(vec![object(vec![
                    ("name", text("base")),
                    ("slot", object(vec![
                        ("name", text("hand")),
                        ("display", list(vec![object(vec![("type", text("image"))])])),
                    ])),
                ])])),
            ])]),
        ),
    ]);
    assert_eq!(
        decode(&root),
        Err(missing(
            vec![
                key("armature"),
                Segment::Index(0),
                key("skin"),
                Segment::Index(0),
                key("slot"),
                key("display"),
                Segment::Index(0),
            ],
            "name",
        ))
    );
}

#[test]
fn document_shape_failures() {
    assert_eq!(decode(&list(vec![])), Err(mismatch(vec![], Shape::Object, Kind::List)));
    let with = |field: &str, value: Node| {
        let mut entries = vec![
            ("name", text("hero")),
            ("version", text("5.5.0")),
            ("compatibleVersion", text("5.5.0")),
            ("frameRate", integer(24)),
        ];
        entries.retain(|(k, _)| *k != field);
        entries.insert(0, (field, value));
        decode(&object(entries))
    };
    assert_eq!(
        with("version", integer(5)),
        Err(mismatch(vec![key("version")], Shape::Text, Kind::Int))
    );
    assert_eq!(
        with("frameRate", text("24")),
        Err(mismatch(vec![key("frameRate")], Shape::Number, Kind::Text))
    );
    assert_eq!(
        with("armature", object(vec![])),
        Err(mismatch(vec![key("armature")], Shape::List, Kind::Object))
    );
    assert_eq!(
        with("armature", list(vec![Node::Null])),
        Err(mismatch(vec![key("armature"), Segment::Index(0)], Shape::Object, Kind::Null))
    );
    assert_eq!(
        with("version", text("5.5")),
        Err(DecodeError::VersionParse { raw: "5.5".to_string() })
    );
    assert_eq!(
        with("compatibleVersion", text("latest")),
        Err(DecodeError::VersionParse { raw: "latest".to_string() })
    );
    assert!(with("userData", list(vec![integer(1), text("two")])).is_ok());
}

#[test]
fn an_action_is_two_texts() {
    assert_eq!(
        Action::decode(&list(vec![text("play"), text("run")])),
        Ok(Action { first: "play".to_string(), second: "run".to_string() })
    );
    assert_eq!(
        Action::decode(&list(vec![text("play")])),
        Err(DecodeError::ArityViolation { path: vec![], arity: 2, length: 1 })
    );
    assert_eq!(
        Action::decode(&list(vec![text("play"), integer(2)])),
        Err(mismatch(vec![Segment::Index(1)], Shape::Text, Kind::Int))
    );
    assert_eq!(Action::decode(&text("play")), Err(mismatch(vec![], Shape::List, Kind::Text)));
    assert_eq!(Action::default(), Action { first: String::new(), second: String::new() });
}

#[test]
fn errors_move_outwards_step_by_step() {
    let e = DecodeError::missing("name");
    assert_eq!(e, missing(vec![], "name"));
    let e = e.under_index(2).under_key("bone");
    assert_eq!(e, missing(vec![key("bone"), Segment::Index(2)], "name"));
    let e = DecodeError::arity(3, 4).within(Segment::Key("weights".to_string()));
    assert_eq!(e, DecodeError::ArityViolation { path: vec![key("weights")], arity: 3, length: 4 });
    let e = DecodeError::mismatch(Shape::Bool, Kind::Null).under_key("flag").under_index(0);
    assert_eq!(e, mismatch(vec![Segment::Index(0), key("flag")], Shape::Bool, Kind::Null));
    let v = DecodeError::VersionParse { raw: "x".to_string() };
    assert_eq!(v.clone().under_key("version"), v);
}

#[test]
fn find_gives_the_first_entry_of_a_key() {
    let members = vec![
        Member { key: "a".to_string(), value: integer(1) },
        Member { key: "b".to_string(), value: integer(2) },
        Member { key: "a".to_string(), value: integer(3) },
        Member { key: "".to_string(), value: integer(4) },
    ];
    assert_eq!(find(&members, "a"), Some(&integer(1)));
    assert_eq!(find(&members, "b"), Some(&integer(2)));
    assert_eq!(find(&members, ""), Some(&integer(4)));
    assert_eq!(find(&members, "A"), None);
    assert_eq!(find(&Vec::new(), "a"), None);
}

#[test]
fn kinds_are_reported_as_they_are() {
    assert_eq!(Node::Null.kind(), Kind::Null);
    assert_eq!(Node::Bool(true).kind(), Kind::Bool);
    assert_eq!(integer(1).kind(), Kind::Int);
    assert_eq!(decimal(1.0).kind(), Kind::Real);
    assert_eq!(text("").kind(), Kind::Text);
    assert_eq!(list(vec![]).kind(), Kind::List);
    assert_eq!(object(vec![]).kind(), Kind::Object);
}

//! The skeleton itself: armatures with their bones, slots and constraints.

use vstd::prelude::*;
use crate::animation::{Animation, AnimationView};
use crate::decode::{
    decode_record, decoded_record, element, field, field_or, list_field, members_of, read, read_at,
    read_list, read_or, views, Decode, Packed,
};
use crate::defaults::{
    default_armature_frame_rate, default_ik_bend_positive, default_ik_chain, default_ik_weight,
    default_slot_blend_mode, default_slot_display_index,
};
use crate::encode::{
    all_regular, encode_list, encode_record, encoded_list, lemma_list_field_regular,
    lemma_list_round_trip, lemma_lookup_at, lemma_record_round_trip, object, put, Encode, Pack,
};
use crate::error::{outcome, DecodeError, ErrorView, Kind, Shape};
use crate::geometry::{Color, Transform};
use crate::node::{items_view, kind_of, lookup, Member, Node, NodeView};
use crate::scalar::same_text;
use crate::single::{Single, MINUS_ONE_BITS, ZERO_BITS};
use crate::skin::{Skin, SkinView};

verus! {

/// A behaviour to run, as the format writes it: a pair of texts, passed on as they are.
#[derive(Clone, Debug, PartialEq, Eq)]
pub struct Action {
    /// The first text of the pair.
    pub first: String,
    /// The second text of the pair.
    pub second: String,
}

/// The mathematical value of an [`Action`].
pub struct ActionView {
    pub first: Seq<char>,
    pub second: Seq<char>,
}

impl View for Action {
    type V = ActionView;

    open spec fn view(&self) -> ActionView {
        ActionView {
            first: self.first@,
            second: self.second@,
        }
    }
}

impl Action {
    /// The action that names nothing: two empty texts.
    pub open spec fn initial() -> ActionView {
        ActionView {
            first: Seq::empty(),
            second: Seq::empty(),
        }
    }
}

impl Default for Action {
    fn default() -> (r: Action)
        ensures
            r@ == Action::initial(),
    {
        Action {
            first: String::new(),
            second: String::new(),
        }
    }
}

impl Packed for Action {
    open spec fn arity() -> nat {
        2
    }

    /// Two neighbouring values of the list, read in this order: `first`, `second`. The first of
    /// them that fails is the result.
    open spec fn unpacked(items: Seq<NodeView>, at: int) -> Result<ActionView, ErrorView> {
        let first = element::<String>(items, at);
        let second = element::<String>(items, at + 1);
        if first is Err {
            Err(first->Err_0)
        } else if second is Err {
            Err(second->Err_0)
        } else {
            Ok(ActionView { first: first->Ok_0, second: second->Ok_0 })
        }
    }

    fn width() -> (w: usize)
        ensures
            w == 2,
    {
        2
    }

    fn unpack(items: &Vec<Node>, at: usize) -> (r: Result<Action, DecodeError>)
        ensures
            outcome(r) == Self::unpacked(items_view(items@), at as int),
    {
        let first = read_at::<String>(items, at)?;
        let second = read_at::<String>(items, at + 1)?;
        Ok(Action { first, second })
    }
}

impl Pack for Action {
    open spec fn packed(v: ActionView) -> Seq<NodeView> {
        seq![
            String::encoded(v.first),
            String::encoded(v.second),
        ]
    }

    fn pack(&self, out: &mut Vec<Node>)
        ensures
            items_view(final(out)@) == items_view(old(out)@) + Self::packed(self@),
    {
        out.push(self.first.encode());
        out.push(self.second.encode());
        assert(items_view(out@) =~= items_view(old(out)@) + Self::packed(self@));
    }

    proof fn lemma_packed_len(v: ActionView) {
    }

    proof fn lemma_unpack_packed(items: Seq<NodeView>, at: int, v: ActionView) {
        let part = items.subrange(at, at + 2);
        assert(items[at] == part[0]);
        assert(items[at + 1] == part[1]);
    }
}

impl Decode for Action {
    /// A list of exactly two texts.
    open spec fn decoded(n: NodeView) -> Result<ActionView, ErrorView> {
        decoded_record::<Action>(n)
    }

    fn decode(node: &Node) -> (r: Result<Action, DecodeError>)
        ensures
            outcome(r) == Self::decoded(node@),
    {
        decode_record::<Action>(node)
    }
}

impl Encode for Action {
    open spec fn regular(v: ActionView) -> bool {
        true
    }

    open spec fn encoded(v: ActionView) -> NodeView {
        NodeView::List(Self::packed(v))
    }

    fn encode(&self) -> (n: Node)
        ensures
            n@ == Self::encoded(self@),
    {
        encode_record::<Action>(self)
    }

    proof fn decoded_is_regular(n: NodeView) {
    }

    proof fn round_trip(v: ActionView) {
        lemma_record_round_trip::<Action>(v);
    }
}

/// How a slot is blended with what lies under it. The format gives the mode a name,
/// and this library passes the name on without reading a meaning into it.
#[derive(Clone, Debug, PartialEq, Eq)]
pub struct BlendMode {
    /// The name of the mode; `normal` where none is given.
    pub name: String,
}

/// The mathematical value of a [`BlendMode`].
pub struct BlendModeView {
    pub name: Seq<char>,
}

impl View for BlendMode {
    type V = BlendModeView;

    open spec fn view(&self) -> BlendModeView {
        BlendModeView { name: self.name@ }
    }
}

impl BlendMode {
    /// The mode of a slot that names none: `normal`.
    pub open spec fn initial() -> BlendModeView {
        BlendModeView { name: "normal"@ }
    }
}

impl Default for BlendMode {
    fn default() -> (r: BlendMode)
        ensures
            r@ == BlendMode::initial(),
    {
        BlendMode { name: "normal".to_owned() }
    }
}

impl Decode for BlendMode {
    /// A text, taken as the name of the mode.
    open spec fn decoded(n: NodeView) -> Result<BlendModeView, ErrorView> {
        match n {
            NodeView::Text(name) => Ok(BlendModeView { name }),
            _ => Err(ErrorView::mismatch(Shape::Text, kind_of(n))),
        }
    }

    fn decode(node: &Node) -> (r: Result<BlendMode, DecodeError>)
        ensures
            outcome(r) == Self::decoded(node@),
    {
        match node {
            Node::Text(name) => Ok(BlendMode { name: name.clone() }),
            _ => Err(DecodeError::mismatch(Shape::Text, node.kind())),
        }
    }
}

impl Encode for BlendMode {
    open spec fn regular(v: BlendModeView) -> bool {
        true
    }

    open spec fn encoded(v: BlendModeView) -> NodeView {
        NodeView::Text(v.name)
    }

    fn encode(&self) -> (n: Node)
        ensures
            n@ == Self::encoded(self@),
    {
        Node::Text(self.name.clone())
    }

    proof fn decoded_is_regular(n: NodeView) {
    }

    proof fn round_trip(v: BlendModeView) {
    }
}

/// What kind of animation an armature is.
#[derive(Clone, Copy, Debug, PartialEq, Eq, Structural)]
pub enum AnimationType {
    /// A skeleton animation.
    Armature,
    /// A basic, frame-by-frame animation.
    MovieClip,
    /// A stage animation.
    Stage,
}

impl View for AnimationType {
    type V = AnimationType;

    open spec fn view(&self) -> AnimationType {
        *self
    }
}

impl Decode for AnimationType {
    /// One of the texts `Armature`, `MovieClip` and `Stage`; any other text is refused as
    /// a value of the wrong shape.
    open spec fn decoded(n: NodeView) -> Result<AnimationType, ErrorView> {
        match n {
            NodeView::Text(tag) => if tag == "Armature"@ {
                Ok(AnimationType::Armature)
            } else if tag == "MovieClip"@ {
                Ok(AnimationType::MovieClip)
            } else if tag == "Stage"@ {
                Ok(AnimationType::Stage)
            } else {
                Err(ErrorView::mismatch(Shape::AnimationType, Kind::Text))
            },
            _ => Err(ErrorView::mismatch(Shape::AnimationType, kind_of(n))),
        }
    }

    fn decode(node: &Node) -> (r: Result<AnimationType, DecodeError>)
        ensures
            outcome(r) == Self::decoded(node@),
    {
        match node {
            Node::Text(tag) => {
                if same_text(tag, "Armature") {
                    Ok(AnimationType::Armature)
                } else if same_text(tag, "MovieClip") {
                    Ok(AnimationType::MovieClip)
                } else if same_text(tag, "Stage") {
                    Ok(AnimationType::Stage)
                } else {
                    Err(DecodeError::mismatch(Shape::AnimationType, Kind::Text))
                }
            },
            _ => Err(DecodeError::mismatch(Shape::AnimationType, node.kind())),
        }
    }
}

impl Encode for AnimationType {
    open spec fn regular(v: AnimationType) -> bool {
        true
    }

    open spec fn encoded(v: AnimationType) -> NodeView {
        match v {
            AnimationType::Armature => NodeView::Text("Armature"@),
            AnimationType::MovieClip => NodeView::Text("MovieClip"@),
            AnimationType::Stage => NodeView::Text("Stage"@),
        }
    }

    fn encode(&self) -> (n: Node)
        ensures
            n@ == Self::encoded(self@),
    {
        match self {
            AnimationType::Armature => Node::Text("Armature".to_owned()),
            AnimationType::MovieClip => Node::Text("MovieClip".to_owned()),
            AnimationType::Stage => Node::Text("Stage".to_owned()),
        }
    }

    proof fn decoded_is_regular(n: NodeView) {
    }

    proof fn round_trip(v: AnimationType) {
        reveal_strlit("Armature");
        assert("Armature"@.len() == 8);
        reveal_strlit("MovieClip");
        assert("MovieClip"@.len() == 9);
        reveal_strlit("Stage");
        assert("Stage"@.len() == 5);
    }
}

/// One joint of the skeleton. Bones form a tree by naming their parent.
#[derive(Clone, Debug, PartialEq, Eq)]
pub struct Bone {
    /// The bone's name.
    pub name: String,
    /// The name of the parent bone, kept as it was found; empty for a root bone.
    pub parent: String,
    /// Custom data, kept as it was found.
    pub user_data: Node,
    /// The bind pose, relative to the parent; the identity where it is not given.
    pub transform: Transform,
}

/// The mathematical value of a [`Bone`].
pub struct BoneView {
    pub name: Seq<char>,
    pub parent: Seq<char>,
    pub user_data: NodeView,
    pub transform: Transform,
}

impl View for Bone {
    type V = BoneView;

    open spec fn view(&self) -> BoneView {
        BoneView {
            name: self.name@,
            parent: self.parent@,
            user_data: self.user_data@,
            transform: self.transform,
        }
    }
}

impl Decode for Bone {
    /// An object. It must hold `name`, `parent`; every other field that it lacks takes its
    /// default, and a list that it lacks is empty. The fields are read in the order in which
    /// they are declared, and the first failure is the result.
    open spec fn decoded(n: NodeView) -> Result<BoneView, ErrorView> {
        match n {
            NodeView::Object(m) => {
                let name = field::<String>(m, "name"@);
                let parent = field::<String>(m, "parent"@);
                let user_data = field_or::<Node>(m, "userData"@, NodeView::Null);
                let transform = field_or::<Transform>(m, "transform"@, Transform::initial());
                if name is Err {
                    Err(name->Err_0)
                } else if parent is Err {
                    Err(parent->Err_0)
                } else if user_data is Err {
                    Err(user_data->Err_0)
                } else if transform is Err {
                    Err(transform->Err_0)
                } else {
                    Ok(
                        BoneView {
                            name: name->Ok_0,
                            parent: parent->Ok_0,
                            user_data: user_data->Ok_0,
                            transform: transform->Ok_0,
                        },
                    )
                }
            },
            _ => Err(ErrorView::mismatch(Shape::Object, kind_of(n))),
        }
    }

    fn decode(node: &Node) -> (r: Result<Bone, DecodeError>)
        ensures
            outcome(r) == Self::decoded(node@),
    {
        let m = members_of(node)?;
        let name = read::<String>(m, "name")?;
        let parent = read::<String>(m, "parent")?;
        let user_data = read_or::<Node>(m, "userData", Node::Null)?;
        let transform = read_or::<Transform>(m, "transform", Transform::default())?;
        Ok(Bone { name, parent, user_data, transform })
    }
}

impl Encode for Bone {
    open spec fn regular(v: BoneView) -> bool {
        true
    }

    open spec fn encoded(v: BoneView) -> NodeView {
        NodeView::Object(
            seq![
                ("name"@, String::encoded(v.name)),
                ("parent"@, String::encoded(v.parent)),
                ("userData"@, Node::encoded(v.user_data)),
                ("transform"@, Transform::encoded(v.transform)),
            ],
        )
    }

    fn encode(&self) -> (n: Node)
        ensures
            n@ == Self::encoded(self@),
    {
        let mut m: Vec<Member> = Vec::new();
        put(&mut m, "name", self.name.encode());
        put(&mut m, "parent", self.parent.encode());
        put(&mut m, "userData", self.user_data.encode());
        put(&mut m, "transform", self.transform.encode());
        let n = object(m);
        assert(n@->Object_0 =~= Self::encoded(self@)->Object_0);
        n
    }

    proof fn decoded_is_regular(n: NodeView) {
    }

    proof fn round_trip(v: BoneView) {
        let m = Self::encoded(v)->Object_0;
        lemma_bone_lookups(v);
        String::round_trip(v.name);
        String::round_trip(v.parent);
        Node::round_trip(v.user_data);
        Transform::round_trip(v.transform);
    }
}

/// In the object written for a bone, each key is found, and with the value written for it.
proof fn lemma_bone_lookups(v: BoneView)
    ensures
        lookup(Bone::encoded(v)->Object_0, "name"@) == Some(String::encoded(v.name)),
        lookup(Bone::encoded(v)->Object_0, "parent"@) == Some(String::encoded(v.parent)),
        lookup(Bone::encoded(v)->Object_0, "userData"@) == Some(Node::encoded(v.user_data)),
        lookup(Bone::encoded(v)->Object_0, "transform"@) == Some(Transform::encoded(v.transform)),
{
    let m = Bone::encoded(v)->Object_0;
    reveal_strlit("name");
    assert("name"@.len() == 4);
    reveal_strlit("parent");
    assert("parent"@.len() == 6);
    reveal_strlit("userData");
    assert("userData"@.len() == 8);
    reveal_strlit("transform");
    assert("transform"@.len() == 9);
    lemma_lookup_at(m, "name"@, 0);
    lemma_lookup_at(m, "parent"@, 1);
    lemma_lookup_at(m, "userData"@, 2);
    lemma_lookup_at(m, "transform"@, 3);
}

/// An object that holds the fields that a bone must have, rightly shaped, and none of the
/// optional ones decodes to a bone in which every optional field has its default.
pub proof fn law_minimal_bone(
    m: Seq<(Seq<char>, NodeView)>,
    name: Seq<char>,
    parent: Seq<char>,
)
    requires
        lookup(m, "name"@) == Some(NodeView::Text(name)),
        lookup(m, "parent"@) == Some(NodeView::Text(parent)),
        lookup(m, "userData"@) is None,
        lookup(m, "transform"@) is None,
    ensures
        Bone::decoded(NodeView::Object(m)) == Ok::<BoneView, ErrorView>(
            BoneView {
                name,
                parent,
                user_data: NodeView::Null,
                transform: Transform::initial(),
            },
        ),
{
}

/// An object that lacks `name` is refused as a bone, for the lack of `name`, whatever else it
/// holds.
pub proof fn law_bone_requires_name(m: Seq<(Seq<char>, NodeView)>)
    requires
        lookup(m, "name"@) is None,
    ensures
        Bone::decoded(NodeView::Object(m)) == Err::<BoneView, ErrorView>(
            ErrorView::missing("name"@),
        ),
{
}

/// An object that holds `name`, rightly shaped, and lacks `parent` is refused as a bone, for
/// the lack of `parent`.
pub proof fn law_bone_requires_parent(m: Seq<(Seq<char>, NodeView)>)
    requires
        field::<String>(m, "name"@) is Ok,
        lookup(m, "parent"@) is None,
    ensures
        Bone::decoded(NodeView::Object(m)) == Err::<BoneView, ErrorView>(
            ErrorView::missing("parent"@),
        ),
{
}

/// A place on a bone where a display object is drawn.
#[derive(Clone, Debug, PartialEq, Eq)]
pub struct Slot {
    /// The slot's name.
    pub name: String,
    /// The name of the bone that the slot sits on, kept as it was found.
    pub parent: String,
    /// Which display object is shown at first; 0 where it is not given.
    pub display_index: isize,
    /// The blend mode; `normal` where it is not given.
    pub blend_mode: BlendMode,
    /// Custom data, kept as it was found.
    pub user_data: Node,
    /// The colour overlay; the one that changes nothing where it is not given.
    pub color: Color,
    /// The behaviours that run when the slot comes on stage.
    pub actions: Vec<Action>,
}

/// The mathematical value of a [`Slot`].
pub struct SlotView {
    pub name: Seq<char>,
    pub parent: Seq<char>,
    pub display_index: isize,
    pub blend_mode: BlendModeView,
    pub user_data: NodeView,
    pub color: Color,
    pub actions: Seq<ActionView>,
}

impl View for Slot {
    type V = SlotView;

    open spec fn view(&self) -> SlotView {
        SlotView {
            name: self.name@,
            parent: self.parent@,
            display_index: self.display_index,
            blend_mode: self.blend_mode@,
            user_data: self.user_data@,
            color: self.color,
            actions: views(self.actions@),
        }
    }
}

impl Decode for Slot {
    /// An object. It must hold `name`, `parent`; every other field that it lacks takes its
    /// default, and a list that it lacks is empty. The fields are read in the order in which
    /// they are declared, and the first failure is the result.
    open spec fn decoded(n: NodeView) -> Result<SlotView, ErrorView> {
        match n {
            NodeView::Object(m) => {
                let name = field::<String>(m, "name"@);
                let parent = field::<String>(m, "parent"@);
                let display_index = field_or::<isize>(m, "displayIndex"@, 0);
                let blend_mode = field_or::<BlendMode>(m, "blendMode"@, BlendMode::initial());
                let user_data = field_or::<Node>(m, "userData"@, NodeView::Null);
                let color = field_or::<Color>(m, "color"@, Color::initial());
                let actions = list_field::<Action>(m, "actions"@);
                if name is Err {
                    Err(name->Err_0)
                } else if parent is Err {
                    Err(parent->Err_0)
                } else if display_index is Err {
                    Err(display_index->Err_0)
                } else if blend_mode is Err {
                    Err(blend_mode->Err_0)
                } else if user_data is Err {
                    Err(user_data->Err_0)
                } else if color is Err {
                    Err(color->Err_0)
                } else if actions is Err {
                    Err(actions->Err_0)
                } else {
                    Ok(
                        SlotView {
                            name: name->Ok_0,
                            parent: parent->Ok_0,
                            display_index: display_index->Ok_0,
                            blend_mode: blend_mode->Ok_0,
                            user_data: user_data->Ok_0,
                            color: color->Ok_0,
                            actions: actions->Ok_0,
                        },
                    )
                }
            },
            _ => Err(ErrorView::mismatch(Shape::Object, kind_of(n))),
        }
    }

    fn decode(node: &Node) -> (r: Result<Slot, DecodeError>)
        ensures
            outcome(r) == Self::decoded(node@),
    {
        let m = members_of(node)?;
        let name = read::<String>(m, "name")?;
        let parent = read::<String>(m, "parent")?;
        let display_index = read_or::<isize>(m, "displayIndex", default_slot_display_index())?;
        let blend_mode = read_or::<BlendMode>(m, "blendMode", default_slot_blend_mode())?;
        let user_data = read_or::<Node>(m, "userData", Node::Null)?;
        let color = read_or::<Color>(m, "color", Color::default())?;
        let actions = read_list::<Action>(m, "actions")?;
        Ok(Slot { name, parent, display_index, blend_mode, user_data, color, actions })
    }
}

impl Encode for Slot {
    open spec fn regular(v: SlotView) -> bool {
        true
    }

    open spec fn encoded(v: SlotView) -> NodeView {
        NodeView::Object(
            seq![
                ("name"@, String::encoded(v.name)),
                ("parent"@, String::encoded(v.parent)),
                ("displayIndex"@, isize::encoded(v.display_index)),
                ("blendMode"@, BlendMode::encoded(v.blend_mode)),
                ("userData"@, Node::encoded(v.user_data)),
                ("color"@, Color::encoded(v.color)),
                ("actions"@, NodeView::List(encoded_list::<Action>(v.actions))),
            ],
        )
    }

    fn encode(&self) -> (n: Node)
        ensures
            n@ == Self::encoded(self@),
    {
        let mut m: Vec<Member> = Vec::new();
        put(&mut m, "name", self.name.encode());
        put(&mut m, "parent", self.parent.encode());
        put(&mut m, "displayIndex", self.display_index.encode());
        put(&mut m, "blendMode", self.blend_mode.encode());
        put(&mut m, "userData", self.user_data.encode());
        put(&mut m, "color", self.color.encode());
        put(&mut m, "actions", encode_list::<Action>(&self.actions));
        let n = object(m);
        assert(n@->Object_0 =~= Self::encoded(self@)->Object_0);
        n
    }

    proof fn decoded_is_regular(n: NodeView) {
    }

    proof fn round_trip(v: SlotView) {
        let m = Self::encoded(v)->Object_0;
        lemma_slot_lookups(v);
        String::round_trip(v.name);
        String::round_trip(v.parent);
        isize::round_trip(v.display_index);
        BlendMode::round_trip(v.blend_mode);
        Node::round_trip(v.user_data);
        Color::round_trip(v.color);
        lemma_list_round_trip::<Action>(v.actions);
    }
}

/// In the object written for a slot, each key is found, and with the value written for it.
proof fn lemma_slot_lookups(v: SlotView)
    ensures
        lookup(Slot::encoded(v)->Object_0, "name"@) == Some(String::encoded(v.name)),
        lookup(Slot::encoded(v)->Object_0, "parent"@) == Some(String::encoded(v.parent)),
        lookup(Slot::encoded(v)->Object_0, "displayIndex"@) == Some(
            isize::encoded(v.display_index),
        ),
        lookup(Slot::encoded(v)->Object_0, "blendMode"@) == Some(BlendMode::encoded(v.blend_mode)),
        lookup(Slot::encoded(v)->Object_0, "userData"@) == Some(Node::encoded(v.user_data)),
        lookup(Slot::encoded(v)->Object_0, "color"@) == Some(Color::encoded(v.color)),
        lookup(Slot::encoded(v)->Object_0, "actions"@) == Some(
            NodeView::List(encoded_list::<Action>(v.actions)),
        ),
{
    let m = Slot::encoded(v)->Object_0;
    reveal_strlit("name");
    assert("name"@.len() == 4);
    reveal_strlit("parent");
    assert("parent"@.len() == 6);
    reveal_strlit("displayIndex");
    assert("displayIndex"@.len() == 12);
    reveal_strlit("blendMode");
    assert("blendMode"@.len() == 9);
    reveal_strlit("userData");
    assert("userData"@.len() == 8);
    reveal_strlit("color");
    assert("color"@.len() == 5);
    reveal_strlit("actions");
    assert("actions"@.len() == 7);
    lemma_lookup_at(m, "name"@, 0);
    lemma_lookup_at(m, "parent"@, 1);
    lemma_lookup_at(m, "displayIndex"@, 2);
    lemma_lookup_at(m, "blendMode"@, 3);
    lemma_lookup_at(m, "userData"@, 4);
    lemma_lookup_at(m, "color"@, 5);
    lemma_lookup_at(m, "actions"@, 6);
}

/// An object that holds the fields that a slot must have, rightly shaped, and none of the
/// optional ones decodes to a slot in which every optional field has its default.
pub proof fn law_minimal_slot(
    m: Seq<(Seq<char>, NodeView)>,
    name: Seq<char>,
    parent: Seq<char>,
)
    requires
        lookup(m, "name"@) == Some(NodeView::Text(name)),
        lookup(m, "parent"@) == Some(NodeView::Text(parent)),
        lookup(m, "displayIndex"@) is None,
        lookup(m, "blendMode"@) is None,
        lookup(m, "userData"@) is None,
        lookup(m, "color"@) is None,
        lookup(m, "actions"@) is None,
    ensures
        Slot::decoded(NodeView::Object(m)) == Ok::<SlotView, ErrorView>(
            SlotView {
                name,
                parent,
                display_index: 0,
                blend_mode: BlendMode::initial(),
                user_data: NodeView::Null,
                color: Color::initial(),
                actions: Seq::empty(),
            },
        ),
{
}

/// An object that lacks `name` is refused as a slot, for the lack of `name`, whatever else it
/// holds.
pub proof fn law_slot_requires_name(m: Seq<(Seq<char>, NodeView)>)
    requires
        lookup(m, "name"@) is None,
    ensures
        Slot::decoded(NodeView::Object(m)) == Err::<SlotView, ErrorView>(
            ErrorView::missing("name"@),
        ),
{
}

/// An object that holds `name`, rightly shaped, and lacks `parent` is refused as a slot, for
/// the lack of `parent`.
pub proof fn law_slot_requires_parent(m: Seq<(Seq<char>, NodeView)>)
    requires
        field::<String>(m, "name"@) is Ok,
        lookup(m, "parent"@) is None,
    ensures
        Slot::decoded(NodeView::Object(m)) == Err::<SlotView, ErrorView>(
            ErrorView::missing("parent"@),
        ),
{
}

/// One inverse-kinematics constraint.
#[derive(Clone, Debug, PartialEq, Eq)]
pub struct Ik {
    /// The constraint's name.
    pub name: String,
    /// The name of the constrained bone, kept as it was found.
    pub bone: String,
    /// The name of the target bone, kept as it was found.
    pub target: String,
    /// Whether the chain bends clockwise; true where it is not given.
    pub bend_positive: bool,
    /// How many parent bones are constrained along with the bone; 0 where it is not given.
    pub chain: usize,
    /// How strongly the constraint holds, from 0 to 1; 0 where it is not given.
    pub weight: Single,
}

/// The mathematical value of an [`Ik`].
pub struct IkView {
    pub name: Seq<char>,
    pub bone: Seq<char>,
    pub target: Seq<char>,
    pub bend_positive: bool,
    pub chain: usize,
    pub weight: Single,
}

impl View for Ik {
    type V = IkView;

    open spec fn view(&self) -> IkView {
        IkView {
            name: self.name@,
            bone: self.bone@,
            target: self.target@,
            bend_positive: self.bend_positive,
            chain: self.chain,
            weight: self.weight,
        }
    }
}

impl Decode for Ik {
    /// An object. It must hold `name`, `bone`, `target`; every other field that it lacks takes
    /// its default, and a list that it lacks is empty. The fields are read in the order in
    /// which they are declared, and the first failure is the result.
    open spec fn decoded(n: NodeView) -> Result<IkView, ErrorView> {
        match n {
            NodeView::Object(m) => {
                let name = field::<String>(m, "name"@);
                let bone = field::<String>(m, "bone"@);
                let target = field::<String>(m, "target"@);
                let bend_positive = field_or::<bool>(m, "bendPositive"@, true);
                let chain = field_or::<usize>(m, "chain"@, 0);
                let weight = field_or::<Single>(m, "weight"@, Single { bits: ZERO_BITS });
                if name is Err {
                    Err(name->Err_0)
                } else if bone is Err {
                    Err(bone->Err_0)
                } else if target is Err {
                    Err(target->Err_0)
                } else if bend_positive is Err {
                    Err(bend_positive->Err_0)
                } else if chain is Err {
                    Err(chain->Err_0)
                } else if weight is Err {
                    Err(weight->Err_0)
                } else {
                    Ok(
                        IkView {
                            name: name->Ok_0,
                            bone: bone->Ok_0,
                            target: target->Ok_0,
                            bend_positive: bend_positive->Ok_0,
                            chain: chain->Ok_0,
                            weight: weight->Ok_0,
                        },
                    )
                }
            },
            _ => Err(ErrorView::mismatch(Shape::Object, kind_of(n))),
        }
    }

    fn decode(node: &Node) -> (r: Result<Ik, DecodeError>)
        ensures
            outcome(r) == Self::decoded(node@),
    {
        let m = members_of(node)?;
        let name = read::<String>(m, "name")?;
        let bone = read::<String>(m, "bone")?;
        let target = read::<String>(m, "target")?;
        let bend_positive = read_or::<bool>(m, "bendPositive", default_ik_bend_positive())?;
        let chain = read_or::<usize>(m, "chain", default_ik_chain())?;
        let weight = read_or::<Single>(m, "weight", default_ik_weight())?;
        Ok(Ik { name, bone, target, bend_positive, chain, weight })
    }
}

impl Encode for Ik {
    open spec fn regular(v: IkView) -> bool {
        true
    }

    open spec fn encoded(v: IkView) -> NodeView {
        NodeView::Object(
            seq![
                ("name"@, String::encoded(v.name)),
                ("bone"@, String::encoded(v.bone)),
                ("target"@, String::encoded(v.target)),
                ("bendPositive"@, bool::encoded(v.bend_positive)),
                ("chain"@, usize::encoded(v.chain)),
                ("weight"@, Single::encoded(v.weight)),
            ],
        )
    }

    fn encode(&self) -> (n: Node)
        ensures
            n@ == Self::encoded(self@),
    {
        let mut m: Vec<Member> = Vec::new();
        put(&mut m, "name", self.name.encode());
        put(&mut m, "bone", self.bone.encode());
        put(&mut m, "target", self.target.encode());
        put(&mut m, "bendPositive", self.bend_positive.encode());
        put(&mut m, "chain", self.chain.encode());
        put(&mut m, "weight", self.weight.encode());
        let n = object(m);
        assert(n@->Object_0 =~= Self::encoded(self@)->Object_0);
        n
    }

    proof fn decoded_is_regular(n: NodeView) {
    }

    proof fn round_trip(v: IkView) {
        let m = Self::encoded(v)->Object_0;
        lemma_ik_lookups(v);
        String::round_trip(v.name);
        String::round_trip(v.bone);
        String::round_trip(v.target);
        bool::round_trip(v.bend_positive);
        usize::round_trip(v.chain);
        Single::round_trip(v.weight);
    }
}

/// In the object written for a constraint, each key is found, and with the value written for
/// it.
proof fn lemma_ik_lookups(v: IkView)
    ensures
        lookup(Ik::encoded(v)->Object_0, "name"@) == Some(String::encoded(v.name)),
        lookup(Ik::encoded(v)->Object_0, "bone"@) == Some(String::encoded(v.bone)),
        lookup(Ik::encoded(v)->Object_0, "target"@) == Some(String::encoded(v.target)),
        lookup(Ik::encoded(v)->Object_0, "bendPositive"@) == Some(bool::encoded(v.bend_positive)),
        lookup(Ik::encoded(v)->Object_0, "chain"@) == Some(usize::encoded(v.chain)),
        lookup(Ik::encoded(v)->Object_0, "weight"@) == Some(Single::encoded(v.weight)),
{
    let m = Ik::encoded(v)->Object_0;
    reveal_strlit("name");
    assert("name"@.len() == 4 && "name"@[0] == 'n');
    reveal_strlit("bone");
    assert("bone"@.len() == 4 && "bone"@[0] == 'b');
    reveal_strlit("target");
    assert("target"@.len() == 6 && "target"@[0] == 't');
    reveal_strlit("bendPositive");
    assert("bendPositive"@.len() == 12);
    reveal_strlit("chain");
    assert("chain"@.len() == 5);
    reveal_strlit("weight");
    assert("weight"@.len() == 6 && "weight"@[0] == 'w');
    lemma_lookup_at(m, "name"@, 0);
    lemma_lookup_at(m, "bone"@, 1);
    lemma_lookup_at(m, "target"@, 2);
    lemma_lookup_at(m, "bendPositive"@, 3);
    lemma_lookup_at(m, "chain"@, 4);
    lemma_lookup_at(m, "weight"@, 5);
}

/// An object that holds the fields that a constraint must have, rightly shaped, and none of the
/// optional ones decodes to a constraint in which every optional field has its default.
pub proof fn law_minimal_ik(
    m: Seq<(Seq<char>, NodeView)>,
    name: Seq<char>,
    bone: Seq<char>,
    target: Seq<char>,
)
    requires
        lookup(m, "name"@) == Some(NodeView::Text(name)),
        lookup(m, "bone"@) == Some(NodeView::Text(bone)),
        lookup(m, "target"@) == Some(NodeView::Text(target)),
        lookup(m, "bendPositive"@) is None,
        lookup(m, "chain"@) is None,
        lookup(m, "weight"@) is None,
    ensures
        Ik::decoded(NodeView::Object(m)) == Ok::<IkView, ErrorView>(
            IkView {
                name,
                bone,
                target,
                bend_positive: true,
                chain: 0,
                weight: Single { bits: ZERO_BITS },
            },
        ),
{
}

/// An object that lacks `name` is refused as a constraint, for the lack of `name`, whatever
/// else it holds.
pub proof fn law_ik_requires_name(m: Seq<(Seq<char>, NodeView)>)
    requires
        lookup(m, "name"@) is None,
    ensures
        Ik::decoded(NodeView::Object(m)) == Err::<IkView, ErrorView>(
            ErrorView::missing("name"@),
        ),
{
}

/// An object that holds `name`, rightly shaped, and lacks `bone` is refused as a constraint,
/// for the lack of `bone`.
pub proof fn law_ik_requires_bone(m: Seq<(Seq<char>, NodeView)>)
    requires
        field::<String>(m, "name"@) is Ok,
        lookup(m, "bone"@) is None,
    ensures
        Ik::decoded(NodeView::Object(m)) == Err::<IkView, ErrorView>(
            ErrorView::missing("bone"@),
        ),
{
}

/// An object that holds `name` and `bone`, rightly shaped, and lacks `target` is refused as a
/// constraint, for the lack of `target`.
pub proof fn law_ik_requires_target(m: Seq<(Seq<char>, NodeView)>)
    requires
        field::<String>(m, "name"@) is Ok,
        field::<String>(m, "bone"@) is Ok,
        lookup(m, "target"@) is None,
    ensures
        Ik::decoded(NodeView::Object(m)) == Err::<IkView, ErrorView>(
            ErrorView::missing("target"@),
        ),
{
}

/// One skeleton of a document, posable by itself.
#[derive(Clone, Debug, PartialEq, Eq)]
pub struct Armature {
    /// The armature's name.
    pub name: String,
    /// The frame rate. Read from the armature alone it is -1 where none is given; in a decoded
    /// document it is then the document's.
    pub frame_rate: Single,
    /// The kind of animation; `Armature` where it is not given.
    pub animation_type: AnimationType,
    /// Custom data, kept as it was found.
    pub user_data: Node,
    /// The behaviours that run when the armature comes on stage.
    pub default_actions: Vec<Action>,
    /// The bones, in the order in which they are evaluated.
    pub bone: Vec<Bone>,
    /// The slots, in the order in which they are drawn.
    pub slot: Vec<Slot>,
    /// The skins.
    pub skin: Vec<Skin>,
    /// The inverse-kinematics constraints, in the order in which they are solved.
    pub ik: Vec<Ik>,
    /// The animations.
    pub animation: Vec<Animation>,
}

/// The mathematical value of an [`Armature`].
pub struct ArmatureView {
    pub name: Seq<char>,
    pub frame_rate: Single,
    pub animation_type: AnimationType,
    pub user_data: NodeView,
    pub default_actions: Seq<ActionView>,
    pub bone: Seq<BoneView>,
    pub slot: Seq<SlotView>,
    pub skin: Seq<SkinView>,
    pub ik: Seq<IkView>,
    pub animation: Seq<AnimationView>,
}

impl View for Armature {
    type V = ArmatureView;

    open spec fn view(&self) -> ArmatureView {
        ArmatureView {
            name: self.name@,
            frame_rate: self.frame_rate,
            animation_type: self.animation_type,
            user_data: self.user_data@,
            default_actions: views(self.default_actions@),
            bone: views(self.bone@),
            slot: views(self.slot@),
            skin: views(self.skin@),
            ik: views(self.ik@),
            animation: views(self.animation@),
        }
    }
}

impl Decode for Armature {
    /// An object. It must hold `name`; every other field that it lacks takes its default, and a
    /// list that it lacks is empty. The fields are read in the order in which they are
    /// declared, and the first failure is the result.
    open spec fn decoded(n: NodeView) -> Result<ArmatureView, ErrorView> {
        match n {
            NodeView::Object(m) => {
                let name = field::<String>(m, "name"@);
                let frame_rate = field_or::<Single>(
                    m,
                    "frameRate"@,
                    Single { bits: MINUS_ONE_BITS },
                );
                let animation_type = field_or::<AnimationType>(
                    m,
                    "type"@,
                    AnimationType::Armature,
                );
                let user_data = field_or::<Node>(m, "userData"@, NodeView::Null);
                let default_actions = list_field::<Action>(m, "defaultActions"@);
                let bone = list_field::<Bone>(m, "bone"@);
                let slot = list_field::<Slot>(m, "slot"@);
                let skin = list_field::<Skin>(m, "skin"@);
                let ik = list_field::<Ik>(m, "ik"@);
                let animation = list_field::<Animation>(m, "animation"@);
                if name is Err {
                    Err(name->Err_0)
                } else if frame_rate is Err {
                    Err(frame_rate->Err_0)
                } else if animation_type is Err {
                    Err(animation_type->Err_0)
                } else if user_data is Err {
                    Err(user_data->Err_0)
                } else if default_actions is Err {
                    Err(default_actions->Err_0)
                } else if bone is Err {
                    Err(bone->Err_0)
                } else if slot is Err {
                    Err(slot->Err_0)
                } else if skin is Err {
                    Err(skin->Err_0)
                } else if ik is Err {
                    Err(ik->Err_0)
                } else if animation is Err {
                    Err(animation->Err_0)
                } else {
                    Ok(
                        ArmatureView {
                            name: name->Ok_0,
                            frame_rate: frame_rate->Ok_0,
                            animation_type: animation_type->Ok_0,
                            user_data: user_data->Ok_0,
                            default_actions: default_actions->Ok_0,
                            bone: bone->Ok_0,
                            slot: slot->Ok_0,
                            skin: skin->Ok_0,
                            ik: ik->Ok_0,
                            animation: animation->Ok_0,
                        },
                    )
                }
            },
            _ => Err(ErrorView::mismatch(Shape::Object, kind_of(n))),
        }
    }

    fn decode(node: &Node) -> (r: Result<Armature, DecodeError>)
        ensures
            outcome(r) == Self::decoded(node@),
    {
        let m = members_of(node)?;
        let name = read::<String>(m, "name")?;
        let frame_rate = read_or::<Single>(m, "frameRate", default_armature_frame_rate())?;
        let animation_type = read_or::<AnimationType>(m, "type", AnimationType::Armature)?;
        let user_data = read_or::<Node>(m, "userData", Node::Null)?;
        let default_actions = read_list::<Action>(m, "defaultActions")?;
        let bone = read_list::<Bone>(m, "bone")?;
        let slot = read_list::<Slot>(m, "slot")?;
        let skin = read_list::<Skin>(m, "skin")?;
        let ik = read_list::<Ik>(m, "ik")?;
        let animation = read_list::<Animation>(m, "animation")?;
        Ok(
            Armature {
                name,
                frame_rate,
                animation_type,
                user_data,
                default_actions,
                bone,
                slot,
                skin,
                ik,
                animation,
            },
        )
    }
}

impl Encode for Armature {
    open spec fn regular(v: ArmatureView) -> bool {
        &&& all_regular::<Bone>(v.bone)
        &&& all_regular::<Slot>(v.slot)
        &&& all_regular::<Skin>(v.skin)
        &&& all_regular::<Ik>(v.ik)
        &&& all_regular::<Animation>(v.animation)
    }

    open spec fn encoded(v: ArmatureView) -> NodeView {
        NodeView::Object(
            seq![
                ("name"@, String::encoded(v.name)),
                ("frameRate"@, Single::encoded(v.frame_rate)),
                ("type"@, AnimationType::encoded(v.animation_type)),
                ("userData"@, Node::encoded(v.user_data)),
                ("defaultActions"@, NodeView::List(encoded_list::<Action>(v.default_actions))),
                ("bone"@, NodeView::List(encoded_list::<Bone>(v.bone))),
                ("slot"@, NodeView::List(encoded_list::<Slot>(v.slot))),
                ("skin"@, NodeView::List(encoded_list::<Skin>(v.skin))),
                ("ik"@, NodeView::List(encoded_list::<Ik>(v.ik))),
                ("animation"@, NodeView::List(encoded_list::<Animation>(v.animation))),
            ],
        )
    }

    fn encode(&self) -> (n: Node)
        ensures
            n@ == Self::encoded(self@),
    {
        let mut m: Vec<Member> = Vec::new();
        put(&mut m, "name", self.name.encode());
        put(&mut m, "frameRate", self.frame_rate.encode());
        put(&mut m, "type", self.animation_type.encode());
        put(&mut m, "userData", self.user_data.encode());
        put(&mut m, "defaultActions", encode_list::<Action>(&self.default_actions));
        put(&mut m, "bone", encode_list::<Bone>(&self.bone));
        put(&mut m, "slot", encode_list::<Slot>(&self.slot));
        put(&mut m, "skin", encode_list::<Skin>(&self.skin));
        put(&mut m, "ik", encode_list::<Ik>(&self.ik));
        put(&mut m, "animation", encode_list::<Animation>(&self.animation));
        let n = object(m);
        assert(n@->Object_0 =~= Self::encoded(self@)->Object_0);
        n
    }

    proof fn decoded_is_regular(n: NodeView) {
        match n {
            NodeView::Object(m) => {
                lemma_list_field_regular::<Bone>(m, "bone"@);
                lemma_list_field_regular::<Slot>(m, "slot"@);
                lemma_list_field_regular::<Skin>(m, "skin"@);
                lemma_list_field_regular::<Ik>(m, "ik"@);
                lemma_list_field_regular::<Animation>(m, "animation"@);
            },
            _ => {},
        }
    }

    proof fn round_trip(v: ArmatureView) {
        let m = Self::encoded(v)->Object_0;
        lemma_armature_lookups(v);
        String::round_trip(v.name);
        Single::round_trip(v.frame_rate);
        AnimationType::round_trip(v.animation_type);
        Node::round_trip(v.user_data);
        lemma_list_round_trip::<Action>(v.default_actions);
        lemma_list_round_trip::<Bone>(v.bone);
        lemma_list_round_trip::<Slot>(v.slot);
        lemma_list_round_trip::<Skin>(v.skin);
        lemma_list_round_trip::<Ik>(v.ik);
        lemma_list_round_trip::<Animation>(v.animation);
    }
}

/// In the object written for a armature, each key is found, and with the value written for it.
proof fn lemma_armature_lookups(v: ArmatureView)
    ensures
        lookup(Armature::encoded(v)->Object_0, "name"@) == Some(String::encoded(v.name)),
        lookup(Armature::encoded(v)->Object_0, "frameRate"@) == Some(
            Single::encoded(v.frame_rate),
        ),
        lookup(Armature::encoded(v)->Object_0, "type"@) == Some(
            AnimationType::encoded(v.animation_type),
        ),
        lookup(Armature::encoded(v)->Object_0, "userData"@) == Some(Node::encoded(v.user_data)),
        lookup(Armature::encoded(v)->Object_0, "defaultActions"@) == Some(
            NodeView::List(encoded_list::<Action>(v.default_actions)),
        ),
        lookup(Armature::encoded(v)->Object_0, "bone"@) == Some(
            NodeView::List(encoded_list::<Bone>(v.bone)),
        ),
        lookup(Armature::encoded(v)->Object_0, "slot"@) == Some(
            NodeView::List(encoded_list::<Slot>(v.slot)),
        ),
        lookup(Armature::encoded(v)->Object_0, "skin"@) == Some(
            NodeView::List(encoded_list::<Skin>(v.skin)),
        ),
        lookup(Armature::encoded(v)->Object_0, "ik"@) == Some(
            NodeView::List(encoded_list::<Ik>(v.ik)),
        ),
        lookup(Armature::encoded(v)->Object_0, "animation"@) == Some(
            NodeView::List(encoded_list::<Animation>(v.animation)),
        ),
{
    let m = Armature::encoded(v)->Object_0;
    reveal_strlit("name");
    assert("name"@.len() == 4 && "name"@[0] == 'n');
    reveal_strlit("frameRate");
    assert("frameRate"@.len() == 9 && "frameRate"@[0] == 'f');
    reveal_strlit("type");
    assert("type"@.len() == 4 && "type"@[0] == 't');
    reveal_strlit("userData");
    assert("userData"@.len() == 8);
    reveal_strlit("defaultActions");
    assert("defaultActions"@.len() == 14);
    reveal_strlit("bone");
    assert("bone"@.len() == 4 && "bone"@[0] == 'b');
    reveal_strlit("slot");
    assert("slot"@.len() == 4 && "slot"@[0] == 's' && "slot"@[1] == 'l');
    reveal_strlit("skin");
    assert("skin"@.len() == 4 && "skin"@[0] == 's' && "skin"@[1] == 'k');
    reveal_strlit("ik");
    assert("ik"@.len() == 2);
    reveal_strlit("animation");
    assert("animation"@.len() == 9 && "animation"@[0] == 'a');
    lemma_lookup_at(m, "name"@, 0);
    lemma_lookup_at(m, "frameRate"@, 1);
    lemma_lookup_at(m, "type"@, 2);
    lemma_lookup_at(m, "userData"@, 3);
    lemma_lookup_at(m, "defaultActions"@, 4);
    lemma_lookup_at(m, "bone"@, 5);
    lemma_lookup_at(m, "slot"@, 6);
    lemma_lookup_at(m, "skin"@, 7);
    lemma_lookup_at(m, "ik"@, 8);
    lemma_lookup_at(m, "animation"@, 9);
}

/// An object that holds the fields that a armature must have, rightly shaped, and none of the
/// optional ones decodes to a armature in which every optional field has its default.
pub proof fn law_minimal_armature(
    m: Seq<(Seq<char>, NodeView)>,
    name: Seq<char>,
)
    requires
        lookup(m, "name"@) == Some(NodeView::Text(name)),
        lookup(m, "frameRate"@) is None,
        lookup(m, "type"@) is None,
        lookup(m, "userData"@) is None,
        lookup(m, "defaultActions"@) is None,
        lookup(m, "bone"@) is None,
        lookup(m, "slot"@) is None,
        lookup(m, "skin"@) is None,
        lookup(m, "ik"@) is None,
        lookup(m, "animation"@) is None,
    ensures
        Armature::decoded(NodeView::Object(m)) == Ok::<ArmatureView, ErrorView>(
            ArmatureView {
                name,
                frame_rate: Single { bits: MINUS_ONE_BITS },
                animation_type: AnimationType::Armature,
                user_data: NodeView::Null,
                default_actions: Seq::empty(),
                bone: Seq::empty(),
                slot: Seq::empty(),
                skin: Seq::empty(),
                ik: Seq::empty(),
                animation: Seq::empty(),
            },
        ),
{
}

/// An object that lacks `name` is refused as a armature, for the lack of `name`, whatever else
/// it holds.
pub proof fn law_armature_requires_name(m: Seq<(Seq<char>, NodeView)>)
    requires
        lookup(m, "name"@) is None,
    ensures
        Armature::decoded(NodeView::Object(m)) == Err::<ArmatureView, ErrorView>(
            ErrorView::missing("name"@),
        ),
{
}

impl ArmatureView {
    /// This armature within a document whose frame rate is `global`: an armature that
    /// gave no rate of its own takes the document's.
    pub open spec fn with_rate(self, global: Single) -> ArmatureView {
        if self.frame_rate.bits == MINUS_ONE_BITS {
            ArmatureView { frame_rate: global, ..self }
        } else {
            self
        }
    }
}

impl Armature {
    /// This armature within a document whose frame rate is `global`.
    pub fn resolve(self, global: Single) -> (r: Armature)
        ensures
            r@ == self@.with_rate(global),
    {
        if self.frame_rate.bits == MINUS_ONE_BITS {
            let mut r = self;
            r.frame_rate = global;
            r
        } else {
            self
        }
    }
}

} // verus!

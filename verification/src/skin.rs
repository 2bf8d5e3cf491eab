//! Skins: what the slots show, and the meshes and bounding boxes among it.

use vstd::prelude::*;
use crate::decode::{
    element, empty_list, field, field_or, list_field, members_of, packed_field, read, read_at,
    read_list, read_or, read_packed, views, Decode, Packed,
};
use crate::defaults::{default_display_inherit_fdd, default_display_pivot, default_display_sub_type};
use crate::encode::{
    all_regular, encode_list, encode_packed, encoded_list, lemma_field_or_regular,
    lemma_field_regular, lemma_list_field_regular, lemma_list_round_trip, lemma_lookup_at,
    lemma_packed_round_trip, object, packed_list, put, Encode, Pack,
};
use crate::error::{outcome, DecodeError, ErrorView, Shape};
use crate::geometry::{Matrix, Point, Transform};
use crate::node::{items_view, kind_of, lookup, Member, Node, NodeView};
use crate::scalar::same_text;
use crate::single::{Single, HALF_BITS, ZERO_BITS};

verus! {

/// The shape of a bounding box.
#[derive(Clone, Debug, PartialEq, Eq)]
pub enum BoundBoxType {
    /// A rectangle of the display object's width and height.
    Rectangle,
    /// An ellipse of the display object's width and height.
    Ellipse,
    /// A polygon of the display object's own making.
    Polygon,
    /// A shape that this library does not know, by the name that it was given.
    Other(String),
}

/// The mathematical value of a [`BoundBoxType`].
pub enum BoundBoxTypeView {
    Rectangle,
    Ellipse,
    Polygon,
    Other(Seq<char>),
}

impl View for BoundBoxType {
    type V = BoundBoxTypeView;

    open spec fn view(&self) -> BoundBoxTypeView {
        match self {
            BoundBoxType::Rectangle => BoundBoxTypeView::Rectangle,
            BoundBoxType::Ellipse => BoundBoxTypeView::Ellipse,
            BoundBoxType::Polygon => BoundBoxTypeView::Polygon,
            BoundBoxType::Other(tag) => BoundBoxTypeView::Other(tag@),
        }
    }
}

impl BoundBoxType {
    /// Whether `tag` is one of the names that this library knows.
    pub open spec fn known(tag: Seq<char>) -> bool {
        tag == "rectangle"@ || tag == "ellipse"@ || tag == "polygon"@
    }

    /// What the name `tag` stands for: a name that is not known is kept as it is.
    pub open spec fn of_tag(tag: Seq<char>) -> BoundBoxTypeView {
        if tag == "rectangle"@ {
            BoundBoxTypeView::Rectangle
        } else if tag == "ellipse"@ {
            BoundBoxTypeView::Ellipse
        } else if tag == "polygon"@ {
            BoundBoxTypeView::Polygon
        } else {
            BoundBoxTypeView::Other(tag)
        }
    }
}

impl Decode for BoundBoxType {
    /// A text. `rectangle`, `ellipse` and `polygon` are known; any other text is kept as it is.
    open spec fn decoded(n: NodeView) -> Result<BoundBoxTypeView, ErrorView> {
        match n {
            NodeView::Text(tag) => Ok(Self::of_tag(tag)),
            _ => Err(ErrorView::mismatch(Shape::Text, kind_of(n))),
        }
    }

    fn decode(node: &Node) -> (r: Result<BoundBoxType, DecodeError>)
        ensures
            outcome(r) == Self::decoded(node@),
    {
        match node {
            Node::Text(tag) => {
                if same_text(tag, "rectangle") {
                    Ok(BoundBoxType::Rectangle)
                } else if same_text(tag, "ellipse") {
                    Ok(BoundBoxType::Ellipse)
                } else if same_text(tag, "polygon") {
                    Ok(BoundBoxType::Polygon)
                } else {
                    Ok(BoundBoxType::Other(tag.clone()))
                }
            },
            _ => Err(DecodeError::mismatch(Shape::Text, node.kind())),
        }
    }
}

impl Encode for BoundBoxType {
    /// A name that is kept as it is must be none of the known ones.
    open spec fn regular(v: BoundBoxTypeView) -> bool {
        v matches BoundBoxTypeView::Other(tag) ==> !Self::known(tag)
    }

    open spec fn encoded(v: BoundBoxTypeView) -> NodeView {
        match v {
            BoundBoxTypeView::Rectangle => NodeView::Text("rectangle"@),
            BoundBoxTypeView::Ellipse => NodeView::Text("ellipse"@),
            BoundBoxTypeView::Polygon => NodeView::Text("polygon"@),
            BoundBoxTypeView::Other(tag) => NodeView::Text(tag),
        }
    }

    fn encode(&self) -> (n: Node)
        ensures
            n@ == Self::encoded(self@),
    {
        match self {
            BoundBoxType::Rectangle => Node::Text("rectangle".to_owned()),
            BoundBoxType::Ellipse => Node::Text("ellipse".to_owned()),
            BoundBoxType::Polygon => Node::Text("polygon".to_owned()),
            BoundBoxType::Other(tag) => Node::Text(tag.clone()),
        }
    }

    proof fn decoded_is_regular(n: NodeView) {
    }

    proof fn round_trip(v: BoundBoxTypeView) {
        reveal_strlit("rectangle");
        assert("rectangle"@.len() == 9);
        reveal_strlit("ellipse");
        assert("ellipse"@.len() == 7 && "ellipse"@[0] == 'e');
        reveal_strlit("polygon");
        assert("polygon"@.len() == 7 && "polygon"@[0] == 'p');
    }
}

/// A name that is not known decodes, and to the open variant, which holds the name letter for
/// letter.
pub proof fn law_unknown_bound_box_type(tag: Seq<char>)
    requires
        !BoundBoxType::known(tag),
    ensures
        BoundBoxType::decoded(NodeView::Text(tag)) == Ok::<BoundBoxTypeView, ErrorView>(
            BoundBoxTypeView::Other(tag),
        ),
{
}

/// What kind of thing a display object is.
#[derive(Clone, Debug, PartialEq, Eq)]
pub enum DisplayType {
    /// A picture.
    Image,
    /// Another armature, shown in place.
    Armature,
    /// A picture on a mesh that the bones deform.
    Mesh,
    /// A shape that is hit-tested and not drawn.
    BoundingBox,
    /// A kind that this library does not know, by the name that it was given.
    Other(String),
}

/// The mathematical value of a [`DisplayType`].
pub enum DisplayTypeView {
    Image,
    Armature,
    Mesh,
    BoundingBox,
    Other(Seq<char>),
}

impl View for DisplayType {
    type V = DisplayTypeView;

    open spec fn view(&self) -> DisplayTypeView {
        match self {
            DisplayType::Image => DisplayTypeView::Image,
            DisplayType::Armature => DisplayTypeView::Armature,
            DisplayType::Mesh => DisplayTypeView::Mesh,
            DisplayType::BoundingBox => DisplayTypeView::BoundingBox,
            DisplayType::Other(tag) => DisplayTypeView::Other(tag@),
        }
    }
}

impl DisplayType {
    /// Whether `tag` is one of the names that this library knows.
    pub open spec fn known(tag: Seq<char>) -> bool {
        tag == "image"@ || tag == "armature"@ || tag == "mesh"@ || tag == "boundingBox"@
    }

    /// What the name `tag` stands for: a name that is not known is kept as it is.
    pub open spec fn of_tag(tag: Seq<char>) -> DisplayTypeView {
        if tag == "image"@ {
            DisplayTypeView::Image
        } else if tag == "armature"@ {
            DisplayTypeView::Armature
        } else if tag == "mesh"@ {
            DisplayTypeView::Mesh
        } else if tag == "boundingBox"@ {
            DisplayTypeView::BoundingBox
        } else {
            DisplayTypeView::Other(tag)
        }
    }
}

impl Decode for DisplayType {
    /// A text. `image`, `armature`, `mesh` and `boundingBox` are known; any other text is kept
    /// as it is, for the format leaves room for kinds to come.
    open spec fn decoded(n: NodeView) -> Result<DisplayTypeView, ErrorView> {
        match n {
            NodeView::Text(tag) => Ok(Self::of_tag(tag)),
            _ => Err(ErrorView::mismatch(Shape::Text, kind_of(n))),
        }
    }

    fn decode(node: &Node) -> (r: Result<DisplayType, DecodeError>)
        ensures
            outcome(r) == Self::decoded(node@),
    {
        match node {
            Node::Text(tag) => {
                if same_text(tag, "image") {
                    Ok(DisplayType::Image)
                } else if same_text(tag, "armature") {
                    Ok(DisplayType::Armature)
                } else if same_text(tag, "mesh") {
                    Ok(DisplayType::Mesh)
                } else if same_text(tag, "boundingBox") {
                    Ok(DisplayType::BoundingBox)
                } else {
                    Ok(DisplayType::Other(tag.clone()))
                }
            },
            _ => Err(DecodeError::mismatch(Shape::Text, node.kind())),
        }
    }
}

impl Encode for DisplayType {
    /// A name that is kept as it is must be none of the known ones.
    open spec fn regular(v: DisplayTypeView) -> bool {
        v matches DisplayTypeView::Other(tag) ==> !Self::known(tag)
    }

    open spec fn encoded(v: DisplayTypeView) -> NodeView {
        match v {
            DisplayTypeView::Image => NodeView::Text("image"@),
            DisplayTypeView::Armature => NodeView::Text("armature"@),
            DisplayTypeView::Mesh => NodeView::Text("mesh"@),
            DisplayTypeView::BoundingBox => NodeView::Text("boundingBox"@),
            DisplayTypeView::Other(tag) => NodeView::Text(tag),
        }
    }

    fn encode(&self) -> (n: Node)
        ensures
            n@ == Self::encoded(self@),
    {
        match self {
            DisplayType::Image => Node::Text("image".to_owned()),
            DisplayType::Armature => Node::Text("armature".to_owned()),
            DisplayType::Mesh => Node::Text("mesh".to_owned()),
            DisplayType::BoundingBox => Node::Text("boundingBox".to_owned()),
            DisplayType::Other(tag) => Node::Text(tag.clone()),
        }
    }

    proof fn decoded_is_regular(n: NodeView) {
    }

    proof fn round_trip(v: DisplayTypeView) {
        reveal_strlit("image");
        assert("image"@.len() == 5);
        reveal_strlit("armature");
        assert("armature"@.len() == 8);
        reveal_strlit("mesh");
        assert("mesh"@.len() == 4);
        reveal_strlit("boundingBox");
        assert("boundingBox"@.len() == 11);
    }
}

/// A name that is not known decodes, and to the open variant, which holds the name letter for
/// letter.
pub proof fn law_unknown_display_type(tag: Seq<char>)
    requires
        !DisplayType::known(tag),
    ensures
        DisplayType::decoded(NodeView::Text(tag)) == Ok::<DisplayTypeView, ErrorView>(
            DisplayTypeView::Other(tag),
        ),
{
}

/// How much one bone pulls on one vertex of a mesh.
#[derive(Clone, Copy, Debug, PartialEq, Eq, Structural)]
pub struct Weight {
    /// How many bones pull on the vertex.
    pub bone_count: usize,
    /// Which bone this is.
    pub bone_index: usize,
    /// How much it pulls.
    pub weight: Single,
}

impl View for Weight {
    type V = Weight;

    open spec fn view(&self) -> Weight {
        *self
    }
}

impl Packed for Weight {
    open spec fn arity() -> nat {
        3
    }

    /// Three neighbouring values of the list, read in this order: `bone_count`, `bone_index`,
    /// `weight`. The first of them that fails is the result.
    open spec fn unpacked(items: Seq<NodeView>, at: int) -> Result<Weight, ErrorView> {
        let bone_count = element::<usize>(items, at);
        let bone_index = element::<usize>(items, at + 1);
        let weight = element::<Single>(items, at + 2);
        if bone_count is Err {
            Err(bone_count->Err_0)
        } else if bone_index is Err {
            Err(bone_index->Err_0)
        } else if weight is Err {
            Err(weight->Err_0)
        } else {
            Ok(
                Weight {
                    bone_count: bone_count->Ok_0,
                    bone_index: bone_index->Ok_0,
                    weight: weight->Ok_0,
                },
            )
        }
    }

    fn width() -> (w: usize)
        ensures
            w == 3,
    {
        3
    }

    fn unpack(items: &Vec<Node>, at: usize) -> (r: Result<Weight, DecodeError>)
        ensures
            outcome(r) == Self::unpacked(items_view(items@), at as int),
    {
        let bone_count = read_at::<usize>(items, at)?;
        let bone_index = read_at::<usize>(items, at + 1)?;
        let weight = read_at::<Single>(items, at + 2)?;
        Ok(Weight { bone_count, bone_index, weight })
    }
}

impl Pack for Weight {
    open spec fn packed(v: Weight) -> Seq<NodeView> {
        seq![
            usize::encoded(v.bone_count),
            usize::encoded(v.bone_index),
            Single::encoded(v.weight),
        ]
    }

    fn pack(&self, out: &mut Vec<Node>)
        ensures
            items_view(final(out)@) == items_view(old(out)@) + Self::packed(self@),
    {
        out.push(self.bone_count.encode());
        out.push(self.bone_index.encode());
        out.push(self.weight.encode());
        assert(items_view(out@) =~= items_view(old(out)@) + Self::packed(self@));
    }

    proof fn lemma_packed_len(v: Weight) {
    }

    proof fn lemma_unpack_packed(items: Seq<NodeView>, at: int, v: Weight) {
        let part = items.subrange(at, at + 3);
        assert(items[at] == part[0]);
        assert(items[at + 1] == part[1]);
        assert(items[at + 2] == part[2]);
    }
}

/// The bind matrix of one bone of a mesh.
#[derive(Clone, Copy, Debug, PartialEq, Eq, Structural)]
pub struct BonePose {
    /// Which bone this is.
    pub bone_index: usize,
    /// Horizontal scale.
    pub a: Single,
    /// Vertical shear.
    pub b: Single,
    /// Horizontal shear.
    pub c: Single,
    /// Vertical scale.
    pub d: Single,
    /// Horizontal displacement.
    pub tx: Single,
    /// Vertical displacement.
    pub ty: Single,
}

impl View for BonePose {
    type V = BonePose;

    open spec fn view(&self) -> BonePose {
        *self
    }
}

impl Packed for BonePose {
    open spec fn arity() -> nat {
        7
    }

    /// Seven neighbouring values of the list, read in this order: `bone_index`, `a`, `b`, `c`,
    /// `d`, `tx`, `ty`. The first of them that fails is the result.
    open spec fn unpacked(items: Seq<NodeView>, at: int) -> Result<BonePose, ErrorView> {
        let bone_index = element::<usize>(items, at);
        let a = element::<Single>(items, at + 1);
        let b = element::<Single>(items, at + 2);
        let c = element::<Single>(items, at + 3);
        let d = element::<Single>(items, at + 4);
        let tx = element::<Single>(items, at + 5);
        let ty = element::<Single>(items, at + 6);
        if bone_index is Err {
            Err(bone_index->Err_0)
        } else if a is Err {
            Err(a->Err_0)
        } else if b is Err {
            Err(b->Err_0)
        } else if c is Err {
            Err(c->Err_0)
        } else if d is Err {
            Err(d->Err_0)
        } else if tx is Err {
            Err(tx->Err_0)
        } else if ty is Err {
            Err(ty->Err_0)
        } else {
            Ok(
                BonePose {
                    bone_index: bone_index->Ok_0,
                    a: a->Ok_0,
                    b: b->Ok_0,
                    c: c->Ok_0,
                    d: d->Ok_0,
                    tx: tx->Ok_0,
                    ty: ty->Ok_0,
                },
            )
        }
    }

    fn width() -> (w: usize)
        ensures
            w == 7,
    {
        7
    }

    fn unpack(items: &Vec<Node>, at: usize) -> (r: Result<BonePose, DecodeError>)
        ensures
            outcome(r) == Self::unpacked(items_view(items@), at as int),
    {
        let bone_index = read_at::<usize>(items, at)?;
        let a = read_at::<Single>(items, at + 1)?;
        let b = read_at::<Single>(items, at + 2)?;
        let c = read_at::<Single>(items, at + 3)?;
        let d = read_at::<Single>(items, at + 4)?;
        let tx = read_at::<Single>(items, at + 5)?;
        let ty = read_at::<Single>(items, at + 6)?;
        Ok(BonePose { bone_index, a, b, c, d, tx, ty })
    }
}

impl Pack for BonePose {
    open spec fn packed(v: BonePose) -> Seq<NodeView> {
        seq![
            usize::encoded(v.bone_index),
            Single::encoded(v.a),
            Single::encoded(v.b),
            Single::encoded(v.c),
            Single::encoded(v.d),
            Single::encoded(v.tx),
            Single::encoded(v.ty),
        ]
    }

    fn pack(&self, out: &mut Vec<Node>)
        ensures
            items_view(final(out)@) == items_view(old(out)@) + Self::packed(self@),
    {
        out.push(self.bone_index.encode());
        out.push(self.a.encode());
        out.push(self.b.encode());
        out.push(self.c.encode());
        out.push(self.d.encode());
        out.push(self.tx.encode());
        out.push(self.ty.encode());
        assert(items_view(out@) =~= items_view(old(out)@) + Self::packed(self@));
    }

    proof fn lemma_packed_len(v: BonePose) {
    }

    proof fn lemma_unpack_packed(items: Seq<NodeView>, at: int, v: BonePose) {
        let part = items.subrange(at, at + 7);
        assert(items[at] == part[0]);
        assert(items[at + 1] == part[1]);
        assert(items[at + 2] == part[2]);
        assert(items[at + 3] == part[3]);
        assert(items[at + 4] == part[4]);
        assert(items[at + 5] == part[5]);
        assert(items[at + 6] == part[6]);
    }
}

/// One thing that a slot can show.
#[derive(Clone, Debug, PartialEq, Eq)]
pub struct Display {
    /// The display object's name.
    pub name: String,
    /// What kind of thing it is; an image where it is not given.
    pub display_type: DisplayType,
    /// For an armature, the name of the armature shown; for a mesh, the name of its picture.
    /// Empty where it is not given.
    pub path: String,
    /// The name of the mesh that this one shares; empty where it is not given.
    pub share: String,
    /// Whether a shared mesh takes over the free-form deformation; true where it is not given.
    pub inherit_fdd: bool,
    /// The shape of a bounding box; a rectangle where it is not given.
    pub sub_type: BoundBoxType,
    /// The colour of a bounding box, passed on as it is; 0 where it is not given.
    pub color: u32,
    /// Where the object stands relative to its bone; the identity where it is not given.
    pub transform: Transform,
    /// The pivot, as a share of the object's size; its centre, (0.5, 0.5), where it is not
    /// given.
    pub pivot: Point,
    /// The width of a rectangle or an ellipse; 0 where it is not given.
    pub width: Single,
    /// The height of a rectangle or an ellipse; 0 where it is not given.
    pub height: Single,
    /// The vertices, relative to the pivot, packed as `x0, y0, x1, y1, ...`. Read only where
    /// the display object is a mesh, and empty otherwise.
    pub vertices: Vec<Point>,
    /// The texture coordinates of the vertices, packed as `u0, v0, u1, v1, ...`. Read only
    /// where the display object is a mesh, and empty otherwise.
    pub uvs: Vec<Point>,
    /// The triangles, as indices of vertices. Read only where the display object is a mesh, and
    /// empty otherwise.
    pub triangles: Vec<u32>,
    /// The weights of the bones, packed as `count, index, weight, ...`. Read only where the
    /// display object is a mesh, and empty otherwise.
    pub weights: Vec<Weight>,
    /// The bind matrices of the slot, packed as `a, b, c, d, tx, ty, ...`. Read only where the
    /// display object is a mesh, and empty otherwise.
    pub slot_pose: Vec<Matrix>,
    /// The bind matrices of the bones, packed as `index, a, b, c, d, tx, ty, ...`. Read only
    /// where the display object is a mesh, and empty otherwise.
    pub bone_pose: Vec<BonePose>,
}

/// The mathematical value of a [`Display`].
pub struct DisplayView {
    pub name: Seq<char>,
    pub display_type: DisplayTypeView,
    pub path: Seq<char>,
    pub share: Seq<char>,
    pub inherit_fdd: bool,
    pub sub_type: BoundBoxTypeView,
    pub color: u32,
    pub transform: Transform,
    pub pivot: Point,
    pub width: Single,
    pub height: Single,
    pub vertices: Seq<Point>,
    pub uvs: Seq<Point>,
    pub triangles: Seq<u32>,
    pub weights: Seq<Weight>,
    pub slot_pose: Seq<Matrix>,
    pub bone_pose: Seq<BonePose>,
}

impl View for Display {
    type V = DisplayView;

    open spec fn view(&self) -> DisplayView {
        DisplayView {
            name: self.name@,
            display_type: self.display_type@,
            path: self.path@,
            share: self.share@,
            inherit_fdd: self.inherit_fdd,
            sub_type: self.sub_type@,
            color: self.color,
            transform: self.transform,
            pivot: self.pivot,
            width: self.width,
            height: self.height,
            vertices: views(self.vertices@),
            uvs: views(self.uvs@),
            triangles: views(self.triangles@),
            weights: views(self.weights@),
            slot_pose: views(self.slot_pose@),
            bone_pose: views(self.bone_pose@),
        }
    }
}

impl Decode for Display {
    /// An object. It must hold `name`; every other field that it lacks takes its default. The
    /// six fields of a mesh are read only where `type` is `mesh`: for any other kind they are
    /// empty, whatever the object holds under their keys. The fields are read in the order in
    /// which they are declared, and the first failure is the result.
    open spec fn decoded(n: NodeView) -> Result<DisplayView, ErrorView> {
        match n {
            NodeView::Object(m) => {
                let name = field::<String>(m, "name"@);
                let display_type = field_or::<DisplayType>(m, "type"@, DisplayTypeView::Image);
                let mesh = display_type == Ok::<DisplayTypeView, ErrorView>(DisplayTypeView::Mesh);
                let path = field_or::<String>(m, "path"@, Seq::<char>::empty());
                let share = field_or::<String>(m, "share"@, Seq::<char>::empty());
                let inherit_fdd = field_or::<bool>(m, "inheritFDD"@, true);
                let sub_type = field_or::<BoundBoxType>(
                    m,
                    "subType"@,
                    BoundBoxTypeView::Rectangle,
                );
                let color = field_or::<u32>(m, "color"@, 0);
                let transform = field_or::<Transform>(m, "transform"@, Transform::initial());
                let pivot = field_or::<Point>(
                    m,
                    "pivot"@,
                    Point { x: Single { bits: HALF_BITS }, y: Single { bits: HALF_BITS } },
                );
                let width = field_or::<Single>(m, "width"@, Single { bits: ZERO_BITS });
                let height = field_or::<Single>(m, "height"@, Single { bits: ZERO_BITS });
                let vertices = if mesh {
                    packed_field::<Point>(m, "vertices"@)
                } else {
                    Ok(Seq::empty())
                };
                let uvs = if mesh {
                    packed_field::<Point>(m, "uvs"@)
                } else {
                    Ok(Seq::empty())
                };
                let triangles = if mesh {
                    list_field::<u32>(m, "triangles"@)
                } else {
                    Ok(Seq::empty())
                };
                let weights = if mesh {
                    packed_field::<Weight>(m, "weights"@)
                } else {
                    Ok(Seq::empty())
                };
                let slot_pose = if mesh {
                    packed_field::<Matrix>(m, "slotPose"@)
                } else {
                    Ok(Seq::empty())
                };
                let bone_pose = if mesh {
                    packed_field::<BonePose>(m, "bonePose"@)
                } else {
                    Ok(Seq::empty())
                };
                if name is Err {
                    Err(name->Err_0)
                } else if display_type is Err {
                    Err(display_type->Err_0)
                } else if path is Err {
                    Err(path->Err_0)
                } else if share is Err {
                    Err(share->Err_0)
                } else if inherit_fdd is Err {
                    Err(inherit_fdd->Err_0)
                } else if sub_type is Err {
                    Err(sub_type->Err_0)
                } else if color is Err {
                    Err(color->Err_0)
                } else if transform is Err {
                    Err(transform->Err_0)
                } else if pivot is Err {
                    Err(pivot->Err_0)
                } else if width is Err {
                    Err(width->Err_0)
                } else if height is Err {
                    Err(height->Err_0)
                } else if vertices is Err {
                    Err(vertices->Err_0)
                } else if uvs is Err {
                    Err(uvs->Err_0)
                } else if triangles is Err {
                    Err(triangles->Err_0)
                } else if weights is Err {
                    Err(weights->Err_0)
                } else if slot_pose is Err {
                    Err(slot_pose->Err_0)
                } else if bone_pose is Err {
                    Err(bone_pose->Err_0)
                } else {
                    Ok(
                        DisplayView {
                            name: name->Ok_0,
                            display_type: display_type->Ok_0,
                            path: path->Ok_0,
                            share: share->Ok_0,
                            inherit_fdd: inherit_fdd->Ok_0,
                            sub_type: sub_type->Ok_0,
                            color: color->Ok_0,
                            transform: transform->Ok_0,
                            pivot: pivot->Ok_0,
                            width: width->Ok_0,
                            height: height->Ok_0,
                            vertices: vertices->Ok_0,
                            uvs: uvs->Ok_0,
                            triangles: triangles->Ok_0,
                            weights: weights->Ok_0,
                            slot_pose: slot_pose->Ok_0,
                            bone_pose: bone_pose->Ok_0,
                        },
                    )
                }
            },
            _ => Err(ErrorView::mismatch(Shape::Object, kind_of(n))),
        }
    }

    fn decode(node: &Node) -> (r: Result<Display, DecodeError>)
        ensures
            outcome(r) == Self::decoded(node@),
    {
        let m = members_of(node)?;
        let name = read::<String>(m, "name")?;
        let display_type = read_or::<DisplayType>(m, "type", DisplayType::Image)?;
        let mesh = matches!(display_type, DisplayType::Mesh);
        let path = read_or::<String>(m, "path", String::new())?;
        let share = read_or::<String>(m, "share", String::new())?;
        let inherit_fdd = read_or::<bool>(m, "inheritFDD", default_display_inherit_fdd())?;
        let sub_type = read_or::<BoundBoxType>(m, "subType", default_display_sub_type())?;
        let color = read_or::<u32>(m, "color", 0)?;
        let transform = read_or::<Transform>(m, "transform", Transform::default())?;
        let pivot = read_or::<Point>(m, "pivot", default_display_pivot())?;
        let width = read_or::<Single>(m, "width", Single { bits: ZERO_BITS })?;
        let height = read_or::<Single>(m, "height", Single { bits: ZERO_BITS })?;
        let vertices = if mesh {
            read_packed::<Point>(m, "vertices")?
        } else {
            empty_list::<Point>()
        };
        let uvs = if mesh {
            read_packed::<Point>(m, "uvs")?
        } else {
            empty_list::<Point>()
        };
        let triangles = if mesh {
            read_list::<u32>(m, "triangles")?
        } else {
            empty_list::<u32>()
        };
        let weights = if mesh {
            read_packed::<Weight>(m, "weights")?
        } else {
            empty_list::<Weight>()
        };
        let slot_pose = if mesh {
            read_packed::<Matrix>(m, "slotPose")?
        } else {
            empty_list::<Matrix>()
        };
        let bone_pose = if mesh {
            read_packed::<BonePose>(m, "bonePose")?
        } else {
            empty_list::<BonePose>()
        };
        Ok(
            Display {
                name,
                display_type,
                path,
                share,
                inherit_fdd,
                sub_type,
                color,
                transform,
                pivot,
                width,
                height,
                vertices,
                uvs,
                triangles,
                weights,
                slot_pose,
                bone_pose,
            },
        )
    }
}

impl Encode for Display {
    open spec fn regular(v: DisplayView) -> bool {
        &&& DisplayType::regular(v.display_type)
        &&& BoundBoxType::regular(v.sub_type)
        &&& !(v.display_type is Mesh) ==> v.vertices == Seq::<Point>::empty()
        &&& !(v.display_type is Mesh) ==> v.uvs == Seq::<Point>::empty()
        &&& !(v.display_type is Mesh) ==> v.triangles == Seq::<u32>::empty()
        &&& !(v.display_type is Mesh) ==> v.weights == Seq::<Weight>::empty()
        &&& !(v.display_type is Mesh) ==> v.slot_pose == Seq::<Matrix>::empty()
        &&& !(v.display_type is Mesh) ==> v.bone_pose == Seq::<BonePose>::empty()
    }

    open spec fn encoded(v: DisplayView) -> NodeView {
        NodeView::Object(
            seq![
                ("name"@, String::encoded(v.name)),
                ("type"@, DisplayType::encoded(v.display_type)),
                ("path"@, String::encoded(v.path)),
                ("share"@, String::encoded(v.share)),
                ("inheritFDD"@, bool::encoded(v.inherit_fdd)),
                ("subType"@, BoundBoxType::encoded(v.sub_type)),
                ("color"@, u32::encoded(v.color)),
                ("transform"@, Transform::encoded(v.transform)),
                ("pivot"@, Point::encoded(v.pivot)),
                ("width"@, Single::encoded(v.width)),
                ("height"@, Single::encoded(v.height)),
                ("vertices"@, NodeView::List(packed_list::<Point>(v.vertices))),
                ("uvs"@, NodeView::List(packed_list::<Point>(v.uvs))),
                ("triangles"@, NodeView::List(encoded_list::<u32>(v.triangles))),
                ("weights"@, NodeView::List(packed_list::<Weight>(v.weights))),
                ("slotPose"@, NodeView::List(packed_list::<Matrix>(v.slot_pose))),
                ("bonePose"@, NodeView::List(packed_list::<BonePose>(v.bone_pose))),
            ],
        )
    }

    fn encode(&self) -> (n: Node)
        ensures
            n@ == Self::encoded(self@),
    {
        let mut m: Vec<Member> = Vec::new();
        put(&mut m, "name", self.name.encode());
        put(&mut m, "type", self.display_type.encode());
        put(&mut m, "path", self.path.encode());
        put(&mut m, "share", self.share.encode());
        put(&mut m, "inheritFDD", self.inherit_fdd.encode());
        put(&mut m, "subType", self.sub_type.encode());
        put(&mut m, "color", self.color.encode());
        put(&mut m, "transform", self.transform.encode());
        put(&mut m, "pivot", self.pivot.encode());
        put(&mut m, "width", self.width.encode());
        put(&mut m, "height", self.height.encode());
        put(&mut m, "vertices", encode_packed::<Point>(&self.vertices));
        put(&mut m, "uvs", encode_packed::<Point>(&self.uvs));
        put(&mut m, "triangles", encode_list::<u32>(&self.triangles));
        put(&mut m, "weights", encode_packed::<Weight>(&self.weights));
        put(&mut m, "slotPose", encode_packed::<Matrix>(&self.slot_pose));
        put(&mut m, "bonePose", encode_packed::<BonePose>(&self.bone_pose));
        let n = object(m);
        assert(n@->Object_0 =~= Self::encoded(self@)->Object_0);
        n
    }

    proof fn decoded_is_regular(n: NodeView) {
        match n {
            NodeView::Object(m) => {
                lemma_field_or_regular::<DisplayType>(m, "type"@, DisplayTypeView::Image);
                lemma_field_or_regular::<BoundBoxType>(m, "subType"@, BoundBoxTypeView::Rectangle);
            },
            _ => {},
        }
    }

    proof fn round_trip(v: DisplayView) {
        let m = Self::encoded(v)->Object_0;
        lemma_display_lookups(v);
        String::round_trip(v.name);
        DisplayType::round_trip(v.display_type);
        String::round_trip(v.path);
        String::round_trip(v.share);
        bool::round_trip(v.inherit_fdd);
        BoundBoxType::round_trip(v.sub_type);
        u32::round_trip(v.color);
        Transform::round_trip(v.transform);
        Point::round_trip(v.pivot);
        Single::round_trip(v.width);
        Single::round_trip(v.height);
        lemma_packed_round_trip::<Point>(v.vertices);
        lemma_packed_round_trip::<Point>(v.uvs);
        lemma_list_round_trip::<u32>(v.triangles);
        lemma_packed_round_trip::<Weight>(v.weights);
        lemma_packed_round_trip::<Matrix>(v.slot_pose);
        lemma_packed_round_trip::<BonePose>(v.bone_pose);
    }
}

/// In the object written for a display object, each key is found, and with the value written
/// for it.
proof fn lemma_display_lookups(v: DisplayView)
    ensures
        lookup(Display::encoded(v)->Object_0, "name"@) == Some(String::encoded(v.name)),
        lookup(Display::encoded(v)->Object_0, "type"@) == Some(
            DisplayType::encoded(v.display_type),
        ),
        lookup(Display::encoded(v)->Object_0, "path"@) == Some(String::encoded(v.path)),
        lookup(Display::encoded(v)->Object_0, "share"@) == Some(String::encoded(v.share)),
        lookup(Display::encoded(v)->Object_0, "inheritFDD"@) == Some(bool::encoded(v.inherit_fdd)),
        lookup(Display::encoded(v)->Object_0, "subType"@) == Some(
            BoundBoxType::encoded(v.sub_type),
        ),
        lookup(Display::encoded(v)->Object_0, "color"@) == Some(u32::encoded(v.color)),
        lookup(Display::encoded(v)->Object_0, "transform"@) == Some(
            Transform::encoded(v.transform),
        ),
        lookup(Display::encoded(v)->Object_0, "pivot"@) == Some(Point::encoded(v.pivot)),
        lookup(Display::encoded(v)->Object_0, "width"@) == Some(Single::encoded(v.width)),
        lookup(Display::encoded(v)->Object_0, "height"@) == Some(Single::encoded(v.height)),
        lookup(Display::encoded(v)->Object_0, "vertices"@) == Some(
            NodeView::List(packed_list::<Point>(v.vertices)),
        ),
        lookup(Display::encoded(v)->Object_0, "uvs"@) == Some(
            NodeView::List(packed_list::<Point>(v.uvs)),
        ),
        lookup(Display::encoded(v)->Object_0, "triangles"@) == Some(
            NodeView::List(encoded_list::<u32>(v.triangles)),
        ),
        lookup(Display::encoded(v)->Object_0, "weights"@) == Some(
            NodeView::List(packed_list::<Weight>(v.weights)),
        ),
        lookup(Display::encoded(v)->Object_0, "slotPose"@) == Some(
            NodeView::List(packed_list::<Matrix>(v.slot_pose)),
        ),
        lookup(Display::encoded(v)->Object_0, "bonePose"@) == Some(
            NodeView::List(packed_list::<BonePose>(v.bone_pose)),
        ),
{
    let m = Display::encoded(v)->Object_0;
    reveal_strlit("name");
    assert("name"@.len() == 4 && "name"@[0] == 'n');
    reveal_strlit("type");
    assert("type"@.len() == 4 && "type"@[0] == 't');
    reveal_strlit("path");
    assert("path"@.len() == 4 && "path"@[0] == 'p');
    reveal_strlit("share");
    assert("share"@.len() == 5 && "share"@[0] == 's');
    reveal_strlit("inheritFDD");
    assert("inheritFDD"@.len() == 10);
    reveal_strlit("subType");
    assert("subType"@.len() == 7 && "subType"@[0] == 's');
    reveal_strlit("color");
    assert("color"@.len() == 5 && "color"@[0] == 'c');
    reveal_strlit("transform");
    assert("transform"@.len() == 9 && "transform"@[2] == 'a');
    reveal_strlit("pivot");
    assert("pivot"@.len() == 5 && "pivot"@[0] == 'p');
    reveal_strlit("width");
    assert("width"@.len() == 5 && "width"@[0] == 'w');
    reveal_strlit("height");
    assert("height"@.len() == 6);
    reveal_strlit("vertices");
    assert("vertices"@.len() == 8 && "vertices"@[0] == 'v');
    reveal_strlit("uvs");
    assert("uvs"@.len() == 3);
    reveal_strlit("triangles");
    assert("triangles"@.len() == 9 && "triangles"@[2] == 'i');
    reveal_strlit("weights");
    assert("weights"@.len() == 7 && "weights"@[0] == 'w');
    reveal_strlit("slotPose");
    assert("slotPose"@.len() == 8 && "slotPose"@[0] == 's');
    reveal_strlit("bonePose");
    assert("bonePose"@.len() == 8 && "bonePose"@[0] == 'b');
    lemma_lookup_at(m, "name"@, 0);
    lemma_lookup_at(m, "type"@, 1);
    lemma_lookup_at(m, "path"@, 2);
    lemma_lookup_at(m, "share"@, 3);
    lemma_lookup_at(m, "inheritFDD"@, 4);
    lemma_lookup_at(m, "subType"@, 5);
    lemma_lookup_at(m, "color"@, 6);
    lemma_lookup_at(m, "transform"@, 7);
    lemma_lookup_at(m, "pivot"@, 8);
    lemma_lookup_at(m, "width"@, 9);
    lemma_lookup_at(m, "height"@, 10);
    lemma_lookup_at(m, "vertices"@, 11);
    lemma_lookup_at(m, "uvs"@, 12);
    lemma_lookup_at(m, "triangles"@, 13);
    lemma_lookup_at(m, "weights"@, 14);
    lemma_lookup_at(m, "slotPose"@, 15);
    lemma_lookup_at(m, "bonePose"@, 16);
}

/// An object that holds the fields that a display object must have, rightly shaped, and none of
/// the optional ones decodes to a display object in which every optional field has its default.
pub proof fn law_minimal_display(
    m: Seq<(Seq<char>, NodeView)>,
    name: Seq<char>,
)
    requires
        lookup(m, "name"@) == Some(NodeView::Text(name)),
        lookup(m, "type"@) is None,
        lookup(m, "path"@) is None,
        lookup(m, "share"@) is None,
        lookup(m, "inheritFDD"@) is None,
        lookup(m, "subType"@) is None,
        lookup(m, "color"@) is None,
        lookup(m, "transform"@) is None,
        lookup(m, "pivot"@) is None,
        lookup(m, "width"@) is None,
        lookup(m, "height"@) is None,
        lookup(m, "vertices"@) is None,
        lookup(m, "uvs"@) is None,
        lookup(m, "triangles"@) is None,
        lookup(m, "weights"@) is None,
        lookup(m, "slotPose"@) is None,
        lookup(m, "bonePose"@) is None,
    ensures
        Display::decoded(NodeView::Object(m)) == Ok::<DisplayView, ErrorView>(
            DisplayView {
                name,
                display_type: DisplayTypeView::Image,
                path: Seq::<char>::empty(),
                share: Seq::<char>::empty(),
                inherit_fdd: true,
                sub_type: BoundBoxTypeView::Rectangle,
                color: 0,
                transform: Transform::initial(),
                pivot: Point { x: Single { bits: HALF_BITS }, y: Single { bits: HALF_BITS } },
                width: Single { bits: ZERO_BITS },
                height: Single { bits: ZERO_BITS },
                vertices: Seq::empty(),
                uvs: Seq::empty(),
                triangles: Seq::empty(),
                weights: Seq::empty(),
                slot_pose: Seq::empty(),
                bone_pose: Seq::empty(),
            },
        ),
{
}

/// An object that lacks `name` is refused as a display object, for the lack of `name`, whatever
/// else it holds.
pub proof fn law_display_requires_name(m: Seq<(Seq<char>, NodeView)>)
    requires
        lookup(m, "name"@) is None,
    ensures
        Display::decoded(NodeView::Object(m)) == Err::<DisplayView, ErrorView>(
            ErrorView::missing("name"@),
        ),
{
}

/// A display object of a kind that this library does not know decodes all the same: an object
/// that holds a name, a `type` that is none of the known ones, and no other optional field
/// decodes to a display object of the open kind, which holds the name of the kind letter for
/// letter.
pub proof fn law_unknown_display(m: Seq<(Seq<char>, NodeView)>, name: Seq<char>, tag: Seq<char>)
    requires
        lookup(m, "name"@) == Some(NodeView::Text(name)),
        lookup(m, "type"@) == Some(NodeView::Text(tag)),
        !DisplayType::known(tag),
        lookup(m, "path"@) is None,
        lookup(m, "share"@) is None,
        lookup(m, "inheritFDD"@) is None,
        lookup(m, "subType"@) is None,
        lookup(m, "color"@) is None,
        lookup(m, "transform"@) is None,
        lookup(m, "pivot"@) is None,
        lookup(m, "width"@) is None,
        lookup(m, "height"@) is None,
        lookup(m, "vertices"@) is None,
        lookup(m, "uvs"@) is None,
        lookup(m, "triangles"@) is None,
        lookup(m, "weights"@) is None,
        lookup(m, "slotPose"@) is None,
        lookup(m, "bonePose"@) is None,
    ensures
        Display::decoded(NodeView::Object(m)) == Ok::<DisplayView, ErrorView>(
            DisplayView {
                name,
                display_type: DisplayTypeView::Other(tag),
                path: Seq::<char>::empty(),
                share: Seq::<char>::empty(),
                inherit_fdd: true,
                sub_type: BoundBoxTypeView::Rectangle,
                color: 0,
                transform: Transform::initial(),
                pivot: Point { x: Single { bits: HALF_BITS }, y: Single { bits: HALF_BITS } },
                width: Single { bits: ZERO_BITS },
                height: Single { bits: ZERO_BITS },
                vertices: Seq::empty(),
                uvs: Seq::empty(),
                triangles: Seq::empty(),
                weights: Seq::empty(),
                slot_pose: Seq::empty(),
                bone_pose: Seq::empty(),
            },
        ),
{
}

/// What one slot can show within a skin.
#[derive(Clone, Debug, PartialEq, Eq)]
pub struct SkinSlot {
    /// The name of the slot, kept as it was found.
    pub name: String,
    /// The display objects, in the order that display indices count them in.
    pub display: Vec<Display>,
}

/// The mathematical value of a [`SkinSlot`].
pub struct SkinSlotView {
    pub name: Seq<char>,
    pub display: Seq<DisplayView>,
}

impl View for SkinSlot {
    type V = SkinSlotView;

    open spec fn view(&self) -> SkinSlotView {
        SkinSlotView {
            name: self.name@,
            display: views(self.display@),
        }
    }
}

impl Decode for SkinSlot {
    /// An object. It must hold `name`; every other field that it lacks takes its default, and a
    /// list that it lacks is empty. The fields are read in the order in which they are
    /// declared, and the first failure is the result.
    open spec fn decoded(n: NodeView) -> Result<SkinSlotView, ErrorView> {
        match n {
            NodeView::Object(m) => {
                let name = field::<String>(m, "name"@);
                let display = list_field::<Display>(m, "display"@);
                if name is Err {
                    Err(name->Err_0)
                } else if display is Err {
                    Err(display->Err_0)
                } else {
                    Ok(
                        SkinSlotView {
                            name: name->Ok_0,
                            display: display->Ok_0,
                        },
                    )
                }
            },
            _ => Err(ErrorView::mismatch(Shape::Object, kind_of(n))),
        }
    }

    fn decode(node: &Node) -> (r: Result<SkinSlot, DecodeError>)
        ensures
            outcome(r) == Self::decoded(node@),
    {
        let m = members_of(node)?;
        let name = read::<String>(m, "name")?;
        let display = read_list::<Display>(m, "display")?;
        Ok(SkinSlot { name, display })
    }
}

impl Encode for SkinSlot {
    open spec fn regular(v: SkinSlotView) -> bool {
        &&& all_regular::<Display>(v.display)
    }

    open spec fn encoded(v: SkinSlotView) -> NodeView {
        NodeView::Object(
            seq![
                ("name"@, String::encoded(v.name)),
                ("display"@, NodeView::List(encoded_list::<Display>(v.display))),
            ],
        )
    }

    fn encode(&self) -> (n: Node)
        ensures
            n@ == Self::encoded(self@),
    {
        let mut m: Vec<Member> = Vec::new();
        put(&mut m, "name", self.name.encode());
        put(&mut m, "display", encode_list::<Display>(&self.display));
        let n = object(m);
        assert(n@->Object_0 =~= Self::encoded(self@)->Object_0);
        n
    }

    proof fn decoded_is_regular(n: NodeView) {
        match n {
            NodeView::Object(m) => {
                lemma_list_field_regular::<Display>(m, "display"@);
            },
            _ => {},
        }
    }

    proof fn round_trip(v: SkinSlotView) {
        let m = Self::encoded(v)->Object_0;
        lemma_skin_slot_lookups(v);
        String::round_trip(v.name);
        lemma_list_round_trip::<Display>(v.display);
    }
}

/// In the object written for a skin slot, each key is found, and with the value written for it.
proof fn lemma_skin_slot_lookups(v: SkinSlotView)
    ensures
        lookup(SkinSlot::encoded(v)->Object_0, "name"@) == Some(String::encoded(v.name)),
        lookup(SkinSlot::encoded(v)->Object_0, "display"@) == Some(
            NodeView::List(encoded_list::<Display>(v.display)),
        ),
{
    let m = SkinSlot::encoded(v)->Object_0;
    reveal_strlit("name");
    assert("name"@.len() == 4);
    reveal_strlit("display");
    assert("display"@.len() == 7);
    lemma_lookup_at(m, "name"@, 0);
    lemma_lookup_at(m, "display"@, 1);
}

/// An object that holds the fields that a skin slot must have, rightly shaped, and none of the
/// optional ones decodes to a skin slot in which every optional field has its default.
pub proof fn law_minimal_skin_slot(
    m: Seq<(Seq<char>, NodeView)>,
    name: Seq<char>,
)
    requires
        lookup(m, "name"@) == Some(NodeView::Text(name)),
        lookup(m, "display"@) is None,
    ensures
        SkinSlot::decoded(NodeView::Object(m)) == Ok::<SkinSlotView, ErrorView>(
            SkinSlotView {
                name,
                display: Seq::empty(),
            },
        ),
{
}

/// An object that lacks `name` is refused as a skin slot, for the lack of `name`, whatever else
/// it holds.
pub proof fn law_skin_slot_requires_name(m: Seq<(Seq<char>, NodeView)>)
    requires
        lookup(m, "name"@) is None,
    ensures
        SkinSlot::decoded(NodeView::Object(m)) == Err::<SkinSlotView, ErrorView>(
            ErrorView::missing("name"@),
        ),
{
}

/// A named costume: what a slot shows while the skin is worn.
#[derive(Clone, Debug, PartialEq, Eq)]
pub struct Skin {
    /// The skin's name.
    pub name: String,
    /// The slot that the skin dresses, with its display objects.
    pub slot: SkinSlot,
}

/// The mathematical value of a [`Skin`].
pub struct SkinView {
    pub name: Seq<char>,
    pub slot: SkinSlotView,
}

impl View for Skin {
    type V = SkinView;

    open spec fn view(&self) -> SkinView {
        SkinView {
            name: self.name@,
            slot: self.slot@,
        }
    }
}

impl Decode for Skin {
    /// An object. It must hold `name`, `slot`; every other field that it lacks takes its
    /// default, and a list that it lacks is empty. The fields are read in the order in which
    /// they are declared, and the first failure is the result.
    open spec fn decoded(n: NodeView) -> Result<SkinView, ErrorView> {
        match n {
            NodeView::Object(m) => {
                let name = field::<String>(m, "name"@);
                let slot = field::<SkinSlot>(m, "slot"@);
                if name is Err {
                    Err(name->Err_0)
                } else if slot is Err {
                    Err(slot->Err_0)
                } else {
                    Ok(
                        SkinView {
                            name: name->Ok_0,
                            slot: slot->Ok_0,
                        },
                    )
                }
            },
            _ => Err(ErrorView::mismatch(Shape::Object, kind_of(n))),
        }
    }

    fn decode(node: &Node) -> (r: Result<Skin, DecodeError>)
        ensures
            outcome(r) == Self::decoded(node@),
    {
        let m = members_of(node)?;
        let name = read::<String>(m, "name")?;
        let slot = read::<SkinSlot>(m, "slot")?;
        Ok(Skin { name, slot })
    }
}

impl Encode for Skin {
    open spec fn regular(v: SkinView) -> bool {
        &&& SkinSlot::regular(v.slot)
    }

    open spec fn encoded(v: SkinView) -> NodeView {
        NodeView::Object(
            seq![
                ("name"@, String::encoded(v.name)),
                ("slot"@, SkinSlot::encoded(v.slot)),
            ],
        )
    }

    fn encode(&self) -> (n: Node)
        ensures
            n@ == Self::encoded(self@),
    {
        let mut m: Vec<Member> = Vec::new();
        put(&mut m, "name", self.name.encode());
        put(&mut m, "slot", self.slot.encode());
        let n = object(m);
        assert(n@->Object_0 =~= Self::encoded(self@)->Object_0);
        n
    }

    proof fn decoded_is_regular(n: NodeView) {
        match n {
            NodeView::Object(m) => {
                lemma_field_regular::<SkinSlot>(m, "slot"@);
            },
            _ => {},
        }
    }

    proof fn round_trip(v: SkinView) {
        let m = Self::encoded(v)->Object_0;
        lemma_skin_lookups(v);
        String::round_trip(v.name);
        SkinSlot::round_trip(v.slot);
    }
}

/// In the object written for a skin, each key is found, and with the value written for it.
proof fn lemma_skin_lookups(v: SkinView)
    ensures
        lookup(Skin::encoded(v)->Object_0, "name"@) == Some(String::encoded(v.name)),
        lookup(Skin::encoded(v)->Object_0, "slot"@) == Some(SkinSlot::encoded(v.slot)),
{
    let m = Skin::encoded(v)->Object_0;
    reveal_strlit("name");
    assert("name"@.len() == 4 && "name"@[0] == 'n');
    reveal_strlit("slot");
    assert("slot"@.len() == 4 && "slot"@[0] == 's');
    lemma_lookup_at(m, "name"@, 0);
    lemma_lookup_at(m, "slot"@, 1);
}

/// An object that holds the fields that a skin must have, rightly shaped, and none of the
/// optional ones decodes to a skin in which every optional field has its default.
pub proof fn law_minimal_skin(
    m: Seq<(Seq<char>, NodeView)>,
    name: Seq<char>,
    slot_node: NodeView,
    slot: SkinSlotView,
)
    requires
        lookup(m, "name"@) == Some(NodeView::Text(name)),
        lookup(m, "slot"@) == Some(slot_node),
        SkinSlot::decoded(slot_node) == Ok::<SkinSlotView, ErrorView>(slot),
    ensures
        Skin::decoded(NodeView::Object(m)) == Ok::<SkinView, ErrorView>(
            SkinView {
                name,
                slot,
            },
        ),
{
}

/// An object that lacks `name` is refused as a skin, for the lack of `name`, whatever else it
/// holds.
pub proof fn law_skin_requires_name(m: Seq<(Seq<char>, NodeView)>)
    requires
        lookup(m, "name"@) is None,
    ensures
        Skin::decoded(NodeView::Object(m)) == Err::<SkinView, ErrorView>(
            ErrorView::missing("name"@),
        ),
{
}

/// An object that holds `name`, rightly shaped, and lacks `slot` is refused as a skin, for the
/// lack of `slot`.
pub proof fn law_skin_requires_slot(m: Seq<(Seq<char>, NodeView)>)
    requires
        field::<String>(m, "name"@) is Ok,
        lookup(m, "slot"@) is None,
    ensures
        Skin::decoded(NodeView::Object(m)) == Err::<SkinView, ErrorView>(
            ErrorView::missing("slot"@),
        ),
{
}

} // verus!

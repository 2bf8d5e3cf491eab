//! Points, matrices, transforms and colour overlays: records of reals.

use vstd::prelude::*;
use crate::decode::{
    decode_record, decoded_record, element, field, field_or, members_of, read, read_at, read_or,
    Decode, Packed,
};
use crate::encode::{
    encode_record, lemma_lookup_at, lemma_record_round_trip, object, put, Encode, Pack,
};
use crate::error::{outcome, DecodeError, ErrorView, Shape};
use crate::node::{items_view, kind_of, lookup, Member, Node, NodeView};
use crate::single::{Single, HUNDRED_BITS, ONE_BITS, ZERO_BITS};

verus! {

/// A pair of coordinates.
#[derive(Clone, Copy, Debug, PartialEq, Eq, Structural)]
pub struct Point {
    /// Horizontal coordinate.
    pub x: Single,
    /// Vertical coordinate.
    pub y: Single,
}

impl View for Point {
    type V = Point;

    open spec fn view(&self) -> Point {
        *self
    }
}

impl Packed for Point {
    open spec fn arity() -> nat {
        2
    }

    /// Two neighbouring values of the list, read in this order: `x`, `y`. The first of them
    /// that fails is the result.
    open spec fn unpacked(items: Seq<NodeView>, at: int) -> Result<Point, ErrorView> {
        let x = element::<Single>(items, at);
        let y = element::<Single>(items, at + 1);
        if x is Err {
            Err(x->Err_0)
        } else if y is Err {
            Err(y->Err_0)
        } else {
            Ok(Point { x: x->Ok_0, y: y->Ok_0 })
        }
    }

    fn width() -> (w: usize)
        ensures
            w == 2,
    {
        2
    }

    fn unpack(items: &Vec<Node>, at: usize) -> (r: Result<Point, DecodeError>)
        ensures
            outcome(r) == Self::unpacked(items_view(items@), at as int),
    {
        let x = read_at::<Single>(items, at)?;
        let y = read_at::<Single>(items, at + 1)?;
        Ok(Point { x, y })
    }
}

impl Pack for Point {
    open spec fn packed(v: Point) -> Seq<NodeView> {
        seq![
            Single::encoded(v.x),
            Single::encoded(v.y),
        ]
    }

    fn pack(&self, out: &mut Vec<Node>)
        ensures
            items_view(final(out)@) == items_view(old(out)@) + Self::packed(self@),
    {
        out.push(self.x.encode());
        out.push(self.y.encode());
        assert(items_view(out@) =~= items_view(old(out)@) + Self::packed(self@));
    }

    proof fn lemma_packed_len(v: Point) {
    }

    proof fn lemma_unpack_packed(items: Seq<NodeView>, at: int, v: Point) {
        let part = items.subrange(at, at + 2);
        assert(items[at] == part[0]);
        assert(items[at + 1] == part[1]);
    }
}

impl Decode for Point {
    /// A list of exactly two numbers.
    open spec fn decoded(n: NodeView) -> Result<Point, ErrorView> {
        decoded_record::<Point>(n)
    }

    fn decode(node: &Node) -> (r: Result<Point, DecodeError>)
        ensures
            outcome(r) == Self::decoded(node@),
    {
        decode_record::<Point>(node)
    }
}

impl Encode for Point {
    open spec fn regular(v: Point) -> bool {
        true
    }

    open spec fn encoded(v: Point) -> NodeView {
        NodeView::List(Self::packed(v))
    }

    fn encode(&self) -> (n: Node)
        ensures
            n@ == Self::encoded(self@),
    {
        encode_record::<Point>(self)
    }

    proof fn decoded_is_regular(n: NodeView) {
    }

    proof fn round_trip(v: Point) {
        lemma_record_round_trip::<Point>(v);
    }
}

/// A 2D affine matrix, as the six numbers `a, b, c, d, tx, ty`.
#[derive(Clone, Copy, Debug, PartialEq, Eq, Structural)]
pub struct Matrix {
    /// Horizontal scale.
    pub a: Single,
    /// Vertical shear.
    pub b: Single,
    /// Horizontal shear.
    pub c: Single,
    /// Vertical scale.
    pub d: Single,
    /// Horizontal displacement.
    pub tx: Single,
    /// Vertical displacement.
    pub ty: Single,
}

impl View for Matrix {
    type V = Matrix;

    open spec fn view(&self) -> Matrix {
        *self
    }
}

impl Packed for Matrix {
    open spec fn arity() -> nat {
        6
    }

    /// Six neighbouring values of the list, read in this order: `a`, `b`, `c`, `d`, `tx`, `ty`.
    /// The first of them that fails is the result.
    open spec fn unpacked(items: Seq<NodeView>, at: int) -> Result<Matrix, ErrorView> {
        let a = element::<Single>(items, at);
        let b = element::<Single>(items, at + 1);
        let c = element::<Single>(items, at + 2);
        let d = element::<Single>(items, at + 3);
        let tx = element::<Single>(items, at + 4);
        let ty = element::<Single>(items, at + 5);
        if a is Err {
            Err(a->Err_0)
        } else if b is Err {
            Err(b->Err_0)
        } else if c is Err {
            Err(c->Err_0)
        } else if d is Err {
            Err(d->Err_0)
        } else if tx is Err {
            Err(tx->Err_0)
        } else if ty is Err {
            Err(ty->Err_0)
        } else {
            Ok(
                Matrix {
                    a: a->Ok_0,
                    b: b->Ok_0,
                    c: c->Ok_0,
                    d: d->Ok_0,
                    tx: tx->Ok_0,
                    ty: ty->Ok_0,
                },
            )
        }
    }

    fn width() -> (w: usize)
        ensures
            w == 6,
    {
        6
    }

    fn unpack(items: &Vec<Node>, at: usize) -> (r: Result<Matrix, DecodeError>)
        ensures
            outcome(r) == Self::unpacked(items_view(items@), at as int),
    {
        let a = read_at::<Single>(items, at)?;
        let b = read_at::<Single>(items, at + 1)?;
        let c = read_at::<Single>(items, at + 2)?;
        let d = read_at::<Single>(items, at + 3)?;
        let tx = read_at::<Single>(items, at + 4)?;
        let ty = read_at::<Single>(items, at + 5)?;
        Ok(Matrix { a, b, c, d, tx, ty })
    }
}

impl Pack for Matrix {
    open spec fn packed(v: Matrix) -> Seq<NodeView> {
        seq![
            Single::encoded(v.a),
            Single::encoded(v.b),
            Single::encoded(v.c),
            Single::encoded(v.d),
            Single::encoded(v.tx),
            Single::encoded(v.ty),
        ]
    }

    fn pack(&self, out: &mut Vec<Node>)
        ensures
            items_view(final(out)@) == items_view(old(out)@) + Self::packed(self@),
    {
        out.push(self.a.encode());
        out.push(self.b.encode());
        out.push(self.c.encode());
        out.push(self.d.encode());
        out.push(self.tx.encode());
        out.push(self.ty.encode());
        assert(items_view(out@) =~= items_view(old(out)@) + Self::packed(self@));
    }

    proof fn lemma_packed_len(v: Matrix) {
    }

    proof fn lemma_unpack_packed(items: Seq<NodeView>, at: int, v: Matrix) {
        let part = items.subrange(at, at + 6);
        assert(items[at] == part[0]);
        assert(items[at + 1] == part[1]);
        assert(items[at + 2] == part[2]);
        assert(items[at + 3] == part[3]);
        assert(items[at + 4] == part[4]);
        assert(items[at + 5] == part[5]);
    }
}

/// Displacement, skew and scale of a bone or a display object.
#[derive(Clone, Copy, Debug, PartialEq, Eq, Structural)]
pub struct Transform {
    /// Horizontal displacement; 0 where it is not given.
    pub x: Single,
    /// Vertical displacement; 0 where it is not given.
    pub y: Single,
    /// Horizontal skew; 0 where it is not given.
    pub sk_x: Single,
    /// Vertical skew; 0 where it is not given.
    pub sk_y: Single,
    /// Horizontal scale; 1 where it is not given.
    pub sc_x: Single,
    /// Vertical scale; 1 where it is not given.
    pub sc_y: Single,
}

impl View for Transform {
    type V = Transform;

    open spec fn view(&self) -> Transform {
        *self
    }
}

impl Transform {
    /// The transform that changes nothing: no displacement, no skew, scale one.
    pub open spec fn initial() -> Transform {
        Transform {
            x: Single { bits: ZERO_BITS },
            y: Single { bits: ZERO_BITS },
            sk_x: Single { bits: ZERO_BITS },
            sk_y: Single { bits: ZERO_BITS },
            sc_x: Single { bits: ONE_BITS },
            sc_y: Single { bits: ONE_BITS },
        }
    }
}

impl Default for Transform {
    fn default() -> (r: Transform)
        ensures
            r@ == Transform::initial(),
    {
        Transform {
            x: Single { bits: ZERO_BITS },
            y: Single { bits: ZERO_BITS },
            sk_x: Single { bits: ZERO_BITS },
            sk_y: Single { bits: ZERO_BITS },
            sc_x: Single { bits: ONE_BITS },
            sc_y: Single { bits: ONE_BITS },
        }
    }
}

impl Decode for Transform {
    /// An object. Every field that it lacks takes its default, and a list that it lacks is
    /// empty. The fields are read in the order in which they are declared, and the first
    /// failure is the result.
    open spec fn decoded(n: NodeView) -> Result<Transform, ErrorView> {
        match n {
            NodeView::Object(m) => {
                let x = field_or::<Single>(m, "x"@, Single { bits: ZERO_BITS });
                let y = field_or::<Single>(m, "y"@, Single { bits: ZERO_BITS });
                let sk_x = field_or::<Single>(m, "skX"@, Single { bits: ZERO_BITS });
                let sk_y = field_or::<Single>(m, "skY"@, Single { bits: ZERO_BITS });
                let sc_x = field_or::<Single>(m, "scX"@, Single { bits: ONE_BITS });
                let sc_y = field_or::<Single>(m, "scY"@, Single { bits: ONE_BITS });
                if x is Err {
                    Err(x->Err_0)
                } else if y is Err {
                    Err(y->Err_0)
                } else if sk_x is Err {
                    Err(sk_x->Err_0)
                } else if sk_y is Err {
                    Err(sk_y->Err_0)
                } else if sc_x is Err {
                    Err(sc_x->Err_0)
                } else if sc_y is Err {
                    Err(sc_y->Err_0)
                } else {
                    Ok(
                        Transform {
                            x: x->Ok_0,
                            y: y->Ok_0,
                            sk_x: sk_x->Ok_0,
                            sk_y: sk_y->Ok_0,
                            sc_x: sc_x->Ok_0,
                            sc_y: sc_y->Ok_0,
                        },
                    )
                }
            },
            _ => Err(ErrorView::mismatch(Shape::Object, kind_of(n))),
        }
    }

    fn decode(node: &Node) -> (r: Result<Transform, DecodeError>)
        ensures
            outcome(r) == Self::decoded(node@),
    {
        let m = members_of(node)?;
        let x = read_or::<Single>(m, "x", Single { bits: ZERO_BITS })?;
        let y = read_or::<Single>(m, "y", Single { bits: ZERO_BITS })?;
        let sk_x = read_or::<Single>(m, "skX", Single { bits: ZERO_BITS })?;
        let sk_y = read_or::<Single>(m, "skY", Single { bits: ZERO_BITS })?;
        let sc_x = read_or::<Single>(m, "scX", Single { bits: ONE_BITS })?;
        let sc_y = read_or::<Single>(m, "scY", Single { bits: ONE_BITS })?;
        Ok(Transform { x, y, sk_x, sk_y, sc_x, sc_y })
    }
}

impl Encode for Transform {
    open spec fn regular(v: Transform) -> bool {
        true
    }

    open spec fn encoded(v: Transform) -> NodeView {
        NodeView::Object(
            seq![
                ("x"@, Single::encoded(v.x)),
                ("y"@, Single::encoded(v.y)),
                ("skX"@, Single::encoded(v.sk_x)),
                ("skY"@, Single::encoded(v.sk_y)),
                ("scX"@, Single::encoded(v.sc_x)),
                ("scY"@, Single::encoded(v.sc_y)),
            ],
        )
    }

    fn encode(&self) -> (n: Node)
        ensures
            n@ == Self::encoded(self@),
    {
        let mut m: Vec<Member> = Vec::new();
        put(&mut m, "x", self.x.encode());
        put(&mut m, "y", self.y.encode());
        put(&mut m, "skX", self.sk_x.encode());
        put(&mut m, "skY", self.sk_y.encode());
        put(&mut m, "scX", self.sc_x.encode());
        put(&mut m, "scY", self.sc_y.encode());
        let n = object(m);
        assert(n@->Object_0 =~= Self::encoded(self@)->Object_0);
        n
    }

    proof fn decoded_is_regular(n: NodeView) {
    }

    proof fn round_trip(v: Transform) {
        let m = Self::encoded(v)->Object_0;
        lemma_transform_lookups(v);
        Single::round_trip(v.x);
        Single::round_trip(v.y);
        Single::round_trip(v.sk_x);
        Single::round_trip(v.sk_y);
        Single::round_trip(v.sc_x);
        Single::round_trip(v.sc_y);
    }
}

/// In the object written for a transform, each key is found, and with the value written for it.
proof fn lemma_transform_lookups(v: Transform)
    ensures
        lookup(Transform::encoded(v)->Object_0, "x"@) == Some(Single::encoded(v.x)),
        lookup(Transform::encoded(v)->Object_0, "y"@) == Some(Single::encoded(v.y)),
        lookup(Transform::encoded(v)->Object_0, "skX"@) == Some(Single::encoded(v.sk_x)),
        lookup(Transform::encoded(v)->Object_0, "skY"@) == Some(Single::encoded(v.sk_y)),
        lookup(Transform::encoded(v)->Object_0, "scX"@) == Some(Single::encoded(v.sc_x)),
        lookup(Transform::encoded(v)->Object_0, "scY"@) == Some(Single::encoded(v.sc_y)),
{
    let m = Transform::encoded(v)->Object_0;
    reveal_strlit("x");
    assert("x"@.len() == 1 && "x"@[0] == 'x');
    reveal_strlit("y");
    assert("y"@.len() == 1 && "y"@[0] == 'y');
    reveal_strlit("skX");
    assert("skX"@.len() == 3 && "skX"@[1] == 'k' && "skX"@[2] == 'X');
    reveal_strlit("skY");
    assert("skY"@.len() == 3 && "skY"@[1] == 'k' && "skY"@[2] == 'Y');
    reveal_strlit("scX");
    assert("scX"@.len() == 3 && "scX"@[1] == 'c' && "scX"@[2] == 'X');
    reveal_strlit("scY");
    assert("scY"@.len() == 3 && "scY"@[1] == 'c' && "scY"@[2] == 'Y');
    lemma_lookup_at(m, "x"@, 0);
    lemma_lookup_at(m, "y"@, 1);
    lemma_lookup_at(m, "skX"@, 2);
    lemma_lookup_at(m, "skY"@, 3);
    lemma_lookup_at(m, "scX"@, 4);
    lemma_lookup_at(m, "scY"@, 5);
}

/// An object that holds none of the fields of a transform decodes to a transform in which every
/// field has its default.
pub proof fn law_minimal_transform(
    m: Seq<(Seq<char>, NodeView)>,
)
    requires
        lookup(m, "x"@) is None,
        lookup(m, "y"@) is None,
        lookup(m, "skX"@) is None,
        lookup(m, "skY"@) is None,
        lookup(m, "scX"@) is None,
        lookup(m, "scY"@) is None,
    ensures
        Transform::decoded(NodeView::Object(m)) == Ok::<Transform, ErrorView>(
            Transform {
                x: Single { bits: ZERO_BITS },
                y: Single { bits: ZERO_BITS },
                sk_x: Single { bits: ZERO_BITS },
                sk_y: Single { bits: ZERO_BITS },
                sc_x: Single { bits: ONE_BITS },
                sc_y: Single { bits: ONE_BITS },
            },
        ),
{
}

/// A transform with no fields at all is the identity and not the zero transform: both
/// scales are one, where displacement and skew are zero.
pub proof fn law_empty_transform()
    ensures
        Transform::decoded(NodeView::Object(Seq::empty())) == Ok::<Transform, ErrorView>(
            Transform::initial(),
        ),
        Transform::initial().sc_x.bits == ONE_BITS,
        Transform::initial().sc_y.bits == ONE_BITS,
        Transform::initial().x.bits == ZERO_BITS,
        Transform::initial().y.bits == ZERO_BITS,
        Transform::initial().sk_x.bits == ZERO_BITS,
        Transform::initial().sk_y.bits == ZERO_BITS,
{
}

/// A colour overlay: a multiplier in percent and an offset for each channel.
#[derive(Clone, Copy, Debug, PartialEq, Eq, Structural)]
pub struct Color {
    /// Alpha multiplier, 0 to 100; 100 where it is not given.
    pub a_m: Single,
    /// Red multiplier, 0 to 100; 100 where it is not given.
    pub r_m: Single,
    /// Green multiplier, 0 to 100; 100 where it is not given.
    pub g_m: Single,
    /// Blue multiplier, 0 to 100; 100 where it is not given.
    pub b_m: Single,
    /// Alpha offset, -255 to 255; 0 where it is not given.
    pub a_o: Single,
    /// Red offset, -255 to 255; 0 where it is not given.
    pub r_o: Single,
    /// Green offset, -255 to 255; 0 where it is not given.
    pub g_o: Single,
    /// Blue offset, -255 to 255; 0 where it is not given.
    pub b_o: Single,
}

impl View for Color {
    type V = Color;

    open spec fn view(&self) -> Color {
        *self
    }
}

impl Color {
    /// The overlay that changes nothing: every multiplier 100, every offset 0.
    pub open spec fn initial() -> Color {
        Color {
            a_m: Single { bits: HUNDRED_BITS },
            r_m: Single { bits: HUNDRED_BITS },
            g_m: Single { bits: HUNDRED_BITS },
            b_m: Single { bits: HUNDRED_BITS },
            a_o: Single { bits: ZERO_BITS },
            r_o: Single { bits: ZERO_BITS },
            g_o: Single { bits: ZERO_BITS },
            b_o: Single { bits: ZERO_BITS },
        }
    }
}

impl Default for Color {
    fn default() -> (r: Color)
        ensures
            r@ == Color::initial(),
    {
        Color {
            a_m: Single { bits: HUNDRED_BITS },
            r_m: Single { bits: HUNDRED_BITS },
            g_m: Single { bits: HUNDRED_BITS },
            b_m: Single { bits: HUNDRED_BITS },
            a_o: Single { bits: ZERO_BITS },
            r_o: Single { bits: ZERO_BITS },
            g_o: Single { bits: ZERO_BITS },
            b_o: Single { bits: ZERO_BITS },
        }
    }
}

impl Decode for Color {
    /// An object. Every field that it lacks takes its default, and a list that it lacks is
    /// empty. The fields are read in the order in which they are declared, and the first
    /// failure is the result.
    open spec fn decoded(n: NodeView) -> Result<Color, ErrorView> {
        match n {
            NodeView::Object(m) => {
                let a_m = field_or::<Single>(m, "aM"@, Single { bits: HUNDRED_BITS });
                let r_m = field_or::<Single>(m, "rM"@, Single { bits: HUNDRED_BITS });
                let g_m = field_or::<Single>(m, "gM"@, Single { bits: HUNDRED_BITS });
                let b_m = field_or::<Single>(m, "bM"@, Single { bits: HUNDRED_BITS });
                let a_o = field_or::<Single>(m, "aO"@, Single { bits: ZERO_BITS });
                let r_o = field_or::<Single>(m, "rO"@, Single { bits: ZERO_BITS });
                let g_o = field_or::<Single>(m, "gO"@, Single { bits: ZERO_BITS });
                let b_o = field_or::<Single>(m, "bO"@, Single { bits: ZERO_BITS });
                if a_m is Err {
                    Err(a_m->Err_0)
                } else if r_m is Err {
                    Err(r_m->Err_0)
                } else if g_m is Err {
                    Err(g_m->Err_0)
                } else if b_m is Err {
                    Err(b_m->Err_0)
                } else if a_o is Err {
                    Err(a_o->Err_0)
                } else if r_o is Err {
                    Err(r_o->Err_0)
                } else if g_o is Err {
                    Err(g_o->Err_0)
                } else if b_o is Err {
                    Err(b_o->Err_0)
                } else {
                    Ok(
                        Color {
                            a_m: a_m->Ok_0,
                            r_m: r_m->Ok_0,
                            g_m: g_m->Ok_0,
                            b_m: b_m->Ok_0,
                            a_o: a_o->Ok_0,
                            r_o: r_o->Ok_0,
                            g_o: g_o->Ok_0,
                            b_o: b_o->Ok_0,
                        },
                    )
                }
            },
            _ => Err(ErrorView::mismatch(Shape::Object, kind_of(n))),
        }
    }

    fn decode(node: &Node) -> (r: Result<Color, DecodeError>)
        ensures
            outcome(r) == Self::decoded(node@),
    {
        let m = members_of(node)?;
        let a_m = read_or::<Single>(m, "aM", Single { bits: HUNDRED_BITS })?;
        let r_m = read_or::<Single>(m, "rM", Single { bits: HUNDRED_BITS })?;
        let g_m = read_or::<Single>(m, "gM", Single { bits: HUNDRED_BITS })?;
        let b_m = read_or::<Single>(m, "bM", Single { bits: HUNDRED_BITS })?;
        let a_o = read_or::<Single>(m, "aO", Single { bits: ZERO_BITS })?;
        let r_o = read_or::<Single>(m, "rO", Single { bits: ZERO_BITS })?;
        let g_o = read_or::<Single>(m, "gO", Single { bits: ZERO_BITS })?;
        let b_o = read_or::<Single>(m, "bO", Single { bits: ZERO_BITS })?;
        Ok(Color { a_m, r_m, g_m, b_m, a_o, r_o, g_o, b_o })
    }
}

impl Encode for Color {
    open spec fn regular(v: Color) -> bool {
        true
    }

    open spec fn encoded(v: Color) -> NodeView {
        NodeView::Object(
            seq![
                ("aM"@, Single::encoded(v.a_m)),
                ("rM"@, Single::encoded(v.r_m)),
                ("gM"@, Single::encoded(v.g_m)),
                ("bM"@, Single::encoded(v.b_m)),
                ("aO"@, Single::encoded(v.a_o)),
                ("rO"@, Single::encoded(v.r_o)),
                ("gO"@, Single::encoded(v.g_o)),
                ("bO"@, Single::encoded(v.b_o)),
            ],
        )
    }

    fn encode(&self) -> (n: Node)
        ensures
            n@ == Self::encoded(self@),
    {
        let mut m: Vec<Member> = Vec::new();
        put(&mut m, "aM", self.a_m.encode());
        put(&mut m, "rM", self.r_m.encode());
        put(&mut m, "gM", self.g_m.encode());
        put(&mut m, "bM", self.b_m.encode());
        put(&mut m, "aO", self.a_o.encode());
        put(&mut m, "rO", self.r_o.encode());
        put(&mut m, "gO", self.g_o.encode());
        put(&mut m, "bO", self.b_o.encode());
        let n = object(m);
        assert(n@->Object_0 =~= Self::encoded(self@)->Object_0);
        n
    }

    proof fn decoded_is_regular(n: NodeView) {
    }

    proof fn round_trip(v: Color) {
        let m = Self::encoded(v)->Object_0;
        lemma_color_lookups(v);
        Single::round_trip(v.a_m);
        Single::round_trip(v.r_m);
        Single::round_trip(v.g_m);
        Single::round_trip(v.b_m);
        Single::round_trip(v.a_o);
        Single::round_trip(v.r_o);
        Single::round_trip(v.g_o);
        Single::round_trip(v.b_o);
    }
}

/// In the object written for a colour overlay, each key is found, and with the value written
/// for it.
proof fn lemma_color_lookups(v: Color)
    ensures
        lookup(Color::encoded(v)->Object_0, "aM"@) == Some(Single::encoded(v.a_m)),
        lookup(Color::encoded(v)->Object_0, "rM"@) == Some(Single::encoded(v.r_m)),
        lookup(Color::encoded(v)->Object_0, "gM"@) == Some(Single::encoded(v.g_m)),
        lookup(Color::encoded(v)->Object_0, "bM"@) == Some(Single::encoded(v.b_m)),
        lookup(Color::encoded(v)->Object_0, "aO"@) == Some(Single::encoded(v.a_o)),
        lookup(Color::encoded(v)->Object_0, "rO"@) == Some(Single::encoded(v.r_o)),
        lookup(Color::encoded(v)->Object_0, "gO"@) == Some(Single::encoded(v.g_o)),
        lookup(Color::encoded(v)->Object_0, "bO"@) == Some(Single::encoded(v.b_o)),
{
    let m = Color::encoded(v)->Object_0;
    reveal_strlit("aM");
    assert("aM"@.len() == 2 && "aM"@[0] == 'a' && "aM"@[1] == 'M');
    reveal_strlit("rM");
    assert("rM"@.len() == 2 && "rM"@[0] == 'r' && "rM"@[1] == 'M');
    reveal_strlit("gM");
    assert("gM"@.len() == 2 && "gM"@[0] == 'g' && "gM"@[1] == 'M');
    reveal_strlit("bM");
    assert("bM"@.len() == 2 && "bM"@[0] == 'b' && "bM"@[1] == 'M');
    reveal_strlit("aO");
    assert("aO"@.len() == 2 && "aO"@[0] == 'a' && "aO"@[1] == 'O');
    reveal_strlit("rO");
    assert("rO"@.len() == 2 && "rO"@[0] == 'r' && "rO"@[1] == 'O');
    reveal_strlit("gO");
    assert("gO"@.len() == 2 && "gO"@[0] == 'g' && "gO"@[1] == 'O');
    reveal_strlit("bO");
    assert("bO"@.len() == 2 && "bO"@[0] == 'b' && "bO"@[1] == 'O');
    lemma_lookup_at(m, "aM"@, 0);
    lemma_lookup_at(m, "rM"@, 1);
    lemma_lookup_at(m, "gM"@, 2);
    lemma_lookup_at(m, "bM"@, 3);
    lemma_lookup_at(m, "aO"@, 4);
    lemma_lookup_at(m, "rO"@, 5);
    lemma_lookup_at(m, "gO"@, 6);
    lemma_lookup_at(m, "bO"@, 7);
}

/// An object that holds none of the fields of a colour overlay decodes to a colour overlay in
/// which every field has its default.
pub proof fn law_minimal_color(
    m: Seq<(Seq<char>, NodeView)>,
)
    requires
        lookup(m, "aM"@) is None,
        lookup(m, "rM"@) is None,
        lookup(m, "gM"@) is None,
        lookup(m, "bM"@) is None,
        lookup(m, "aO"@) is None,
        lookup(m, "rO"@) is None,
        lookup(m, "gO"@) is None,
        lookup(m, "bO"@) is None,
    ensures
        Color::decoded(NodeView::Object(m)) == Ok::<Color, ErrorView>(
            Color {
                a_m: Single { bits: HUNDRED_BITS },
                r_m: Single { bits: HUNDRED_BITS },
                g_m: Single { bits: HUNDRED_BITS },
                b_m: Single { bits: HUNDRED_BITS },
                a_o: Single { bits: ZERO_BITS },
                r_o: Single { bits: ZERO_BITS },
                g_o: Single { bits: ZERO_BITS },
                b_o: Single { bits: ZERO_BITS },
            },
        ),
{
}

} // verus!

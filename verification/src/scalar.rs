//! Decoders of the scalars: reals, integers, flags, text, and a value kept as it is.

use vstd::prelude::*;
use crate::decode::Decode;
use crate::encode::Encode;
use crate::error::{outcome, DecodeError, ErrorView, Shape};
use crate::node::{kind_of, Node, NodeView, Number};
use crate::single::{single_of_int, Single};

verus! {

/// The integer that `n` holds, where it is a number written as an integer within
/// `low ..= high`; else the failure to find `expected`.
pub open spec fn decoded_int(n: NodeView, low: int, high: int, expected: Shape) -> Result<
    int,
    ErrorView,
> {
    match n {
        NodeView::Number(Number::Int(v)) if low <= v <= high => Ok(v as int),
        _ => Err(ErrorView::mismatch(expected, kind_of(n))),
    }
}

/// Reads an integer within `low ..= high`.
fn decode_int(node: &Node, low: i128, high: i128, expected: Shape) -> (r: Result<i128, DecodeError>)
    ensures
        match r {
            Ok(v) => decoded_int(node@, low as int, high as int, expected) == Ok::<int, ErrorView>(
                v as int,
            ),
            Err(e) => decoded_int(node@, low as int, high as int, expected) == Err::<
                int,
                ErrorView,
            >(e@),
        },
{
    match node {
        Node::Number(Number::Int(v)) => {
            if low <= *v && *v <= high {
                Ok(*v)
            } else {
                Err(DecodeError::mismatch(expected, node.kind()))
            }
        },
        _ => Err(DecodeError::mismatch(expected, node.kind())),
    }
}

/// Whether the text `a` is, letter for letter, the text `b`.
pub fn same_text(a: &String, b: &str) -> (r: bool)
    ensures
        r == (a@ == b@),
{
    let other = b.to_owned();
    *a == other
}

impl Decode for Single {
    /// Any number: an integer gives the single nearest to it, a real gives itself.
    open spec fn decoded(n: NodeView) -> Result<Single, ErrorView> {
        match n {
            NodeView::Number(Number::Int(v)) => Ok(Single { bits: single_of_int(v as int) }),
            NodeView::Number(Number::Real(s)) => Ok(s),
            _ => Err(ErrorView::mismatch(Shape::Number, kind_of(n))),
        }
    }

    fn decode(node: &Node) -> (r: Result<Single, DecodeError>)
        ensures
            outcome(r) == Self::decoded(node@),
    {
        match node {
            Node::Number(Number::Int(v)) => Ok(Single::from_int(*v)),
            Node::Number(Number::Real(s)) => Ok(*s),
            _ => Err(DecodeError::mismatch(Shape::Number, node.kind())),
        }
    }
}

impl Decode for usize {
    /// A number written as an integer, within the range of `usize`.
    open spec fn decoded(n: NodeView) -> Result<usize, ErrorView> {
        match decoded_int(n, 0, usize::MAX as int, Shape::Usize) {
            Ok(v) => Ok(v as usize),
            Err(e) => Err(e),
        }
    }

    fn decode(node: &Node) -> (r: Result<usize, DecodeError>)
        ensures
            outcome(r) == Self::decoded(node@),
    {
        match decode_int(node, 0, usize::MAX as i128, Shape::Usize) {
            Ok(v) => Ok(v as usize),
            Err(e) => Err(e),
        }
    }
}

impl Decode for isize {
    /// A number written as an integer, within the range of `isize`.
    open spec fn decoded(n: NodeView) -> Result<isize, ErrorView> {
        match decoded_int(n, isize::MIN as int, isize::MAX as int, Shape::Isize) {
            Ok(v) => Ok(v as isize),
            Err(e) => Err(e),
        }
    }

    fn decode(node: &Node) -> (r: Result<isize, DecodeError>)
        ensures
            outcome(r) == Self::decoded(node@),
    {
        match decode_int(node, isize::MIN as i128, isize::MAX as i128, Shape::Isize) {
            Ok(v) => Ok(v as isize),
            Err(e) => Err(e),
        }
    }
}

impl Decode for u32 {
    /// A number written as an integer, within the range of `u32`.
    open spec fn decoded(n: NodeView) -> Result<u32, ErrorView> {
        match decoded_int(n, 0, u32::MAX as int, Shape::U32) {
            Ok(v) => Ok(v as u32),
            Err(e) => Err(e),
        }
    }

    fn decode(node: &Node) -> (r: Result<u32, DecodeError>)
        ensures
            outcome(r) == Self::decoded(node@),
    {
        match decode_int(node, 0, u32::MAX as i128, Shape::U32) {
            Ok(v) => Ok(v as u32),
            Err(e) => Err(e),
        }
    }
}

impl Decode for i32 {
    /// A number written as an integer, within the range of `i32`.
    open spec fn decoded(n: NodeView) -> Result<i32, ErrorView> {
        match decoded_int(n, i32::MIN as int, i32::MAX as int, Shape::I32) {
            Ok(v) => Ok(v as i32),
            Err(e) => Err(e),
        }
    }

    fn decode(node: &Node) -> (r: Result<i32, DecodeError>)
        ensures
            outcome(r) == Self::decoded(node@),
    {
        match decode_int(node, i32::MIN as i128, i32::MAX as i128, Shape::I32) {
            Ok(v) => Ok(v as i32),
            Err(e) => Err(e),
        }
    }
}

impl Decode for bool {
    open spec fn decoded(n: NodeView) -> Result<bool, ErrorView> {
        match n {
            NodeView::Bool(b) => Ok(b),
            _ => Err(ErrorView::mismatch(Shape::Bool, kind_of(n))),
        }
    }

    fn decode(node: &Node) -> (r: Result<bool, DecodeError>)
        ensures
            outcome(r) == Self::decoded(node@),
    {
        match node {
            Node::Bool(b) => Ok(*b),
            _ => Err(DecodeError::mismatch(Shape::Bool, node.kind())),
        }
    }
}

impl Decode for String {
    /// A text, kept letter for letter.
    open spec fn decoded(n: NodeView) -> Result<Seq<char>, ErrorView> {
        match n {
            NodeView::Text(s) => Ok(s),
            _ => Err(ErrorView::mismatch(Shape::Text, kind_of(n))),
        }
    }

    fn decode(node: &Node) -> (r: Result<String, DecodeError>)
        ensures
            outcome(r) == Self::decoded(node@),
    {
        match node {
            Node::Text(s) => Ok(s.clone()),
            _ => Err(DecodeError::mismatch(Shape::Text, node.kind())),
        }
    }
}

impl Decode for Node {
    /// Any value at all, kept as it is.
    open spec fn decoded(n: NodeView) -> Result<NodeView, ErrorView> {
        Ok(n)
    }

    fn decode(node: &Node) -> (r: Result<Node, DecodeError>)
        ensures
            outcome(r) == Self::decoded(node@),
    {
        Ok(node.copy())
    }
}

impl Encode for Single {
    open spec fn regular(v: Single) -> bool {
        true
    }

    /// A real, written as a real.
    open spec fn encoded(v: Single) -> NodeView {
        NodeView::Number(Number::Real(v))
    }

    fn encode(&self) -> (n: Node)
        ensures
            n@ == Self::encoded(self@),
    {
        Node::Number(Number::Real(*self))
    }

    proof fn decoded_is_regular(n: NodeView) {
    }

    proof fn round_trip(v: Single) {
    }
}

impl Encode for usize {
    open spec fn regular(v: usize) -> bool {
        true
    }

    open spec fn encoded(v: usize) -> NodeView {
        NodeView::Number(Number::Int(v as i128))
    }

    fn encode(&self) -> (n: Node)
        ensures
            n@ == Self::encoded(self@),
    {
        Node::Number(Number::Int(*self as i128))
    }

    proof fn decoded_is_regular(n: NodeView) {
    }

    proof fn round_trip(v: usize) {
    }
}

impl Encode for isize {
    open spec fn regular(v: isize) -> bool {
        true
    }

    open spec fn encoded(v: isize) -> NodeView {
        NodeView::Number(Number::Int(v as i128))
    }

    fn encode(&self) -> (n: Node)
        ensures
            n@ == Self::encoded(self@),
    {
        Node::Number(Number::Int(*self as i128))
    }

    proof fn decoded_is_regular(n: NodeView) {
    }

    proof fn round_trip(v: isize) {
    }
}

impl Encode for u32 {
    open spec fn regular(v: u32) -> bool {
        true
    }

    open spec fn encoded(v: u32) -> NodeView {
        NodeView::Number(Number::Int(v as i128))
    }

    fn encode(&self) -> (n: Node)
        ensures
            n@ == Self::encoded(self@),
    {
        Node::Number(Number::Int(*self as i128))
    }

    proof fn decoded_is_regular(n: NodeView) {
    }

    proof fn round_trip(v: u32) {
    }
}

impl Encode for i32 {
    open spec fn regular(v: i32) -> bool {
        true
    }

    open spec fn encoded(v: i32) -> NodeView {
        NodeView::Number(Number::Int(v as i128))
    }

    fn encode(&self) -> (n: Node)
        ensures
            n@ == Self::encoded(self@),
    {
        Node::Number(Number::Int(*self as i128))
    }

    proof fn decoded_is_regular(n: NodeView) {
    }

    proof fn round_trip(v: i32) {
    }
}

impl Encode for bool {
    open spec fn regular(v: bool) -> bool {
        true
    }

    open spec fn encoded(v: bool) -> NodeView {
        NodeView::Bool(v)
    }

    fn encode(&self) -> (n: Node)
        ensures
            n@ == Self::encoded(self@),
    {
        Node::Bool(*self)
    }

    proof fn decoded_is_regular(n: NodeView) {
    }

    proof fn round_trip(v: bool) {
    }
}

impl Encode for String {
    open spec fn regular(v: Seq<char>) -> bool {
        true
    }

    open spec fn encoded(v: Seq<char>) -> NodeView {
        NodeView::Text(v)
    }

    fn encode(&self) -> (n: Node)
        ensures
            n@ == Self::encoded(self@),
    {
        Node::Text(self.clone())
    }

    proof fn decoded_is_regular(n: NodeView) {
    }

    proof fn round_trip(v: Seq<char>) {
    }
}

impl Encode for Node {
    open spec fn regular(v: NodeView) -> bool {
        true
    }

    /// A value kept as it is stands for itself.
    open spec fn encoded(v: NodeView) -> NodeView {
        v
    }

    fn encode(&self) -> (n: Node)
        ensures
            n@ == Self::encoded(self@),
    {
        self.copy()
    }

    proof fn decoded_is_regular(n: NodeView) {
    }

    proof fn round_trip(v: NodeView) {
    }
}

} // verus!

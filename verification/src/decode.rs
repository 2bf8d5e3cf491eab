//! What it means to decode a value of the tree, and the readers that every entity
//! decoder is built from: a field of an object, a list of values, a packed list.

use vstd::prelude::*;
use crate::error::{outcome, under, DecodeError, ErrorView, SegmentView, Shape};
use crate::node::{
    find, items_view, kind_of, lemma_list_view, lemma_object_view, lookup, members_view, Member,
    Node, NodeView,
};

verus! {

/// A type that one value of the tree decodes to.
pub trait Decode: Sized + View {
    /// What the value `n` decodes to: a value of this type, or the first failure met.
    spec fn decoded(n: NodeView) -> Result<Self::V, ErrorView>;

    /// Decodes `node`. Paths in a failure start at `node`.
    fn decode(node: &Node) -> (r: Result<Self, DecodeError>)
        ensures
            outcome(r) == Self::decoded(node@),
    ;
}

/// The mathematical values of a sequence of values.
pub open spec fn views<T: View>(s: Seq<T>) -> Seq<T::V> {
    Seq::new(s.len(), |i: int| s[i]@)
}

/// The mathematical value of a list decoder's result.
pub open spec fn outcomes<T: View>(r: Result<Vec<T>, DecodeError>) -> Result<Seq<T::V>, ErrorView> {
    match r {
        Ok(v) => Ok(views(v@)),
        Err(e) => Err(e@),
    }
}

/// What a list of values decodes to, each value by itself and in order: the decoded
/// values, or the failure of the first value that fails, under its position.
pub open spec fn decoded_list<T: Decode>(items: Seq<NodeView>) -> Result<Seq<T::V>, ErrorView>
    decreases items.len(),
{
    if items.len() == 0 {
        Ok(Seq::empty())
    } else {
        match decoded_list::<T>(items.drop_last()) {
            Err(e) => Err(e),
            Ok(front) => match T::decoded(items.last()) {
                Err(e) => Err(e.within(SegmentView::Index(items.len() - 1))),
                Ok(v) => Ok(front.push(v)),
            },
        }
    }
}

/// What a value decodes to as a list of `T`: it must be a list.
pub open spec fn decoded_list_node<T: Decode>(n: NodeView) -> Result<Seq<T::V>, ErrorView> {
    match n {
        NodeView::List(items) => decoded_list::<T>(items),
        _ => Err(ErrorView::mismatch(Shape::List, kind_of(n))),
    }
}

/// The required field `key` of an object: missing is a failure.
pub open spec fn field<T: Decode>(members: Seq<(Seq<char>, NodeView)>, key: Seq<char>) -> Result<
    T::V,
    ErrorView,
> {
    match lookup(members, key) {
        None => Err(ErrorView::missing(key)),
        Some(n) => under(T::decoded(n), SegmentView::Key(key)),
    }
}

/// The optional field `key` of an object: missing gives `default`.
pub open spec fn field_or<T: Decode>(
    members: Seq<(Seq<char>, NodeView)>,
    key: Seq<char>,
    default: T::V,
) -> Result<T::V, ErrorView> {
    match lookup(members, key) {
        None => Ok(default),
        Some(n) => under(T::decoded(n), SegmentView::Key(key)),
    }
}

/// The optional list field `key` of an object: missing gives the empty list.
pub open spec fn list_field<T: Decode>(
    members: Seq<(Seq<char>, NodeView)>,
    key: Seq<char>,
) -> Result<Seq<T::V>, ErrorView> {
    match lookup(members, key) {
        None => Ok(Seq::empty()),
        Some(n) => under(decoded_list_node::<T>(n), SegmentView::Key(key)),
    }
}

/// A type that a fixed number of neighbouring values of a packed list decode to.
pub trait Packed: Sized + View {
    /// How many values of the list make one record.
    spec fn arity() -> nat;

    /// The record made of the values of `items` from position `at` on, or the first
    /// failure among them, under its position in `items`.
    spec fn unpacked(items: Seq<NodeView>, at: int) -> Result<Self::V, ErrorView>;

    /// How many values of the list make one record.
    fn width() -> (w: usize)
        ensures
            w == Self::arity(),
            w > 0,
    ;

    /// Decodes the record that starts at position `at` of `items`; the whole record must
    /// lie within the list.
    fn unpack(items: &Vec<Node>, at: usize) -> (r: Result<Self, DecodeError>)
        requires
            at + Self::arity() <= items.len(),
        ensures
            outcome(r) == Self::unpacked(items_view(items@), at as int),
    ;
}

/// The value at position `at` of a list, decoded; a failure lies under `at`.
pub open spec fn element<T: Decode>(items: Seq<NodeView>, at: int) -> Result<T::V, ErrorView> {
    under(T::decoded(items[at]), SegmentView::Index(at))
}

/// The first `count` records of a packed list, or the first failure among them.
pub open spec fn records<T: Packed>(items: Seq<NodeView>, count: nat) -> Result<
    Seq<T::V>,
    ErrorView,
>
    decreases count,
{
    if count == 0 {
        Ok(Seq::empty())
    } else {
        match records::<T>(items, (count - 1) as nat) {
            Err(e) => Err(e),
            Ok(front) => match T::unpacked(items, (count - 1) * T::arity()) {
                Err(e) => Err(e),
                Ok(v) => Ok(front.push(v)),
            },
        }
    }
}

/// What a packed list decodes to: its length must be a whole number of records.
pub open spec fn decoded_packed<T: Packed>(items: Seq<NodeView>) -> Result<Seq<T::V>, ErrorView> {
    if items.len() % T::arity() != 0 {
        Err(ErrorView::arity(T::arity() as int, items.len() as int))
    } else {
        records::<T>(items, items.len() / T::arity())
    }
}

/// What a value decodes to as a packed list of `T`: it must be a list.
pub open spec fn decoded_packed_node<T: Packed>(n: NodeView) -> Result<Seq<T::V>, ErrorView> {
    match n {
        NodeView::List(items) => decoded_packed::<T>(items),
        _ => Err(ErrorView::mismatch(Shape::List, kind_of(n))),
    }
}

/// What a value decodes to as one record of `T`: a list of exactly one record.
pub open spec fn decoded_record<T: Packed>(n: NodeView) -> Result<T::V, ErrorView> {
    match n {
        NodeView::List(items) => if items.len() != T::arity() {
            Err(ErrorView::arity(T::arity() as int, items.len() as int))
        } else {
            T::unpacked(items, 0)
        },
        _ => Err(ErrorView::mismatch(Shape::List, kind_of(n))),
    }
}

/// The optional packed field `key` of an object: missing gives the empty list.
pub open spec fn packed_field<T: Packed>(
    members: Seq<(Seq<char>, NodeView)>,
    key: Seq<char>,
) -> Result<Seq<T::V>, ErrorView> {
    match lookup(members, key) {
        None => Ok(Seq::empty()),
        Some(n) => under(decoded_packed_node::<T>(n), SegmentView::Key(key)),
    }
}

/// A packed list whose length is no whole number of records is refused for that,
/// whatever its values are: no value at its end is dropped in silence.
pub proof fn law_arity<T: Packed>(items: Seq<NodeView>)
    requires
        items.len() % T::arity() != 0,
    ensures
        decoded_packed::<T>(items) == Err::<Seq<T::V>, ErrorView>(
            ErrorView::arity(T::arity() as int, items.len() as int),
        ),
        decoded_packed_node::<T>(NodeView::List(items)) == Err::<Seq<T::V>, ErrorView>(
            ErrorView::arity(T::arity() as int, items.len() as int),
        ),
{
}

/// A packed list that decodes is used up by its records, in order: record `k` of the
/// result is what the values from position `k * arity` on decode to.
pub proof fn law_packed_keeps_order<T: Packed>(items: Seq<NodeView>)
    requires
        T::arity() > 0,
    ensures
        decoded_packed::<T>(items) matches Ok(vs) ==> vs.len() * T::arity() == items.len()
            && forall|k: int|
            0 <= k < vs.len() ==> T::unpacked(items, k * T::arity()) == Ok::<T::V, ErrorView>(
                #[trigger] vs[k],
            ),
{
    if decoded_packed::<T>(items) is Ok {
        let count = items.len() / T::arity();
        lemma_records_keep_order::<T>(items, count);
        assert(count * T::arity() == items.len()) by (nonlinear_arith)
            requires
                items.len() % T::arity() == 0,
                count == items.len() / T::arity(),
                T::arity() > 0,
        ;
    }
}

/// The first `count` records of a packed list, where they decode, are `count` records
/// in the order of the list.
pub proof fn lemma_records_keep_order<T: Packed>(items: Seq<NodeView>, count: nat)
    ensures
        records::<T>(items, count) matches Ok(vs) ==> vs.len() == count && forall|k: int|
            0 <= k < count ==> T::unpacked(items, k * T::arity()) == Ok::<T::V, ErrorView>(
                #[trigger] vs[k],
            ),
    decreases count,
{
    if count > 0 {
        lemma_records_keep_order::<T>(items, (count - 1) as nat);
    }
}

/// A list that decodes keeps its length and its order: value `i` of the result is what
/// value `i` of the list decodes to.
pub proof fn law_list_keeps_order<T: Decode>(items: Seq<NodeView>)
    ensures
        decoded_list::<T>(items) matches Ok(vs) ==> vs.len() == items.len() && forall|i: int|
            0 <= i < items.len() ==> T::decoded(items[i]) == Ok::<T::V, ErrorView>(
                #[trigger] vs[i],
            ),
    decreases items.len(),
{
    if items.len() > 0 {
        law_list_keeps_order::<T>(items.drop_last());
    }
}

/// A list fails with the failure of the first of its values that fails, under the
/// position of that value: nothing after it is looked at.
pub proof fn law_list_fails_fast<T: Decode>(items: Seq<NodeView>, at: int)
    requires
        0 <= at < items.len(),
        T::decoded(items[at]) is Err,
        forall|j: int| 0 <= j < at ==> (#[trigger] T::decoded(items[j])) is Ok,
    ensures
        decoded_list::<T>(items) == Err::<Seq<T::V>, ErrorView>(
            T::decoded(items[at])->Err_0.within(SegmentView::Index(at)),
        ),
{
    lemma_decoded_list_succeeds::<T>(items.take(at));
    assert(items.take(at + 1).drop_last() =~= items.take(at));
    assert(items.take(at + 1).last() == items[at]);
    lemma_decoded_list_fails::<T>(items, at + 1);
}

/// A list of values that all decode, decodes.
pub proof fn lemma_decoded_list_succeeds<T: Decode>(items: Seq<NodeView>)
    requires
        forall|j: int| 0 <= j < items.len() ==> (#[trigger] T::decoded(items[j])) is Ok,
    ensures
        decoded_list::<T>(items) is Ok,
    decreases items.len(),
{
    if items.len() > 0 {
        lemma_decoded_list_succeeds::<T>(items.drop_last());
    }
}

/// A failure among the first records of a packed list is the failure of the whole list.
pub proof fn lemma_records_fail<T: Packed>(items: Seq<NodeView>, upto: nat, count: nat)
    requires
        upto <= count,
        records::<T>(items, upto) is Err,
    ensures
        records::<T>(items, count) == records::<T>(items, upto),
    decreases count - upto,
{
    if upto < count {
        lemma_records_fail::<T>(items, upto + 1, count);
    }
}

/// A failure among the first values of a list is the failure of the whole list.
pub proof fn lemma_decoded_list_fails<T: Decode>(items: Seq<NodeView>, upto: int)
    requires
        0 <= upto <= items.len(),
        decoded_list::<T>(items.take(upto)) is Err,
    ensures
        decoded_list::<T>(items) == decoded_list::<T>(items.take(upto)),
    decreases items.len() - upto,
{
    if upto == items.len() {
        assert(items.take(upto) =~= items);
    } else {
        assert(items.take(upto + 1).drop_last() =~= items.take(upto));
        lemma_decoded_list_fails::<T>(items, upto + 1);
    }
}

/// The entries of an object, or the failure that `node` is none.
pub fn members_of(node: &Node) -> (r: Result<&Vec<Member>, DecodeError>)
    ensures
        match r {
            Ok(members) => node@ == NodeView::Object(members_view(members@)),
            Err(e) => !(node@ is Object) && e@ == ErrorView::mismatch(
                Shape::Object,
                kind_of(node@),
            ),
        },
{
    match node {
        Node::Object(members) => {
            proof {
                lemma_object_view(*members);
            }
            Ok(members)
        },
        _ => Err(DecodeError::mismatch(Shape::Object, node.kind())),
    }
}

/// Decodes each value of a list, in order, and stops at the first that fails.
pub fn decode_list<T: Decode>(items: &Vec<Node>) -> (r: Result<Vec<T>, DecodeError>)
    ensures
        outcomes(r) == decoded_list::<T>(items_view(items@)),
{
    let ghost all = items_view(items@);
    let mut out: Vec<T> = Vec::new();
    let mut i: usize = 0;
    proof {
        assert(all.take(0) =~= Seq::<NodeView>::empty());
        assert(views(out@) =~= Seq::<T::V>::empty());
    }
    while i < items.len()
        invariant
            i <= items.len(),
            all == items_view(items@),
            decoded_list::<T>(all.take(i as int)) == Ok::<Seq<T::V>, ErrorView>(views(out@)),
        decreases items.len() - i,
    {
        proof {
            assert(all.take(i + 1).drop_last() =~= all.take(i as int));
            assert(all.take(i + 1).last() == items[i as int]@);
        }
        match T::decode(&items[i]) {
            Ok(v) => {
                let ghost before = views(out@);
                out.push(v);
                proof {
                    assert(views(out@) =~= before.push(v@));
                }
            },
            Err(e) => {
                let e = e.under_index(i);
                proof {
                    lemma_decoded_list_fails::<T>(all, i + 1);
                }
                return Err(e);
            },
        }
        i = i + 1;
    }
    proof {
        assert(all.take(i as int) =~= all);
    }
    Ok(out)
}

/// Decodes a value that must be a list of `T`.
pub fn decode_list_node<T: Decode>(node: &Node) -> (r: Result<Vec<T>, DecodeError>)
    ensures
        outcomes(r) == decoded_list_node::<T>(node@),
{
    match node {
        Node::List(items) => {
            proof {
                lemma_list_view(*items);
            }
            decode_list::<T>(items)
        },
        _ => Err(DecodeError::mismatch(Shape::List, node.kind())),
    }
}

/// An empty list of `T`.
pub fn empty_list<T: View>() -> (v: Vec<T>)
    ensures
        views(v@) == Seq::<T::V>::empty(),
{
    let v: Vec<T> = Vec::new();
    assert(views(v@) =~= Seq::<T::V>::empty());
    v
}

/// Reads the required field `key`.
pub fn read<T: Decode>(members: &Vec<Member>, key: &str) -> (r: Result<T, DecodeError>)
    ensures
        outcome(r) == field::<T>(members_view(members@), key@),
{
    match find(members, key) {
        None => Err(DecodeError::missing(key)),
        Some(node) => match T::decode(node) {
            Ok(v) => Ok(v),
            Err(e) => Err(e.under_key(key)),
        },
    }
}

/// Reads the optional field `key`, which is `default` where the object has no such key.
pub fn read_or<T: Decode>(members: &Vec<Member>, key: &str, default: T) -> (r: Result<
    T,
    DecodeError,
>)
    ensures
        outcome(r) == field_or::<T>(members_view(members@), key@, default@),
{
    match find(members, key) {
        None => Ok(default),
        Some(node) => match T::decode(node) {
            Ok(v) => Ok(v),
            Err(e) => Err(e.under_key(key)),
        },
    }
}

/// Reads the optional list field `key`, which is empty where the object has no such key.
pub fn read_list<T: Decode>(members: &Vec<Member>, key: &str) -> (r: Result<Vec<T>, DecodeError>)
    ensures
        outcomes(r) == list_field::<T>(members_view(members@), key@),
{
    match find(members, key) {
        None => Ok(empty_list::<T>()),
        Some(node) => match decode_list_node::<T>(node) {
            Ok(v) => Ok(v),
            Err(e) => Err(e.under_key(key)),
        },
    }
}

/// Decodes the value at position `at` of a list, which must be one of its positions.
pub fn read_at<T: Decode>(items: &Vec<Node>, at: usize) -> (r: Result<T, DecodeError>)
    requires
        at < items.len(),
    ensures
        outcome(r) == element::<T>(items_view(items@), at as int),
{
    match T::decode(&items[at]) {
        Ok(v) => Ok(v),
        Err(e) => Err(e.under_index(at)),
    }
}

/// Decodes a packed list, record by record, after checking its length.
pub fn decode_packed<T: Packed>(items: &Vec<Node>) -> (r: Result<Vec<T>, DecodeError>)
    ensures
        outcomes(r) == decoded_packed::<T>(items_view(items@)),
{
    let ghost all = items_view(items@);
    let width: usize = T::width();
    let length: usize = items.len();
    if length % width != 0 {
        return Err(DecodeError::arity(width, length));
    }
    let count: usize = length / width;
    let mut out: Vec<T> = Vec::new();
    let mut k: usize = 0;
    let mut at: usize = 0;
    proof {
        assert(views(out@) =~= Seq::<T::V>::empty());
        assert(count * width == length) by (nonlinear_arith)
            requires
                length % width == 0,
                count == length / width,
                width > 0,
        ;
    }
    while k < count
        invariant
            k <= count,
            at == k * width,
            count * width == length,
            count == length / width,
            length % width == 0,
            length == items.len(),
            width == T::arity(),
            width > 0,
            all == items_view(items@),
            records::<T>(all, k as nat) == Ok::<Seq<T::V>, ErrorView>(views(out@)),
        decreases count - k,
    {
        proof {
            assert((k + 1) * width == k * width + width) by (nonlinear_arith);
            assert((k + 1) * width <= count * width) by (nonlinear_arith)
                requires
                    k + 1 <= count,
                    width > 0,
            ;
        }
        match T::unpack(items, at) {
            Ok(v) => {
                let ghost before = views(out@);
                out.push(v);
                proof {
                    assert(views(out@) =~= before.push(v@));
                }
            },
            Err(e) => {
                proof {
                    lemma_records_fail::<T>(all, (k + 1) as nat, count as nat);
                }
                return Err(e);
            },
        }
        k = k + 1;
        at = at + width;
    }
    Ok(out)
}

/// Decodes a value that must be a packed list of `T`.
pub fn decode_packed_node<T: Packed>(node: &Node) -> (r: Result<Vec<T>, DecodeError>)
    ensures
        outcomes(r) == decoded_packed_node::<T>(node@),
{
    match node {
        Node::List(items) => {
            proof {
                lemma_list_view(*items);
            }
            decode_packed::<T>(items)
        },
        _ => Err(DecodeError::mismatch(Shape::List, node.kind())),
    }
}

/// Decodes a value that must be a list of exactly one record of `T`.
pub fn decode_record<T: Packed>(node: &Node) -> (r: Result<T, DecodeError>)
    ensures
        outcome(r) == decoded_record::<T>(node@),
{
    match node {
        Node::List(items) => {
            proof {
                lemma_list_view(*items);
            }
            let width: usize = T::width();
            if items.len() != width {
                Err(DecodeError::arity(width, items.len()))
            } else {
                T::unpack(items, 0)
            }
        },
        _ => Err(DecodeError::mismatch(Shape::List, node.kind())),
    }
}

/// Reads the optional packed field `key`, which is empty where the object has no such key.
pub fn read_packed<T: Packed>(members: &Vec<Member>, key: &str) -> (r: Result<
    Vec<T>,
    DecodeError,
>)
    ensures
        outcomes(r) == packed_field::<T>(members_view(members@), key@),
{
    match find(members, key) {
        None => Ok(empty_list::<T>()),
        Some(node) => match decode_packed_node::<T>(node) {
            Ok(v) => Ok(v),
            Err(e) => Err(e.under_key(key)),
        },
    }
}

} // verus!

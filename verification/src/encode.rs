//! What it means to write a value back as a value of the tree, the writers of lists and
//! packed lists, and what holds of a value that was written and is read again.

use vstd::prelude::*;
use vstd::arithmetic::div_mod::{lemma_div_multiples_vanish, lemma_mod_multiples_basic};
use crate::decode::{
    decoded_list, decoded_packed, decoded_record, field, field_or, list_field, records, views,
    Decode, Packed,
};
use crate::error::ErrorView;
use crate::node::{
    items_view, lemma_list_view, lemma_lookup_skip, lemma_object_view, lookup, members_view,
    Member, Node, NodeView,
};

verus! {

/// A type whose values can be written back as a value of the tree.
pub trait Encode: Decode {
    /// Whether `v` is a value that a decode can give.
    spec fn regular(v: Self::V) -> bool;

    /// The value of the tree that stands for `v`, every field written out.
    spec fn encoded(v: Self::V) -> NodeView;

    /// Writes this value as a value of the tree.
    fn encode(&self) -> (n: Node)
        ensures
            n@ == Self::encoded(self@),
    ;

    /// Whatever a decode gives is regular.
    proof fn decoded_is_regular(n: NodeView)
        ensures
            Self::decoded(n) matches Ok(v) ==> Self::regular(v),
    ;

    /// A regular value decodes from the tree that it was written as.
    proof fn round_trip(v: Self::V)
        requires
            Self::regular(v),
        ensures
            Self::decoded(Self::encoded(v)) == Ok::<Self::V, ErrorView>(v),
    ;
}

/// A record that can be written back as neighbouring values of a packed list.
pub trait Pack: Packed {
    /// The values that stand for the record `v`, in order.
    spec fn packed(v: Self::V) -> Seq<NodeView>;

    /// Writes this record at the end of `out`.
    fn pack(&self, out: &mut Vec<Node>)
        ensures
            items_view(final(out)@) == items_view(old(out)@) + Self::packed(self@),
    ;

    /// A record is written as `arity()` values, and that is at least one.
    proof fn lemma_packed_len(v: Self::V)
        ensures
            Self::packed(v).len() == Self::arity(),
            Self::arity() > 0,
    ;

    /// Wherever the values written for `v` stand in a list, `v` is read back from there.
    proof fn lemma_unpack_packed(items: Seq<NodeView>, at: int, v: Self::V)
        requires
            0 <= at,
            at + Self::arity() <= items.len(),
            items.subrange(at, at + Self::arity()) == Self::packed(v),
        ensures
            Self::unpacked(items, at) == Ok::<Self::V, ErrorView>(v),
    ;
}

/// Whether every value of `vs` is one that a decode can give.
pub open spec fn all_regular<T: Encode>(vs: Seq<T::V>) -> bool {
    forall|i: int| 0 <= i < vs.len() ==> T::regular(#[trigger] vs[i])
}

/// The values that stand for the values `vs`, one for one.
pub open spec fn encoded_list<T: Encode>(vs: Seq<T::V>) -> Seq<NodeView> {
    Seq::new(vs.len(), |i: int| T::encoded(vs[i]))
}

/// The packed list that stands for the records `vs`: their values, one record after another.
pub open spec fn packed_list<T: Pack>(vs: Seq<T::V>) -> Seq<NodeView>
    decreases vs.len(),
{
    if vs.len() == 0 {
        Seq::empty()
    } else {
        packed_list::<T>(vs.drop_last()) + T::packed(vs.last())
    }
}

/// The entry at position `at` holds `key`, and no entry before it does: the lookup finds it.
pub proof fn lemma_lookup_at(members: Seq<(Seq<char>, NodeView)>, key: Seq<char>, at: int)
    requires
        0 <= at < members.len(),
        members[at].0 == key,
        forall|j: int| 0 <= j < at ==> members[j].0 != key,
    ensures
        lookup(members, key) == Some(members[at].1),
{
    lemma_lookup_skip(members, key, at);
    assert(members.skip(at)[0] == members[at]);
}

/// Adds the entry of `key` and `value` at the end of an object's entries.
pub fn put(members: &mut Vec<Member>, key: &str, value: Node)
    ensures
        members_view(final(members)@) == members_view(old(members)@).push((key@, value@)),
{
    members.push(Member { key: key.to_owned(), value });
    assert(members_view(members@) =~= members_view(old(members)@).push((key@, value@)));
}

/// The object made of `members`.
pub fn object(members: Vec<Member>) -> (n: Node)
    ensures
        n@ == NodeView::Object(members_view(members@)),
{
    proof {
        lemma_object_view(members);
    }
    Node::Object(members)
}

/// The list made of `items`.
pub fn list(items: Vec<Node>) -> (n: Node)
    ensures
        n@ == NodeView::List(items_view(items@)),
{
    proof {
        lemma_list_view(items);
    }
    Node::List(items)
}

/// Writes a list of values as a list of the tree, one value for one.
pub fn encode_list<T: Encode>(items: &Vec<T>) -> (n: Node)
    ensures
        n@ == NodeView::List(encoded_list::<T>(views(items@))),
{
    let mut out: Vec<Node> = Vec::new();
    let mut i: usize = 0;
    while i < items.len()
        invariant
            i <= items.len(),
            out.len() == i,
            forall|j: int| 0 <= j < i ==> out[j]@ == T::encoded(items[j]@),
        decreases items.len() - i,
    {
        out.push(items[i].encode());
        i = i + 1;
    }
    assert(items_view(out@) =~= encoded_list::<T>(views(items@)));
    list(out)
}

/// Writes a list of records as one packed list of the tree.
pub fn encode_packed<T: Pack>(items: &Vec<T>) -> (n: Node)
    ensures
        n@ == NodeView::List(packed_list::<T>(views(items@))),
{
    let ghost all = views(items@);
    let mut out: Vec<Node> = Vec::new();
    let mut i: usize = 0;
    proof {
        assert(all.take(0) =~= Seq::<T::V>::empty());
        assert(items_view(out@) =~= Seq::<NodeView>::empty());
    }
    while i < items.len()
        invariant
            i <= items.len(),
            all == views(items@),
            items_view(out@) == packed_list::<T>(all.take(i as int)),
        decreases items.len() - i,
    {
        proof {
            assert(all.take(i + 1).drop_last() =~= all.take(i as int));
            assert(all.take(i + 1).last() == items[i as int]@);
        }
        items[i].pack(&mut out);
        i = i + 1;
    }
    proof {
        assert(all.take(i as int) =~= all);
    }
    list(out)
}

/// Writes one record as a list of the tree.
pub fn encode_record<T: Pack>(item: &T) -> (n: Node)
    ensures
        n@ == NodeView::List(T::packed(item@)),
{
    let mut out: Vec<Node> = Vec::new();
    proof {
        assert(items_view(out@) =~= Seq::<NodeView>::empty());
    }
    item.pack(&mut out);
    proof {
        assert(Seq::<NodeView>::empty() + T::packed(item@) =~= T::packed(item@));
    }
    list(out)
}

/// Every value that a list decodes to is regular.
pub proof fn lemma_decoded_list_regular<T: Encode>(items: Seq<NodeView>)
    ensures
        decoded_list::<T>(items) matches Ok(vs) ==> all_regular::<T>(vs),
    decreases items.len(),
{
    if items.len() > 0 {
        lemma_decoded_list_regular::<T>(items.drop_last());
        T::decoded_is_regular(items.last());
    }
}

/// A list of regular values decodes from the list that it was written as.
pub proof fn lemma_list_round_trip<T: Encode>(vs: Seq<T::V>)
    requires
        all_regular::<T>(vs),
    ensures
        decoded_list::<T>(encoded_list::<T>(vs)) == Ok::<Seq<T::V>, ErrorView>(vs),
    decreases vs.len(),
{
    let items = encoded_list::<T>(vs);
    if vs.len() > 0 {
        assert(items.drop_last() =~= encoded_list::<T>(vs.drop_last()));
        lemma_list_round_trip::<T>(vs.drop_last());
        T::round_trip(vs.last());
        assert(vs.drop_last().push(vs.last()) =~= vs);
    } else {
        assert(vs =~= Seq::<T::V>::empty());
    }
}

/// A packed list of `n` records has `n` times the arity as its length.
pub proof fn lemma_packed_list_len<T: Pack>(vs: Seq<T::V>)
    ensures
        packed_list::<T>(vs).len() == vs.len() * T::arity(),
    decreases vs.len(),
{
    if vs.len() > 0 {
        lemma_packed_list_len::<T>(vs.drop_last());
        T::lemma_packed_len(vs.last());
        assert((vs.len() - 1) * T::arity() + T::arity() == vs.len() * T::arity())
            by (nonlinear_arith);
    } else {
        assert(0 * T::arity() == 0) by (nonlinear_arith);
    }
}

/// In the packed list written for `vs`, the values of record `k` stand where record
/// `k` is read from.
pub proof fn lemma_packed_chunk<T: Pack>(vs: Seq<T::V>, k: int)
    requires
        0 <= k < vs.len(),
    ensures
        (k + 1) * T::arity() <= packed_list::<T>(vs).len(),
        packed_list::<T>(vs).subrange(k * T::arity(), (k + 1) * T::arity()) == T::packed(vs[k]),
    decreases vs.len(),
{
    let a = T::arity() as int;
    let front = packed_list::<T>(vs.drop_last());
    let whole = packed_list::<T>(vs);
    lemma_packed_list_len::<T>(vs);
    lemma_packed_list_len::<T>(vs.drop_last());
    T::lemma_packed_len(vs.last());
    assert((k + 1) * a == k * a + a) by (nonlinear_arith);
    assert(vs.len() * a == (vs.len() - 1) * a + a) by (nonlinear_arith);
    assert(0 <= k * a) by (nonlinear_arith)
        requires
            0 <= k,
            0 < a,
    ;
    if k == vs.len() - 1 {
        assert(whole.subrange(k * a, (k + 1) * a) =~= T::packed(vs.last()));
    } else {
        lemma_packed_chunk::<T>(vs.drop_last(), k);
        assert((k + 1) * a <= (vs.len() - 1) * a) by (nonlinear_arith)
            requires
                k + 1 <= vs.len() - 1,
                0 < a,
        ;
        assert(whole.subrange(k * a, (k + 1) * a) =~= front.subrange(k * a, (k + 1) * a));
    }
}

/// The first `k` records read from the packed list written for `vs` are the first
/// `k` of `vs`.
pub proof fn lemma_records_of_packed<T: Pack>(vs: Seq<T::V>, k: nat)
    requires
        k <= vs.len(),
    ensures
        records::<T>(packed_list::<T>(vs), k) == Ok::<Seq<T::V>, ErrorView>(vs.take(k as int)),
    decreases k,
{
    if k == 0 {
        assert(vs.take(0) =~= Seq::<T::V>::empty());
    } else {
        lemma_records_of_packed::<T>(vs, (k - 1) as nat);
        lemma_packed_chunk::<T>(vs, k - 1);
        let a = T::arity() as int;
        assert((k - 1) * a + a == k * a) by (nonlinear_arith);
        assert(0 <= (k - 1) * a) by (nonlinear_arith)
            requires
                1 <= k,
                0 <= a,
        ;
        T::lemma_unpack_packed(packed_list::<T>(vs), (k - 1) * a, vs[k - 1]);
        assert(vs.take(k - 1).push(vs[k - 1]) =~= vs.take(k as int));
    }
}

/// Records decode from the packed list that they were written as.
pub proof fn lemma_packed_round_trip<T: Pack>(vs: Seq<T::V>)
    ensures
        decoded_packed::<T>(packed_list::<T>(vs)) == Ok::<Seq<T::V>, ErrorView>(vs),
{
    let items = packed_list::<T>(vs);
    lemma_packed_list_len::<T>(vs);
    if vs.len() > 0 {
        T::lemma_packed_len(vs[0]);
        let a = T::arity() as int;
        lemma_mod_multiples_basic(vs.len() as int, a);
        lemma_div_multiples_vanish(vs.len() as int, a);
        assert(vs.len() * a == a * vs.len()) by (nonlinear_arith);
        lemma_records_of_packed::<T>(vs, vs.len());
        assert(vs.take(vs.len() as int) =~= vs);
    } else {
        assert(vs =~= Seq::<T::V>::empty());
        T::lemma_packed_len(arbitrary());
    }
}

/// One record decodes from the list that it was written as.
pub proof fn lemma_record_round_trip<T: Pack>(v: T::V)
    ensures
        decoded_record::<T>(NodeView::List(T::packed(v))) == Ok::<T::V, ErrorView>(v),
{
    T::lemma_packed_len(v);
    let items = T::packed(v);
    assert(items.subrange(0, T::arity() as int) =~= items);
    T::lemma_unpack_packed(items, 0, v);
}

/// What a required field reads as is regular.
pub proof fn lemma_field_regular<T: Encode>(members: Seq<(Seq<char>, NodeView)>, key: Seq<char>)
    ensures
        field::<T>(members, key) matches Ok(v) ==> T::regular(v),
{
    if lookup(members, key) is Some {
        T::decoded_is_regular(lookup(members, key)->Some_0);
    }
}

/// What an optional field reads as is regular, where its default is.
pub proof fn lemma_field_or_regular<T: Encode>(
    members: Seq<(Seq<char>, NodeView)>,
    key: Seq<char>,
    default: T::V,
)
    requires
        T::regular(default),
    ensures
        field_or::<T>(members, key, default) matches Ok(v) ==> T::regular(v),
{
    if lookup(members, key) is Some {
        T::decoded_is_regular(lookup(members, key)->Some_0);
    }
}

/// Every value that a list field reads as is regular.
pub proof fn lemma_list_field_regular<T: Encode>(
    members: Seq<(Seq<char>, NodeView)>,
    key: Seq<char>,
)
    ensures
        list_field::<T>(members, key) matches Ok(vs) ==> all_regular::<T>(vs),
{
    match lookup(members, key) {
        Some(NodeView::List(items)) => {
            lemma_decoded_list_regular::<T>(items);
        },
        _ => {},
    }
}

} // verus!

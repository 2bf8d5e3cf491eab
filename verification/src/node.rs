//! The generic value tree that a document is decoded from: null, flags, numbers,
//! texts, lists and objects, as a parser of a text format hands them out.

use vstd::prelude::*;
use crate::error::Kind;
use crate::single::Single;

verus! {

/// A number of the tree: written as an integer, or as a real.
#[derive(Clone, Copy, Debug, PartialEq, Eq, Structural)]
pub enum Number {
    /// A number written without fraction and exponent, with its exact value.
    Int(i128),
    /// Any other number, in single precision.
    Real(Single),
}

/// One value of the tree.
#[derive(Debug, PartialEq, Eq)]
pub enum Node {
    Null,
    Bool(bool),
    Number(Number),
    Text(String),
    /// Values in order.
    List(Vec<Node>),
    /// Entries in the order in which they were written. Where two entries have one
    /// key, the first of them is the one that is found.
    Object(Vec<Member>),
}

/// One entry of an object: a key and the value under it.
#[derive(Debug, PartialEq, Eq)]
pub struct Member {
    pub key: String,
    pub value: Node,
}

/// The mathematical value of a [`Node`].
pub enum NodeView {
    Null,
    Bool(bool),
    Number(Number),
    Text(Seq<char>),
    List(Seq<NodeView>),
    Object(Seq<(Seq<char>, NodeView)>),
}

/// The mathematical value of a tree, by recursion over it.
pub open spec fn node_view(n: Node) -> NodeView
    decreases n,
{
    match n {
        Node::Null => NodeView::Null,
        Node::Bool(b) => NodeView::Bool(b),
        Node::Number(n) => NodeView::Number(n),
        Node::Text(s) => NodeView::Text(s@),
        Node::List(items) => NodeView::List(
            Seq::new(
                items@.len(),
                |i: int|
                    if 0 <= i < items@.len() {
                        node_view(items@[i])
                    } else {
                        NodeView::Null
                    },
            ),
        ),
        Node::Object(members) => NodeView::Object(
            Seq::new(
                members@.len(),
                |i: int|
                    if 0 <= i < members@.len() {
                        (members@[i].key@, node_view(members@[i].value))
                    } else {
                        (Seq::empty(), NodeView::Null)
                    },
            ),
        ),
    }
}

impl View for Node {
    type V = NodeView;

    open spec fn view(&self) -> NodeView {
        node_view(*self)
    }
}

/// The values of a list, as mathematical values.
pub open spec fn items_view(items: Seq<Node>) -> Seq<NodeView> {
    Seq::new(items.len(), |i: int| items[i]@)
}

/// The entries of an object, as mathematical values.
pub open spec fn members_view(members: Seq<Member>) -> Seq<(Seq<char>, NodeView)> {
    Seq::new(members.len(), |i: int| (members[i].key@, members[i].value@))
}

/// The kind of a value.
pub open spec fn kind_of(n: NodeView) -> Kind {
    match n {
        NodeView::Null => Kind::Null,
        NodeView::Bool(_) => Kind::Bool,
        NodeView::Number(Number::Int(_)) => Kind::Int,
        NodeView::Number(Number::Real(_)) => Kind::Real,
        NodeView::Text(_) => Kind::Text,
        NodeView::List(_) => Kind::List,
        NodeView::Object(_) => Kind::Object,
    }
}

/// The value under `key`: that of the first entry with this key, if there is one.
pub open spec fn lookup(members: Seq<(Seq<char>, NodeView)>, key: Seq<char>) -> Option<NodeView>
    decreases members.len(),
{
    if members.len() == 0 {
        None
    } else if members[0].0 == key {
        Some(members[0].1)
    } else {
        lookup(members.drop_first(), key)
    }
}

/// A list's view is made of its values' views.
pub proof fn lemma_list_view(items: Vec<Node>)
    ensures
        Node::List(items)@ == NodeView::List(items_view(items@)),
{
    assert(Node::List(items)@->List_0 =~= items_view(items@));
}

/// An object's view is made of its entries' views.
pub proof fn lemma_object_view(members: Vec<Member>)
    ensures
        Node::Object(members)@ == NodeView::Object(members_view(members@)),
{
    assert(Node::Object(members)@->Object_0 =~= members_view(members@));
}

/// No entry before `at` has the key: the lookup goes on from `at`.
pub proof fn lemma_lookup_skip(members: Seq<(Seq<char>, NodeView)>, key: Seq<char>, at: int)
    requires
        0 <= at <= members.len(),
        forall|j: int| 0 <= j < at ==> members[j].0 != key,
    ensures
        lookup(members, key) == lookup(members.skip(at), key),
    decreases at,
{
    if at == 0 {
        assert(members.skip(0) =~= members);
    } else {
        lemma_lookup_skip(members.drop_first(), key, at - 1);
        assert(members.drop_first().skip(at - 1) =~= members.skip(at));
    }
}

/// An entry under another key changes nothing for `key`, wherever among the entries
/// it stands: what an object holds beyond the fields that are asked for is ignored.
pub proof fn law_lookup_ignores_other_keys(
    members: Seq<(Seq<char>, NodeView)>,
    key: Seq<char>,
    at: int,
    other: Seq<char>,
    value: NodeView,
)
    requires
        0 <= at <= members.len(),
        other != key,
    ensures
        lookup(members.insert(at, (other, value)), key) == lookup(members, key),
    decreases at,
{
    let more = members.insert(at, (other, value));
    if at == 0 {
        assert(more.drop_first() =~= members);
    } else {
        law_lookup_ignores_other_keys(members.drop_first(), key, at - 1, other, value);
        assert(more.drop_first() =~= members.drop_first().insert(at - 1, (other, value)));
    }
}

impl Node {
    /// The kind of this value.
    pub fn kind(&self) -> (k: Kind)
        ensures
            k == kind_of(self@),
    {
        match self {
            Node::Null => Kind::Null,
            Node::Bool(_) => Kind::Bool,
            Node::Number(Number::Int(_)) => Kind::Int,
            Node::Number(Number::Real(_)) => Kind::Real,
            Node::Text(_) => Kind::Text,
            Node::List(_) => Kind::List,
            Node::Object(_) => Kind::Object,
        }
    }

    /// A deep copy of the tree.
    #[verifier::loop_isolation(false)]
    pub fn copy(&self) -> (r: Node)
        ensures
            r@ == self@,
        decreases self,
    {
        match self {
            Node::Null => Node::Null,
            Node::Bool(b) => Node::Bool(*b),
            Node::Number(n) => Node::Number(*n),
            Node::Text(s) => Node::Text(s.clone()),
            Node::List(items) => {
                let mut out: Vec<Node> = Vec::new();
                let mut i: usize = 0;
                while i < items.len()
                    invariant
                        i <= items.len(),
                        out.len() == i,
                        forall|j: int| 0 <= j < i ==> out[j]@ == items[j]@,
                    decreases items.len() - i,
                {
                    let c = items[i].copy();
                    out.push(c);
                    i = i + 1;
                }
                assert(Node::List(out)@->List_0 =~= self@->List_0);
                Node::List(out)
            },
            Node::Object(members) => {
                let mut out: Vec<Member> = Vec::new();
                let mut i: usize = 0;
                while i < members.len()
                    invariant
                        i <= members.len(),
                        out.len() == i,
                        forall|j: int|
                            0 <= j < i ==> out[j].key@ == members[j].key@ && out[j].value@
                                == members[j].value@,
                    decreases members.len() - i,
                {
                    let c = members[i].value.copy();
                    out.push(Member { key: members[i].key.clone(), value: c });
                    i = i + 1;
                }
                assert(Node::Object(out)@->Object_0 =~= self@->Object_0);
                Node::Object(out)
            },
        }
    }
}

impl Clone for Node {
    fn clone(&self) -> (r: Node)
        ensures
            r@ == self@,
    {
        self.copy()
    }
}

impl Clone for Member {
    fn clone(&self) -> (r: Member)
        ensures
            r.key@ == self.key@,
            r.value@ == self.value@,
    {
        Member { key: self.key.clone(), value: self.value.copy() }
    }
}

/// The value under `key` in an object's entries: that of the first entry with this key.
pub fn find<'a>(members: &'a Vec<Member>, key: &str) -> (r: Option<&'a Node>)
    ensures
        match r {
            Some(n) => lookup(members_view(members@), key@) == Some(n@),
            None => lookup(members_view(members@), key@) is None,
        },
{
    let wanted = key.to_owned();
    let mut i: usize = 0;
    while i < members.len()
        invariant
            i <= members.len(),
            wanted@ == key@,
            forall|j: int| 0 <= j < i ==> members_view(members@)[j].0 != key@,
        decreases members.len() - i,
    {
        if members[i].key == wanted {
            proof {
                let view = members_view(members@);
                lemma_lookup_skip(view, key@, i as int);
                assert(view.skip(i as int)[0] == view[i as int]);
            }
            return Some(&members[i].value);
        }
        i = i + 1;
    }
    proof {
        let view = members_view(members@);
        lemma_lookup_skip(view, key@, i as int);
        assert(view.skip(i as int).len() == 0);
    }
    None
}

} // verus!

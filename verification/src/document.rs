//! The document: its versions, its frame rate and its armatures.

use vstd::prelude::*;
use crate::decode::{
    decoded_list, empty_list, field, field_or, lemma_decoded_list_fails, list_field, members_of,
    read, read_or, views, Decode,
};
use crate::encode::{
    all_regular, encode_list, encoded_list, lemma_field_regular, lemma_list_field_regular,
    lemma_list_round_trip, lemma_lookup_at, object, put, Encode,
};
use crate::error::{outcome, DecodeError, ErrorView, Shape};
use crate::node::{
    find, items_view, kind_of, lemma_list_view, lookup, members_view, Member, Node, NodeView,
};
use crate::single::{Single, MINUS_ONE_BITS};
use crate::skeleton::{Armature, ArmatureView};
use crate::version::{parsed_version, Version, VersionView};

verus! {

/// One exported document.
#[derive(Clone, Debug, PartialEq, Eq)]
pub struct Skeleton {
    /// The name of the data.
    pub name: String,
    /// The version of the format that the document is written in.
    pub version: Version,
    /// The oldest version of the format that can read the document.
    pub compatible_version: Version,
    /// The frame rate of every armature that gives none of its own.
    pub frame_rate: Single,
    /// Custom data, kept as it was found.
    pub user_data: Node,
    /// The armatures, in the order of the document.
    pub armature: Vec<Armature>,
}

/// The mathematical value of a [`Skeleton`].
pub struct SkeletonView {
    pub name: Seq<char>,
    pub version: VersionView,
    pub compatible_version: VersionView,
    pub frame_rate: Single,
    pub user_data: NodeView,
    pub armature: Seq<ArmatureView>,
}

impl View for Skeleton {
    type V = SkeletonView;

    open spec fn view(&self) -> SkeletonView {
        SkeletonView {
            name: self.name@,
            version: self.version@,
            compatible_version: self.compatible_version@,
            frame_rate: self.frame_rate,
            user_data: self.user_data@,
            armature: views(self.armature@),
        }
    }
}

/// The armatures of a document whose frame rate is `global`: each armature that gave
/// no rate of its own takes the document's.
pub open spec fn resolved(armatures: Seq<ArmatureView>, global: Single) -> Seq<ArmatureView> {
    Seq::new(armatures.len(), |i: int| armatures[i].with_rate(global))
}

/// What the field `armature` of a document whose frame rate is `global` reads as.
pub open spec fn armatures_field(members: Seq<(Seq<char>, NodeView)>, global: Single) -> Result<
    Seq<ArmatureView>,
    ErrorView,
> {
    match list_field::<Armature>(members, "armature"@) {
        Ok(armatures) => Ok(resolved(armatures, global)),
        Err(e) => Err(e),
    }
}

/// Reads the armatures of a document whose frame rate is `global`.
fn read_armatures(members: &Vec<Member>, global: Single) -> (r: Result<Vec<Armature>, DecodeError>)
    ensures
        match r {
            Ok(v) => armatures_field(members_view(members@), global) == Ok::<
                Seq<ArmatureView>,
                ErrorView,
            >(views(v@)),
            Err(e) => armatures_field(members_view(members@), global) == Err::<
                Seq<ArmatureView>,
                ErrorView,
            >(e@),
        },
{
    let items = match find(members, "armature") {
        None => {
            let out = empty_list::<Armature>();
            assert(resolved(Seq::<ArmatureView>::empty(), global) =~= views(out@));
            return Ok(out);
        },
        Some(Node::List(items)) => {
            proof {
                lemma_list_view(*items);
            }
            items
        },
        Some(node) => {
            return Err(DecodeError::mismatch(Shape::List, node.kind()).under_key("armature"));
        },
    };
    let ghost all = items_view(items@);
    let ghost mut raw: Seq<ArmatureView> = Seq::empty();
    let mut out: Vec<Armature> = Vec::new();
    let mut i: usize = 0;
    proof {
        assert(all.take(0) =~= Seq::<NodeView>::empty());
        assert(views(out@) =~= resolved(raw, global));
    }
    while i < items.len()
        invariant
            i <= items.len(),
            all == items_view(items@),
            lookup(members_view(members@), "armature"@) == Some(NodeView::List(all)),
            decoded_list::<Armature>(all.take(i as int)) == Ok::<Seq<ArmatureView>, ErrorView>(raw),
            views(out@) == resolved(raw, global),
        decreases items.len() - i,
    {
        proof {
            assert(all.take(i + 1).drop_last() =~= all.take(i as int));
            assert(all.take(i + 1).last() == items[i as int]@);
        }
        match Armature::decode(&items[i]) {
            Ok(a) => {
                let ghost before = raw;
                let ghost written = views(out@);
                let ghost read = a@;
                let a = a.resolve(global);
                out.push(a);
                proof {
                    raw = before.push(read);
                    assert(views(out@) =~= written.push(read.with_rate(global)));
                    assert(resolved(raw, global) =~= resolved(before, global).push(
                        read.with_rate(global),
                    ));
                }
            },
            Err(e) => {
                let e = e.under_index(i).under_key("armature");
                proof {
                    lemma_decoded_list_fails::<Armature>(all, i + 1);
                }
                return Err(e);
            },
        }
        i = i + 1;
    }
    proof {
        assert(all.take(i as int) =~= all);
    }
    Ok(out)
}

impl Decode for Skeleton {
    /// An object. It must hold `name`, `version`, `compatibleVersion` and `frameRate`;
    /// `userData` is null and `armature` is empty where the object lacks them. The two
    /// versions must be semantic versions. Each armature that gives no frame rate of
    /// its own takes the document's. The fields are read in the order in which they
    /// are declared, and the first failure is the result: no part of a document is
    /// handed out where another part fails.
    open spec fn decoded(n: NodeView) -> Result<SkeletonView, ErrorView> {
        match n {
            NodeView::Object(m) => {
                let name = field::<String>(m, "name"@);
                let version = field::<Version>(m, "version"@);
                let compatible_version = field::<Version>(m, "compatibleVersion"@);
                let frame_rate = field::<Single>(m, "frameRate"@);
                let user_data = field_or::<Node>(m, "userData"@, NodeView::Null);
                if name is Err {
                    Err(name->Err_0)
                } else if version is Err {
                    Err(version->Err_0)
                } else if compatible_version is Err {
                    Err(compatible_version->Err_0)
                } else if frame_rate is Err {
                    Err(frame_rate->Err_0)
                } else if user_data is Err {
                    Err(user_data->Err_0)
                } else {
                    match armatures_field(m, frame_rate->Ok_0) {
                        Err(e) => Err(e),
                        Ok(armature) => Ok(
                            SkeletonView {
                                name: name->Ok_0,
                                version: version->Ok_0,
                                compatible_version: compatible_version->Ok_0,
                                frame_rate: frame_rate->Ok_0,
                                user_data: user_data->Ok_0,
                                armature,
                            },
                        ),
                    }
                }
            },
            _ => Err(ErrorView::mismatch(Shape::Object, kind_of(n))),
        }
    }

    fn decode(node: &Node) -> (r: Result<Skeleton, DecodeError>)
        ensures
            outcome(r) == Self::decoded(node@),
    {
        let m = members_of(node)?;
        let name = read::<String>(m, "name")?;
        let version = read::<Version>(m, "version")?;
        let compatible_version = read::<Version>(m, "compatibleVersion")?;
        let frame_rate = read::<Single>(m, "frameRate")?;
        let user_data = read_or::<Node>(m, "userData", Node::Null)?;
        let armature = read_armatures(m, frame_rate)?;
        Ok(Skeleton { name, version, compatible_version, frame_rate, user_data, armature })
    }
}

impl Encode for Skeleton {
    /// Both versions are regular, every armature is, and an armature whose frame rate
    /// is -1 stands in a document whose frame rate is -1.
    open spec fn regular(v: SkeletonView) -> bool {
        &&& Version::regular(v.version)
        &&& Version::regular(v.compatible_version)
        &&& all_regular::<Armature>(v.armature)
        &&& forall|i: int|
            0 <= i < v.armature.len() && (#[trigger] v.armature[i]).frame_rate.bits
                == MINUS_ONE_BITS ==> v.frame_rate.bits == MINUS_ONE_BITS
    }

    open spec fn encoded(v: SkeletonView) -> NodeView {
        NodeView::Object(
            seq![
                ("name"@, String::encoded(v.name)),
                ("version"@, Version::encoded(v.version)),
                ("compatibleVersion"@, Version::encoded(v.compatible_version)),
                ("frameRate"@, Single::encoded(v.frame_rate)),
                ("userData"@, Node::encoded(v.user_data)),
                ("armature"@, NodeView::List(encoded_list::<Armature>(v.armature))),
            ],
        )
    }

    fn encode(&self) -> (n: Node)
        ensures
            n@ == Self::encoded(self@),
    {
        let mut m: Vec<Member> = Vec::new();
        put(&mut m, "name", self.name.encode());
        put(&mut m, "version", self.version.encode());
        put(&mut m, "compatibleVersion", self.compatible_version.encode());
        put(&mut m, "frameRate", self.frame_rate.encode());
        put(&mut m, "userData", self.user_data.encode());
        put(&mut m, "armature", encode_list::<Armature>(&self.armature));
        let n = object(m);
        assert(n@->Object_0 =~= Self::encoded(self@)->Object_0);
        n
    }

    proof fn decoded_is_regular(n: NodeView) {
        match n {
            NodeView::Object(m) => {
                lemma_field_regular::<Version>(m, "version"@);
                lemma_field_regular::<Version>(m, "compatibleVersion"@);
                lemma_list_field_regular::<Armature>(m, "armature"@);
                if Self::decoded(n) is Ok {
                    let global = field::<Single>(m, "frameRate"@)->Ok_0;
                    let raw = list_field::<Armature>(m, "armature"@)->Ok_0;
                    let v = Self::decoded(n)->Ok_0;
                    assert(v.armature == resolved(raw, global));
                    assert forall|i: int| 0 <= i < v.armature.len() implies Armature::regular(
                        #[trigger] v.armature[i],
                    ) by {
                        assert(Armature::regular(raw[i]));
                    }
                }
            },
            _ => {},
        }
    }

    proof fn round_trip(v: SkeletonView) {
        let m = Self::encoded(v)->Object_0;
        lemma_skeleton_lookups(v);
        Version::round_trip(v.version);
        Version::round_trip(v.compatible_version);
        lemma_list_round_trip::<Armature>(v.armature);
        assert(resolved(v.armature, v.frame_rate) =~= v.armature);
    }
}

/// In the object written for a document, each key is found, and with the value written for it.
proof fn lemma_skeleton_lookups(v: SkeletonView)
    ensures
        lookup(Skeleton::encoded(v)->Object_0, "name"@) == Some(String::encoded(v.name)),
        lookup(Skeleton::encoded(v)->Object_0, "version"@) == Some(Version::encoded(v.version)),
        lookup(Skeleton::encoded(v)->Object_0, "compatibleVersion"@) == Some(
            Version::encoded(v.compatible_version),
        ),
        lookup(Skeleton::encoded(v)->Object_0, "frameRate"@) == Some(Single::encoded(v.frame_rate)),
        lookup(Skeleton::encoded(v)->Object_0, "userData"@) == Some(Node::encoded(v.user_data)),
        lookup(Skeleton::encoded(v)->Object_0, "armature"@) == Some(
            NodeView::List(encoded_list::<Armature>(v.armature)),
        ),
{
    let m = Skeleton::encoded(v)->Object_0;
    reveal_strlit("name");
    assert("name"@.len() == 4 && "name"@[0] == 'n');
    reveal_strlit("version");
    assert("version"@.len() == 7 && "version"@[0] == 'v');
    reveal_strlit("compatibleVersion");
    assert("compatibleVersion"@.len() == 17 && "compatibleVersion"@[0] == 'c');
    reveal_strlit("frameRate");
    assert("frameRate"@.len() == 9 && "frameRate"@[0] == 'f');
    reveal_strlit("userData");
    assert("userData"@.len() == 8 && "userData"@[0] == 'u');
    reveal_strlit("armature");
    assert("armature"@.len() == 8 && "armature"@[0] == 'a');
    lemma_lookup_at(m, "name"@, 0);
    lemma_lookup_at(m, "version"@, 1);
    lemma_lookup_at(m, "compatibleVersion"@, 2);
    lemma_lookup_at(m, "frameRate"@, 3);
    lemma_lookup_at(m, "userData"@, 4);
    lemma_lookup_at(m, "armature"@, 5);
}

/// Decodes a document from the root of its tree: the whole document, or the first
/// failure met, with the path from the root to where it lies.
pub fn decode(root: &Node) -> (r: Result<Skeleton, DecodeError>)
    ensures
        outcome(r) == Skeleton::decoded(root@),
{
    Skeleton::decode(root)
}

/// Writes a document as a tree, every field written out.
pub fn encode(document: &Skeleton) -> (n: Node)
    ensures
        n@ == Skeleton::encoded(document@),
{
    document.encode()
}

/// A document that was decoded, written as a tree and decoded from that tree again is
/// the same document.
pub proof fn law_round_trip(n: NodeView)
    ensures
        Skeleton::decoded(n) matches Ok(d) ==> Skeleton::decoded(Skeleton::encoded(d)) == Ok::<
            SkeletonView,
            ErrorView,
        >(d),
{
    if Skeleton::decoded(n) is Ok {
        Skeleton::decoded_is_regular(n);
        Skeleton::round_trip(Skeleton::decoded(n)->Ok_0);
    }
}

/// A document that holds only what it must decodes: its custom data is null and it
/// has no armatures.
pub proof fn law_minimal_skeleton(
    m: Seq<(Seq<char>, NodeView)>,
    name: Seq<char>,
    version_node: NodeView,
    version: VersionView,
    compatible_version_node: NodeView,
    compatible_version: VersionView,
    frame_rate_node: NodeView,
    frame_rate: Single,
)
    requires
        lookup(m, "name"@) == Some(NodeView::Text(name)),
        lookup(m, "version"@) == Some(version_node),
        Version::decoded(version_node) == Ok::<VersionView, ErrorView>(version),
        lookup(m, "compatibleVersion"@) == Some(compatible_version_node),
        Version::decoded(compatible_version_node) == Ok::<VersionView, ErrorView>(
            compatible_version,
        ),
        lookup(m, "frameRate"@) == Some(frame_rate_node),
        Single::decoded(frame_rate_node) == Ok::<Single, ErrorView>(frame_rate),
        lookup(m, "userData"@) is None,
        lookup(m, "armature"@) is None,
    ensures
        Skeleton::decoded(NodeView::Object(m)) == Ok::<SkeletonView, ErrorView>(
            SkeletonView {
                name,
                version,
                compatible_version,
                frame_rate,
                user_data: NodeView::Null,
                armature: Seq::empty(),
            },
        ),
{
    assert(resolved(Seq::<ArmatureView>::empty(), frame_rate) =~= Seq::<ArmatureView>::empty());
}

/// An object that lacks `name` is refused as a document, for the lack of `name`,
/// whatever else it holds.
pub proof fn law_skeleton_requires_name(m: Seq<(Seq<char>, NodeView)>)
    requires
        lookup(m, "name"@) is None,
    ensures
        Skeleton::decoded(NodeView::Object(m)) == Err::<SkeletonView, ErrorView>(
            ErrorView::missing("name"@),
        ),
{
}

/// An object that holds `name`, rightly shaped, and lacks `version` is refused as a
/// document, for the lack of `version`.
pub proof fn law_skeleton_requires_version(m: Seq<(Seq<char>, NodeView)>)
    requires
        field::<String>(m, "name"@) is Ok,
        lookup(m, "version"@) is None,
    ensures
        Skeleton::decoded(NodeView::Object(m)) == Err::<SkeletonView, ErrorView>(
            ErrorView::missing("version"@),
        ),
{
}

/// An object that holds `name` and `version`, rightly shaped, and lacks
/// `compatibleVersion` is refused as a document, for the lack of `compatibleVersion`.
pub proof fn law_skeleton_requires_compatible_version(m: Seq<(Seq<char>, NodeView)>)
    requires
        field::<String>(m, "name"@) is Ok,
        field::<Version>(m, "version"@) is Ok,
        lookup(m, "compatibleVersion"@) is None,
    ensures
        Skeleton::decoded(NodeView::Object(m)) == Err::<SkeletonView, ErrorView>(
            ErrorView::missing("compatibleVersion"@),
        ),
{
}

/// An object that holds `name`, `version` and `compatibleVersion`, rightly shaped, and
/// lacks `frameRate` is refused as a document, for the lack of `frameRate`.
pub proof fn law_skeleton_requires_frame_rate(m: Seq<(Seq<char>, NodeView)>)
    requires
        field::<String>(m, "name"@) is Ok,
        field::<Version>(m, "version"@) is Ok,
        field::<Version>(m, "compatibleVersion"@) is Ok,
        lookup(m, "frameRate"@) is None,
    ensures
        Skeleton::decoded(NodeView::Object(m)) == Err::<SkeletonView, ErrorView>(
            ErrorView::missing("frameRate"@),
        ),
{
}

/// A version that the parser refuses makes the document fail with the text of that
/// version, and with nothing else.
pub proof fn law_malformed_version(m: Seq<(Seq<char>, NodeView)>, text: Seq<char>)
    requires
        field::<String>(m, "name"@) is Ok,
        lookup(m, "version"@) == Some(NodeView::Text(text)),
    ensures
        parsed_version(text) is None ==> Skeleton::decoded(NodeView::Object(m)) == Err::<
            SkeletonView,
            ErrorView,
        >(ErrorView::VersionParse { raw: text }),
{
}

/// In a decoded document every armature carries a frame rate of its own: the one that
/// it gave, or the document's where it gave none. Nothing else of it differs from what
/// the armature decodes to by itself.
pub proof fn law_frame_rates(n: NodeView, i: int)
    requires
        n matches NodeView::Object(m) && list_field::<Armature>(m, "armature"@) matches Ok(raw)
            && 0 <= i < raw.len(),
    ensures
        Skeleton::decoded(n) matches Ok(d) ==> {
            let raw = list_field::<Armature>(n->Object_0, "armature"@)->Ok_0;
            &&& d.armature.len() == raw.len()
            &&& d.armature[i] == raw[i].with_rate(d.frame_rate)
            &&& raw[i].frame_rate.bits == MINUS_ONE_BITS ==> d.armature[i].frame_rate
                == d.frame_rate
            &&& raw[i].frame_rate.bits != MINUS_ONE_BITS ==> d.armature[i] == raw[i]
        },
{
}

} // verus!

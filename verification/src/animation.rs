//! Animations: the timelines of bones, slots, drawing order and deformation, and
//! their key frames.

use vstd::prelude::*;
use crate::decode::{
    element, empty_list, field, field_or, list_field, members_of, packed_field, read, read_at,
    read_list, read_or, read_packed, views, Decode, Packed,
};
use crate::defaults::{default_animation_duration, default_animation_loop, default_scale};
use crate::encode::{
    all_regular, encode_list, encode_packed, encoded_list, lemma_list_field_regular,
    lemma_list_round_trip, lemma_lookup_at, lemma_packed_round_trip, object, packed_list, put,
    Encode, Pack,
};
use crate::error::{outcome, DecodeError, ErrorView, Shape};
use crate::geometry::{Color, Point, Transform};
use crate::node::{items_view, kind_of, lookup, Member, Node, NodeView};
use crate::single::{Single, ONE_BITS, ZERO_BITS};
use crate::skeleton::{Action, ActionView};

verus! {

/// A move of one slot within the drawing order.
#[derive(Clone, Copy, Debug, PartialEq, Eq, Structural)]
pub struct ZOrderOffset {
    /// Which slot moves.
    pub slot_index: usize,
    /// By how many places.
    pub offset: isize,
}

impl View for ZOrderOffset {
    type V = ZOrderOffset;

    open spec fn view(&self) -> ZOrderOffset {
        *self
    }
}

impl Packed for ZOrderOffset {
    open spec fn arity() -> nat {
        2
    }

    /// Two neighbouring values of the list, read in this order: `slot_index`, `offset`. The
    /// first of them that fails is the result.
    open spec fn unpacked(items: Seq<NodeView>, at: int) -> Result<ZOrderOffset, ErrorView> {
        let slot_index = element::<usize>(items, at);
        let offset = element::<isize>(items, at + 1);
        if slot_index is Err {
            Err(slot_index->Err_0)
        } else if offset is Err {
            Err(offset->Err_0)
        } else {
            Ok(ZOrderOffset { slot_index: slot_index->Ok_0, offset: offset->Ok_0 })
        }
    }

    fn width() -> (w: usize)
        ensures
            w == 2,
    {
        2
    }

    fn unpack(items: &Vec<Node>, at: usize) -> (r: Result<ZOrderOffset, DecodeError>)
        ensures
            outcome(r) == Self::unpacked(items_view(items@), at as int),
    {
        let slot_index = read_at::<usize>(items, at)?;
        let offset = read_at::<isize>(items, at + 1)?;
        Ok(ZOrderOffset { slot_index, offset })
    }
}

impl Pack for ZOrderOffset {
    open spec fn packed(v: ZOrderOffset) -> Seq<NodeView> {
        seq![
            usize::encoded(v.slot_index),
            isize::encoded(v.offset),
        ]
    }

    fn pack(&self, out: &mut Vec<Node>)
        ensures
            items_view(final(out)@) == items_view(old(out)@) + Self::packed(self@),
    {
        out.push(self.slot_index.encode());
        out.push(self.offset.encode());
        assert(items_view(out@) =~= items_view(old(out)@) + Self::packed(self@));
    }

    proof fn lemma_packed_len(v: ZOrderOffset) {
    }

    proof fn lemma_unpack_packed(items: Seq<NodeView>, at: int, v: ZOrderOffset) {
        let part = items.subrange(at, at + 2);
        assert(items[at] == part[0]);
        assert(items[at + 1] == part[1]);
    }
}

/// How the values between two key frames are eased.
#[derive(Clone, Debug, PartialEq, Eq)]
pub struct AnimationTween {
    /// The kind of easing; 0, which leaves it to the easing value or the curve, where it is not
    /// given.
    pub tween_type: usize,
    /// The easing value; 0, which is linear, where it is not given.
    pub tween_easing: Single,
    /// The control points of a Bezier curve, as `x1, y1, x2, y2, ...`.
    pub curve: Vec<Single>,
}

/// The mathematical value of an [`AnimationTween`].
pub struct AnimationTweenView {
    pub tween_type: usize,
    pub tween_easing: Single,
    pub curve: Seq<Single>,
}

impl View for AnimationTween {
    type V = AnimationTweenView;

    open spec fn view(&self) -> AnimationTweenView {
        AnimationTweenView {
            tween_type: self.tween_type,
            tween_easing: self.tween_easing,
            curve: views(self.curve@),
        }
    }
}

impl AnimationTween {
    /// No easing given: kind 0, easing value 0, no curve.
    pub open spec fn initial() -> AnimationTweenView {
        AnimationTweenView {
            tween_type: 0,
            tween_easing: Single { bits: ZERO_BITS },
            curve: Seq::empty(),
        }
    }
}

impl Default for AnimationTween {
    fn default() -> (r: AnimationTween)
        ensures
            r@ == AnimationTween::initial(),
    {
        AnimationTween {
            tween_type: 0,
            tween_easing: Single { bits: ZERO_BITS },
            curve: empty_list::<Single>(),
        }
    }
}

impl Decode for AnimationTween {
    /// An object. Every field that it lacks takes its default, and a list that it lacks is
    /// empty. The fields are read in the order in which they are declared, and the first
    /// failure is the result.
    open spec fn decoded(n: NodeView) -> Result<AnimationTweenView, ErrorView> {
        match n {
            NodeView::Object(m) => {
                let tween_type = field_or::<usize>(m, "tweenType"@, 0);
                let tween_easing = field_or::<Single>(
                    m,
                    "tweenEasing"@,
                    Single { bits: ZERO_BITS },
                );
                let curve = list_field::<Single>(m, "curve"@);
                if tween_type is Err {
                    Err(tween_type->Err_0)
                } else if tween_easing is Err {
                    Err(tween_easing->Err_0)
                } else if curve is Err {
                    Err(curve->Err_0)
                } else {
                    Ok(
                        AnimationTweenView {
                            tween_type: tween_type->Ok_0,
                            tween_easing: tween_easing->Ok_0,
                            curve: curve->Ok_0,
                        },
                    )
                }
            },
            _ => Err(ErrorView::mismatch(Shape::Object, kind_of(n))),
        }
    }

    fn decode(node: &Node) -> (r: Result<AnimationTween, DecodeError>)
        ensures
            outcome(r) == Self::decoded(node@),
    {
        let m = members_of(node)?;
        let tween_type = read_or::<usize>(m, "tweenType", 0)?;
        let tween_easing = read_or::<Single>(m, "tweenEasing", Single { bits: ZERO_BITS })?;
        let curve = read_list::<Single>(m, "curve")?;
        Ok(AnimationTween { tween_type, tween_easing, curve })
    }
}

impl Encode for AnimationTween {
    open spec fn regular(v: AnimationTweenView) -> bool {
        true
    }

    open spec fn encoded(v: AnimationTweenView) -> NodeView {
        NodeView::Object(
            seq![
                ("tweenType"@, usize::encoded(v.tween_type)),
                ("tweenEasing"@, Single::encoded(v.tween_easing)),
                ("curve"@, NodeView::List(encoded_list::<Single>(v.curve))),
            ],
        )
    }

    fn encode(&self) -> (n: Node)
        ensures
            n@ == Self::encoded(self@),
    {
        let mut m: Vec<Member> = Vec::new();
        put(&mut m, "tweenType", self.tween_type.encode());
        put(&mut m, "tweenEasing", self.tween_easing.encode());
        put(&mut m, "curve", encode_list::<Single>(&self.curve));
        let n = object(m);
        assert(n@->Object_0 =~= Self::encoded(self@)->Object_0);
        n
    }

    proof fn decoded_is_regular(n: NodeView) {
    }

    proof fn round_trip(v: AnimationTweenView) {
        let m = Self::encoded(v)->Object_0;
        lemma_animation_tween_lookups(v);
        usize::round_trip(v.tween_type);
        Single::round_trip(v.tween_easing);
        lemma_list_round_trip::<Single>(v.curve);
    }
}

/// In the object written for a tween, each key is found, and with the value written for it.
proof fn lemma_animation_tween_lookups(v: AnimationTweenView)
    ensures
        lookup(AnimationTween::encoded(v)->Object_0, "tweenType"@) == Some(
            usize::encoded(v.tween_type),
        ),
        lookup(AnimationTween::encoded(v)->Object_0, "tweenEasing"@) == Some(
            Single::encoded(v.tween_easing),
        ),
        lookup(AnimationTween::encoded(v)->Object_0, "curve"@) == Some(
            NodeView::List(encoded_list::<Single>(v.curve)),
        ),
{
    let m = AnimationTween::encoded(v)->Object_0;
    reveal_strlit("tweenType");
    assert("tweenType"@.len() == 9);
    reveal_strlit("tweenEasing");
    assert("tweenEasing"@.len() == 11);
    reveal_strlit("curve");
    assert("curve"@.len() == 5);
    lemma_lookup_at(m, "tweenType"@, 0);
    lemma_lookup_at(m, "tweenEasing"@, 1);
    lemma_lookup_at(m, "curve"@, 2);
}

/// An object that holds none of the fields of a tween decodes to a tween in which every field
/// has its default.
pub proof fn law_minimal_animation_tween(
    m: Seq<(Seq<char>, NodeView)>,
)
    requires
        lookup(m, "tweenType"@) is None,
        lookup(m, "tweenEasing"@) is None,
        lookup(m, "curve"@) is None,
    ensures
        AnimationTween::decoded(NodeView::Object(m)) == Ok::<AnimationTweenView, ErrorView>(
            AnimationTweenView {
                tween_type: 0,
                tween_easing: Single { bits: ZERO_BITS },
                curve: Seq::empty(),
            },
        ),
{
}

/// Something that a key frame announces.
#[derive(Clone, Debug, PartialEq, Eq)]
pub struct Event {
    /// The event's name; empty where it is not given.
    pub name: String,
    /// The name of the bone concerned, kept as it was found; empty where it is not given.
    pub bone: String,
    /// The name of the slot concerned, kept as it was found; empty where it is not given.
    pub slot: String,
    /// Integer arguments.
    pub ints: Vec<i32>,
    /// Real arguments.
    pub floats: Vec<Single>,
    /// Text arguments.
    pub strings: Vec<String>,
}

/// The mathematical value of an [`Event`].
pub struct EventView {
    pub name: Seq<char>,
    pub bone: Seq<char>,
    pub slot: Seq<char>,
    pub ints: Seq<i32>,
    pub floats: Seq<Single>,
    pub strings: Seq<Seq<char>>,
}

impl View for Event {
    type V = EventView;

    open spec fn view(&self) -> EventView {
        EventView {
            name: self.name@,
            bone: self.bone@,
            slot: self.slot@,
            ints: views(self.ints@),
            floats: views(self.floats@),
            strings: views(self.strings@),
        }
    }
}

impl Event {
    /// The event that says nothing: empty names, no arguments.
    pub open spec fn initial() -> EventView {
        EventView {
            name: Seq::<char>::empty(),
            bone: Seq::<char>::empty(),
            slot: Seq::<char>::empty(),
            ints: Seq::empty(),
            floats: Seq::empty(),
            strings: Seq::empty(),
        }
    }
}

impl Default for Event {
    fn default() -> (r: Event)
        ensures
            r@ == Event::initial(),
    {
        Event {
            name: String::new(),
            bone: String::new(),
            slot: String::new(),
            ints: empty_list::<i32>(),
            floats: empty_list::<Single>(),
            strings: empty_list::<String>(),
        }
    }
}

impl Decode for Event {
    /// An object. Every field that it lacks takes its default, and a list that it lacks is
    /// empty. The fields are read in the order in which they are declared, and the first
    /// failure is the result.
    open spec fn decoded(n: NodeView) -> Result<EventView, ErrorView> {
        match n {
            NodeView::Object(m) => {
                let name = field_or::<String>(m, "name"@, Seq::<char>::empty());
                let bone = field_or::<String>(m, "bone"@, Seq::<char>::empty());
                let slot = field_or::<String>(m, "slot"@, Seq::<char>::empty());
                let ints = list_field::<i32>(m, "ints"@);
                let floats = list_field::<Single>(m, "floats"@);
                let strings = list_field::<String>(m, "strings"@);
                if name is Err {
                    Err(name->Err_0)
                } else if bone is Err {
                    Err(bone->Err_0)
                } else if slot is Err {
                    Err(slot->Err_0)
                } else if ints is Err {
                    Err(ints->Err_0)
                } else if floats is Err {
                    Err(floats->Err_0)
                } else if strings is Err {
                    Err(strings->Err_0)
                } else {
                    Ok(
                        EventView {
                            name: name->Ok_0,
                            bone: bone->Ok_0,
                            slot: slot->Ok_0,
                            ints: ints->Ok_0,
                            floats: floats->Ok_0,
                            strings: strings->Ok_0,
                        },
                    )
                }
            },
            _ => Err(ErrorView::mismatch(Shape::Object, kind_of(n))),
        }
    }

    fn decode(node: &Node) -> (r: Result<Event, DecodeError>)
        ensures
            outcome(r) == Self::decoded(node@),
    {
        let m = members_of(node)?;
        let name = read_or::<String>(m, "name", String::new())?;
        let bone = read_or::<String>(m, "bone", String::new())?;
        let slot = read_or::<String>(m, "slot", String::new())?;
        let ints = read_list::<i32>(m, "ints")?;
        let floats = read_list::<Single>(m, "floats")?;
        let strings = read_list::<String>(m, "strings")?;
        Ok(Event { name, bone, slot, ints, floats, strings })
    }
}

impl Encode for Event {
    open spec fn regular(v: EventView) -> bool {
        true
    }

    open spec fn encoded(v: EventView) -> NodeView {
        NodeView::Object(
            seq![
                ("name"@, String::encoded(v.name)),
                ("bone"@, String::encoded(v.bone)),
                ("slot"@, String::encoded(v.slot)),
                ("ints"@, NodeView::List(encoded_list::<i32>(v.ints))),
                ("floats"@, NodeView::List(encoded_list::<Single>(v.floats))),
                ("strings"@, NodeView::List(encoded_list::<String>(v.strings))),
            ],
        )
    }

    fn encode(&self) -> (n: Node)
        ensures
            n@ == Self::encoded(self@),
    {
        let mut m: Vec<Member> = Vec::new();
        put(&mut m, "name", self.name.encode());
        put(&mut m, "bone", self.bone.encode());
        put(&mut m, "slot", self.slot.encode());
        put(&mut m, "ints", encode_list::<i32>(&self.ints));
        put(&mut m, "floats", encode_list::<Single>(&self.floats));
        put(&mut m, "strings", encode_list::<String>(&self.strings));
        let n = object(m);
        assert(n@->Object_0 =~= Self::encoded(self@)->Object_0);
        n
    }

    proof fn decoded_is_regular(n: NodeView) {
    }

    proof fn round_trip(v: EventView) {
        let m = Self::encoded(v)->Object_0;
        lemma_event_lookups(v);
        String::round_trip(v.name);
        String::round_trip(v.bone);
        String::round_trip(v.slot);
        lemma_list_round_trip::<i32>(v.ints);
        lemma_list_round_trip::<Single>(v.floats);
        lemma_list_round_trip::<String>(v.strings);
    }
}

/// In the object written for a event, each key is found, and with the value written for it.
proof fn lemma_event_lookups(v: EventView)
    ensures
        lookup(Event::encoded(v)->Object_0, "name"@) == Some(String::encoded(v.name)),
        lookup(Event::encoded(v)->Object_0, "bone"@) == Some(String::encoded(v.bone)),
        lookup(Event::encoded(v)->Object_0, "slot"@) == Some(String::encoded(v.slot)),
        lookup(Event::encoded(v)->Object_0, "ints"@) == Some(
            NodeView::List(encoded_list::<i32>(v.ints)),
        ),
        lookup(Event::encoded(v)->Object_0, "floats"@) == Some(
            NodeView::List(encoded_list::<Single>(v.floats)),
        ),
        lookup(Event::encoded(v)->Object_0, "strings"@) == Some(
            NodeView::List(encoded_list::<String>(v.strings)),
        ),
{
    let m = Event::encoded(v)->Object_0;
    reveal_strlit("name");
    assert("name"@.len() == 4 && "name"@[0] == 'n');
    reveal_strlit("bone");
    assert("bone"@.len() == 4 && "bone"@[0] == 'b');
    reveal_strlit("slot");
    assert("slot"@.len() == 4 && "slot"@[0] == 's');
    reveal_strlit("ints");
    assert("ints"@.len() == 4 && "ints"@[0] == 'i');
    reveal_strlit("floats");
    assert("floats"@.len() == 6);
    reveal_strlit("strings");
    assert("strings"@.len() == 7);
    lemma_lookup_at(m, "name"@, 0);
    lemma_lookup_at(m, "bone"@, 1);
    lemma_lookup_at(m, "slot"@, 2);
    lemma_lookup_at(m, "ints"@, 3);
    lemma_lookup_at(m, "floats"@, 4);
    lemma_lookup_at(m, "strings"@, 5);
}

/// An object that holds none of the fields of a event decodes to a event in which every field
/// has its default.
pub proof fn law_minimal_event(
    m: Seq<(Seq<char>, NodeView)>,
)
    requires
        lookup(m, "name"@) is None,
        lookup(m, "bone"@) is None,
        lookup(m, "slot"@) is None,
        lookup(m, "ints"@) is None,
        lookup(m, "floats"@) is None,
        lookup(m, "strings"@) is None,
    ensures
        Event::decoded(NodeView::Object(m)) == Ok::<EventView, ErrorView>(
            EventView {
                name: Seq::<char>::empty(),
                bone: Seq::<char>::empty(),
                slot: Seq::<char>::empty(),
                ints: Seq::empty(),
                floats: Seq::empty(),
                strings: Seq::empty(),
            },
        ),
{
}

/// A key frame of an animation's own timeline.
#[derive(Clone, Debug, PartialEq, Eq)]
pub struct AnimationFrame {
    /// How many frames it lasts; 1 where it is not given.
    pub duration: Single,
    /// The sound to play; empty where it is not given.
    pub sound: String,
    /// The events to announce.
    pub events: Vec<Event>,
    /// The behaviours to run.
    pub actions: Vec<Action>,
}

/// The mathematical value of an [`AnimationFrame`].
pub struct AnimationFrameView {
    pub duration: Single,
    pub sound: Seq<char>,
    pub events: Seq<EventView>,
    pub actions: Seq<ActionView>,
}

impl View for AnimationFrame {
    type V = AnimationFrameView;

    open spec fn view(&self) -> AnimationFrameView {
        AnimationFrameView {
            duration: self.duration,
            sound: self.sound@,
            events: views(self.events@),
            actions: views(self.actions@),
        }
    }
}

impl AnimationFrame {
    /// A key frame of one frame's length that does nothing.
    pub open spec fn initial() -> AnimationFrameView {
        AnimationFrameView {
            duration: Single { bits: ONE_BITS },
            sound: Seq::<char>::empty(),
            events: Seq::empty(),
            actions: Seq::empty(),
        }
    }
}

impl Default for AnimationFrame {
    fn default() -> (r: AnimationFrame)
        ensures
            r@ == AnimationFrame::initial(),
    {
        AnimationFrame {
            duration: default_animation_duration(),
            sound: String::new(),
            events: empty_list::<Event>(),
            actions: empty_list::<Action>(),
        }
    }
}

impl Decode for AnimationFrame {
    /// An object. Every field that it lacks takes its default, and a list that it lacks is
    /// empty. The fields are read in the order in which they are declared, and the first
    /// failure is the result.
    open spec fn decoded(n: NodeView) -> Result<AnimationFrameView, ErrorView> {
        match n {
            NodeView::Object(m) => {
                let duration = field_or::<Single>(m, "duration"@, Single { bits: ONE_BITS });
                let sound = field_or::<String>(m, "sound"@, Seq::<char>::empty());
                let events = list_field::<Event>(m, "events"@);
                let actions = list_field::<Action>(m, "actions"@);
                if duration is Err {
                    Err(duration->Err_0)
                } else if sound is Err {
                    Err(sound->Err_0)
                } else if events is Err {
                    Err(events->Err_0)
                } else if actions is Err {
                    Err(actions->Err_0)
                } else {
                    Ok(
                        AnimationFrameView {
                            duration: duration->Ok_0,
                            sound: sound->Ok_0,
                            events: events->Ok_0,
                            actions: actions->Ok_0,
                        },
                    )
                }
            },
            _ => Err(ErrorView::mismatch(Shape::Object, kind_of(n))),
        }
    }

    fn decode(node: &Node) -> (r: Result<AnimationFrame, DecodeError>)
        ensures
            outcome(r) == Self::decoded(node@),
    {
        let m = members_of(node)?;
        let duration = read_or::<Single>(m, "duration", default_animation_duration())?;
        let sound = read_or::<String>(m, "sound", String::new())?;
        let events = read_list::<Event>(m, "events")?;
        let actions = read_list::<Action>(m, "actions")?;
        Ok(AnimationFrame { duration, sound, events, actions })
    }
}

impl Encode for AnimationFrame {
    open spec fn regular(v: AnimationFrameView) -> bool {
        true
    }

    open spec fn encoded(v: AnimationFrameView) -> NodeView {
        NodeView::Object(
            seq![
                ("duration"@, Single::encoded(v.duration)),
                ("sound"@, String::encoded(v.sound)),
                ("events"@, NodeView::List(encoded_list::<Event>(v.events))),
                ("actions"@, NodeView::List(encoded_list::<Action>(v.actions))),
            ],
        )
    }

    fn encode(&self) -> (n: Node)
        ensures
            n@ == Self::encoded(self@),
    {
        let mut m: Vec<Member> = Vec::new();
        put(&mut m, "duration", self.duration.encode());
        put(&mut m, "sound", self.sound.encode());
        put(&mut m, "events", encode_list::<Event>(&self.events));
        put(&mut m, "actions", encode_list::<Action>(&self.actions));
        let n = object(m);
        assert(n@->Object_0 =~= Self::encoded(self@)->Object_0);
        n
    }

    proof fn decoded_is_regular(n: NodeView) {
    }

    proof fn round_trip(v: AnimationFrameView) {
        let m = Self::encoded(v)->Object_0;
        lemma_animation_frame_lookups(v);
        Single::round_trip(v.duration);
        String::round_trip(v.sound);
        lemma_list_round_trip::<Event>(v.events);
        lemma_list_round_trip::<Action>(v.actions);
    }
}

/// In the object written for a key frame, each key is found, and with the value written for it.
proof fn lemma_animation_frame_lookups(v: AnimationFrameView)
    ensures
        lookup(AnimationFrame::encoded(v)->Object_0, "duration"@) == Some(
            Single::encoded(v.duration),
        ),
        lookup(AnimationFrame::encoded(v)->Object_0, "sound"@) == Some(String::encoded(v.sound)),
        lookup(AnimationFrame::encoded(v)->Object_0, "events"@) == Some(
            NodeView::List(encoded_list::<Event>(v.events)),
        ),
        lookup(AnimationFrame::encoded(v)->Object_0, "actions"@) == Some(
            NodeView::List(encoded_list::<Action>(v.actions)),
        ),
{
    let m = AnimationFrame::encoded(v)->Object_0;
    reveal_strlit("duration");
    assert("duration"@.len() == 8);
    reveal_strlit("sound");
    assert("sound"@.len() == 5);
    reveal_strlit("events");
    assert("events"@.len() == 6);
    reveal_strlit("actions");
    assert("actions"@.len() == 7);
    lemma_lookup_at(m, "duration"@, 0);
    lemma_lookup_at(m, "sound"@, 1);
    lemma_lookup_at(m, "events"@, 2);
    lemma_lookup_at(m, "actions"@, 3);
}

/// An object that holds none of the fields of a key frame decodes to a key frame in which every
/// field has its default.
pub proof fn law_minimal_animation_frame(
    m: Seq<(Seq<char>, NodeView)>,
)
    requires
        lookup(m, "duration"@) is None,
        lookup(m, "sound"@) is None,
        lookup(m, "events"@) is None,
        lookup(m, "actions"@) is None,
    ensures
        AnimationFrame::decoded(NodeView::Object(m)) == Ok::<AnimationFrameView, ErrorView>(
            AnimationFrameView {
                duration: Single { bits: ONE_BITS },
                sound: Seq::<char>::empty(),
                events: Seq::empty(),
                actions: Seq::empty(),
            },
        ),
{
}

/// A key frame of the drawing-order timeline.
#[derive(Clone, Debug, PartialEq, Eq)]
pub struct AnimationZOrderFrame {
    /// How many frames it lasts; 1 where it is not given.
    pub duration: Single,
    /// The slots that move, packed as `slot, offset, slot, offset, ...`.
    pub z_order: Vec<ZOrderOffset>,
}

/// The mathematical value of an [`AnimationZOrderFrame`].
pub struct AnimationZOrderFrameView {
    pub duration: Single,
    pub z_order: Seq<ZOrderOffset>,
}

impl View for AnimationZOrderFrame {
    type V = AnimationZOrderFrameView;

    open spec fn view(&self) -> AnimationZOrderFrameView {
        AnimationZOrderFrameView {
            duration: self.duration,
            z_order: views(self.z_order@),
        }
    }
}

impl AnimationZOrderFrame {
    /// A key frame of one frame's length that moves no slot.
    pub open spec fn initial() -> AnimationZOrderFrameView {
        AnimationZOrderFrameView {
            duration: Single { bits: ONE_BITS },
            z_order: Seq::empty(),
        }
    }
}

impl Default for AnimationZOrderFrame {
    fn default() -> (r: AnimationZOrderFrame)
        ensures
            r@ == AnimationZOrderFrame::initial(),
    {
        AnimationZOrderFrame {
            duration: default_animation_duration(),
            z_order: empty_list::<ZOrderOffset>(),
        }
    }
}

impl Decode for AnimationZOrderFrame {
    /// An object. Every field that it lacks takes its default, and a list that it lacks is
    /// empty. The fields are read in the order in which they are declared, and the first
    /// failure is the result.
    open spec fn decoded(n: NodeView) -> Result<AnimationZOrderFrameView, ErrorView> {
        match n {
            NodeView::Object(m) => {
                let duration = field_or::<Single>(m, "duration"@, Single { bits: ONE_BITS });
                let z_order = packed_field::<ZOrderOffset>(m, "zOrder"@);
                if duration is Err {
                    Err(duration->Err_0)
                } else if z_order is Err {
                    Err(z_order->Err_0)
                } else {
                    Ok(
                        AnimationZOrderFrameView {
                            duration: duration->Ok_0,
                            z_order: z_order->Ok_0,
                        },
                    )
                }
            },
            _ => Err(ErrorView::mismatch(Shape::Object, kind_of(n))),
        }
    }

    fn decode(node: &Node) -> (r: Result<AnimationZOrderFrame, DecodeError>)
        ensures
            outcome(r) == Self::decoded(node@),
    {
        let m = members_of(node)?;
        let duration = read_or::<Single>(m, "duration", default_animation_duration())?;
        let z_order = read_packed::<ZOrderOffset>(m, "zOrder")?;
        Ok(AnimationZOrderFrame { duration, z_order })
    }
}

impl Encode for AnimationZOrderFrame {
    open spec fn regular(v: AnimationZOrderFrameView) -> bool {
        true
    }

    open spec fn encoded(v: AnimationZOrderFrameView) -> NodeView {
        NodeView::Object(
            seq![
                ("duration"@, Single::encoded(v.duration)),
                ("zOrder"@, NodeView::List(packed_list::<ZOrderOffset>(v.z_order))),
            ],
        )
    }

    fn encode(&self) -> (n: Node)
        ensures
            n@ == Self::encoded(self@),
    {
        let mut m: Vec<Member> = Vec::new();
        put(&mut m, "duration", self.duration.encode());
        put(&mut m, "zOrder", encode_packed::<ZOrderOffset>(&self.z_order));
        let n = object(m);
        assert(n@->Object_0 =~= Self::encoded(self@)->Object_0);
        n
    }

    proof fn decoded_is_regular(n: NodeView) {
    }

    proof fn round_trip(v: AnimationZOrderFrameView) {
        let m = Self::encoded(v)->Object_0;
        lemma_animation_z_order_frame_lookups(v);
        Single::round_trip(v.duration);
        lemma_packed_round_trip::<ZOrderOffset>(v.z_order);
    }
}

/// In the object written for a drawing-order key frame, each key is found, and with the value
/// written for it.
proof fn lemma_animation_z_order_frame_lookups(v: AnimationZOrderFrameView)
    ensures
        lookup(AnimationZOrderFrame::encoded(v)->Object_0, "duration"@) == Some(
            Single::encoded(v.duration),
        ),
        lookup(AnimationZOrderFrame::encoded(v)->Object_0, "zOrder"@) == Some(
            NodeView::List(packed_list::<ZOrderOffset>(v.z_order)),
        ),
{
    let m = AnimationZOrderFrame::encoded(v)->Object_0;
    reveal_strlit("duration");
    assert("duration"@.len() == 8);
    reveal_strlit("zOrder");
    assert("zOrder"@.len() == 6);
    lemma_lookup_at(m, "duration"@, 0);
    lemma_lookup_at(m, "zOrder"@, 1);
}

/// An object that holds none of the fields of a drawing-order key frame decodes to a drawing-
/// order key frame in which every field has its default.
pub proof fn law_minimal_animation_z_order_frame(
    m: Seq<(Seq<char>, NodeView)>,
)
    requires
        lookup(m, "duration"@) is None,
        lookup(m, "zOrder"@) is None,
    ensures
        AnimationZOrderFrame::decoded(NodeView::Object(m)) == Ok::<AnimationZOrderFrameView, ErrorView>(
            AnimationZOrderFrameView {
                duration: Single { bits: ONE_BITS },
                z_order: Seq::empty(),
            },
        ),
{
}

/// The timeline of the drawing order.
#[derive(Clone, Debug, PartialEq, Eq)]
pub struct AnimationZOrder {
    /// The key frames, in order.
    pub frame: Vec<AnimationZOrderFrame>,
}

/// The mathematical value of an [`AnimationZOrder`].
pub struct AnimationZOrderView {
    pub frame: Seq<AnimationZOrderFrameView>,
}

impl View for AnimationZOrder {
    type V = AnimationZOrderView;

    open spec fn view(&self) -> AnimationZOrderView {
        AnimationZOrderView {
            frame: views(self.frame@),
        }
    }
}

impl AnimationZOrder {
    /// A timeline without key frames.
    pub open spec fn initial() -> AnimationZOrderView {
        AnimationZOrderView {
            frame: Seq::empty(),
        }
    }
}

impl Default for AnimationZOrder {
    fn default() -> (r: AnimationZOrder)
        ensures
            r@ == AnimationZOrder::initial(),
    {
        AnimationZOrder {
            frame: empty_list::<AnimationZOrderFrame>(),
        }
    }
}

impl Decode for AnimationZOrder {
    /// An object. Every field that it lacks takes its default, and a list that it lacks is
    /// empty. The fields are read in the order in which they are declared, and the first
    /// failure is the result.
    open spec fn decoded(n: NodeView) -> Result<AnimationZOrderView, ErrorView> {
        match n {
            NodeView::Object(m) => {
                let frame = list_field::<AnimationZOrderFrame>(m, "frame"@);
                if frame is Err {
                    Err(frame->Err_0)
                } else {
                    Ok(
                        AnimationZOrderView {
                            frame: frame->Ok_0,
                        },
                    )
                }
            },
            _ => Err(ErrorView::mismatch(Shape::Object, kind_of(n))),
        }
    }

    fn decode(node: &Node) -> (r: Result<AnimationZOrder, DecodeError>)
        ensures
            outcome(r) == Self::decoded(node@),
    {
        let m = members_of(node)?;
        let frame = read_list::<AnimationZOrderFrame>(m, "frame")?;
        Ok(AnimationZOrder { frame })
    }
}

impl Encode for AnimationZOrder {
    open spec fn regular(v: AnimationZOrderView) -> bool {
        &&& all_regular::<AnimationZOrderFrame>(v.frame)
    }

    open spec fn encoded(v: AnimationZOrderView) -> NodeView {
        NodeView::Object(
            seq![
                ("frame"@, NodeView::List(encoded_list::<AnimationZOrderFrame>(v.frame))),
            ],
        )
    }

    fn encode(&self) -> (n: Node)
        ensures
            n@ == Self::encoded(self@),
    {
        let mut m: Vec<Member> = Vec::new();
        put(&mut m, "frame", encode_list::<AnimationZOrderFrame>(&self.frame));
        let n = object(m);
        assert(n@->Object_0 =~= Self::encoded(self@)->Object_0);
        n
    }

    proof fn decoded_is_regular(n: NodeView) {
        match n {
            NodeView::Object(m) => {
                lemma_list_field_regular::<AnimationZOrderFrame>(m, "frame"@);
            },
            _ => {},
        }
    }

    proof fn round_trip(v: AnimationZOrderView) {
        let m = Self::encoded(v)->Object_0;
        lemma_animation_z_order_lookups(v);
        lemma_list_round_trip::<AnimationZOrderFrame>(v.frame);
    }
}

/// In the object written for a drawing-order timeline, each key is found, and with the value
/// written for it.
proof fn lemma_animation_z_order_lookups(v: AnimationZOrderView)
    ensures
        lookup(AnimationZOrder::encoded(v)->Object_0, "frame"@) == Some(
            NodeView::List(encoded_list::<AnimationZOrderFrame>(v.frame)),
        ),
{
    let m = AnimationZOrder::encoded(v)->Object_0;
    reveal_strlit("frame");
    assert("frame"@.len() == 5);
    lemma_lookup_at(m, "frame"@, 0);
}

/// An object that holds none of the fields of a drawing-order timeline decodes to a drawing-
/// order timeline in which every field has its default.
pub proof fn law_minimal_animation_z_order(
    m: Seq<(Seq<char>, NodeView)>,
)
    requires
        lookup(m, "frame"@) is None,
    ensures
        AnimationZOrder::decoded(NodeView::Object(m)) == Ok::<AnimationZOrderView, ErrorView>(
            AnimationZOrderView {
                frame: Seq::empty(),
            },
        ),
{
}

/// A key frame of a bone's timeline.
#[derive(Clone, Debug, PartialEq, Eq)]
pub struct AnimationBoneFrame {
    /// How many frames it lasts; 1 where it is not given.
    pub duration: Single,
    /// The easing towards the next key frame, under a key of its own.
    pub tween: AnimationTween,
    /// The bone's transform at this frame; the identity where it is not given.
    pub transform: Transform,
}

/// The mathematical value of an [`AnimationBoneFrame`].
pub struct AnimationBoneFrameView {
    pub duration: Single,
    pub tween: AnimationTweenView,
    pub transform: Transform,
}

impl View for AnimationBoneFrame {
    type V = AnimationBoneFrameView;

    open spec fn view(&self) -> AnimationBoneFrameView {
        AnimationBoneFrameView {
            duration: self.duration,
            tween: self.tween@,
            transform: self.transform,
        }
    }
}

impl AnimationBoneFrame {
    /// A key frame of one frame's length, not eased, with the identity transform.
    pub open spec fn initial() -> AnimationBoneFrameView {
        AnimationBoneFrameView {
            duration: Single { bits: ONE_BITS },
            tween: AnimationTween::initial(),
            transform: Transform::initial(),
        }
    }
}

impl Default for AnimationBoneFrame {
    fn default() -> (r: AnimationBoneFrame)
        ensures
            r@ == AnimationBoneFrame::initial(),
    {
        AnimationBoneFrame {
            duration: default_animation_duration(),
            tween: AnimationTween::default(),
            transform: Transform::default(),
        }
    }
}

impl Decode for AnimationBoneFrame {
    /// An object. Every field that it lacks takes its default, and a list that it lacks is
    /// empty. The fields are read in the order in which they are declared, and the first
    /// failure is the result.
    open spec fn decoded(n: NodeView) -> Result<AnimationBoneFrameView, ErrorView> {
        match n {
            NodeView::Object(m) => {
                let duration = field_or::<Single>(m, "duration"@, Single { bits: ONE_BITS });
                let tween = field_or::<AnimationTween>(m, "tween"@, AnimationTween::initial());
                let transform = field_or::<Transform>(m, "transform"@, Transform::initial());
                if duration is Err {
                    Err(duration->Err_0)
                } else if tween is Err {
                    Err(tween->Err_0)
                } else if transform is Err {
                    Err(transform->Err_0)
                } else {
                    Ok(
                        AnimationBoneFrameView {
                            duration: duration->Ok_0,
                            tween: tween->Ok_0,
                            transform: transform->Ok_0,
                        },
                    )
                }
            },
            _ => Err(ErrorView::mismatch(Shape::Object, kind_of(n))),
        }
    }

    fn decode(node: &Node) -> (r: Result<AnimationBoneFrame, DecodeError>)
        ensures
            outcome(r) == Self::decoded(node@),
    {
        let m = members_of(node)?;
        let duration = read_or::<Single>(m, "duration", default_animation_duration())?;
        let tween = read_or::<AnimationTween>(m, "tween", AnimationTween::default())?;
        let transform = read_or::<Transform>(m, "transform", Transform::default())?;
        Ok(AnimationBoneFrame { duration, tween, transform })
    }
}

impl Encode for AnimationBoneFrame {
    open spec fn regular(v: AnimationBoneFrameView) -> bool {
        true
    }

    open spec fn encoded(v: AnimationBoneFrameView) -> NodeView {
        NodeView::Object(
            seq![
                ("duration"@, Single::encoded(v.duration)),
                ("tween"@, AnimationTween::encoded(v.tween)),
                ("transform"@, Transform::encoded(v.transform)),
            ],
        )
    }

    fn encode(&self) -> (n: Node)
        ensures
            n@ == Self::encoded(self@),
    {
        let mut m: Vec<Member> = Vec::new();
        put(&mut m, "duration", self.duration.encode());
        put(&mut m, "tween", self.tween.encode());
        put(&mut m, "transform", self.transform.encode());
        let n = object(m);
        assert(n@->Object_0 =~= Self::encoded(self@)->Object_0);
        n
    }

    proof fn decoded_is_regular(n: NodeView) {
    }

    proof fn round_trip(v: AnimationBoneFrameView) {
        let m = Self::encoded(v)->Object_0;
        lemma_animation_bone_frame_lookups(v);
        Single::round_trip(v.duration);
        AnimationTween::round_trip(v.tween);
        Transform::round_trip(v.transform);
    }
}

/// In the object written for a bone key frame, each key is found, and with the value written
/// for it.
proof fn lemma_animation_bone_frame_lookups(v: AnimationBoneFrameView)
    ensures
        lookup(AnimationBoneFrame::encoded(v)->Object_0, "duration"@) == Some(
            Single::encoded(v.duration),
        ),
        lookup(AnimationBoneFrame::encoded(v)->Object_0, "tween"@) == Some(
            AnimationTween::encoded(v.tween),
        ),
        lookup(AnimationBoneFrame::encoded(v)->Object_0, "transform"@) == Some(
            Transform::encoded(v.transform),
        ),
{
    let m = AnimationBoneFrame::encoded(v)->Object_0;
    reveal_strlit("duration");
    assert("duration"@.len() == 8);
    reveal_strlit("tween");
    assert("tween"@.len() == 5);
    reveal_strlit("transform");
    assert("transform"@.len() == 9);
    lemma_lookup_at(m, "duration"@, 0);
    lemma_lookup_at(m, "tween"@, 1);
    lemma_lookup_at(m, "transform"@, 2);
}

/// An object that holds none of the fields of a bone key frame decodes to a bone key frame in
/// which every field has its default.
pub proof fn law_minimal_animation_bone_frame(
    m: Seq<(Seq<char>, NodeView)>,
)
    requires
        lookup(m, "duration"@) is None,
        lookup(m, "tween"@) is None,
        lookup(m, "transform"@) is None,
    ensures
        AnimationBoneFrame::decoded(NodeView::Object(m)) == Ok::<AnimationBoneFrameView, ErrorView>(
            AnimationBoneFrameView {
                duration: Single { bits: ONE_BITS },
                tween: AnimationTween::initial(),
                transform: Transform::initial(),
            },
        ),
{
}

/// The timeline of one bone.
#[derive(Clone, Debug, PartialEq, Eq)]
pub struct AnimationBone {
    /// The name of the bone, kept as it was found.
    pub name: String,
    /// The scale of the timeline; 1 where it is not given.
    pub scale: Single,
    /// The offset of the timeline; 0 where it is not given.
    pub offset: Single,
    /// The key frames, in order.
    pub frame: Vec<AnimationBoneFrame>,
}

/// The mathematical value of an [`AnimationBone`].
pub struct AnimationBoneView {
    pub name: Seq<char>,
    pub scale: Single,
    pub offset: Single,
    pub frame: Seq<AnimationBoneFrameView>,
}

impl View for AnimationBone {
    type V = AnimationBoneView;

    open spec fn view(&self) -> AnimationBoneView {
        AnimationBoneView {
            name: self.name@,
            scale: self.scale,
            offset: self.offset,
            frame: views(self.frame@),
        }
    }
}

impl Decode for AnimationBone {
    /// An object. It must hold `name`; every other field that it lacks takes its default, and a
    /// list that it lacks is empty. The fields are read in the order in which they are
    /// declared, and the first failure is the result.
    open spec fn decoded(n: NodeView) -> Result<AnimationBoneView, ErrorView> {
        match n {
            NodeView::Object(m) => {
                let name = field::<String>(m, "name"@);
                let scale = field_or::<Single>(m, "scale"@, Single { bits: ONE_BITS });
                let offset = field_or::<Single>(m, "offset"@, Single { bits: ZERO_BITS });
                let frame = list_field::<AnimationBoneFrame>(m, "frame"@);
                if name is Err {
                    Err(name->Err_0)
                } else if scale is Err {
                    Err(scale->Err_0)
                } else if offset is Err {
                    Err(offset->Err_0)
                } else if frame is Err {
                    Err(frame->Err_0)
                } else {
                    Ok(
                        AnimationBoneView {
                            name: name->Ok_0,
                            scale: scale->Ok_0,
                            offset: offset->Ok_0,
                            frame: frame->Ok_0,
                        },
                    )
                }
            },
            _ => Err(ErrorView::mismatch(Shape::Object, kind_of(n))),
        }
    }

    fn decode(node: &Node) -> (r: Result<AnimationBone, DecodeError>)
        ensures
            outcome(r) == Self::decoded(node@),
    {
        let m = members_of(node)?;
        let name = read::<String>(m, "name")?;
        let scale = read_or::<Single>(m, "scale", default_scale())?;
        let offset = read_or::<Single>(m, "offset", Single { bits: ZERO_BITS })?;
        let frame = read_list::<AnimationBoneFrame>(m, "frame")?;
        Ok(AnimationBone { name, scale, offset, frame })
    }
}

impl Encode for AnimationBone {
    open spec fn regular(v: AnimationBoneView) -> bool {
        &&& all_regular::<AnimationBoneFrame>(v.frame)
    }

    open spec fn encoded(v: AnimationBoneView) -> NodeView {
        NodeView::Object(
            seq![
                ("name"@, String::encoded(v.name)),
                ("scale"@, Single::encoded(v.scale)),
                ("offset"@, Single::encoded(v.offset)),
                ("frame"@, NodeView::List(encoded_list::<AnimationBoneFrame>(v.frame))),
            ],
        )
    }

    fn encode(&self) -> (n: Node)
        ensures
            n@ == Self::encoded(self@),
    {
        let mut m: Vec<Member> = Vec::new();
        put(&mut m, "name", self.name.encode());
        put(&mut m, "scale", self.scale.encode());
        put(&mut m, "offset", self.offset.encode());
        put(&mut m, "frame", encode_list::<AnimationBoneFrame>(&self.frame));
        let n = object(m);
        assert(n@->Object_0 =~= Self::encoded(self@)->Object_0);
        n
    }

    proof fn decoded_is_regular(n: NodeView) {
        match n {
            NodeView::Object(m) => {
                lemma_list_field_regular::<AnimationBoneFrame>(m, "frame"@);
            },
            _ => {},
        }
    }

    proof fn round_trip(v: AnimationBoneView) {
        let m = Self::encoded(v)->Object_0;
        lemma_animation_bone_lookups(v);
        String::round_trip(v.name);
        Single::round_trip(v.scale);
        Single::round_trip(v.offset);
        lemma_list_round_trip::<AnimationBoneFrame>(v.frame);
    }
}

/// In the object written for a bone timeline, each key is found, and with the value written for
/// it.
proof fn lemma_animation_bone_lookups(v: AnimationBoneView)
    ensures
        lookup(AnimationBone::encoded(v)->Object_0, "name"@) == Some(String::encoded(v.name)),
        lookup(AnimationBone::encoded(v)->Object_0, "scale"@) == Some(Single::encoded(v.scale)),
        lookup(AnimationBone::encoded(v)->Object_0, "offset"@) == Some(Single::encoded(v.offset)),
        lookup(AnimationBone::encoded(v)->Object_0, "frame"@) == Some(
            NodeView::List(encoded_list::<AnimationBoneFrame>(v.frame)),
        ),
{
    let m = AnimationBone::encoded(v)->Object_0;
    reveal_strlit("name");
    assert("name"@.len() == 4);
    reveal_strlit("scale");
    assert("scale"@.len() == 5 && "scale"@[0] == 's');
    reveal_strlit("offset");
    assert("offset"@.len() == 6);
    reveal_strlit("frame");
    assert("frame"@.len() == 5 && "frame"@[0] == 'f');
    lemma_lookup_at(m, "name"@, 0);
    lemma_lookup_at(m, "scale"@, 1);
    lemma_lookup_at(m, "offset"@, 2);
    lemma_lookup_at(m, "frame"@, 3);
}

/// An object that holds the fields that a bone timeline must have, rightly shaped, and none of
/// the optional ones decodes to a bone timeline in which every optional field has its default.
pub proof fn law_minimal_animation_bone(
    m: Seq<(Seq<char>, NodeView)>,
    name: Seq<char>,
)
    requires
        lookup(m, "name"@) == Some(NodeView::Text(name)),
        lookup(m, "scale"@) is None,
        lookup(m, "offset"@) is None,
        lookup(m, "frame"@) is None,
    ensures
        AnimationBone::decoded(NodeView::Object(m)) == Ok::<AnimationBoneView, ErrorView>(
            AnimationBoneView {
                name,
                scale: Single { bits: ONE_BITS },
                offset: Single { bits: ZERO_BITS },
                frame: Seq::empty(),
            },
        ),
{
}

/// An object that lacks `name` is refused as a bone timeline, for the lack of `name`, whatever
/// else it holds.
pub proof fn law_animation_bone_requires_name(m: Seq<(Seq<char>, NodeView)>)
    requires
        lookup(m, "name"@) is None,
    ensures
        AnimationBone::decoded(NodeView::Object(m)) == Err::<AnimationBoneView, ErrorView>(
            ErrorView::missing("name"@),
        ),
{
}

/// A key frame of a slot's timeline.
#[derive(Clone, Debug, PartialEq, Eq)]
pub struct AnimationSlotFrame {
    /// How many frames it lasts; 1 where it is not given.
    pub duration: Single,
    /// The easing towards the next key frame, its fields standing among the frame's own.
    pub tween: AnimationTween,
    /// Which display object the slot shows; 0 where it is not given.
    pub display_index: isize,
    /// The colour overlay; the one that changes nothing where it is not given.
    pub color: Color,
    /// The behaviours to run.
    pub actions: Vec<Action>,
}

/// The mathematical value of an [`AnimationSlotFrame`].
pub struct AnimationSlotFrameView {
    pub duration: Single,
    pub tween: AnimationTweenView,
    pub display_index: isize,
    pub color: Color,
    pub actions: Seq<ActionView>,
}

impl View for AnimationSlotFrame {
    type V = AnimationSlotFrameView;

    open spec fn view(&self) -> AnimationSlotFrameView {
        AnimationSlotFrameView {
            duration: self.duration,
            tween: self.tween@,
            display_index: self.display_index,
            color: self.color,
            actions: views(self.actions@),
        }
    }
}

impl AnimationSlotFrame {
    /// A key frame of one frame's length, not eased, that shows display object 0 unchanged.
    pub open spec fn initial() -> AnimationSlotFrameView {
        AnimationSlotFrameView {
            duration: Single { bits: ONE_BITS },
            tween: AnimationTween::initial(),
            display_index: 0,
            color: Color::initial(),
            actions: Seq::empty(),
        }
    }
}

impl Default for AnimationSlotFrame {
    fn default() -> (r: AnimationSlotFrame)
        ensures
            r@ == AnimationSlotFrame::initial(),
    {
        AnimationSlotFrame {
            duration: default_animation_duration(),
            tween: AnimationTween::default(),
            display_index: 0,
            color: Color::default(),
            actions: empty_list::<Action>(),
        }
    }
}

impl Decode for AnimationSlotFrame {
    /// An object. Every field that it lacks takes its default, and a list that it lacks is
    /// empty. The fields are read in the order in which they are declared, and the first
    /// failure is the result.
    open spec fn decoded(n: NodeView) -> Result<AnimationSlotFrameView, ErrorView> {
        match n {
            NodeView::Object(m) => {
                let duration = field_or::<Single>(m, "duration"@, Single { bits: ONE_BITS });
                let tween = AnimationTween::decoded(n);
                let display_index = field_or::<isize>(m, "displayIndex"@, 0);
                let color = field_or::<Color>(m, "color"@, Color::initial());
                let actions = list_field::<Action>(m, "actions"@);
                if duration is Err {
                    Err(duration->Err_0)
                } else if tween is Err {
                    Err(tween->Err_0)
                } else if display_index is Err {
                    Err(display_index->Err_0)
                } else if color is Err {
                    Err(color->Err_0)
                } else if actions is Err {
                    Err(actions->Err_0)
                } else {
                    Ok(
                        AnimationSlotFrameView {
                            duration: duration->Ok_0,
                            tween: tween->Ok_0,
                            display_index: display_index->Ok_0,
                            color: color->Ok_0,
                            actions: actions->Ok_0,
                        },
                    )
                }
            },
            _ => Err(ErrorView::mismatch(Shape::Object, kind_of(n))),
        }
    }

    fn decode(node: &Node) -> (r: Result<AnimationSlotFrame, DecodeError>)
        ensures
            outcome(r) == Self::decoded(node@),
    {
        let m = members_of(node)?;
        let duration = read_or::<Single>(m, "duration", default_animation_duration())?;
        let tween = AnimationTween::decode(node)?;
        let display_index = read_or::<isize>(m, "displayIndex", 0)?;
        let color = read_or::<Color>(m, "color", Color::default())?;
        let actions = read_list::<Action>(m, "actions")?;
        Ok(AnimationSlotFrame { duration, tween, display_index, color, actions })
    }
}

impl Encode for AnimationSlotFrame {
    open spec fn regular(v: AnimationSlotFrameView) -> bool {
        true
    }

    open spec fn encoded(v: AnimationSlotFrameView) -> NodeView {
        NodeView::Object(
            seq![
                ("duration"@, Single::encoded(v.duration)),
                ("tweenType"@, usize::encoded(v.tween.tween_type)),
                ("tweenEasing"@, Single::encoded(v.tween.tween_easing)),
                ("curve"@, NodeView::List(encoded_list::<Single>(v.tween.curve))),
                ("displayIndex"@, isize::encoded(v.display_index)),
                ("color"@, Color::encoded(v.color)),
                ("actions"@, NodeView::List(encoded_list::<Action>(v.actions))),
            ],
        )
    }

    fn encode(&self) -> (n: Node)
        ensures
            n@ == Self::encoded(self@),
    {
        let mut m: Vec<Member> = Vec::new();
        put(&mut m, "duration", self.duration.encode());
        put(&mut m, "tweenType", self.tween.tween_type.encode());
        put(&mut m, "tweenEasing", self.tween.tween_easing.encode());
        put(&mut m, "curve", encode_list::<Single>(&self.tween.curve));
        put(&mut m, "displayIndex", self.display_index.encode());
        put(&mut m, "color", self.color.encode());
        put(&mut m, "actions", encode_list::<Action>(&self.actions));
        let n = object(m);
        assert(n@->Object_0 =~= Self::encoded(self@)->Object_0);
        n
    }

    proof fn decoded_is_regular(n: NodeView) {
    }

    proof fn round_trip(v: AnimationSlotFrameView) {
        let m = Self::encoded(v)->Object_0;
        lemma_animation_slot_frame_lookups(v);
        Single::round_trip(v.duration);
        usize::round_trip(v.tween.tween_type);
        Single::round_trip(v.tween.tween_easing);
        lemma_list_round_trip::<Single>(v.tween.curve);
        isize::round_trip(v.display_index);
        Color::round_trip(v.color);
        lemma_list_round_trip::<Action>(v.actions);
    }
}

/// In the object written for a slot key frame, each key is found, and with the value written
/// for it.
proof fn lemma_animation_slot_frame_lookups(v: AnimationSlotFrameView)
    ensures
        lookup(AnimationSlotFrame::encoded(v)->Object_0, "duration"@) == Some(
            Single::encoded(v.duration),
        ),
        lookup(AnimationSlotFrame::encoded(v)->Object_0, "tweenType"@) == Some(
            usize::encoded(v.tween.tween_type),
        ),
        lookup(AnimationSlotFrame::encoded(v)->Object_0, "tweenEasing"@) == Some(
            Single::encoded(v.tween.tween_easing),
        ),
        lookup(AnimationSlotFrame::encoded(v)->Object_0, "curve"@) == Some(
            NodeView::List(encoded_list::<Single>(v.tween.curve)),
        ),
        lookup(AnimationSlotFrame::encoded(v)->Object_0, "displayIndex"@) == Some(
            isize::encoded(v.display_index),
        ),
        lookup(AnimationSlotFrame::encoded(v)->Object_0, "color"@) == Some(
            Color::encoded(v.color),
        ),
        lookup(AnimationSlotFrame::encoded(v)->Object_0, "actions"@) == Some(
            NodeView::List(encoded_list::<Action>(v.actions)),
        ),
{
    let m = AnimationSlotFrame::encoded(v)->Object_0;
    reveal_strlit("duration");
    assert("duration"@.len() == 8);
    reveal_strlit("tweenType");
    assert("tweenType"@.len() == 9);
    reveal_strlit("tweenEasing");
    assert("tweenEasing"@.len() == 11);
    reveal_strlit("curve");
    assert("curve"@.len() == 5 && "curve"@[1] == 'u');
    reveal_strlit("displayIndex");
    assert("displayIndex"@.len() == 12);
    reveal_strlit("color");
    assert("color"@.len() == 5 && "color"@[1] == 'o');
    reveal_strlit("actions");
    assert("actions"@.len() == 7);
    lemma_lookup_at(m, "duration"@, 0);
    lemma_lookup_at(m, "tweenType"@, 1);
    lemma_lookup_at(m, "tweenEasing"@, 2);
    lemma_lookup_at(m, "curve"@, 3);
    lemma_lookup_at(m, "displayIndex"@, 4);
    lemma_lookup_at(m, "color"@, 5);
    lemma_lookup_at(m, "actions"@, 6);
}

/// An object that holds none of the fields of a slot key frame decodes to a slot key frame in
/// which every field has its default.
pub proof fn law_minimal_animation_slot_frame(
    m: Seq<(Seq<char>, NodeView)>,
)
    requires
        lookup(m, "duration"@) is None,
        lookup(m, "tweenType"@) is None,
        lookup(m, "tweenEasing"@) is None,
        lookup(m, "curve"@) is None,
        lookup(m, "displayIndex"@) is None,
        lookup(m, "color"@) is None,
        lookup(m, "actions"@) is None,
    ensures
        AnimationSlotFrame::decoded(NodeView::Object(m)) == Ok::<AnimationSlotFrameView, ErrorView>(
            AnimationSlotFrameView {
                duration: Single { bits: ONE_BITS },
                tween: AnimationTween::initial(),
                display_index: 0,
                color: Color::initial(),
                actions: Seq::empty(),
            },
        ),
{
}

/// The timeline of one slot.
#[derive(Clone, Debug, PartialEq, Eq)]
pub struct AnimationSlot {
    /// The name of the slot, kept as it was found.
    pub name: String,
    /// The key frames, in order.
    pub frame: Vec<AnimationSlotFrame>,
}

/// The mathematical value of an [`AnimationSlot`].
pub struct AnimationSlotView {
    pub name: Seq<char>,
    pub frame: Seq<AnimationSlotFrameView>,
}

impl View for AnimationSlot {
    type V = AnimationSlotView;

    open spec fn view(&self) -> AnimationSlotView {
        AnimationSlotView {
            name: self.name@,
            frame: views(self.frame@),
        }
    }
}

impl Decode for AnimationSlot {
    /// An object. It must hold `name`; every other field that it lacks takes its default, and a
    /// list that it lacks is empty. The fields are read in the order in which they are
    /// declared, and the first failure is the result.
    open spec fn decoded(n: NodeView) -> Result<AnimationSlotView, ErrorView> {
        match n {
            NodeView::Object(m) => {
                let name = field::<String>(m, "name"@);
                let frame = list_field::<AnimationSlotFrame>(m, "frame"@);
                if name is Err {
                    Err(name->Err_0)
                } else if frame is Err {
                    Err(frame->Err_0)
                } else {
                    Ok(
                        AnimationSlotView {
                            name: name->Ok_0,
                            frame: frame->Ok_0,
                        },
                    )
                }
            },
            _ => Err(ErrorView::mismatch(Shape::Object, kind_of(n))),
        }
    }

    fn decode(node: &Node) -> (r: Result<AnimationSlot, DecodeError>)
        ensures
            outcome(r) == Self::decoded(node@),
    {
        let m = members_of(node)?;
        let name = read::<String>(m, "name")?;
        let frame = read_list::<AnimationSlotFrame>(m, "frame")?;
        Ok(AnimationSlot { name, frame })
    }
}

impl Encode for AnimationSlot {
    open spec fn regular(v: AnimationSlotView) -> bool {
        &&& all_regular::<AnimationSlotFrame>(v.frame)
    }

    open spec fn encoded(v: AnimationSlotView) -> NodeView {
        NodeView::Object(
            seq![
                ("name"@, String::encoded(v.name)),
                ("frame"@, NodeView::List(encoded_list::<AnimationSlotFrame>(v.frame))),
            ],
        )
    }

    fn encode(&self) -> (n: Node)
        ensures
            n@ == Self::encoded(self@),
    {
        let mut m: Vec<Member> = Vec::new();
        put(&mut m, "name", self.name.encode());
        put(&mut m, "frame", encode_list::<AnimationSlotFrame>(&self.frame));
        let n = object(m);
        assert(n@->Object_0 =~= Self::encoded(self@)->Object_0);
        n
    }

    proof fn decoded_is_regular(n: NodeView) {
        match n {
            NodeView::Object(m) => {
                lemma_list_field_regular::<AnimationSlotFrame>(m, "frame"@);
            },
            _ => {},
        }
    }

    proof fn round_trip(v: AnimationSlotView) {
        let m = Self::encoded(v)->Object_0;
        lemma_animation_slot_lookups(v);
        String::round_trip(v.name);
        lemma_list_round_trip::<AnimationSlotFrame>(v.frame);
    }
}

/// In the object written for a slot timeline, each key is found, and with the value written for
/// it.
proof fn lemma_animation_slot_lookups(v: AnimationSlotView)
    ensures
        lookup(AnimationSlot::encoded(v)->Object_0, "name"@) == Some(String::encoded(v.name)),
        lookup(AnimationSlot::encoded(v)->Object_0, "frame"@) == Some(
            NodeView::List(encoded_list::<AnimationSlotFrame>(v.frame)),
        ),
{
    let m = AnimationSlot::encoded(v)->Object_0;
    reveal_strlit("name");
    assert("name"@.len() == 4);
    reveal_strlit("frame");
    assert("frame"@.len() == 5);
    lemma_lookup_at(m, "name"@, 0);
    lemma_lookup_at(m, "frame"@, 1);
}

/// An object that holds the fields that a slot timeline must have, rightly shaped, and none of
/// the optional ones decodes to a slot timeline in which every optional field has its default.
pub proof fn law_minimal_animation_slot(
    m: Seq<(Seq<char>, NodeView)>,
    name: Seq<char>,
)
    requires
        lookup(m, "name"@) == Some(NodeView::Text(name)),
        lookup(m, "frame"@) is None,
    ensures
        AnimationSlot::decoded(NodeView::Object(m)) == Ok::<AnimationSlotView, ErrorView>(
            AnimationSlotView {
                name,
                frame: Seq::empty(),
            },
        ),
{
}

/// An object that lacks `name` is refused as a slot timeline, for the lack of `name`, whatever
/// else it holds.
pub proof fn law_animation_slot_requires_name(m: Seq<(Seq<char>, NodeView)>)
    requires
        lookup(m, "name"@) is None,
    ensures
        AnimationSlot::decoded(NodeView::Object(m)) == Err::<AnimationSlotView, ErrorView>(
            ErrorView::missing("name"@),
        ),
{
}

/// A key frame of a free-form deformation.
#[derive(Clone, Debug, PartialEq, Eq)]
pub struct AnimationFddFrame {
    /// How many frames it lasts; 1 where it is not given.
    pub duration: Single,
    /// The easing towards the next key frame, its fields standing among the frame's own.
    pub tween: AnimationTween,
    /// At which position of the mesh's vertex list the moved vertices start; 0 where it is not
    /// given.
    pub offset: isize,
    /// How far each vertex moves, packed as `x0, y0, x1, y1, ...`.
    pub vertices: Vec<Point>,
}

/// The mathematical value of an [`AnimationFddFrame`].
pub struct AnimationFddFrameView {
    pub duration: Single,
    pub tween: AnimationTweenView,
    pub offset: isize,
    pub vertices: Seq<Point>,
}

impl View for AnimationFddFrame {
    type V = AnimationFddFrameView;

    open spec fn view(&self) -> AnimationFddFrameView {
        AnimationFddFrameView {
            duration: self.duration,
            tween: self.tween@,
            offset: self.offset,
            vertices: views(self.vertices@),
        }
    }
}

impl AnimationFddFrame {
    /// A key frame of one frame's length, not eased, that moves no vertex.
    pub open spec fn initial() -> AnimationFddFrameView {
        AnimationFddFrameView {
            duration: Single { bits: ONE_BITS },
            tween: AnimationTween::initial(),
            offset: 0,
            vertices: Seq::empty(),
        }
    }
}

impl Default for AnimationFddFrame {
    fn default() -> (r: AnimationFddFrame)
        ensures
            r@ == AnimationFddFrame::initial(),
    {
        AnimationFddFrame {
            duration: default_animation_duration(),
            tween: AnimationTween::default(),
            offset: 0,
            vertices: empty_list::<Point>(),
        }
    }
}

impl Decode for AnimationFddFrame {
    /// An object. Every field that it lacks takes its default, and a list that it lacks is
    /// empty. The fields are read in the order in which they are declared, and the first
    /// failure is the result.
    open spec fn decoded(n: NodeView) -> Result<AnimationFddFrameView, ErrorView> {
        match n {
            NodeView::Object(m) => {
                let duration = field_or::<Single>(m, "duration"@, Single { bits: ONE_BITS });
                let tween = AnimationTween::decoded(n);
                let offset = field_or::<isize>(m, "offset"@, 0);
                let vertices = packed_field::<Point>(m, "vertices"@);
                if duration is Err {
                    Err(duration->Err_0)
                } else if tween is Err {
                    Err(tween->Err_0)
                } else if offset is Err {
                    Err(offset->Err_0)
                } else if vertices is Err {
                    Err(vertices->Err_0)
                } else {
                    Ok(
                        AnimationFddFrameView {
                            duration: duration->Ok_0,
                            tween: tween->Ok_0,
                            offset: offset->Ok_0,
                            vertices: vertices->Ok_0,
                        },
                    )
                }
            },
            _ => Err(ErrorView::mismatch(Shape::Object, kind_of(n))),
        }
    }

    fn decode(node: &Node) -> (r: Result<AnimationFddFrame, DecodeError>)
        ensures
            outcome(r) == Self::decoded(node@),
    {
        let m = members_of(node)?;
        let duration = read_or::<Single>(m, "duration", default_animation_duration())?;
        let tween = AnimationTween::decode(node)?;
        let offset = read_or::<isize>(m, "offset", 0)?;
        let vertices = read_packed::<Point>(m, "vertices")?;
        Ok(AnimationFddFrame { duration, tween, offset, vertices })
    }
}

impl Encode for AnimationFddFrame {
    open spec fn regular(v: AnimationFddFrameView) -> bool {
        true
    }

    open spec fn encoded(v: AnimationFddFrameView) -> NodeView {
        NodeView::Object(
            seq![
                ("duration"@, Single::encoded(v.duration)),
                ("tweenType"@, usize::encoded(v.tween.tween_type)),
                ("tweenEasing"@, Single::encoded(v.tween.tween_easing)),
                ("curve"@, NodeView::List(encoded_list::<Single>(v.tween.curve))),
                ("offset"@, isize::encoded(v.offset)),
                ("vertices"@, NodeView::List(packed_list::<Point>(v.vertices))),
            ],
        )
    }

    fn encode(&self) -> (n: Node)
        ensures
            n@ == Self::encoded(self@),
    {
        let mut m: Vec<Member> = Vec::new();
        put(&mut m, "duration", self.duration.encode());
        put(&mut m, "tweenType", self.tween.tween_type.encode());
        put(&mut m, "tweenEasing", self.tween.tween_easing.encode());
        put(&mut m, "curve", encode_list::<Single>(&self.tween.curve));
        put(&mut m, "offset", self.offset.encode());
        put(&mut m, "vertices", encode_packed::<Point>(&self.vertices));
        let n = object(m);
        assert(n@->Object_0 =~= Self::encoded(self@)->Object_0);
        n
    }

    proof fn decoded_is_regular(n: NodeView) {
    }

    proof fn round_trip(v: AnimationFddFrameView) {
        let m = Self::encoded(v)->Object_0;
        lemma_animation_fdd_frame_lookups(v);
        Single::round_trip(v.duration);
        usize::round_trip(v.tween.tween_type);
        Single::round_trip(v.tween.tween_easing);
        lemma_list_round_trip::<Single>(v.tween.curve);
        isize::round_trip(v.offset);
        lemma_packed_round_trip::<Point>(v.vertices);
    }
}

/// In the object written for a deformation key frame, each key is found, and with the value
/// written for it.
proof fn lemma_animation_fdd_frame_lookups(v: AnimationFddFrameView)
    ensures
        lookup(AnimationFddFrame::encoded(v)->Object_0, "duration"@) == Some(
            Single::encoded(v.duration),
        ),
        lookup(AnimationFddFrame::encoded(v)->Object_0, "tweenType"@) == Some(
            usize::encoded(v.tween.tween_type),
        ),
        lookup(AnimationFddFrame::encoded(v)->Object_0, "tweenEasing"@) == Some(
            Single::encoded(v.tween.tween_easing),
        ),
        lookup(AnimationFddFrame::encoded(v)->Object_0, "curve"@) == Some(
            NodeView::List(encoded_list::<Single>(v.tween.curve)),
        ),
        lookup(AnimationFddFrame::encoded(v)->Object_0, "offset"@) == Some(
            isize::encoded(v.offset),
        ),
        lookup(AnimationFddFrame::encoded(v)->Object_0, "vertices"@) == Some(
            NodeView::List(packed_list::<Point>(v.vertices)),
        ),
{
    let m = AnimationFddFrame::encoded(v)->Object_0;
    reveal_strlit("duration");
    assert("duration"@.len() == 8 && "duration"@[0] == 'd');
    reveal_strlit("tweenType");
    assert("tweenType"@.len() == 9);
    reveal_strlit("tweenEasing");
    assert("tweenEasing"@.len() == 11);
    reveal_strlit("curve");
    assert("curve"@.len() == 5);
    reveal_strlit("offset");
    assert("offset"@.len() == 6);
    reveal_strlit("vertices");
    assert("vertices"@.len() == 8 && "vertices"@[0] == 'v');
    lemma_lookup_at(m, "duration"@, 0);
    lemma_lookup_at(m, "tweenType"@, 1);
    lemma_lookup_at(m, "tweenEasing"@, 2);
    lemma_lookup_at(m, "curve"@, 3);
    lemma_lookup_at(m, "offset"@, 4);
    lemma_lookup_at(m, "vertices"@, 5);
}

/// An object that holds none of the fields of a deformation key frame decodes to a deformation
/// key frame in which every field has its default.
pub proof fn law_minimal_animation_fdd_frame(
    m: Seq<(Seq<char>, NodeView)>,
)
    requires
        lookup(m, "duration"@) is None,
        lookup(m, "tweenType"@) is None,
        lookup(m, "tweenEasing"@) is None,
        lookup(m, "curve"@) is None,
        lookup(m, "offset"@) is None,
        lookup(m, "vertices"@) is None,
    ensures
        AnimationFddFrame::decoded(NodeView::Object(m)) == Ok::<AnimationFddFrameView, ErrorView>(
            AnimationFddFrameView {
                duration: Single { bits: ONE_BITS },
                tween: AnimationTween::initial(),
                offset: 0,
                vertices: Seq::empty(),
            },
        ),
{
}

/// The timeline of the free-form deformation of one mesh.
#[derive(Clone, Debug, PartialEq, Eq)]
pub struct AnimationFdd {
    /// The name of the mesh, kept as it was found.
    pub name: String,
    /// The name of the skin, kept as it was found.
    pub skin: String,
    /// The name of the slot, kept as it was found.
    pub slot: String,
    /// The key frames, in order.
    pub frame: Vec<AnimationFddFrame>,
}

/// The mathematical value of an [`AnimationFdd`].
pub struct AnimationFddView {
    pub name: Seq<char>,
    pub skin: Seq<char>,
    pub slot: Seq<char>,
    pub frame: Seq<AnimationFddFrameView>,
}

impl View for AnimationFdd {
    type V = AnimationFddView;

    open spec fn view(&self) -> AnimationFddView {
        AnimationFddView {
            name: self.name@,
            skin: self.skin@,
            slot: self.slot@,
            frame: views(self.frame@),
        }
    }
}

impl Decode for AnimationFdd {
    /// An object. It must hold `name`, `skin`, `slot`; every other field that it lacks takes
    /// its default, and a list that it lacks is empty. The fields are read in the order in
    /// which they are declared, and the first failure is the result.
    open spec fn decoded(n: NodeView) -> Result<AnimationFddView, ErrorView> {
        match n {
            NodeView::Object(m) => {
                let name = field::<String>(m, "name"@);
                let skin = field::<String>(m, "skin"@);
                let slot = field::<String>(m, "slot"@);
                let frame = list_field::<AnimationFddFrame>(m, "frame"@);
                if name is Err {
                    Err(name->Err_0)
                } else if skin is Err {
                    Err(skin->Err_0)
                } else if slot is Err {
                    Err(slot->Err_0)
                } else if frame is Err {
                    Err(frame->Err_0)
                } else {
                    Ok(
                        AnimationFddView {
                            name: name->Ok_0,
                            skin: skin->Ok_0,
                            slot: slot->Ok_0,
                            frame: frame->Ok_0,
                        },
                    )
                }
            },
            _ => Err(ErrorView::mismatch(Shape::Object, kind_of(n))),
        }
    }

    fn decode(node: &Node) -> (r: Result<AnimationFdd, DecodeError>)
        ensures
            outcome(r) == Self::decoded(node@),
    {
        let m = members_of(node)?;
        let name = read::<String>(m, "name")?;
        let skin = read::<String>(m, "skin")?;
        let slot = read::<String>(m, "slot")?;
        let frame = read_list::<AnimationFddFrame>(m, "frame")?;
        Ok(AnimationFdd { name, skin, slot, frame })
    }
}

impl Encode for AnimationFdd {
    open spec fn regular(v: AnimationFddView) -> bool {
        &&& all_regular::<AnimationFddFrame>(v.frame)
    }

    open spec fn encoded(v: AnimationFddView) -> NodeView {
        NodeView::Object(
            seq![
                ("name"@, String::encoded(v.name)),
                ("skin"@, String::encoded(v.skin)),
                ("slot"@, String::encoded(v.slot)),
                ("frame"@, NodeView::List(encoded_list::<AnimationFddFrame>(v.frame))),
            ],
        )
    }

    fn encode(&self) -> (n: Node)
        ensures
            n@ == Self::encoded(self@),
    {
        let mut m: Vec<Member> = Vec::new();
        put(&mut m, "name", self.name.encode());
        put(&mut m, "skin", self.skin.encode());
        put(&mut m, "slot", self.slot.encode());
        put(&mut m, "frame", encode_list::<AnimationFddFrame>(&self.frame));
        let n = object(m);
        assert(n@->Object_0 =~= Self::encoded(self@)->Object_0);
        n
    }

    proof fn decoded_is_regular(n: NodeView) {
        match n {
            NodeView::Object(m) => {
                lemma_list_field_regular::<AnimationFddFrame>(m, "frame"@);
            },
            _ => {},
        }
    }

    proof fn round_trip(v: AnimationFddView) {
        let m = Self::encoded(v)->Object_0;
        lemma_animation_fdd_lookups(v);
        String::round_trip(v.name);
        String::round_trip(v.skin);
        String::round_trip(v.slot);
        lemma_list_round_trip::<AnimationFddFrame>(v.frame);
    }
}

/// In the object written for a deformation timeline, each key is found, and with the value
/// written for it.
proof fn lemma_animation_fdd_lookups(v: AnimationFddView)
    ensures
        lookup(AnimationFdd::encoded(v)->Object_0, "name"@) == Some(String::encoded(v.name)),
        lookup(AnimationFdd::encoded(v)->Object_0, "skin"@) == Some(String::encoded(v.skin)),
        lookup(AnimationFdd::encoded(v)->Object_0, "slot"@) == Some(String::encoded(v.slot)),
        lookup(AnimationFdd::encoded(v)->Object_0, "frame"@) == Some(
            NodeView::List(encoded_list::<AnimationFddFrame>(v.frame)),
        ),
{
    let m = AnimationFdd::encoded(v)->Object_0;
    reveal_strlit("name");
    assert("name"@.len() == 4 && "name"@[0] == 'n');
    reveal_strlit("skin");
    assert("skin"@.len() == 4 && "skin"@[0] == 's' && "skin"@[1] == 'k');
    reveal_strlit("slot");
    assert("slot"@.len() == 4 && "slot"@[0] == 's' && "slot"@[1] == 'l');
    reveal_strlit("frame");
    assert("frame"@.len() == 5);
    lemma_lookup_at(m, "name"@, 0);
    lemma_lookup_at(m, "skin"@, 1);
    lemma_lookup_at(m, "slot"@, 2);
    lemma_lookup_at(m, "frame"@, 3);
}

/// An object that holds the fields that a deformation timeline must have, rightly shaped, and
/// none of the optional ones decodes to a deformation timeline in which every optional field
/// has its default.
pub proof fn law_minimal_animation_fdd(
    m: Seq<(Seq<char>, NodeView)>,
    name: Seq<char>,
    skin: Seq<char>,
    slot: Seq<char>,
)
    requires
        lookup(m, "name"@) == Some(NodeView::Text(name)),
        lookup(m, "skin"@) == Some(NodeView::Text(skin)),
        lookup(m, "slot"@) == Some(NodeView::Text(slot)),
        lookup(m, "frame"@) is None,
    ensures
        AnimationFdd::decoded(NodeView::Object(m)) == Ok::<AnimationFddView, ErrorView>(
            AnimationFddView {
                name,
                skin,
                slot,
                frame: Seq::empty(),
            },
        ),
{
}

/// An object that lacks `name` is refused as a deformation timeline, for the lack of `name`,
/// whatever else it holds.
pub proof fn law_animation_fdd_requires_name(m: Seq<(Seq<char>, NodeView)>)
    requires
        lookup(m, "name"@) is None,
    ensures
        AnimationFdd::decoded(NodeView::Object(m)) == Err::<AnimationFddView, ErrorView>(
            ErrorView::missing("name"@),
        ),
{
}

/// An object that holds `name`, rightly shaped, and lacks `skin` is refused as a deformation
/// timeline, for the lack of `skin`.
pub proof fn law_animation_fdd_requires_skin(m: Seq<(Seq<char>, NodeView)>)
    requires
        field::<String>(m, "name"@) is Ok,
        lookup(m, "skin"@) is None,
    ensures
        AnimationFdd::decoded(NodeView::Object(m)) == Err::<AnimationFddView, ErrorView>(
            ErrorView::missing("skin"@),
        ),
{
}

/// An object that holds `name` and `skin`, rightly shaped, and lacks `slot` is refused as a
/// deformation timeline, for the lack of `slot`.
pub proof fn law_animation_fdd_requires_slot(m: Seq<(Seq<char>, NodeView)>)
    requires
        field::<String>(m, "name"@) is Ok,
        field::<String>(m, "skin"@) is Ok,
        lookup(m, "slot"@) is None,
    ensures
        AnimationFdd::decoded(NodeView::Object(m)) == Err::<AnimationFddView, ErrorView>(
            ErrorView::missing("slot"@),
        ),
{
}

/// One named clip.
#[derive(Clone, Debug, PartialEq, Eq)]
pub struct Animation {
    /// The animation's name.
    pub name: String,
    /// How often it plays, 0 standing for without end; 1 where it is not given.
    pub loop_number: usize,
    /// How many frames it lasts; 1 where it is not given.
    pub duration: Single,
    /// The key frames of the animation itself: sounds, events, behaviours.
    pub frame: Vec<AnimationFrame>,
    /// The timeline of the drawing order.
    pub z_order: Vec<AnimationZOrder>,
    /// The timelines of the bones.
    pub bone: Vec<AnimationBone>,
    /// The timelines of the slots.
    pub slot: Vec<AnimationSlot>,
    /// The timelines of the free-form deformations.
    pub ffd: Vec<AnimationFdd>,
}

/// The mathematical value of an [`Animation`].
pub struct AnimationView {
    pub name: Seq<char>,
    pub loop_number: usize,
    pub duration: Single,
    pub frame: Seq<AnimationFrameView>,
    pub z_order: Seq<AnimationZOrderView>,
    pub bone: Seq<AnimationBoneView>,
    pub slot: Seq<AnimationSlotView>,
    pub ffd: Seq<AnimationFddView>,
}

impl View for Animation {
    type V = AnimationView;

    open spec fn view(&self) -> AnimationView {
        AnimationView {
            name: self.name@,
            loop_number: self.loop_number,
            duration: self.duration,
            frame: views(self.frame@),
            z_order: views(self.z_order@),
            bone: views(self.bone@),
            slot: views(self.slot@),
            ffd: views(self.ffd@),
        }
    }
}

impl Decode for Animation {
    /// An object. It must hold `name`; every other field that it lacks takes its default, and a
    /// list that it lacks is empty. The fields are read in the order in which they are
    /// declared, and the first failure is the result.
    open spec fn decoded(n: NodeView) -> Result<AnimationView, ErrorView> {
        match n {
            NodeView::Object(m) => {
                let name = field::<String>(m, "name"@);
                let loop_number = field_or::<usize>(m, "loop"@, 1);
                let duration = field_or::<Single>(m, "duration"@, Single { bits: ONE_BITS });
                let frame = list_field::<AnimationFrame>(m, "frame"@);
                let z_order = list_field::<AnimationZOrder>(m, "zOrder"@);
                let bone = list_field::<AnimationBone>(m, "bone"@);
                let slot = list_field::<AnimationSlot>(m, "slot"@);
                let ffd = list_field::<AnimationFdd>(m, "ffd"@);
                if name is Err {
                    Err(name->Err_0)
                } else if loop_number is Err {
                    Err(loop_number->Err_0)
                } else if duration is Err {
                    Err(duration->Err_0)
                } else if frame is Err {
                    Err(frame->Err_0)
                } else if z_order is Err {
                    Err(z_order->Err_0)
                } else if bone is Err {
                    Err(bone->Err_0)
                } else if slot is Err {
                    Err(slot->Err_0)
                } else if ffd is Err {
                    Err(ffd->Err_0)
                } else {
                    Ok(
                        AnimationView {
                            name: name->Ok_0,
                            loop_number: loop_number->Ok_0,
                            duration: duration->Ok_0,
                            frame: frame->Ok_0,
                            z_order: z_order->Ok_0,
                            bone: bone->Ok_0,
                            slot: slot->Ok_0,
                            ffd: ffd->Ok_0,
                        },
                    )
                }
            },
            _ => Err(ErrorView::mismatch(Shape::Object, kind_of(n))),
        }
    }

    fn decode(node: &Node) -> (r: Result<Animation, DecodeError>)
        ensures
            outcome(r) == Self::decoded(node@),
    {
        let m = members_of(node)?;
        let name = read::<String>(m, "name")?;
        let loop_number = read_or::<usize>(m, "loop", default_animation_loop())?;
        let duration = read_or::<Single>(m, "duration", default_animation_duration())?;
        let frame = read_list::<AnimationFrame>(m, "frame")?;
        let z_order = read_list::<AnimationZOrder>(m, "zOrder")?;
        let bone = read_list::<AnimationBone>(m, "bone")?;
        let slot = read_list::<AnimationSlot>(m, "slot")?;
        let ffd = read_list::<AnimationFdd>(m, "ffd")?;
        Ok(Animation { name, loop_number, duration, frame, z_order, bone, slot, ffd })
    }
}

impl Encode for Animation {
    open spec fn regular(v: AnimationView) -> bool {
        &&& all_regular::<AnimationFrame>(v.frame)
        &&& all_regular::<AnimationZOrder>(v.z_order)
        &&& all_regular::<AnimationBone>(v.bone)
        &&& all_regular::<AnimationSlot>(v.slot)
        &&& all_regular::<AnimationFdd>(v.ffd)
    }

    open spec fn encoded(v: AnimationView) -> NodeView {
        NodeView::Object(
            seq![
                ("name"@, String::encoded(v.name)),
                ("loop"@, usize::encoded(v.loop_number)),
                ("duration"@, Single::encoded(v.duration)),
                ("frame"@, NodeView::List(encoded_list::<AnimationFrame>(v.frame))),
                ("zOrder"@, NodeView::List(encoded_list::<AnimationZOrder>(v.z_order))),
                ("bone"@, NodeView::List(encoded_list::<AnimationBone>(v.bone))),
                ("slot"@, NodeView::List(encoded_list::<AnimationSlot>(v.slot))),
                ("ffd"@, NodeView::List(encoded_list::<AnimationFdd>(v.ffd))),
            ],
        )
    }

    fn encode(&self) -> (n: Node)
        ensures
            n@ == Self::encoded(self@),
    {
        let mut m: Vec<Member> = Vec::new();
        put(&mut m, "name", self.name.encode());
        put(&mut m, "loop", self.loop_number.encode());
        put(&mut m, "duration", self.duration.encode());
        put(&mut m, "frame", encode_list::<AnimationFrame>(&self.frame));
        put(&mut m, "zOrder", encode_list::<AnimationZOrder>(&self.z_order));
        put(&mut m, "bone", encode_list::<AnimationBone>(&self.bone));
        put(&mut m, "slot", encode_list::<AnimationSlot>(&self.slot));
        put(&mut m, "ffd", encode_list::<AnimationFdd>(&self.ffd));
        let n = object(m);
        assert(n@->Object_0 =~= Self::encoded(self@)->Object_0);
        n
    }

    proof fn decoded_is_regular(n: NodeView) {
        match n {
            NodeView::Object(m) => {
                lemma_list_field_regular::<AnimationFrame>(m, "frame"@);
                lemma_list_field_regular::<AnimationZOrder>(m, "zOrder"@);
                lemma_list_field_regular::<AnimationBone>(m, "bone"@);
                lemma_list_field_regular::<AnimationSlot>(m, "slot"@);
                lemma_list_field_regular::<AnimationFdd>(m, "ffd"@);
            },
            _ => {},
        }
    }

    proof fn round_trip(v: AnimationView) {
        let m = Self::encoded(v)->Object_0;
        lemma_animation_lookups(v);
        String::round_trip(v.name);
        usize::round_trip(v.loop_number);
        Single::round_trip(v.duration);
        lemma_list_round_trip::<AnimationFrame>(v.frame);
        lemma_list_round_trip::<AnimationZOrder>(v.z_order);
        lemma_list_round_trip::<AnimationBone>(v.bone);
        lemma_list_round_trip::<AnimationSlot>(v.slot);
        lemma_list_round_trip::<AnimationFdd>(v.ffd);
    }
}

/// In the object written for a animation, each key is found, and with the value written for it.
proof fn lemma_animation_lookups(v: AnimationView)
    ensures
        lookup(Animation::encoded(v)->Object_0, "name"@) == Some(String::encoded(v.name)),
        lookup(Animation::encoded(v)->Object_0, "loop"@) == Some(usize::encoded(v.loop_number)),
        lookup(Animation::encoded(v)->Object_0, "duration"@) == Some(Single::encoded(v.duration)),
        lookup(Animation::encoded(v)->Object_0, "frame"@) == Some(
            NodeView::List(encoded_list::<AnimationFrame>(v.frame)),
        ),
        lookup(Animation::encoded(v)->Object_0, "zOrder"@) == Some(
            NodeView::List(encoded_list::<AnimationZOrder>(v.z_order)),
        ),
        lookup(Animation::encoded(v)->Object_0, "bone"@) == Some(
            NodeView::List(encoded_list::<AnimationBone>(v.bone)),
        ),
        lookup(Animation::encoded(v)->Object_0, "slot"@) == Some(
            NodeView::List(encoded_list::<AnimationSlot>(v.slot)),
        ),
        lookup(Animation::encoded(v)->Object_0, "ffd"@) == Some(
            NodeView::List(encoded_list::<AnimationFdd>(v.ffd)),
        ),
{
    let m = Animation::encoded(v)->Object_0;
    reveal_strlit("name");
    assert("name"@.len() == 4 && "name"@[0] == 'n');
    reveal_strlit("loop");
    assert("loop"@.len() == 4 && "loop"@[0] == 'l');
    reveal_strlit("duration");
    assert("duration"@.len() == 8);
    reveal_strlit("frame");
    assert("frame"@.len() == 5);
    reveal_strlit("zOrder");
    assert("zOrder"@.len() == 6);
    reveal_strlit("bone");
    assert("bone"@.len() == 4 && "bone"@[0] == 'b');
    reveal_strlit("slot");
    assert("slot"@.len() == 4 && "slot"@[0] == 's');
    reveal_strlit("ffd");
    assert("ffd"@.len() == 3);
    lemma_lookup_at(m, "name"@, 0);
    lemma_lookup_at(m, "loop"@, 1);
    lemma_lookup_at(m, "duration"@, 2);
    lemma_lookup_at(m, "frame"@, 3);
    lemma_lookup_at(m, "zOrder"@, 4);
    lemma_lookup_at(m, "bone"@, 5);
    lemma_lookup_at(m, "slot"@, 6);
    lemma_lookup_at(m, "ffd"@, 7);
}

/// An object that holds the fields that a animation must have, rightly shaped, and none of the
/// optional ones decodes to a animation in which every optional field has its default.
pub proof fn law_minimal_animation(
    m: Seq<(Seq<char>, NodeView)>,
    name: Seq<char>,
)
    requires
        lookup(m, "name"@) == Some(NodeView::Text(name)),
        lookup(m, "loop"@) is None,
        lookup(m, "duration"@) is None,
        lookup(m, "frame"@) is None,
        lookup(m, "zOrder"@) is None,
        lookup(m, "bone"@) is None,
        lookup(m, "slot"@) is None,
        lookup(m, "ffd"@) is None,
    ensures
        Animation::decoded(NodeView::Object(m)) == Ok::<AnimationView, ErrorView>(
            AnimationView {
                name,
                loop_number: 1,
                duration: Single { bits: ONE_BITS },
                frame: Seq::empty(),
                z_order: Seq::empty(),
                bone: Seq::empty(),
                slot: Seq::empty(),
                ffd: Seq::empty(),
            },
        ),
{
}

/// An object that lacks `name` is refused as a animation, for the lack of `name`, whatever else
/// it holds.
pub proof fn law_animation_requires_name(m: Seq<(Seq<char>, NodeView)>)
    requires
        lookup(m, "name"@) is None,
    ensures
        Animation::decoded(NodeView::Object(m)) == Err::<AnimationView, ErrorView>(
            ErrorView::missing("name"@),
        ),
{
}

} // verus!

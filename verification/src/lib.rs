//! Decoder for the DragonBones skeleton-animation exchange format.
//!
//! A document arrives as a tree of generic values ([`Node`]) and leaves as a typed
//! [`Skeleton`], or as the first [`DecodeError`] met, with the path to where it lies.
//! Every optional field that the tree lacks takes the default of the format; the
//! packed lists of the format (coordinate pairs, weights, matrices) become records.
//!
//! Reals are held by the bits of their single-precision form ([`Single`]).

pub mod single;
pub mod node;
pub mod error;
pub mod decode;
pub mod encode;
pub mod scalar;
pub mod version;
pub mod geometry;
pub mod defaults;
pub mod skeleton;
pub mod skin;
pub mod animation;
pub mod document;

pub use crate::animation::{
    Animation, AnimationBone, AnimationBoneFrame, AnimationFdd, AnimationFddFrame, AnimationFrame,
    AnimationSlot, AnimationSlotFrame, AnimationTween, AnimationZOrder, AnimationZOrderFrame, Event,
    ZOrderOffset,
};
pub use crate::decode::{Decode, Packed};
pub use crate::document::{decode, encode, Skeleton};
pub use crate::encode::{Encode, Pack};
pub use crate::error::{DecodeError, Kind, Segment, Shape};
pub use crate::geometry::{Color, Matrix, Point, Transform};
pub use crate::node::{Member, Node, Number};
pub use crate::single::Single;
pub use crate::skeleton::{Action, AnimationType, Armature, BlendMode, Bone, Ik, Slot};
pub use crate::skin::{BonePose, BoundBoxType, Display, DisplayType, Skin, SkinSlot, Weight};
pub use crate::version::Version;

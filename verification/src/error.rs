//! What a decode can fail with, and where in the tree it failed.

use vstd::prelude::*;

verus! {

/// The kind of a value of the tree, as reported in an error.
#[derive(Clone, Copy, Debug, PartialEq, Eq, Structural)]
pub enum Kind {
    Null,
    Bool,
    Int,
    Real,
    Text,
    List,
    Object,
}

/// The shape that a decoder asked for.
#[derive(Clone, Copy, Debug, PartialEq, Eq, Structural)]
pub enum Shape {
    Object,
    List,
    Text,
    Bool,
    /// Any number, read as a single-precision real.
    Number,
    /// An integer that fits `usize`.
    Usize,
    /// An integer that fits `isize`.
    Isize,
    /// An integer that fits `u32`.
    U32,
    /// An integer that fits `i32`.
    I32,
    /// One of the three animation type names.
    AnimationType,
}

/// One step from a value of the tree to a value inside it.
#[derive(Clone, Debug, PartialEq, Eq)]
pub enum Segment {
    /// Into an object, by key.
    Key(String),
    /// Into a list, by position.
    Index(usize),
}

/// The mathematical value of a [`Segment`].
pub enum SegmentView {
    Key(Seq<char>),
    Index(int),
}

impl View for Segment {
    type V = SegmentView;

    open spec fn view(&self) -> SegmentView {
        match self {
            Segment::Key(k) => SegmentView::Key(k@),
            Segment::Index(i) => SegmentView::Index(*i as int),
        }
    }
}

/// The steps of a path, outermost first, as mathematical values.
pub open spec fn path_view(path: Seq<Segment>) -> Seq<SegmentView> {
    Seq::new(path.len(), |i: int| path[i]@)
}

/// Why a decode failed. Paths start at the value that was handed to the decoder.
#[derive(Clone, Debug, PartialEq, Eq)]
pub enum DecodeError {
    /// The object at `path` lacks the required key `field`.
    MissingField { path: Vec<Segment>, field: String },
    /// The value at `path` is of kind `actual`, where `expected` was asked for.
    ShapeMismatch { path: Vec<Segment>, expected: Shape, actual: Kind },
    /// The packed list at `path` has `length` elements, which is no whole number of
    /// records of `arity` elements.
    ArityViolation { path: Vec<Segment>, arity: usize, length: usize },
    /// `raw` is no semantic version.
    VersionParse { raw: String },
}

/// The mathematical value of a [`DecodeError`].
pub enum ErrorView {
    MissingField { path: Seq<SegmentView>, field: Seq<char> },
    ShapeMismatch { path: Seq<SegmentView>, expected: Shape, actual: Kind },
    ArityViolation { path: Seq<SegmentView>, arity: int, length: int },
    VersionParse { raw: Seq<char> },
}

impl View for DecodeError {
    type V = ErrorView;

    open spec fn view(&self) -> ErrorView {
        match self {
            DecodeError::MissingField { path, field } => ErrorView::MissingField {
                path: path_view(path@),
                field: field@,
            },
            DecodeError::ShapeMismatch { path, expected, actual } => ErrorView::ShapeMismatch {
                path: path_view(path@),
                expected: *expected,
                actual: *actual,
            },
            DecodeError::ArityViolation { path, arity, length } => ErrorView::ArityViolation {
                path: path_view(path@),
                arity: *arity as int,
                length: *length as int,
            },
            DecodeError::VersionParse { raw } => ErrorView::VersionParse { raw: raw@ },
        }
    }
}

impl ErrorView {
    /// The same failure, seen from one step further out: `step` leads to the value
    /// that the path started at. A version error carries no path and stays as it is.
    pub open spec fn within(self, step: SegmentView) -> ErrorView {
        match self {
            ErrorView::MissingField { path, field } => ErrorView::MissingField {
                path: seq![step] + path,
                field,
            },
            ErrorView::ShapeMismatch { path, expected, actual } => ErrorView::ShapeMismatch {
                path: seq![step] + path,
                expected,
                actual,
            },
            ErrorView::ArityViolation { path, arity, length } => ErrorView::ArityViolation {
                path: seq![step] + path,
                arity,
                length,
            },
            ErrorView::VersionParse { raw } => ErrorView::VersionParse { raw },
        }
    }

    /// A value of the wrong kind, at the value that was handed in.
    pub open spec fn mismatch(expected: Shape, actual: Kind) -> ErrorView {
        ErrorView::ShapeMismatch { path: Seq::empty(), expected, actual }
    }

    /// A required key that the object handed in lacks.
    pub open spec fn missing(field: Seq<char>) -> ErrorView {
        ErrorView::MissingField { path: Seq::empty(), field }
    }

    /// A packed list, handed in, whose length is no multiple of `arity`.
    pub open spec fn arity(arity: int, length: int) -> ErrorView {
        ErrorView::ArityViolation { path: Seq::empty(), arity, length }
    }
}

/// The mathematical value of a decoder's result.
pub open spec fn outcome<T: View>(r: Result<T, DecodeError>) -> Result<T::V, ErrorView> {
    match r {
        Ok(t) => Ok(t@),
        Err(e) => Err(e@),
    }
}

/// A result seen from one step further out: a failure moves, a success stays.
pub open spec fn under<V>(r: Result<V, ErrorView>, step: SegmentView) -> Result<V, ErrorView> {
    match r {
        Ok(v) => Ok(v),
        Err(e) => Err(e.within(step)),
    }
}

fn prepend(path: Vec<Segment>, step: Segment) -> (r: Vec<Segment>)
    ensures
        path_view(r@) == seq![step@] + path_view(path@),
{
    let mut r = path;
    r.insert(0, step);
    assert(path_view(r@) =~= seq![step@] + path_view(path@));
    r
}

impl DecodeError {
    /// A value of the wrong kind, at the value that was handed in.
    pub fn mismatch(expected: Shape, actual: Kind) -> (r: DecodeError)
        ensures
            r@ == ErrorView::mismatch(expected, actual),
    {
        let r = DecodeError::ShapeMismatch { path: Vec::new(), expected, actual };
        assert(path_view(Seq::<Segment>::empty()) =~= Seq::<SegmentView>::empty());
        r
    }

    /// A required key that the object handed in lacks.
    pub fn missing(field: &str) -> (r: DecodeError)
        ensures
            r@ == ErrorView::missing(field@),
    {
        let r = DecodeError::MissingField { path: Vec::new(), field: field.to_owned() };
        assert(path_view(Seq::<Segment>::empty()) =~= Seq::<SegmentView>::empty());
        r
    }

    /// A packed list, handed in, whose length is no multiple of `arity`.
    pub fn arity(arity: usize, length: usize) -> (r: DecodeError)
        ensures
            r@ == ErrorView::arity(arity as int, length as int),
    {
        let r = DecodeError::ArityViolation { path: Vec::new(), arity, length };
        assert(path_view(Seq::<Segment>::empty()) =~= Seq::<SegmentView>::empty());
        r
    }

    /// The same failure, seen from one step further out.
    pub fn within(self, step: Segment) -> (r: DecodeError)
        ensures
            r@ == self@.within(step@),
    {
        match self {
            DecodeError::MissingField { path, field } => DecodeError::MissingField {
                path: prepend(path, step),
                field,
            },
            DecodeError::ShapeMismatch { path, expected, actual } => DecodeError::ShapeMismatch {
                path: prepend(path, step),
                expected,
                actual,
            },
            DecodeError::ArityViolation { path, arity, length } => DecodeError::ArityViolation {
                path: prepend(path, step),
                arity,
                length,
            },
            DecodeError::VersionParse { raw } => DecodeError::VersionParse { raw },
        }
    }

    /// The same failure, seen from the object that holds the failing value under `key`.
    pub fn under_key(self, key: &str) -> (r: DecodeError)
        ensures
            r@ == self@.within(SegmentView::Key(key@)),
    {
        self.within(Segment::Key(key.to_owned()))
    }

    /// The same failure, seen from the list that holds the failing value at `index`.
    pub fn under_index(self, index: usize) -> (r: DecodeError)
        ensures
            r@ == self@.within(SegmentView::Index(index as int)),
    {
        self.within(Segment::Index(index))
    }
}

} // verus!

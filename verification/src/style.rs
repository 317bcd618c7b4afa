use vstd::prelude::*;
use crate::color::Color;

verus! {

/// A layout dimension or offset: either left to the layout engine or a
/// fixed number of pixels, held in thousandths of a pixel.
#[derive(Clone, Copy, PartialEq, Eq, Structural, Debug)]
pub enum Dim {
    Auto,
    Px(i64),
}

#[derive(Clone, Copy, PartialEq, Eq, Structural, Debug)]
pub enum PositionKind {
    Relative,
    Absolute,
}

#[derive(Clone, Copy, PartialEq, Eq, Structural, Debug)]
pub enum AlignSelfKind {
    Auto,
    Start,
    Center,
}

#[derive(Clone, Copy, PartialEq, Eq, Structural, Debug)]
pub enum JustifyKind {
    Default,
    Center,
}

/// The layout attributes of one node that the widget rules read or
/// write.  A node without a style cannot be positioned at all.
#[derive(Clone, Copy, PartialEq, Eq, Structural, Debug)]
pub struct Style {
    pub position: PositionKind,
    pub left: Dim,
    pub top: Dim,
    pub right: Dim,
    pub bottom: Dim,
    pub width: Dim,
    pub height: Dim,
    pub align_self: AlignSelfKind,
    pub justify: JustifyKind,
    pub background: Option<Color>,
}

impl Style {
    /// The attributes a fresh node starts from: everything automatic,
    /// flowing with its parent.
    pub open spec fn plain_spec() -> Style {
        Style {
            position: PositionKind::Relative,
            left: Dim::Auto,
            top: Dim::Auto,
            right: Dim::Auto,
            bottom: Dim::Auto,
            width: Dim::Auto,
            height: Dim::Auto,
            align_self: AlignSelfKind::Auto,
            justify: JustifyKind::Default,
            background: None,
        }
    }

    pub fn plain() -> (s: Style)
        ensures
            s == Style::plain_spec(),
    {
        Style {
            position: PositionKind::Relative,
            left: Dim::Auto,
            top: Dim::Auto,
            right: Dim::Auto,
            bottom: Dim::Auto,
            width: Dim::Auto,
            height: Dim::Auto,
            align_self: AlignSelfKind::Auto,
            justify: JustifyKind::Default,
            background: None,
        }
    }
}

/// The style after an absolute-position overwrite at `(x, y)`, both in
/// thousandths of a pixel: the node becomes absolutely positioned, its
/// left and top offsets are the given coordinates, and any right or
/// bottom offsets are cleared.  All other attributes are kept.
pub open spec fn positioned(s: Style, x: i64, y: i64) -> Style {
    Style {
        position: PositionKind::Absolute,
        left: Dim::Px(x),
        top: Dim::Px(y),
        right: Dim::Auto,
        bottom: Dim::Auto,
        ..s
    }
}

/// Overwriting a position twice with the same coordinates leaves the
/// same style as overwriting it once.
pub proof fn lemma_positioned_idempotent(s: Style, x: i64, y: i64)
    ensures
        positioned(positioned(s, x, y), x, y) == positioned(s, x, y),
{
}

} // verus!

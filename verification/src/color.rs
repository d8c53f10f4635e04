use vstd::prelude::*;

verus! {

/// The side to move. `White` has ordinal 0 and `Black` has ordinal 1; the
/// ordinal is the index into any two-element per-side table.
#[derive(Clone, Copy, Debug, PartialEq, Eq, Structural)]
pub enum Color {
    White,
    Black,
}

impl Color {
    /// How many sides there are.
    pub const NUM: usize = 2;

    /// The ordinal of this side: 0 for `White`, 1 for `Black`.
    pub open spec fn spec_ordinal(self) -> int {
        match self {
            Color::White => 0,
            Color::Black => 1,
        }
    }

    /// The opposite side.
    pub open spec fn spec_negate(self) -> Color {
        match self {
            Color::White => Color::Black,
            Color::Black => Color::White,
        }
    }

    /// Maps ordinal 0 to `White` and 1 to `Black`. Callers with unvalidated
    /// input use `try_new` instead.
    pub fn new(value: usize) -> (r: Color)
        requires
            value < 2,
        ensures
            r.spec_ordinal() == value,
    {
        if value == 0 {
            Color::White
        } else {
            Color::Black
        }
    }

    /// Checked companion of `new`: rejects every ordinal other than 0 and 1.
    pub fn try_new(value: usize) -> (r: Option<Color>)
        ensures
            value == 0 ==> r == Some(Color::White),
            value == 1 ==> r == Some(Color::Black),
            value >= 2 ==> r is None,
    {
        if value == 0 {
            Some(Color::White)
        } else if value == 1 {
            Some(Color::Black)
        } else {
            None
        }
    }

    /// The ordinal of this side, for selecting per-side data.
    pub fn to_index(self) -> (r: usize)
        ensures
            r == self.spec_ordinal(),
    {
        match self {
            Color::White => 0,
            Color::Black => 1,
        }
    }

    /// The opposite side.
    pub fn negate(self) -> (r: Color)
        ensures
            r == self.spec_negate(),
    {
        match self {
            Color::White => Color::Black,
            Color::Black => Color::White,
        }
    }

    /// A human-readable label for diagnostics.
    pub fn to_string(&self) -> (r: String)
        ensures
            *self == Color::White ==> r@ == "White"@,
            *self == Color::Black ==> r@ == "Black"@,
    {
        match self {
            Color::White => "White".to_owned(),
            Color::Black => "Black".to_owned(),
        }
    }
}

/// Negation is an involution: flipping the side twice restores it, and the
/// two sides map to each other.
pub proof fn lemma_negate_involution(c: Color)
    ensures
        c.spec_negate().spec_negate() == c,
        Color::White.spec_negate() == Color::Black,
        Color::Black.spec_negate() == Color::White,
{
}

/// Selects the element of a two-element per-side table that belongs to `c`,
/// in `White`, `Black` order.
pub fn side_index<'a, T>(s: &'a [T], c: Color) -> (r: &'a T)
    requires
        s@.len() == 2,
    ensures
        *r == s@[c.spec_ordinal()],
{
    vstd::slice::slice_index_get(s, c.to_index())
}

/// Selecting by side agrees with plain positional indexing: `White` selects
/// element 0 and `Black` selects element 1 of any two-element sequence.
pub proof fn lemma_side_ordering<T>(s: Seq<T>)
    requires
        s.len() == 2,
    ensures
        s[Color::White.spec_ordinal()] == s[0],
        s[Color::Black.spec_ordinal()] == s[1],
{
}

} // verus!

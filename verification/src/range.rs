use vstd::prelude::*;

use crate::size::TextSize;

verus! {

/// A half-open range `[start, end)` of offsets into a text buffer.
///
/// The invariant `start <= end` holds of every constructed range; an end
/// equal to the sentinel means the range extends to the end of whatever
/// buffer it addresses.
#[derive(Copy, Clone, PartialEq, Eq, Structural, Hash, Debug)]
pub struct TextRange {
    start: TextSize,
    end: TextSize,
}

/// The end of a range as a generic bound: excluded at a finite offset, or
/// unbounded when the end is the sentinel.
#[derive(Copy, Clone, PartialEq, Eq, Structural, Hash, Debug)]
pub enum EndBound {
    /// The range stops just before this finite offset.
    Excluded(TextSize),
    /// The range extends to the end of the buffer.
    Unbounded,
}

/// Creates a range from `start` and `end`.
///
/// Callers must guarantee `start <= end`; a reversed pair is a contract
/// violation on the caller's side, never a recoverable error.
#[allow(non_snake_case)]
pub fn TextRange(start: TextSize, end: TextSize) -> (r: TextRange)
    requires
        start.raw <= end.raw,
    ensures
        r.spec_start() == start,
        r.spec_end() == end,
{
    TextRange { start, end }
}

impl TextRange {
    /// Invariant: the start of a range never exceeds its end.
    #[verifier::type_invariant]
    spec fn inv(self) -> bool {
        self.start.raw <= self.end.raw
    }

    /// The start point of this range.
    pub closed spec fn spec_start(self) -> TextSize {
        self.start
    }

    /// The end point of this range.
    pub closed spec fn spec_end(self) -> TextSize {
        self.end
    }

    /// The start point of this range. Every constructed range is ordered,
    /// so the result never exceeds the end point.
    #[verifier::when_used_as_spec(spec_start)]
    pub fn start(self) -> (r: TextSize)
        ensures
            r == self.spec_start(),
            r.raw <= self.spec_end().raw,
    {
        proof {
            use_type_invariant(self);
        }
        self.start
    }

    /// The end point of this range. Every constructed range is ordered,
    /// so the result is never below the start point.
    #[verifier::when_used_as_spec(spec_end)]
    pub fn end(self) -> (r: TextSize)
        ensures
            r == self.spec_end(),
            self.spec_start().raw <= r.raw,
    {
        proof {
            use_type_invariant(self);
        }
        self.end
    }

    /// True iff this range contains no points: its start equals its end.
    pub open spec fn spec_is_empty(self) -> bool {
        self.spec_start().raw == self.spec_end().raw
    }

    /// The length of this range: zero for an empty range, the sentinel for a
    /// non-empty range whose end is the sentinel, `end - start` otherwise.
    pub open spec fn spec_len(self) -> TextSize {
        if self.spec_is_empty() {
            TextSize { raw: 0 }
        } else if self.spec_end().spec_is_inf() {
            TextSize { raw: u32::MAX }
        } else {
            TextSize { raw: (self.spec_end().raw - self.spec_start().raw) as u32 }
        }
    }

    /// Creates a zero-length range at the specified offset. Any offset is
    /// valid here, the sentinel included, because start and end coincide.
    pub fn empty(self, offset: TextSize) -> (r: TextRange)
        ensures
            r.spec_start() == offset,
            r.spec_end() == offset,
            r.spec_is_empty(),
            r.spec_len().raw == 0,
    {
        TextRange { start: offset, end: offset }
    }

    /// True iff this range is empty, that is, its start equals its end.
    #[verifier::when_used_as_spec(spec_is_empty)]
    pub fn is_empty(self) -> (r: bool)
        ensures
            r == self.spec_is_empty(),
    {
        self.start.raw == self.end.raw
    }

    /// The size of this range. An empty range has length zero, even when its
    /// bound is the sentinel; a non-empty range whose end is the sentinel has
    /// the sentinel as its length, signalling "unbounded" rather than a
    /// subtraction against the sentinel; any other range has `end - start`.
    #[verifier::when_used_as_spec(spec_len)]
    pub fn len(self) -> (r: TextSize)
        ensures
            r == self.spec_len(),
    {
        proof {
            use_type_invariant(self);
        }
        if self.start.raw == self.end.raw {
            TextSize { raw: 0 }
        } else if self.end.raw < u32::MAX {
            TextSize { raw: self.end.raw - self.start.raw }
        } else {
            TextSize { raw: u32::MAX }
        }
    }

    /// True iff `start <= point < end`: the end index is excluded.
    pub open spec fn spec_contains(self, point: TextSize) -> bool {
        self.spec_start().raw <= point.raw && point.raw < self.spec_end().raw
    }

    /// True iff `start <= point <= end`: the end index is included.
    pub open spec fn spec_contains_inclusive(self, point: TextSize) -> bool {
        self.spec_start().raw <= point.raw && point.raw <= self.spec_end().raw
    }

    /// True iff this range completely contains `other`.
    pub open spec fn spec_contains_range(self, other: TextRange) -> bool {
        self.spec_start().raw <= other.spec_start().raw
            && other.spec_end().raw <= self.spec_end().raw
    }

    /// Check if this range contains an offset.
    ///
    /// The end index is considered excluded: a point exactly at `end` is not
    /// contained, so a zero-length range contains no points.
    #[verifier::when_used_as_spec(spec_contains)]
    pub fn contains(self, point: TextSize) -> (r: bool)
        ensures
            r == self.spec_contains(point),
    {
        self.start.raw <= point.raw && point.raw < self.end.raw
    }

    /// Check if this range contains an offset.
    ///
    /// The end index is considered included: a point exactly at `end` is
    /// contained, as a caret placed at the end of a token should be.
    #[verifier::when_used_as_spec(spec_contains_inclusive)]
    pub fn contains_inclusive(self, point: TextSize) -> (r: bool)
        ensures
            r == self.spec_contains_inclusive(point),
    {
        self.start.raw <= point.raw && point.raw <= self.end.raw
    }

    /// Check if this range completely contains another range.
    #[verifier::when_used_as_spec(spec_contains_range)]
    pub fn contains_range(self, other: TextRange) -> (r: bool)
        ensures
            r == self.spec_contains_range(other),
    {
        self.start.raw <= other.start.raw && other.end.raw <= self.end.raw
    }

    /// Every range contains itself.
    pub proof fn lemma_contains_range_self(self)
        ensures
            self.spec_contains_range(self),
    {
    }

    /// The smallest range that completely contains both `lhs` and `rhs`:
    /// from the smaller start to the larger end.
    pub closed spec fn spec_covering(lhs: TextRange, rhs: TextRange) -> TextRange {
        TextRange {
            start: TextSize {
                raw: vstd::math::min(lhs.start.raw as int, rhs.start.raw as int) as u32,
            },
            end: TextSize {
                raw: vstd::math::max(lhs.end.raw as int, rhs.end.raw as int) as u32,
            },
        }
    }

    /// The range covered by both ranges, if it exists.
    ///
    /// Absent exactly when the ranges are disjoint with a strict gap. If they
    /// merely touch at a single point, the result is the empty range at that
    /// point: touching is a degenerate overlap, not disjointness.
    pub fn intersection(lhs: TextRange, rhs: TextRange) -> (r: Option<TextRange>)
        ensures
            r is None <==> (lhs.spec_end().raw < rhs.spec_start().raw
                || rhs.spec_end().raw < lhs.spec_start().raw),
            r matches Some(i) ==> {
                &&& i.spec_start().raw == vstd::math::max(
                    lhs.spec_start().raw as int,
                    rhs.spec_start().raw as int,
                )
                &&& i.spec_end().raw == vstd::math::min(
                    lhs.spec_end().raw as int,
                    rhs.spec_end().raw as int,
                )
            },
    {
        proof {
            use_type_invariant(lhs);
            use_type_invariant(rhs);
        }
        let start = if lhs.start.raw >= rhs.start.raw {
            lhs.start
        } else {
            rhs.start
        };
        let end = if lhs.end.raw <= rhs.end.raw {
            lhs.end
        } else {
            rhs.end
        };
        if end.raw < start.raw {
            None
        } else {
            Some(TextRange { start, end })
        }
    }

    /// The smallest range that completely contains both ranges.
    pub fn covering(lhs: TextRange, rhs: TextRange) -> (r: TextRange)
        ensures
            r == TextRange::spec_covering(lhs, rhs),
            r.spec_start().raw == vstd::math::min(
                lhs.spec_start().raw as int,
                rhs.spec_start().raw as int,
            ),
            r.spec_end().raw == vstd::math::max(
                lhs.spec_end().raw as int,
                rhs.spec_end().raw as int,
            ),
    {
        proof {
            use_type_invariant(lhs);
            use_type_invariant(rhs);
        }
        let start = if lhs.start.raw <= rhs.start.raw {
            lhs.start
        } else {
            rhs.start
        };
        let end = if lhs.end.raw >= rhs.end.raw {
            lhs.end
        } else {
            rhs.end
        };
        TextRange { start, end }
    }

    /// Covering is commutative: the covering of two ranges does not depend
    /// on the order of its arguments.
    pub proof fn lemma_covering_commutative(lhs: TextRange, rhs: TextRange)
        ensures
            TextRange::spec_covering(lhs, rhs) == TextRange::spec_covering(rhs, lhs),
    {
    }

    /// The end of this range as a generic bound: unbounded when the end is
    /// the sentinel, excluded at the end offset otherwise.
    pub open spec fn spec_end_bound(self) -> EndBound {
        if self.spec_end().spec_is_inf() {
            EndBound::Unbounded
        } else {
            EndBound::Excluded(self.spec_end())
        }
    }

    /// The range described by an included start offset and an end bound:
    /// up to the excluded offset, or up to the sentinel when unbounded.
    pub closed spec fn spec_from_bounds(start: TextSize, end: EndBound) -> TextRange {
        match end {
            EndBound::Excluded(e) => TextRange { start, end: e },
            EndBound::Unbounded => TextRange { start, end: TextSize { raw: u32::MAX } },
        }
    }

    /// The end of this range as a generic bound.
    #[verifier::when_used_as_spec(spec_end_bound)]
    pub fn end_bound(self) -> (r: EndBound)
        ensures
            r == self.spec_end_bound(),
    {
        if self.end.raw == u32::MAX {
            EndBound::Unbounded
        } else {
            EndBound::Excluded(self.end)
        }
    }

    /// This range as a pair of generic bounds: the included start offset and
    /// the excluded-or-unbounded end bound.
    pub fn bounds(self) -> (r: (TextSize, EndBound))
        ensures
            r.0 == self.spec_start(),
            r.1 == self.spec_end_bound(),
    {
        (self.start(), self.end_bound())
    }

    /// Creates the range described by a pair of generic bounds. An excluded
    /// end bound must not be below the start.
    pub fn from_bounds(start: TextSize, end: EndBound) -> (r: TextRange)
        requires
            end matches EndBound::Excluded(e) ==> start.raw <= e.raw,
        ensures
            r == TextRange::spec_from_bounds(start, end),
            r.spec_start() == start,
            r.spec_end_bound() == end || (end matches EndBound::Excluded(e) && e.spec_is_inf()
                && r.spec_end_bound() == EndBound::Unbounded),
    {
        match end {
            EndBound::Excluded(e) => TextRange { start, end: e },
            EndBound::Unbounded => TextRange { start, end: TextSize { raw: u32::MAX } },
        }
    }

    /// Converting a range to its pair of generic bounds and back yields the
    /// same range, whether or not its end is the sentinel.
    pub proof fn lemma_bounds_round_trip(self)
        ensures
            TextRange::spec_from_bounds(self.spec_start(), self.spec_end_bound()) == self,
    {
    }

    /// The sub-slice `[start, end)` of `text` addressed by this range, with
    /// offsets counting characters. When the end is the sentinel, the slice
    /// extends to the end of the text, however long the text is; a finite
    /// bound must lie within the text.
    pub fn index<'a>(self, text: &'a str) -> (r: &'a str)
        requires
            self.spec_start().raw as int <= text@.len(),
            !self.spec_end().spec_is_inf() ==> self.spec_end().raw as int <= text@.len(),
        ensures
            r@ == text@.subrange(
                self.spec_start().raw as int,
                if self.spec_end().spec_is_inf() {
                    text@.len() as int
                } else {
                    self.spec_end().raw as int
                },
            ),
    {
        proof {
            use_type_invariant(self);
        }
        let start = self.start.raw as usize;
        if self.end.raw == u32::MAX {
            let n = text.unicode_len();
            text.substring_char(start, n)
        } else {
            text.substring_char(start, self.end.raw as usize)
        }
    }

    /// The debug rendering `"<start>..<end>"` of this range, with each
    /// offset in decimal.
    pub fn to_debug_string(self) -> (r: String)
        ensures
            r@ == crate::size::spec_decimal(self.spec_start().raw as int) + ".."@
                + crate::size::spec_decimal(self.spec_end().raw as int),
    {
        let mut s = self.start.to_debug_string();
        s.append("..");
        let e = self.end.to_debug_string();
        s.append(e.as_str());
        s
    }

    /// This range as a native numeric range of the platform's index type.
    pub fn into_range(self) -> (r: core::ops::Range<usize>)
        ensures
            r.start == self.spec_start().raw as int,
            r.end == self.spec_end().raw as int,
    {
        (self.start.raw as usize)..(self.end.raw as usize)
    }
}

} // verus!

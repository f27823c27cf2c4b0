//! What one video frame is made of: its timestamp, the regions it codes and
//! the rectangle on the surface that they cover.

use vstd::prelude::*;

verus! {

/// A point in time within a day, as the start of a frame carries it.
#[derive(Debug, Clone, Copy, PartialEq, Eq, Structural)]
pub struct Timestamp {
    pub milliseconds: u16,
    pub seconds: u8,
    pub minutes: u8,
    pub hours: u16,
}

impl Timestamp {
    /// The fields of a number of milliseconds counted from the start of a
    /// session.  Whole days are dropped: the hours wrap at 24.
    pub open spec fn spec_from_millis(timestamp_ms: u32) -> Timestamp {
        Timestamp {
            milliseconds: (timestamp_ms % 1000) as u16,
            seconds: ((timestamp_ms / 1000) % 60) as u8,
            minutes: ((timestamp_ms / 60000) % 60) as u8,
            hours: ((timestamp_ms / 3600000) % 24) as u16,
        }
    }

    /// The number of milliseconds since the start of the day that the fields
    /// stand for.
    pub open spec fn millis_of_day(self) -> int {
        self.hours * 3600000 + self.minutes * 60000 + self.seconds * 1000 + self.milliseconds
    }

    /// Splits a number of milliseconds into hours, minutes, seconds and
    /// milliseconds.
    #[verifier::when_used_as_spec(spec_from_millis)]
    pub fn from_millis(timestamp_ms: u32) -> (t: Timestamp)
        ensures
            t == Timestamp::spec_from_millis(timestamp_ms),
            t.milliseconds < 1000,
            t.seconds < 60,
            t.minutes < 60,
            t.hours < 24,
    {
        Timestamp {
            milliseconds: (timestamp_ms % 1000) as u16,
            seconds: ((timestamp_ms / 1000) % 60) as u8,
            minutes: ((timestamp_ms / 60000) % 60) as u8,
            hours: ((timestamp_ms / 3600000) % 24) as u16,
        }
    }

    /// The fields of a timestamp name the time of day of the instant they were
    /// taken from: put together again they give that instant modulo one day.
    pub proof fn lemma_fields_recompose(timestamp_ms: u32)
        ensures
            Timestamp::spec_from_millis(timestamp_ms).millis_of_day() == timestamp_ms % 86400000,
    {
        let t: int = timestamp_ms as int;
        // Only the hours are cut off at a day; the other fields follow.
        assert((t / 3600000) % 24 == (t % 86400000) / 3600000) by (nonlinear_arith)
            requires
                0 <= t,
        ;
        assert(t % 3600000 == (t % 86400000) % 3600000) by (nonlinear_arith)
            requires
                0 <= t,
        ;
    }
}

/// A rectangle on a surface.  The pixel at (`right`, `bottom`) belongs to it.
#[derive(Debug, Clone, Copy, PartialEq, Eq, Structural)]
pub struct InclusiveRectangle {
    pub left: u16,
    pub top: u16,
    pub right: u16,
    pub bottom: u16,
}

impl InclusiveRectangle {
    /// The smallest rectangle that holds both `self` and `other`, edge by edge.
    pub open spec fn spec_union(self, other: InclusiveRectangle) -> InclusiveRectangle {
        InclusiveRectangle {
            left: if other.left < self.left { other.left } else { self.left },
            top: if other.top < self.top { other.top } else { self.top },
            right: if other.right > self.right { other.right } else { self.right },
            bottom: if other.bottom > self.bottom { other.bottom } else { self.bottom },
        }
    }

    /// The whole of a desktop of the given size.  A width or height of zero
    /// gives an edge at zero.
    pub open spec fn spec_full_desktop(width: u16, height: u16) -> InclusiveRectangle {
        InclusiveRectangle {
            left: 0,
            top: 0,
            right: if width == 0 { 0u16 } else { (width - 1) as u16 },
            bottom: if height == 0 { 0u16 } else { (height - 1) as u16 },
        }
    }

    #[verifier::when_used_as_spec(spec_union)]
    pub fn union(self, other: InclusiveRectangle) -> (u: InclusiveRectangle)
        ensures
            u == self.spec_union(other),
    {
        InclusiveRectangle {
            left: if other.left < self.left { other.left } else { self.left },
            top: if other.top < self.top { other.top } else { self.top },
            right: if other.right > self.right { other.right } else { self.right },
            bottom: if other.bottom > self.bottom { other.bottom } else { self.bottom },
        }
    }

    #[verifier::when_used_as_spec(spec_full_desktop)]
    pub fn full_desktop(width: u16, height: u16) -> (r: InclusiveRectangle)
        ensures
            r == InclusiveRectangle::spec_full_desktop(width, height),
    {
        InclusiveRectangle {
            left: 0,
            top: 0,
            right: width.saturating_sub(1),
            bottom: height.saturating_sub(1),
        }
    }
}

/// One coded area of a frame: where it lies, and how it was quantised.
#[derive(Debug, Clone, Copy, PartialEq, Eq, Structural)]
pub struct Avc420Region {
    pub left: u16,
    pub top: u16,
    pub right: u16,
    pub bottom: u16,
    /// Quantisation parameter of the encoder for this area.
    pub qp: u8,
    /// Quality of the area, from 0 to 100.
    pub quality: u8,
}

impl Avc420Region {
    /// The rectangle of the region, without its coding parameters.
    pub open spec fn spec_bounds(self) -> InclusiveRectangle {
        InclusiveRectangle {
            left: self.left,
            top: self.top,
            right: self.right,
            bottom: self.bottom,
        }
    }

    #[verifier::when_used_as_spec(spec_bounds)]
    pub fn bounds(self) -> (r: InclusiveRectangle)
        ensures
            r == self.spec_bounds(),
    {
        InclusiveRectangle {
            left: self.left,
            top: self.top,
            right: self.right,
            bottom: self.bottom,
        }
    }

    pub fn new(left: u16, top: u16, right: u16, bottom: u16, qp: u8, quality: u8) -> (r:
        Avc420Region)
        ensures
            r == (Avc420Region { left, top, right, bottom, qp, quality }),
    {
        Avc420Region { left, top, right, bottom, qp, quality }
    }

    /// A single region over a whole frame of the given size, at full quality.
    pub fn full_frame(width: u16, height: u16, qp: u8) -> (r: Avc420Region)
        ensures
            r.bounds() == InclusiveRectangle::full_desktop(width, height),
            r.qp == qp,
            r.quality == 100,
    {
        Avc420Region {
            left: 0,
            top: 0,
            right: width.saturating_sub(1),
            bottom: height.saturating_sub(1),
            qp,
            quality: 100,
        }
    }
}

/// The bounding box of one or more regions: the union of their rectangles,
/// taken from the first region to the last.
pub open spec fn bounding_box(regions: Seq<Avc420Region>) -> InclusiveRectangle
    recommends
        regions.len() > 0,
    decreases regions.len(),
{
    if regions.len() <= 1 {
        regions[0].bounds()
    } else {
        bounding_box(regions.drop_last()).union(regions.last().bounds())
    }
}

/// The rectangle that a frame is drawn to: the bounding box of its regions,
/// or the whole desktop if it names none.
pub open spec fn spec_frame_destination(
    regions: Seq<Avc420Region>,
    width: u16,
    height: u16,
) -> InclusiveRectangle {
    if regions.len() == 0 {
        InclusiveRectangle::full_desktop(width, height)
    } else {
        bounding_box(regions)
    }
}

/// The bounding box reaches exactly as far as its regions do: no region
/// crosses an edge of it, and each edge is the edge of some region.
pub proof fn lemma_bounding_box_is_tight(regions: Seq<Avc420Region>)
    requires
        regions.len() > 0,
    ensures
        forall|i: int|
            0 <= i < regions.len() ==> {
                &&& bounding_box(regions).left <= (#[trigger] regions[i]).left
                &&& bounding_box(regions).top <= regions[i].top
                &&& bounding_box(regions).right >= regions[i].right
                &&& bounding_box(regions).bottom >= regions[i].bottom
            },
        exists|i: int| 0 <= i < regions.len() && (#[trigger] regions[i]).left == bounding_box(regions).left,
        exists|i: int| 0 <= i < regions.len() && (#[trigger] regions[i]).top == bounding_box(regions).top,
        exists|i: int| 0 <= i < regions.len() && (#[trigger] regions[i]).right == bounding_box(regions).right,
        exists|i: int| 0 <= i < regions.len() && (#[trigger] regions[i]).bottom == bounding_box(regions).bottom,
    decreases regions.len(),
{
    if regions.len() == 1 {
        assert(bounding_box(regions) == regions[0].bounds());
    } else {
        let head = regions.drop_last();
        let last = regions.len() - 1;
        lemma_bounding_box_is_tight(head);
        let inner = bounding_box(head);
        let outer = bounding_box(regions);
        assert forall|i: int| 0 <= i < regions.len() implies {
            &&& outer.left <= (#[trigger] regions[i]).left
            &&& outer.top <= regions[i].top
            &&& outer.right >= regions[i].right
            &&& outer.bottom >= regions[i].bottom
        } by {
            if i < last {
                assert(head[i] == regions[i]);
            }
        }
        // An edge of the box is the edge of the last region, or else the edge
        // of the box of the regions before it.
        let l = choose|i: int| 0 <= i < head.len() && (#[trigger] head[i]).left == inner.left;
        let t = choose|i: int| 0 <= i < head.len() && (#[trigger] head[i]).top == inner.top;
        let r = choose|i: int| 0 <= i < head.len() && (#[trigger] head[i]).right == inner.right;
        let b = choose|i: int| 0 <= i < head.len() && (#[trigger] head[i]).bottom == inner.bottom;
        assert(regions[if outer.left == inner.left { l } else { last }].left == outer.left);
        assert(regions[if outer.top == inner.top { t } else { last }].top == outer.top);
        assert(regions[if outer.right == inner.right { r } else { last }].right == outer.right);
        assert(regions[if outer.bottom == inner.bottom { b } else { last }].bottom == outer.bottom);
    }
}

/// Computes the rectangle that a frame with the given regions is drawn to, on
/// a desktop of the given size.
pub fn frame_destination(regions: &[Avc420Region], width: u16, height: u16) -> (dest:
    InclusiveRectangle)
    ensures
        dest == spec_frame_destination(regions@, width, height),
{
    if regions.len() == 0 {
        return InclusiveRectangle::full_desktop(width, height);
    }
    let mut dest: InclusiveRectangle = regions[0].bounds();
    let mut i: usize = 1;
    while i < regions.len()
        invariant
            1 <= i <= regions.len(),
            dest == bounding_box(regions@.take(i as int)),
        decreases regions.len() - i,
    {
        proof {
            let upto = regions@.take(i as int + 1);
            assert(upto.drop_last() =~= regions@.take(i as int));
        }
        dest = dest.union(regions[i].bounds());
        i += 1;
    }
    assert(regions@.take(i as int) =~= regions@);
    dest
}

/// The payload of a frame before it is put on the wire: the regions that the
/// frame codes, and the H.264 data for them.
#[derive(Debug, Clone, PartialEq, Eq)]
pub struct Avc420BitmapStream {
    pub regions: Vec<Avc420Region>,
    pub data: Vec<u8>,
}

} // verus!

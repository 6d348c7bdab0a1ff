//! Ordered disjoint segments of cached bytes, and the gaps that they leave.

use vstd::prelude::*;
use vstd::set_lib::{lemma_int_range, lemma_set_disjoint_lens, set_int_range};

use crate::bytes::error::{source_resource, SourceError, SourceLimitKind};
use crate::bytes::model::{
    byte_range, byte_range_ends, canonical_ranges, in_ranges, ranges_are_their_ends, ByteRange,
};

verus! {

/// Offsets of one cached segment.
#[derive(Clone, Copy, Debug, PartialEq, Eq, Structural)]
pub struct Segment {
    pub start: u64,
    pub end_exclusive: u64,
}

impl Segment {
    /// Returns the number of bytes.
    pub fn len(&self) -> (len: u64)
        requires
            self.start <= self.end_exclusive,
        ensures
            len == self.end_exclusive - self.start,
    {
        self.end_exclusive - self.start
    }
}

/// Whether the segments are nonempty and ascend with a gap between any two neighbours.
pub open spec fn segments_ok(segments: Seq<Segment>) -> bool {
    &&& forall|i: int|
        0 <= i < segments.len() ==> (#[trigger] segments[i]).start < segments[i].end_exclusive
    &&& forall|i: int, j: int|
        #![trigger segments[i], segments[j]]
        0 <= i < j < segments.len() ==> segments[i].end_exclusive < segments[j].start
}

/// Whether segment `i` holds `offset`.
pub open spec fn holds(segments: Seq<Segment>, i: int, offset: int) -> bool {
    0 <= i < segments.len() && segments[i].start <= offset < segments[i].end_exclusive
}

/// Whether some segment holds `offset`.
pub open spec fn covers(segments: Seq<Segment>, offset: int) -> bool {
    exists|i: int| #[trigger] holds(segments, i, offset)
}

/// Whether the segments hold every offset from `start` up to `end`.
pub open spec fn covers_all(segments: Seq<Segment>, start: int, end: int) -> bool {
    forall|offset: int| start <= offset < end ==> #[trigger] covers(segments, offset)
}

/// Bytes held by all segments together.
pub open spec fn total_len(segments: Seq<Segment>) -> int
    decreases segments.len(),
{
    if segments.len() == 0 {
        0
    } else {
        total_len(segments.drop_last()) + (segments.last().end_exclusive - segments.last().start)
    }
}

/// The offsets that the segments hold.
pub open spec fn covered_offsets(segments: Seq<Segment>) -> Set<int> {
    Set::new(|offset: int| covers(segments, offset))
}

/// The total counts each held offset once.
pub proof fn total_len_counts_offsets(segments: Seq<Segment>)
    requires
        segments_ok(segments),
    ensures
        covered_offsets(segments).finite(),
        covered_offsets(segments).len() == total_len(segments),
    decreases segments.len(),
{
    if segments.len() == 0 {
        assert(covered_offsets(segments) =~= Set::empty());
    } else {
        let front = segments.drop_last();
        let last = segments.last();
        let n = segments.len() - 1;
        total_len_counts_offsets(front);
        let span = set_int_range(last.start as int, last.end_exclusive as int);
        lemma_int_range(last.start as int, last.end_exclusive as int);
        assert forall|offset: int| #[trigger] covers(segments, offset) <==> covers(front, offset)
            || span.contains(offset) by {
            if covers(segments, offset) {
                let i = choose|i: int| #[trigger] holds(segments, i, offset);
                if i < n {
                    assert(holds(front, i, offset));
                }
            }
            if covers(front, offset) {
                let i = choose|i: int| #[trigger] holds(front, i, offset);
                assert(holds(segments, i, offset));
            }
            if span.contains(offset) {
                assert(holds(segments, n, offset));
            }
        }
        assert(covered_offsets(segments) =~= covered_offsets(front) + span);
        assert forall|offset: int| covered_offsets(front).contains(offset) implies !span.contains(
            offset,
        ) by {
            let i = choose|i: int| #[trigger] holds(front, i, offset);
            assert(segments[i].end_exclusive < segments[n].start);
        }
        lemma_set_disjoint_lens(covered_offsets(front), span);
    }
}

/// Inserting a range raises the total by the number of its offsets that were not held.
pub proof fn inserting_adds_the_missing_offsets(segments: Seq<Segment>, range: ByteRange)
    requires
        segments_ok(segments),
        0 <= range.first() < range.end() <= u64::MAX,
    ensures
        ({
            let missing = Set::new(
                |offset: int| range.contains(offset) && !covers(segments, offset),
            );
            &&& missing.finite()
            &&& total_len(inserted(segments, range.first() as u64, range.end() as u64))
                == total_len(segments) + missing.len()
        }),
{
    let missing = Set::new(|offset: int| range.contains(offset) && !covers(segments, offset));
    let after = inserted(segments, range.first() as u64, range.end() as u64);
    inserted_meaning(segments, range.first() as u64, range.end() as u64);
    total_len_counts_offsets(segments);
    total_len_counts_offsets(after);
    assert forall|offset: int| covered_offsets(after).contains(offset) <==> (covered_offsets(
        segments,
    ) + missing).contains(offset) by {
        assert(covers(after, offset) <==> covers(segments, offset) || range.first() <= offset
            < range.end());
    }
    assert(covered_offsets(after) =~= covered_offsets(segments) + missing);
    assert(missing =~= covered_offsets(after).difference(covered_offsets(segments)));
    lemma_set_disjoint_lens(covered_offsets(segments), missing);
}

/// The maximal ranges between `cursor` and `end` that segments `i` and later leave out.
pub open spec fn gaps_from(segments: Seq<Segment>, i: int, cursor: int, end: int) -> Seq<ByteRange>
    decreases segments.len() - i,
{
    if cursor >= end {
        Seq::empty()
    } else if i < 0 || i >= segments.len() || segments[i].start >= end {
        seq![byte_range(cursor, end - cursor)]
    } else if segments[i].end_exclusive <= cursor {
        gaps_from(segments, i + 1, cursor, end)
    } else if segments[i].start > cursor {
        seq![byte_range(cursor, segments[i].start - cursor)]
            + gaps_from(segments, i + 1, segments[i].end_exclusive as int, end)
    } else {
        gaps_from(segments, i + 1, segments[i].end_exclusive as int, end)
    }
}

/// The maximal ranges of `wanted` that the segments leave out, in ascending order.
pub open spec fn gaps(segments: Seq<Segment>, wanted: ByteRange) -> Seq<ByteRange> {
    gaps_from(segments, 0, wanted.first(), wanted.end())
}

/// The gaps of each wanted range, one after the other.
pub open spec fn gaps_of_all(segments: Seq<Segment>, wanted: Seq<ByteRange>) -> Seq<ByteRange>
    decreases wanted.len(),
{
    if wanted.len() == 0 {
        Seq::empty()
    } else {
        gaps_of_all(segments, wanted.drop_last()) + gaps(segments, wanted.last())
    }
}

/// First segment from `i` on that ends at or after `start`.
pub open spec fn first_reaching(segments: Seq<Segment>, start: int, i: int) -> int
    decreases segments.len() - i,
{
    if i >= segments.len() || segments[i].end_exclusive >= start {
        i
    } else {
        first_reaching(segments, start, i + 1)
    }
}

/// First segment from `i` on that starts after `end`.
pub open spec fn first_beyond(segments: Seq<Segment>, end: int, i: int) -> int
    decreases segments.len() - i,
{
    if i >= segments.len() || segments[i].start > end {
        i
    } else {
        first_beyond(segments, end, i + 1)
    }
}

/// The segment that `start..end` forms with those it overlaps or touches, segments `lo` up to `hi`.
pub open spec fn joined(segments: Seq<Segment>, lo: int, hi: int, start: u64, end: u64) -> Segment {
    Segment {
        start: if lo < hi && segments[lo].start < start {
            segments[lo].start
        } else {
            start
        },
        end_exclusive: if lo < hi && segments[hi - 1].end_exclusive > end {
            segments[hi - 1].end_exclusive
        } else {
            end
        },
    }
}

/// The segments once `start..end` is held too.
pub open spec fn inserted(segments: Seq<Segment>, start: u64, end: u64) -> Seq<Segment> {
    let lo = first_reaching(segments, start as int, 0);
    let hi = first_beyond(segments, end as int, lo);
    segments.take(lo).push(joined(segments, lo, hi, start, end)) + segments.skip(hi)
}

/// No two segments hold one offset.
pub proof fn holder_is_unique(segments: Seq<Segment>, i: int, j: int, offset: int)
    requires
        segments_ok(segments),
        holds(segments, i, offset),
        holds(segments, j, offset),
    ensures
        i == j,
{
    if i < j {
        assert(segments[i].end_exclusive < segments[j].start);
    } else if j < i {
        assert(segments[j].end_exclusive < segments[i].start);
    }
}

/// A covered range lies in one segment.
pub proof fn covered_range_has_one_holder(segments: Seq<Segment>, start: int, end: int) -> (i: int)
    requires
        segments_ok(segments),
        start < end,
        covers_all(segments, start, end),
    ensures
        holds(segments, i, start),
        segments[i].end_exclusive >= end,
{
    assert(covers(segments, start));
    let i = choose|i: int| #[trigger] holds(segments, i, start);
    let stop = segments[i].end_exclusive as int;
    if stop < end {
        assert(covers(segments, stop));
        let j = choose|j: int| #[trigger] holds(segments, j, stop);
        if i < j {
            assert(segments[i].end_exclusive < segments[j].start);
        } else if j < i {
            assert(segments[j].end_exclusive < segments[i].start);
        }
        assert(false);
    }
    i
}

/// What gaps are: ascending separated ranges within `cursor..end` that hold exactly the offsets
/// which no segment from `i` on holds.
pub proof fn gaps_from_meaning(segments: Seq<Segment>, i: int, cursor: int, end: int)
    requires
        segments_ok(segments),
        0 <= i <= segments.len(),
        0 <= cursor,
        end <= u64::MAX,
    ensures
        canonical_ranges(gaps_from(segments, i, cursor, end)),
        forall|k: int|
            0 <= k < gaps_from(segments, i, cursor, end).len() ==> {
                let gap = #[trigger] gaps_from(segments, i, cursor, end)[k];
                cursor <= gap.first() < gap.end() <= end
            },
        forall|offset: int| #[trigger]
            in_ranges(gaps_from(segments, i, cursor, end), offset) <==> cursor <= offset < end
                && !(exists|j: int| i <= j && #[trigger] holds(segments, j, offset)),
    decreases segments.len() - i,
{
    let all = gaps_from(segments, i, cursor, end);
    if cursor >= end {
        assert forall|offset: int| #[trigger] in_ranges(all, offset) <==> cursor <= offset < end
            && !(exists|j: int| i <= j && #[trigger] holds(segments, j, offset)) by {}
    } else if i >= segments.len() || segments[i].start >= end {
        byte_range_ends(cursor, end);
        assert forall|offset: int| #[trigger] in_ranges(all, offset) <==> cursor <= offset < end
            && !(exists|j: int| i <= j && #[trigger] holds(segments, j, offset)) by {
            if cursor <= offset < end {
                assert(all[0].contains(offset));
                if exists|j: int| i <= j && #[trigger] holds(segments, j, offset) {
                    let j = choose|j: int| i <= j && #[trigger] holds(segments, j, offset);
                    if i < j {
                        assert(segments[i].end_exclusive < segments[j].start);
                    }
                    assert(false);
                }
            }
        }
    } else if segments[i].end_exclusive <= cursor {
        gaps_from_meaning(segments, i + 1, cursor, end);
        assert forall|offset: int| #[trigger] in_ranges(all, offset) <==> cursor <= offset < end
            && !(exists|j: int| i <= j && #[trigger] holds(segments, j, offset)) by {
            if cursor <= offset < end {
                assert(!holds(segments, i, offset));
            }
        }
    } else {
        let stop = segments[i].end_exclusive as int;
        let rest = gaps_from(segments, i + 1, stop, end);
        gaps_from_meaning(segments, i + 1, stop, end);
        if segments[i].start > cursor {
            byte_range_ends(cursor, segments[i].start as int);
            let head = byte_range(cursor, segments[i].start - cursor);
            assert(all == seq![head] + rest);
            assert forall|k: int| 0 <= k < all.len() implies {
                let gap = #[trigger] all[k];
                cursor <= gap.first() < gap.end() <= end
            } by {
                if k > 0 {
                    assert(all[k] == rest[k - 1]);
                }
            }
            assert forall|a: int, b: int|
                #![trigger all[a], all[b]]
                0 <= a < b < all.len() implies all[a].end() < all[b].first() by {
                assert(all[b] == rest[b - 1]);
                if a > 0 {
                    assert(all[a] == rest[a - 1]);
                }
            }
            assert forall|offset: int| #[trigger] in_ranges(all, offset) <==> cursor <= offset < end
                && !(exists|j: int| i <= j && #[trigger] holds(segments, j, offset)) by {
                if in_ranges(all, offset) {
                    let k = choose|k: int| 0 <= k < all.len() && (#[trigger] all[k]).contains(offset);
                    if k > 0 {
                        assert(rest[k - 1].contains(offset));
                        assert(in_ranges(rest, offset));
                    } else {
                        if exists|j: int| i <= j && #[trigger] holds(segments, j, offset) {
                            let j = choose|j: int| i <= j && #[trigger] holds(segments, j, offset);
                            if i < j {
                                assert(segments[i].end_exclusive < segments[j].start);
                            }
                        }
                    }
                }
                if cursor <= offset < end && !(exists|j: int|
                    i <= j && #[trigger] holds(segments, j, offset)) {
                    assert(!holds(segments, i, offset));
                    if offset < segments[i].start {
                        assert(all[0].contains(offset));
                    } else {
                        assert(in_ranges(rest, offset));
                        let k = choose|k: int|
                            0 <= k < rest.len() && (#[trigger] rest[k]).contains(offset);
                        assert(all[k + 1] == rest[k]);
                        assert(all[k + 1].contains(offset));
                    }
                }
            }
        } else {
            assert forall|offset: int| #[trigger] in_ranges(all, offset) <==> cursor <= offset < end
                && !(exists|j: int| i <= j && #[trigger] holds(segments, j, offset)) by {
                if in_ranges(all, offset) {
                    assert(!holds(segments, i, offset));
                }
                if cursor <= offset < end && !(exists|j: int|
                    i <= j && #[trigger] holds(segments, j, offset)) {
                    assert(!holds(segments, i, offset));
                    assert(in_ranges(rest, offset));
                }
            }
        }
    }
}

/// The gaps of a range are separated and hold exactly its uncovered offsets.
pub proof fn gaps_meaning(segments: Seq<Segment>, wanted: ByteRange)
    requires
        segments_ok(segments),
        0 <= wanted.first() <= wanted.end() <= u64::MAX,
    ensures
        canonical_ranges(gaps(segments, wanted)),
        forall|k: int|
            0 <= k < gaps(segments, wanted).len() ==> {
                let gap = #[trigger] gaps(segments, wanted)[k];
                wanted.first() <= gap.first() < gap.end() <= wanted.end()
            },
        forall|offset: int| #[trigger]
            in_ranges(gaps(segments, wanted), offset) <==> wanted.contains(offset) && !covers(
                segments,
                offset,
            ),
        gaps(segments, wanted).len() == 0 <==> covers_all(segments, wanted.first(), wanted.end()),
{
    gaps_from_meaning(segments, 0, wanted.first(), wanted.end());
    let all = gaps(segments, wanted);
    assert forall|offset: int| #[trigger] in_ranges(all, offset) <==> wanted.contains(offset)
        && !covers(segments, offset) by {
        if covers(segments, offset) {
            let j = choose|j: int| #[trigger] holds(segments, j, offset);
            assert(0 <= j && holds(segments, j, offset));
        }
    }
    if all.len() == 0 {
        assert forall|offset: int| wanted.first() <= offset < wanted.end() implies #[trigger] covers(
            segments,
            offset,
        ) by {
            assert(!in_ranges(all, offset));
        }
    } else {
        assert(all[0].contains(all[0].first()));
        assert(in_ranges(all, all[0].first()));
    }
}

/// The gaps of separated ranges are separated, and hold exactly their uncovered offsets.
pub proof fn gaps_of_all_meaning(segments: Seq<Segment>, wanted: Seq<ByteRange>)
    requires
        segments_ok(segments),
        canonical_ranges(wanted),
        forall|i: int|
            0 <= i < wanted.len() ==> 0 <= (#[trigger] wanted[i]).first() < wanted[i].end()
                <= u64::MAX,
    ensures
        canonical_ranges(gaps_of_all(segments, wanted)),
        forall|k: int|
            0 <= k < gaps_of_all(segments, wanted).len() ==> {
                let gap = #[trigger] gaps_of_all(segments, wanted)[k];
                0 <= gap.first() < gap.end() <= wanted.last().end()
            },
        gaps_of_all(segments, wanted).len() > 0 ==> wanted.len() > 0,
        forall|offset: int| #[trigger]
            in_ranges(gaps_of_all(segments, wanted), offset) <==> in_ranges(wanted, offset)
                && !covers(segments, offset),
    decreases wanted.len(),
{
    let all = gaps_of_all(segments, wanted);
    if wanted.len() > 0 {
        let front = wanted.drop_last();
        let head = gaps_of_all(segments, front);
        let tail = gaps(segments, wanted.last());
        assert forall|i: int| 0 <= i < front.len() implies 0 <= (#[trigger] front[i]).first()
            < front[i].end() <= u64::MAX by {
            assert(front[i] == wanted[i]);
        }
        assert forall|i: int, j: int|
            #![trigger front[i], front[j]]
            0 <= i < j < front.len() implies front[i].end() < front[j].first() by {
            assert(front[i] == wanted[i] && front[j] == wanted[j]);
        }
        gaps_of_all_meaning(segments, front);
        gaps_meaning(segments, wanted.last());
        assert(all == head + tail);
        if front.len() > 0 {
            assert(front.last() == wanted[front.len() - 1]);
            assert(wanted[front.len() - 1].end() < wanted[wanted.len() - 1].first());
        }
        assert forall|k: int| 0 <= k < all.len() implies {
            let gap = #[trigger] all[k];
            0 <= gap.first() < gap.end() <= wanted.last().end()
        } by {
            if k < head.len() {
                assert(all[k] == head[k]);
            } else {
                assert(all[k] == tail[k - head.len()]);
            }
        }
        assert forall|a: int, b: int|
            #![trigger all[a], all[b]]
            0 <= a < b < all.len() implies all[a].end() < all[b].first() by {
            if b < head.len() {
                assert(all[a] == head[a] && all[b] == head[b]);
            } else {
                assert(all[b] == tail[b - head.len()]);
                if a < head.len() {
                    assert(all[a] == head[a]);
                } else {
                    assert(all[a] == tail[a - head.len()]);
                }
            }
        }
        assert forall|offset: int| #[trigger] in_ranges(all, offset) <==> in_ranges(wanted, offset)
            && !covers(segments, offset) by {
            if in_ranges(all, offset) {
                let k = choose|k: int| 0 <= k < all.len() && (#[trigger] all[k]).contains(offset);
                if k < head.len() {
                    assert(head[k].contains(offset));
                    assert(in_ranges(head, offset));
                    let m = choose|m: int|
                        0 <= m < front.len() && (#[trigger] front[m]).contains(offset);
                    assert(wanted[m].contains(offset));
                } else {
                    assert(tail[k - head.len()].contains(offset));
                    assert(in_ranges(tail, offset));
                    assert(wanted[wanted.len() - 1].contains(offset));
                }
            }
            if in_ranges(wanted, offset) && !covers(segments, offset) {
                let m = choose|m: int|
                    0 <= m < wanted.len() && (#[trigger] wanted[m]).contains(offset);
                if m < front.len() {
                    assert(front[m].contains(offset));
                    assert(in_ranges(front, offset));
                    assert(in_ranges(head, offset));
                    let k = choose|k: int| 0 <= k < head.len() && (#[trigger] head[k]).contains(offset);
                    assert(all[k].contains(offset));
                } else {
                    assert(in_ranges(tail, offset));
                    let k = choose|k: int| 0 <= k < tail.len() && (#[trigger] tail[k]).contains(offset);
                    assert(all[k + head.len()].contains(offset));
                }
            }
        }
    }
}

/// Separated nonempty ranges are determined by the offsets that they hold.
pub proof fn canonical_ranges_are_unique(left: Seq<ByteRange>, right: Seq<ByteRange>)
    requires
        canonical_ranges(left),
        canonical_ranges(right),
        forall|i: int| 0 <= i < left.len() ==> (#[trigger] left[i]).first() < left[i].end(),
        forall|i: int| 0 <= i < right.len() ==> (#[trigger] right[i]).first() < right[i].end(),
        forall|offset: int| #[trigger] in_ranges(left, offset) <==> in_ranges(right, offset),
    ensures
        left == right,
    decreases left.len() + right.len(),
{
    if left.len() == 0 && right.len() == 0 {
        assert(left =~= right);
    } else if left.len() == 0 {
        assert(right[0].contains(right[0].first()));
        assert(in_ranges(right, right[0].first()));
        assert(in_ranges(left, right[0].first()));
    } else if right.len() == 0 {
        assert(left[0].contains(left[0].first()));
        assert(in_ranges(left, left[0].first()));
    } else {
        first_range_agrees(left, right);
        first_range_agrees(right, left);
        ranges_are_their_ends(left[0], right[0]);
        let l = left.drop_first();
        let r = right.drop_first();
        assert forall|offset: int| #[trigger] in_ranges(l, offset) <==> in_ranges(r, offset) by {
            rest_holds(left, offset);
            rest_holds(right, offset);
            assert(in_ranges(left, offset) <==> in_ranges(right, offset));
        }
        assert forall|i: int| 0 <= i < l.len() implies (#[trigger] l[i]).first() < l[i].end() by {
            assert(l[i] == left[i + 1]);
        }
        assert forall|i: int| 0 <= i < r.len() implies (#[trigger] r[i]).first() < r[i].end() by {
            assert(r[i] == right[i + 1]);
        }
        canonical_ranges_are_unique(l, r);
        assert(left =~= seq![left[0]] + l);
        assert(right =~= seq![right[0]] + r);
    }
}

proof fn rest_holds(ranges: Seq<ByteRange>, offset: int)
    requires
        ranges.len() > 0,
        canonical_ranges(ranges),
        forall|i: int| 0 <= i < ranges.len() ==> (#[trigger] ranges[i]).first() < ranges[i].end(),
    ensures
        in_ranges(ranges.drop_first(), offset) <==> in_ranges(ranges, offset)
            && !ranges[0].contains(offset),
{
    let rest = ranges.drop_first();
    if in_ranges(rest, offset) {
        let k = choose|k: int| 0 <= k < rest.len() && (#[trigger] rest[k]).contains(offset);
        assert(rest[k] == ranges[k + 1]);
        assert(ranges[0].end() < ranges[k + 1].first());
    }
    if in_ranges(ranges, offset) && !ranges[0].contains(offset) {
        let k = choose|k: int| 0 <= k < ranges.len() && (#[trigger] ranges[k]).contains(offset);
        assert(rest[k - 1] == ranges[k]);
    }
}

proof fn first_range_agrees(left: Seq<ByteRange>, right: Seq<ByteRange>)
    requires
        left.len() > 0,
        right.len() > 0,
        canonical_ranges(left),
        canonical_ranges(right),
        forall|i: int| 0 <= i < left.len() ==> (#[trigger] left[i]).first() < left[i].end(),
        forall|i: int| 0 <= i < right.len() ==> (#[trigger] right[i]).first() < right[i].end(),
        forall|offset: int| #[trigger] in_ranges(left, offset) <==> in_ranges(right, offset),
    ensures
        right[0].first() <= left[0].first(),
        right[0].first() == left[0].first() ==> left[0].end() <= right[0].end(),
{
    let start = left[0].first();
    assert(left[0].contains(start));
    assert(in_ranges(left, start));
    assert(in_ranges(right, start));
    let k = choose|k: int| 0 <= k < right.len() && (#[trigger] right[k]).contains(start);
    if k > 0 {
        assert(right[0].end() < right[k].first());
    }
    if right[0].first() == start && right[0].end() < left[0].end() {
        let stop = right[0].end();
        assert(left[0].contains(stop));
        assert(in_ranges(left, stop));
        assert(in_ranges(right, stop));
        let m = choose|m: int| 0 <= m < right.len() && (#[trigger] right[m]).contains(stop);
        if m > 0 {
            assert(right[0].end() < right[m].first());
        }
    }
}

/// Length is additive over concatenation.
pub proof fn total_len_of_sum(left: Seq<Segment>, right: Seq<Segment>)
    ensures
        total_len(left + right) == total_len(left) + total_len(right),
    decreases right.len(),
{
    if right.len() == 0 {
        assert(left + right =~= left);
    } else {
        assert((left + right).drop_last() =~= left + right.drop_last());
        total_len_of_sum(left, right.drop_last());
    }
}

/// Disjoint segments below `bound` hold at most `bound` bytes.
pub proof fn total_len_is_bounded(segments: Seq<Segment>, bound: int)
    requires
        segments_ok(segments),
        0 <= bound,
        forall|i: int|
            0 <= i < segments.len() ==> (#[trigger] segments[i]).end_exclusive <= bound,
    ensures
        0 <= total_len(segments) <= bound,
    decreases segments.len(),
{
    if segments.len() > 0 {
        let front = segments.drop_last();
        assert forall|i: int| 0 <= i < front.len() implies (#[trigger] front[i]).end_exclusive
            <= segments.last().start by {
            assert(front[i] == segments[i]);
            assert(segments[i].end_exclusive < segments[segments.len() - 1].start);
        }
        assert(segments_ok(front)) by {
            assert forall|i: int| 0 <= i < front.len() implies (#[trigger] front[i]).start
                < front[i].end_exclusive by {
                assert(front[i] == segments[i]);
            }
            assert forall|i: int, j: int|
                #![trigger front[i], front[j]]
                0 <= i < j < front.len() implies front[i].end_exclusive < front[j].start by {
                assert(front[i] == segments[i] && front[j] == segments[j]);
            }
        }
        total_len_is_bounded(front, segments.last().start as int);
        assert(segments[segments.len() - 1].start < segments[segments.len() - 1].end_exclusive);
    }
}

proof fn first_reaching_meaning(segments: Seq<Segment>, start: int, i: int)
    requires
        0 <= i <= segments.len(),
    ensures
        i <= first_reaching(segments, start, i) <= segments.len(),
        forall|k: int|
            i <= k < first_reaching(segments, start, i) ==> (#[trigger] segments[k]).end_exclusive
                < start,
        first_reaching(segments, start, i) < segments.len() ==> segments[first_reaching(
            segments,
            start,
            i,
        )].end_exclusive >= start,
    decreases segments.len() - i,
{
    if i < segments.len() && segments[i].end_exclusive < start {
        first_reaching_meaning(segments, start, i + 1);
    }
}

proof fn first_beyond_meaning(segments: Seq<Segment>, end: int, i: int)
    requires
        0 <= i <= segments.len(),
    ensures
        i <= first_beyond(segments, end, i) <= segments.len(),
        forall|k: int|
            i <= k < first_beyond(segments, end, i) ==> (#[trigger] segments[k]).start <= end,
        first_beyond(segments, end, i) < segments.len() ==> segments[first_beyond(
            segments,
            end,
            i,
        )].start > end,
    decreases segments.len() - i,
{
    if i < segments.len() && segments[i].start <= end {
        first_beyond_meaning(segments, end, i + 1);
    }
}

/// Facts about the block of segments that an insertion joins.
pub proof fn join_block(segments: Seq<Segment>, start: u64, end: u64) -> (block: (int, int))
    requires
        segments_ok(segments),
        start < end,
    ensures
        block.0 == first_reaching(segments, start as int, 0),
        block.1 == first_beyond(segments, end as int, block.0),
        0 <= block.0 <= block.1 <= segments.len(),
        forall|k: int| 0 <= k < block.0 ==> (#[trigger] segments[k]).end_exclusive < start,
        forall|k: int|
            block.0 <= k < block.1 ==> (#[trigger] segments[k]).start <= end
                && segments[k].end_exclusive >= start,
        forall|k: int| block.1 <= k < segments.len() ==> (#[trigger] segments[k]).start > end,
{
    let lo = first_reaching(segments, start as int, 0);
    first_reaching_meaning(segments, start as int, 0);
    let hi = first_beyond(segments, end as int, lo);
    first_beyond_meaning(segments, end as int, lo);
    assert forall|k: int| lo <= k < hi implies (#[trigger] segments[k]).end_exclusive >= start by {
        if k > lo {
            assert(segments[lo].end_exclusive < segments[k].start);
            assert(segments[k].start < segments[k].end_exclusive);
        }
    }
    assert forall|k: int| hi <= k < segments.len() implies (#[trigger] segments[k]).start > end by {
        if k > hi {
            assert(segments[hi].end_exclusive < segments[k].start);
            assert(segments[hi].start < segments[hi].end_exclusive);
        }
    }
    (lo, hi)
}

/// Inserting a range keeps the segments ordered and separated, and adds exactly its offsets.
pub proof fn inserted_meaning(segments: Seq<Segment>, start: u64, end: u64)
    requires
        segments_ok(segments),
        start < end,
    ensures
        segments_ok(inserted(segments, start, end)),
        forall|offset: int| #[trigger]
            covers(inserted(segments, start, end), offset) <==> covers(segments, offset) || start
                <= offset < end,
        forall|bound: int|
            #![trigger segments_within(segments, bound)]
            segments_within(segments, bound) && end <= bound ==> segments_within(
                inserted(segments, start, end),
                bound,
            ),
{
    let (lo, hi) = join_block(segments, start, end);
    let middle = joined(segments, lo, hi, start, end);
    let all = inserted(segments, start, end);
    assert(all.len() == lo + 1 + (segments.len() - hi));
    assert forall|i: int| 0 <= i < all.len() implies #[trigger] all[i] == (if i < lo {
        segments[i]
    } else if i == lo {
        middle
    } else {
        segments[i - lo - 1 + hi]
    }) by {}
    if lo < hi {
        assert(segments[lo].start < segments[lo].end_exclusive);
        assert(segments[hi - 1].start < segments[hi - 1].end_exclusive);
    }
    assert(middle.start <= start && end <= middle.end_exclusive);
    assert forall|i: int| 0 <= i < all.len() implies (#[trigger] all[i]).start
        < all[i].end_exclusive by {}
    assert forall|k: int| 0 <= k < lo implies (#[trigger] segments[k]).end_exclusive
        < middle.start by {
        if lo < hi {
            assert(segments[k].end_exclusive < segments[lo].start);
        }
    }
    assert forall|k: int| hi <= k < segments.len() implies middle.end_exclusive < (
    #[trigger] segments[k]).start by {
        if lo < hi {
            assert(segments[hi - 1].end_exclusive < segments[k].start);
        }
    }
    assert forall|i: int, j: int|
        #![trigger all[i], all[j]]
        0 <= i < j < all.len() implies all[i].end_exclusive < all[j].start by {
        if j < lo {
            assert(segments[i].end_exclusive < segments[j].start);
        } else if j == lo {
            assert(segments[i].end_exclusive < middle.start);
        } else {
            let b = j - lo - 1 + hi;
            if i < lo {
                assert(segments[i].end_exclusive < segments[b].start);
            } else if i == lo {
                assert(middle.end_exclusive < segments[b].start);
            } else {
                let a = i - lo - 1 + hi;
                assert(segments[a].end_exclusive < segments[b].start);
            }
        }
    }
    assert forall|offset: int| #[trigger] covers(all, offset) <==> covers(segments, offset) || start
        <= offset < end by {
        if covers(all, offset) {
            let i = choose|i: int| #[trigger] holds(all, i, offset);
            if i < lo {
                assert(holds(segments, i, offset));
            } else if i > lo {
                assert(holds(segments, i - lo - 1 + hi, offset));
            } else if !(start <= offset < end) {
                if offset < start {
                    assert(lo < hi);
                    assert(segments[lo].end_exclusive >= start);
                    assert(holds(segments, lo, offset));
                } else {
                    assert(lo < hi);
                    assert(segments[hi - 1].start <= end);
                    assert(holds(segments, hi - 1, offset));
                }
            }
        }
        if covers(segments, offset) {
            let i = choose|i: int| #[trigger] holds(segments, i, offset);
            if i < lo {
                assert(holds(all, i, offset));
            } else if i >= hi {
                assert(holds(all, i - hi + lo + 1, offset));
            } else {
                if lo < i {
                    assert(segments[lo].end_exclusive < segments[i].start);
                    assert(segments[lo].start < segments[lo].end_exclusive);
                }
                if i < hi - 1 {
                    assert(segments[i].end_exclusive < segments[hi - 1].start);
                }
                assert(holds(all, lo, offset));
            }
        }
        if start <= offset < end {
            assert(holds(all, lo, offset));
        }
    }
    assert forall|bound: int|
        #![trigger segments_within(segments, bound)]
        segments_within(segments, bound) && end <= bound implies segments_within(all, bound) by {
        assert forall|i: int| 0 <= i < all.len() implies (#[trigger] all[i]).end_exclusive
            <= bound by {
            if i < lo {
                assert(segments[i].end_exclusive <= bound);
            } else if i == lo {
                if lo < hi {
                    assert(segments[hi - 1].end_exclusive <= bound);
                }
            } else {
                assert(segments[i - lo - 1 + hi].end_exclusive <= bound);
            }
        }
    }
}

/// Whether every segment ends at or before `bound`.
pub open spec fn segments_within(segments: Seq<Segment>, bound: int) -> bool {
    forall|i: int| 0 <= i < segments.len() ==> (#[trigger] segments[i]).end_exclusive <= bound
}

/// The size of an insertion.
pub proof fn inserted_total(segments: Seq<Segment>, start: u64, end: u64)
    requires
        segments_ok(segments),
        start < end,
    ensures
        ({
            let lo = first_reaching(segments, start as int, 0);
            let hi = first_beyond(segments, end as int, lo);
            let middle = joined(segments, lo, hi, start, end);
            &&& total_len(inserted(segments, start, end)) == total_len(segments) - total_len(
                segments.subrange(lo, hi),
            ) + (middle.end_exclusive - middle.start)
            &&& inserted(segments, start, end).len() == segments.len() - (hi - lo) + 1
            &&& 0 <= total_len(segments.subrange(lo, hi)) <= total_len(segments)
        }),
{
    let (lo, hi) = join_block(segments, start, end);
    let middle = joined(segments, lo, hi, start, end);
    let front = segments.take(lo);
    let block = segments.subrange(lo, hi);
    let back = segments.skip(hi);
    total_len_of_sum(front.push(middle), back);
    assert(front.push(middle).drop_last() =~= front);
    assert(segments =~= front + block + back);
    total_len_of_sum(front + block, back);
    total_len_of_sum(front, block);
    parts_are_nonnegative(segments, 0, lo);
    parts_are_nonnegative(segments, lo, hi);
    parts_are_nonnegative(segments, hi, segments.len() as int);
    assert(segments.subrange(0, lo) =~= front);
    assert(segments.subrange(hi, segments.len() as int) =~= back);
}

/// Consecutive segments hold no negative number of bytes.
pub proof fn parts_are_nonnegative(segments: Seq<Segment>, lo: int, hi: int)
    requires
        segments_ok(segments),
        0 <= lo <= hi <= segments.len(),
    ensures
        total_len(segments.subrange(lo, hi)) >= 0,
    decreases hi - lo,
{
    if lo < hi {
        assert(segments.subrange(lo, hi).drop_last() =~= segments.subrange(lo, hi - 1));
        parts_are_nonnegative(segments, lo, hi - 1);
        assert(segments[hi - 1].start < segments[hi - 1].end_exclusive);
    }
}

/// Whether the segments hold the whole range.
pub(crate) fn range_is_covered(segments: &Vec<Segment>, range: ByteRange) -> (covered: bool)
    requires
        segments_ok(segments@),
    ensures
        covered == covers_all(segments@, range.first(), range.end()),
{
    let mut cursor: u64 = range.start();
    let end: u64 = range.end_exclusive();
    for i in 0..segments.len()
        invariant
            segments_ok(segments@),
            range.first() <= cursor < end,
            end == range.end(),
            covers_all(segments@, range.first(), cursor as int),
            forall|k: int| 0 <= k < i ==> (#[trigger] segments@[k]).end_exclusive <= cursor,
    {
        let segment = segments[i];
        assert(segments@[i as int] == segment);
        if segment.end_exclusive > cursor {
            if segment.start > cursor {
                assert(!covers(segments@, cursor as int)) by {
                    if covers(segments@, cursor as int) {
                        let j = choose|j: int| #[trigger] holds(segments@, j, cursor as int);
                        if j > i {
                            assert(segments@[i as int].end_exclusive < segments@[j].start);
                        } else if j < i {
                            assert(segments@[j].end_exclusive <= cursor);
                        }
                    }
                }
                return false;
            }
            assert forall|offset: int| range.first() <= offset < segment.end_exclusive implies
                #[trigger] covers(segments@, offset) by {
                if offset >= cursor {
                    assert(holds(segments@, i as int, offset));
                }
            }
            cursor = segment.end_exclusive;
            if cursor >= end {
                return true;
            }
        }
    }
    assert(!covers(segments@, cursor as int)) by {
        if covers(segments@, cursor as int) {
            let j = choose|j: int| #[trigger] holds(segments@, j, cursor as int);
            assert(segments@[j].end_exclusive <= cursor);
        }
    }
    false
}

/// Appends the gaps of one wanted range, as far as `max_ranges` admits them.
pub(crate) fn append_uncovered_ranges(
    segments: &Vec<Segment>,
    requested: ByteRange,
    ranges: &mut Vec<ByteRange>,
    max_ranges: usize,
) -> (result: Result<(), SourceError>)
    requires
        segments_ok(segments@),
        old(ranges)@.len() <= max_ranges < usize::MAX,
    ensures
        result is Ok <==> old(ranges)@.len() + gaps(segments@, requested).len() <= max_ranges,
        result is Ok ==> final(ranges)@ == old(ranges)@ + gaps(segments@, requested),
        result matches Err(error) ==> error == source_resource(
            SourceLimitKind::MissingRanges,
            max_ranges as u64,
            (max_ranges + 1) as u64,
        ),
{
    let mut cursor: u64 = requested.start();
    let end: u64 = requested.end_exclusive();
    let ghost before = ranges@;
    let ghost all = gaps(segments@, requested);
    let mut i: usize = 0;
    proof {
        assert(ranges@ + gaps_from(segments@, 0, cursor as int, end as int) =~= before + all);
    }
    while i < segments.len() && cursor < end && segments[i].start < end
        invariant
            segments_ok(segments@),
            i <= segments@.len(),
            end == requested.end(),
            before == old(ranges)@,
            all == gaps(segments@, requested),
            ranges@.len() <= max_ranges < usize::MAX,
            before + all == ranges@ + gaps_from(segments@, i as int, cursor as int, end as int),
        decreases segments@.len() - i,
    {
        let segment = segments[i];
        let ghost rest = gaps_from(segments@, i as int, cursor as int, end as int);
        if segment.end_exclusive > cursor {
            if segment.start > cursor {
                if ranges.len() >= max_ranges {
                    assert(rest.len() >= 1);
                    assert((before + all).len() == ranges@.len() + rest.len());
                    return Err(
                        SourceError::resource(
                            SourceLimitKind::MissingRanges,
                            max_ranges as u64,
                            ranges.len() as u64 + 1,
                        ),
                    );
                }
                let gap = ByteRange::between(cursor, segment.start);
                let ghost held = ranges@;
                ranges.push(gap);
                proof {
                    let tail = gaps_from(
                        segments@,
                        i + 1,
                        segment.end_exclusive as int,
                        end as int,
                    );
                    assert(rest == seq![gap] + tail);
                    assert(held + rest =~= held.push(gap) + tail);
                }
            }
            cursor = segment.end_exclusive;
        }
        i = i + 1;
    }
    if cursor < end {
        let ghost rest = gaps_from(segments@, i as int, cursor as int, end as int);
        assert(rest == seq![byte_range(cursor as int, end - cursor)]);
        if ranges.len() >= max_ranges {
            assert((before + all).len() == ranges@.len() + rest.len());
            return Err(
                SourceError::resource(
                    SourceLimitKind::MissingRanges,
                    max_ranges as u64,
                    ranges.len() as u64 + 1,
                ),
            );
        }
        let ghost held = ranges@;
        let gap = ByteRange::between(cursor, end);
        ranges.push(gap);
        assert(held + rest =~= ranges@);
    } else {
        assert(ranges@ + gaps_from(segments@, i as int, cursor as int, end as int) =~= ranges@);
    }
    assert((before + all).len() == before.len() + all.len());
    Ok(())
}

/// Whether one wanted range leaves at most `max_ranges` gaps.
pub(crate) fn gaps_within(segments: &Vec<Segment>, requested: ByteRange, max_ranges: usize) -> (within:
    bool)
    requires
        segments_ok(segments@),
        max_ranges < usize::MAX,
    ensures
        within == (gaps(segments@, requested).len() <= max_ranges),
{
    let mut cursor: u64 = requested.start();
    let end: u64 = requested.end_exclusive();
    let ghost all = gaps(segments@, requested).len();
    let mut count: usize = 0;
    let mut i: usize = 0;
    while i < segments.len() && cursor < end && segments[i].start < end
        invariant
            segments_ok(segments@),
            i <= segments@.len(),
            end == requested.end(),
            all == gaps(segments@, requested).len(),
            count <= max_ranges < usize::MAX,
            all == count + gaps_from(segments@, i as int, cursor as int, end as int).len(),
        decreases segments@.len() - i,
    {
        let segment = segments[i];
        if segment.end_exclusive > cursor {
            if segment.start > cursor {
                if count >= max_ranges {
                    return false;
                }
                count = count + 1;
            }
            cursor = segment.end_exclusive;
        }
        i = i + 1;
    }
    if cursor < end {
        assert(gaps_from(segments@, i as int, cursor as int, end as int).len() == 1);
        return count < max_ranges;
    }
    true
}

/// Whether the gaps of one wanted range are exactly `expected`.
pub(crate) fn gaps_are(segments: &Vec<Segment>, requested: ByteRange, expected: &[ByteRange]) -> (same:
    bool)
    requires
        segments_ok(segments@),
    ensures
        same == (gaps(segments@, requested) == expected@),
{
    let mut cursor: u64 = requested.start();
    let end: u64 = requested.end_exclusive();
    let ghost all = gaps(segments@, requested);
    let mut count: usize = 0;
    let mut i: usize = 0;
    assert(expected@.take(0) + gaps_from(segments@, 0, cursor as int, end as int) =~= all);
    while i < segments.len() && cursor < end && segments[i].start < end
        invariant
            segments_ok(segments@),
            i <= segments@.len(),
            end == requested.end(),
            all == gaps(segments@, requested),
            count <= expected@.len(),
            all == expected@.take(count as int) + gaps_from(
                segments@,
                i as int,
                cursor as int,
                end as int,
            ),
        decreases segments@.len() - i,
    {
        let segment = segments[i];
        let ghost rest = gaps_from(segments@, i as int, cursor as int, end as int);
        if segment.end_exclusive > cursor {
            if segment.start > cursor {
                let gap = ByteRange::between(cursor, segment.start);
                let ghost tail = gaps_from(
                    segments@,
                    i + 1,
                    segment.end_exclusive as int,
                    end as int,
                );
                assert(rest == seq![gap] + tail);
                assert(all[count as int] == gap);
                if count >= expected.len() || expected[count] != gap {
                    return false;
                }
                assert(expected@.take(count + 1) =~= expected@.take(count as int).push(gap));
                assert(all =~= expected@.take(count + 1) + tail);
                count = count + 1;
            }
            cursor = segment.end_exclusive;
        }
        i = i + 1;
    }
    if cursor < end {
        let gap = ByteRange::between(cursor, end);
        assert(gaps_from(segments@, i as int, cursor as int, end as int) == seq![gap]);
        assert(all[count as int] == gap);
        if count >= expected.len() || expected[count] != gap {
            return false;
        }
        assert(expected@.take(count + 1) =~= expected@.take(count as int).push(gap));
        assert(all =~= expected@.take(count + 1));
        count = count + 1;
    } else {
        assert(all =~= expected@.take(count as int));
    }
    assert(count == expected@.len() ==> expected@.take(count as int) =~= expected@);
    count == expected.len()
}

/// Whether `start..end` overlaps or touches some segment.
pub open spec fn touches(segments: Seq<Segment>, start: int, end: int) -> bool {
    exists|i: int|
        0 <= i < segments.len() && (#[trigger] segments[i]).start <= end && start
            <= segments[i].end_exclusive
}

/// The block of segments that `start..end` overlaps or touches.
pub(crate) fn affected_block(segments: &Vec<Segment>, start: u64, end: u64) -> (block: (
    usize,
    usize,
))
    requires
        segments_ok(segments@),
        start < end,
    ensures
        block.0 == first_reaching(segments@, start as int, 0),
        block.1 == first_beyond(segments@, end as int, block.0 as int),
        block.0 <= block.1 <= segments@.len(),
        block.0 < block.1 <==> touches(segments@, start as int, end as int),
{
    proof {
        let (lo, hi) = join_block(segments@, start, end);
        if lo < hi {
            assert(segments@[lo].start <= end && start <= segments@[lo].end_exclusive);
        }
    }
    let mut lo: usize = 0;
    while lo < segments.len() && segments[lo].end_exclusive < start
        invariant
            lo <= segments@.len(),
            first_reaching(segments@, start as int, 0) == first_reaching(
                segments@,
                start as int,
                lo as int,
            ),
        decreases segments@.len() - lo,
    {
        lo = lo + 1;
    }
    let mut hi: usize = lo;
    while hi < segments.len() && segments[hi].start <= end
        invariant
            lo <= hi <= segments@.len(),
            first_beyond(segments@, end as int, lo as int) == first_beyond(
                segments@,
                end as int,
                hi as int,
            ),
        decreases segments@.len() - hi,
    {
        hi = hi + 1;
    }
    (lo, hi)
}

} // verus!

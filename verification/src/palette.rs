//! Gradient palettes defined by color stops along `[0, 1]`.
//!
//! Positions and color channels are single-precision values held as their
//! IEEE-754 bit patterns (see `float_bits`); interpolating between two stops
//! is left to the caller, which owns the floating-point arithmetic.
use vstd::prelude::*;
use vstd::string::*;

use crate::float_bits::{
    clamp_unit, f32_clamp_unit, f32_is_nan, f32_le, f32_less_eq, f32_order_key, is_nan_bits,
    order_key,
};

verus! {

broadcast use vstd::seq_lib::group_to_multiset_ensures;

/// A color stop: a position along the gradient and an RGB color, each a
/// single-precision value given by its bits.
#[derive(Clone, Copy, Debug)]
pub struct ColorStop {
    /// Position along the gradient (nominally 0.0 to 1.0).
    pub position: u32,
    /// Red, green and blue channels.
    pub color: [u32; 3],
}

/// A named gradient palette.
#[derive(Debug)]
pub struct Palette {
    pub name: String,
    pub stops: Vec<ColorStop>,
}

/// What a sample of the gradient at some position is made of.
#[derive(Clone, Copy, Debug, PartialEq, Eq, Structural)]
pub enum GradientSample {
    /// The palette has no stops: the sample is black.
    Black,
    /// The sample is exactly the color of the stop at this index.
    Stop(usize),
    /// The sample lies between the stop at this index and the next one and
    /// is interpolated linearly between their colors.
    Between(usize),
}

/// The order key of a stop's position.
pub open spec fn stop_key(s: ColorStop) -> int {
    f32_order_key(s.position)
}

/// Stops in non-decreasing order of position.
pub open spec fn stops_ordered(s: Seq<ColorStop>) -> bool {
    forall|i: int, j: int| 0 <= i <= j < s.len() ==> stop_key(s[i]) <= stop_key(s[j])
}

/// Sorting compares positions pairwise, and a NaN position cannot be compared:
/// a list of two or more stops can be sorted only when no position is NaN.
pub open spec fn stops_sortable(s: Seq<ColorStop>) -> bool {
    s.len() < 2 || forall|i: int| 0 <= i < s.len() ==> !f32_is_nan(#[trigger] s[i].position)
}

/// Inserts `x` into `sorted` after the last stop whose position is not
/// greater than that of `x` (so that stops of equal position keep their order).
pub open spec fn insert_stop(sorted: Seq<ColorStop>, x: ColorStop) -> Seq<ColorStop>
    decreases sorted.len(),
{
    if sorted.len() == 0 || stop_key(sorted.last()) <= stop_key(x) {
        sorted.push(x)
    } else {
        insert_stop(sorted.drop_last(), x).push(sorted.last())
    }
}

/// The stable sort of stops by position.
pub open spec fn sorted_stops(s: Seq<ColorStop>) -> Seq<ColorStop>
    decreases s.len(),
{
    if s.len() == 0 {
        s
    } else {
        insert_stop(sorted_stops(s.drop_last()), s.last())
    }
}

/// A stop at `position` (clamped to `[0, 1]`) with the given color.
pub open spec fn clamped_stop(position: u32, color: [u32; 3]) -> ColorStop {
    ColorStop { position: f32_clamp_unit(position), color }
}

/// The sample at `t` lies on the segment between stops `i` and `i + 1`.
pub open spec fn on_segment(s: Seq<ColorStop>, i: int, t: u32) -> bool {
    f32_le(s[i].position, t) && f32_le(t, s[i + 1].position)
}

/// The first segment, at index `i` or later, on which `t` lies.
pub open spec fn first_segment_from(s: Seq<ColorStop>, t: u32, i: int) -> Option<int>
    decreases s.len() - i,
{
    if i < 0 || i + 1 >= s.len() {
        None
    } else if on_segment(s, i, t) {
        Some(i)
    } else {
        first_segment_from(s, t, i + 1)
    }
}

/// What sampling the gradient at `t` (clamped to `[0, 1]`) gives: black
/// without stops, the only stop's color with one, the first or last stop's
/// color at or beyond the ends, otherwise the first segment containing `t`,
/// and the last stop's color when no segment contains it.
pub open spec fn gradient_sample(s: Seq<ColorStop>, t: u32) -> GradientSample {
    let t = f32_clamp_unit(t);
    if s.len() == 0 {
        GradientSample::Black
    } else if s.len() == 1 {
        GradientSample::Stop(0)
    } else if f32_le(t, s[0].position) {
        GradientSample::Stop(0)
    } else if f32_le(s.last().position, t) {
        GradientSample::Stop((s.len() - 1) as usize)
    } else {
        match first_segment_from(s, t, 0) {
            Some(i) => GradientSample::Between(i as usize),
            None => GradientSample::Stop((s.len() - 1) as usize),
        }
    }
}

/// Inserting into a bounded list keeps every key within the bound.
proof fn lemma_insert_stop_bounded(t: Seq<ColorStop>, x: ColorStop, m: int)
    requires
        forall|i: int| 0 <= i < t.len() ==> stop_key(#[trigger] t[i]) <= m,
        stop_key(x) <= m,
    ensures
        forall|i: int|
            0 <= i < insert_stop(t, x).len() ==> stop_key(#[trigger] insert_stop(t, x)[i]) <= m,
        insert_stop(t, x).len() == t.len() + 1,
    decreases t.len(),
{
    if t.len() == 0 || stop_key(t.last()) <= stop_key(x) {
    } else {
        let t0 = t.drop_last();
        lemma_insert_stop_bounded(t0, x, m);
        let r0 = insert_stop(t0, x);
        assert forall|i: int| 0 <= i < insert_stop(t, x).len() implies stop_key(
            #[trigger] insert_stop(t, x)[i],
        ) <= m by {
            if i < r0.len() {
                assert(insert_stop(t, x)[i] == r0[i]);
            }
        }
    }
}

/// Inserting into an ordered list keeps it ordered.
proof fn lemma_insert_stop_ordered(t: Seq<ColorStop>, x: ColorStop)
    requires
        stops_ordered(t),
    ensures
        stops_ordered(insert_stop(t, x)),
        insert_stop(t, x).len() == t.len() + 1,
    decreases t.len(),
{
    if t.len() == 0 || stop_key(t.last()) <= stop_key(x) {
        let r = t.push(x);
        assert forall|i: int, j: int| 0 <= i <= j < r.len() implies stop_key(r[i]) <= stop_key(
            r[j],
        ) by {
            if j == t.len() as int && t.len() > 0 {
                assert(stop_key(t[i]) <= stop_key(t.last()) || i == t.len() as int);
            }
        }
    } else {
        let t0 = t.drop_last();
        let last = t.last();
        assert(stops_ordered(t0));
        lemma_insert_stop_ordered(t0, x);
        lemma_insert_stop_bounded(t0, x, stop_key(last));
        let r0 = insert_stop(t0, x);
        let r = r0.push(last);
        assert(r == insert_stop(t, x));
        assert forall|i: int, j: int| 0 <= i <= j < r.len() implies stop_key(r[i]) <= stop_key(
            r[j],
        ) by {
            if j < r0.len() {
                assert(r[i] == r0[i] && r[j] == r0[j]);
            } else if i < r0.len() {
                assert(r[i] == r0[i]);
            }
        }
    }
}

/// Inserting adds exactly the one stop.
proof fn lemma_insert_stop_multiset(t: Seq<ColorStop>, x: ColorStop)
    ensures
        insert_stop(t, x).to_multiset() =~= t.to_multiset().insert(x),
    decreases t.len(),
{
    if t.len() == 0 || stop_key(t.last()) <= stop_key(x) {
    } else {
        let t0 = t.drop_last();
        lemma_insert_stop_multiset(t0, x);
        assert(t0.push(t.last()) == t);
    }
}

/// The stable sort orders the stops and keeps each of them, and only them.
pub proof fn lemma_sorted_stops(s: Seq<ColorStop>)
    ensures
        stops_ordered(sorted_stops(s)),
        sorted_stops(s).to_multiset() =~= s.to_multiset(),
        sorted_stops(s).len() == s.len(),
    decreases s.len(),
{
    if s.len() > 0 {
        let s0 = s.drop_last();
        lemma_sorted_stops(s0);
        lemma_insert_stop_ordered(sorted_stops(s0), s.last());
        lemma_insert_stop_multiset(sorted_stops(s0), s.last());
        assert(s0.push(s.last()) == s);
    }
}

/// Sorting stops that are already in order changes nothing.
pub proof fn lemma_sorted_stops_of_ordered(s: Seq<ColorStop>)
    requires
        stops_ordered(s),
    ensures
        sorted_stops(s) == s,
    decreases s.len(),
{
    if s.len() > 0 {
        let s0 = s.drop_last();
        assert(stops_ordered(s0));
        lemma_sorted_stops_of_ordered(s0);
        if s0.len() > 0 {
            assert(stop_key(s0.last()) <= stop_key(s.last()));
        }
        assert(s0.push(s.last()) == s);
    }
}

/// Sorts stops by position, keeping stops of equal position in their order.
pub(crate) fn sort_stops(stops: &mut Vec<ColorStop>)
    ensures
        final(stops)@ == sorted_stops(old(stops)@),
{
    let n = stops.len();
    let ghost orig = stops@;
    let mut i: usize = 0;
    assert(orig.subrange(0, 0) =~= Seq::<ColorStop>::empty());
    while i < n
        invariant
            n == stops@.len(),
            n == orig.len(),
            0 <= i <= n,
            stops@.subrange(0, i as int) == sorted_stops(orig.subrange(0, i as int)),
            stops@.subrange(i as int, n as int) == orig.subrange(i as int, n as int),
        decreases n - i,
    {
        let ghost prefix = stops@.subrange(0, i as int);
        let ghost x = orig[i as int];
        proof {
            assert(orig.subrange(0, i + 1).drop_last() =~= orig.subrange(0, i as int));
            assert(orig.subrange(0, i + 1).last() == x);
            assert(stops@[i as int] == stops@.subrange(i as int, n as int)[0]);
            assert(prefix.subrange(0, i as int) =~= prefix);
            assert(prefix.subrange(i as int, i as int) =~= Seq::<ColorStop>::empty());
            assert(insert_stop(prefix, x) =~= insert_stop(prefix.subrange(0, i as int), x)
                + prefix.subrange(i as int, i as int));
            assert(stops@.subrange(i + 1, i + 1) =~= prefix.subrange(i as int, i as int));
            assert forall|k: int| i + 1 <= k < n implies stops@[k] == orig[k] by {
                assert(stops@[k] == stops@.subrange(i as int, n as int)[k - i]);
                assert(orig[k] == orig.subrange(i as int, n as int)[k - i]);
            }
            assert(stops@.subrange(i + 1, n as int) =~= orig.subrange(i + 1, n as int));
        }
        let mut j: usize = i;
        while j > 0 && order_key(stops[j - 1].position) > order_key(stops[j].position)
            invariant
                stops@.len() == n,
                n == orig.len(),
                0 <= j <= i < n,
                prefix.len() == i,
                stops@.subrange(0, j as int) == prefix.subrange(0, j as int),
                stops@[j as int] == x,
                stops@.subrange(j + 1, i + 1) == prefix.subrange(j as int, i as int),
                stops@.subrange(i + 1, n as int) == orig.subrange(i + 1, n as int),
                insert_stop(prefix, x) == insert_stop(prefix.subrange(0, j as int), x)
                    + prefix.subrange(j as int, i as int),
            decreases j,
        {
            let a = stops[j - 1];
            let b = stops[j];
            let ghost before = stops@;
            proof {
                let p = prefix.subrange(0, j as int);
                assert(a == p[j - 1]);
                assert(b == x);
                assert(p.drop_last() =~= prefix.subrange(0, j - 1));
                assert(stop_key(p.last()) > stop_key(x));
                assert(insert_stop(p, x) == insert_stop(prefix.subrange(0, j - 1), x).push(
                    p.last(),
                ));
                assert(prefix.subrange(j - 1, i as int) =~= seq![p.last()] + prefix.subrange(
                    j as int,
                    i as int,
                ));
                assert(insert_stop(prefix, x) =~= insert_stop(prefix.subrange(0, j - 1), x)
                    + prefix.subrange(j - 1, i as int));
            }
            stops.set(j - 1, b);
            stops.set(j, a);
            proof {
                assert(forall|k: int| i + 1 <= k < n ==> stops@[k] == before[k]);
                assert(stops@.subrange(i + 1, n as int) =~= before.subrange(i + 1, n as int));
                assert(stops@.subrange(0, j - 1) =~= prefix.subrange(0, j - 1));
                assert(stops@.subrange(j as int, i + 1) =~= prefix.subrange(j - 1, i as int));
                assert(stops@.subrange(i + 1, n as int) =~= orig.subrange(i + 1, n as int));
            }
            j = j - 1;
        }
        proof {
            let p = prefix.subrange(0, j as int);
            if j > 0 {
                assert(p.last() == stops@[j - 1]);
            }
            assert(insert_stop(p, x) == p.push(x));
            assert(stops@.subrange(0, i + 1) =~= p.push(x) + prefix.subrange(j as int, i as int));
            assert(stops@.subrange(i + 1, n as int) =~= orig.subrange(i + 1, n as int));
        }
        i = i + 1;
    }
    assert(orig.subrange(0, n as int) =~= orig);
    assert(stops@.subrange(0, n as int) =~= stops@);
}

impl Clone for Palette {
    fn clone(&self) -> (r: Self)
        ensures
            r.name@ == self.name@,
            r.stops@ == self.stops@,
    {
        let mut stops: Vec<ColorStop> = Vec::new();
        let mut i: usize = 0;
        while i < self.stops.len()
            invariant
                0 <= i <= self.stops@.len(),
                stops@ == self.stops@.subrange(0, i as int),
            decreases self.stops@.len() - i,
        {
            stops.push(self.stops[i]);
            i = i + 1;
            assert(stops@ =~= self.stops@.subrange(0, i as int));
        }
        assert(self.stops@.subrange(0, self.stops@.len() as int) =~= self.stops@);
        Palette { name: self.name.clone(), stops }
    }
}

impl Palette {
    /// Creates a palette with the given name; its stops are sorted by position.
    pub fn new(name: &str, stops: Vec<ColorStop>) -> (p: Palette)
        requires
            stops_sortable(stops@),
        ensures
            p.name@ == name@,
            p.stops@ == sorted_stops(stops@),
            stops_ordered(p.stops@),
            p.stops@.to_multiset() =~= stops@.to_multiset(),
    {
        proof {
            lemma_sorted_stops(stops@);
        }
        let mut stops = stops;
        sort_stops(&mut stops);
        Palette { name: String::from_str(name), stops }
    }

    /// Which stops the color at `t` (clamped to `[0, 1]`) is taken from.
    pub fn sample_source(&self, t: u32) -> (r: GradientSample)
        ensures
            r == gradient_sample(self.stops@, t),
            r matches GradientSample::Stop(i) ==> i < self.stops@.len(),
            r matches GradientSample::Between(i) ==> i + 1 < self.stops@.len() && on_segment(
                self.stops@,
                i as int,
                f32_clamp_unit(t),
            ),
    {
        let tc = clamp_unit(t);
        let n = self.stops.len();
        if n == 0 {
            return GradientSample::Black;
        }
        if n == 1 {
            return GradientSample::Stop(0);
        }
        if f32_less_eq(tc, self.stops[0].position) {
            return GradientSample::Stop(0);
        }
        if f32_less_eq(self.stops[n - 1].position, tc) {
            return GradientSample::Stop(n - 1);
        }
        let mut i: usize = 0;
        while i < n - 1
            invariant
                n == self.stops@.len(),
                n >= 2,
                0 <= i <= n - 1,
                tc == f32_clamp_unit(t),
                !f32_le(tc, self.stops@[0].position),
                !f32_le(self.stops@.last().position, tc),
                first_segment_from(self.stops@, tc, 0) == first_segment_from(
                    self.stops@,
                    tc,
                    i as int,
                ),
            decreases n - 1 - i,
        {
            if f32_less_eq(self.stops[i].position, tc) && f32_less_eq(
                tc,
                self.stops[i + 1].position,
            ) {
                return GradientSample::Between(i);
            }
            i = i + 1;
        }
        GradientSample::Stop(n - 1)
    }

    /// Adds a stop at `position` (clamped to `[0, 1]`) and re-sorts the stops.
    pub fn add_stop(&mut self, position: u32, color: [u32; 3])
        requires
            stops_sortable(old(self).stops@.push(clamped_stop(position, color))),
        ensures
            final(self).name@ == old(self).name@,
            final(self).stops@ == sorted_stops(old(self).stops@.push(clamped_stop(position, color))),
            stops_ordered(final(self).stops@),
            final(self).stops@.len() == old(self).stops@.len() + 1,
    {
        proof {
            lemma_sorted_stops(old(self).stops@.push(clamped_stop(position, color)));
        }
        self.stops.push(ColorStop { position: clamp_unit(position), color });
        sort_stops(&mut self.stops);
    }

    /// Removes the stop at `index`, unless that would leave fewer than two
    /// stops or the index is out of range; returns whether it removed one.
    pub fn remove_stop(&mut self, index: usize) -> (removed: bool)
        ensures
            removed == (old(self).stops@.len() > 2 && index < old(self).stops@.len()),
            removed ==> final(self).stops@ == old(self).stops@.remove(index as int),
            !removed ==> final(self).stops@ == old(self).stops@,
            final(self).name@ == old(self).name@,
            old(self).stops@.len() >= 2 ==> final(self).stops@.len() >= 2,
    {
        if self.stops.len() <= 2 || index >= self.stops.len() {
            return false;
        }
        self.stops.remove(index);
        true
    }

    /// Moves the stop at `index` to `new_position` (clamped to `[0, 1]`) and
    /// re-sorts the stops; an out-of-range index changes nothing.
    pub fn move_stop(&mut self, index: usize, new_position: u32)
        requires
            index < old(self).stops@.len() ==> stops_sortable(
                old(self).stops@.update(
                    index as int,
                    clamped_stop(new_position, old(self).stops@[index as int].color),
                ),
            ),
        ensures
            final(self).name@ == old(self).name@,
            index < old(self).stops@.len() ==> final(self).stops@ == sorted_stops(
                old(self).stops@.update(
                    index as int,
                    clamped_stop(new_position, old(self).stops@[index as int].color),
                ),
            ),
            index >= old(self).stops@.len() ==> final(self).stops@ == old(self).stops@,
            index < old(self).stops@.len() ==> stops_ordered(final(self).stops@),
            final(self).stops@.len() == old(self).stops@.len(),
    {
        if index < self.stops.len() {
            proof {
                lemma_sorted_stops(
                    self.stops@.update(
                        index as int,
                        clamped_stop(new_position, self.stops@[index as int].color),
                    ),
                );
            }
            let color = self.stops[index].color;
            self.stops.set(index, ColorStop { position: clamp_unit(new_position), color });
            sort_stops(&mut self.stops);
        }
    }

    /// Whether no stop position is NaN.
    pub fn positions_comparable(&self) -> (r: bool)
        ensures
            r == forall|i: int|
                0 <= i < self.stops@.len() ==> !f32_is_nan(#[trigger] self.stops@[i].position),
    {
        let mut i: usize = 0;
        while i < self.stops.len()
            invariant
                0 <= i <= self.stops@.len(),
                forall|k: int| 0 <= k < i ==> !f32_is_nan(#[trigger] self.stops@[k].position),
            decreases self.stops@.len() - i,
        {
            if is_nan_bits(self.stops[i].position) {
                return false;
            }
            i = i + 1;
        }
        true
    }
}

} // verus!

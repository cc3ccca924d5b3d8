//! Nearest-colour search: which entry of a palette a colour is mapped to.

use vstd::prelude::*;
use crate::color::{distance, euclidean_distance, lemma_distance_metric, Color};
use crate::palette::Palette;

verus! {

/// Entry `i` is the nearest to `color` among the first `n` entries of
/// `colors`: none of them is nearer, and every earlier one is strictly
/// farther. Of several entries at the least distance this holds of the
/// first only.
pub open spec fn is_nearest_within(color: Color, colors: Seq<Color>, n: int, i: int) -> bool {
    &&& 0 <= i < n <= colors.len()
    &&& forall|j: int|
        0 <= j < n ==> distance(color, colors[i]) <= #[trigger] distance(color, colors[j])
    &&& forall|j: int|
        0 <= j < i ==> distance(color, colors[i]) < #[trigger] distance(color, colors[j])
}

/// Entry `i` is the nearest to `color` in all of `colors`, ties going to the
/// earliest entry.
pub open spec fn is_nearest_at(color: Color, colors: Seq<Color>, i: int) -> bool {
    is_nearest_within(color, colors, colors.len() as int, i)
}

/// The index of the entry that `color` is mapped to.
pub open spec fn nearest_index(color: Color, colors: Seq<Color>) -> int {
    choose|i: int| is_nearest_at(color, colors, i)
}

/// The entry of `colors` that `color` is mapped to: the first one at the
/// least squared Euclidean distance.
pub open spec fn closest(color: Color, colors: Seq<Color>) -> Color {
    colors[nearest_index(color, colors)]
}

/// Among the first `n` entries there is a nearest one; the lemma returns
/// its index.
pub proof fn lemma_nearest_within_exists(color: Color, colors: Seq<Color>, n: int) -> (i: int)
    requires
        0 < n <= colors.len(),
    ensures
        is_nearest_within(color, colors, n, i),
    decreases n,
{
    if n == 1 {
        0
    } else {
        let before = lemma_nearest_within_exists(color, colors, n - 1);
        if distance(color, colors[n - 1]) < distance(color, colors[before]) {
            n - 1
        } else {
            before
        }
    }
}

/// At most one entry is the nearest among the first `n`.
pub proof fn lemma_nearest_within_unique(
    color: Color,
    colors: Seq<Color>,
    n: int,
    i: int,
    j: int,
)
    requires
        is_nearest_within(color, colors, n, i),
        is_nearest_within(color, colors, n, j),
    ensures
        i == j,
{
    if i < j {
        assert(distance(color, colors[j]) < distance(color, colors[i]));
        assert(distance(color, colors[i]) <= distance(color, colors[j]));
    } else if j < i {
        assert(distance(color, colors[i]) < distance(color, colors[j]));
        assert(distance(color, colors[j]) <= distance(color, colors[i]));
    }
}

/// An index that is the nearest is the one `nearest_index` names.
pub proof fn lemma_nearest_index_is(color: Color, colors: Seq<Color>, i: int)
    requires
        is_nearest_at(color, colors, i),
    ensures
        nearest_index(color, colors) == i,
        closest(color, colors) == colors[i],
{
    let k = nearest_index(color, colors);
    lemma_nearest_within_unique(color, colors, colors.len() as int, i, k);
}

/// In a non-empty list every colour has a nearest entry, and `closest` is
/// that entry.
pub proof fn lemma_closest_is_nearest(color: Color, colors: Seq<Color>)
    requires
        colors.len() > 0,
    ensures
        is_nearest_at(color, colors, nearest_index(color, colors)),
        0 <= nearest_index(color, colors) < colors.len(),
        colors.contains(closest(color, colors)),
{
    let i = lemma_nearest_within_exists(color, colors, colors.len() as int);
    lemma_nearest_index_is(color, colors, i);
}

/// Finds the colour of `palette` closest to `color` under the squared
/// Euclidean distance. The palette is scanned in its stored order, and the
/// first colour at the least distance is returned.
pub fn closest_color(color: Color, palette: &Palette) -> (res: Color)
    ensures
        res == closest(color, palette@.colors),
        is_nearest_at(color, palette@.colors, nearest_index(color, palette@.colors)),
{
    let colors = palette.colors();
    let mut best: Color = colors[0];
    let mut min_distance: u32 = u32::MAX;
    let ghost mut best_index: int = 0;
    let mut i: usize = 0;
    while i < colors.len()
        invariant
            i <= colors@.len(),
            colors@.len() > 0,
            i == 0 ==> min_distance == u32::MAX,
            i > 0 ==> is_nearest_within(color, colors@, i as int, best_index),
            i > 0 ==> best == colors@[best_index],
            i > 0 ==> min_distance == distance(color, best),
        decreases colors@.len() - i,
    {
        let candidate = colors[i];
        let d = euclidean_distance(color, candidate);
        if d < min_distance {
            min_distance = d;
            best = candidate;
            proof {
                best_index = i as int;
            }
        }
        i += 1;
    }
    proof {
        lemma_nearest_index_is(color, colors@, best_index);
    }
    best
}

/// A colour that occurs in the list is mapped to itself, however near the
/// other entries are.
pub proof fn lemma_member_maps_to_itself(color: Color, colors: Seq<Color>)
    requires
        colors.contains(color),
    ensures
        closest(color, colors) == color,
{
    let at = choose|k: int| 0 <= k < colors.len() && colors[k] == color;
    lemma_closest_is_nearest(color, colors);
    let i = nearest_index(color, colors);
    lemma_distance_metric(color, colors[at]);
    lemma_distance_metric(color, colors[i]);
    assert(distance(color, colors[i]) <= distance(color, colors[at]));
}

/// Of a palette of the two colours `a` and `b`, in either order, `a` is
/// mapped to `a`.
pub proof fn lemma_exact_match_wins(a: Color, b: Color)
    ensures
        closest(a, seq![a, b]) == a,
        closest(a, seq![b, a]) == a,
{
    lemma_member_maps_to_itself(a, seq![a, b]);
    lemma_member_maps_to_itself(a, seq![b, a]);
}

/// An entry is never chosen when an earlier entry is as near: `closest`
/// settles ties by the stored order.
pub proof fn lemma_earlier_entry_wins_ties(color: Color, colors: Seq<Color>, i: int, j: int)
    requires
        0 <= i < j < colors.len(),
        distance(color, colors[i]) == distance(color, colors[j]),
    ensures
        nearest_index(color, colors) != j,
{
    lemma_closest_is_nearest(color, colors);
    if nearest_index(color, colors) == j {
        assert(distance(color, colors[j]) < distance(color, colors[i]));
    }
}

/// With a palette of two colours at the same distance from `color`, the one
/// stored first is returned.
pub proof fn lemma_tie_goes_to_first(color: Color, first: Color, second: Color)
    requires
        distance(color, first) == distance(color, second),
    ensures
        closest(color, seq![first, second]) == first,
{
    let colors = seq![first, second];
    lemma_closest_is_nearest(color, colors);
    lemma_earlier_entry_wins_ties(color, colors, 0, 1);
}

} // verus!

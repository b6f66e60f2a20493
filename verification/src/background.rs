use vstd::prelude::*;
use std::collections::HashSet;

verus! {

broadcast use vstd::std_specs::hash::group_hash_axioms;

/// Whether a grid cell lies in the rectangle `[xlow, xhi] x [ylow, yhi]`.
pub open spec fn in_rect(cell: (i64, i64), xlow: i64, xhi: i64, ylow: i64, yhi: i64) -> bool {
    xlow <= cell.0 <= xhi && ylow <= cell.1 <= yhi
}

/// The largest first (`first == true`) or second coordinate among `cells`,
/// or `low` when there are none.
pub open spec fn max_coord(cells: Seq<(i64, i64)>, first: bool, low: i64) -> i64
    decreases cells.len(),
{
    if cells.len() == 0 {
        low
    } else {
        let rest = max_coord(cells.drop_last(), first, low);
        let c = if first {
            cells.last().0
        } else {
            cells.last().1
        };
        if cells.len() == 1 || c > rest {
            c
        } else {
            rest
        }
    }
}

/// The cells recorded after a sweep over `cells` from `regions`: those
/// recorded or walked, inside the rectangle from (`xlow`, `ylow`) to the
/// largest coordinates walked.
pub open spec fn swept_regions(regions: Set<(i64, i64)>, cells: Seq<(i64, i64)>, xlow: i64, ylow: i64) -> Set<(i64, i64)> {
    Set::new(
        |c: (i64, i64)|
            (regions.contains(c) || cells.contains(c)) && in_rect(
                c,
                xlow,
                max_coord(cells, true, xlow),
                ylow,
                max_coord(cells, false, ylow),
            ),
    )
}

/// Every walked cell is at most the largest coordinate walked.
pub proof fn lemma_max_coord_bounds(cells: Seq<(i64, i64)>, low: i64, k: int)
    requires
        0 <= k < cells.len(),
    ensures
        cells[k].0 <= max_coord(cells, true, low),
        cells[k].1 <= max_coord(cells, false, low),
    decreases cells.len(),
{
    if k < cells.len() - 1 {
        lemma_max_coord_bounds(cells.drop_last(), low, k);
        assert(cells.drop_last()[k] == cells[k]);
    }
}

/// Some walked cell attains the largest coordinate walked, on either axis:
/// the rectangle kept by a sweep reaches no further than the walk.
pub proof fn lemma_max_coord_attained(cells: Seq<(i64, i64)>, low: i64)
    requires
        cells.len() > 0,
    ensures
        exists|k: int| 0 <= k < cells.len() && #[trigger] cells[k].0 == max_coord(cells, true, low),
        exists|k: int| 0 <= k < cells.len() && #[trigger] cells[k].1 == max_coord(cells, false, low),
    decreases cells.len(),
{
    let n = cells.len() - 1;
    if cells.len() == 1 {
        assert(cells[n].0 == max_coord(cells, true, low));
        assert(cells[n].1 == max_coord(cells, false, low));
    } else {
        let rest = cells.drop_last();
        lemma_max_coord_attained(rest, low);
        let i = choose|k: int| 0 <= k < rest.len() && #[trigger] rest[k].0 == max_coord(rest, true, low);
        let j = choose|k: int| 0 <= k < rest.len() && #[trigger] rest[k].1 == max_coord(rest, false, low);
        assert(rest[i] == cells[i]);
        assert(rest[j] == cells[j]);
        if cells[n].0 > max_coord(rest, true, low) {
            assert(cells[n].0 == max_coord(cells, true, low));
        } else {
            assert(cells[i].0 == max_coord(cells, true, low));
        }
        if cells[n].1 > max_coord(rest, false, low) {
            assert(cells[n].1 == max_coord(cells, false, low));
        } else {
            assert(cells[j].1 == max_coord(cells, false, low));
        }
    }
}

/// The cells a sweep keeps are exactly the recorded or walked cells at or
/// beyond the low corner whose coordinates some walked cell reaches on each
/// axis (with no walk, only the low corner itself): a cell beyond every
/// walked coordinate, above or to the right of the view, is forgotten.
pub proof fn law_sweep_keeps_what_the_walk_reaches(
    regions: Set<(i64, i64)>,
    cells: Seq<(i64, i64)>,
    xlow: i64,
    ylow: i64,
    c: (i64, i64),
)
    ensures
        swept_regions(regions, cells, xlow, ylow).contains(c) <==> (regions.contains(c) || cells.contains(c))
            && xlow <= c.0 && ylow <= c.1 && reached_by_walk(cells, xlow, ylow, c),
{
    if cells.len() > 0 {
        lemma_max_coord_attained(cells, xlow);
        lemma_max_coord_attained(cells, ylow);
        if (exists|k: int| 0 <= k < cells.len() && c.0 <= #[trigger] cells[k].0) {
            let k = choose|k: int| 0 <= k < cells.len() && c.0 <= #[trigger] cells[k].0;
            lemma_max_coord_bounds(cells, xlow, k);
        }
        if (exists|k: int| 0 <= k < cells.len() && c.1 <= #[trigger] cells[k].1) {
            let k = choose|k: int| 0 <= k < cells.len() && c.1 <= #[trigger] cells[k].1;
            lemma_max_coord_bounds(cells, ylow, k);
        }
    }
}

/// Whether some walked cell reaches `c` on each axis (with no walk: `c` is
/// at or below the low corner on both).
pub open spec fn reached_by_walk(cells: Seq<(i64, i64)>, xlow: i64, ylow: i64, c: (i64, i64)) -> bool {
    if cells.len() == 0 {
        c.0 <= xlow && c.1 <= ylow
    } else {
        (exists|k: int| 0 <= k < cells.len() && c.0 <= #[trigger] cells[k].0) && (exists|k: int|
            0 <= k < cells.len() && c.1 <= #[trigger] cells[k].1)
    }
}

/// A sweep keeps no cell outside the rectangle in view, and every walked
/// cell at or beyond the low corner has stars after it: cells in view are
/// never forgotten.
pub proof fn law_sweep_keeps_cells_in_view(regions: Set<(i64, i64)>, cells: Seq<(i64, i64)>, xlow: i64, ylow: i64)
    requires
        forall|k: int| 0 <= k < cells.len() ==> xlow <= #[trigger] cells[k].0 && ylow <= cells[k].1,
    ensures
        forall|c: (i64, i64)|
            #[trigger] swept_regions(regions, cells, xlow, ylow).contains(c) ==> in_rect(
                c,
                xlow,
                max_coord(cells, true, xlow),
                ylow,
                max_coord(cells, false, ylow),
            ),
        forall|k: int| 0 <= k < cells.len() ==> #[trigger] swept_regions(regions, cells, xlow, ylow).contains(cells[k]),
{
    assert forall|k: int| 0 <= k < cells.len() implies #[trigger] swept_regions(regions, cells, xlow, ylow).contains(cells[k]) by {
        lemma_max_coord_bounds(cells, xlow, k);
        lemma_max_coord_bounds(cells, ylow, k);
        assert(cells.contains(cells[k]));
    }
}

/// The cells of a walk that get stars, in the order walked: each cell that
/// is neither recorded in `regions` nor walked before.
pub open spec fn fresh_cells(regions: Set<(i64, i64)>, cells: Seq<(i64, i64)>) -> Seq<(i64, i64)>
    decreases cells.len(),
{
    if cells.len() == 0 {
        Seq::empty()
    } else {
        let earlier = cells.drop_last();
        let rest = fresh_cells(regions, earlier);
        if regions.contains(cells.last()) || earlier.contains(cells.last()) {
            rest
        } else {
            rest.push(cells.last())
        }
    }
}

/// `pos` gives, for each cell of `fresh`, a position where the walk
/// `cells` holds it, the positions rising: the cells of `fresh` come in
/// the order they were walked.
pub open spec fn walk_positions(pos: Seq<int>, fresh: Seq<(i64, i64)>, cells: Seq<(i64, i64)>) -> bool {
    &&& pos.len() == fresh.len()
    &&& forall|a: int| 0 <= a < pos.len() ==> 0 <= #[trigger] pos[a] < cells.len() && cells[pos[a]] == fresh[a]
    &&& forall|a: int, b: int| 0 <= a < b < pos.len() ==> #[trigger] pos[a] < #[trigger] pos[b]
}

/// `2^64` and `2^63`: the weight of a cell's first coordinate in its key,
/// and the offset that makes a coordinate unsigned.
pub open spec fn key_base() -> int {
    0x1_0000_0000_0000_0000
}

pub open spec fn key_offset() -> int {
    0x8000_0000_0000_0000
}

/// The key of a cell: both coordinates shifted to be unsigned, the first
/// in the upper 64 bits and the second in the lower 64 bits.
pub open spec fn cell_key(c: (i64, i64)) -> u128 {
    ((c.0 + key_offset()) * key_base() + (c.1 + key_offset())) as u128
}

/// The cell whose key is `k`.
pub open spec fn key_cell(k: u128) -> (i64, i64) {
    ((k / key_base() as u128 - key_offset()) as i64, (k % key_base() as u128 - key_offset()) as i64)
}

/// A cell is recovered from its key, so distinct cells have distinct keys.
pub proof fn lemma_cell_of_key(c: (i64, i64))
    ensures
        key_cell(cell_key(c)) == c,
{
    let a = c.0 + key_offset();
    let b = c.1 + key_offset();
    assert(0 <= a < key_base() && 0 <= b < key_base());
    assert(0 <= a * key_base() + b <= 0xffff_ffff_ffff_ffff_ffff_ffff_ffff_ffff
        && (a * key_base() + b) / key_base() == a && (a * key_base() + b) % key_base() == b)
        by (nonlinear_arith)
        requires
            0 <= a < 0x1_0000_0000_0000_0000int,
            0 <= b < 0x1_0000_0000_0000_0000int,
            key_base() == 0x1_0000_0000_0000_0000int,
    ;
}

/// The key of a cell, computed.
fn cell_key_of(c: (i64, i64)) -> (k: u128)
    ensures
        k == cell_key(c),
{
    let a: u128 = (c.0 as i128 + 0x8000_0000_0000_0000i128) as u128;
    let b: u128 = (c.1 as i128 + 0x8000_0000_0000_0000i128) as u128;
    assert(a * 0x1_0000_0000_0000_0000u128 + b <= 0xffff_ffff_ffff_ffff_ffff_ffff_ffff_ffffu128) by (nonlinear_arith)
        requires
            a < 0x1_0000_0000_0000_0000u128,
            b < 0x1_0000_0000_0000_0000u128,
    ;
    a * 0x1_0000_0000_0000_0000u128 + b
}

/// The cell of a key, computed.
fn key_cell_of(k: u128) -> (c: (i64, i64))
    ensures
        c == key_cell(k),
{
    let q: u128 = k / 0x1_0000_0000_0000_0000u128;
    let r: u128 = k % 0x1_0000_0000_0000_0000u128;
    ((q as i128 - 0x8000_0000_0000_0000i128) as i64, (r as i128 - 0x8000_0000_0000_0000i128) as i64)
}

/// Keeps track of the unit cells of the sky that already have stars, as the
/// view moves: cells that come into view get stars once, cells that leave it
/// are forgotten (and their stars removed). Cells are held by their keys.
pub struct BackgroundStarSystem {
    generated_regions: HashSet<u128>,
}

impl BackgroundStarSystem {
    /// The cells that have stars.
    pub closed spec fn regions(&self) -> Set<(i64, i64)> {
        Set::new(|c: (i64, i64)| self.generated_regions@.contains(cell_key(c)))
    }

    /// No cell has stars.
    pub fn new() -> (s: Self)
        ensures
            s.regions() == Set::<(i64, i64)>::empty(),
    {
        let s = BackgroundStarSystem { generated_regions: HashSet::new() };
        assert(s.regions() =~= Set::<(i64, i64)>::empty());
        s
    }

    /// Forgets every cell (when no star is left).
    pub fn clear(&mut self)
        ensures
            final(self).regions() == Set::<(i64, i64)>::empty(),
    {
        self.generated_regions.clear();
        assert(self.regions() =~= Set::<(i64, i64)>::empty());
    }

    /// Whether a cell has stars.
    pub fn contains(&self, cell: (i64, i64)) -> (b: bool)
        ensures
            b <==> self.regions().contains(cell),
    {
        let k = cell_key_of(cell);
        self.generated_regions.contains(&k)
    }

    /// One frame of the sky: `cells` are the cells in view, in the order
    /// they are walked. Each cell without stars is recorded and returned, so
    /// that stars are made in it; then every recorded cell outside the
    /// rectangle from (`xlow`, `ylow`) to the largest coordinates walked
    /// is forgotten.
    pub fn sweep(&mut self, xlow: i64, ylow: i64, cells: &Vec<(i64, i64)>) -> (fresh: Vec<(i64, i64)>)
        ensures
            fresh@ == fresh_cells(old(self).regions(), cells@),
            fresh@.no_duplicates(),
            exists|pos: Seq<int>| #[trigger] walk_positions(pos, fresh@, cells@),
            forall|c: (i64, i64)|
                #[trigger] fresh@.contains(c) <==> cells@.contains(c) && !old(self).regions().contains(c),
            final(self).regions() == swept_regions(old(self).regions(), cells@, xlow, ylow),
            forall|c: (i64, i64)|
                #[trigger] final(self).regions().contains(c) <==> (old(self).regions().contains(c)
                    || cells@.contains(c)) && xlow <= c.0 && ylow <= c.1 && reached_by_walk(cells@, xlow, ylow, c),
    {
        let ghost old_regions = self.regions();
        let mut fresh: Vec<(i64, i64)> = Vec::new();
        let ghost mut pos: Seq<int> = Seq::empty();
        let mut xhi: Option<i64> = None;
        let mut yhi: Option<i64> = None;
        let mut i: usize = 0;
        assert(cells@.take(0) =~= Seq::<(i64, i64)>::empty());
        while i < cells.len()
            invariant
                i <= cells.len(),
                forall|c: (i64, i64)|
                    #[trigger] self.generated_regions@.contains(cell_key(c)) <==> old_regions.contains(c)
                        || cells@.take(i as int).contains(c),
                fresh@.no_duplicates(),
                walk_positions(pos, fresh@, cells@),
                forall|a: int| 0 <= a < pos.len() ==> #[trigger] pos[a] < i,
                fresh@ == fresh_cells(old_regions, cells@.take(i as int)),
                forall|c: (i64, i64)|
                    #[trigger] fresh@.contains(c) <==> cells@.take(i as int).contains(c)
                        && !old_regions.contains(c),
                i == 0 ==> xhi is None && yhi is None,
                i > 0 ==> xhi == Some(max_coord(cells@.take(i as int), true, xlow)),
                i > 0 ==> yhi == Some(max_coord(cells@.take(i as int), false, ylow)),
            decreases cells.len() - i,
        {
            let c = cells[i];
            let ghost prev = cells@.take(i as int);
            assert(cells@.take(i + 1) =~= prev.push(c));
            assert(cells@.take(i + 1).drop_last() =~= prev);
            if xhi.is_none() || xhi.unwrap() < c.0 {
                xhi = Some(c.0);
            }
            if yhi.is_none() || yhi.unwrap() < c.1 {
                yhi = Some(c.1);
            }
            let key = cell_key_of(c);
            let ghost keys_before = self.generated_regions@;
            let ghost fresh_before = fresh@;
            let is_new = self.generated_regions.insert(key);
            assert(is_new <==> !(old_regions.contains(c) || prev.contains(c)));
            if is_new {
                fresh.push(c);
                proof {
                    pos = pos.push(i as int);
                }
                assert(fresh@ =~= fresh_before.push(c));
                assert(fresh@.no_duplicates()) by {
                    assert forall|a: int, b: int|
                        0 <= a < b < fresh@.len() implies fresh@[a] != fresh@[b] by {
                        if b == fresh_before.len() {
                            assert(fresh_before.contains(fresh_before[a]));
                        }
                    }
                }
            }
            proof {
                assert forall|d: (i64, i64)|
                    #[trigger] self.generated_regions@.contains(cell_key(d)) <==> old_regions.contains(d)
                        || cells@.take(i + 1).contains(d) by {
                    vstd::seq_lib::lemma_seq_contains_after_push(prev, c, d);
                    lemma_cell_of_key(d);
                    lemma_cell_of_key(c);
                    assert(keys_before.contains(cell_key(d)) <==> old_regions.contains(d) || prev.contains(d));
                }
                assert forall|d: (i64, i64)|
                    #[trigger] fresh@.contains(d) <==> cells@.take(i + 1).contains(d)
                        && !old_regions.contains(d) by {
                    vstd::seq_lib::lemma_seq_contains_after_push(prev, c, d);
                    vstd::seq_lib::lemma_seq_contains_after_push(fresh_before, c, d);
                    assert(fresh_before.contains(d) <==> prev.contains(d) && !old_regions.contains(d));
                    if is_new {
                        assert(fresh@ == fresh_before.push(c));
                    } else {
                        assert(fresh@ == fresh_before);
                    }
                }
                assert(cells@.take(i + 1).last() == c);
                assert(fresh@ == fresh_cells(old_regions, cells@.take(i + 1)));
            }
            i = i + 1;
        }
        assert(cells@.take(cells.len() as int) =~= cells@);
        assert(walk_positions(pos, fresh@, cells@));
        let xh: i64 = match xhi {
            Some(v) => v,
            None => xlow,
        };
        let yh: i64 = match yhi {
            Some(v) => v,
            None => ylow,
        };
        let ghost all = self.generated_regions@;
        let mut kept: HashSet<u128> = HashSet::new();
        for k in it: self.generated_regions.iter()
            invariant
                all == self.generated_regions@,
                it.seq().unref().to_set() == all,
                it.seq().unref().take(it.seq().len() as int) == it.seq().unref(),
                forall|key: u128| #[trigger] all.contains(key) <==> it.seq().unref().contains(key),
                forall|key: u128|
                    #[trigger] kept@.contains(key) <==> it.seq().unref().take(it.index()).contains(key)
                        && in_rect(key_cell(key), xlow, xh, ylow, yh),
            ensures
                forall|key: u128|
                    #[trigger] kept@.contains(key) <==> all.contains(key) && in_rect(key_cell(key), xlow, xh, ylow, yh),
        {
            let ghost seen = it.seq().unref().take(it.index());
            let ghost kept_before = kept@;
            let cell = key_cell_of(*k);
            if xlow <= cell.0 && cell.0 <= xh && ylow <= cell.1 && cell.1 <= yh {
                kept.insert(*k);
            }
            proof {
                assert(it.seq().unref().take(it.index() + 1) =~= seen.push(*k));
                assert forall|key: u128|
                    #[trigger] kept@.contains(key) <==> seen.push(*k).contains(key)
                        && in_rect(key_cell(key), xlow, xh, ylow, yh) by {
                    vstd::seq_lib::lemma_seq_contains_after_push(seen, *k, key);
                }
            }
        }
        self.generated_regions = kept;
        proof {
            assert(xh == max_coord(cells@, true, xlow));
            assert(yh == max_coord(cells@, false, ylow));
            assert forall|c: (i64, i64)|
                self.regions().contains(c) <==> #[trigger] swept_regions(old_regions, cells@, xlow, ylow).contains(c) by {
                lemma_cell_of_key(c);
                assert(swept_regions(old_regions, cells@, xlow, ylow).contains(c) == ((old_regions.contains(c)
                    || cells@.contains(c)) && in_rect(c, xlow, xh, ylow, yh)));
                assert(self.regions().contains(c) <==> self.generated_regions@.contains(cell_key(c)));
            }
            assert(self.regions() =~= swept_regions(old_regions, cells@, xlow, ylow));
            assert forall|c: (i64, i64)|
                #[trigger] self.regions().contains(c) <==> (old_regions.contains(c) || cells@.contains(c))
                    && xlow <= c.0 && ylow <= c.1 && reached_by_walk(cells@, xlow, ylow, c) by {
                law_sweep_keeps_what_the_walk_reaches(old_regions, cells@, xlow, ylow, c);
            }
        }
        fresh
    }
}

impl Default for BackgroundStarSystem {
    /// No cell has stars.
    fn default() -> (s: Self)
        ensures
            s.regions() == Set::<(i64, i64)>::empty(),
    {
        BackgroundStarSystem::new()
    }
}

} // verus!

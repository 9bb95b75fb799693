use vstd::prelude::*;
use super::attributes::{SpriteAttributes, decode_sprite};
use super::fifo::sprite_fetcher::MAX_SPRITES_PER_LINE;

verus! {

broadcast use vstd::seq_lib::group_to_multiset_ensures;

/// Whether the OAM entry whose bottom right corner is at (`end_x`, `end_y`) (screen
/// coordinates plus 8 and 16) shows on line `ly`.
pub open spec fn sprite_on_line(ly: u8, end_y: u8, end_x: u8, height: u8) -> bool {
    &&& 0 < end_x < 168
    &&& end_y <= ly + 16 < end_y + height
}

/// Whether OAM entry `i` shows on line `ly`.
pub open spec fn entry_on_line(oam: Seq<u8>, ly: u8, height: u8, i: int) -> bool {
    sprite_on_line(ly, oam[4 * i], oam[4 * i + 1], height)
}

/// Whether two objects at these x positions share a column.
pub open spec fn overlaps(entry_x: u8, x: u8) -> bool {
    entry_x < x + 8 && x < entry_x + 8
}

/// An earlier object of the line after an object at `x` joins it: on the DMG the earlier
/// one keeps priority, so an overlapping later object to its left hides its left columns.
pub open spec fn adjust_earlier(entry: SpriteAttributes, x: u8, cgb_priority: bool) -> SpriteAttributes {
    if overlaps(entry.x, x) && x < entry.x && !cgb_priority {
        let hidden = (8 - (entry.x - x)) as u8;
        SpriteAttributes {
            visibility_start: if hidden > entry.visibility_start { hidden } else { entry.visibility_start },
            ..entry
        }
    } else {
        entry
    }
}

/// The first visible column of an object at `x`, given the first `k` objects already on
/// the line: those it overlaps from the right hide its left columns, one at the same x
/// hides all of it.
pub open spec fn start_after(entries: Seq<SpriteAttributes>, x: u8, k: int) -> u8
    decreases k,
{
    if k <= 0 {
        0
    } else {
        let s = start_after(entries, x, k - 1);
        let e = entries[k - 1];
        if overlaps(e.x, x) && x > e.x {
            let hidden = (8 - (x - e.x)) as u8;
            if hidden > s { hidden } else { s }
        } else if overlaps(e.x, x) && x == e.x {
            8
        } else {
            s
        }
    }
}

/// The column after the last visible one of an object at `x`, given the first `k` objects:
/// under CGB priority the earlier objects it overlaps from the left hide its right columns.
pub open spec fn end_after(entries: Seq<SpriteAttributes>, x: u8, cgb_priority: bool, k: int) -> u8
    decreases k,
{
    if k <= 0 {
        8
    } else {
        let en = end_after(entries, x, cgb_priority, k - 1);
        let e = entries[k - 1];
        if overlaps(e.x, x) && x < e.x && cgb_priority {
            let shown = (e.x - x) as u8;
            if shown < en { shown } else { en }
        } else {
            en
        }
    }
}

/// The object an OAM entry adds to the line: its visible columns also stop at the screen's
/// left and right edges.
pub open spec fn new_entry(
    entries: Seq<SpriteAttributes>,
    end_y: u8,
    x: u8,
    tile_number: u8,
    attributes: u8,
    cgb_priority: bool,
) -> SpriteAttributes {
    let s = start_after(entries, x, entries.len() as int);
    let e = end_after(entries, x, cgb_priority, entries.len() as int);
    let start = if x < 8 && (8 - x) as u8 > s { (8 - x) as u8 } else { s };
    let end = if x >= 8 && x > 160 && ((8 - (x - 160)) as u8) < e { (8 - (x - 160)) as u8 } else { e };
    decode_sprite(end_y, x, tile_number, attributes, start, end)
}

/// The objects of line `ly` after scanning the first `n` OAM entries, starting from `init`:
/// each visible entry is added (at most 10 in all) and adjusts the ones before it.
pub open spec fn selected(
    oam: Seq<u8>,
    ly: u8,
    height: u8,
    cgb_priority: bool,
    init: Seq<SpriteAttributes>,
    n: int,
) -> Seq<SpriteAttributes>
    decreases n,
{
    if n <= 0 {
        init
    } else {
        let prev = selected(oam, ly, height, cgb_priority, init, n - 1);
        let a = 4 * (n - 1);
        if prev.len() >= MAX_SPRITES_PER_LINE {
            prev
        } else if sprite_on_line(ly, oam[a], oam[a + 1], height) {
            prev.map_values(|e: SpriteAttributes| adjust_earlier(e, oam[a + 1], cgb_priority)).push(
                new_entry(prev, oam[a], oam[a + 1], oam[a + 2], oam[a + 3], cgb_priority),
            )
        } else {
            prev
        }
    }
}

/// The objects are in order of x.
pub open spec fn sorted_by_x(entries: Seq<SpriteAttributes>) -> bool {
    forall|i: int, j: int| 0 <= i < j < entries.len() ==> entries[i].x <= entries[j].x
}

/// Once the line is full, later OAM entries change nothing.
pub proof fn lemma_selected_full(
    oam: Seq<u8>,
    ly: u8,
    height: u8,
    cgb_priority: bool,
    init: Seq<SpriteAttributes>,
    n: int,
    m: int,
)
    requires
        0 <= n <= m,
        selected(oam, ly, height, cgb_priority, init, n).len() >= MAX_SPRITES_PER_LINE,
    ensures
        selected(oam, ly, height, cgb_priority, init, m) == selected(oam, ly, height, cgb_priority, init, n),
    decreases m - n,
{
    if m > n {
        lemma_selected_full(oam, ly, height, cgb_priority, init, n, m - 1);
    }
}

/// Adds an object to the line's `len` objects (see `selected`).
pub fn add_line_sprite(
    entries: &mut [SpriteAttributes; MAX_SPRITES_PER_LINE],
    len: usize,
    end_y: u8,
    end_x: u8,
    tile_number: u8,
    attributes: u8,
    cgb_priority: bool,
)
    requires
        len < MAX_SPRITES_PER_LINE,
        0 < end_x < 168,
        forall|k: int| 0 <= k < len ==> old(entries)@[k].x <= 247,
    ensures
        ({
            let prev = old(entries)@.subrange(0, len as int);
            final(entries)@.subrange(0, len + 1) == prev.map_values(
                |e: SpriteAttributes| adjust_earlier(e, end_x, cgb_priority),
            ).push(new_entry(prev, end_y, end_x, tile_number, attributes, cgb_priority))
        }),
        forall|k: int| 0 <= k <= len ==> final(entries)@[k].x <= 247,
{
    let ghost prev = entries@.subrange(0, len as int);
    let mut vis_start: u8 = 0;
    let mut vis_end: u8 = 8;
    let mut i: usize = 0;
    while i < len
        invariant
            len < MAX_SPRITES_PER_LINE,
            prev == old(entries)@.subrange(0, len as int),
            i <= len,
            0 < end_x < 168,
            forall|k: int| 0 <= k < len ==> prev[k].x <= 247,
            forall|k: int| 0 <= k < i ==> entries@[k] == adjust_earlier(prev[k], end_x, cgb_priority),
            forall|k: int| i <= k < len ==> entries@[k] == prev[k],
            vis_start == start_after(prev, end_x, i as int),
            vis_end == end_after(prev, end_x, cgb_priority, i as int),
            vis_start <= 8,
            vis_end <= 8,
        decreases len - i,
    {
        let mut entry = entries[i];
        // The two objects share a column.
        if entry.x < end_x + 8 && entry.x + 8 > end_x {
            if end_x < entry.x {
                if cgb_priority {
                    let shown = entry.x - end_x;
                    vis_end = if shown < vis_end { shown } else { vis_end };
                } else {
                    let hidden = 8 - (entry.x - end_x);
                    entry.visibility_start = if hidden > entry.visibility_start {
                        hidden
                    } else {
                        entry.visibility_start
                    };
                }
            } else if end_x > entry.x {
                let hidden = 8 - (end_x - entry.x);
                vis_start = if hidden > vis_start { hidden } else { vis_start };
            } else {
                vis_start = 8;
            }
        }
        entries[i] = entry;
        i = i + 1;
    }
    // The screen's edges hide the columns outside it.
    if end_x < 8 {
        let hidden = 8 - end_x;
        vis_start = if hidden > vis_start { hidden } else { vis_start };
    } else if end_x > 160 {
        let shown = 8 - (end_x - 160);
        vis_end = if shown < vis_end { shown } else { vis_end };
    }
    let new_sprite = SpriteAttributes::new(end_y, end_x, tile_number, attributes, vis_start, vis_end);
    entries[len] = new_sprite;
    proof {
        assert(new_sprite == new_entry(prev, end_y, end_x, tile_number, attributes, cgb_priority));
        assert(entries@.subrange(0, len + 1) =~= prev.map_values(
            |e: SpriteAttributes| adjust_earlier(e, end_x, cgb_priority),
        ).push(new_entry(prev, end_y, end_x, tile_number, attributes, cgb_priority)));
    }
}

/// A line holds at most 10 objects, and each object the OAM adds to it shows on the line;
/// earlier objects keep their place and position.
pub proof fn lemma_selected_on_line(
    oam: Seq<u8>,
    ly: u8,
    height: u8,
    cgb_priority: bool,
    init: Seq<SpriteAttributes>,
    n: int,
)
    requires
        init.len() <= MAX_SPRITES_PER_LINE,
        0 <= n,
    ensures
        ({
            let s = selected(oam, ly, height, cgb_priority, init, n);
            &&& init.len() <= s.len() <= MAX_SPRITES_PER_LINE
            &&& forall|k: int| 0 <= k < init.len() ==> s[k].x == init[k].x && s[k].y == init[k].y
            &&& forall|k: int| init.len() <= k < s.len() ==> sprite_on_line(ly, #[trigger] s[k].y, s[k].x, height)
        }),
    decreases n,
{
    if n > 0 {
        lemma_selected_on_line(oam, ly, height, cgb_priority, init, n - 1);
        let prev = selected(oam, ly, height, cgb_priority, init, n - 1);
        let a = 4 * (n - 1);
        if prev.len() < MAX_SPRITES_PER_LINE && sprite_on_line(ly, oam[a], oam[a + 1], height) {
            let s = selected(oam, ly, height, cgb_priority, init, n);
            let adjusted = prev.map_values(|e: SpriteAttributes| adjust_earlier(e, oam[a + 1], cgb_priority));
            assert(s == adjusted.push(new_entry(prev, oam[a], oam[a + 1], oam[a + 2], oam[a + 3], cgb_priority)));
            assert forall|k: int| 0 <= k < prev.len() implies s[k].x == prev[k].x && s[k].y == prev[k].y by {
                assert(s[k] == adjust_earlier(prev[k], oam[a + 1], cgb_priority));
            }
            assert(s[prev.len() as int].y == oam[a] && s[prev.len() as int].x == oam[a + 1]);
        }
    }
}

/// Exchanging two items keeps the items.
proof fn lemma_swap_multiset<A>(s: Seq<A>, i: int, j: int)
    requires
        0 <= i < s.len(),
        0 <= j < s.len(),
        i != j,
    ensures
        s.update(i, s[j]).update(j, s[i]).to_multiset() == s.to_multiset(),
{
    broadcast use vstd::multiset::group_multiset_axioms;

    let s1 = s.update(i, s[j]);
    assert(s1[j] == s[j]);
    assert(s1.update(j, s[i]).to_multiset() =~= s.to_multiset());
}

/// Sorts the first `len` objects by x (in place, by exchanges).
pub fn sort_by_x(entries: &mut [SpriteAttributes; MAX_SPRITES_PER_LINE], len: usize)
    requires
        len <= MAX_SPRITES_PER_LINE,
    ensures
        sorted_by_x(final(entries)@.subrange(0, len as int)),
        final(entries)@.subrange(0, len as int).to_multiset() == old(entries)@.subrange(0, len as int).to_multiset(),
{
    let ghost unsorted = entries@.subrange(0, len as int);
    let mut i: usize = 1;
    if len == 0 {
        return;
    }
    while i < len
        invariant
            1 <= i <= len <= MAX_SPRITES_PER_LINE,
            unsorted == old(entries)@.subrange(0, len as int),
            sorted_by_x(entries@.subrange(0, i as int)),
            entries@.subrange(0, len as int).to_multiset() == unsorted.to_multiset(),
        decreases len - i,
    {
        let mut j: usize = i;
        assert forall|k: int, l: int| 0 <= k < l < j implies entries@[k].x <= entries@[l].x by {
            assert(entries@.subrange(0, i as int)[k] == entries@[k]);
            assert(entries@.subrange(0, i as int)[l] == entries@[l]);
        }
        while j > 0 && entries[j - 1].x > entries[j].x
            invariant
                1 <= i < len <= MAX_SPRITES_PER_LINE,
                0 <= j <= i,
                unsorted == old(entries)@.subrange(0, len as int),
                entries@.subrange(0, len as int).to_multiset() == unsorted.to_multiset(),
                forall|k: int, l: int| 0 <= k < l < j ==> entries@[k].x <= entries@[l].x,
                forall|k: int, l: int| j < k < l <= i ==> entries@[k].x <= entries@[l].x,
                forall|k: int, l: int| 0 <= k < j && j < l <= i ==> entries@[k].x <= entries@[l].x,
                forall|l: int| j < l <= i ==> entries@[j as int].x < entries@[l].x,
            decreases j,
        {
            let ghost before = entries@;
            let left = entries[j - 1];
            let right = entries[j];
            entries[j - 1] = right;
            entries[j] = left;
            proof {
                let p = before.subrange(0, len as int);
                lemma_swap_multiset(p, j - 1, j as int);
                assert(entries@.subrange(0, len as int) =~= p.update(j - 1, p[j as int]).update(j as int, p[j - 1]));
            }
            j = j - 1;
        }
        i = i + 1;
    }
}

} // verus!

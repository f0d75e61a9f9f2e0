//! Where the dialog goes on the screen: a box centred in an area, found by
//! splitting the area by percentages with ratatui's layout solver.

use vstd::prelude::*;

verus! {

/// A rectangle of terminal cells: its top-left corner and its size.
#[derive(Debug, PartialEq, Eq, Structural, Clone, Copy)]
pub struct Area {
    pub x: u16,
    pub y: u16,
    pub width: u16,
    pub height: u16,
}

/// An area as a tuple of its corner and size.
pub open spec fn area_tuple(a: Area) -> (u16, u16, u16, u16) {
    (a.x, a.y, a.width, a.height)
}

/// Areas as tuples.
pub open spec fn area_tuples(s: Seq<Area>) -> Seq<(u16, u16, u16, u16)> {
    s.map_values(|a: Area| area_tuple(a))
}

/// The sum of the percentages.
pub open spec fn percent_total(percents: Seq<u16>) -> int
    decreases percents.len(),
{
    if percents.len() == 0 {
        0
    } else {
        percents[0] + percent_total(percents.drop_first())
    }
}

/// What ratatui's `Layout::split` gives for the area at (`x`, `y`) of size
/// `w` by `h`, split top to bottom (`vertical`) or left to right into parts
/// that take the given percentages.
pub uninterp spec fn percent_split(vertical: bool, percents: Seq<u16>, x: u16, y: u16, w: u16, h: u16) -> Seq<(u16, u16, u16, u16)>;

/// Splits `area` with `ratatui::layout::Layout::split`, into one part per
/// percentage, as the solver makes one segment per constraint. With the
/// percentages adding up to at most 100 each part takes exactly its share and
/// the rest stays unused, so the solver has one answer and the contract
/// claims that the result depends on the arguments alone. Larger totals,
/// where the solver may pick among equally good answers, are left out.
#[verifier::external_body]
fn split_by_percent(vertical: bool, percents: &Vec<u16>, area: Area) -> (r: Vec<Area>)
    requires
        percent_total(percents@) <= 100,
    ensures
        r.len() == percents.len(),
        area_tuples(r@) == percent_split(vertical, percents@, area.x, area.y, area.width, area.height),
{
    let direction = if vertical { ratatui::layout::Direction::Vertical } else { ratatui::layout::Direction::Horizontal };
    let rect = ratatui::layout::Rect { x: area.x, y: area.y, width: area.width, height: area.height };
    ratatui::layout::Layout::default()
        .direction(direction)
        .constraints(percents.iter().map(|p| ratatui::layout::Constraint::Percentage(*p)))
        .split(rect)
        .iter()
        .map(|c| Area { x: c.x, y: c.y, width: c.width, height: c.height })
        .collect()
}

/// The margin on each side of a centred box that takes `percent` of the
/// space, in percent of the space.
pub fn side_percentage(percent: u16) -> (r: u16)
    requires
        percent <= 100,
    ensures
        r == (100 - percent) / 2,
{
    (100 - percent) / 2
}

/// The percentages of a split into margin, box and margin.
pub open spec fn centred_percents(percent: u16) -> Seq<u16> {
    let side = ((100 - percent) / 2) as u16;
    seq![side, percent, side]
}

/// The box that takes `percent_x` of the width and `percent_y` of the height
/// of `r`, in its middle: the middle part of a left-to-right split of the
/// middle part of a top-to-bottom split.
pub open spec fn centred_box(percent_x: u16, percent_y: u16, r: Area) -> (u16, u16, u16, u16) {
    let rows = percent_split(true, centred_percents(percent_y), r.x, r.y, r.width, r.height);
    let m = rows[1];
    percent_split(false, centred_percents(percent_x), m.0, m.1, m.2, m.3)[1]
}

/// Builds the percentages of a split into margin, box and margin.
fn centred_split(percent: u16) -> (v: Vec<u16>)
    requires
        percent <= 100,
    ensures
        v@ == centred_percents(percent),
        percent_total(v@) <= 100,
{
    let side = side_percentage(percent);
    let mut v: Vec<u16> = Vec::new();
    v.push(side);
    v.push(percent);
    v.push(side);
    assert(v@ =~= centred_percents(percent));
    assert(percent_total(v@) == side + percent + side) by {
        reveal_with_fuel(percent_total, 4);
        assert(v@.drop_first() =~= seq![percent, side]);
        assert(v@.drop_first().drop_first() =~= seq![side]);
        assert(v@.drop_first().drop_first().drop_first() =~= Seq::<u16>::empty());
    }
    v
}

/// The box that takes `percent_x` of the width and `percent_y` of the height
/// of `r`, centred in it.
pub fn centered_rect(percent_x: u16, percent_y: u16, r: Area) -> (c: Area)
    requires
        percent_x <= 100,
        percent_y <= 100,
    ensures
        area_tuple(c) == centred_box(percent_x, percent_y, r),
{
    let rows = split_by_percent(true, &centred_split(percent_y), r);
    let middle = rows[1];
    assert(area_tuples(rows@)[1] == area_tuple(middle));
    let cols = split_by_percent(false, &centred_split(percent_x), middle);
    let c = cols[1];
    assert(area_tuples(cols@)[1] == area_tuple(c));
    c
}

} // verus!

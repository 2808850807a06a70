use vstd::prelude::*;
use ratatui::layout::{Constraint, Direction, Layout, Rect};

verus! {

/// A rectangle of screen cells: the column and row of its top left corner, and its
/// size.
#[derive(Debug, Clone, Copy, PartialEq, Eq, Structural)]
pub struct Area {
    pub x: u16,
    pub y: u16,
    pub width: u16,
    pub height: u16,
}

/// The direction in which an area is cut into cells.
#[derive(Debug, Clone, Copy, PartialEq, Eq, Structural)]
pub enum Axis {
    /// The cells lie one below the other.
    Rows,
    /// The cells lie side by side.
    Columns,
}

impl Area {
    /// The area with the corner and the size given.
    pub fn new(x: u16, y: u16, width: u16, height: u16) -> (r: Area)
        ensures
            r == (Area { x, y, width, height }),
    {
        Area { x, y, width, height }
    }

    /// Whether `inner` lies within this area.
    pub open spec fn contains(self, inner: Area) -> bool {
        &&& self.x <= inner.x
        &&& inner.x + inner.width <= self.x + self.width
        &&& self.y <= inner.y
        &&& inner.y + inner.height <= self.y + self.height
    }

    /// Whether `cell` can be a cell of this area cut along `axis`: across the cut it
    /// has the place and the size of the area, and along the cut it lies within it.
    pub open spec fn has_cell(self, axis: Axis, cell: Area) -> bool {
        match axis {
            Axis::Rows => {
                &&& cell.x == self.x
                &&& cell.width == self.width
                &&& self.y <= cell.y
                &&& cell.y + cell.height <= self.y + self.height
            },
            Axis::Columns => {
                &&& cell.y == self.y
                &&& cell.height == self.height
                &&& self.x <= cell.x
                &&& cell.x + cell.width <= self.x + self.width
            },
        }
    }
}

/// What a cell of a cut is asked to take of the length that is cut.
#[derive(Debug, Clone, Copy, PartialEq, Eq, Structural)]
pub enum Share {
    /// So many percent of the length.
    Percentage(u16),
    /// A part of what the other cells leave, in proportion to the weight.
    Fill(u16),
}

/// Whether the layout of the terminal library has one answer only for `shares`: two or
/// three shares that are all percentages and together ask for no more than the whole,
/// or two shares that ask to fill the length with one and the same weight.
pub open spec fn determined(shares: Seq<Share>) -> bool {
    ||| shares.len() == 2 && match (shares[0], shares[1]) {
        (Share::Percentage(first), Share::Percentage(second)) => first + second <= 100,
        (Share::Fill(first), Share::Fill(second)) => first == second && first >= 1,
        _ => false,
    }
    ||| shares.len() == 3 && match (shares[0], shares[1], shares[2]) {
        (
            Share::Percentage(first),
            Share::Percentage(second),
            Share::Percentage(third),
        ) => first + second + third <= 100,
        _ => false,
    }
}

/// The cells that `Layout::split` of ratatui cuts `area` into along `axis`, for a
/// layout without margin or spacing and with one constraint for each of `shares`.
pub uninterp spec fn layout_cells(axis: Axis, shares: Seq<Share>, area: Area) -> Seq<Area>;

/// `Layout::split` of ratatui, for a layout without margin or spacing that cuts `area`
/// along `axis` into one cell for each of `shares`.
///
/// The sizes come out of a constraint solver, which for shares that are `determined`
/// has one answer only. Percentages that together ask for no more than the whole can
/// all be given at once: the cells follow each other from the start of the area, each
/// with the size asked for, and what is left lies behind the last. Two shares that
/// fill with one weight get half of the area each. In both cases every other wish
/// weighs less than it would cost to follow it, so the answer is the same on whatever
/// way the solver reaches it, and it is a whole number of hundredths of a cell before
/// it is rounded. The result therefore depends on the arguments alone, and it is named
/// `layout_cells`. For other shares the solver may have to choose, and the function is
/// not to be called.
///
/// Of the cells themselves this is stated: there are as many as shares, across the cut
/// each has the place and the size of the area, and along the cut each lies within
/// the area, which the solver is required to keep.
#[verifier::external_body]
fn split(axis: Axis, shares: &Vec<Share>, area: Area) -> (cells: Vec<Area>)
    requires
        determined(shares@),
    ensures
        cells@ == layout_cells(axis, shares@, area),
        cells@.len() == shares@.len(),
        forall|i: int| 0 <= i < cells@.len() ==> area.has_cell(axis, #[trigger] cells@[i]),
{
    let direction = match axis {
        Axis::Rows => Direction::Vertical,
        Axis::Columns => Direction::Horizontal,
    };
    let constraints = shares.iter().map(|share| match share {
        Share::Percentage(percent) => Constraint::Percentage(*percent),
        Share::Fill(weight) => Constraint::Fill(*weight),
    });
    let rect = Rect { x: area.x, y: area.y, width: area.width, height: area.height };
    let cells = Layout::default().direction(direction).constraints(constraints).split(rect);
    cells.iter().map(|c| Area { x: c.x, y: c.y, width: c.width, height: c.height }).collect()
}

/// The shares of a length that lie before, in and behind a middle part that takes
/// `percent` percent of it: the two margins share what is left, rounded down.
pub open spec fn spec_centered_shares(percent: u16) -> Seq<Share> {
    seq![
        Share::Percentage(((100 - percent) / 2) as u16),
        Share::Percentage(percent),
        Share::Percentage(((100 - percent) / 2) as u16),
    ]
}

/// The shares of a length that lie before, in and behind a middle part that takes
/// `percent` percent of it: the two margins share what is left, rounded down.
pub fn centered_shares(percent: u16) -> (r: Vec<Share>)
    requires
        percent <= 100,
    ensures
        r@ == spec_centered_shares(percent),
        determined(r@),
{
    let margin: u16 = (100 - percent) / 2;
    let r = vec![Share::Percentage(margin), Share::Percentage(percent), Share::Percentage(margin)];
    assert(r@ =~= spec_centered_shares(percent));
    r
}

/// The middle one of the three cells of a cut.
pub fn middle_cell(cells: &Vec<Area>) -> (r: Area)
    requires
        cells@.len() == 3,
    ensures
        r == cells@[1],
{
    cells[1]
}

/// The area in the middle of `r` that takes `percent_x` percent of its width and
/// `percent_y` percent of its height: `r` is cut into three rows by the shares for
/// `percent_y`, the middle row is cut into three columns by the shares for
/// `percent_x`, and the middle column is the area.
pub open spec fn centered_in(percent_x: u16, percent_y: u16, r: Area) -> Area {
    let middle = layout_cells(Axis::Rows, spec_centered_shares(percent_y), r)[1];
    layout_cells(Axis::Columns, spec_centered_shares(percent_x), middle)[1]
}

/// The area in the middle of `r` that takes `percent_x` percent of its width and
/// `percent_y` percent of its height. It lies within `r`.
pub fn centered_rect(percent_x: u16, percent_y: u16, r: Area) -> (centered: Area)
    requires
        percent_x <= 100,
        percent_y <= 100,
    ensures
        centered == centered_in(percent_x, percent_y, r),
        r.contains(centered),
{
    let popup_layout = split(Axis::Rows, &centered_shares(percent_y), r);
    let middle = middle_cell(&popup_layout);
    let cells = split(Axis::Columns, &centered_shares(percent_x), middle);
    middle_cell(&cells)
}

/// The percentages of the width and of the height of the screen that a dialog takes:
/// 60 and 20.
pub fn popup_percentages() -> (r: (u16, u16))
    ensures
        r == (60u16, 20u16),
{
    (60, 20)
}

/// The area of a dialog on a screen: the one in the middle that takes 60 percent of
/// the width and 20 percent of the height. It lies within the screen.
pub fn popup_area(screen: Area) -> (r: Area)
    ensures
        r == centered_in(60, 20, screen),
        screen.contains(r),
{
    let (percent_x, percent_y) = popup_percentages();
    centered_rect(percent_x, percent_y, screen)
}

/// The shares of the two columns of the screen: each is asked to fill it as much as
/// the other.
pub open spec fn spec_screen_columns() -> Seq<Share> {
    seq![Share::Fill(1), Share::Fill(1)]
}

/// The shares of two rows that each take half of a height.
pub open spec fn spec_halves() -> Seq<Share> {
    seq![Share::Percentage(50), Share::Percentage(50)]
}

/// The shares of the two columns of a form: the texts take 65 percent of the width
/// and the list of states 35 percent.
pub open spec fn spec_form_columns() -> Seq<Share> {
    seq![Share::Percentage(65), Share::Percentage(35)]
}

/// The shares of the two columns of the screen: each is asked to fill it as much as
/// the other.
pub fn screen_columns() -> (r: Vec<Share>)
    ensures
        r@ == spec_screen_columns(),
        determined(r@),
{
    let r = vec![Share::Fill(1), Share::Fill(1)];
    assert(r@ =~= spec_screen_columns());
    r
}

/// The shares of two rows that each take half of a height.
pub fn halves() -> (r: Vec<Share>)
    ensures
        r@ == spec_halves(),
        determined(r@),
{
    let r = vec![Share::Percentage(50), Share::Percentage(50)];
    assert(r@ =~= spec_halves());
    r
}

/// The shares of the two columns of a form: the texts take 65 percent of the width
/// and the list of states 35 percent.
pub fn form_columns() -> (r: Vec<Share>)
    ensures
        r@ == spec_form_columns(),
        determined(r@),
{
    let r = vec![Share::Percentage(65), Share::Percentage(35)];
    assert(r@ =~= spec_form_columns());
    r
}

/// The three panes of the screen.
#[derive(Debug, Clone, Copy, PartialEq, Eq, Structural)]
pub struct ScreenAreas {
    /// The list of tasks: the upper half of the left column.
    pub tasks: Area,
    /// The list of projects: the lower half of the left column.
    pub projects: Area,
    /// The detail pane: the right column.
    pub detail: Area,
}

/// The panes of a screen: the screen is cut into two columns that fill it alike. The
/// left one is cut into two rows of half its height: the upper row is the list of
/// tasks, the lower one the list of projects. The right column is the detail pane.
pub open spec fn spec_screen_areas(screen: Area) -> ScreenAreas {
    let columns = layout_cells(Axis::Columns, spec_screen_columns(), screen);
    let rows = layout_cells(Axis::Rows, spec_halves(), columns[0]);
    ScreenAreas { tasks: rows[0], projects: rows[1], detail: columns[1] }
}

/// The panes of a screen. Every pane lies within the screen, the detail pane is as
/// high as the screen, and the two lists stand in one column, one as wide as the
/// other.
pub fn screen_areas(screen: Area) -> (r: ScreenAreas)
    ensures
        r == spec_screen_areas(screen),
        screen.contains(r.tasks),
        screen.contains(r.projects),
        screen.contains(r.detail),
        screen.has_cell(Axis::Columns, r.detail),
        r.tasks.x == r.projects.x,
        r.tasks.width == r.projects.width,
{
    let columns = split(Axis::Columns, &screen_columns(), screen);
    let main_area = columns[0];
    let detail = columns[1];
    let rows = split(Axis::Rows, &halves(), main_area);
    ScreenAreas { tasks: rows[0], projects: rows[1], detail }
}

/// The places of the three members of a form.
#[derive(Debug, Clone, Copy, PartialEq, Eq, Structural)]
pub struct FormAreas {
    /// The title: the upper half of the left column.
    pub title: Area,
    /// The description: the lower half of the left column.
    pub description: Area,
    /// The list of states: the right column.
    pub status: Area,
}

/// The places of the members of a form in the area `inner`: the area is cut into a
/// left column of 65 percent of its width and a right one of 35 percent. The left one
/// is cut into two rows of half its height: the upper row is the title, the lower one
/// the description. The right column is the list of states.
pub open spec fn spec_form_areas(inner: Area) -> FormAreas {
    let columns = layout_cells(Axis::Columns, spec_form_columns(), inner);
    let rows = layout_cells(Axis::Rows, spec_halves(), columns[0]);
    FormAreas { title: rows[0], description: rows[1], status: columns[1] }
}

/// The places of the members of a form in the area `inner`. Every place lies within
/// `inner`, the list of states is as high as `inner`, and the two texts stand in one
/// column, one as wide as the other.
pub fn form_areas(inner: Area) -> (r: FormAreas)
    ensures
        r == spec_form_areas(inner),
        inner.contains(r.title),
        inner.contains(r.description),
        inner.contains(r.status),
        inner.has_cell(Axis::Columns, r.status),
        r.title.x == r.description.x,
        r.title.width == r.description.width,
{
    let columns = split(Axis::Columns, &form_columns(), inner);
    let text_area = columns[0];
    let status = columns[1];
    let rows = split(Axis::Rows, &halves(), text_area);
    FormAreas { title: rows[0], description: rows[1], status }
}

} // verus!

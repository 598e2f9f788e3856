//! Grid cell bookkeeping: unit types of row and column definitions, clamping of attached
//! placements into the definitions, the four measure groups cells are sorted into, and the order
//! in which a measure pass visits those groups and resolves star definitions.

use vstd::prelude::*;

verus! {

/// How a row or column definition is sized.
#[derive(Clone, Copy, Debug, PartialEq, Eq, Structural)]
pub enum GridUnitType {
    /// Sized to the content.
    Auto,
    /// A fixed length.
    Pixel,
    /// A weighted share of the remaining space.
    Star,
}

/// The attached row, column and spans of one child, before clamping.
#[derive(Clone, Copy, Debug, PartialEq, Eq, Structural)]
pub struct CellPlacement {
    pub row: usize,
    pub column: usize,
    pub row_span: usize,
    pub column_span: usize,
}

impl Default for CellPlacement {
    fn default() -> (r: CellPlacement)
        ensures
            r == (CellPlacement { row: 0, column: 0, row_span: 1, column_span: 1 }),
    {
        CellPlacement { row: 0, column: 0, row_span: 1, column_span: 1 }
    }
}

pub open spec fn spec_min(a: int, b: int) -> int {
    if a <= b {
        a
    } else {
        b
    }
}

pub open spec fn spec_max(a: int, b: int) -> int {
    if a >= b {
        a
    } else {
        b
    }
}

/// A placement clamped into `rows` row and `columns` column definitions: the start index to
/// the last definition, and each span to at least one and at most what remains after the start.
pub open spec fn spec_clamp_placement(p: CellPlacement, rows: int, columns: int) -> CellPlacement {
    let row = spec_min(p.row as int, rows - 1);
    let column = spec_min(p.column as int, columns - 1);
    CellPlacement {
        row: row as usize,
        column: column as usize,
        row_span: spec_min(spec_max(p.row_span as int, 1), rows - row) as usize,
        column_span: spec_min(spec_max(p.column_span as int, 1), columns - column) as usize,
    }
}

/// Whether a placement already lies inside the definitions.
pub open spec fn spec_placement_in_range(p: CellPlacement, rows: int, columns: int) -> bool {
    &&& p.row < rows
    &&& p.column < columns
    &&& p.row_span >= 1
    &&& p.column_span >= 1
    &&& p.row + p.row_span <= rows
    &&& p.column + p.column_span <= columns
}

/// Clamps the attached indices and spans of a child into the definitions of both axes.
pub fn clamp_placement(placement: CellPlacement, rows: usize, columns: usize) -> (r: CellPlacement)
    requires
        rows >= 1,
        columns >= 1,
    ensures
        r == spec_clamp_placement(placement, rows as int, columns as int),
{
    let row = if placement.row < rows - 1 {
        placement.row
    } else {
        rows - 1
    };
    let column = if placement.column < columns - 1 {
        placement.column
    } else {
        columns - 1
    };
    let row_span = if placement.row_span < 1 {
        1
    } else {
        placement.row_span
    };
    let column_span = if placement.column_span < 1 {
        1
    } else {
        placement.column_span
    };
    CellPlacement {
        row,
        column,
        row_span: if row_span < rows - row {
            row_span
        } else {
            rows - row
        },
        column_span: if column_span < columns - column {
            column_span
        } else {
            columns - column
        },
    }
}

/// A clamped placement always lies inside the definitions, and clamping leaves a placement that
/// already lies inside them unchanged, so clamping twice is clamping once.
pub proof fn lemma_clamp_placement_in_range(p: CellPlacement, rows: int, columns: int)
    requires
        1 <= rows <= usize::MAX,
        1 <= columns <= usize::MAX,
    ensures
        spec_placement_in_range(spec_clamp_placement(p, rows, columns), rows, columns),
        spec_placement_in_range(p, rows, columns) ==> spec_clamp_placement(p, rows, columns) == p,
        spec_clamp_placement(spec_clamp_placement(p, rows, columns), rows, columns)
            == spec_clamp_placement(p, rows, columns),
{
}

/// The unit type a definition is measured with: a star definition on an unbounded axis behaves
/// as Auto.
pub open spec fn spec_effective_unit_type(user: GridUnitType, treat_star_as_auto: bool) -> GridUnitType {
    match user {
        GridUnitType::Star => if treat_star_as_auto {
            GridUnitType::Auto
        } else {
            GridUnitType::Star
        },
        _ => user,
    }
}

/// The effective unit type of one definition for a measure pass.
pub fn effective_unit_type(user: GridUnitType, treat_star_as_auto: bool) -> (r: GridUnitType)
    ensures
        r == spec_effective_unit_type(user, treat_star_as_auto),
{
    match user {
        GridUnitType::Star => if treat_star_as_auto {
            GridUnitType::Auto
        } else {
            GridUnitType::Star
        },
        GridUnitType::Auto => GridUnitType::Auto,
        GridUnitType::Pixel => GridUnitType::Pixel,
    }
}

/// The effective unit types of all definitions of one axis.
pub fn effective_unit_types(user: &Vec<GridUnitType>, treat_star_as_auto: bool) -> (r: Vec<
    GridUnitType,
>)
    ensures
        r.len() == user.len(),
        forall|i: int|
            0 <= i < user.len() ==> r[i] == spec_effective_unit_type(user[i], treat_star_as_auto),
{
    let mut r: Vec<GridUnitType> = Vec::new();
    let mut i: usize = 0;
    while i < user.len()
        invariant
            i <= user.len(),
            r.len() == i,
            forall|j: int|
                0 <= j < i ==> r[j] == spec_effective_unit_type(user[j], treat_star_as_auto),
        decreases user.len() - i,
    {
        r.push(effective_unit_type(user[i], treat_star_as_auto));
        i += 1;
    }
    r
}

/// The union of the unit types across the definitions a cell spans.
#[derive(Clone, Copy, Debug, PartialEq, Eq, Structural)]
pub struct CellUnitTypes {
    pub auto: bool,
    pub star: bool,
}

/// The unit types found among `types[start..start + count]`.
pub open spec fn spec_length_types(types: Seq<GridUnitType>, start: int, count: int) -> CellUnitTypes {
    CellUnitTypes {
        auto: exists|i: int| start <= i < start + count && types[i] == GridUnitType::Auto,
        star: exists|i: int| start <= i < start + count && types[i] == GridUnitType::Star,
    }
}

/// Which unit types occur in a range of definitions.
pub fn length_type_for_range(types: &Vec<GridUnitType>, start: usize, count: usize) -> (r:
    CellUnitTypes)
    requires
        start + count <= types.len(),
    ensures
        r == spec_length_types(types@, start as int, count as int),
{
    let mut auto = false;
    let mut star = false;
    let mut i: usize = start;
    while i < start + count
        invariant
            start <= i <= start + count,
            start + count <= types.len(),
            auto == (exists|j: int| start <= j < i && types[j] == GridUnitType::Auto),
            star == (exists|j: int| start <= j < i && types[j] == GridUnitType::Star),
        decreases start + count - i,
    {
        match types[i] {
            GridUnitType::Auto => auto = true,
            GridUnitType::Star => star = true,
            GridUnitType::Pixel => {},
        }
        i += 1;
    }
    CellUnitTypes { auto, star }
}

/// One child with its clamped placement and the unit types of the rows and columns it spans.
#[derive(Clone, Copy, Debug, PartialEq, Eq, Structural)]
pub struct CellInfo {
    pub placement: CellPlacement,
    pub row_height_types: CellUnitTypes,
    pub column_width_types: CellUnitTypes,
}

/// The cell a placement becomes against the effective row and column unit types.
pub open spec fn spec_cell(
    rows: Seq<GridUnitType>,
    columns: Seq<GridUnitType>,
    p: CellPlacement,
) -> CellInfo {
    let c = spec_clamp_placement(p, rows.len() as int, columns.len() as int);
    CellInfo {
        placement: c,
        row_height_types: spec_length_types(rows, c.row as int, c.row_span as int),
        column_width_types: spec_length_types(columns, c.column as int, c.column_span as int),
    }
}

/// The measure group of a cell, counted from zero: cells without star rows go to the first
/// group (no star columns) or the third (star columns); cells with star rows go to the second
/// (Auto columns without Star) or the fourth.
pub open spec fn spec_cell_group(cell: CellInfo) -> int {
    if !cell.row_height_types.star {
        if !cell.column_width_types.star {
            0
        } else {
            2
        }
    } else {
        if cell.column_width_types.auto && !cell.column_width_types.star {
            1
        } else {
            3
        }
    }
}

/// The indices of the cells in group `g`, in child order.
pub open spec fn spec_group_members(
    rows: Seq<GridUnitType>,
    columns: Seq<GridUnitType>,
    placements: Seq<CellPlacement>,
    g: int,
) -> Seq<usize>
    decreases placements.len(),
{
    if placements.len() == 0 {
        seq![]
    } else {
        let prev = spec_group_members(rows, columns, placements.drop_last(), g);
        if spec_cell_group(spec_cell(rows, columns, placements.last())) == g {
            prev.push((placements.len() - 1) as usize)
        } else {
            prev
        }
    }
}

/// Which kinds of definitions the cells touch, deciding the measure order.
#[derive(Clone, Copy, Debug, PartialEq, Eq, Structural)]
pub struct GridFlags {
    pub has_star_rows: bool,
    pub has_star_columns: bool,
    pub has_auto_rows_and_star_column: bool,
}

/// The flags the cells of `placements` set.
pub open spec fn spec_grid_flags(
    rows: Seq<GridUnitType>,
    columns: Seq<GridUnitType>,
    placements: Seq<CellPlacement>,
) -> GridFlags {
    GridFlags {
        has_star_rows: exists|i: int|
            0 <= i < placements.len() && spec_cell(
                rows,
                columns,
                placements[i],
            ).row_height_types.star,
        has_star_columns: exists|i: int|
            0 <= i < placements.len() && spec_cell(
                rows,
                columns,
                placements[i],
            ).column_width_types.star,
        has_auto_rows_and_star_column: exists|i: int|
            0 <= i < placements.len() && spec_auto_row_star_column(
                spec_cell(rows, columns, placements[i]),
            ),
    }
}

/// A cell spanning an Auto row but no star row, together with a star column: the possible
/// cyclic dependency between row heights and column widths.
pub open spec fn spec_auto_row_star_column(cell: CellInfo) -> bool {
    !cell.row_height_types.star && cell.column_width_types.star && cell.row_height_types.auto
}

/// The cells of a measure pass and the four groups they are measured in.
#[derive(Debug)]
pub struct CellGroups {
    pub cells: Vec<CellInfo>,
    pub group1: Vec<usize>,
    pub group2: Vec<usize>,
    pub group3: Vec<usize>,
    pub group4: Vec<usize>,
    pub flags: GridFlags,
}

/// Caches each child's clamped placement and unit types and sorts the children into the four
/// measure groups, in child order.
pub fn validate_cells(
    rows: &Vec<GridUnitType>,
    columns: &Vec<GridUnitType>,
    placements: &Vec<CellPlacement>,
) -> (r: CellGroups)
    requires
        rows.len() >= 1,
        columns.len() >= 1,
    ensures
        r.cells.len() == placements.len(),
        forall|i: int|
            0 <= i < placements.len() ==> r.cells[i] == spec_cell(rows@, columns@, placements[i]),
        r.group1@ == spec_group_members(rows@, columns@, placements@, 0),
        r.group2@ == spec_group_members(rows@, columns@, placements@, 1),
        r.group3@ == spec_group_members(rows@, columns@, placements@, 2),
        r.group4@ == spec_group_members(rows@, columns@, placements@, 3),
        r.flags == spec_grid_flags(rows@, columns@, placements@),
{
    let mut cells: Vec<CellInfo> = Vec::new();
    let mut group1: Vec<usize> = Vec::new();
    let mut group2: Vec<usize> = Vec::new();
    let mut group3: Vec<usize> = Vec::new();
    let mut group4: Vec<usize> = Vec::new();
    let mut has_star_rows = false;
    let mut has_star_columns = false;
    let mut has_auto_rows_and_star_column = false;
    let mut i: usize = 0;
    while i < placements.len()
        invariant
            rows.len() >= 1,
            columns.len() >= 1,
            i <= placements.len(),
            cells.len() == i,
            forall|j: int|
                0 <= j < i ==> cells[j] == spec_cell(rows@, columns@, placements[j]),
            group1@ == spec_group_members(rows@, columns@, placements@.subrange(0, i as int), 0),
            group2@ == spec_group_members(rows@, columns@, placements@.subrange(0, i as int), 1),
            group3@ == spec_group_members(rows@, columns@, placements@.subrange(0, i as int), 2),
            group4@ == spec_group_members(rows@, columns@, placements@.subrange(0, i as int), 3),
            has_star_rows == (exists|j: int|
                0 <= j < i && spec_cell(rows@, columns@, placements[j]).row_height_types.star),
            has_star_columns == (exists|j: int|
                0 <= j < i && spec_cell(rows@, columns@, placements[j]).column_width_types.star),
            has_auto_rows_and_star_column == (exists|j: int|
                0 <= j < i && spec_auto_row_star_column(spec_cell(rows@, columns@, placements[j]))),
        decreases placements.len() - i,
    {
        let placement = clamp_placement(placements[i], rows.len(), columns.len());
        let row_height_types = length_type_for_range(rows, placement.row, placement.row_span);
        let column_width_types = length_type_for_range(
            columns,
            placement.column,
            placement.column_span,
        );
        let cell = CellInfo { placement, row_height_types, column_width_types };
        proof {
            let pre = placements@.subrange(0, i as int);
            let next = placements@.subrange(0, i as int + 1);
            assert(next.drop_last() =~= pre);
            assert(next.last() == placements[i as int]);
            assert(cell == spec_cell(rows@, columns@, placements[i as int]));
        }
        cells.push(cell);
        if !row_height_types.star {
            if !column_width_types.star {
                group1.push(i);
            } else {
                group3.push(i);
                if row_height_types.auto {
                    has_auto_rows_and_star_column = true;
                }
            }
        } else {
            has_star_rows = true;
            if column_width_types.auto && !column_width_types.star {
                group2.push(i);
            } else {
                group4.push(i);
            }
        }
        if column_width_types.star {
            has_star_columns = true;
        }
        i += 1;
    }
    proof {
        assert(placements@.subrange(0, placements.len() as int) =~= placements@);
    }
    CellGroups {
        cells,
        group1,
        group2,
        group3,
        group4,
        flags: GridFlags { has_star_rows, has_star_columns, has_auto_rows_and_star_column },
    }
}

/// The members of each measure group are the indices of exactly the cells of that group, each
/// once and in child order, so the four groups partition the children.
pub proof fn lemma_group_members_partition(
    rows: Seq<GridUnitType>,
    columns: Seq<GridUnitType>,
    placements: Seq<CellPlacement>,
    g: int,
)
    requires
        placements.len() <= usize::MAX,
    ensures
        forall|k: int|
            #![trigger spec_group_members(rows, columns, placements, g)[k]]
            0 <= k < spec_group_members(rows, columns, placements, g).len() ==> {
                let m = spec_group_members(rows, columns, placements, g)[k];
                &&& m < placements.len()
                &&& spec_cell_group(spec_cell(rows, columns, placements[m as int])) == g
            },
        forall|j: int, k: int|
            0 <= j < k < spec_group_members(rows, columns, placements, g).len() ==> spec_group_members(
                rows,
                columns,
                placements,
                g,
            )[j] < spec_group_members(rows, columns, placements, g)[k],
        forall|i: int|
            0 <= i < placements.len() && spec_cell_group(spec_cell(rows, columns, placements[i]))
                == g ==> spec_group_members(rows, columns, placements, g).contains(i as usize),
    decreases placements.len(),
{
    if placements.len() > 0 {
        let prev = placements.drop_last();
        lemma_group_members_partition(rows, columns, prev, g);
        let members = spec_group_members(rows, columns, placements, g);
        let prev_members = spec_group_members(rows, columns, prev, g);
        assert forall|i: int|
            0 <= i < placements.len() && spec_cell_group(spec_cell(rows, columns, placements[i]))
                == g implies members.contains(i as usize) by {
            if i < placements.len() - 1 {
                assert(prev[i] == placements[i]);
                let k = choose|k: int| 0 <= k < prev_members.len() && prev_members[k] == i as usize;
                assert(members[k] == i as usize);
            } else {
                assert(members[members.len() - 1] == i as usize);
            }
        }
        assert forall|k: int| #![trigger members[k]] 0 <= k < members.len() implies {
            let m = members[k];
            &&& m < placements.len()
            &&& spec_cell_group(spec_cell(rows, columns, placements[m as int])) == g
        } by {
            if k < prev_members.len() {
                assert(members[k] == prev_members[k]);
                assert(prev[prev_members[k] as int] == placements[prev_members[k] as int]);
            }
        }
    }
}

/// One step of a measure pass over the groups.
#[derive(Clone, Copy, Debug, PartialEq, Eq, Structural)]
pub enum MeasureStep {
    /// Measures the cells of a group (counted from zero); the flags skip the width or force
    /// an unbounded height, as the cyclic-dependency pass requires.
    Measure { group: u8, ignore_column_desired_size: bool, force_row_to_infinity: bool },
    /// Resolves the star rows against the space the other rows leave.
    ResolveStarRows,
    /// Resolves the star columns against the space the other columns leave.
    ResolveStarColumns,
}

pub open spec fn spec_measure(group: u8) -> MeasureStep {
    MeasureStep::Measure { group, ignore_column_desired_size: false, force_row_to_infinity: false }
}

pub open spec fn spec_if_step(cond: bool, step: MeasureStep) -> Seq<MeasureStep> {
    if cond {
        seq![step]
    } else {
        seq![]
    }
}

/// The order of a measure pass. Without a cyclic dependency: the first group, star rows, the
/// second group, star columns, the third group. With one but an empty second group: star
/// columns are resolved before the third group and star rows after it. Otherwise the second
/// group is measured for widths with unbounded rows first and again for heights only at the
/// end. The fourth group always comes last.
pub open spec fn spec_measure_plan(flags: GridFlags, group2_empty: bool) -> Seq<MeasureStep> {
    let rows = MeasureStep::ResolveStarRows;
    let columns = MeasureStep::ResolveStarColumns;
    let middle = if !flags.has_auto_rows_and_star_column {
        spec_if_step(flags.has_star_rows, rows) + seq![spec_measure(1)] + spec_if_step(
            flags.has_star_columns,
            columns,
        ) + seq![spec_measure(2)]
    } else if group2_empty {
        spec_if_step(flags.has_star_columns, columns) + seq![spec_measure(2)] + spec_if_step(
            flags.has_star_rows,
            rows,
        )
    } else {
        seq![
            MeasureStep::Measure {
                group: 1,
                ignore_column_desired_size: false,
                force_row_to_infinity: true,
            },
        ] + spec_if_step(flags.has_star_columns, columns) + seq![spec_measure(2)]
            + spec_if_step(flags.has_star_rows, rows) + seq![
            MeasureStep::Measure {
                group: 1,
                ignore_column_desired_size: true,
                force_row_to_infinity: false,
            },
        ]
    };
    seq![spec_measure(0)] + middle + seq![spec_measure(3)]
}

fn push_measure(plan: &mut Vec<MeasureStep>, group: u8)
    ensures
        final(plan)@ == old(plan)@.push(spec_measure(group)),
{
    plan.push(
        MeasureStep::Measure { group, ignore_column_desired_size: false, force_row_to_infinity: false },
    );
}

/// The steps of a measure pass for the flags of the cells and whether the second group is empty.
pub fn measure_plan(flags: GridFlags, group2_empty: bool) -> (r: Vec<MeasureStep>)
    ensures
        r@ == spec_measure_plan(flags, group2_empty),
{
    let mut plan: Vec<MeasureStep> = Vec::new();
    push_measure(&mut plan, 0);
    if !flags.has_auto_rows_and_star_column {
        if flags.has_star_rows {
            plan.push(MeasureStep::ResolveStarRows);
        }
        push_measure(&mut plan, 1);
        if flags.has_star_columns {
            plan.push(MeasureStep::ResolveStarColumns);
        }
        push_measure(&mut plan, 2);
    } else if group2_empty {
        if flags.has_star_columns {
            plan.push(MeasureStep::ResolveStarColumns);
        }
        push_measure(&mut plan, 2);
        if flags.has_star_rows {
            plan.push(MeasureStep::ResolveStarRows);
        }
    } else {
        plan.push(
            MeasureStep::Measure {
                group: 1,
                ignore_column_desired_size: false,
                force_row_to_infinity: true,
            },
        );
        if flags.has_star_columns {
            plan.push(MeasureStep::ResolveStarColumns);
        }
        push_measure(&mut plan, 2);
        if flags.has_star_rows {
            plan.push(MeasureStep::ResolveStarRows);
        }
        plan.push(
            MeasureStep::Measure {
                group: 1,
                ignore_column_desired_size: true,
                force_row_to_infinity: false,
            },
        );
    }
    push_measure(&mut plan, 3);
    assert(plan@ =~= spec_measure_plan(flags, group2_empty));
    plan
}

/// Every measure pass starts with the first group and ends with the fourth, measures the second
/// group (unless it is empty in the cyclic case) and the third, and resolves the star rows
/// (columns) when and only when a cell spans a star row (column).
pub proof fn lemma_measure_plan_covers_groups(flags: GridFlags, group2_empty: bool)
    ensures
        spec_measure_plan(flags, group2_empty)[0] == spec_measure(0),
        spec_measure_plan(flags, group2_empty).last() == spec_measure(3),
        spec_measure_plan(flags, group2_empty).contains(spec_measure(2)),
        !(flags.has_auto_rows_and_star_column && group2_empty) ==> (spec_measure_plan(
            flags,
            group2_empty,
        ).contains(spec_measure(1)) || spec_measure_plan(flags, group2_empty).contains(
            MeasureStep::Measure {
                group: 1,
                ignore_column_desired_size: false,
                force_row_to_infinity: true,
            },
        )),
        spec_measure_plan(flags, group2_empty).contains(MeasureStep::ResolveStarRows)
            == flags.has_star_rows,
        spec_measure_plan(flags, group2_empty).contains(MeasureStep::ResolveStarColumns)
            == flags.has_star_columns,
{
    let plan = spec_measure_plan(flags, group2_empty);
    let rows = MeasureStep::ResolveStarRows;
    let columns = MeasureStep::ResolveStarColumns;
    let a = spec_if_step(flags.has_star_rows, rows);
    let b = spec_if_step(flags.has_star_columns, columns);
    if !flags.has_auto_rows_and_star_column {
        let middle = a + seq![spec_measure(1)] + b + seq![spec_measure(2)];
        assert(plan =~= seq![spec_measure(0)] + middle + seq![spec_measure(3)]);
        assert(plan[(1 + a.len()) as int] == spec_measure(1));
        assert(plan[(2 + a.len() + b.len()) as int] == spec_measure(2));
        if flags.has_star_rows {
            assert(plan[1] == rows);
        } else {
            assert forall|k: int| 0 <= k < plan.len() implies plan[k] != rows by {}
        }
        if flags.has_star_columns {
            assert(plan[(2 + a.len()) as int] == columns);
        } else {
            assert forall|k: int| 0 <= k < plan.len() implies plan[k] != columns by {}
        }
    } else if group2_empty {
        let middle = b + seq![spec_measure(2)] + a;
        assert(plan =~= seq![spec_measure(0)] + middle + seq![spec_measure(3)]);
        assert(plan[(1 + b.len()) as int] == spec_measure(2));
        if flags.has_star_rows {
            assert(plan[(2 + b.len()) as int] == rows);
        } else {
            assert forall|k: int| 0 <= k < plan.len() implies plan[k] != rows by {}
        }
        if flags.has_star_columns {
            assert(plan[1] == columns);
        } else {
            assert forall|k: int| 0 <= k < plan.len() implies plan[k] != columns by {}
        }
    } else {
        let first = MeasureStep::Measure {
            group: 1,
            ignore_column_desired_size: false,
            force_row_to_infinity: true,
        };
        let last = MeasureStep::Measure {
            group: 1,
            ignore_column_desired_size: true,
            force_row_to_infinity: false,
        };
        let middle = seq![first] + b + seq![spec_measure(2)] + a + seq![last];
        assert(plan =~= seq![spec_measure(0)] + middle + seq![spec_measure(3)]);
        assert(plan[1] == first);
        assert(plan[(2 + b.len()) as int] == spec_measure(2));
        if flags.has_star_rows {
            assert(plan[(3 + b.len()) as int] == rows);
        } else {
            assert forall|k: int| 0 <= k < plan.len() implies plan[k] != rows by {}
        }
        if flags.has_star_columns {
            assert(plan[2] == columns);
        } else {
            assert forall|k: int| 0 <= k < plan.len() implies plan[k] != columns by {}
        }
    }
}

} // verus!

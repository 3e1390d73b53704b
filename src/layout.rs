//! Arrangement of the configured actions into one row or column, or into
//! the rows of a grid.
use vstd::prelude::*;
use crate::config::{ActionConfig, LayoutConfig};
use crate::text::same_text;

verus! {

/// Direction in which the outer container lays out its children.
#[derive(Debug, Clone, Copy, PartialEq, Eq, Structural)]
pub enum Orientation {
    Horizontal,
    Vertical,
}

/// Groups of action indices, in the order the actions are configured.
#[derive(Debug, Clone)]
pub struct LayoutPlan {
    pub orientation: Orientation,
    /// Whether each group is a row of a grid, rather than the one line of actions.
    pub grid: bool,
    pub groups: Vec<Vec<usize>>,
}

/// The groups of a plan as sequences.
pub open spec fn group_views(groups: Seq<Vec<usize>>) -> Seq<Seq<usize>> {
    groups.map_values(|g: Vec<usize>| g@)
}

/// The column count that a grid uses: the configured one, 3 where none is
/// configured, and at least 1.
pub open spec fn effective_columns(layout: LayoutConfig) -> nat {
    match layout.columns {
        Some(c) => if c == 0 {
            1
        } else {
            c as nat
        },
        None => 3,
    }
}

/// Row `i` of a grid of `n` actions in `c` columns: the actions from `i * c`
/// on, `c` of them or as many as are left.
pub open spec fn grid_row(row: Seq<usize>, i: int, n: nat, c: nat) -> bool {
    &&& i * c < n
    &&& row.len() == (if i * c + c <= n {
        c as int
    } else {
        n - i * c
    })
    &&& forall|j: int| 0 <= j < row.len() ==> row[j] == i * c + j
}

/// `groups` splits `n` actions into consecutive rows of `c`, the last
/// possibly shorter.
pub open spec fn grid_plan(groups: Seq<Seq<usize>>, n: nat, c: nat) -> bool {
    &&& groups.len() * c >= n
    &&& forall|i: int| 0 <= i < groups.len() ==> grid_row(#[trigger] groups[i], i, n, c)
}

/// `group` holds the actions `0..n` in order.
pub open spec fn all_in_order(group: Seq<usize>, n: nat) -> bool {
    &&& group.len() == n
    &&& forall|j: int| 0 <= j < group.len() ==> group[j] == j
}

/// One group with every action, in configured order.
pub fn linear_groups(n: usize) -> (r: Vec<Vec<usize>>)
    ensures
        r@.len() == 1,
        all_in_order(r@[0]@, n as nat),
{
    let mut row: Vec<usize> = Vec::new();
    let mut k: usize = 0;
    while k < n
        invariant
            k <= n,
            all_in_order(row@, k as nat),
        decreases n - k,
    {
        row.push(k);
        k = k + 1;
    }
    let mut groups: Vec<Vec<usize>> = Vec::new();
    groups.push(row);
    groups
}

/// Consecutive rows of `columns` actions, the last possibly shorter.
pub fn grid_groups(n: usize, columns: usize) -> (r: Vec<Vec<usize>>)
    requires
        columns > 0,
    ensures
        grid_plan(group_views(r@), n as nat, columns as nat),
{
    let mut groups: Vec<Vec<usize>> = Vec::new();
    let mut start: usize = 0;
    while start < n
        invariant
            columns > 0,
            start <= n,
            groups@.len() * columns >= start,
            start < n ==> start == groups@.len() * columns,
            forall|i: int|
                0 <= i < groups@.len() ==> grid_row(
                    #[trigger] groups@[i]@,
                    i,
                    n as nat,
                    columns as nat,
                ),
        decreases n - start,
    {
        let end: usize = if n - start > columns {
            start + columns
        } else {
            n
        };
        let mut row: Vec<usize> = Vec::new();
        let mut k: usize = start;
        while k < end
            invariant
                start <= k <= end,
                row@.len() == k - start,
                forall|j: int| 0 <= j < row@.len() ==> row@[j] == start + j,
            decreases end - k,
        {
            row.push(k);
            k = k + 1;
        }
        let ghost l = groups@.len();
        proof {
            assert((l + 1) * columns == l * columns + columns) by (nonlinear_arith);
        }
        groups.push(row);
        start = end;
    }
    proof {
        assert(group_views(groups@).len() == groups@.len());
        assert forall|i: int| 0 <= i < groups@.len() implies grid_row(
            #[trigger] group_views(groups@)[i],
            i,
            n as nat,
            columns as nat,
        ) by {
            assert(group_views(groups@)[i] == groups@[i]@);
        }
    }
    groups
}

/// The plan for `actions` under `layout`: rows of a grid for "grid", one
/// group with every action otherwise; vertical for "vertical".
pub fn plan_layout(actions: &Vec<ActionConfig>, layout: &LayoutConfig) -> (r: LayoutPlan)
    ensures
        r.orientation == (if layout.layout_type@ == "vertical"@ {
            Orientation::Vertical
        } else {
            Orientation::Horizontal
        }),
        r.grid == (layout.layout_type@ == "grid"@),
        layout.layout_type@ == "grid"@ ==> grid_plan(
            group_views(r.groups@),
            actions@.len(),
            effective_columns(*layout),
        ),
        layout.layout_type@ != "grid"@ ==> r.groups@.len() == 1 && all_in_order(
            r.groups@[0]@,
            actions@.len(),
        ),
{
    let kind = layout.layout_type.as_str();
    let orientation = if same_text(kind, "vertical") {
        Orientation::Vertical
    } else {
        Orientation::Horizontal
    };
    let n = actions.len();
    let grid = same_text(kind, "grid");
    let groups = if grid {
        let columns: usize = match layout.columns {
            Some(c) => if c == 0 {
                1
            } else {
                c as usize
            },
            None => 3,
        };
        grid_groups(n, columns)
    } else {
        linear_groups(n)
    };
    LayoutPlan { orientation, grid, groups }
}

/// Whether action `k` sits in row `k / c` at position `k % c` of `groups`.
pub open spec fn in_its_cell(groups: Seq<Seq<usize>>, k: int, c: int) -> bool {
    &&& k / c < groups.len()
    &&& k % c < groups[k / c].len()
    &&& groups[k / c][k % c] == k
}

/// A grid plan keeps every action exactly once and in order: action `k` sits
/// in row `k / c` at position `k % c`, and every entry names an action.
pub proof fn lemma_grid_keeps_every_action(groups: Seq<Seq<usize>>, n: nat, c: nat)
    requires
        c > 0,
        grid_plan(groups, n, c),
    ensures
        forall|k: int| 0 <= k < n ==> #[trigger] in_its_cell(groups, k, c as int),
        forall|i: int, j: int|
            0 <= i < groups.len() && 0 <= j < groups[i].len() ==> groups[i][j] < n,
{
    assert forall|k: int| 0 <= k < n implies #[trigger] in_its_cell(groups, k, c as int) by {
        let ci = c as int;
        let q = k / ci;
        let m = k % ci;
        vstd::arithmetic::div_mod::lemma_fundamental_div_mod(k, ci);
        vstd::arithmetic::div_mod::lemma_mod_bound(k, ci);
        vstd::arithmetic::div_mod::lemma_div_pos_is_pos(k, ci);
        assert(q < groups.len()) by {
            if q >= groups.len() {
                assert(ci * q >= ci * groups.len()) by (nonlinear_arith)
                    requires
                        q >= groups.len(),
                        ci > 0,
                ;
                assert(ci * groups.len() == groups.len() * ci) by (nonlinear_arith);
            }
        }
        assert(grid_row(groups[q], q, n, c));
        assert(q * ci == ci * q) by (nonlinear_arith);
    }
    assert forall|i: int, j: int| 0 <= i < groups.len() && 0 <= j < groups[i].len() implies groups[i][j]
        < n by {
        assert(grid_row(groups[i], i, n, c));
    }
}

} // verus!

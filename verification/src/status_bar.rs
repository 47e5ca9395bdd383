//! The status-bar row: for each workspace with application icons, its
//! number followed by those icons, laid out left to right.

use vstd::prelude::*;

verus! {

/// A workspace shown in the status bar: its number and which of its
/// applications (by position in its section) have an icon.
pub struct StatusGroup {
    /// The workspace's position in the list.
    pub section: usize,
    pub number: u64,
    pub members: Vec<usize>,
}

/// The positions `k` with `flags[k]`, in order.
pub open spec fn marked(flags: Seq<bool>) -> Seq<usize>
    decreases flags.len(),
{
    if flags.len() == 0 {
        seq![]
    } else if flags.last() {
        marked(flags.drop_last()).push((flags.len() - 1) as usize)
    } else {
        marked(flags.drop_last())
    }
}

/// The status groups: each workspace (its position and number) with the positions of
/// its applications that have icons, in order, leaving out the workspaces
/// with no icon at all.
pub open spec fn groups_of(numbers: Seq<u64>, icon_found: Seq<Seq<bool>>) -> Seq<(usize, u64, Seq<usize>)>
    decreases numbers.len(),
{
    if numbers.len() == 0 || icon_found.len() == 0 {
        seq![]
    } else {
        let prev = groups_of(numbers.drop_last(), icon_found.drop_last());
        let m = marked(icon_found.last());
        if m.len() == 0 {
            prev
        } else {
            prev.push(((numbers.len() - 1) as usize, numbers.last(), m))
        }
    }
}

pub open spec fn group_view(g: StatusGroup) -> (usize, u64, Seq<usize>) {
    (g.section, g.number, g.members@)
}

fn marked_positions(flags: &Vec<bool>) -> (m: Vec<usize>)
    ensures
        m@ == marked(flags@),
{
    let mut m: Vec<usize> = Vec::new();
    let mut k: usize = 0;
    while k < flags.len()
        invariant
            k <= flags.len(),
            m@ == marked(flags@.take(k as int)),
        decreases flags.len() - k,
    {
        assert(flags@.take(k + 1).drop_last() =~= flags@.take(k as int));
        if flags[k] {
            m.push(k);
        }
        k = k + 1;
    }
    assert(flags@.take(flags.len() as int) =~= flags@);
    m
}

/// The status groups of the workspaces numbered `numbers`, where
/// `icon_found[p][k]` tells whether application `k` of workspace `p` has
/// an icon (see `groups_of`).
pub fn status_groups(numbers: &Vec<u64>, icon_found: &Vec<Vec<bool>>) -> (groups: Vec<StatusGroup>)
    requires
        numbers.len() == icon_found.len(),
    ensures
        groups@.map_values(|g: StatusGroup| group_view(g)) == groups_of(
            numbers@,
            icon_found@.map_values(|f: Vec<bool>| f@),
        ),
{
    let ghost flags = icon_found@.map_values(|f: Vec<bool>| f@);
    let mut groups: Vec<StatusGroup> = Vec::new();
    let mut p: usize = 0;
    while p < numbers.len()
        invariant
            p <= numbers.len(),
            numbers.len() == icon_found.len(),
            flags == icon_found@.map_values(|f: Vec<bool>| f@),
            groups@.map_values(|g: StatusGroup| group_view(g)) == groups_of(
                numbers@.take(p as int),
                flags.take(p as int),
            ),
        decreases numbers.len() - p,
    {
        assert(numbers@.take(p + 1).drop_last() =~= numbers@.take(p as int));
        assert(flags.take(p + 1).drop_last() =~= flags.take(p as int));
        assert(flags.take(p + 1).last() == icon_found@[p as int]@);
        let members = marked_positions(&icon_found[p]);
        let ghost before = groups@.map_values(|g: StatusGroup| group_view(g));
        if members.len() > 0 {
            groups.push(StatusGroup { section: p, number: numbers[p], members });
            assert(groups@.map_values(|g: StatusGroup| group_view(g)) =~= before.push(
                (p, numbers@[p as int], marked(icon_found@[p as int]@)),
            ));
        }
        p = p + 1;
    }
    assert(numbers@.take(numbers.len() as int) =~= numbers@);
    assert(flags.take(numbers.len() as int) =~= flags);
    groups
}

/// The width a workspace number takes in the row.
pub open spec fn number_advance() -> int {
    12
}

/// The width an icon takes in the row, gap included.
pub open spec fn icon_advance() -> int {
    19
}

/// The side of an icon's square.
pub open spec fn icon_side() -> int {
    17
}

/// The sum of `sizes`.
pub open spec fn total(sizes: Seq<usize>) -> int
    decreases sizes.len(),
{
    if sizes.len() == 0 {
        0
    } else {
        total(sizes.drop_last()) + sizes.last()
    }
}

/// Where group `g`'s number is drawn: after the numbers and icons of the
/// groups before it.
pub open spec fn group_x(sizes: Seq<usize>, g: int) -> int {
    number_advance() * g + icon_advance() * total(sizes.take(g))
}

/// Where icon `k` of group `g` is drawn.
pub open spec fn icon_x(sizes: Seq<usize>, g: int, k: int) -> int {
    group_x(sizes, g) + number_advance() + icon_advance() * k
}

/// The row's width: a number's advance per group and an icon's advance per icon.
pub open spec fn row_width(sizes: Seq<usize>) -> int {
    number_advance() * sizes.len() + icon_advance() * total(sizes)
}

/// Horizontal positions of the row's marks, and its width.
pub struct StatusLayout {
    pub number_x: Vec<u64>,
    pub icon_x: Vec<Vec<u64>>,
    pub width: u64,
}

pub proof fn total_of_prefix_grows(sizes: Seq<usize>, g: int)
    requires
        0 <= g < sizes.len(),
    ensures
        total(sizes.take(g + 1)) == total(sizes.take(g)) + sizes[g],
{
    assert(sizes.take(g + 1).drop_last() =~= sizes.take(g));
}

pub proof fn total_of_prefix_bounded(sizes: Seq<usize>, g: int)
    requires
        0 <= g <= sizes.len(),
    ensures
        0 <= total(sizes.take(g)) <= total(sizes),
    decreases sizes.len() - g,
{
    if g < sizes.len() {
        total_of_prefix_grows(sizes, g);
        total_of_prefix_bounded(sizes, g + 1);
        total_nonnegative(sizes.take(g));
    } else {
        assert(sizes.take(g) =~= sizes);
        total_nonnegative(sizes);
    }
}

proof fn total_nonnegative(sizes: Seq<usize>)
    ensures
        total(sizes) >= 0,
    decreases sizes.len(),
{
    if sizes.len() > 0 {
        total_nonnegative(sizes.drop_last());
    }
}

/// The positions of the row's marks for groups of `sizes` icons.
pub fn status_layout(sizes: &Vec<usize>) -> (layout: StatusLayout)
    requires
        row_width(sizes@) <= u64::MAX,
    ensures
        layout.width == row_width(sizes@),
        layout.number_x@.len() == sizes@.len(),
        layout.icon_x@.len() == sizes@.len(),
        forall|g: int|
            0 <= g < sizes@.len() ==> #[trigger] layout.number_x@[g] == group_x(sizes@, g),
        forall|g: int|
            0 <= g < sizes@.len() ==> (#[trigger] layout.icon_x@[g])@.len() == sizes@[g],
        forall|g: int, k: int|
            0 <= g < sizes@.len() && 0 <= k < sizes@[g] ==> #[trigger] layout.icon_x@[g]@[k]
                == icon_x(sizes@, g, k),
{
    let mut number_x: Vec<u64> = Vec::new();
    let mut icons: Vec<Vec<u64>> = Vec::new();
    let mut x: u64 = 0;
    let mut g: usize = 0;
    proof {
        assert(sizes@.take(0) =~= Seq::<usize>::empty());
    }
    while g < sizes.len()
        invariant
            g <= sizes.len(),
            row_width(sizes@) <= u64::MAX,
            x == group_x(sizes@, g as int),
            number_x@.len() == g,
            icons@.len() == g,
            forall|h: int| 0 <= h < g ==> #[trigger] number_x@[h] == group_x(sizes@, h),
            forall|h: int| 0 <= h < g ==> (#[trigger] icons@[h])@.len() == sizes@[h],
            forall|h: int, k: int|
                0 <= h < g && 0 <= k < sizes@[h] ==> #[trigger] icons@[h]@[k] == icon_x(
                    sizes@,
                    h,
                    k,
                ),
        decreases sizes.len() - g,
    {
        proof {
            total_of_prefix_grows(sizes@, g as int);
            total_of_prefix_bounded(sizes@, g as int + 1);
        }
        number_x.push(x);
        let mut row: Vec<u64> = Vec::new();
        let mut k: usize = 0;
        let size = sizes[g];
        x = x + 12;
        while k < size
            invariant
                k <= size,
                size == sizes@[g as int],
                g < sizes.len(),
                row_width(sizes@) <= u64::MAX,
                total(sizes@.take(g + 1)) <= total(sizes@),
                total(sizes@.take(g + 1)) == total(sizes@.take(g as int)) + size,
                x == group_x(sizes@, g as int) + number_advance() + icon_advance() * k,
                row@.len() == k,
                forall|j: int| 0 <= j < k ==> #[trigger] row@[j] == icon_x(sizes@, g as int, j),
            decreases size - k,
        {
            row.push(x);
            proof {
                assert(x + icon_advance() <= group_x(sizes@, g + 1)) by (nonlinear_arith)
                    requires
                        x == group_x(sizes@, g as int) + number_advance() + icon_advance() * k,
                        k < size,
                        group_x(sizes@, g + 1) == number_advance() * (g + 1) + icon_advance()
                            * total(sizes@.take(g + 1)),
                        group_x(sizes@, g as int) == number_advance() * g + icon_advance()
                            * total(sizes@.take(g as int)),
                        total(sizes@.take(g + 1)) == total(sizes@.take(g as int)) + size,
                        number_advance() == 12,
                        icon_advance() == 19,
                ;
                assert(group_x(sizes@, g + 1) <= row_width(sizes@)) by (nonlinear_arith)
                    requires
                        group_x(sizes@, g + 1) == number_advance() * (g + 1) + icon_advance()
                            * total(sizes@.take(g + 1)),
                        row_width(sizes@) == number_advance() * sizes@.len() + icon_advance()
                            * total(sizes@),
                        g + 1 <= sizes@.len(),
                        total(sizes@.take(g + 1)) <= total(sizes@),
                        number_advance() == 12,
                        icon_advance() == 19,
                ;
            }
            x = x + 19;
            k = k + 1;
        }
        proof {
            assert(x == group_x(sizes@, g + 1)) by (nonlinear_arith)
                requires
                    x == group_x(sizes@, g as int) + number_advance() + icon_advance() * size,
                    group_x(sizes@, g + 1) == number_advance() * (g + 1) + icon_advance() * total(
                        sizes@.take(g + 1),
                    ),
                    group_x(sizes@, g as int) == number_advance() * g + icon_advance() * total(
                        sizes@.take(g as int),
                    ),
                    total(sizes@.take(g + 1)) == total(sizes@.take(g as int)) + size,
                    number_advance() == 12,
                    icon_advance() == 19,
            ;
        }
        icons.push(row);
        g = g + 1;
    }
    proof {
        assert(sizes@.take(sizes@.len() as int) =~= sizes@);
    }
    StatusLayout { number_x, icon_x: icons, width: x }
}

} // verus!

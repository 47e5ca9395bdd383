//! What holds of the menu model for every list of workspaces and windows.

use vstd::prelude::*;
use crate::indicator::{
    app_key, distinct_apps, has_key, is_stable_sort, lowercase, name_keys, window_entry,
    window_key, AppView, WindowView,
};
use crate::indicator::sorted_prefix_with;
use crate::order::{lex_le, lex_le_antisymmetric};
use crate::status_bar::{
    group_x, groups_of, icon_advance, icon_side, icon_x, marked, number_advance, row_width,
    total, total_of_prefix_grows,
};

verus! {

proof fn listing_only_grows(ws: Seq<WindowView>)
    requires
        ws.len() > 0,
    ensures
        distinct_apps(ws.drop_last()).len() <= distinct_apps(ws).len(),
        forall|i: int|
            0 <= i < distinct_apps(ws.drop_last()).len() ==> #[trigger] distinct_apps(ws)[i]
                == distinct_apps(ws.drop_last())[i],
{
}

/// No two listed applications of a workspace share a key (bundle id, or
/// name where there is none).
pub proof fn listed_keys_are_distinct(ws: Seq<WindowView>)
    ensures
        forall|i: int, j: int|
            #![trigger distinct_apps(ws)[i], distinct_apps(ws)[j]]
            0 <= i < j < distinct_apps(ws).len() ==> app_key(distinct_apps(ws)[i]) != app_key(
                distinct_apps(ws)[j],
            ),
    decreases ws.len(),
{
    if ws.len() > 0 {
        listed_keys_are_distinct(ws.drop_last());
        listing_only_grows(ws);
        let prev = distinct_apps(ws.drop_last());
        let apps = distinct_apps(ws);
        assert forall|i: int, j: int|
            #![trigger apps[i], apps[j]]
            0 <= i < j < apps.len() implies app_key(apps[i]) != app_key(apps[j]) by {
            if j >= prev.len() {
                assert(apps[i] == prev[i]);
                if app_key(apps[i]) == app_key(apps[j]) {
                    assert(has_key(prev, app_key(apps[j])));
                }
            } else {
                assert(apps[i] == prev[i] && apps[j] == prev[j]);
            }
        }
    }
}

/// Every window whose application has a key has that application listed.
pub proof fn every_keyed_window_is_listed(ws: Seq<WindowView>, j: int)
    requires
        0 <= j < ws.len(),
        window_key(ws[j]) is Some,
    ensures
        has_key(distinct_apps(ws), window_key(ws[j])->0),
    decreases ws.len(),
{
    let k = window_key(ws[j])->0;
    let prev = distinct_apps(ws.drop_last());
    listing_only_grows(ws);
    if j < ws.len() - 1 {
        every_keyed_window_is_listed(ws.drop_last(), j);
        let m = choose|m: int| 0 <= m < prev.len() && app_key(#[trigger] prev[m]) == k;
        assert(distinct_apps(ws)[m] == prev[m]);
    } else if !has_key(prev, k) {
        assert(distinct_apps(ws)[prev.len() as int] == window_entry(ws.last()));
    } else {
        let m = choose|m: int| 0 <= m < prev.len() && app_key(#[trigger] prev[m]) == k;
        assert(distinct_apps(ws)[m] == prev[m]);
    }
}

/// Every listed application is the entry of the first window with its key.
pub proof fn each_listing_comes_from_the_first_window(ws: Seq<WindowView>, i: int)
    requires
        0 <= i < distinct_apps(ws).len(),
    ensures
        exists|j: int|
            #![trigger ws[j]]
            0 <= j < ws.len() && distinct_apps(ws)[i] == window_entry(ws[j]) && window_key(ws[j])
                == Some(app_key(distinct_apps(ws)[i])) && forall|m: int|
                0 <= m < j ==> window_key(#[trigger] ws[m]) != Some(
                    app_key(distinct_apps(ws)[i]),
                ),
    decreases ws.len(),
{
    let prev = distinct_apps(ws.drop_last());
    listing_only_grows(ws);
    let a = distinct_apps(ws)[i];
    if i < prev.len() {
        each_listing_comes_from_the_first_window(ws.drop_last(), i);
        let j = choose|j: int|
            #![trigger ws.drop_last()[j]]
            0 <= j < ws.drop_last().len() && prev[i] == window_entry(ws.drop_last()[j])
                && window_key(ws.drop_last()[j]) == Some(app_key(prev[i])) && forall|m: int|
                0 <= m < j ==> window_key(#[trigger] ws.drop_last()[m]) != Some(app_key(prev[i]));
        assert(ws[j] == ws.drop_last()[j]);
        assert forall|m: int| 0 <= m < j implies window_key(#[trigger] ws[m]) != Some(
            app_key(a),
        ) by {
            assert(ws[m] == ws.drop_last()[m]);
        }
    } else {
        let j = ws.len() - 1;
        let k = window_key(ws[j])->0;
        assert(a == window_entry(ws[j]));
        assert forall|m: int| 0 <= m < j implies window_key(#[trigger] ws[m]) != Some(
            app_key(a),
        ) by {
            if window_key(ws[m]) == Some(k) {
                assert(ws.drop_last()[m] == ws[m]);
                every_keyed_window_is_listed(ws.drop_last(), m);
            }
        }
    }
}

/// Applications sorted for the menu come in the order of their lowercase
/// names.
pub proof fn sorted_applications_are_in_name_order(
    input: Seq<AppView>,
    output: Seq<AppView>,
    a: int,
    b: int,
)
    requires
        is_stable_sort(input, name_keys(input), output),
        0 <= a < b < output.len(),
    ensures
        lex_le(lowercase(output[a].name), lowercase(output[b].name)),
{
    let perm = choose|perm: Seq<int>|
        crate::indicator::sorted_prefix_with(
            input,
            name_keys(input),
            output,
            perm,
            input.len() as int,
        );
    assert(output[a] == input[perm[a]] && output[b] == input[perm[b]]);
    assert(lex_le(name_keys(input)[perm[a]], name_keys(input)[perm[b]]));
}

/// Applications with the same lowercase name keep their relative order
/// when sorted for the menu.
pub proof fn sorting_keeps_ties_in_order(
    input: Seq<AppView>,
    output: Seq<AppView>,
    perm: Seq<int>,
    a: int,
    b: int,
)
    requires
        crate::indicator::sorted_prefix_with(
            input,
            name_keys(input),
            output,
            perm,
            input.len() as int,
        ),
        0 <= a < b < output.len(),
        lowercase(output[a].name) == lowercase(output[b].name),
    ensures
        perm[a] < perm[b],
{
    assert(output[a] == input[perm[a]] && output[b] == input[perm[b]]);
    assert(name_keys(input)[perm[a]] == name_keys(input)[perm[b]]);
}

/// The row's marks follow one another without overlap: each group's
/// number, then its icons (each a square of `icon_side`), and the next
/// group begins where the last icon's advance ends; the row ends exactly at
/// the width the indicator's view is given.
pub proof fn row_marks_fit_the_width(sizes: Seq<usize>, g: int)
    requires
        0 <= g < sizes.len(),
    ensures
        icon_x(sizes, g, sizes[g] as int) == group_x(sizes, g + 1),
        forall|k: int| 0 <= k < sizes[g] ==> #[trigger] icon_x(sizes, g, k) + icon_side() < icon_x(sizes, g, k + 1),
        group_x(sizes, sizes.len() as int) == row_width(sizes),
{
    total_of_prefix_grows(sizes, g);
    assert(sizes.take(sizes.len() as int) =~= sizes);
    assert(icon_x(sizes, g, sizes[g] as int) == group_x(sizes, g + 1)) by (nonlinear_arith)
        requires
            icon_x(sizes, g, sizes[g] as int) == group_x(sizes, g) + number_advance()
                + icon_advance() * sizes[g],
            group_x(sizes, g) == number_advance() * g + icon_advance() * total(sizes.take(g)),
            group_x(sizes, g + 1) == number_advance() * (g + 1) + icon_advance() * total(
                sizes.take(g + 1),
            ),
            total(sizes.take(g + 1)) == total(sizes.take(g)) + sizes[g],
            number_advance() == 12,
            icon_advance() == 19,
    ;
}

/// Only workspaces with at least one application icon appear in the row.
pub proof fn row_groups_have_icons(numbers: Seq<u64>, icon_found: Seq<Seq<bool>>, i: int)
    requires
        0 <= i < groups_of(numbers, icon_found).len(),
    ensures
        groups_of(numbers, icon_found)[i].2.len() > 0,
    decreases numbers.len(),
{
    let prev = groups_of(numbers.drop_last(), icon_found.drop_last());
    if i < prev.len() {
        row_groups_have_icons(numbers.drop_last(), icon_found.drop_last(), i);
    }
}

proof fn marked_sound(flags: Seq<bool>)
    requires
        flags.len() <= usize::MAX,
    ensures
        forall|i: int|
            0 <= i < marked(flags).len() ==> #[trigger] marked(flags)[i] < flags.len()
                && flags[marked(flags)[i] as int],
    decreases flags.len(),
{
    if flags.len() > 0 {
        let prev = flags.drop_last();
        marked_sound(prev);
        assert forall|i: int| 0 <= i < marked(flags).len() implies #[trigger] marked(flags)[i]
            < flags.len() && flags[marked(flags)[i] as int] by {
            if i < marked(prev).len() {
                assert(marked(flags)[i] == marked(prev)[i]);
                assert(prev[marked(prev)[i] as int] == flags[marked(prev)[i] as int]);
            }
        }
    }
}

/// The members of a group are exactly the applications with an icon.
pub proof fn marked_are_those_with_icons(flags: Seq<bool>, k: int)
    requires
        0 <= k < flags.len(),
        flags.len() <= usize::MAX,
    ensures
        flags[k] <==> marked(flags).contains(k as usize),
    decreases flags.len(),
{
    let prev = flags.drop_last();
    marked_sound(prev);
    if k < flags.len() - 1 {
        marked_are_those_with_icons(prev, k);
        assert(prev[k] == flags[k]);
        if flags.last() {
            if flags[k] {
                let i = choose|i: int| 0 <= i < marked(prev).len() && marked(prev)[i] == k as usize;
                assert(marked(flags)[i] == k as usize);
            }
            if marked(flags).contains(k as usize) {
                let i = choose|i: int|
                    0 <= i < marked(flags).len() && marked(flags)[i] == k as usize;
                if i < marked(prev).len() {
                    assert(marked(prev)[i] == k as usize);
                }
            }
        }
    } else {
        if flags.last() {
            assert(marked(flags)[marked(prev).len() as int] == k as usize);
        } else if marked(flags).contains(k as usize) {
            let i = choose|i: int|
                0 <= i < marked(flags).len() && marked(flags)[i] == k as usize;
            assert(marked(prev)[i] < prev.len());
        }
    }
}

proof fn permutation_is_onto(perm: Seq<int>, n: int, x: int)
    requires
        perm.len() == n,
        forall|k: int| 0 <= k < n ==> 0 <= #[trigger] perm[k] < n,
        forall|a: int, b: int|
            #![trigger perm[a], perm[b]]
            0 <= a < b < n ==> perm[a] != perm[b],
        0 <= x < n,
    ensures
        exists|k: int| 0 <= k < n && perm[k] == x,
{
    assert(perm.no_duplicates()) by {
        assert forall|a: int, b: int|
            0 <= a < perm.len() && 0 <= b < perm.len() && a != b implies perm[a] != perm[b] by {
            if a < b {
                assert(perm[a] != perm[b]);
            } else {
                assert(perm[b] != perm[a]);
            }
        }
    }
    perm.unique_seq_to_set();
    vstd::set_lib::lemma_int_range(0, n);
    vstd::seq_lib::seq_to_set_is_finite(perm);
    let range = vstd::set_lib::set_int_range(0, n);
    assert(perm.to_set().subset_of(range)) by {
        assert forall|v: int| perm.to_set().contains(v) implies range.contains(v) by {
            let k = choose|k: int| 0 <= k < perm.len() && perm[k] == v;
            assert(0 <= perm[k] < n);
        }
    }
    vstd::set_lib::lemma_subset_equality(perm.to_set(), range);
    assert(range.contains(x));
    assert(perm.to_set().contains(x));
}

proof fn sorted_permutations_agree(
    input: Seq<AppView>,
    keys: Seq<Seq<char>>,
    o1: Seq<AppView>,
    p1: Seq<int>,
    o2: Seq<AppView>,
    p2: Seq<int>,
    a: int,
)
    requires
        sorted_prefix_with(input, keys, o1, p1, input.len() as int),
        sorted_prefix_with(input, keys, o2, p2, input.len() as int),
        0 <= a < input.len(),
    ensures
        forall|m: int| 0 <= m <= a ==> p1[m] == p2[m],
    decreases a,
{
    let n = input.len() as int;
    if a > 0 {
        sorted_permutations_agree(input, keys, o1, p1, o2, p2, a - 1);
    }
    let x = p1[a];
    let y = p2[a];
    if x != y {
        permutation_is_onto(p1, n, y);
        permutation_is_onto(p2, n, x);
        let b = choose|k: int| 0 <= k < n && p1[k] == y;
        let c = choose|k: int| 0 <= k < n && p2[k] == x;
        if b < a {
            assert(p2[b] == y);
            assert(p2[b] != p2[a]);
        }
        if c < a {
            assert(p1[c] == x);
            assert(p1[c] != p1[a]);
        }
        assert(b > a && c > a);
        assert(lex_le(keys[p1[a]], keys[p1[b]]));
        assert(lex_le(keys[p2[a]], keys[p2[c]]));
        lex_le_antisymmetric(keys[x], keys[y]);
        assert(keys[p1[a]] == keys[p1[b]] ==> p1[a] < p1[b]);
        assert(keys[p2[a]] == keys[p2[c]] ==> p2[a] < p2[c]);
    }
}

/// A stable sort is unique: two stable sorts of the same applications by
/// the same keys give the same list.
pub proof fn stable_sort_is_unique(
    input: Seq<AppView>,
    keys: Seq<Seq<char>>,
    o1: Seq<AppView>,
    o2: Seq<AppView>,
)
    requires
        is_stable_sort(input, keys, o1),
        is_stable_sort(input, keys, o2),
    ensures
        o1 == o2,
{
    let n = input.len() as int;
    let p1 = choose|p: Seq<int>| sorted_prefix_with(input, keys, o1, p, n);
    let p2 = choose|p: Seq<int>| sorted_prefix_with(input, keys, o2, p, n);
    if n > 0 {
        sorted_permutations_agree(input, keys, o1, p1, o2, p2, n - 1);
        assert forall|k: int| 0 <= k < n implies o1[k] == o2[k] by {
            assert(o1[k] == input[p1[k]]);
            assert(o2[k] == input[p2[k]]);
        }
    }
    assert(o1 =~= o2);
}

/// Each status group is the workspace at its section position: its number
/// is the number given for that workspace, and its members are exactly that
/// workspace's applications with icons; and every workspace with at least
/// one icon has a group.
pub proof fn row_groups_are_their_workspaces(
    numbers: Seq<u64>,
    icon_found: Seq<Seq<bool>>,
)
    requires
        numbers.len() == icon_found.len(),
        numbers.len() <= usize::MAX,
    ensures
        forall|i: int|
            #![trigger groups_of(numbers, icon_found)[i]]
            0 <= i < groups_of(numbers, icon_found).len() ==> {
                let g = groups_of(numbers, icon_found)[i];
                &&& g.0 < numbers.len()
                &&& g.1 == numbers[g.0 as int]
                &&& g.2 == marked(icon_found[g.0 as int])
            },
        forall|p: int|
            0 <= p < numbers.len() && marked(#[trigger] icon_found[p]).len() > 0 ==> exists|i: int|
                0 <= i < groups_of(numbers, icon_found).len() && #[trigger] groups_of(
                    numbers,
                    icon_found,
                )[i].0 == p,
    decreases numbers.len(),
{
    if numbers.len() > 0 {
        let ns = numbers.drop_last();
        let fs = icon_found.drop_last();
        row_groups_are_their_workspaces(ns, fs);
        let prev = groups_of(ns, fs);
        let all = groups_of(numbers, icon_found);
        assert forall|i: int|
            #![trigger all[i]]
            0 <= i < all.len() implies {
                let g = all[i];
                &&& g.0 < numbers.len()
                &&& g.1 == numbers[g.0 as int]
                &&& g.2 == marked(icon_found[g.0 as int])
            } by {
            if i < prev.len() {
                assert(all[i] == prev[i]);
                let g = prev[i];
                assert(ns[g.0 as int] == numbers[g.0 as int]);
                assert(fs[g.0 as int] == icon_found[g.0 as int]);
            }
        }
        assert forall|p: int|
            0 <= p < numbers.len() && marked(#[trigger] icon_found[p]).len() > 0 implies exists|
            i: int,
        | 0 <= i < all.len() && #[trigger] all[i].0 == p by {
            if p < numbers.len() - 1 {
                assert(fs[p] == icon_found[p]);
                let i = choose|i: int| 0 <= i < prev.len() && #[trigger] prev[i].0 == p;
                assert(all[i] == prev[i]);
            } else {
                assert(all[prev.len() as int].0 == p);
            }
        }
    }
}

} // verus!

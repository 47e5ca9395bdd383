//! The menu-bar model: Rift's workspaces, as the indicator lists them in
//! its menu and shows them in the status bar.

use vstd::prelude::*;
use crate::text::opt_chars;

verus! {

/// A window as Rift reports it: the bundle id and name of its application,
/// where known.
pub struct WindowInfo {
    pub bundle_id: Option<String>,
    pub app_name: Option<String>,
}

pub struct WindowView {
    pub bundle_id: Option<Seq<char>>,
    pub app_name: Option<Seq<char>>,
}

impl View for WindowInfo {
    type V = WindowView;

    open spec fn view(&self) -> WindowView {
        WindowView { bundle_id: opt_chars(self.bundle_id), app_name: opt_chars(self.app_name) }
    }
}

/// An application listed under a workspace: its bundle id, if known, and
/// the name shown for it.
pub struct AppEntry {
    pub bundle_id: Option<String>,
    pub name: String,
}

pub struct AppView {
    pub bundle_id: Option<Seq<char>>,
    pub name: Seq<char>,
}

impl View for AppEntry {
    type V = AppView;

    open spec fn view(&self) -> AppView {
        AppView { bundle_id: opt_chars(self.bundle_id), name: self.name@ }
    }
}

pub open spec fn windows_view(ws: Seq<WindowInfo>) -> Seq<WindowView> {
    ws.map_values(|w: WindowInfo| w@)
}

pub open spec fn apps_view(apps: Seq<AppEntry>) -> Seq<AppView> {
    apps.map_values(|a: AppEntry| a@)
}

/// What tells a window's application apart: its bundle id, or else its
/// name; a window with neither is not listed.
pub open spec fn window_key(w: WindowView) -> Option<Seq<char>> {
    match w.bundle_id {
        Some(b) => Some(b),
        None => w.app_name,
    }
}

/// The entry a window with a key gives: its bundle id, and its application
/// name, or the key when the name is unknown.
pub open spec fn window_entry(w: WindowView) -> AppView {
    AppView {
        bundle_id: w.bundle_id,
        name: match w.app_name {
            Some(n) => n,
            None => match window_key(w) {
                Some(k) => k,
                None => Seq::empty(),
            },
        },
    }
}

/// The key of a listed application: its bundle id, or else its name.
pub open spec fn app_key(a: AppView) -> Seq<char> {
    match a.bundle_id {
        Some(b) => b,
        None => a.name,
    }
}

pub open spec fn has_key(apps: Seq<AppView>, k: Seq<char>) -> bool {
    exists|i: int| 0 <= i < apps.len() && app_key(#[trigger] apps[i]) == k
}

/// The applications of the windows, in window order, each once: the entry
/// of the first window with each key.
pub open spec fn distinct_apps(ws: Seq<WindowView>) -> Seq<AppView>
    decreases ws.len(),
{
    if ws.len() == 0 {
        seq![]
    } else {
        let prev = distinct_apps(ws.drop_last());
        match window_key(ws.last()) {
            None => prev,
            Some(k) => if has_key(prev, k) {
                prev
            } else {
                prev.push(window_entry(ws.last()))
            },
        }
    }
}

fn copy_opt(o: &Option<String>) -> (c: Option<String>)
    ensures
        opt_chars(c) == opt_chars(*o),
{
    match o {
        Some(s) => Some(s.clone()),
        None => None,
    }
}

/// The applications of `windows`, each once (see `distinct_apps`).
pub fn collect_applications(windows: &Vec<WindowInfo>) -> (apps: Vec<AppEntry>)
    ensures
        apps_view(apps@) == distinct_apps(windows_view(windows@)),
{
    let ghost ws = windows_view(windows@);
    let mut apps: Vec<AppEntry> = Vec::new();
    let mut keys: Vec<String> = Vec::new();
    let mut i: usize = 0;
    while i < windows.len()
        invariant
            i <= windows.len(),
            ws == windows_view(windows@),
            apps_view(apps@) == distinct_apps(ws.take(i as int)),
            keys@.len() == apps@.len(),
            forall|j: int| 0 <= j < keys@.len() ==> #[trigger] keys@[j]@ == app_key(apps@[j]@),
        decreases windows.len() - i,
    {
        let w = &windows[i];
        assert(ws.take(i + 1).drop_last() =~= ws.take(i as int));
        assert(ws.take(i + 1).last() == w@);
        let key: Option<&String> = match &w.bundle_id {
            Some(b) => Some(b),
            None => match &w.app_name {
                Some(n) => Some(n),
                None => None,
            },
        };
        match key {
            None => {},
            Some(k) => {
                let mut seen = false;
                let mut j: usize = 0;
                while j < keys.len()
                    invariant
                        j <= keys.len(),
                        seen <==> exists|m: int| 0 <= m < j && keys@[m]@ == k@,
                    decreases keys.len() - j,
                {
                    if keys[j] == *k {
                        seen = true;
                    }
                    j = j + 1;
                }
                let ghost prev = apps_view(apps@);
                assert(seen <==> has_key(prev, k@)) by {
                    if seen {
                        let m = choose|m: int| 0 <= m < keys.len() && keys@[m]@ == k@;
                        assert(app_key(prev[m]) == k@);
                    }
                    if has_key(prev, k@) {
                        let m = choose|m: int| 0 <= m < prev.len() && app_key(#[trigger] prev[m]) == k@;
                        assert(keys@[m]@ == k@);
                    }
                }
                if !seen {
                    let name = match &w.app_name {
                        Some(n) => n.clone(),
                        None => k.clone(),
                    };
                    let entry = AppEntry { bundle_id: copy_opt(&w.bundle_id), name };
                    assert(entry@ == window_entry(w@));
                    apps.push(entry);
                    keys.push(k.clone());
                    assert(apps_view(apps@) =~= prev.push(window_entry(w@)));
                }
            },
        }
        i = i + 1;
    }
    assert(ws.take(windows.len() as int) =~= ws);
    apps
}

} // verus!

verus! {

/// `output` is `input` sorted by `keys` (`keys[i]` belongs to `input[i]`),
/// with the items of equal keys in their input order: `output[k]` is
/// `input[perm[k]]` for a permutation `perm` of the first `n` positions.
pub open spec fn sorted_prefix_with(
    input: Seq<AppView>,
    keys: Seq<Seq<char>>,
    output: Seq<AppView>,
    perm: Seq<int>,
    n: int,
) -> bool {
    &&& 0 <= n <= input.len()
    &&& keys.len() == input.len()
    &&& output.len() == n
    &&& perm.len() == n
    &&& forall|k: int| 0 <= k < n ==> 0 <= #[trigger] perm[k] < n
    &&& forall|a: int, b: int|
        #![trigger perm[a], perm[b]]
        0 <= a < b < n ==> perm[a] != perm[b]
    &&& forall|k: int| 0 <= k < n ==> #[trigger] output[k] == input[perm[k]]
    &&& forall|a: int, b: int|
        #![trigger perm[a], perm[b]]
        0 <= a < b < n ==> crate::order::lex_le(keys[perm[a]], keys[perm[b]])
    &&& forall|a: int, b: int|
        #![trigger perm[a], perm[b]]
        0 <= a < b < n && keys[perm[a]] == keys[perm[b]] ==> perm[a] < perm[b]
}

/// Key vectors taken as character sequences.
pub open spec fn keys_view(keys: Seq<Vec<char>>) -> Seq<Seq<char>> {
    keys.map_values(|k: Vec<char>| k@)
}

/// `output` is a stable sort of `input` by `keys`.
pub open spec fn is_stable_sort(
    input: Seq<AppView>,
    keys: Seq<Seq<char>>,
    output: Seq<AppView>,
) -> bool {
    exists|perm: Seq<int>| sorted_prefix_with(input, keys, output, perm, input.len() as int)
}

proof fn insert_keeps_sorted(
    input: Seq<AppView>,
    keys: Seq<Seq<char>>,
    output: Seq<AppView>,
    perm: Seq<int>,
    n: int,
    pos: int,
)
    requires
        sorted_prefix_with(input, keys, output, perm, n),
        n < input.len(),
        0 <= pos <= n,
        pos == 0 || crate::order::lex_le(keys[perm[pos - 1]], keys[n]),
        forall|j: int| pos <= j < n ==> !crate::order::lex_le(#[trigger] keys[perm[j]], keys[n]),
    ensures
        sorted_prefix_with(
            input,
            keys,
            output.insert(pos, input[n]),
            perm.insert(pos, n),
            n + 1,
        ),
{
    let p2 = perm.insert(pos, n);
    let o2 = output.insert(pos, input[n]);
    assert forall|k: int| 0 <= k < n + 1 implies 0 <= #[trigger] p2[k] < n + 1 by {
        if k < pos {
            assert(p2[k] == perm[k]);
        } else if k > pos {
            assert(p2[k] == perm[k - 1]);
        }
    }
    assert forall|k: int| 0 <= k < n + 1 implies #[trigger] o2[k] == input[p2[k]] by {
        if k < pos {
            assert(p2[k] == perm[k]);
        } else if k > pos {
            assert(p2[k] == perm[k - 1]);
        }
    }
    assert forall|a: int, b: int|
        #![trigger p2[a], p2[b]]
        0 <= a < b < n + 1 implies p2[a] != p2[b] && crate::order::lex_le(
            keys[p2[a]],
            keys[p2[b]],
        ) && (keys[p2[a]] == keys[p2[b]] ==> p2[a] < p2[b]) by {
        if b < pos {
            assert(p2[a] == perm[a] && p2[b] == perm[b]);
        } else if a > pos {
            assert(p2[a] == perm[a - 1] && p2[b] == perm[b - 1]);
        } else if a < pos && b > pos {
            assert(p2[a] == perm[a] && p2[b] == perm[b - 1]);
        } else if b == pos {
            assert(p2[a] == perm[a] && p2[b] == n);
            if a < pos - 1 {
                assert(crate::order::lex_le(keys[perm[a]], keys[perm[pos - 1]]));
                crate::order::lex_le_transitive(keys[perm[a]], keys[perm[pos - 1]], keys[n]);
            }
        } else {
            assert(a == pos);
            assert(p2[a] == n && p2[b] == perm[b - 1]);
            assert(!crate::order::lex_le(keys[perm[b - 1]], keys[n]));
            crate::order::lex_le_total(keys[perm[b - 1]], keys[n]);
            crate::order::lex_le_reflexive(keys[n]);
        }
    }
}

/// Sorts `apps` by `keys` (`keys[i]` belongs to `apps[i]`), keeping apps
/// with equal keys in their order.
pub fn stable_sort_by_keys(apps: Vec<AppEntry>, keys: Vec<Vec<char>>) -> (sorted: Vec<AppEntry>)
    requires
        apps.len() == keys.len(),
    ensures
        is_stable_sort(apps_view(apps@), keys_view(keys@), apps_view(sorted@)),
{
    let ghost input = apps_view(apps@);
    let ghost ks = keys_view(keys@);
    let n = apps.len();
    let mut rest = apps;
    let mut rest_keys = keys;
    let mut out: Vec<AppEntry> = Vec::new();
    let mut out_keys: Vec<Vec<char>> = Vec::new();
    let ghost mut perm: Seq<int> = seq![];
    let mut i: usize = 0;
    assert(apps_view(rest@) =~= input.skip(0));
    assert(keys_view(rest_keys@) =~= ks.skip(0));
    while i < n
        invariant
            n == input.len(),
            ks.len() == n,
            i <= n,
            apps_view(rest@) == input.skip(i as int),
            keys_view(rest_keys@) == ks.skip(i as int),
            rest@.len() == n - i,
            rest_keys@.len() == n - i,
            out_keys@.len() == i,
            sorted_prefix_with(input, ks, apps_view(out@), perm, i as int),
            forall|k: int| 0 <= k < i ==> #[trigger] out_keys@[k]@ == ks[perm[k]],
        decreases n - i,
    {
        let ghost old_rest = rest@;
        let ghost old_rest_keys = rest_keys@;
        let x = rest.remove(0);
        let kx = rest_keys.remove(0);
        assert forall|k: int| 0 <= k < rest@.len() implies #[trigger] rest@[k]@ == input[i + 1 + k] by {
            assert(rest@[k] == old_rest[k + 1]);
            assert(apps_view(old_rest)[k + 1] == input.skip(i as int)[k + 1]);
        }
        assert forall|k: int| 0 <= k < rest_keys@.len() implies #[trigger] rest_keys@[k]@ == ks[i + 1 + k] by {
            assert(rest_keys@[k] == old_rest_keys[k + 1]);
            assert(ks.skip(i as int)[k + 1] == old_rest_keys[k + 1]@);
        }
        assert(x@ == input[i as int]) by {
            assert(input.skip(i as int)[0] == input[i as int]);
        }
        assert(kx@ == ks[i as int]) by {
            assert(ks.skip(i as int)[0] == ks[i as int]);
        }
        assert(apps_view(rest@) =~= input.skip(i + 1));
        assert(keys_view(rest_keys@) =~= ks.skip(i + 1));
        let mut pos: usize = i;
        while pos > 0 && !crate::order::chars_le(&out_keys[pos - 1], &kx)
            invariant
                pos <= i,
                out_keys@.len() == i,
                perm.len() == i,
                forall|k: int| 0 <= k < i ==> #[trigger] out_keys@[k]@ == ks[perm[k]],
                forall|j: int|
                    pos <= j < i ==> !crate::order::lex_le(#[trigger] ks[perm[j]], kx@),
            decreases pos,
        {
            pos = pos - 1;
        }
        proof {
            assert(pos == 0 || crate::order::lex_le(ks[perm[pos - 1]], ks[i as int]));
            insert_keeps_sorted(input, ks, apps_view(out@), perm, i as int, pos as int);
        }
        let ghost old_out = out@;
        let ghost old_keys = out_keys@;
        let ghost old_perm = perm;
        out.insert(pos, x);
        out_keys.insert(pos, kx);
        proof {
            perm = perm.insert(pos as int, i as int);
            assert(apps_view(out@) =~= apps_view(old_out).insert(pos as int, input[i as int]));
            assert forall|k: int| 0 <= k < i + 1 implies #[trigger] out_keys@[k]@ == ks[perm[k]] by {
                if k < pos {
                    assert(out_keys@[k] == old_keys[k] && perm[k] == old_perm[k]);
                } else if k > pos {
                    assert(out_keys@[k] == old_keys[k - 1] && perm[k] == old_perm[k - 1]);
                }
            }
        }
        i = i + 1;
    }
    out
}

} // verus!

verus! {

/// The lowercase form of `s`, as `str::to_lowercase` gives it.
pub uninterp spec fn lowercase(s: Seq<char>) -> Seq<char>;

/// Calls std's `str::to_lowercase`. Its result is named `lowercase` of the
/// argument: the documentation defines it by the Unicode `Lowercase`
/// mapping, character by character with a rule for final sigma, which
/// takes pages to state; it depends on the argument alone. Nothing more is
/// claimed of it.
#[verifier::external_body]
fn to_lowercase(s: &str) -> (r: String)
    ensures
        r@ == lowercase(s@),
{
    s.to_lowercase()
}

/// The sort keys of applications: their names in lowercase.
pub open spec fn name_keys(apps: Seq<AppView>) -> Seq<Seq<char>> {
    apps.map_values(|a: AppView| lowercase(a.name))
}

/// `apps` sorted by the lowercase form of their names, keeping
/// applications whose lowercase names are equal in their order.
pub fn sort_applications(apps: Vec<AppEntry>) -> (sorted: Vec<AppEntry>)
    ensures
        is_stable_sort(apps_view(apps@), name_keys(apps_view(apps@)), apps_view(sorted@)),
{
    let mut keys: Vec<Vec<char>> = Vec::new();
    let mut i: usize = 0;
    while i < apps.len()
        invariant
            i <= apps.len(),
            keys@.len() == i,
            forall|k: int| 0 <= k < i ==> #[trigger] keys@[k]@ == lowercase(apps@[k].name@),
        decreases apps.len() - i,
    {
        let lower = to_lowercase(apps[i].name.as_str());
        keys.push(crate::order::chars_of(lower.as_str()));
        i = i + 1;
    }
    assert(keys_view(keys@) =~= name_keys(apps_view(apps@)));
    stable_sort_by_keys(apps, keys)
}

/// A workspace as Rift reports it.
pub struct WorkspaceInfo {
    /// Its zero-based index in Rift.
    pub index: usize,
    pub name: String,
    pub is_active: bool,
    pub windows: Vec<WindowInfo>,
}

/// What the menu shows of a workspace.
pub struct WorkspaceSection {
    /// The number shown for the workspace.
    pub number: u64,
    /// The disabled heading item above its applications.
    pub heading: String,
    /// Its applications, each once, by lowercase name.
    pub applications: Vec<AppEntry>,
}

/// The number shown for a workspace: its index plus one, or, when that
/// does not fit, its position in the list plus one.
pub open spec fn workspace_number_of(index: usize, position: int) -> int {
    if index < usize::MAX {
        index + 1
    } else {
        position + 1
    }
}

/// `● ` before the active workspace's heading.
pub open spec fn active_marker() -> Seq<char> {
    "\u{25cf} "@
}

/// `Workspace <number>`, then `: <name>` when the name is not empty, with
/// `● ` in front for the active workspace.
pub open spec fn heading_of(active: bool, number: u64, name: Seq<char>) -> Seq<char> {
    (if active {
        active_marker()
    } else {
        Seq::empty()
    }) + "Workspace "@ + crate::text::decimal(number as nat) + (if name.len() == 0 {
        Seq::empty()
    } else {
        ": "@ + name
    })
}

/// The number shown for the workspace with Rift index `index` at
/// `position` in the list.
pub fn workspace_number(index: usize, position: usize) -> (n: u64)
    requires
        position < usize::MAX,
    ensures
        n == workspace_number_of(index, position as int),
{
    match index.checked_add(1) {
        Some(i) => i as u64,
        None => position as u64 + 1,
    }
}

/// The heading of a workspace (see `heading_of`).
pub fn workspace_heading(active: bool, number: u64, name: &str) -> (h: String)
    ensures
        h@ == heading_of(active, number, name@),
{
    let mut h = if active {
        String::from_str("\u{25cf} ")
    } else {
        proof { reveal_strlit(""); }
        String::from_str("")
    };
    h.append("Workspace ");
    crate::text::push_decimal(&mut h, number);
    if name.unicode_len() != 0 {
        h.append(": ");
        h.append(name);
    }
    assert(h@ =~= heading_of(active, number, name@));
    h
}

pub open spec fn section_matches(s: WorkspaceSection, w: WorkspaceInfo, position: int) -> bool {
    let apps = distinct_apps(windows_view(w.windows@));
    &&& s.number == workspace_number_of(w.index, position)
    &&& s.heading@ == heading_of(w.is_active, s.number, w.name@)
    &&& is_stable_sort(apps, name_keys(apps), apps_view(s.applications@))
}

/// The menu's sections, one per workspace in order: its number, heading,
/// and applications (each once, by lowercase name).
pub fn workspace_sections(workspaces: &Vec<WorkspaceInfo>) -> (sections: Vec<WorkspaceSection>)
    ensures
        sections@.len() == workspaces@.len(),
        forall|p: int|
            0 <= p < sections@.len() ==> section_matches(
                #[trigger] sections@[p],
                workspaces@[p],
                p,
            ),
{
    let mut sections: Vec<WorkspaceSection> = Vec::new();
    let mut p: usize = 0;
    while p < workspaces.len()
        invariant
            p <= workspaces.len(),
            sections@.len() == p,
            forall|q: int|
                0 <= q < p ==> section_matches(#[trigger] sections@[q], workspaces@[q], q),
        decreases workspaces.len() - p,
    {
        let w = &workspaces[p];
        let number = workspace_number(w.index, p);
        let heading = workspace_heading(w.is_active, number, w.name.as_str());
        let applications = sort_applications(collect_applications(&w.windows));
        sections.push(WorkspaceSection { number, heading, applications });
        p = p + 1;
    }
    sections
}

} // verus!

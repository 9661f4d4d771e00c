//! The recent-workspaces cache: a capped, most-recent-first list of
//! workspace paths with optional aliases. The cache itself is persisted by
//! the caller; every rule about its contents is verified here.

use vstd::prelude::*;
use crate::RECENT_CAP;
use crate::errors::AppError;
use crate::types::{WorkspaceInfo, WorkspaceInfoV, clone_opt_string};

verus! {

/// The database location derived from a workspace root.
pub fn db_path_of(root: &String) -> (r: String)
    ensures
        r@ == root@ + "/.app/app.db"@,
{
    let mut r = root.clone();
    r.append("/.app/app.db");
    r
}

/// Index of the first cache entry with the given path, if any.
pub open spec fn wsv_find(s: Seq<WorkspaceInfoV>, path: Seq<char>) -> Option<int>
    decreases s.len(),
{
    if s.len() == 0 {
        None
    } else if s[0].path == path {
        Some(0)
    } else {
        match wsv_find(s.drop_first(), path) {
            None => None,
            Some(i) => Some(i + 1),
        }
    }
}

/// The finder returns the first match; `None` means no entry has the path.
pub proof fn lemma_wsv_find_props(s: Seq<WorkspaceInfoV>, path: Seq<char>)
    ensures
        match wsv_find(s, path) {
            Some(i) => 0 <= i < s.len() && s[i].path == path && forall|k: int|
                0 <= k < i ==> s[k].path != path,
            None => forall|k: int| 0 <= k < s.len() ==> s[k].path != path,
        },
    decreases s.len(),
{
    if s.len() == 0 {
    } else if s[0].path == path {
    } else {
        lemma_wsv_find_props(s.drop_first(), path);
        match wsv_find(s.drop_first(), path) {
            None => {
                assert forall|k: int| 0 <= k < s.len() implies s[k].path != path by {
                    if k > 0 {
                        assert(s[k] == s.drop_first()[k - 1]);
                    }
                }
            },
            Some(i) => {
                assert(s[i + 1] == s.drop_first()[i]);
                assert forall|k: int| 0 <= k < i + 1 implies s[k].path != path by {
                    if k > 0 {
                        assert(s[k] == s.drop_first()[k - 1]);
                    }
                }
            },
        }
    }
}

/// The alias the cache remembers for a path: the first matching entry's.
pub open spec fn alias_of(s: Seq<WorkspaceInfoV>, path: Seq<char>) -> Option<Seq<char>> {
    match wsv_find(s, path) {
        Some(i) => s[i].alias,
        None => None,
    }
}

/// The cache with every entry of the given path removed, order kept.
pub open spec fn recent_without(s: Seq<WorkspaceInfoV>, path: Seq<char>) -> Seq<WorkspaceInfoV>
    decreases s.len(),
{
    if s.len() == 0 {
        Seq::empty()
    } else {
        let rest = recent_without(s.drop_last(), path);
        if s.last().path == path {
            rest
        } else {
            rest.push(s.last())
        }
    }
}

/// Nothing with the removed path survives, and every survivor comes from
/// the list it came from.
pub proof fn lemma_recent_without_props(s: Seq<WorkspaceInfoV>, path: Seq<char>)
    ensures
        recent_without(s, path).len() <= s.len(),
        forall|k: int|
            0 <= k < recent_without(s, path).len() ==> #[trigger] recent_without(s, path)[k].path
                != path,
        forall|k: int|
            0 <= k < recent_without(s, path).len() ==> exists|j: int|
                0 <= j < s.len() && #[trigger] recent_without(s, path)[k] == s[j],
    decreases s.len(),
{
    if s.len() == 0 {
    } else {
        lemma_recent_without_props(s.drop_last(), path);
        let rest = recent_without(s.drop_last(), path);
        let r = recent_without(s, path);
        assert forall|k: int| 0 <= k < r.len() implies exists|j: int|
            0 <= j < s.len() && #[trigger] r[k] == s[j] by {
            if k < rest.len() {
                let j = choose|j: int| 0 <= j < s.drop_last().len() && rest[k] == s.drop_last()[j];
                assert(r[k] == s[j]);
            } else {
                assert(r[k] == s[s.len() - 1]);
            }
        }
    }
}

/// Distinct paths stay distinct after a removal.
pub proof fn lemma_recent_without_distinct(s: Seq<WorkspaceInfoV>, path: Seq<char>)
    requires
        forall|i: int, j: int| 0 <= i < j < s.len() ==> s[i].path != s[j].path,
    ensures
        forall|i: int, j: int|
            0 <= i < j < recent_without(s, path).len() ==> #[trigger] recent_without(
                s,
                path,
            )[i].path != #[trigger] recent_without(s, path)[j].path,
    decreases s.len(),
{
    if s.len() > 0 {
        lemma_recent_without_distinct(s.drop_last(), path);
        lemma_recent_without_props(s.drop_last(), path);
        let rest = recent_without(s.drop_last(), path);
        let r = recent_without(s, path);
        assert forall|i: int, j: int| 0 <= i < j < r.len() implies r[i].path != r[j].path by {
            if j == rest.len() && r.len() > rest.len() {
                let w = choose|w: int|
                    0 <= w < s.drop_last().len() && rest[i] == s.drop_last()[w];
                assert(s[w].path != s[s.len() - 1].path);
            }
        }
    }
}

/// The cache capped at its fixed limit.
pub open spec fn cap_recent(s: Seq<WorkspaceInfoV>) -> Seq<WorkspaceInfoV> {
    if s.len() > RECENT_CAP as int {
        s.take(RECENT_CAP as int)
    } else {
        s
    }
}

/// The cache entry an open writes to the front.
pub open spec fn front_entry_v(
    path: Seq<char>,
    last_opened_at: Seq<char>,
    alias: Option<Seq<char>>,
) -> WorkspaceInfoV {
    WorkspaceInfoV {
        path: path,
        db_path: path + "/.app/app.db"@,
        last_opened_at: last_opened_at,
        settings: None,
        alias: alias,
    }
}

/// What the whole cache becomes when a path is recorded as just opened.
pub open spec fn recent_added(
    s: Seq<WorkspaceInfoV>,
    path: Seq<char>,
    last_opened_at: Seq<char>,
    alias: Option<Seq<char>>,
) -> Seq<WorkspaceInfoV> {
    let merged = match alias {
        Some(a) => Some(a),
        None => alias_of(s, path),
    };
    cap_recent(recent_without(s, path).insert(0, front_entry_v(path, last_opened_at, merged)))
}

/// The first alias stored for the path, if any.
fn find_alias(v: &Vec<WorkspaceInfo>, path: &String) -> (r: Option<String>)
    ensures
        r.deep_view() == alias_of(v.deep_view(), path@),
{
    proof {
        lemma_wsv_find_props(v.deep_view(), path@);
    }
    let mut i: usize = 0;
    while i < v.len()
        invariant
            i <= v@.len(),
            forall|t: int| 0 <= t < i ==> v.deep_view()[t].path != path@,
        decreases v@.len() - i,
    {
        if v[i].path == *path {
            proof {
                assert(v.deep_view()[i as int].path == path@);
                lemma_wsv_find_props(v.deep_view(), path@);
                match wsv_find(v.deep_view(), path@) {
                    Some(j) => {
                        if j < i as int {
                            assert(false);
                        } else if j > i as int {
                            assert(false);
                        }
                    },
                    None => {
                        assert(false);
                    },
                }
            }
            return clone_opt_string(&v[i].alias);
        }
        i = i + 1;
    }
    proof {
        lemma_wsv_find_props(v.deep_view(), path@);
        match wsv_find(v.deep_view(), path@) {
            Some(j) => {
                assert(false);
            },
            None => {},
        }
    }
    None
}

/// Records a path at the front of the cache: the previous entry for the
/// path goes away (its alias is kept unless a new one is given), nothing
/// else is reordered, and the cache never exceeds its cap.
pub fn add_to_recent_workspaces(
    workspaces: Vec<WorkspaceInfo>,
    path: String,
    last_opened_at: String,
    alias: Option<String>,
) -> (r: Vec<WorkspaceInfo>)
    ensures
        r.deep_view() == recent_added(workspaces.deep_view(), path@, last_opened_at@, alias.deep_view()),
        r.deep_view().len() <= RECENT_CAP as int,
        r.deep_view().len() >= 1,
        r.deep_view()[0].path == path@,
{
    let ghost s = workspaces.deep_view();
    let existing_alias = find_alias(&workspaces, &path);
    let merged_alias = match alias {
        Some(a) => Some(a),
        None => existing_alias,
    };
    let mut kept: Vec<WorkspaceInfo> = Vec::new();
    let mut i: usize = 0;
    while i < workspaces.len()
        invariant
            i <= workspaces@.len(),
            s == workspaces.deep_view(),
            kept.deep_view() == recent_without(s.subrange(0, i as int), path@),
        decreases workspaces@.len() - i,
    {
        proof {
            let s2 = s.subrange(0, i + 1 as int);
            assert(s2.drop_last() =~= s.subrange(0, i as int));
            assert(s2.last() == s[i as int]);
        }
        if !(workspaces[i].path == path) {
            kept.push(workspaces[i].clone());
        }
        i = i + 1;
    }
    proof {
        assert(s.subrange(0, s.len() as int) =~= s);
    }
    let front = WorkspaceInfo {
        path: path.clone(),
        db_path: db_path_of(&path),
        last_opened_at: last_opened_at,
        settings: None,
        alias: merged_alias,
    };
    let mut out: Vec<WorkspaceInfo> = Vec::new();
    out.push(front);
    let ghost full = recent_without(s, path@).insert(0, out.deep_view()[0]);
    proof {
        assert(full[0] == out.deep_view()[0]);
        assert(out.deep_view() =~= full.take(1));
    }
    let mut k: usize = 0;
    while k < kept.len() && out.len() < RECENT_CAP
        invariant
            k <= kept@.len(),
            out@.len() == k + 1,
            out@.len() <= RECENT_CAP as int,
            kept.deep_view() == recent_without(s, path@),
            full == recent_without(s, path@).insert(0, full[0]),
            out.deep_view() == full.take(k + 1 as int),
        decreases kept@.len() - k,
    {
        out.push(kept[k].clone());
        proof {
            assert(full[k + 1 as int] == kept.deep_view()[k as int]);
            assert(out.deep_view() =~= full.take(k + 2 as int));
        }
        k = k + 1;
    }
    proof {
        if k == kept@.len() {
            assert(full.take(k + 1 as int) =~= full);
            if full.len() > RECENT_CAP as int {
                assert(out@.len() == RECENT_CAP as int);
                assert(out.deep_view() =~= full.take(RECENT_CAP as int));
            }
        } else {
            assert(out@.len() == RECENT_CAP as int);
            assert(full.len() > RECENT_CAP as int);
        }
        assert(out.deep_view() == cap_recent(full));
    }
    out
}

/// Sets or clears the alias of one cached path; the rest of the cache is
/// untouched. Fails when the path is not cached.
#[verifier::loop_isolation(false)]
pub fn workspace_update_alias(
    workspaces: Vec<WorkspaceInfo>,
    path: &String,
    alias: Option<String>,
) -> (r: Result<(WorkspaceInfo, Vec<WorkspaceInfo>), AppError>)
    ensures
        wsv_find(workspaces.deep_view(), path@) is None ==> (match r {
            Err(e) => e == AppError::NotFound,
            Ok(_) => false,
        }),
        match wsv_find(workspaces.deep_view(), path@) {
            Some(i) => match r {
                Ok((w, list)) => {
                    &&& w.deep_view() == (WorkspaceInfoV {
                        alias: alias.deep_view(),
                        ..workspaces.deep_view()[i]
                    })
                    &&& list.deep_view() == workspaces.deep_view().update(i, w.deep_view())
                },
                Err(_) => false,
            },
            None => true,
        },
{
    let ghost s = workspaces.deep_view();
    let ghost aliasv = alias.deep_view();
    let mut workspaces = workspaces;
    let mut i: usize = 0;
    while i < workspaces.len()
        invariant
            i <= workspaces@.len(),
            s == workspaces.deep_view(),
            aliasv == alias.deep_view(),
            forall|t: int| 0 <= t < i ==> s[t].path != path@,
        decreases workspaces@.len() - i,
    {
        if workspaces[i].path == *path {
            proof {
                assert(s[i as int].path == path@);
                lemma_wsv_find_props(s, path@);
                match wsv_find(s, path@) {
                    Some(j) => {
                        if j < i as int {
                            assert(false);
                        } else if j > i as int {
                            assert(false);
                        }
                    },
                    None => {
                        assert(false);
                    },
                }
            }
            let old_entry = &workspaces[i];
            let updated = WorkspaceInfo {
                path: old_entry.path.clone(),
                db_path: old_entry.db_path.clone(),
                last_opened_at: old_entry.last_opened_at.clone(),
                settings: crate::types::clone_opt_settings(&old_entry.settings),
                alias: alias,
            };
            proof {
                assert(updated.deep_view().alias == aliasv);
                assert(updated.deep_view() =~= (WorkspaceInfoV { alias: aliasv, ..s[i as int] }));
            }
            let out = updated.clone();
            workspaces[i] = updated;
            proof {
                assert(out.deep_view() =~= (WorkspaceInfoV { alias: aliasv, ..s[i as int] }));
                assert(workspaces.deep_view() =~= s.update(i as int, out.deep_view()));
            }
            return Ok((out, workspaces));
        }
        i = i + 1;
    }
    proof {
        lemma_wsv_find_props(s, path@);
        match wsv_find(s, path@) {
            Some(j) => {
                assert(false);
            },
            None => {},
        }
    }
    Err(AppError::NotFound)
}

/// Drops the cache entry of one path; a path that is not cached is
/// reported as not found, and the cache is returned unchanged then.
#[verifier::loop_isolation(false)]
pub fn workspace_remove_from_recent(workspaces: Vec<WorkspaceInfo>, path: &String) -> (r: Result<
    Vec<WorkspaceInfo>,
    AppError,
>)
    ensures
        wsv_find(workspaces.deep_view(), path@) is None ==> (match r {
            Err(e) => e == AppError::NotFound,
            Ok(_) => false,
        }),
        wsv_find(workspaces.deep_view(), path@) is Some ==> (match r {
            Ok(list) => list.deep_view() == recent_without(workspaces.deep_view(), path@),
            Err(_) => false,
        }),
{
    let ghost s = workspaces.deep_view();
    proof {
        lemma_wsv_find_props(s, path@);
    }
    let mut found = false;
    let mut kept: Vec<WorkspaceInfo> = Vec::new();
    let mut i: usize = 0;
    while i < workspaces.len()
        invariant
            i <= workspaces@.len(),
            s == workspaces.deep_view(),
            kept.deep_view() == recent_without(s.subrange(0, i as int), path@),
            found == exists|t: int| 0 <= t < i && s[t].path == path@,
        decreases workspaces@.len() - i,
    {
        proof {
            let s2 = s.subrange(0, i + 1 as int);
            assert(s2.drop_last() =~= s.subrange(0, i as int));
            assert(s2.last() == s[i as int]);
        }
        if workspaces[i].path == *path {
            assert(s[i as int].path == path@);
            found = true;
        } else {
            kept.push(workspaces[i].clone());
        }
        i = i + 1;
    }
    proof {
        assert(s.subrange(0, s.len() as int) =~= s);
    }
    if !found {
        proof {
            match wsv_find(s, path@) {
                Some(j) => {
                    assert(false);
                },
                None => {},
            }
        }
        return Err(AppError::NotFound);
    }
    proof {
        match wsv_find(s, path@) {
            Some(j) => {},
            None => {
                let t = choose|t: int| 0 <= t < s.len() && s[t].path == path@;
                assert(false);
            },
        }
    }
    Ok(kept)
}

/// Adding a path to a cache whose paths are distinct keeps them distinct:
/// reordering a previously-seen path never duplicates it.
pub proof fn lemma_recent_added_distinct(
    s: Seq<WorkspaceInfoV>,
    path: Seq<char>,
    last_opened_at: Seq<char>,
    alias: Option<Seq<char>>,
)
    requires
        forall|i: int, j: int| 0 <= i < j < s.len() ==> s[i].path != s[j].path,
    ensures
        ({
            let r = recent_added(s, path, last_opened_at, alias);
            forall|i: int, j: int| 0 <= i < j < r.len() ==> r[i].path != r[j].path
        }),
{
    lemma_recent_without_props(s, path);
    lemma_recent_without_distinct(s, path);
    let merged = match alias {
        Some(a) => Some(a),
        None => alias_of(s, path),
    };
    let without = recent_without(s, path);
    let full = without.insert(0, front_entry_v(path, last_opened_at, merged));
    assert forall|i: int, j: int| 0 <= i < j < full.len() implies full[i].path != full[j].path by {
        if i == 0 {
            assert(full[j] == without[j - 1]);
        } else {
            assert(full[i] == without[i - 1] && full[j] == without[j - 1]);
        }
    }
    let r = recent_added(s, path, last_opened_at, alias);
    assert forall|i: int, j: int| 0 <= i < j < r.len() implies r[i].path != r[j].path by {
        assert(r[i] == full[i] && r[j] == full[j]);
    }
}

} // verus!

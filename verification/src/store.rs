//! The persistence model: one in-memory store per open workspace, with the
//! invariants the database schema promises (unique ids everywhere, one row
//! per built-in directory kind, one binding per project and directory type).
//!
//! Every operation is exact: it states which rows change, which error comes
//! back on which input, and that nothing else moves.

use vstd::prelude::*;
use crate::errors::AppError;
use crate::types::{
    DirectoryType, DirectoryTypeKind, DirectoryTypeV, GitRepository, GitRepositoryV, Project,
    ProjectDirectory, ProjectDirectoryV, ProjectV, WorkspaceSettings, clone_opt_string,
};

verus! {

/// A status snapshot as the store keeps it beside a repository record.
#[derive(Debug)]
pub struct GitStatusSnapshot {
    pub dirty: bool,
    pub ahead: i32,
    pub behind: i32,
    pub last_checked_at: String,
}

impl Clone for GitStatusSnapshot {
    fn clone(&self) -> (r: Self)
        ensures
            r == *self,
    {
        GitStatusSnapshot {
            dirty: self.dirty,
            ahead: self.ahead,
            behind: self.behind,
            last_checked_at: self.last_checked_at.clone(),
        }
    }
}

#[verifier::ext_equal]
pub ghost struct GitStatusSnapshotV {
    pub dirty: bool,
    pub ahead: i32,
    pub behind: i32,
    pub last_checked_at: Seq<char>,
}

impl DeepView for GitStatusSnapshot {
    type V = GitStatusSnapshotV;

    open spec fn deep_view(&self) -> GitStatusSnapshotV {
        GitStatusSnapshotV {
            dirty: self.dirty,
            ahead: self.ahead,
            behind: self.behind,
            last_checked_at: self.last_checked_at@,
        }
    }
}

/// One stored repository row: the record plus its cached status snapshot.
#[derive(Debug)]
pub struct GitRepoRecord {
    pub repo: GitRepository,
    pub snapshot: Option<GitStatusSnapshot>,
}

impl Clone for GitRepoRecord {
    fn clone(&self) -> (r: Self)
        ensures
            r == *self,
    {
        GitRepoRecord {
            repo: self.repo.clone(),
            snapshot: match &self.snapshot {
                Option::None => Option::None,
                Option::Some(s) => Option::Some(s.clone()),
            },
        }
    }
}

#[verifier::ext_equal]
pub ghost struct GitRepoRecordV {
    pub repo: GitRepositoryV,
    pub snapshot: Option<GitStatusSnapshotV>,
}

impl DeepView for GitRepoRecord {
    type V = GitRepoRecordV;

    open spec fn deep_view(&self) -> GitRepoRecordV {
        GitRepoRecordV { repo: self.repo.deep_view(), snapshot: self.snapshot.deep_view() }
    }
}

// ---------------------------------------------------------------------------
// Table predicates.
// ---------------------------------------------------------------------------

pub open spec fn projects_unique(s: Seq<ProjectV>) -> bool {
    forall|i: int, j: int| 0 <= i < j < s.len() ==> s[i].id != s[j].id
}

pub open spec fn dts_ids_unique(s: Seq<DirectoryTypeV>) -> bool {
    forall|i: int, j: int| 0 <= i < j < s.len() ==> s[i].id != s[j].id
}

/// Each built-in kind occurs on at most one row; custom rows are unconstrained.
pub open spec fn dts_builtins_unique(s: Seq<DirectoryTypeV>) -> bool {
    forall|i: int, j: int|
        0 <= i < j < s.len() ==> !(s[i].kind == s[j].kind && s[i].kind
            != DirectoryTypeKind::Custom)
}

pub open spec fn pds_ids_unique(s: Seq<ProjectDirectoryV>) -> bool {
    forall|i: int, j: int| 0 <= i < j < s.len() ==> s[i].id != s[j].id
}

/// One binding per (project, directory type).
pub open spec fn pds_pairs_unique(s: Seq<ProjectDirectoryV>) -> bool {
    forall|i: int, j: int|
        0 <= i < j < s.len() ==> !(s[i].project_id == s[j].project_id && s[i].dir_type_id
            == s[j].dir_type_id)
}

pub open spec fn repos_unique(s: Seq<GitRepoRecordV>) -> bool {
    forall|i: int, j: int| 0 <= i < j < s.len() ==> s[i].repo.id != s[j].repo.id
}

/// The store: one embedded database worth of rows.
pub struct Store {
    pub projects: Vec<Project>,
    pub dir_types: Vec<DirectoryType>,
    pub project_dirs: Vec<ProjectDirectory>,
    pub repos: Vec<GitRepoRecord>,
    pub settings: Option<WorkspaceSettings>,
    pub last_opened: Option<String>,
}

impl Store {
    pub open spec fn projects_v(&self) -> Seq<ProjectV> {
        self.projects.deep_view()
    }

    pub open spec fn dir_types_v(&self) -> Seq<DirectoryTypeV> {
        self.dir_types.deep_view()
    }

    pub open spec fn project_dirs_v(&self) -> Seq<ProjectDirectoryV> {
        self.project_dirs.deep_view()
    }

    pub open spec fn repos_v(&self) -> Seq<GitRepoRecordV> {
        self.repos.deep_view()
    }

    /// What the schema guarantees of the tables.
    pub open spec fn wf(&self) -> bool {
        &&& projects_unique(self.projects_v())
        &&& dts_ids_unique(self.dir_types_v())
        &&& dts_builtins_unique(self.dir_types_v())
        &&& pds_ids_unique(self.project_dirs_v())
        &&& pds_pairs_unique(self.project_dirs_v())
        &&& repos_unique(self.repos_v())
    }

    /// A store with empty tables, as a fresh database has.
    pub fn new() -> (r: Store)
        ensures
            r.wf(),
            r.projects_v() =~= Seq::<ProjectV>::empty(),
            r.dir_types_v() =~= Seq::<DirectoryTypeV>::empty(),
            r.project_dirs_v() =~= Seq::<ProjectDirectoryV>::empty(),
            r.repos_v() =~= Seq::<GitRepoRecordV>::empty(),
            r.settings is None,
            r.last_opened is None,
    {
        Store {
            projects: Vec::new(),
            dir_types: Vec::new(),
            project_dirs: Vec::new(),
            repos: Vec::new(),
            settings: None,
            last_opened: None,
        }
    }
}

// ---------------------------------------------------------------------------
// Validation of loaded data.
//
// A store read back from a database was written by somebody else: the
// schema enforces most of the invariant, but not all of it (nothing in the
// schema keeps a built-in kind on one row). These checkers decide the
// invariant so a caller can test it before trusting the data.
// ---------------------------------------------------------------------------

/// Whether the project ids are pairwise distinct.
fn check_projects(v: &Vec<Project>) -> (r: bool)
    ensures
        r == projects_unique(v.deep_view()),
{
    let mut i: usize = 0;
    while i < v.len()
        invariant
            i <= v@.len(),
            forall|a: int, b: int|
                0 <= a < b < i ==> v.deep_view()[a].id != v.deep_view()[b].id,
        decreases v@.len() - i,
    {
        let mut j: usize = 0;
        while j < i
            invariant
                j <= i < v@.len(),
                forall|a: int, b: int|
                    0 <= a < b < i ==> v.deep_view()[a].id != v.deep_view()[b].id,
                forall|b: int| 0 <= b < j ==> v.deep_view()[b].id != v.deep_view()[i as int].id,
            decreases i - j,
        {
            if v[j].id == v[i].id {
                assert(v.deep_view()[j as int].id == v.deep_view()[i as int].id);
                return false;
            }
            j = j + 1;
        }
        i = i + 1;
    }
    true
}

/// Whether the directory-type ids are distinct and no built-in kind repeats.
fn check_dir_types(v: &Vec<DirectoryType>) -> (r: bool)
    ensures
        r == (dts_ids_unique(v.deep_view()) && dts_builtins_unique(v.deep_view())),
{
    let mut i: usize = 0;
    while i < v.len()
        invariant
            i <= v@.len(),
            forall|a: int, b: int|
                0 <= a < b < i ==> v.deep_view()[a].id != v.deep_view()[b].id,
            forall|a: int, b: int|
                0 <= a < b < i ==> !(v.deep_view()[a].kind == v.deep_view()[b].kind
                    && v.deep_view()[a].kind != DirectoryTypeKind::Custom),
        decreases v@.len() - i,
    {
        let mut j: usize = 0;
        while j < i
            invariant
                j <= i < v@.len(),
                forall|a: int, b: int|
                    0 <= a < b < i ==> v.deep_view()[a].id != v.deep_view()[b].id,
                forall|a: int, b: int|
                    0 <= a < b < i ==> !(v.deep_view()[a].kind == v.deep_view()[b].kind
                        && v.deep_view()[a].kind != DirectoryTypeKind::Custom),
                forall|b: int| 0 <= b < j ==> v.deep_view()[b].id != v.deep_view()[i as int].id,
                forall|b: int|
                    0 <= b < j ==> !(v.deep_view()[b].kind == v.deep_view()[i as int].kind
                        && v.deep_view()[b].kind != DirectoryTypeKind::Custom),
            decreases i - j,
        {
            if v[j].id == v[i].id {
                assert(v.deep_view()[j as int].id == v.deep_view()[i as int].id);
                return false;
            }
            if v[j].kind == v[i].kind && !(v[j].kind == DirectoryTypeKind::Custom) {
                assert(v.deep_view()[j as int].kind == v.deep_view()[i as int].kind
                    && v.deep_view()[j as int].kind != DirectoryTypeKind::Custom);
                return false;
            }
            j = j + 1;
        }
        i = i + 1;
    }
    true
}

/// Whether the binding ids are distinct and each (project, directory type)
/// pair occurs once.
fn check_project_dirs(v: &Vec<ProjectDirectory>) -> (r: bool)
    ensures
        r == (pds_ids_unique(v.deep_view()) && pds_pairs_unique(v.deep_view())),
{
    let mut i: usize = 0;
    while i < v.len()
        invariant
            i <= v@.len(),
            forall|a: int, b: int|
                0 <= a < b < i ==> v.deep_view()[a].id != v.deep_view()[b].id,
            forall|a: int, b: int|
                0 <= a < b < i ==> !(v.deep_view()[a].project_id == v.deep_view()[b].project_id
                    && v.deep_view()[a].dir_type_id == v.deep_view()[b].dir_type_id),
        decreases v@.len() - i,
    {
        let mut j: usize = 0;
        while j < i
            invariant
                j <= i < v@.len(),
                forall|a: int, b: int|
                    0 <= a < b < i ==> v.deep_view()[a].id != v.deep_view()[b].id,
                forall|a: int, b: int|
                    0 <= a < b < i ==> !(v.deep_view()[a].project_id == v.deep_view()[b].project_id
                        && v.deep_view()[a].dir_type_id == v.deep_view()[b].dir_type_id),
                forall|b: int| 0 <= b < j ==> v.deep_view()[b].id != v.deep_view()[i as int].id,
                forall|b: int|
                    0 <= b < j ==> !(v.deep_view()[b].project_id == v.deep_view()[
                        i as int
                    ].project_id && v.deep_view()[b].dir_type_id == v.deep_view()[
                        i as int
                    ].dir_type_id),
            decreases i - j,
        {
            if v[j].id == v[i].id {
                assert(v.deep_view()[j as int].id == v.deep_view()[i as int].id);
                return false;
            }
            if v[j].project_id == v[i].project_id && v[j].dir_type_id == v[i].dir_type_id {
                assert(v.deep_view()[j as int].project_id == v.deep_view()[i as int].project_id
                    && v.deep_view()[j as int].dir_type_id == v.deep_view()[i as int].dir_type_id);
                return false;
            }
            j = j + 1;
        }
        i = i + 1;
    }
    true
}

/// Whether the repository ids are pairwise distinct.
fn check_repos(v: &Vec<GitRepoRecord>) -> (r: bool)
    ensures
        r == repos_unique(v.deep_view()),
{
    let mut i: usize = 0;
    while i < v.len()
        invariant
            i <= v@.len(),
            forall|a: int, b: int|
                0 <= a < b < i ==> v.deep_view()[a].repo.id != v.deep_view()[b].repo.id,
        decreases v@.len() - i,
    {
        let mut j: usize = 0;
        while j < i
            invariant
                j <= i < v@.len(),
                forall|a: int, b: int|
                    0 <= a < b < i ==> v.deep_view()[a].repo.id != v.deep_view()[b].repo.id,
                forall|b: int|
                    0 <= b < j ==> v.deep_view()[b].repo.id != v.deep_view()[i as int].repo.id,
            decreases i - j,
        {
            if v[j].repo.id == v[i].repo.id {
                assert(v.deep_view()[j as int].repo.id == v.deep_view()[i as int].repo.id);
                return false;
            }
            j = j + 1;
        }
        i = i + 1;
    }
    true
}

impl Store {
    /// Decides the store invariant; data loaded from a database is tested
    /// with this before anything trusts it.
    pub fn validate(&self) -> (r: bool)
        ensures
            r == self.wf(),
    {
        check_projects(&self.projects) && check_dir_types(&self.dir_types) && check_project_dirs(
            &self.project_dirs,
        ) && check_repos(&self.repos)
    }
}

// ---------------------------------------------------------------------------
// Seeding the built-in directory kinds.
// ---------------------------------------------------------------------------

pub open spec fn dtv_has_kind(s: Seq<DirectoryTypeV>, k: DirectoryTypeKind) -> bool {
    exists|i: int| 0 <= i < s.len() && s[i].kind == k
}

pub open spec fn dtv_has_id(s: Seq<DirectoryTypeV>, id: Seq<char>) -> bool {
    exists|i: int| 0 <= i < s.len() && s[i].id == id
}

/// The row one seeding step would add.
pub open spec fn builtin_row_v(
    id: Seq<char>,
    k: DirectoryTypeKind,
    name: Seq<char>,
    category: Seq<char>,
    order: i32,
    now: Seq<char>,
) -> DirectoryTypeV {
    DirectoryTypeV {
        id: id,
        kind: k,
        name: name,
        category: Some(category),
        sort_order: order,
        created_at: now,
        updated_at: now,
    }
}

/// Insert-if-absent: a built-in kind is added only when no row of that kind
/// exists yet (and the fresh id does not collide).
pub open spec fn seed_step(
    s: Seq<DirectoryTypeV>,
    id: Seq<char>,
    k: DirectoryTypeKind,
    name: Seq<char>,
    category: Seq<char>,
    order: i32,
    now: Seq<char>,
) -> Seq<DirectoryTypeV> {
    if dtv_has_kind(s, k) || dtv_has_id(s, id) {
        s
    } else {
        s.push(builtin_row_v(id, k, name, category, order, now))
    }
}

pub open spec fn builtin_kind_of(n: int) -> DirectoryTypeKind {
    if n == 0 {
        DirectoryTypeKind::Code
    } else if n == 1 {
        DirectoryTypeKind::Docs
    } else if n == 2 {
        DirectoryTypeKind::UiDesign
    } else {
        DirectoryTypeKind::ProjectPlanning
    }
}

pub open spec fn builtin_name_of(n: int) -> Seq<char> {
    if n == 0 {
        "\u{4ee3}\u{7801}"@
    } else if n == 1 {
        "\u{6587}\u{6863}"@
    } else if n == 2 {
        "UI \u{8bbe}\u{8ba1}"@
    } else {
        "\u{9879}\u{76ee}\u{89c4}\u{5212}"@
    }
}

pub open spec fn builtin_category_of(n: int) -> Seq<char> {
    if n == 0 {
        "code"@
    } else if n == 1 {
        "docs"@
    } else if n == 2 {
        "ui_design"@
    } else {
        "project_planning"@
    }
}

pub open spec fn builtin_order_of(n: int) -> i32 {
    if n == 0 {
        1i32
    } else if n == 1 {
        2i32
    } else if n == 2 {
        3i32
    } else {
        4i32
    }
}

/// The directory-type table after the first `n` seeding steps.
pub open spec fn seeded_upto(
    s: Seq<DirectoryTypeV>,
    ids: Seq<Seq<char>>,
    now: Seq<char>,
    n: int,
) -> Seq<DirectoryTypeV>
    decreases n,
{
    if n <= 0 {
        s
    } else {
        seed_step(
            seeded_upto(s, ids, now, n - 1),
            ids[n - 1],
            builtin_kind_of(n - 1),
            builtin_name_of(n - 1),
            builtin_category_of(n - 1),
            builtin_order_of(n - 1),
            now,
        )
    }
}

/// The directory-type table after seeding all four built-in kinds.
pub open spec fn seeded(s: Seq<DirectoryTypeV>, ids: Seq<Seq<char>>, now: Seq<char>) -> Seq<
    DirectoryTypeV,
> {
    seeded_upto(s, ids, now, 4)
}

/// Seeding a table that already holds every built-in kind changes nothing:
/// opening the same workspace twice never duplicates the seeded rows.
pub proof fn lemma_seed_stable(s: Seq<DirectoryTypeV>, ids: Seq<Seq<char>>, now: Seq<char>)
    requires
        dtv_has_kind(s, DirectoryTypeKind::Code),
        dtv_has_kind(s, DirectoryTypeKind::Docs),
        dtv_has_kind(s, DirectoryTypeKind::UiDesign),
        dtv_has_kind(s, DirectoryTypeKind::ProjectPlanning),
    ensures
        seeded(s, ids, now) == s,
{
    assert(seeded_upto(s, ids, now, 0) == s);
    assert(seeded_upto(s, ids, now, 1) == s);
    assert(seeded_upto(s, ids, now, 2) == s);
    assert(seeded_upto(s, ids, now, 3) == s);
    assert(seeded_upto(s, ids, now, 4) == s);
}

/// After seeding, every built-in kind is present, provided the four fresh
/// ids are distinct and none collides with an existing row.
pub proof fn lemma_seed_complete(s: Seq<DirectoryTypeV>, ids: Seq<Seq<char>>, now: Seq<char>)
    requires
        ids.len() == 4,
        forall|a: int, b: int| 0 <= a < b < 4 ==> ids[a] != ids[b],
        forall|a: int| 0 <= a < 4 ==> !dtv_has_id(s, #[trigger] ids[a]),
    ensures
        dtv_has_kind(seeded(s, ids, now), DirectoryTypeKind::Code),
        dtv_has_kind(seeded(s, ids, now), DirectoryTypeKind::Docs),
        dtv_has_kind(seeded(s, ids, now), DirectoryTypeKind::UiDesign),
        dtv_has_kind(seeded(s, ids, now), DirectoryTypeKind::ProjectPlanning),
{
    let s0 = seeded_upto(s, ids, now, 0);
    let s1 = seeded_upto(s, ids, now, 1);
    let s2 = seeded_upto(s, ids, now, 2);
    let s3 = seeded_upto(s, ids, now, 3);
    let s4 = seeded_upto(s, ids, now, 4);
    lemma_seed_step_keeps_and_adds(s0, ids[0], builtin_kind_of(0), builtin_name_of(0), builtin_category_of(0), builtin_order_of(0), now);
    lemma_seed_step_keeps_and_adds(s1, ids[1], builtin_kind_of(1), builtin_name_of(1), builtin_category_of(1), builtin_order_of(1), now);
    lemma_seed_step_keeps_and_adds(s2, ids[2], builtin_kind_of(2), builtin_name_of(2), builtin_category_of(2), builtin_order_of(2), now);
    lemma_seed_step_keeps_and_adds(s3, ids[3], builtin_kind_of(3), builtin_name_of(3), builtin_category_of(3), builtin_order_of(3), now);
    lemma_seeded_upto_ids_subset(s, ids, now, 1);
    lemma_seeded_upto_ids_subset(s, ids, now, 2);
    lemma_seeded_upto_ids_subset(s, ids, now, 3);
}

/// Seeding twice is seeding once: the first pass leaves every built-in kind
/// present, so the second pass adds nothing. Opening the same workspace
/// path twice never duplicates the seeded directory types.
pub proof fn lemma_seeded_twice(
    s: Seq<DirectoryTypeV>,
    ids1: Seq<Seq<char>>,
    now1: Seq<char>,
    ids2: Seq<Seq<char>>,
    now2: Seq<char>,
)
    requires
        ids1.len() == 4,
        forall|a: int, b: int| 0 <= a < b < 4 ==> ids1[a] != ids1[b],
        forall|a: int| 0 <= a < 4 ==> !dtv_has_id(s, #[trigger] ids1[a]),
    ensures
        seeded(seeded(s, ids1, now1), ids2, now2) == seeded(s, ids1, now1),
{
    lemma_seed_complete(s, ids1, now1);
    lemma_seed_stable(seeded(s, ids1, now1), ids2, now2);
}

/// A seeding step keeps every kind that was present and ends with its own
/// kind present, unless only the id collision stopped it.
proof fn lemma_seed_step_keeps_and_adds(
    s: Seq<DirectoryTypeV>,
    id: Seq<char>,
    k: DirectoryTypeKind,
    name: Seq<char>,
    category: Seq<char>,
    order: i32,
    now: Seq<char>,
)
    ensures
        forall|k2: DirectoryTypeKind|
            dtv_has_kind(s, k2) ==> dtv_has_kind(
                seed_step(s, id, k, name, category, order, now),
                k2,
            ),
        !dtv_has_id(s, id) ==> dtv_has_kind(seed_step(s, id, k, name, category, order, now), k),
{
    let r = seed_step(s, id, k, name, category, order, now);
    assert forall|k2: DirectoryTypeKind| dtv_has_kind(s, k2) implies dtv_has_kind(r, k2) by {
        let i = choose|i: int| 0 <= i < s.len() && s[i].kind == k2;
        assert(r[i].kind == k2);
    }
    if !dtv_has_id(s, id) {
        if !dtv_has_kind(s, k) {
            assert(r[s.len() as int].kind == k);
        }
    }
}

/// The ids a seeding prefix adds all come from the given fresh ids.
proof fn lemma_seeded_upto_ids_subset(
    s: Seq<DirectoryTypeV>,
    ids: Seq<Seq<char>>,
    now: Seq<char>,
    n: int,
)
    requires
        0 <= n <= 4,
        ids.len() == 4,
    ensures
        forall|id2: Seq<char>|
            dtv_has_id(seeded_upto(s, ids, now, n), id2) ==> dtv_has_id(s, id2) || exists|a: int|
                0 <= a < n && ids[a] == id2,
    decreases n,
{
    if n > 0 {
        lemma_seeded_upto_ids_subset(s, ids, now, n - 1);
        let prev = seeded_upto(s, ids, now, n - 1);
        let cur = seeded_upto(s, ids, now, n);
        assert forall|id2: Seq<char>| dtv_has_id(cur, id2) implies dtv_has_id(s, id2) || exists|
            a: int,
        | 0 <= a < n && ids[a] == id2 by {
            let i = choose|i: int| 0 <= i < cur.len() && cur[i].id == id2;
            if i < prev.len() {
                assert(dtv_has_id(prev, id2));
            } else {
                assert(cur[i].id == ids[n - 1]);
            }
        }
    }
}

/// A seeding step keeps both uniqueness invariants.
proof fn lemma_seed_step_wf(
    s: Seq<DirectoryTypeV>,
    id: Seq<char>,
    k: DirectoryTypeKind,
    name: Seq<char>,
    category: Seq<char>,
    order: i32,
    now: Seq<char>,
)
    requires
        dts_ids_unique(s),
        dts_builtins_unique(s),
        k != DirectoryTypeKind::Custom,
    ensures
        dts_ids_unique(seed_step(s, id, k, name, category, order, now)),
        dts_builtins_unique(seed_step(s, id, k, name, category, order, now)),
{
    let r = seed_step(s, id, k, name, category, order, now);
    if !(dtv_has_kind(s, k) || dtv_has_id(s, id)) {
        assert forall|i: int, j: int| 0 <= i < j < r.len() implies r[i].id != r[j].id by {
            if j == s.len() {
                assert(!dtv_has_id(s, id));
                assert(r[i] == s[i]);
            }
        }
        assert forall|i: int, j: int| 0 <= i < j < r.len() implies !(r[i].kind == r[j].kind
            && r[i].kind != DirectoryTypeKind::Custom) by {
            if j == s.len() {
                assert(!dtv_has_kind(s, k));
                assert(r[i] == s[i]);
            }
        }
    }
}

// ---------------------------------------------------------------------------
// Executable lookups.
// ---------------------------------------------------------------------------

/// Whether a row of the given kind exists.
fn dt_has_kind(v: &Vec<DirectoryType>, k: DirectoryTypeKind) -> (r: bool)
    ensures
        r == dtv_has_kind(v.deep_view(), k),
{
    let mut i: usize = 0;
    while i < v.len()
        invariant
            i <= v@.len(),
            forall|t: int| 0 <= t < i ==> v.deep_view()[t].kind != k,
        decreases v@.len() - i,
    {
        if v[i].kind == k {
            assert(v.deep_view()[i as int].kind == k);
            return true;
        }
        i = i + 1;
    }
    false
}

/// The index of the directory type with the given id, if any.
fn dt_find(v: &Vec<DirectoryType>, id: &String) -> (r: Option<usize>)
    ensures
        match r {
            Some(i) => i < v@.len() && v.deep_view()[i as int].id == id@,
            None => !dtv_has_id(v.deep_view(), id@),
        },
{
    let mut i: usize = 0;
    while i < v.len()
        invariant
            i <= v@.len(),
            forall|t: int| 0 <= t < i ==> v.deep_view()[t].id != id@,
        decreases v@.len() - i,
    {
        if v[i].id == *id {
            return Some(i);
        }
        i = i + 1;
    }
    None
}

/// One executable seeding step: insert the built-in row if its kind is absent.
fn seed_one(
    dts: &mut Vec<DirectoryType>,
    id: String,
    k: DirectoryTypeKind,
    name: String,
    category: String,
    order: i32,
    now: &String,
)
    ensures
        final(dts).deep_view() == seed_step(
            old(dts).deep_view(),
            id@,
            k,
            name@,
            category@,
            order,
            now@,
        ),
{
    let ghost old_dv = dts.deep_view();
    let kind_present = dt_has_kind(dts, k);
    let id_present = dt_find(dts, &id).is_some();
    if !kind_present && !id_present {
        let row = DirectoryType {
            id: id,
            kind: k,
            name: name,
            category: Some(category),
            sort_order: order,
            created_at: now.clone(),
            updated_at: now.clone(),
        };
        dts.push(row);
        proof {
            assert(dts.deep_view() =~= old_dv.push(
                builtin_row_v(id@, k, name@, category@, order, now@),
            ));
        }
    } else {
        proof {
            assert(dtv_has_kind(old_dv, k) || dtv_has_id(old_dv, id@));
        }
    }
}

impl Store {
    /// Seeds the four built-in directory kinds, insert-if-absent; repeated
    /// seeding never duplicates a kind.
    /// Whether a row of the given directory kind exists.
    pub fn has_kind(&self, k: DirectoryTypeKind) -> (r: bool)
        ensures
            r == dtv_has_kind(self.dir_types_v(), k),
    {
        dt_has_kind(&self.dir_types, k)
    }

    pub fn seed_defaults(&mut self, ids: &Vec<String>, now: &String)
        requires
            old(self).wf(),
            ids@.len() == 4,
        ensures
            final(self).wf(),
            final(self).dir_types.deep_view() == seeded(
                old(self).dir_types.deep_view(),
                ids.deep_view(),
                now@,
            ),
            final(self).projects == old(self).projects,
            final(self).project_dirs == old(self).project_dirs,
            final(self).repos == old(self).repos,
            final(self).settings == old(self).settings,
            final(self).last_opened == old(self).last_opened,
    {
        let ghost s0 = self.dir_types.deep_view();
        let ghost idsv = ids.deep_view();
        proof {
            assert(idsv[0] == ids@[0]@ && idsv[1] == ids@[1]@ && idsv[2] == ids@[2]@ && idsv[3]
                == ids@[3]@);
        }
        seed_one(
            &mut self.dir_types,
            ids[0].clone(),
            DirectoryTypeKind::Code,
            "\u{4ee3}\u{7801}".to_owned(),
            "code".to_owned(),
            1,
            now,
        );
        proof {
            assert(seeded_upto(s0, idsv, now@, 0) == s0);
            assert(self.dir_types.deep_view() == seeded_upto(s0, idsv, now@, 1));
            lemma_seed_step_wf(s0, idsv[0], builtin_kind_of(0), builtin_name_of(0), builtin_category_of(0), builtin_order_of(0), now@);
        }
        seed_one(
            &mut self.dir_types,
            ids[1].clone(),
            DirectoryTypeKind::Docs,
            "\u{6587}\u{6863}".to_owned(),
            "docs".to_owned(),
            2,
            now,
        );
        proof {
            assert(self.dir_types.deep_view() == seeded_upto(s0, idsv, now@, 2));
            lemma_seed_step_wf(seeded_upto(s0, idsv, now@, 1), idsv[1], builtin_kind_of(1), builtin_name_of(1), builtin_category_of(1), builtin_order_of(1), now@);
        }
        seed_one(
            &mut self.dir_types,
            ids[2].clone(),
            DirectoryTypeKind::UiDesign,
            "UI \u{8bbe}\u{8ba1}".to_owned(),
            "ui_design".to_owned(),
            3,
            now,
        );
        proof {
            assert(self.dir_types.deep_view() == seeded_upto(s0, idsv, now@, 3));
            lemma_seed_step_wf(seeded_upto(s0, idsv, now@, 2), idsv[2], builtin_kind_of(2), builtin_name_of(2), builtin_category_of(2), builtin_order_of(2), now@);
        }
        seed_one(
            &mut self.dir_types,
            ids[3].clone(),
            DirectoryTypeKind::ProjectPlanning,
            "\u{9879}\u{76ee}\u{89c4}\u{5212}".to_owned(),
            "project_planning".to_owned(),
            4,
            now,
        );
        proof {
            assert(self.dir_types.deep_view() == seeded_upto(s0, idsv, now@, 4));
            lemma_seed_step_wf(seeded_upto(s0, idsv, now@, 3), idsv[3], builtin_kind_of(3), builtin_name_of(3), builtin_category_of(3), builtin_order_of(3), now@);
        }
    }
}

// ---------------------------------------------------------------------------
// Directory-type operations.
// ---------------------------------------------------------------------------

/// A partial update of one directory type; absent fields keep prior values.
#[derive(Debug)]
pub struct DirTypePatch {
    pub name: Option<String>,
    pub category: Option<String>,
    pub sort_order: Option<i32>,
}

/// The row after applying a patch: the kind and the creation time never move.
pub open spec fn dtv_patched(
    row: DirectoryTypeV,
    name: Option<Seq<char>>,
    category: Option<Seq<char>>,
    sort_order: Option<i32>,
    now: Seq<char>,
) -> DirectoryTypeV {
    DirectoryTypeV {
        id: row.id,
        kind: row.kind,
        name: match name {
            Some(n) => n,
            None => row.name,
        },
        category: match category {
            Some(c) => Some(c),
            None => row.category,
        },
        sort_order: match sort_order {
            Some(o) => o,
            None => row.sort_order,
        },
        created_at: row.created_at,
        updated_at: now,
    }
}

impl Store {
    /// All directory types, ascending by sort order.
    pub fn dir_types_list(&self) -> (r: Vec<DirectoryType>)
        ensures
            r@.to_multiset() == self.dir_types@.to_multiset(),
            crate::sort::dts_sorted(r@),
            r@.len() == self.dir_types@.len(),
    {
        let mut rows: Vec<DirectoryType> = Vec::new();
        let mut i: usize = 0;
        while i < self.dir_types.len()
            invariant
                i <= self.dir_types@.len(),
                rows@ == self.dir_types@.subrange(0, i as int),
            decreases self.dir_types@.len() - i,
        {
            rows.push(self.dir_types[i].clone());
            proof {
                assert(rows@ =~= self.dir_types@.subrange(0, i + 1 as int));
            }
            i = i + 1;
        }
        proof {
            assert(rows@ =~= self.dir_types@);
        }
        crate::sort::sort_dir_types(rows)
    }

    /// Creates a custom directory type. An empty name is rejected; a fresh-id
    /// collision is a persistence failure; otherwise exactly one row is added.
    pub fn dir_type_create_custom(
        &mut self,
        id: String,
        now: String,
        name: String,
        category: Option<String>,
        sort_order: i32,
    ) -> (r: Result<DirectoryType, AppError>)
        requires
            old(self).wf(),
        ensures
            final(self).wf(),
            name@.len() == 0 ==> r == Err::<DirectoryType, AppError>(AppError::Validation)
                && *final(self) == *old(self),
            name@.len() > 0 && dtv_has_id(old(self).dir_types_v(), id@) ==> r == Err::<
                DirectoryType,
                AppError,
            >(AppError::Persistence) && *final(self) == *old(self),
            name@.len() > 0 && !dtv_has_id(old(self).dir_types_v(), id@) ==> (match r {
                Ok(dt) => {
                    &&& dt.id@ == id@
                    &&& dt.kind == DirectoryTypeKind::Custom
                    &&& dt.name@ == name@
                    &&& dt.category.deep_view() == category.deep_view()
                    &&& dt.sort_order == sort_order
                    &&& dt.created_at@ == now@
                    &&& dt.updated_at@ == now@
                    &&& final(self).dir_types_v() == old(self).dir_types_v().push(dt.deep_view())
                },
                Err(_) => false,
            }),
            final(self).projects == old(self).projects,
            final(self).project_dirs == old(self).project_dirs,
            final(self).repos == old(self).repos,
            final(self).settings == old(self).settings,
            final(self).last_opened == old(self).last_opened,
    {
        if name.as_str().is_empty() {
            return Err(AppError::Validation);
        }
        if dt_find(&self.dir_types, &id).is_some() {
            return Err(AppError::Persistence);
        }
        let ghost old_dv = self.dir_types.deep_view();
        let row = DirectoryType {
            id: id,
            kind: DirectoryTypeKind::Custom,
            name: name,
            category: category,
            sort_order: sort_order,
            created_at: now.clone(),
            updated_at: now,
        };
        let out = row.clone();
        self.dir_types.push(row);
        proof {
            assert(self.dir_types.deep_view() =~= old_dv.push(out.deep_view()));
            assert forall|i: int, j: int|
                0 <= i < j < self.dir_types_v().len() implies self.dir_types_v()[i].id
                != self.dir_types_v()[j].id by {
                if j == old_dv.len() {
                    assert(self.dir_types_v()[i] == old_dv[i]);
                }
            }
            assert forall|i: int, j: int|
                0 <= i < j < self.dir_types_v().len() implies !(self.dir_types_v()[i].kind
                == self.dir_types_v()[j].kind && self.dir_types_v()[i].kind
                != DirectoryTypeKind::Custom) by {
                if j == old_dv.len() {
                    assert(self.dir_types_v()[i] == old_dv[i]);
                    assert(self.dir_types_v()[j].kind == DirectoryTypeKind::Custom);
                }
            }
        }
        Ok(out)
    }

    /// Partial update of one directory type; the kind is immutable and the
    /// update timestamp is refreshed.
    pub fn dir_type_update(&mut self, id: &String, patch: DirTypePatch, now: String) -> (r: Result<
        DirectoryType,
        AppError,
    >)
        requires
            old(self).wf(),
        ensures
            final(self).wf(),
            !dtv_has_id(old(self).dir_types_v(), id@) ==> r == Err::<DirectoryType, AppError>(
                AppError::NotFound,
            ) && *final(self) == *old(self),
            dtv_has_id(old(self).dir_types_v(), id@) ==> (match r {
                Ok(dt) => exists|i: int|
                    {
                        &&& 0 <= i < old(self).dir_types_v().len()
                        &&& old(self).dir_types_v()[i].id == id@
                        &&& dt.deep_view() == dtv_patched(
                            old(self).dir_types_v()[i],
                            patch.name.deep_view(),
                            patch.category.deep_view(),
                            patch.sort_order,
                            now@,
                        )
                        &&& final(self).dir_types_v() == old(self).dir_types_v().update(
                            i,
                            dt.deep_view(),
                        )
                    },
                Err(_) => false,
            }),
            final(self).projects == old(self).projects,
            final(self).project_dirs == old(self).project_dirs,
            final(self).repos == old(self).repos,
            final(self).settings == old(self).settings,
            final(self).last_opened == old(self).last_opened,
    {
        let found = dt_find(&self.dir_types, id);
        match found {
            None => Err(AppError::NotFound),
            Some(i) => {
                let ghost old_dv = self.dir_types.deep_view();
                let old_row = &self.dir_types[i];
                let name = match patch.name {
                    Some(n) => n,
                    None => old_row.name.clone(),
                };
                let category = match patch.category {
                    Some(c) => Some(c),
                    None => clone_opt_string(&old_row.category),
                };
                let sort_order = match patch.sort_order {
                    Some(o) => o,
                    None => old_row.sort_order,
                };
                let row = DirectoryType {
                    id: old_row.id.clone(),
                    kind: old_row.kind,
                    name: name,
                    category: category,
                    sort_order: sort_order,
                    created_at: old_row.created_at.clone(),
                    updated_at: now,
                };
                let out = row.clone();
                self.dir_types[i] = row;
                proof {
                    assert(self.dir_types.deep_view() =~= old_dv.update(i as int, out.deep_view()));
                    assert(out.deep_view() == dtv_patched(
                        old_dv[i as int],
                        patch.name.deep_view(),
                        patch.category.deep_view(),
                        patch.sort_order,
                        now@,
                    ));
                    assert forall|a: int, b: int|
                        0 <= a < b < self.dir_types_v().len() implies self.dir_types_v()[a].id
                        != self.dir_types_v()[b].id by {
                        assert(self.dir_types_v()[a].id == old_dv[a].id);
                        assert(self.dir_types_v()[b].id == old_dv[b].id);
                    }
                    assert forall|a: int, b: int|
                        0 <= a < b < self.dir_types_v().len() implies !(self.dir_types_v()[a].kind
                        == self.dir_types_v()[b].kind && self.dir_types_v()[a].kind
                        != DirectoryTypeKind::Custom) by {
                        assert(self.dir_types_v()[a].kind == old_dv[a].kind);
                        assert(self.dir_types_v()[b].kind == old_dv[b].kind);
                    }
                }
                Ok(out)
            },
        }
    }
}

// ---------------------------------------------------------------------------
// Project-directory bindings.
// ---------------------------------------------------------------------------

/// Index of the first binding of (project, directory type), if any.
pub open spec fn pdv_find(s: Seq<ProjectDirectoryV>, pid: Seq<char>, tid: Seq<char>) -> Option<
    int,
>
    decreases s.len(),
{
    if s.len() == 0 {
        None
    } else if s[0].project_id == pid && s[0].dir_type_id == tid {
        Some(0)
    } else {
        match pdv_find(s.drop_first(), pid, tid) {
            None => None,
            Some(i) => Some(i + 1),
        }
    }
}

/// What the finder returns is the first match, and `None` means no match.
pub proof fn lemma_pdv_find_props(s: Seq<ProjectDirectoryV>, pid: Seq<char>, tid: Seq<char>)
    ensures
        match pdv_find(s, pid, tid) {
            Some(i) => 0 <= i < s.len() && s[i].project_id == pid && s[i].dir_type_id == tid
                && forall|k: int|
                0 <= k < i ==> !(s[k].project_id == pid && s[k].dir_type_id == tid),
            None => forall|k: int|
                0 <= k < s.len() ==> !(s[k].project_id == pid && s[k].dir_type_id == tid),
        },
    decreases s.len(),
{
    if s.len() == 0 {
    } else if s[0].project_id == pid && s[0].dir_type_id == tid {
    } else {
        lemma_pdv_find_props(s.drop_first(), pid, tid);
        match pdv_find(s.drop_first(), pid, tid) {
            None => {
                assert forall|k: int| 0 <= k < s.len() implies !(s[k].project_id == pid
                    && s[k].dir_type_id == tid) by {
                    if k > 0 {
                        assert(s[k] == s.drop_first()[k - 1]);
                    }
                }
            },
            Some(i) => {
                assert(s[i + 1] == s.drop_first()[i]);
                assert forall|k: int| 0 <= k < i + 1 implies !(s[k].project_id == pid
                    && s[k].dir_type_id == tid) by {
                    if k > 0 {
                        assert(s[k] == s.drop_first()[k - 1]);
                    }
                }
            },
        }
    }
}

/// A fresh binding row.
pub open spec fn pdv_new_row(
    id: Seq<char>,
    pid: Seq<char>,
    tid: Seq<char>,
    path: Seq<char>,
    now: Seq<char>,
) -> ProjectDirectoryV {
    ProjectDirectoryV {
        id: id,
        project_id: pid,
        dir_type_id: tid,
        relative_path: path,
        created_at: now,
        updated_at: now,
    }
}

/// An existing binding repointed at a new path.
pub open spec fn pdv_repointed(row: ProjectDirectoryV, path: Seq<char>, now: Seq<char>) -> ProjectDirectoryV {
    ProjectDirectoryV {
        id: row.id,
        project_id: row.project_id,
        dir_type_id: row.dir_type_id,
        relative_path: path,
        created_at: row.created_at,
        updated_at: now,
    }
}

/// The table after an upsert: the existing binding is repointed, or one
/// fresh row is appended.
pub open spec fn pdv_upsert(
    s: Seq<ProjectDirectoryV>,
    pid: Seq<char>,
    tid: Seq<char>,
    path: Seq<char>,
    id: Seq<char>,
    now: Seq<char>,
) -> Seq<ProjectDirectoryV> {
    match pdv_find(s, pid, tid) {
        Some(i) => s.update(i, pdv_repointed(s[i], path, now)),
        None => s.push(pdv_new_row(id, pid, tid, path, now)),
    }
}

pub open spec fn pdv_has_id(s: Seq<ProjectDirectoryV>, id: Seq<char>) -> bool {
    exists|i: int| 0 <= i < s.len() && s[i].id == id
}

/// An upsert keeps the one-binding-per-pair invariant.
pub proof fn lemma_pdv_upsert_pairs_unique(
    s: Seq<ProjectDirectoryV>,
    pid: Seq<char>,
    tid: Seq<char>,
    path: Seq<char>,
    id: Seq<char>,
    now: Seq<char>,
)
    requires
        pds_pairs_unique(s),
    ensures
        pds_pairs_unique(pdv_upsert(s, pid, tid, path, id, now)),
{
    lemma_pdv_find_props(s, pid, tid);
    let r = pdv_upsert(s, pid, tid, path, id, now);
    match pdv_find(s, pid, tid) {
        Some(i) => {
            assert forall|a: int, b: int| 0 <= a < b < r.len() implies !(r[a].project_id
                == r[b].project_id && r[a].dir_type_id == r[b].dir_type_id) by {
                assert(r[a].project_id == s[a].project_id && r[a].dir_type_id == s[a].dir_type_id);
                assert(r[b].project_id == s[b].project_id && r[b].dir_type_id == s[b].dir_type_id);
            }
        },
        None => {
            assert forall|a: int, b: int| 0 <= a < b < r.len() implies !(r[a].project_id
                == r[b].project_id && r[a].dir_type_id == r[b].dir_type_id) by {
                if b == s.len() {
                    assert(r[a] == s[a]);
                    assert(!(s[a].project_id == pid && s[a].dir_type_id == tid));
                }
            }
        },
    }
}

/// Upserting the same pair twice leaves exactly one binding for the pair,
/// carrying the latest path, and the second call adds no row.
pub proof fn lemma_pdv_upsert_latest_wins(
    s: Seq<ProjectDirectoryV>,
    pid: Seq<char>,
    tid: Seq<char>,
    path1: Seq<char>,
    id1: Seq<char>,
    now1: Seq<char>,
    path2: Seq<char>,
    id2: Seq<char>,
    now2: Seq<char>,
)
    requires
        pds_pairs_unique(s),
    ensures
        ({
            let s1 = pdv_upsert(s, pid, tid, path1, id1, now1);
            let s2 = pdv_upsert(s1, pid, tid, path2, id2, now2);
            &&& s2.len() == s1.len()
            &&& pds_pairs_unique(s2)
            &&& exists|i: int|
                0 <= i < s2.len() && s2[i].project_id == pid && s2[i].dir_type_id == tid
                    && s2[i].relative_path == path2
        }),
{
    let s1 = pdv_upsert(s, pid, tid, path1, id1, now1);
    let s2 = pdv_upsert(s1, pid, tid, path2, id2, now2);
    lemma_pdv_find_props(s, pid, tid);
    lemma_pdv_upsert_pairs_unique(s, pid, tid, path1, id1, now1);
    lemma_pdv_upsert_pairs_unique(s1, pid, tid, path2, id2, now2);
    lemma_pdv_find_props(s1, pid, tid);
    match pdv_find(s, pid, tid) {
        Some(i) => {
            assert(s1[i].project_id == pid && s1[i].dir_type_id == tid);
        },
        None => {
            assert(s1[s.len() as int].project_id == pid && s1[s.len() as int].dir_type_id == tid);
        },
    }
    match pdv_find(s1, pid, tid) {
        Some(j) => {
            assert(s2 == s1.update(j, pdv_repointed(s1[j], path2, now2)));
            assert(s2[j].relative_path == path2);
        },
        None => {
            assert(false);
        },
    }
}

/// The index of the first binding of the pair, if any.
fn pd_find(v: &Vec<ProjectDirectory>, pid: &String, tid: &String) -> (r: Option<usize>)
    ensures
        match r {
            Some(i) => Some(i as int) == pdv_find(v.deep_view(), pid@, tid@),
            None => pdv_find(v.deep_view(), pid@, tid@) is None,
        },
{
    let mut i: usize = 0;
    while i < v.len()
        invariant
            i <= v@.len(),
            forall|t: int|
                0 <= t < i ==> !(v.deep_view()[t].project_id == pid@ && v.deep_view()[t].dir_type_id
                    == tid@),
        decreases v@.len() - i,
    {
        if v[i].project_id == *pid && v[i].dir_type_id == *tid {
            proof {
                assert(v.deep_view()[i as int].project_id == pid@ && v.deep_view()[
                    i as int
                ].dir_type_id == tid@);
                lemma_pdv_find_props(v.deep_view(), pid@, tid@);
                match pdv_find(v.deep_view(), pid@, tid@) {
                    Some(j) => {
                        if j < i as int {
                            assert(false);
                        } else if j > i as int {
                            assert(false);
                        }
                    },
                    None => {
                        assert(false);
                    },
                }
            }
            return Some(i);
        }
        i = i + 1;
    }
    proof {
        lemma_pdv_find_props(v.deep_view(), pid@, tid@);
        match pdv_find(v.deep_view(), pid@, tid@) {
            Some(j) => {
                assert(false);
            },
            None => {},
        }
    }
    None
}

impl Store {
    /// All bindings of one project, in table order.
    pub fn project_dirs_list(&self, project_id: &String) -> (r: Vec<ProjectDirectory>)
        ensures
            r.deep_view() == self.project_dirs_v().filter(
                |pd: ProjectDirectoryV| pd.project_id == project_id@,
            ),
    {
        let mut rows: Vec<ProjectDirectory> = Vec::new();
        let mut i: usize = 0;
        while i < self.project_dirs.len()
            invariant
                i <= self.project_dirs@.len(),
                rows.deep_view() == self.project_dirs_v().subrange(0, i as int).filter(
                    |pd: ProjectDirectoryV| pd.project_id == project_id@,
                ),
            decreases self.project_dirs@.len() - i,
        {
            let ghost prefix = self.project_dirs_v().subrange(0, i as int);
            proof {
                assert(self.project_dirs_v().subrange(0, i + 1 as int) =~= prefix.push(
                    self.project_dirs_v()[i as int],
                ));
                prefix.lemma_filter_push(
                    self.project_dirs_v()[i as int],
                    |pd: ProjectDirectoryV| pd.project_id == project_id@,
                );
            }
            if self.project_dirs[i].project_id == *project_id {
                rows.push(self.project_dirs[i].clone());
                proof {
                    assert(rows.deep_view() =~= self.project_dirs_v().subrange(0, i + 1 as int)
                        .filter(|pd: ProjectDirectoryV| pd.project_id == project_id@));
                }
            } else {
                proof {
                    assert(rows.deep_view() =~= self.project_dirs_v().subrange(0, i + 1 as int)
                        .filter(|pd: ProjectDirectoryV| pd.project_id == project_id@));
                }
            }
            i = i + 1;
        }
        proof {
            assert(self.project_dirs_v().subrange(0, self.project_dirs_v().len() as int)
                =~= self.project_dirs_v());
        }
        rows
    }

    /// Binds a directory type to a path within a project: repoints the
    /// existing binding or inserts one fresh row, never a duplicate.
    pub fn project_dir_create_or_update(
        &mut self,
        project_id: String,
        dir_type_id: String,
        relative_path: String,
        fresh_id: String,
        now: String,
    ) -> (r: Result<ProjectDirectory, AppError>)
        requires
            old(self).wf(),
        ensures
            final(self).wf(),
            pdv_find(old(self).project_dirs_v(), project_id@, dir_type_id@) is None && pdv_has_id(
                old(self).project_dirs_v(),
                fresh_id@,
            ) ==> r == Err::<ProjectDirectory, AppError>(AppError::Persistence) && *final(self)
                == *old(self),
            !(pdv_find(old(self).project_dirs_v(), project_id@, dir_type_id@) is None
                && pdv_has_id(old(self).project_dirs_v(), fresh_id@)) ==> (match r {
                Ok(pd) => {
                    &&& final(self).project_dirs_v() == pdv_upsert(
                        old(self).project_dirs_v(),
                        project_id@,
                        dir_type_id@,
                        relative_path@,
                        fresh_id@,
                        now@,
                    )
                    &&& pd.project_id@ == project_id@
                    &&& pd.dir_type_id@ == dir_type_id@
                    &&& pd.relative_path@ == relative_path@
                    &&& pd.updated_at@ == now@
                    &&& (match pdv_find(old(self).project_dirs_v(), project_id@, dir_type_id@) {
                        Some(i) => pd.deep_view() == pdv_repointed(
                            old(self).project_dirs_v()[i],
                            relative_path@,
                            now@,
                        ),
                        None => pd.deep_view() == pdv_new_row(
                            fresh_id@,
                            project_id@,
                            dir_type_id@,
                            relative_path@,
                            now@,
                        ),
                    })
                },
                Err(_) => false,
            }),
            final(self).projects == old(self).projects,
            final(self).dir_types == old(self).dir_types,
            final(self).repos == old(self).repos,
            final(self).settings == old(self).settings,
            final(self).last_opened == old(self).last_opened,
    {
        let ghost old_dv = self.project_dirs.deep_view();
        proof {
            lemma_pdv_find_props(old_dv, project_id@, dir_type_id@);
        }
        let found = pd_find(&self.project_dirs, &project_id, &dir_type_id);
        match found {
            Some(i) => {
                let old_row = &self.project_dirs[i];
                let row = ProjectDirectory {
                    id: old_row.id.clone(),
                    project_id: project_id,
                    dir_type_id: dir_type_id,
                    relative_path: relative_path,
                    created_at: old_row.created_at.clone(),
                    updated_at: now,
                };
                let out = row.clone();
                self.project_dirs[i] = row;
                proof {
                    assert(out.deep_view() == pdv_repointed(
                        old_dv[i as int],
                        out.relative_path@,
                        out.updated_at@,
                    ));
                    assert(self.project_dirs.deep_view() =~= old_dv.update(
                        i as int,
                        out.deep_view(),
                    ));
                    lemma_pdv_upsert_pairs_unique(
                        old_dv,
                        out.project_id@,
                        out.dir_type_id@,
                        out.relative_path@,
                        fresh_id@,
                        out.updated_at@,
                    );
                    assert forall|a: int, b: int|
                        0 <= a < b < self.project_dirs_v().len() implies self.project_dirs_v()[a].id
                        != self.project_dirs_v()[b].id by {
                        assert(self.project_dirs_v()[a].id == old_dv[a].id);
                        assert(self.project_dirs_v()[b].id == old_dv[b].id);
                    }
                }
                Ok(out)
            },
            None => {
                let mut id_taken = false;
                let mut k: usize = 0;
                while k < self.project_dirs.len()
                    invariant
                        k <= self.project_dirs@.len(),
                        old_dv == self.project_dirs.deep_view(),
                        id_taken == exists|t: int|
                            0 <= t < k && old_dv[t].id == fresh_id@,
                    decreases self.project_dirs@.len() - k,
                {
                    if self.project_dirs[k].id == fresh_id {
                        assert(old_dv[k as int].id == fresh_id@);
                        id_taken = true;
                    }
                    k = k + 1;
                }
                if id_taken {
                    return Err(AppError::Persistence);
                }
                let row = ProjectDirectory {
                    id: fresh_id,
                    project_id: project_id,
                    dir_type_id: dir_type_id,
                    relative_path: relative_path,
                    created_at: now.clone(),
                    updated_at: now,
                };
                let out = row.clone();
                self.project_dirs.push(row);
                proof {
                    assert(out.deep_view() == pdv_new_row(
                        out.id@,
                        out.project_id@,
                        out.dir_type_id@,
                        out.relative_path@,
                        out.updated_at@,
                    ));
                    assert(self.project_dirs.deep_view() =~= old_dv.push(out.deep_view()));
                    lemma_pdv_upsert_pairs_unique(
                        old_dv,
                        out.project_id@,
                        out.dir_type_id@,
                        out.relative_path@,
                        out.id@,
                        out.updated_at@,
                    );
                    assert forall|a: int, b: int|
                        0 <= a < b < self.project_dirs_v().len() implies self.project_dirs_v()[a].id
                        != self.project_dirs_v()[b].id by {
                        if b == old_dv.len() {
                            assert(self.project_dirs_v()[a] == old_dv[a]);
                        }
                    }
                }
                Ok(out)
            },
        }
    }
}

// ---------------------------------------------------------------------------
// Project operations.
// ---------------------------------------------------------------------------

pub open spec fn projv_has_id(s: Seq<ProjectV>, id: Seq<char>) -> bool {
    exists|i: int| 0 <= i < s.len() && s[i].id == id
}

/// The index of the project with the given id, if any.
fn proj_find(v: &Vec<Project>, id: &String) -> (r: Option<usize>)
    ensures
        match r {
            Some(i) => i < v@.len() && v.deep_view()[i as int].id == id@,
            None => !projv_has_id(v.deep_view(), id@),
        },
{
    let mut i: usize = 0;
    while i < v.len()
        invariant
            i <= v@.len(),
            forall|t: int| 0 <= t < i ==> v.deep_view()[t].id != id@,
        decreases v@.len() - i,
    {
        if v[i].id == *id {
            assert(v.deep_view()[i as int].id == id@);
            return Some(i);
        }
        i = i + 1;
    }
    None
}

/// A project row after a partial update; only given fields move, and the
/// update timestamp is refreshed.
pub open spec fn projv_patched(
    row: ProjectV,
    name: Option<Seq<char>>,
    description: Option<Seq<char>>,
    display: Option<crate::types::ProjectDisplayV>,
    ide_override: Option<crate::types::IdeConfigV>,
    now: Seq<char>,
) -> ProjectV {
    ProjectV {
        id: row.id,
        name: match name {
            Some(n) => n,
            None => row.name,
        },
        description: match description {
            Some(d) => Some(d),
            None => row.description,
        },
        project_path: row.project_path,
        display: match display {
            Some(d) => Some(d),
            None => row.display,
        },
        ide_override: match ide_override {
            Some(x) => Some(x),
            None => row.ide_override,
        },
        updated_at: now,
    }
}

impl Store {
    /// All projects, most recently updated first.
    pub fn projects_list(&self) -> (r: Vec<Project>)
        ensures
            crate::sort::projects_dv(r@).to_multiset() == crate::sort::projects_dv(
                self.projects@,
            ).to_multiset(),
            crate::sort::projects_sorted_desc(r@),
            r@.len() == self.projects@.len(),
    {
        let mut rows: Vec<Project> = Vec::new();
        let mut i: usize = 0;
        while i < self.projects.len()
            invariant
                i <= self.projects@.len(),
                rows@.len() == i,
                forall|t: int|
                    0 <= t < i ==> rows@[t].deep_view() == #[trigger] self.projects@[t].deep_view(),
            decreases self.projects@.len() - i,
        {
            rows.push(self.projects[i].clone());
            i = i + 1;
        }
        proof {
            assert(crate::sort::projects_dv(rows@) =~= crate::sort::projects_dv(self.projects@));
        }
        crate::sort::sort_projects_desc(rows)
    }

    /// Inserts a fresh project row; an id collision is the one failure.
    pub fn project_insert(
        &mut self,
        id: String,
        now: String,
        name: String,
        description: Option<String>,
        display: Option<crate::types::ProjectDisplay>,
        project_path: String,
    ) -> (r: Result<Project, AppError>)
        requires
            old(self).wf(),
        ensures
            final(self).wf(),
            projv_has_id(old(self).projects_v(), id@) ==> r == Err::<Project, AppError>(
                AppError::Persistence,
            ) && *final(self) == *old(self),
            !projv_has_id(old(self).projects_v(), id@) ==> (match r {
                Ok(p) => {
                    &&& p.id@ == id@
                    &&& p.name@ == name@
                    &&& p.description.deep_view() == description.deep_view()
                    &&& p.project_path@ == project_path@
                    &&& p.display.deep_view() == display.deep_view()
                    &&& p.ide_override is None
                    &&& p.updated_at@ == now@
                    &&& final(self).projects_v() == old(self).projects_v().push(p.deep_view())
                },
                Err(_) => false,
            }),
            final(self).dir_types == old(self).dir_types,
            final(self).project_dirs == old(self).project_dirs,
            final(self).repos == old(self).repos,
            final(self).settings == old(self).settings,
            final(self).last_opened == old(self).last_opened,
    {
        if proj_find(&self.projects, &id).is_some() {
            return Err(AppError::Persistence);
        }
        let ghost old_dv = self.projects.deep_view();
        let row = Project {
            id: id,
            name: name,
            description: description,
            project_path: project_path,
            display: display,
            ide_override: None,
            updated_at: now,
        };
        let out = row.clone();
        self.projects.push(row);
        proof {
            assert(self.projects.deep_view() =~= old_dv.push(out.deep_view()));
            assert forall|a: int, b: int|
                0 <= a < b < self.projects_v().len() implies self.projects_v()[a].id
                != self.projects_v()[b].id by {
                if b == old_dv.len() {
                    assert(self.projects_v()[a] == old_dv[a]);
                }
            }
        }
        Ok(out)
    }

    /// One project by id.
    pub fn project_get(&self, id: &String) -> (r: Result<Project, AppError>)
        ensures
            !projv_has_id(self.projects_v(), id@) ==> r == Err::<Project, AppError>(
                AppError::NotFound,
            ),
            projv_has_id(self.projects_v(), id@) ==> (match r {
                Ok(p) => exists|i: int|
                    0 <= i < self.projects_v().len() && self.projects_v()[i].id == id@
                        && p.deep_view() == self.projects_v()[i],
                Err(_) => false,
            }),
    {
        match proj_find(&self.projects, id) {
            None => Err(AppError::NotFound),
            Some(i) => {
                let p = self.projects[i].clone();
                proof {
                    assert(p.deep_view() == self.projects_v()[i as int]);
                }
                Ok(p)
            },
        }
    }

    /// Partial update of one project; the update timestamp always refreshes.
    pub fn project_update(
        &mut self,
        id: &String,
        name: Option<String>,
        description: Option<String>,
        display: Option<crate::types::ProjectDisplay>,
        ide_override: Option<crate::types::IdeConfig>,
        now: String,
    ) -> (r: Result<Project, AppError>)
        requires
            old(self).wf(),
        ensures
            final(self).wf(),
            !projv_has_id(old(self).projects_v(), id@) ==> r == Err::<Project, AppError>(
                AppError::NotFound,
            ) && *final(self) == *old(self),
            projv_has_id(old(self).projects_v(), id@) ==> (match r {
                Ok(p) => exists|i: int|
                    {
                        &&& 0 <= i < old(self).projects_v().len()
                        &&& old(self).projects_v()[i].id == id@
                        &&& p.deep_view() == projv_patched(
                            old(self).projects_v()[i],
                            name.deep_view(),
                            description.deep_view(),
                            display.deep_view(),
                            ide_override.deep_view(),
                            now@,
                        )
                        &&& final(self).projects_v() == old(self).projects_v().update(
                            i,
                            p.deep_view(),
                        )
                    },
                Err(_) => false,
            }),
            final(self).dir_types == old(self).dir_types,
            final(self).project_dirs == old(self).project_dirs,
            final(self).repos == old(self).repos,
            final(self).settings == old(self).settings,
            final(self).last_opened == old(self).last_opened,
    {
        match proj_find(&self.projects, id) {
            None => Err(AppError::NotFound),
            Some(i) => {
                let ghost old_dv = self.projects.deep_view();
                let old_row = &self.projects[i];
                let new_name = match name {
                    Some(n) => n,
                    None => old_row.name.clone(),
                };
                let new_description = match description {
                    Some(d) => Some(d),
                    None => clone_opt_string(&old_row.description),
                };
                let new_display = match display {
                    Some(d) => Some(d),
                    None => crate::types::clone_opt_display(&old_row.display),
                };
                let new_ide = match ide_override {
                    Some(x) => Some(x),
                    None => crate::types::clone_opt_ide(&old_row.ide_override),
                };
                let row = Project {
                    id: old_row.id.clone(),
                    name: new_name,
                    description: new_description,
                    project_path: old_row.project_path.clone(),
                    display: new_display,
                    ide_override: new_ide,
                    updated_at: now,
                };
                let out = row.clone();
                self.projects[i] = row;
                proof {
                    assert(self.projects.deep_view() =~= old_dv.update(i as int, out.deep_view()));
                    assert(out.deep_view() =~= projv_patched(
                        old_dv[i as int],
                        name.deep_view(),
                        description.deep_view(),
                        display.deep_view(),
                        ide_override.deep_view(),
                        out.updated_at@,
                    ));
                    assert forall|a: int, b: int|
                        0 <= a < b < self.projects_v().len() implies self.projects_v()[a].id
                        != self.projects_v()[b].id by {
                        assert(self.projects_v()[a].id == old_dv[a].id);
                        assert(self.projects_v()[b].id == old_dv[b].id);
                    }
                }
                Ok(out)
            },
        }
    }

    /// Deletes one project record; the on-disk directory is kept on purpose.
    pub fn project_delete(&mut self, id: &String) -> (r: Result<(), AppError>)
        requires
            old(self).wf(),
        ensures
            final(self).wf(),
            !projv_has_id(old(self).projects_v(), id@) ==> r == Err::<(), AppError>(
                AppError::NotFound,
            ) && *final(self) == *old(self),
            projv_has_id(old(self).projects_v(), id@) ==> r == Ok::<(), AppError>(()) && exists|
                i: int,
            |
                {
                    &&& 0 <= i < old(self).projects_v().len()
                    &&& old(self).projects_v()[i].id == id@
                    &&& final(self).projects_v() == old(self).projects_v().remove(i)
                },
            final(self).dir_types == old(self).dir_types,
            final(self).project_dirs == old(self).project_dirs,
            final(self).repos == old(self).repos,
            final(self).settings == old(self).settings,
            final(self).last_opened == old(self).last_opened,
    {
        match proj_find(&self.projects, id) {
            None => Err(AppError::NotFound),
            Some(i) => {
                let ghost old_dv = self.projects.deep_view();
                self.projects.remove(i);
                proof {
                    assert(self.projects.deep_view() =~= old_dv.remove(i as int));
                    assert forall|a: int, b: int|
                        0 <= a < b < self.projects_v().len() implies self.projects_v()[a].id
                        != self.projects_v()[b].id by {
                        let pa = if a < i as int { a } else { a + 1 };
                        let pb = if b < i as int { b } else { b + 1 };
                        assert(self.projects_v()[a] == old_dv[pa]);
                        assert(self.projects_v()[b] == old_dv[pb]);
                    }
                }
                Ok(())
            },
        }
    }
}

// ---------------------------------------------------------------------------
// Git repository records.
// ---------------------------------------------------------------------------

pub open spec fn repov_has_id(s: Seq<GitRepoRecordV>, id: Seq<char>) -> bool {
    exists|i: int| 0 <= i < s.len() && s[i].repo.id == id
}

/// The records of one project, mapped to their repository metadata, in
/// table order.
pub open spec fn repos_of_project(s: Seq<GitRepoRecordV>, pid: Seq<char>) -> Seq<GitRepositoryV>
    decreases s.len(),
{
    if s.len() == 0 {
        Seq::empty()
    } else {
        let rest = repos_of_project(s.drop_last(), pid);
        if s.last().repo.project_id == pid {
            rest.push(s.last().repo)
        } else {
            rest
        }
    }
}

/// The index of the repository record with the given id, if any.
fn repo_find(v: &Vec<GitRepoRecord>, id: &String) -> (r: Option<usize>)
    ensures
        match r {
            Some(i) => i < v@.len() && v.deep_view()[i as int].repo.id == id@,
            None => !repov_has_id(v.deep_view(), id@),
        },
{
    let mut i: usize = 0;
    while i < v.len()
        invariant
            i <= v@.len(),
            forall|t: int| 0 <= t < i ==> v.deep_view()[t].repo.id != id@,
        decreases v@.len() - i,
    {
        if v[i].repo.id == *id {
            assert(v.deep_view()[i as int].repo.id == id@);
            return Some(i);
        }
        i = i + 1;
    }
    None
}

impl Store {
    /// The repositories registered under one project, in table order.
    pub fn git_repo_list(&self, project_id: &String) -> (r: Vec<GitRepository>)
        ensures
            r.deep_view() == repos_of_project(self.repos_v(), project_id@),
    {
        let mut rows: Vec<GitRepository> = Vec::new();
        let mut i: usize = 0;
        while i < self.repos.len()
            invariant
                i <= self.repos@.len(),
                rows.deep_view() == repos_of_project(
                    self.repos_v().subrange(0, i as int),
                    project_id@,
                ),
            decreases self.repos@.len() - i,
        {
            let ghost prefix = self.repos_v().subrange(0, i as int);
            proof {
                let s2 = self.repos_v().subrange(0, i + 1 as int);
                assert(s2.drop_last() =~= prefix);
                assert(s2.last() == self.repos_v()[i as int]);
            }
            if self.repos[i].repo.project_id == *project_id {
                rows.push(self.repos[i].repo.clone());
                proof {
                    assert(rows.deep_view() =~= repos_of_project(
                        self.repos_v().subrange(0, i + 1 as int),
                        project_id@,
                    ));
                }
            } else {
                proof {
                    assert(rows.deep_view() =~= repos_of_project(
                        self.repos_v().subrange(0, i + 1 as int),
                        project_id@,
                    ));
                }
            }
            i = i + 1;
        }
        proof {
            assert(self.repos_v().subrange(0, self.repos_v().len() as int) =~= self.repos_v());
        }
        rows
    }

    /// Inserts a fresh repository record with no snapshot; an id collision is
    /// the one failure.
    pub fn repo_insert(&mut self, repo: GitRepository) -> (r: Result<(), AppError>)
        requires
            old(self).wf(),
        ensures
            final(self).wf(),
            repov_has_id(old(self).repos_v(), repo.id@) ==> r == Err::<(), AppError>(
                AppError::Persistence,
            ) && *final(self) == *old(self),
            !repov_has_id(old(self).repos_v(), repo.id@) ==> r == Ok::<(), AppError>(())
                && final(self).repos_v() == old(self).repos_v().push(
                (GitRepoRecordV { repo: repo.deep_view(), snapshot: None }),
            ),
            final(self).projects == old(self).projects,
            final(self).dir_types == old(self).dir_types,
            final(self).project_dirs == old(self).project_dirs,
            final(self).settings == old(self).settings,
            final(self).last_opened == old(self).last_opened,
    {
        if repo_find(&self.repos, &repo.id).is_some() {
            return Err(AppError::Persistence);
        }
        let ghost old_dv = self.repos.deep_view();
        let rec = GitRepoRecord { repo: repo, snapshot: None };
        self.repos.push(rec);
        proof {
            assert(self.repos.deep_view() =~= old_dv.push(
                self.repos.deep_view()[old_dv.len() as int],
            ));
            assert forall|a: int, b: int|
                0 <= a < b < self.repos_v().len() implies self.repos_v()[a].repo.id
                != self.repos_v()[b].repo.id by {
                if b == old_dv.len() {
                    assert(self.repos_v()[a] == old_dv[a]);
                }
            }
        }
        Ok(())
    }

    /// One repository's metadata by id.
    pub fn repo_get(&self, id: &String) -> (r: Result<GitRepository, AppError>)
        ensures
            !repov_has_id(self.repos_v(), id@) ==> r == Err::<GitRepository, AppError>(
                AppError::NotFound,
            ),
            repov_has_id(self.repos_v(), id@) ==> (match r {
                Ok(repo) => exists|i: int|
                    0 <= i < self.repos_v().len() && self.repos_v()[i].repo.id == id@
                        && repo.deep_view() == self.repos_v()[i].repo,
                Err(_) => false,
            }),
    {
        match repo_find(&self.repos, id) {
            None => Err(AppError::NotFound),
            Some(i) => {
                let repo = self.repos[i].repo.clone();
                proof {
                    assert(repo.deep_view() == self.repos_v()[i as int].repo);
                }
                Ok(repo)
            },
        }
    }

    /// Marks one repository as synchronized now; everything else on the row
    /// is kept.
    pub fn repo_set_synced(&mut self, id: &String, now: &String) -> (r: Result<(), AppError>)
        requires
            old(self).wf(),
        ensures
            final(self).wf(),
            !repov_has_id(old(self).repos_v(), id@) ==> r == Err::<(), AppError>(
                AppError::NotFound,
            ) && *final(self) == *old(self),
            repov_has_id(old(self).repos_v(), id@) ==> r == Ok::<(), AppError>(()) && exists|
                i: int,
            |
                {
                    &&& 0 <= i < old(self).repos_v().len()
                    &&& old(self).repos_v()[i].repo.id == id@
                    &&& final(self).repos_v() == old(self).repos_v().update(
                        i,
                        (GitRepoRecordV {
                            repo: GitRepositoryV {
                                last_sync_at: Some(now@),
                                ..old(self).repos_v()[i].repo
                            },
                            snapshot: old(self).repos_v()[i].snapshot,
                        }),
                    )
                },
            final(self).projects == old(self).projects,
            final(self).dir_types == old(self).dir_types,
            final(self).project_dirs == old(self).project_dirs,
            final(self).settings == old(self).settings,
            final(self).last_opened == old(self).last_opened,
    {
        match repo_find(&self.repos, id) {
            None => Err(AppError::NotFound),
            Some(i) => {
                let ghost old_dv = self.repos.deep_view();
                let slot = &mut self.repos[i];
                slot.repo.last_sync_at = Some(now.clone());
                proof {
                    assert(self.repos.deep_view() =~= old_dv.update(
                        i as int,
                        (GitRepoRecordV {
                            repo: GitRepositoryV {
                                last_sync_at: Some(now@),
                                ..old_dv[i as int].repo
                            },
                            snapshot: old_dv[i as int].snapshot,
                        }),
                    ));
                    assert forall|a: int, b: int|
                        0 <= a < b < self.repos_v().len() implies self.repos_v()[a].repo.id
                        != self.repos_v()[b].repo.id by {
                        assert(self.repos_v()[a].repo.id == old_dv[a].repo.id);
                        assert(self.repos_v()[b].repo.id == old_dv[b].repo.id);
                    }
                }
                Ok(())
            },
        }
    }

    /// Overwrites one repository's status snapshot and check timestamp;
    /// everything else on the row is kept.
    pub fn repo_set_status(&mut self, id: &String, now: &String, snap: GitStatusSnapshot) -> (r:
        Result<(), AppError>)
        requires
            old(self).wf(),
        ensures
            final(self).wf(),
            !repov_has_id(old(self).repos_v(), id@) ==> r == Err::<(), AppError>(
                AppError::NotFound,
            ) && *final(self) == *old(self),
            repov_has_id(old(self).repos_v(), id@) ==> r == Ok::<(), AppError>(()) && exists|
                i: int,
            |
                {
                    &&& 0 <= i < old(self).repos_v().len()
                    &&& old(self).repos_v()[i].repo.id == id@
                    &&& final(self).repos_v() == old(self).repos_v().update(
                        i,
                        (GitRepoRecordV {
                            repo: GitRepositoryV {
                                last_status_checked_at: Some(now@),
                                ..old(self).repos_v()[i].repo
                            },
                            snapshot: Some(snap.deep_view()),
                        }),
                    )
                },
            final(self).projects == old(self).projects,
            final(self).dir_types == old(self).dir_types,
            final(self).project_dirs == old(self).project_dirs,
            final(self).settings == old(self).settings,
            final(self).last_opened == old(self).last_opened,
    {
        match repo_find(&self.repos, id) {
            None => Err(AppError::NotFound),
            Some(i) => {
                let ghost old_dv = self.repos.deep_view();
                let slot = &mut self.repos[i];
                slot.repo.last_status_checked_at = Some(now.clone());
                slot.snapshot = Some(snap);
                proof {
                    assert(self.repos.deep_view() =~= old_dv.update(
                        i as int,
                        self.repos.deep_view()[i as int],
                    ));
                    assert forall|a: int, b: int|
                        0 <= a < b < self.repos_v().len() implies self.repos_v()[a].repo.id
                        != self.repos_v()[b].repo.id by {
                        assert(self.repos_v()[a].repo.id == old_dv[a].repo.id);
                        assert(self.repos_v()[b].repo.id == old_dv[b].repo.id);
                    }
                }
                Ok(())
            },
        }
    }

    /// Stores the resolved settings blob.
    pub fn set_settings(&mut self, s: WorkspaceSettings)
        requires
            old(self).wf(),
        ensures
            final(self).wf(),
            final(self).settings.deep_view() == Some(s.deep_view()),
            final(self).projects == old(self).projects,
            final(self).dir_types == old(self).dir_types,
            final(self).project_dirs == old(self).project_dirs,
            final(self).repos == old(self).repos,
            final(self).last_opened == old(self).last_opened,
    {
        self.settings = Some(s);
    }

    /// Records which workspace path was opened last.
    pub fn set_last_opened(&mut self, path: &String)
        requires
            old(self).wf(),
        ensures
            final(self).wf(),
            final(self).last_opened.deep_view() == Some(path@),
            final(self).projects == old(self).projects,
            final(self).dir_types == old(self).dir_types,
            final(self).project_dirs == old(self).project_dirs,
            final(self).repos == old(self).repos,
            final(self).settings == old(self).settings,
    {
        self.last_opened = Some(path.clone());
    }
}

} // verus!

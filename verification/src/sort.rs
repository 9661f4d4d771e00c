//! Verified insertion sorts for the two ordered listings: directory types
//! ascending by sort order, projects descending by update timestamp.

use vstd::prelude::*;
use vstd::multiset::Multiset;
use crate::types::{DirectoryType, Project, ProjectV};
use crate::strutil::{str_le, str_le_exec, lemma_str_le_total, lemma_str_le_trans};

verus! {

/// Directory types in ascending sort order.
pub open spec fn dts_sorted(s: Seq<DirectoryType>) -> bool {
    forall|i: int, j: int| 0 <= i <= j < s.len() ==> s[i].sort_order <= s[j].sort_order
}

/// Projects in descending timestamp order: most recently updated first.
pub open spec fn projects_sorted_desc(s: Seq<Project>) -> bool {
    forall|i: int, j: int| 0 <= i <= j < s.len() ==> str_le(s[j].updated_at@, s[i].updated_at@)
}

/// Sorts directory types ascending by sort order; the result is a
/// permutation of the input.
pub fn sort_dir_types(v: Vec<DirectoryType>) -> (r: Vec<DirectoryType>)
    ensures
        r@.to_multiset() == v@.to_multiset(),
        dts_sorted(r@),
        r@.len() == v@.len(),
{
    broadcast use vstd::seq_lib::group_to_multiset_ensures;

    let mut src = v;
    let mut r: Vec<DirectoryType> = Vec::new();
    while src.len() > 0
        invariant
            dts_sorted(r@),
            r@.to_multiset().add(src@.to_multiset()) == v@.to_multiset(),
            r@.len() + src@.len() == v@.len(),
        decreases src.len(),
    {
        let ghost old_src = src@;
        let ghost old_r = r@;
        let x = src.pop().unwrap();
        proof {
            assert(old_src =~= src@.push(x));
            vstd::seq_lib::to_multiset_build(src@, x);
            assert(old_src.to_multiset() == src@.to_multiset().insert(x));
        }
        let mut j: usize = 0;
        while j < r.len() && r[j].sort_order <= x.sort_order
            invariant
                j <= r@.len(),
                forall|k: int| 0 <= k < j ==> r@[k].sort_order <= x.sort_order,
                dts_sorted(r@),
                r@ == old_r,
            decreases r@.len() - j,
        {
            j = j + 1;
        }
        proof {
            if (j as int) < r@.len() {
                assert(x.sort_order < r@[j as int].sort_order);
            }
        }
        r.insert(j, x);
        proof {
            vstd::seq_lib::to_multiset_insert(old_r, j as int, x);
            assert(r@.to_multiset() == old_r.to_multiset().insert(x));
            assert(r@.to_multiset().add(src@.to_multiset()) == v@.to_multiset()) by {
                assert(old_r.to_multiset().insert(x).add(src@.to_multiset()) =~= old_r.to_multiset().add(src@.to_multiset().insert(x)));
            }
            assert(dts_sorted(r@)) by {
                assert forall|a: int, b: int| 0 <= a <= b < r@.len() implies r@[a].sort_order
                    <= r@[b].sort_order by {
                    if a < j && b < j {
                        assert(r@[a] == old_r[a] && r@[b] == old_r[b]);
                    } else if a < j && b == j {
                        assert(r@[a] == old_r[a]);
                    } else if a < j && b > j {
                        assert(r@[a] == old_r[a] && r@[b] == old_r[b - 1]);
                        assert(old_r[a].sort_order <= old_r[b - 1].sort_order);
                    } else if a == j && b == j {
                    } else if a == j && b > j {
                        assert(r@[b] == old_r[b - 1]);
                        assert(x.sort_order < old_r[b - 1].sort_order || (j as int) > b - 1);
                    } else {
                        assert(r@[a] == old_r[a - 1] && r@[b] == old_r[b - 1]);
                    }
                }
            }
        }
    }
    proof {
        assert(src@.to_multiset() =~= Multiset::<DirectoryType>::empty());
        assert(r@.to_multiset().add(Multiset::<DirectoryType>::empty()) =~= r@.to_multiset());
    }
    r
}

/// The deep view of a project sequence, element by element.
pub open spec fn projects_dv(s: Seq<Project>) -> Seq<ProjectV> {
    Seq::new(s.len(), |i: int| s[i].deep_view())
}

/// Sorts projects descending by update timestamp; the result is a
/// permutation of the input, both at value level and at view level.
pub fn sort_projects_desc(v: Vec<Project>) -> (r: Vec<Project>)
    ensures
        r@.to_multiset() == v@.to_multiset(),
        projects_dv(r@).to_multiset() == projects_dv(v@).to_multiset(),
        projects_sorted_desc(r@),
        r@.len() == v@.len(),
{
    broadcast use vstd::seq_lib::group_to_multiset_ensures;

    let mut src = v;
    let mut r: Vec<Project> = Vec::new();
    while src.len() > 0
        invariant
            projects_sorted_desc(r@),
            r@.to_multiset().add(src@.to_multiset()) == v@.to_multiset(),
            projects_dv(r@).to_multiset().add(projects_dv(src@).to_multiset()) == projects_dv(v@).to_multiset(),
            r@.len() + src@.len() == v@.len(),
        decreases src.len(),
    {
        let ghost old_src = src@;
        let ghost old_r = r@;
        let x = src.pop().unwrap();
        proof {
            assert(old_src =~= src@.push(x));
            vstd::seq_lib::to_multiset_build(src@, x);
            assert(old_src.to_multiset() == src@.to_multiset().insert(x));
            assert(projects_dv(old_src) =~= projects_dv(src@).push(x.deep_view()));
            vstd::seq_lib::to_multiset_build(projects_dv(src@), x.deep_view());
            assert(projects_dv(old_src).to_multiset() == projects_dv(src@).to_multiset().insert(x.deep_view()));
        }
        let mut j: usize = 0;
        while j < r.len() && str_le_exec(&x.updated_at, &r[j].updated_at)
            invariant
                j <= r@.len(),
                forall|k: int| 0 <= k < j ==> str_le(x.updated_at@, #[trigger] r@[k].updated_at@),
                projects_sorted_desc(r@),
                r@ == old_r,
            decreases r@.len() - j,
        {
            j = j + 1;
        }
        proof {
            if (j as int) < r@.len() {
                lemma_str_le_total(x.updated_at@, r@[j as int].updated_at@);
                assert(str_le(r@[j as int].updated_at@, x.updated_at@));
            }
        }
        r.insert(j, x);
        proof {
            vstd::seq_lib::to_multiset_insert(old_r, j as int, x);
            assert(r@.to_multiset() == old_r.to_multiset().insert(x));
            assert(r@.to_multiset().add(src@.to_multiset()) == v@.to_multiset()) by {
                assert(old_r.to_multiset().insert(x).add(src@.to_multiset()) =~= old_r.to_multiset().add(src@.to_multiset().insert(x)));
            }
            assert(projects_dv(r@) =~= projects_dv(old_r).insert(j as int, x.deep_view()));
            vstd::seq_lib::to_multiset_insert(projects_dv(old_r), j as int, x.deep_view());
            assert(projects_dv(r@).to_multiset() == projects_dv(old_r).to_multiset().insert(x.deep_view()));
            assert(projects_dv(r@).to_multiset().add(projects_dv(src@).to_multiset()) == projects_dv(v@).to_multiset()) by {
                assert(projects_dv(old_r).to_multiset().insert(x.deep_view()).add(projects_dv(src@).to_multiset()) =~= projects_dv(old_r).to_multiset().add(projects_dv(src@).to_multiset().insert(x.deep_view())));
            }
            assert(projects_sorted_desc(r@)) by {
                assert forall|a: int, b: int| 0 <= a <= b < r@.len() implies str_le(
                    r@[b].updated_at@,
                    r@[a].updated_at@,
                ) by {
                    if a < j && b < j {
                        assert(r@[a] == old_r[a] && r@[b] == old_r[b]);
                    } else if a < j && b == j {
                        assert(r@[a] == old_r[a]);
                        assert(str_le(x.updated_at@, old_r[a].updated_at@));
                    } else if a < j && b > j {
                        assert(r@[a] == old_r[a] && r@[b] == old_r[b - 1]);
                    } else if a == j && b == j {
                        lemma_str_le_total(x.updated_at@, x.updated_at@);
                    } else if a == j && b > j {
                        assert(r@[b] == old_r[b - 1]);
                        if (j as int) < old_r.len() {
                            assert(str_le(old_r[b - 1].updated_at@, old_r[j as int].updated_at@));
                            lemma_str_le_trans(
                                old_r[b - 1].updated_at@,
                                old_r[j as int].updated_at@,
                                x.updated_at@,
                            );
                        }
                    } else {
                        assert(r@[a] == old_r[a - 1] && r@[b] == old_r[b - 1]);
                    }
                }
            }
        }
    }
    proof {
        assert(src@.to_multiset() =~= Multiset::<Project>::empty());
        assert(r@.to_multiset().add(Multiset::<Project>::empty()) =~= r@.to_multiset());
        assert(projects_dv(src@).to_multiset() =~= Multiset::<ProjectV>::empty());
        assert(projects_dv(r@).to_multiset().add(Multiset::<ProjectV>::empty()) =~= projects_dv(r@).to_multiset());
    }
    r
}

} // verus!

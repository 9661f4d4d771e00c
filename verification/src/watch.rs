//! Control plane of the background status watcher: which repositories are
//! watched, and which have a check in flight. The loop itself runs outside;
//! this state guarantees its one rule, at most one in-flight check per
//! repository at a time.

use vstd::prelude::*;
use crate::errors::AppError;

verus! {

pub open spec fn ids_contains(s: Seq<Seq<char>>, id: Seq<char>) -> bool {
    exists|i: int| 0 <= i < s.len() && s[i] == id
}

pub open spec fn ids_distinct(s: Seq<Seq<char>>) -> bool {
    forall|i: int, j: int| 0 <= i < j < s.len() ==> s[i] != s[j]
}

/// The id list with every occurrence of one id removed, order kept.
pub open spec fn ids_without(s: Seq<Seq<char>>, id: Seq<char>) -> Seq<Seq<char>>
    decreases s.len(),
{
    if s.len() == 0 {
        Seq::empty()
    } else {
        let rest = ids_without(s.drop_last(), id);
        if s.last() == id {
            rest
        } else {
            rest.push(s.last())
        }
    }
}

/// The removed id is gone, and the survivors keep their distinctness.
pub proof fn lemma_ids_without_props(s: Seq<Seq<char>>, id: Seq<char>)
    requires
        ids_distinct(s),
    ensures
        !ids_contains(ids_without(s, id), id),
        ids_distinct(ids_without(s, id)),
        forall|x: Seq<char>|
            #[trigger] ids_contains(ids_without(s, id), x) ==> ids_contains(s, x),
    decreases s.len(),
{
    if s.len() > 0 {
        lemma_ids_without_props(s.drop_last(), id);
        let rest = ids_without(s.drop_last(), id);
        let r = ids_without(s, id);
        assert forall|x: Seq<char>| #[trigger] ids_contains(r, x) implies ids_contains(s, x) by {
            let i = choose|i: int| 0 <= i < r.len() && r[i] == x;
            if i < rest.len() {
                assert(ids_contains(rest, x));
                let j = choose|j: int| 0 <= j < s.drop_last().len() && s.drop_last()[j] == x;
                assert(s[j] == x);
            } else {
                assert(r[i] == s[s.len() - 1]);
            }
        }
        if s.last() != id {
            assert forall|i: int, j: int| 0 <= i < j < r.len() implies r[i] != r[j] by {
                if j == rest.len() {
                    assert(ids_contains(rest, r[i]));
                    let w = choose|w: int| 0 <= w < s.drop_last().len() && s.drop_last()[w] == r[i];
                    assert(s[w] != s[s.len() - 1]);
                }
            }
        }
        if ids_contains(r, id) {
            let i = choose|i: int| 0 <= i < r.len() && r[i] == id;
            if i < rest.len() {
                assert(ids_contains(rest, id));
            }
            assert(false);
        }
    }
}

/// Whether the list holds the id.
fn ids_find(v: &Vec<String>, id: &String) -> (r: bool)
    ensures
        r == ids_contains(v.deep_view(), id@),
{
    let mut i: usize = 0;
    while i < v.len()
        invariant
            i <= v@.len(),
            forall|t: int| 0 <= t < i ==> v.deep_view()[t] != id@,
        decreases v@.len() - i,
    {
        if v[i] == *id {
            assert(v.deep_view()[i as int] == id@);
            return true;
        }
        i = i + 1;
    }
    false
}

/// The watcher's control state.
pub struct WatchControl {
    /// Whether every repository is being watched.
    pub watch_all: bool,
    /// The individually watched repository ids.
    pub watched: Vec<String>,
    /// The repositories with a check in flight right now.
    pub in_flight: Vec<String>,
}

impl WatchControl {
    /// Both id lists hold each id at most once.
    pub open spec fn wf(&self) -> bool {
        &&& ids_distinct(self.watched.deep_view())
        &&& ids_distinct(self.in_flight.deep_view())
    }

    /// The idle control state: nothing watched, nothing in flight.
    pub fn new() -> (r: WatchControl)
        ensures
            r.wf(),
            !r.watch_all,
            r.watched.deep_view() =~= Seq::<Seq<char>>::empty(),
            r.in_flight.deep_view() =~= Seq::<Seq<char>>::empty(),
    {
        WatchControl { watch_all: false, watched: Vec::new(), in_flight: Vec::new() }
    }

    /// Whether checks for this repository should be scheduled.
    pub fn is_watched(&self, repo_id: &String) -> (r: bool)
        ensures
            r == (self.watch_all || ids_contains(self.watched.deep_view(), repo_id@)),
    {
        self.watch_all || ids_find(&self.watched, repo_id)
    }

    /// Claims the right to run one check: refused while one is already in
    /// flight for the repository, so at most one runs per repository at a
    /// time.
    pub fn begin_check(&mut self, repo_id: &String) -> (r: bool)
        requires
            old(self).wf(),
        ensures
            final(self).wf(),
            r == !ids_contains(old(self).in_flight.deep_view(), repo_id@),
            r ==> final(self).in_flight.deep_view() == old(self).in_flight.deep_view().push(
                repo_id@,
            ),
            !r ==> *final(self) == *old(self),
            ids_contains(final(self).in_flight.deep_view(), repo_id@),
            final(self).watched == old(self).watched,
            final(self).watch_all == old(self).watch_all,
    {
        if ids_find(&self.in_flight, repo_id) {
            return false;
        }
        let ghost old_dv = self.in_flight.deep_view();
        self.in_flight.push(repo_id.clone());
        proof {
            assert(self.in_flight.deep_view() =~= old_dv.push(repo_id@));
            assert(self.in_flight.deep_view()[old_dv.len() as int] == repo_id@);
            assert forall|i: int, j: int|
                0 <= i < j < self.in_flight.deep_view().len() implies self.in_flight.deep_view()[i]
                != self.in_flight.deep_view()[j] by {
                if j == old_dv.len() {
                    assert(self.in_flight.deep_view()[i] == old_dv[i]);
                }
            }
        }
        true
    }

    /// Releases the claim once the check finished.
    pub fn finish_check(&mut self, repo_id: &String)
        requires
            old(self).wf(),
        ensures
            final(self).wf(),
            final(self).in_flight.deep_view() == ids_without(
                old(self).in_flight.deep_view(),
                repo_id@,
            ),
            !ids_contains(final(self).in_flight.deep_view(), repo_id@),
            final(self).watched == old(self).watched,
            final(self).watch_all == old(self).watch_all,
    {
        let ghost s = self.in_flight.deep_view();
        let mut kept: Vec<String> = Vec::new();
        let mut i: usize = 0;
        while i < self.in_flight.len()
            invariant
                i <= self.in_flight@.len(),
                s == self.in_flight.deep_view(),
                kept.deep_view() == ids_without(s.subrange(0, i as int), repo_id@),
            decreases self.in_flight@.len() - i,
        {
            proof {
                let s2 = s.subrange(0, i + 1 as int);
                assert(s2.drop_last() =~= s.subrange(0, i as int));
                assert(s2.last() == s[i as int]);
            }
            if !(self.in_flight[i] == *repo_id) {
                kept.push(self.in_flight[i].clone());
            }
            i = i + 1;
        }
        proof {
            assert(s.subrange(0, s.len() as int) =~= s);
            lemma_ids_without_props(s, repo_id@);
        }
        self.in_flight = kept;
    }
}

/// Starts watching one repository, or all of them when none is named;
/// already-watched ids are not duplicated.
pub fn git_status_watch_start(watch: &mut WatchControl, repo_id: Option<String>) -> (r: Result<
    (),
    AppError,
>)
    requires
        old(watch).wf(),
    ensures
        final(watch).wf(),
        r == Ok::<(), AppError>(()),
        final(watch).in_flight == old(watch).in_flight,
        match repo_id {
            None => final(watch).watch_all && final(watch).watched == old(watch).watched,
            Some(id) => {
                &&& final(watch).watch_all == old(watch).watch_all
                &&& ids_contains(final(watch).watched.deep_view(), id@)
                &&& (ids_contains(old(watch).watched.deep_view(), id@) ==> final(watch).watched
                    == old(watch).watched)
                &&& (!ids_contains(old(watch).watched.deep_view(), id@)
                    ==> final(watch).watched.deep_view() == old(watch).watched.deep_view().push(
                    id@,
                ))
            },
        },
{
    match repo_id {
        None => {
            watch.watch_all = true;
            Ok(())
        },
        Some(id) => {
            if ids_find(&watch.watched, &id) {
                return Ok(());
            }
            let ghost old_dv = watch.watched.deep_view();
            watch.watched.push(id);
            proof {
                assert(watch.watched.deep_view() =~= old_dv.push(
                    watch.watched.deep_view()[old_dv.len() as int],
                ));
                assert forall|i: int, j: int|
                    0 <= i < j < watch.watched.deep_view().len() implies watch.watched.deep_view()[i]
                    != watch.watched.deep_view()[j] by {
                    if j == old_dv.len() {
                        assert(watch.watched.deep_view()[i] == old_dv[i]);
                    }
                }
            }
            Ok(())
        },
    }
}

/// Stops watching one repository, or everything when none is named; a check
/// already in flight is left to finish.
pub fn git_status_watch_stop(watch: &mut WatchControl, repo_id: Option<String>) -> (r: Result<
    (),
    AppError,
>)
    requires
        old(watch).wf(),
    ensures
        final(watch).wf(),
        r == Ok::<(), AppError>(()),
        final(watch).in_flight == old(watch).in_flight,
        match repo_id {
            None => !final(watch).watch_all && final(watch).watched.deep_view() =~= Seq::<
                Seq<char>,
            >::empty(),
            Some(id) => {
                &&& final(watch).watch_all == old(watch).watch_all
                &&& final(watch).watched.deep_view() == ids_without(
                    old(watch).watched.deep_view(),
                    id@,
                )
                &&& !ids_contains(final(watch).watched.deep_view(), id@)
            },
        },
{
    match repo_id {
        None => {
            watch.watch_all = false;
            watch.watched = Vec::new();
            Ok(())
        },
        Some(id) => {
            let ghost s = watch.watched.deep_view();
            let mut kept: Vec<String> = Vec::new();
            let mut i: usize = 0;
            while i < watch.watched.len()
                invariant
                    i <= watch.watched@.len(),
                    s == watch.watched.deep_view(),
                    kept.deep_view() == ids_without(s.subrange(0, i as int), id@),
                decreases watch.watched@.len() - i,
            {
                proof {
                    let s2 = s.subrange(0, i + 1 as int);
                    assert(s2.drop_last() =~= s.subrange(0, i as int));
                    assert(s2.last() == s[i as int]);
                }
                if !(watch.watched[i] == id) {
                    kept.push(watch.watched[i].clone());
                }
                i = i + 1;
            }
            proof {
                assert(s.subrange(0, s.len() as int) =~= s);
                lemma_ids_without_props(s, id@);
            }
            watch.watched = kept;
            Ok(())
        },
    }
}

} // verus!

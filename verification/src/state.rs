//! The record of known projects, most recently used first.

use vstd::prelude::*;

use crate::external::str_equal;

verus! {

/// Represents a project's location: base_dir/language/proj
pub struct ProjStateObj {
    /// Project name
    pub proj: String,
    /// Language directory
    pub language: String,
    /// Path to parent dir of `language`
    pub base_dir: String,
}

/// Stores all known projects, the most recently used first.
pub struct State {
    /// Where the record is kept
    pub path: String,
    /// The projects, most recently used first
    pub projects: Vec<ProjStateObj>,
}

/// The index of the first project that `pred` accepts.
pub open spec fn first_index(
    ps: Seq<ProjStateObj>,
    pred: spec_fn(ProjStateObj) -> bool,
) -> Option<int>
    decreases ps.len(),
{
    if ps.len() == 0 {
        None
    } else if pred(ps[0]) {
        Some(0)
    } else {
        match first_index(ps.drop_first(), pred) {
            Some(i) => Some(i + 1),
            None => None,
        }
    }
}

/// `first_index` finds the first project that `pred` accepts, and only that.
pub proof fn lemma_first_index(ps: Seq<ProjStateObj>, pred: spec_fn(ProjStateObj) -> bool)
    ensures
        match first_index(ps, pred) {
            Some(i) => 0 <= i < ps.len() && pred(ps[i]) && forall|j: int|
                0 <= j < i ==> !pred(#[trigger] ps[j]),
            None => forall|j: int| 0 <= j < ps.len() ==> !pred(#[trigger] ps[j]),
        },
    decreases ps.len(),
{
    if ps.len() > 0 && !pred(ps[0]) {
        lemma_first_index(ps.drop_first(), pred);
        assert forall|j: int| 1 <= j < ps.len() implies ps[j] == ps.drop_first()[j - 1] by {}
    }
}

/// Whether a project is the one called `proj` under `language`.
pub open spec fn is_project(proj: Seq<char>, language: Seq<char>) -> spec_fn(ProjStateObj) -> bool {
    |p: ProjStateObj| p.proj@ == proj && p.language@ == language
}

/// Whether a project is under `language`.
pub open spec fn has_language(language: Seq<char>) -> spec_fn(ProjStateObj) -> bool {
    |p: ProjStateObj| p.language@ == language
}

/// Whether a project is called `name`.
pub open spec fn has_name(name: Seq<char>) -> spec_fn(ProjStateObj) -> bool {
    |p: ProjStateObj| p.proj@ == name
}

/// The projects after `proj` under `language` has been used: an existing
/// record of it moves to the front, unchanged; otherwise a new record goes
/// to the front.
pub open spec fn inserted(
    ps: Seq<ProjStateObj>,
    proj: String,
    language: String,
    base_dir: String,
) -> Seq<ProjStateObj> {
    match first_index(ps, is_project(proj@, language@)) {
        Some(i) => seq![ps[i]] + ps.take(i) + ps.skip(i + 1),
        None => seq![ProjStateObj { proj, language, base_dir }] + ps,
    }
}

/// The project that `latest`-style lookups find, if any.
pub open spec fn found_project(ps: Seq<ProjStateObj>, pred: spec_fn(ProjStateObj) -> bool) -> Option<
    ProjStateObj,
> {
    match first_index(ps, pred) {
        Some(i) => Some(ps[i]),
        None => None,
    }
}

/// Whether no two records are of the same project under the same language.
pub open spec fn unique_projects(ps: Seq<ProjStateObj>) -> bool {
    forall|i: int, j: int|
        0 <= i < j < ps.len() ==> !(ps[i].proj@ == ps[j].proj@ && ps[i].language@
            == ps[j].language@)
}

impl State {
    /// The index of the record of `proj` under `language`, if there is one.
    fn position_of(&self, proj: &String, language: &String) -> (r: Option<usize>)
        ensures
            match r {
                Some(i) => first_index(self.projects@, is_project(proj@, language@)) == Some(
                    i as int,
                ) && i < self.projects@.len(),
                None => first_index(self.projects@, is_project(proj@, language@)) is None,
            },
    {
        let mut i: usize = 0;
        while i < self.projects.len()
            invariant
                i <= self.projects@.len(),
                forall|j: int|
                    0 <= j < i ==> !is_project(proj@, language@)(#[trigger] self.projects@[j]),
            decreases self.projects@.len() - i,
        {
            proof {
                lemma_first_index(self.projects@, is_project(proj@, language@));
            }
            if self.projects[i].proj == *proj && self.projects[i].language == *language {
                return Some(i);
            }
            i = i + 1;
        }
        proof {
            lemma_first_index(self.projects@, is_project(proj@, language@));
        }
        None
    }

    /// Insert a new record or move an existing record to the start of the project list
    pub fn insert(&mut self, proj: String, language: String, base_dir: String)
        ensures
            final(self).path == old(self).path,
            final(self).projects@ == inserted(old(self).projects@, proj, language, base_dir),
    {
        let at = self.position_of(&proj, &language);
        let ghost ps = self.projects@;
        match at {
            Some(index) => {
                if index != 0 {
                    let p = self.projects.remove(index);
                    self.projects.insert(0, p);
                    assert(self.projects@ =~= seq![ps[index as int]] + ps.take(index as int)
                        + ps.skip(index + 1));
                } else {
                    assert(ps =~= seq![ps[0]] + ps.take(0) + ps.skip(1));
                }
            },
            None => {
                self.projects.insert(0, ProjStateObj { proj, language, base_dir });
            },
        }
    }

    /// Return the latest project accessed or None if there are none
    pub fn latest(&self) -> (r: Option<&ProjStateObj>)
        ensures
            match r {
                Some(p) => self.projects@.len() > 0 && *p == self.projects@[0],
                None => self.projects@.len() == 0,
            },
    {
        if self.projects.len() > 0 {
            Some(&self.projects[0])
        } else {
            None
        }
    }

    /// Return the last project of language `language` accessed or None if
    /// there is none
    pub fn latest_by_lang(&self, language: &str) -> (r: Option<&ProjStateObj>)
        ensures
            match r {
                Some(p) => found_project(self.projects@, has_language(language@)) == Some(*p),
                None => found_project(self.projects@, has_language(language@)) is None,
            },
    {
        let mut i: usize = 0;
        while i < self.projects.len()
            invariant
                i <= self.projects@.len(),
                forall|j: int|
                    0 <= j < i ==> !has_language(language@)(#[trigger] self.projects@[j]),
            decreases self.projects@.len() - i,
        {
            proof {
                lemma_first_index(self.projects@, has_language(language@));
            }
            if str_equal(language, self.projects[i].language.as_str()) {
                return Some(&self.projects[i]);
            }
            i = i + 1;
        }
        proof {
            lemma_first_index(self.projects@, has_language(language@));
        }
        None
    }

    /// Return the last project accessed called `name` or None if there is
    /// none
    pub fn latest_by_name(&self, name: &str) -> (r: Option<&ProjStateObj>)
        ensures
            match r {
                Some(p) => found_project(self.projects@, has_name(name@)) == Some(*p),
                None => found_project(self.projects@, has_name(name@)) is None,
            },
    {
        let mut i: usize = 0;
        while i < self.projects.len()
            invariant
                i <= self.projects@.len(),
                forall|j: int| 0 <= j < i ==> !has_name(name@)(#[trigger] self.projects@[j]),
            decreases self.projects@.len() - i,
        {
            proof {
                lemma_first_index(self.projects@, has_name(name@));
            }
            if str_equal(name, self.projects[i].proj.as_str()) {
                return Some(&self.projects[i]);
            }
            i = i + 1;
        }
        proof {
            lemma_first_index(self.projects@, has_name(name@));
        }
        None
    }
}

/// After a project is used, the most recent record is that project: this
/// is what `latest` then returns.
pub proof fn law_insert_then_latest(
    ps: Seq<ProjStateObj>,
    proj: String,
    language: String,
    base_dir: String,
)
    ensures
        inserted(ps, proj, language, base_dir).len() > 0,
        inserted(ps, proj, language, base_dir)[0].proj@ == proj@,
        inserted(ps, proj, language, base_dir)[0].language@ == language@,
{
    lemma_first_index(ps, is_project(proj@, language@));
}

/// After a project is used, looking up the latest project of its language,
/// or the latest project of its name, finds that project's record.
pub proof fn law_insert_then_found(
    ps: Seq<ProjStateObj>,
    proj: String,
    language: String,
    base_dir: String,
)
    ensures
        found_project(inserted(ps, proj, language, base_dir), has_language(language@)) == Some(
            inserted(ps, proj, language, base_dir)[0],
        ),
        found_project(inserted(ps, proj, language, base_dir), has_name(proj@)) == Some(
            inserted(ps, proj, language, base_dir)[0],
        ),
{
    lemma_first_index(ps, is_project(proj@, language@));
}

/// Using a project keeps every other record, in the same order, behind the
/// used one: an existing record moves to the front, a new one is added.
pub proof fn law_insert_keeps_others(
    ps: Seq<ProjStateObj>,
    proj: String,
    language: String,
    base_dir: String,
)
    ensures
        match first_index(ps, is_project(proj@, language@)) {
            Some(i) => {
                &&& inserted(ps, proj, language, base_dir).len() == ps.len()
                &&& inserted(ps, proj, language, base_dir)[0] == ps[i]
                &&& inserted(ps, proj, language, base_dir).drop_first() == ps.remove(i)
            },
            None => {
                &&& inserted(ps, proj, language, base_dir).len() == ps.len() + 1
                &&& inserted(ps, proj, language, base_dir)[0] == (ProjStateObj {
                    proj,
                    language,
                    base_dir,
                })
                &&& inserted(ps, proj, language, base_dir).drop_first() == ps
            },
        },
{
    lemma_first_index(ps, is_project(proj@, language@));
    let r = inserted(ps, proj, language, base_dir);
    match first_index(ps, is_project(proj@, language@)) {
        Some(i) => {
            assert(r.drop_first() =~= ps.remove(i));
        },
        None => {
            assert(r.drop_first() =~= ps);
        },
    }
}

/// Using a project keeps the records one per project and language.
pub proof fn law_insert_keeps_unique(
    ps: Seq<ProjStateObj>,
    proj: String,
    language: String,
    base_dir: String,
)
    requires
        unique_projects(ps),
    ensures
        unique_projects(inserted(ps, proj, language, base_dir)),
{
    lemma_first_index(ps, is_project(proj@, language@));
    let r = inserted(ps, proj, language, base_dir);
    match first_index(ps, is_project(proj@, language@)) {
        Some(k) => {
            assert forall|i: int, j: int| 0 <= i < j < r.len() implies !(r[i].proj@ == r[j].proj@
                && r[i].language@ == r[j].language@) by {
                let oi = if i == 0 {
                    k
                } else if i - 1 < k {
                    i - 1
                } else {
                    i
                };
                let oj = if j - 1 < k {
                    j - 1
                } else {
                    j
                };
                assert(r[i] == ps[oi]);
                assert(r[j] == ps[oj]);
                assert(oi != oj);
                if oi < oj {
                    assert(!(ps[oi].proj@ == ps[oj].proj@ && ps[oi].language@ == ps[oj].language@));
                } else {
                    assert(!(ps[oj].proj@ == ps[oi].proj@ && ps[oj].language@ == ps[oi].language@));
                }
            }
        },
        None => {
            assert forall|i: int, j: int| 0 <= i < j < r.len() implies !(r[i].proj@ == r[j].proj@
                && r[i].language@ == r[j].language@) by {
                if i == 0 {
                    assert(r[j] == ps[j - 1]);
                    assert(!is_project(proj@, language@)(ps[j - 1]));
                } else {
                    assert(r[i] == ps[i - 1]);
                    assert(r[j] == ps[j - 1]);
                }
            }
        },
    }
}

/// Using the same project twice in a row leaves the records as using it
/// once does.
pub proof fn law_insert_idempotent(
    ps: Seq<ProjStateObj>,
    proj: String,
    language: String,
    base_dir: String,
    other_base_dir: String,
)
    ensures
        inserted(inserted(ps, proj, language, base_dir), proj, language, other_base_dir)
            == inserted(ps, proj, language, base_dir),
{
    let r = inserted(ps, proj, language, base_dir);
    law_insert_then_latest(ps, proj, language, base_dir);
    assert(first_index(r, is_project(proj@, language@)) == Some(0int));
    assert(seq![r[0]] + r.take(0) + r.skip(1) =~= r);
}

} // verus!

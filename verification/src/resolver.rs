//! The data-path resolver: which directories to probe for the sentinel file,
//! in what order, and what the probe reports make of them.
//!
//! The resolver itself touches no filesystem. It hands out one candidate at a
//! time through [`Resolver::pending`]; the caller probes that candidate for
//! the sentinel file `data.lock` and reports the result through
//! [`Resolver::note`]. The resolver yields a result only for a candidate whose
//! probe was reported successful, and only after every earlier candidate was
//! reported to lack the sentinel.

use vstd::prelude::*;
use crate::paths::DirPath;

verus! {

/// The name of the directory searched for under the working directory and
/// its ancestors.
pub open spec fn data_dir_name() -> Seq<char> {
    "data"@
}

/// One directory that may hold the game data.
pub enum Candidate {
    /// The user-supplied hint, exactly as given on the command line.
    Hint(String),
    /// A `data` directory under the working directory or one of its
    /// ancestors.
    SearchDir(DirPath),
}

/// The mathematical shape of a candidate.
pub enum CandidateModel {
    Hint(Seq<char>),
    SearchDir(Seq<Seq<char>>),
}

impl View for Candidate {
    type V = CandidateModel;

    open spec fn view(&self) -> CandidateModel {
        match self {
            Candidate::Hint(s) => CandidateModel::Hint(s@),
            Candidate::SearchDir(p) => CandidateModel::SearchDir(p@),
        }
    }
}

/// The model of an optional user hint.
pub open spec fn hint_model(h: Option<String>) -> Option<Seq<char>> {
    match h {
        Some(s) => Some(s@),
        None => None,
    }
}

/// The exact search order of the resolver: the user hint first, when one was
/// given; then `data` under the working directory; then `data` under its
/// parent and grandparent, each only where that ancestor exists.
pub open spec fn candidate_models(hint: Option<Seq<char>>, cwd: Seq<Seq<char>>) -> Seq<
    CandidateModel,
> {
    let hint_part = match hint {
        Some(h) => seq![CandidateModel::Hint(h)],
        None => Seq::<CandidateModel>::empty(),
    };
    let cwd_part = seq![CandidateModel::SearchDir(cwd.push(data_dir_name()))];
    let parent_part = if cwd.len() >= 1 {
        seq![CandidateModel::SearchDir(cwd.take(cwd.len() - 1).push(data_dir_name()))]
    } else {
        Seq::<CandidateModel>::empty()
    };
    let grandparent_part = if cwd.len() >= 2 {
        seq![CandidateModel::SearchDir(cwd.take(cwd.len() - 2).push(data_dir_name()))]
    } else {
        Seq::<CandidateModel>::empty()
    };
    hint_part + cwd_part + parent_part + grandparent_part
}

/// Where the resolution stands.
#[derive(Clone, Copy, PartialEq, Eq, Structural, Debug)]
pub enum Progress {
    /// Candidates remain to be probed.
    Probing,
    /// The candidate at this index was reported to hold the sentinel.
    Found(usize),
    /// Every candidate was probed and none held the sentinel.
    Exhausted,
}

/// The resolver's state: the fixed candidate list, and how far the probe
/// reports have come.
pub struct Resolver {
    candidates: Vec<Candidate>,
    next: usize,
    progress: Progress,
    reports: Ghost<Seq<bool>>,
}

impl Resolver {
    /// The models of the candidates, in probing order.
    pub closed spec fn models(&self) -> Seq<CandidateModel> {
        Seq::new(self.candidates@.len(), |i: int| self.candidates@[i]@)
    }

    /// Every probe result reported so far, in probing order.
    pub closed spec fn reports(&self) -> Seq<bool> {
        self.reports@
    }

    pub closed spec fn progress_of(&self) -> Progress {
        self.progress
    }

    /// The resolver's invariant: reports line up with candidates; while
    /// probing, every report so far was negative; a found candidate is the
    /// one whose report was positive, behind only negative reports; an
    /// exhausted resolver heard a negative report on every candidate.
    pub closed spec fn wf(&self) -> bool {
        let n = self.candidates@.len();
        &&& self.reports@.len() <= n
        &&& match self.progress {
            Progress::Probing => {
                &&& self.next as nat == self.reports@.len()
                &&& (self.next as nat) < n
                &&& forall|j: int| 0 <= j < self.reports@.len() ==> !self.reports@[j]
            },
            Progress::Found(i) => {
                &&& (i as nat) + 1 == self.reports@.len()
                &&& self.reports@[i as int]
                &&& forall|j: int| 0 <= j < i ==> !self.reports@[j]
            },
            Progress::Exhausted => {
                &&& self.reports@.len() == n
                &&& forall|j: int| 0 <= j < n ==> !self.reports@[j]
            },
        }
    }

    /// Sets up the search for the data directory: the candidates are exactly
    /// the user hint (when one was given), then `data` under the working
    /// directory, its parent and its grandparent, in that order.
    pub fn new(hint: Option<String>, cwd: DirPath) -> (r: Resolver)
        ensures
            r.wf(),
            r.progress_of() is Probing,
            r.reports() == Seq::<bool>::empty(),
            r.models() == candidate_models(hint_model(hint), cwd@),
    {
        let ghost hint_m = hint_model(hint);
        let ghost cwd_m = cwd@;
        let mut candidates: Vec<Candidate> = Vec::new();
        match hint {
            Some(h) => candidates.push(Candidate::Hint(h)),
            None => {},
        }
        let depth = cwd.depth();
        candidates.push(Candidate::SearchDir(cwd.prefix_child(depth, "data")));
        if depth >= 1 {
            candidates.push(Candidate::SearchDir(cwd.prefix_child(depth - 1, "data")));
        }
        if depth >= 2 {
            candidates.push(Candidate::SearchDir(cwd.prefix_child(depth - 2, "data")));
        }
        let r = Resolver {
            candidates,
            next: 0,
            progress: Progress::Probing,
            reports: Ghost(Seq::empty()),
        };
        proof {
            assert(cwd_m.take(cwd_m.len() as int) =~= cwd_m);
            assert(r.models() =~= candidate_models(hint_m, cwd_m));
        }
        r
    }

    /// The candidate whose probe the resolver is waiting on, if any: the one
    /// right after the candidates already reported on.
    pub fn pending(&self) -> (r: Option<&Candidate>)
        requires
            self.wf(),
        ensures
            match r {
                Some(c) => self.progress_of() is Probing && c@ == self.models()[
                    self.reports().len() as int
                ],
                None => !(self.progress_of() is Probing),
            },
    {
        match self.progress {
            Progress::Probing => Some(&self.candidates[self.next]),
            _ => None,
        }
    }

    /// Records the probe result for the pending candidate: a positive report
    /// settles the search on that candidate; a negative one moves on to the
    /// next candidate, or exhausts the search when none remains.
    pub fn note(&mut self, found: bool)
        requires
            old(self).wf(),
            old(self).progress_of() is Probing,
        ensures
            final(self).wf(),
            final(self).models() == old(self).models(),
            final(self).reports() == old(self).reports().push(found),
            found ==> final(self).progress_of() == Progress::Found(old(self).reports().len() as usize),
            !found && old(self).reports().len() + 1 < old(self).models().len()
                ==> final(self).progress_of() is Probing,
            !found && old(self).reports().len() + 1 == old(self).models().len()
                ==> final(self).progress_of() is Exhausted,
    {
        let n = self.candidates.len();
        self.reports = Ghost(self.reports@.push(found));
        if found {
            self.progress = Progress::Found(self.next);
        } else {
            self.next = self.next + 1;
            if self.next == n {
                self.progress = Progress::Exhausted;
            }
        }
    }

    /// Where the resolution stands.
    pub fn progress(&self) -> (r: Progress)
        ensures
            r == self.progress_of(),
    {
        self.progress
    }

    /// The candidate the search settled on, if it has settled on one.
    pub fn found_candidate(&self) -> (r: Option<&Candidate>)
        requires
            self.wf(),
        ensures
            match r {
                Some(c) => {
                    &&& self.progress_of() matches Progress::Found(i)
                    &&& c@ == self.models()[self.progress_of()->0 as int]
                },
                None => !(self.progress_of() matches Progress::Found(_)),
            },
    {
        match self.progress {
            Progress::Found(i) => Some(&self.candidates[i]),
            _ => None,
        }
    }

    /// Law: the resolver settles on a candidate only after a positive probe
    /// report on that very candidate, and only when every candidate earlier
    /// in the search order drew a negative report. Together with the
    /// candidate order pinned by [`Resolver::new`], this is the whole search
    /// contract. The resolver performs no probe itself and never writes: it
    /// only records the reports it is handed.
    pub proof fn lemma_found_is_first_validated(&self)
        requires
            self.wf(),
            self.progress_of() matches Progress::Found(_),
        ensures
            ({
                let i = self.progress_of()->0 as int;
                &&& 0 <= i < self.models().len()
                &&& i < self.reports().len()
                &&& self.reports()[i]
                &&& forall|j: int| 0 <= j < i ==> !self.reports()[j]
            }),
    {
    }

    /// Law: an exhausted search reported on every candidate and every report
    /// was negative; no candidate was skipped and none succeeded.
    pub proof fn lemma_exhausted_probed_all(&self)
        requires
            self.wf(),
            self.progress_of() is Exhausted,
        ensures
            self.reports().len() == self.models().len(),
            forall|j: int| 0 <= j < self.reports().len() ==> !self.reports()[j],
    {
    }
}

} // verus!

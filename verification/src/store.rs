//! The storage port: an in-memory store of clips keyed by shortcode.
//!
//! The service depends only on the three operations here — `insert`, `get`
//! and `increment_hits` — and on their contracts: uniqueness of shortcodes,
//! a not-found signal, and an exact hit increment.

use vstd::prelude::*;

use crate::clip::{valid_clip, Clip, ClipModel};
use crate::field::ShortCode;

verus! {

/// A failure signalled by the storage port.
#[derive(Debug)]
pub enum StoreError {
    /// An insert would have duplicated an existing shortcode.
    UniquenessViolation,
    /// No clip has the given shortcode.
    NotFound,
    /// Any other storage failure.
    Other,
}

/// Whether some clip in `s` carries shortcode `code`.
pub open spec fn has_code(s: Seq<ClipModel>, code: Seq<char>) -> bool {
    exists|i: int| 0 <= i < s.len() && s[i].shortcode == code
}

/// Some index of a clip in `s` carrying shortcode `code`.
pub open spec fn code_index(s: Seq<ClipModel>, code: Seq<char>) -> int {
    choose|i: int| 0 <= i < s.len() && s[i].shortcode == code
}

/// The clip in `s` carrying shortcode `code`, if any.
pub open spec fn lookup(s: Seq<ClipModel>, code: Seq<char>) -> Option<ClipModel> {
    if has_code(s, code) {
        Some(s[code_index(s, code)])
    } else {
        None
    }
}

/// Whether no two clips in `s` share a shortcode.
pub open spec fn distinct_codes(s: Seq<ClipModel>) -> bool {
    forall|i: int, j: int| #![trigger s[i].shortcode, s[j].shortcode]
        0 <= i < j < s.len() ==> s[i].shortcode != s[j].shortcode
}

/// `c` with one more hit recorded, pinned at the largest representable count.
pub open spec fn with_hit(c: ClipModel) -> ClipModel {
    ClipModel { hits: crate::field::bumped(c.hits), ..c }
}

/// `s` with one more hit recorded on every clip carrying shortcode `code`
/// (at most one, wherever shortcodes are distinct).
pub open spec fn bump(s: Seq<ClipModel>, code: Seq<char>) -> Seq<ClipModel> {
    Seq::new(
        s.len(),
        |i: int|
            if s[i].shortcode == code {
                with_hit(s[i])
            } else {
                s[i]
            },
    )
}

/// Where shortcodes are distinct, a clip found at some index is the looked-up
/// clip for its own shortcode.
pub proof fn lemma_lookup_at(s: Seq<ClipModel>, i: int)
    requires
        distinct_codes(s),
        0 <= i < s.len(),
    ensures
        lookup(s, s[i].shortcode) == Some(s[i]),
{
    assert(has_code(s, s[i].shortcode));
    let j = code_index(s, s[i].shortcode);
    assert(s[j].shortcode == s[i].shortcode);
    if i != j {
        assert(false);
    }
}

/// Recording a hit touches exactly the looked-up clip: its count grows by
/// one, shortcodes and distinctness are preserved, and every other clip is
/// unchanged.
pub proof fn lemma_bump_lookup(s: Seq<ClipModel>, code: Seq<char>, c: ClipModel)
    requires
        distinct_codes(s),
        lookup(s, code) == Some(c),
    ensures
        distinct_codes(bump(s, code)),
        lookup(bump(s, code), code) == Some(with_hit(c)),
        forall|i: int| 0 <= i < s.len() && s[i].shortcode != code ==> bump(s, code)[i] == s[i],
{
    let t = bump(s, code);
    assert(forall|i: int| 0 <= i < s.len() ==> #[trigger] t[i].shortcode == s[i].shortcode);
    let i = code_index(s, code);
    assert(s[i].shortcode == code);
    assert(t[i] == with_hit(c));
    lemma_lookup_at(t, i);
}

/// The in-memory store; its view is the sequence of stored clip models.
pub struct Store {
    clips: Vec<Clip>,
}

impl View for Store {
    type V = Seq<ClipModel>;

    closed spec fn view(&self) -> Seq<ClipModel> {
        self.clips@.map_values(|c: Clip| c@)
    }
}

impl Store {
    /// What the store maintains at all times: shortcodes are unique and every
    /// stored clip is valid.
    pub open spec fn wf(&self) -> bool {
        &&& distinct_codes(self@)
        &&& forall|i: int| 0 <= i < self@.len() ==> valid_clip(#[trigger] self@[i])
    }

    /// An empty store.
    pub fn new() -> (r: Store)
        ensures
            r@ == Seq::<ClipModel>::empty(),
            r.wf(),
    {
        let s = Store { clips: Vec::new() };
        proof {
            assert(s@ =~= Seq::<ClipModel>::empty());
        }
        s
    }

    /// The index of the clip carrying `code`, if any.
    fn find_index(&self, code: &ShortCode) -> (r: Option<usize>)
        ensures
            match r {
                Some(i) => i < self@.len() && self@[i as int].shortcode == code@,
                None => !has_code(self@, code@),
            },
    {
        let n = self.clips.len();
        let mut i: usize = 0;
        while i < n
            invariant
                n == self.clips.len(),
                n == self@.len(),
                0 <= i <= n,
                forall|j: int| 0 <= j < i ==> self@[j].shortcode != code@,
            decreases n - i,
        {
            if self.clips[i].shortcode.matches(code) {
                return Some(i);
            }
            i += 1;
        }
        None
    }

    /// Whether some stored clip carries `code`.
    pub fn contains(&self, code: &ShortCode) -> (r: bool)
        ensures
            r == has_code(self@, code@),
    {
        match self.find_index(code) {
            Some(i) => {
                proof {
                    assert(has_code(self@, code@)) by {
                        assert(self@[i as int].shortcode == code@);
                    }
                }
                true
            },
            None => false,
        }
    }

    /// Persists a new clip, refusing a shortcode already present; the store
    /// is unchanged on failure, and extended by exactly the given clip on
    /// success.
    pub fn insert(&mut self, clip: Clip) -> (r: Result<Clip, StoreError>)
        requires
            old(self).wf(),
            valid_clip(clip@),
        ensures
            final(self).wf(),
            has_code(old(self)@, clip@.shortcode) ==> (r matches Err(e)
                && e is UniquenessViolation && final(self)@ == old(self)@),
            !has_code(old(self)@, clip@.shortcode) ==> (r matches Ok(c) && c@ == clip@
                && final(self)@ == old(self)@.push(clip@)),
    {
        match self.find_index(&clip.shortcode) {
            Some(_) => Err(StoreError::UniquenessViolation),
            None => {
                let stored = clip.clone();
                self.clips.push(clip);
                proof {
                    assert(self@ =~= old(self)@.push(stored@));
                }
                Ok(stored)
            },
        }
    }

    /// Hands back a copy of the clip carrying `code`, or a not-found signal.
    pub fn get(&self, code: &ShortCode) -> (r: Result<Clip, StoreError>)
        requires
            self.wf(),
        ensures
            match lookup(self@, code@) {
                Some(c) => r matches Ok(k) && k@ == c,
                None => r matches Err(e) && e is NotFound,
            },
    {
        match self.find_index(code) {
            Some(i) => {
                proof {
                    lemma_lookup_at(self@, i as int);
                }
                Ok(self.clips[i].clone())
            },
            None => Err(StoreError::NotFound),
        }
    }

    /// Records one hit on the clip carrying `code`: its count grows by
    /// exactly one (until the largest representable count), every other clip
    /// is untouched, and a missing shortcode is a not-found signal.
    pub fn increment_hits(&mut self, code: &ShortCode) -> (r: Result<(), StoreError>)
        requires
            old(self).wf(),
        ensures
            final(self).wf(),
            has_code(old(self)@, code@) ==> (r matches Ok(u) && u == ()
                && final(self)@ == bump(old(self)@, code@)),
            !has_code(old(self)@, code@) ==> (r matches Err(e) && e is NotFound
                && final(self)@ == old(self)@),
    {
        match self.find_index(code) {
            Some(i) => {
                let mut touched = self.clips[i].clone();
                touched.hits = touched.hits.incremented();
                self.clips[i] = touched;
                proof {
                    assert forall|k: int| 0 <= k < old(self)@.len() implies self@[k] == bump(
                        old(self)@,
                        code@,
                    )[k] by {
                        if k != i {
                            assert(old(self)@[k].shortcode != code@);
                        }
                    }
                    assert(self@ =~= bump(old(self)@, code@));
                }
                Ok(())
            },
            None => Err(StoreError::NotFound),
        }
    }

    /// The number of stored clips.
    pub fn len(&self) -> (r: usize)
        ensures
            r == self@.len(),
    {
        self.clips.len()
    }
}

} // verus!

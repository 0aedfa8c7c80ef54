//! Thumbnail cache.
//!
//! A thumbnail is a derived artifact keyed by media identity and stored at
//! the deterministic path `{dir}/{id}.webp`; its existence is its only
//! state. This module is the cache's bookkeeping: which ids have a
//! thumbnail, which requests need an encode, what is removed. The image
//! work itself — decode, downscale, re-encode, the file writes — happens in
//! the caller, which reports back what succeeded.
//!
//! The cache is keyed by identity, not content: a file replaced under the
//! same id keeps its stale thumbnail until it is removed explicitly.

use vstd::prelude::*;
use crate::strutil::views_of;

verus! {

/// The entries of a batch whose encode succeeded.
pub open spec fn success_pred() -> spec_fn((String, bool)) -> bool {
    |p: (String, bool)| p.1
}

/// The target paths a batch returns: one per successful entry, in batch
/// order.
pub open spec fn spec_batch_paths(results: Seq<(String, bool)>, dir: Seq<char>) -> Seq<Seq<char>> {
    results.filter(success_pred()).map_values(|p: (String, bool)| spec_thumbnail_path(dir, p.0@))
}

/// The cache path for an id under a directory.
pub open spec fn spec_thumbnail_path(dir: Seq<char>, id: Seq<char>) -> Seq<char> {
    dir + "/"@ + id + ".webp"@
}

/// The thumbnail cache directory and the ids that currently have a
/// thumbnail file in it.
pub struct ThumbnailCache {
    dir: String,
    ids: Vec<String>,
}

impl ThumbnailCache {
    /// The cache directory.
    pub closed spec fn spec_dir(&self) -> Seq<char> {
        self.dir@
    }

    /// Whether this id currently has a thumbnail.
    pub closed spec fn spec_has(&self, id: Seq<char>) -> bool {
        views_of(self.ids@).contains(id)
    }

    /// A cache over a directory holding the given ids' thumbnails.
    pub fn new(dir: String, existing_ids: Vec<String>) -> (r: ThumbnailCache)
        ensures
            r.spec_dir() == dir@,
            forall|id: Seq<char>| r.spec_has(id) == views_of(existing_ids@).contains(id),
    {
        ThumbnailCache { dir, ids: existing_ids }
    }

    /// The deterministic target path for an id.
    pub fn thumbnail_path(&self, id: &str) -> (r: String)
        ensures
            r@ == spec_thumbnail_path(self.spec_dir(), id@),
    {
        let mut p = self.dir.clone();
        p.append("/");
        p.append(id);
        p.append(".webp");
        p
    }

    /// The path of an id's thumbnail, only if it exists; never generates
    /// anything.
    pub fn get_thumbnail_path(&self, id: &str) -> (r: Option<String>)
        ensures
            (r is Some) == self.spec_has(id@),
            r matches Some(p) ==> p@ == spec_thumbnail_path(self.spec_dir(), id@),
    {
        if self.has(id) {
            Some(self.thumbnail_path(id))
        } else {
            None
        }
    }

    fn has(&self, id: &str) -> (r: bool)
        ensures
            r == self.spec_has(id@),
    {
        let mut i: usize = 0;
        while i < self.ids.len()
            invariant
                i <= self.ids@.len(),
                forall|k: int| 0 <= k < i ==> views_of(self.ids@)[k] != id@,
            decreases self.ids@.len() - i,
        {
            if crate::strutil::str_eq(self.ids[i].as_str(), id) {
                proof {
                    assert(views_of(self.ids@)[i as int] == id@);
                }
                return true;
            }
            i = i + 1;
        }
        false
    }

    /// Plan one thumbnail generation: the target path, and whether an
    /// encode is needed. Generation is idempotent — when the target
    /// already exists it is skipped, nothing is re-encoded and nothing is
    /// written, so the cached bytes stay untouched.
    pub fn generate_thumbnail(&mut self, id: &str) -> (r: (String, bool))
        ensures
            r.0@ == spec_thumbnail_path(old(self).spec_dir(), id@),
            r.1 == !old(self).spec_has(id@),
            final(self).spec_dir() == old(self).spec_dir(),
            final(self).spec_has(id@),
            forall|other: Seq<char>|
                other != id@ ==> final(self).spec_has(other) == old(self).spec_has(other),
    {
        let path = self.thumbnail_path(id);
        if self.has(id) {
            (path, false)
        } else {
            let ghost before = self.ids@;
            self.ids.push(id.to_owned());
            proof {
                assert(views_of(self.ids@) =~= views_of(before).push(id@));
                assert(views_of(self.ids@)[views_of(self.ids@).len() - 1] == id@);
                assert forall|other: Seq<char>| other != id@ implies views_of(self.ids@).contains(
                    other,
                ) == views_of(before).contains(other) by {
                    if views_of(before).contains(other) {
                        let k = choose|k: int|
                            0 <= k < views_of(before).len() && views_of(before)[k] == other;
                        assert(views_of(self.ids@)[k] == other);
                    }
                    if views_of(self.ids@).contains(other) {
                        let k = choose|k: int|
                            0 <= k < views_of(self.ids@).len() && views_of(self.ids@)[k] == other;
                        assert(k < views_of(before).len());
                        assert(views_of(before)[k] == other);
                    }
                }
            }
            (path, true)
        }
    }

    /// Record a batch of thumbnail generations: the returned paths are
    /// exactly the targets of the entries whose encode succeeded, in batch
    /// order; failures are left out — the batch itself never fails because
    /// one entry failed.
    pub fn generate_thumbnails(&mut self, results: &Vec<(String, bool)>) -> (r: Vec<String>)
        ensures
            final(self).spec_dir() == old(self).spec_dir(),
            forall|id: Seq<char>|
                #[trigger] final(self).spec_has(id) == (old(self).spec_has(id) || exists|k: int|
                    0 <= k < results@.len() && (#[trigger] results@[k]).0@ == id && results@[k].1),
            views_of(r@) == spec_batch_paths(results@, old(self).spec_dir()),
    {
        let ghost dir = old(self).spec_dir();
        let mut out: Vec<String> = Vec::new();
        let mut i: usize = 0;
        proof {
            reveal(Seq::filter);
            assert(results@.subrange(0, 0) =~= Seq::<(String, bool)>::empty());
            assert(views_of(out@) =~= spec_batch_paths(results@.subrange(0, 0), dir));
        }
        while i < results.len()
            invariant
                i <= results@.len(),
                self.spec_dir() == old(self).spec_dir(),
                dir == old(self).spec_dir(),
                forall|id: Seq<char>|
                    #[trigger] self.spec_has(id) == (old(self).spec_has(id) || exists|k: int|
                        0 <= k < i && (#[trigger] results@[k]).0@ == id && results@[k].1),
                views_of(out@) == spec_batch_paths(results@.subrange(0, i as int), dir),
            decreases results@.len() - i,
        {
            let ghost prefix = results@.subrange(0, i as int);
            let ghost next = results@.subrange(0, i + 1 as int);
            proof {
                assert(next.drop_last() =~= prefix);
                assert(next.last() == results@[i as int]);
                reveal(Seq::filter);
            }
            if results[i].1 {
                let (path, _) = self.generate_thumbnail(results[i].0.as_str());
                let ghost out_before = out@;
                out.push(path);
                proof {
                    assert(views_of(out@) =~= views_of(out_before).push(
                        spec_thumbnail_path(dir, results@[i as int].0@),
                    ));
                    assert(spec_batch_paths(next, dir) =~= spec_batch_paths(prefix, dir).push(
                        spec_thumbnail_path(dir, results@[i as int].0@),
                    ));
                }
            } else {
                proof {
                    assert(!results@[i as int].1);
                    assert(spec_batch_paths(next, dir) =~= spec_batch_paths(prefix, dir));
                }
            }
            i = i + 1;
        }
        proof {
            assert(results@.subrange(0, results@.len() as int) =~= results@);
        }
        out
    }

    /// Remove an id's thumbnail: delete-if-present, a no-op otherwise.
    pub fn remove_thumbnail(&mut self, id: &str)
        ensures
            final(self).spec_dir() == old(self).spec_dir(),
            !final(self).spec_has(id@),
            forall|other: Seq<char>|
                other != id@ ==> final(self).spec_has(other) == old(self).spec_has(other),
    {
        let mut kept: Vec<String> = Vec::new();
        let mut i: usize = 0;
        while i < self.ids.len()
            invariant
                i <= self.ids@.len(),
                !views_of(kept@).contains(id@),
                forall|other: Seq<char>|
                    other != id@ ==> views_of(kept@).contains(other) == views_of(
                        self.ids@.subrange(0, i as int),
                    ).contains(other),
            decreases self.ids@.len() - i,
        {
            let ghost prefix = self.ids@.subrange(0, i as int);
            let ghost next = self.ids@.subrange(0, i + 1 as int);
            let ghost elem = self.ids@[i as int];
            proof {
                assert(next =~= prefix.push(elem));
                lemma_views_contains_push(prefix, elem);
            }
            if !crate::strutil::str_eq(self.ids[i].as_str(), id) {
                let ghost kept_before = kept@;
                kept.push(self.ids[i].clone());
                proof {
                    assert(kept@ =~= kept_before.push(elem));
                    lemma_views_contains_push(kept_before, elem);
                    assert forall|other: Seq<char>| other != id@ implies views_of(
                        kept@,
                    ).contains(other) == views_of(next).contains(other) by {
                        assert(views_of(kept@).contains(other) == (views_of(kept_before).contains(
                            other,
                        ) || other == elem@));
                        assert(views_of(next).contains(other) == (views_of(prefix).contains(other)
                            || other == elem@));
                    }
                }
            } else {
                proof {
                    assert(elem@ == id@);
                    assert forall|other: Seq<char>| other != id@ implies views_of(
                        kept@,
                    ).contains(other) == views_of(next).contains(other) by {
                        assert(views_of(next).contains(other) == (views_of(prefix).contains(other)
                            || other == elem@));
                    }
                }
            }
            i = i + 1;
        }
        proof {
            assert(self.ids@.subrange(0, self.ids@.len() as int) =~= self.ids@);
        }
        self.ids = kept;
    }

    /// Remove a batch of thumbnails: best-effort and non-atomic, each id
    /// removed in turn, the rest untouched.
    pub fn remove_thumbnails(&mut self, id_list: &Vec<String>)
        ensures
            final(self).spec_dir() == old(self).spec_dir(),
            forall|id: Seq<char>|
                views_of(id_list@).contains(id) ==> !final(self).spec_has(id),
            forall|other: Seq<char>|
                !views_of(id_list@).contains(other) ==> final(self).spec_has(other) == old(
                    self,
                ).spec_has(other),
    {
        let mut i: usize = 0;
        while i < id_list.len()
            invariant
                i <= id_list@.len(),
                self.spec_dir() == old(self).spec_dir(),
                forall|id: Seq<char>|
                    views_of(id_list@.subrange(0, i as int)).contains(id) ==> !self.spec_has(id),
                forall|other: Seq<char>|
                    !views_of(id_list@).contains(other) ==> self.spec_has(other) == old(
                        self,
                    ).spec_has(other),
            decreases id_list@.len() - i,
        {
            let ghost prefix = id_list@.subrange(0, i as int);
            let ghost next = id_list@.subrange(0, i + 1 as int);
            proof {
                assert(views_of(next) =~= views_of(prefix).push(id_list@[i as int]@));
                lemma_views_contains_push(prefix, id_list@[i as int]);
                assert(views_of(id_list@)[i as int] == id_list@[i as int]@);
            }
            self.remove_thumbnail(id_list[i].as_str());
            proof {
                assert forall|id: Seq<char>|
                    views_of(next).contains(id) implies !self.spec_has(id) by {
                    if id != id_list@[i as int]@ {
                        assert(views_of(prefix).contains(id));
                    }
                }
            }
            i = i + 1;
        }
        proof {
            assert(id_list@.subrange(0, id_list@.len() as int) =~= id_list@);
        }
    }
}

/// Membership in a pushed sequence of views: the new element, or an old
/// member.
proof fn lemma_views_contains_push(v: Seq<String>, x: String)
    ensures
        forall|id: Seq<char>|
            views_of(v.push(x)).contains(id) == (views_of(v).contains(id) || id == x@),
{
    assert forall|id: Seq<char>|
        views_of(v.push(x)).contains(id) == (views_of(v).contains(id) || id == x@) by {
        assert(views_of(v.push(x)) =~= views_of(v).push(x@));
        if views_of(v).contains(id) {
            let k = choose|k: int| 0 <= k < views_of(v).len() && views_of(v)[k] == id;
            assert(views_of(v).push(x@)[k] == id);
        }
        if id == x@ {
            assert(views_of(v).push(x@)[views_of(v).len() as int] == id);
        }
        if views_of(v.push(x)).contains(id) {
            let k = choose|k: int|
                0 <= k < views_of(v.push(x)).len() && views_of(v.push(x))[k] == id;
            if k < views_of(v).len() {
                assert(views_of(v)[k] == id);
            }
        }
    }
}

} // verus!

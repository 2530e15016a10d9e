//! Model of one versioned cache directory.
//!
//! A versioned directory holds at most one entry file per name; an entry's
//! content is exactly the serialized artifact the engine produced. This
//! module captures those contents as a value — a finite map from file name
//! to file bytes — and gives the three cache operations their entry-level
//! semantics: `store` overwrites (last write wins), `load` finds exactly
//! what was stored, `remove` deletes and reports whether anything existed.
//! The laws the cache relies on (round trip, miss distinctness, idempotent
//! removal) are proved here once and for all contents.

use vstd::prelude::*;

verus! {

/// One entry of a versioned cache directory: a file named by the lowercase
/// hexadecimal form of a checksum, holding exactly the bytes the engine's
/// serializer produced for that artifact.
#[derive(Debug)]
pub struct CacheEntry {
    /// The file name (the checksum of the artifact's program, in hex).
    pub filename: String,
    /// The file content: the serialized artifact.
    pub contents: Vec<u8>,
}

/// The contents of one versioned cache directory, viewed as a finite map
/// from file name to file bytes.
#[derive(Debug)]
pub struct CacheDirectory {
    entries: Vec<CacheEntry>,
}

impl View for CacheDirectory {
    type V = Map<Seq<char>, Seq<u8>>;

    closed spec fn view(&self) -> Map<Seq<char>, Seq<u8>> {
        Map::new(
            |name: Seq<char>| self.contains_name(name),
            |name: Seq<char>| self.entries@[self.index_of(name)].contents@,
        )
    }
}

impl CacheDirectory {
    /// At most one entry per file name.
    pub closed spec fn inv(self) -> bool {
        forall|i: int, j: int|
            0 <= i < j < self.entries@.len() ==> self.entries@[i].filename@
                != self.entries@[j].filename@
    }

    /// Whether some entry has the given name.
    closed spec fn contains_name(self, name: Seq<char>) -> bool {
        exists|i: int|
            0 <= i < self.entries@.len() && self.entries@[i].filename@ == name
    }

    /// The index of the entry with the given name (unique under `inv`).
    closed spec fn index_of(self, name: Seq<char>) -> int {
        choose|i: int|
            0 <= i < self.entries@.len() && self.entries@[i].filename@ == name
    }

    /// An entry with name `name` at index `i` is what the directory's map
    /// yields for `name`.
    proof fn lemma_lookup(self, name: Seq<char>, i: int)
        requires
            self.inv(),
            0 <= i < self.entries@.len(),
            self.entries@[i].filename@ == name,
        ensures
            self@.contains_key(name),
            self@[name] == self.entries@[i].contents@,
    {
        assert(self.contains_name(name));
        let j = self.index_of(name);
        assert(0 <= j < self.entries@.len() && self.entries@[j].filename@ == name);
        if i < j {
            assert(self.entries@[i].filename@ != self.entries@[j].filename@);
        } else if j < i {
            assert(self.entries@[j].filename@ != self.entries@[i].filename@);
        }
    }

    /// An empty directory: no entries at all.
    pub fn new() -> (r: CacheDirectory)
        ensures
            r.inv(),
            r@ == Map::<Seq<char>, Seq<u8>>::empty(),
    {
        let r = CacheDirectory { entries: Vec::new() };
        proof {
            assert(r@ =~= Map::<Seq<char>, Seq<u8>>::empty());
        }
        r
    }

    /// The index of the entry named `filename`, if any.
    fn find(&self, filename: &String) -> (r: Option<usize>)
        requires
            self.inv(),
        ensures
            r matches Some(i) ==> (i < self.entries@.len() && self.entries@[i as int].filename@
                == filename@),
            r is None ==> !self.contains_name(filename@),
    {
        let mut i: usize = 0;
        while i < self.entries.len()
            invariant
                i <= self.entries@.len(),
                forall|j: int| 0 <= j < i ==> self.entries@[j].filename@ != filename@,
            decreases self.entries@.len() - i,
        {
            if filename.eq(&self.entries[i].filename) {
                return Some(i);
            }
            i = i + 1;
        }
        None
    }

    /// Loads the entry named `filename`: its bytes together with their
    /// length, the stored artifact's size estimate. An absent name yields
    /// `None` — a miss, never a failure.
    pub fn load_entry<'a>(&'a self, filename: &String) -> (r: Option<(&'a Vec<u8>, usize)>)
        requires
            self.inv(),
        ensures
            r is Some <==> self@.contains_key(filename@),
            r matches Some(p) ==> (p.0@ == self@[filename@] && p.1 == p.0@.len()),
    {
        match self.find(filename) {
            Some(i) => {
                let contents = &self.entries[i].contents;
                let size = contents.len();
                proof {
                    self.lemma_lookup(filename@, i as int);
                }
                Some((contents, size))
            },
            None => {
                proof {
                    assert(!self@.contains_key(filename@));
                }
                None
            },
        }
    }

    /// Stores `contents` under `filename`, overwriting any prior entry with
    /// that name (last write wins); returns the stored byte length, the
    /// artifact's size estimate.
    pub fn store_entry(&mut self, filename: String, contents: Vec<u8>) -> (size: usize)
        requires
            old(self).inv(),
        ensures
            final(self).inv(),
            final(self)@ == old(self)@.insert(filename@, contents@),
            size == contents@.len(),
    {
        let size = contents.len();
        let ghost name = filename@;
        let ghost value = contents@;
        match self.find(&filename) {
            Some(i) => {
                self.entries[i] = CacheEntry { filename, contents };
                proof {
                    let pre = *old(self);
                    let post = *self;
                    assert forall|j: int| 0 <= j < post.entries@.len() implies post.entries@[j].filename@
                        == pre.entries@[j].filename@ by {}
                    assert forall|p: int, q: int|
                        0 <= p < q < post.entries@.len() implies post.entries@[p].filename@
                        != post.entries@[q].filename@ by {
                        assert(pre.entries@[p].filename@ != pre.entries@[q].filename@);
                    }
                    post.lemma_lookup(name, i as int);
                    assert forall|k: Seq<char>|
                        post@.contains_key(k) == pre@.insert(name, value).contains_key(k) by {
                        if k != name {
                            assert(post.contains_name(k) == pre.contains_name(k));
                        }
                    }
                    assert forall|k: Seq<char>| post@.contains_key(k) implies post@[k] == pre@.insert(
                        name,
                        value,
                    )[k] by {
                        if k != name {
                            let j = choose|j: int|
                                0 <= j < post.entries@.len() && post.entries@[j].filename@ == k;
                            assert(j != i);
                            post.lemma_lookup(k, j);
                            pre.lemma_lookup(k, j);
                        }
                    }
                    assert(post@ =~= pre@.insert(name, value));
                }
            },
            None => {
                self.entries.push(CacheEntry { filename, contents });
                proof {
                    let pre = *old(self);
                    let post = *self;
                    let last = pre.entries@.len() as int;
                    assert forall|p: int, q: int|
                        0 <= p < q < post.entries@.len() implies post.entries@[p].filename@
                        != post.entries@[q].filename@ by {
                        if q < last {
                            assert(pre.entries@[p].filename@ != pre.entries@[q].filename@);
                        } else {
                            assert(post.entries@[q].filename@ == name);
                            assert(!pre.contains_name(name));
                        }
                    }
                    post.lemma_lookup(name, last);
                    assert forall|k: Seq<char>|
                        post@.contains_key(k) == pre@.insert(name, value).contains_key(k) by {
                        if k != name {
                            if post.contains_name(k) {
                                let j = choose|j: int|
                                    0 <= j < post.entries@.len() && post.entries@[j].filename@ == k;
                                assert(j < last);
                                assert(pre.entries@[j].filename@ == k);
                                assert(pre.contains_name(k));
                            }
                            if pre.contains_name(k) {
                                let j = choose|j: int|
                                    0 <= j < pre.entries@.len() && pre.entries@[j].filename@ == k;
                                assert(post.entries@[j].filename@ == k);
                                assert(post.contains_name(k));
                            }
                        }
                    }
                    assert forall|k: Seq<char>| post@.contains_key(k) implies post@[k] == pre@.insert(
                        name,
                        value,
                    )[k] by {
                        if k != name {
                            let j = choose|j: int|
                                0 <= j < post.entries@.len() && post.entries@[j].filename@ == k;
                            assert(j < last);
                            post.lemma_lookup(k, j);
                            pre.lemma_lookup(k, j);
                        }
                    }
                    assert(post@ =~= pre@.insert(name, value));
                }
            },
        }
        size
    }

    /// Removes the entry named `filename`, reporting whether one existed.
    /// Removing an absent name returns `false` and changes nothing.
    pub fn remove_entry(&mut self, filename: &String) -> (existed: bool)
        requires
            old(self).inv(),
        ensures
            final(self).inv(),
            existed == old(self)@.contains_key(filename@),
            final(self)@ == old(self)@.remove(filename@),
    {
        let ghost name = filename@;
        match self.find(filename) {
            Some(i) => {
                proof {
                    old(self).lemma_lookup(name, i as int);
                    old(self).entries@.remove_ensures(i as int);
                }
                self.entries.remove(i);
                proof {
                    let pre = *old(self);
                    let post = *self;
                    let ii = i as int;
                    assert forall|p: int, q: int|
                        0 <= p < q < post.entries@.len() implies post.entries@[p].filename@
                        != post.entries@[q].filename@ by {
                        let pp: int = if p < ii { p } else { p + 1 };
                        let qq: int = if q < ii { q } else { q + 1 };
                        assert(post.entries@[p] == pre.entries@[pp]);
                        assert(post.entries@[q] == pre.entries@[qq]);
                        assert(pre.entries@[pp].filename@ != pre.entries@[qq].filename@);
                    }
                    assert forall|k: Seq<char>|
                        post@.contains_key(k) == pre@.remove(name).contains_key(k) by {
                        if post.contains_name(k) {
                            let j = choose|j: int|
                                0 <= j < post.entries@.len() && post.entries@[j].filename@ == k;
                            let jj: int = if j < ii { j } else { j + 1 };
                            assert(post.entries@[j] == pre.entries@[jj]);
                            assert(pre.contains_name(k));
                            if k == name {
                                pre.lemma_lookup(k, jj);
                                if jj < ii {
                                    assert(pre.entries@[jj].filename@ != pre.entries@[ii].filename@);
                                } else {
                                    assert(pre.entries@[ii].filename@ != pre.entries@[jj].filename@);
                                }
                            }
                        }
                        if pre.contains_name(k) && k != name {
                            let p = choose|p: int|
                                0 <= p < pre.entries@.len() && pre.entries@[p].filename@ == k;
                            assert(p != ii);
                            let j: int = if p < ii { p } else { p - 1 };
                            assert(post.entries@[j] == pre.entries@[p]);
                            assert(post.contains_name(k));
                        }
                    }
                    assert forall|k: Seq<char>| post@.contains_key(k) implies post@[k] == pre@.remove(
                        name,
                    )[k] by {
                        let j = choose|j: int|
                            0 <= j < post.entries@.len() && post.entries@[j].filename@ == k;
                        let jj: int = if j < ii { j } else { j + 1 };
                        assert(post.entries@[j] == pre.entries@[jj]);
                        post.lemma_lookup(k, j);
                        pre.lemma_lookup(k, jj);
                    }
                    assert(post@ =~= pre@.remove(name));
                }
                true
            },
            None => {
                proof {
                    assert(!self@.contains_key(name));
                    assert(self@.remove(name) =~= self@);
                }
                false
            },
        }
    }
}

/// Round trip with overwrite semantics: after storing `contents` under
/// `filename`, the directory yields exactly those bytes for `filename` —
/// whatever was there before — and every other name is untouched, in
/// presence and in content alike.
pub proof fn lemma_store_then_load(
    dir: Map<Seq<char>, Seq<u8>>,
    filename: Seq<char>,
    contents: Seq<u8>,
)
    ensures
        dir.insert(filename, contents).contains_key(filename),
        dir.insert(filename, contents)[filename] == contents,
        forall|other: Seq<char>|
            other != filename ==> dir.insert(filename, contents).contains_key(other)
                == dir.contains_key(other),
        forall|other: Seq<char>|
            other != filename && dir.contains_key(other) ==> dir.insert(filename, contents)[other]
                == dir[other],
{
}

/// Miss distinctness: a name that was never stored, or whose entry was just
/// removed, is absent — a load of it reports "no entry", never a failure.
pub proof fn lemma_removed_is_absent(dir: Map<Seq<char>, Seq<u8>>, filename: Seq<char>)
    ensures
        !dir.remove(filename).contains_key(filename),
        !Map::<Seq<char>, Seq<u8>>::empty().contains_key(filename),
{
}

/// Idempotent removal: removing an absent name changes nothing, and a
/// second removal of the same name finds nothing left to remove.
pub proof fn lemma_remove_idempotent(dir: Map<Seq<char>, Seq<u8>>, filename: Seq<char>)
    ensures
        !dir.contains_key(filename) ==> dir.remove(filename) == dir,
        dir.remove(filename).remove(filename) == dir.remove(filename),
{
    if !dir.contains_key(filename) {
        assert(dir.remove(filename) =~= dir);
    }
    assert(dir.remove(filename).remove(filename) =~= dir.remove(filename));
}

/// Size estimate consistency: the size reported when storing an artifact is
/// its byte length, and a later load of the same entry reports that same
/// length.
pub proof fn lemma_size_consistent(
    dir: Map<Seq<char>, Seq<u8>>,
    filename: Seq<char>,
    contents: Seq<u8>,
)
    ensures
        dir.insert(filename, contents)[filename].len() == contents.len(),
{
}

} // verus!

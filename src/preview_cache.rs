//! A bounded least-recently-used cache of processed preview frames.

use vstd::prelude::*;

verus! {

/// Number of frames a preview cache keeps.
pub const PREVIEW_CACHE_CAPACITY: usize = 24;

/// The resolution class of a preview job.
#[derive(Clone, Copy, Debug, PartialEq, Eq, Structural)]
pub enum ProcessQuality {
    /// A reduced-size pass run while sliders move.
    Interactive,
    /// A full preview-size pass run once edits settle.
    Final,
}

/// Identifies a processed preview: source, edits, input size and quality.
#[derive(Clone, Copy, Debug, PartialEq, Eq, Structural)]
pub struct PreviewCacheKey {
    pub source_signature: u64,
    pub edit_signature: u64,
    pub input_width: u32,
    pub input_height: u32,
    pub quality: ProcessQuality,
}

/// Processed RGBA bytes with their dimensions.
pub struct PreviewFrame {
    pub data: Vec<u8>,
    pub width: usize,
    pub height: usize,
}

/// One cached frame under its key.
pub struct CacheSlot {
    pub key: PreviewCacheKey,
    pub frame: PreviewFrame,
}

/// Frames by key, least recently used first.
pub struct PreviewCache {
    pub slots: Vec<CacheSlot>,
    pub capacity: usize,
}

/// The keys of a slot sequence, in order.
pub open spec fn keys_of(slots: Seq<CacheSlot>) -> Seq<PreviewCacheKey> {
    Seq::new(slots.len(), |i: int| slots[i].key)
}

/// Whether two frames hold the same bytes and dimensions.
pub open spec fn same_frame(a: PreviewFrame, b: PreviewFrame) -> bool {
    a.data@ == b.data@ && a.width == b.width && a.height == b.height
}

impl PreviewFrame {
    /// A copy of this frame.
    pub fn duplicate(&self) -> (r: PreviewFrame)
        ensures
            same_frame(r, *self),
    {
        let data = self.data.clone();
        proof {
            assert(data@ =~= self.data@);
        }
        PreviewFrame { data, width: self.width, height: self.height }
    }
}

impl PreviewCache {
    /// The cached keys, least recently used first.
    pub open spec fn keys(&self) -> Seq<PreviewCacheKey> {
        keys_of(self.slots@)
    }

    /// Keys are distinct and the capacity bounds the size.
    pub open spec fn wf(&self) -> bool {
        &&& 0 < self.capacity
        &&& self.slots@.len() <= self.capacity
        &&& self.keys().no_duplicates()
    }

    /// Whether `key` has a frame.
    pub open spec fn has(&self, key: PreviewCacheKey) -> bool {
        self.keys().contains(key)
    }

    /// The keys after `key` becomes the most recently used one.
    pub open spec fn touched(keys: Seq<PreviewCacheKey>, key: PreviewCacheKey) -> Seq<PreviewCacheKey> {
        keys.remove(keys.index_of(key)).push(key)
    }

    /// The keys after an insertion of `key` into a cache of `capacity`.
    pub open spec fn inserted(keys: Seq<PreviewCacheKey>, key: PreviewCacheKey, capacity: nat) -> Seq<PreviewCacheKey> {
        if keys.contains(key) {
            Self::touched(keys, key)
        } else if keys.len() >= capacity {
            keys.drop_first().push(key)
        } else {
            keys.push(key)
        }
    }

    /// An empty cache of the given capacity.
    pub fn new(capacity: usize) -> (r: PreviewCache)
        requires
            capacity > 0,
        ensures
            r.wf(),
            r.keys() == Seq::<PreviewCacheKey>::empty(),
            r.capacity == capacity,
    {
        let r = PreviewCache { slots: Vec::new(), capacity };
        proof {
            assert(r.keys() =~= Seq::<PreviewCacheKey>::empty());
        }
        r
    }

    /// Number of cached frames.
    pub fn len(&self) -> (r: usize)
        ensures
            r == self.keys().len(),
    {
        self.slots.len()
    }

    /// Position of `key` among the slots, if cached.
    fn position(&self, key: &PreviewCacheKey) -> (r: Option<usize>)
        requires
            self.wf(),
        ensures
            r is None <==> !self.has(*key),
            r matches Some(i) ==> i < self.slots@.len() && self.slots@[i as int].key == *key
                && self.keys().index_of(*key) == i,
    {
        let mut i: usize = 0;
        while i < self.slots.len()
            invariant
                self.wf(),
                i <= self.slots@.len(),
                forall|j: int| 0 <= j < i ==> self.slots@[j].key != *key,
            decreases self.slots@.len() - i,
        {
            if self.slots[i].key == *key {
                proof {
                    assert(self.keys()[i as int] == *key);
                    lemma_index_of_unique(self.keys(), i as int);
                }
                return Some(i);
            }
            i = i + 1;
        }
        proof {
            if self.has(*key) {
                let j = self.keys().index_of(*key);
                assert(self.keys()[j] == *key);
            }
        }
        None
    }

    /// The frame under `key`, if cached; a hit makes `key` the most recently
    /// used one.
    pub fn get(&mut self, key: &PreviewCacheKey) -> (r: Option<PreviewFrame>)
        requires
            old(self).wf(),
        ensures
            final(self).wf(),
            final(self).capacity == old(self).capacity,
            r is Some <==> old(self).has(*key),
            r is None ==> *final(self) == *old(self),
            r is Some ==> final(self).keys() == Self::touched(old(self).keys(), *key),
            r matches Some(f) ==> same_frame(f, final(self).slots@.last().frame)
                && final(self).slots@.last().key == *key,
            forall|k: PreviewCacheKey| #![auto] final(self).has(k) <==> old(self).has(k),
    {
        match self.position(key) {
            None => None,
            Some(i) => {
                let ghost old_slots = self.slots@;
                let slot = self.slots.remove(i);
                let copy = slot.frame.duplicate();
                self.slots.push(slot);
                proof {
                    assert(keys_of(self.slots@) =~= keys_of(old_slots).remove(i as int).push(*key));
                    lemma_remove_push_distinct(keys_of(old_slots), i as int);
                }
                Some(copy)
            }
        }
    }

    /// Stores `frame` under `key` as the most recently used entry; when a new
    /// key finds the cache full, the least recently used entry is evicted.
    pub fn insert(&mut self, key: PreviewCacheKey, frame: PreviewFrame)
        requires
            old(self).wf(),
        ensures
            final(self).wf(),
            final(self).capacity == old(self).capacity,
            final(self).keys() == Self::inserted(old(self).keys(), key, old(self).capacity as nat),
            same_frame(final(self).slots@.last().frame, frame),
            final(self).slots@.last().key == key,
    {
        match self.position(&key) {
            Some(i) => {
                let ghost old_slots = self.slots@;
                let _ = self.slots.remove(i);
                self.slots.push(CacheSlot { key, frame });
                proof {
                    assert(keys_of(self.slots@) =~= keys_of(old_slots).remove(i as int).push(key));
                    lemma_remove_push_distinct(keys_of(old_slots), i as int);
                }
            }
            None => {
                let ghost old_slots = self.slots@;
                if self.slots.len() >= self.capacity {
                    let _ = self.slots.remove(0);
                    proof {
                        assert(keys_of(self.slots@) =~= keys_of(old_slots).drop_first());
                        assert(keys_of(old_slots).drop_first() =~= keys_of(old_slots).remove(0));
                        lemma_remove_distinct(keys_of(old_slots), 0);
                    }
                }
                let ghost mid = self.slots@;
                self.slots.push(CacheSlot { key, frame });
                proof {
                    assert(keys_of(self.slots@) =~= keys_of(mid).push(key));
                    assert(!keys_of(mid).contains(key)) by {
                        if keys_of(mid).contains(key) {
                            let j = keys_of(mid).index_of(key);
                            if old_slots.len() >= self.capacity {
                                assert(keys_of(old_slots)[j + 1] == key);
                            } else {
                                assert(keys_of(old_slots)[j] == key);
                            }
                        }
                    }
                    lemma_push_fresh_distinct(keys_of(mid), key);
                    if old_slots.len() >= self.capacity {
                        assert(keys_of(old_slots).drop_first() =~= keys_of(mid));
                    } else {
                        assert(keys_of(old_slots) =~= keys_of(mid));
                    }
                }
            }
        }
    }
}

proof fn lemma_index_of_unique(s: Seq<PreviewCacheKey>, i: int)
    requires
        s.no_duplicates(),
        0 <= i < s.len(),
    ensures
        s.index_of(s[i]) == i,
{
    assert(s.contains(s[i]));
    let j = s.index_of(s[i]);
    assert(s[j] == s[i]);
}

proof fn lemma_remove_distinct(s: Seq<PreviewCacheKey>, i: int)
    requires
        s.no_duplicates(),
        0 <= i < s.len(),
    ensures
        s.remove(i).no_duplicates(),
{
    let r = s.remove(i);
    s.remove_ensures(i);
    assert forall|a: int, b: int| 0 <= a < r.len() && 0 <= b < r.len() && a != b implies r[a] != r[b] by {
        let sa = if a < i { a } else { a + 1 };
        let sb = if b < i { b } else { b + 1 };
        assert(r[a] == s[sa]);
        assert(r[b] == s[sb]);
    }
}

proof fn lemma_push_fresh_distinct(s: Seq<PreviewCacheKey>, k: PreviewCacheKey)
    requires
        s.no_duplicates(),
        !s.contains(k),
    ensures
        s.push(k).no_duplicates(),
{
    let t = s.push(k);
    assert forall|a: int, b: int| 0 <= a < t.len() && 0 <= b < t.len() && a != b implies t[a] != t[b] by {
        if a == s.len() {
            assert(s[b] == t[b]);
        } else if b == s.len() {
            assert(s[a] == t[a]);
        }
    }
}

proof fn lemma_remove_push_distinct(s: Seq<PreviewCacheKey>, i: int)
    requires
        s.no_duplicates(),
        0 <= i < s.len(),
    ensures
        s.remove(i).push(s[i]).no_duplicates(),
        forall|k: PreviewCacheKey| #![auto] s.remove(i).push(s[i]).contains(k) <==> s.contains(k),
        s.remove(i).push(s[i]).len() == s.len(),
{
    let r = s.remove(i);
    lemma_remove_distinct(s, i);
    assert(!r.contains(s[i])) by {
        if r.contains(s[i]) {
            let j = r.index_of(s[i]);
            if j < i {
                assert(s[j] == s[i]);
            } else {
                assert(s[j + 1] == s[i]);
            }
        }
    }
    lemma_push_fresh_distinct(r, s[i]);
    assert forall|k: PreviewCacheKey| #![auto] r.push(s[i]).contains(k) implies s.contains(k) by {
        let j = r.push(s[i]).index_of(k);
        if j == r.len() {
            assert(s[i] == k);
        } else if j < i {
            assert(s[j] == k);
        } else {
            assert(s[j + 1] == k);
        }
    }
    assert forall|k: PreviewCacheKey| #![auto] s.contains(k) implies r.push(s[i]).contains(k) by {
        let j = s.index_of(k);
        if j == i {
            assert(r.push(s[i])[r.len() as int] == k);
        } else if j < i {
            assert(r.push(s[i])[j] == k);
        } else {
            assert(r.push(s[i])[j - 1] == k);
        }
    }
}

} // verus!

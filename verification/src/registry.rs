//! The simulation side's store of parameter records, one per camera.

use vstd::prelude::*;
use crate::seq_facts::lemma_index_of_unique;
use crate::settings::RainGlareSettings;

verus! {

/// The cameras that have the effect enabled, in the order they enabled it,
/// each with its one record.
pub struct SettingsRegistry {
    ids: Vec<u64>,
    records: Vec<RainGlareSettings>,
}

impl SettingsRegistry {
    /// The cameras, oldest first.
    pub closed spec fn ids(&self) -> Seq<u64> {
        self.ids@
    }

    /// The records, in the order of `ids`.
    pub closed spec fn records(&self) -> Seq<RainGlareSettings> {
        self.records@
    }

    /// Every camera has exactly one record.
    pub open spec fn wf(&self) -> bool {
        &&& self.ids().len() == self.records().len()
        &&& self.ids().no_duplicates()
    }

    /// The record of camera `id`, if it has the effect enabled.
    pub open spec fn spec_get(&self, id: u64) -> Option<RainGlareSettings> {
        if self.ids().contains(id) {
            Some(self.records()[self.ids().index_of(id)])
        } else {
            None
        }
    }

    /// A registry without cameras.
    pub fn new() -> (r: SettingsRegistry)
        ensures
            r.wf(),
            r.ids().len() == 0,
    {
        SettingsRegistry { ids: Vec::new(), records: Vec::new() }
    }

    /// The number of cameras.
    pub fn len(&self) -> (n: usize)
        ensures
            n == self.ids().len(),
    {
        self.ids.len()
    }

    /// Where camera `id` stands among the cameras.
    pub fn position(&self, id: u64) -> (at: Option<usize>)
        requires
            self.wf(),
        ensures
            match at {
                Some(i) => i < self.ids().len() && self.ids()[i as int] == id
                    && self.ids().index_of(id) == i,
                None => !self.ids().contains(id),
            },
    {
        let mut i: usize = 0;
        while i < self.ids.len()
            invariant
                self.wf(),
                i <= self.ids@.len(),
                forall|k: int| 0 <= k < i ==> self.ids@[k] != id,
            decreases self.ids@.len() - i,
        {
            if self.ids[i] == id {
                proof {
                    lemma_index_of_unique(self.ids@, i as int);
                }
                return Some(i);
            }
            i += 1;
        }
        None
    }

    /// The record of camera `id`, if it has the effect enabled.
    pub fn get(&self, id: u64) -> (found: Option<RainGlareSettings>)
        requires
            self.wf(),
        ensures
            found == self.spec_get(id),
    {
        match self.position(id) {
            Some(i) => Some(self.records[i]),
            None => None,
        }
    }

    /// The camera at place `i` and its record.
    pub fn entry(&self, i: usize) -> (e: (u64, RainGlareSettings))
        requires
            self.wf(),
            i < self.ids().len(),
        ensures
            e.0 == self.ids()[i as int],
            e.1 == self.records()[i as int],
    {
        (self.ids[i], self.records[i])
    }

    /// Replaces the record at place `i`.
    pub fn set_at(&mut self, i: usize, settings: RainGlareSettings)
        requires
            old(self).wf(),
            i < old(self).ids().len(),
        ensures
            final(self).wf(),
            final(self).ids() == old(self).ids(),
            final(self).records() == old(self).records().update(i as int, settings),
    {
        self.records.set(i, settings);
    }

    /// Gives camera `id` the record `settings`: a camera that is new comes
    /// last, one that is known keeps its place and has its record replaced.
    /// Returns the record the camera had.
    pub fn insert(&mut self, id: u64, settings: RainGlareSettings) -> (previous: Option<
        RainGlareSettings,
    >)
        requires
            old(self).wf(),
        ensures
            final(self).wf(),
            previous == old(self).spec_get(id),
            old(self).ids().contains(id) ==> final(self).ids() == old(self).ids()
                && final(self).records() == old(self).records().update(
                old(self).ids().index_of(id),
                settings,
            ),
            !old(self).ids().contains(id) ==> final(self).ids() == old(self).ids().push(id)
                && final(self).records() == old(self).records().push(settings),
            forall|other: u64|
                #![trigger final(self).spec_get(other)]
                final(self).spec_get(other) == if other == id {
                    Some(settings)
                } else {
                    old(self).spec_get(other)
                },
    {
        let ghost before = *self;
        match self.position(id) {
            Some(i) => {
                let previous = self.records[i];
                self.records.set(i, settings);
                proof {
                    assert forall|other: u64| #![trigger self.spec_get(other)]
                        self.spec_get(other) == if other == id {
                            Some(settings)
                        } else {
                            before.spec_get(other)
                        } by {
                        if other != id && self.ids().contains(other) {
                            let j = self.ids().index_of(other);
                            assert(self.ids()[j] == other);
                        }
                    }
                }
                Some(previous)
            },
            None => {
                self.ids.push(id);
                self.records.push(settings);
                proof {
                    let n = before.ids().len() as int;
                    assert(self.ids()[n] == id);
                    assert forall|other: u64| #![trigger self.spec_get(other)]
                        self.spec_get(other) == if other == id {
                            Some(settings)
                        } else {
                            before.spec_get(other)
                        } by {
                        if other == id {
                            lemma_index_of_unique(self.ids(), n);
                        } else if before.ids().contains(other) {
                            let j = before.ids().index_of(other);
                            assert(self.ids()[j] == other);
                            lemma_index_of_unique(self.ids(), j);
                        } else if self.ids().contains(other) {
                            let j = self.ids().index_of(other);
                            assert(self.ids()[j] == other);
                            assert(before.ids()[j] == other);
                        }
                    }
                }
                None
            },
        }
    }

    /// Takes camera `id` and its record out; the cameras after it move up.
    /// Returns the record it had.
    pub fn remove(&mut self, id: u64) -> (removed: Option<RainGlareSettings>)
        requires
            old(self).wf(),
        ensures
            final(self).wf(),
            removed == old(self).spec_get(id),
            old(self).ids().contains(id) ==> final(self).ids() == old(self).ids().remove(
                old(self).ids().index_of(id),
            ) && final(self).records() == old(self).records().remove(old(self).ids().index_of(id)),
            !old(self).ids().contains(id) ==> final(self).ids() == old(self).ids()
                && final(self).records() == old(self).records(),
            forall|other: u64|
                #![trigger final(self).spec_get(other)]
                final(self).spec_get(other) == if other == id {
                    None
                } else {
                    old(self).spec_get(other)
                },
    {
        let ghost before = *self;
        match self.position(id) {
            Some(i) => {
                self.ids.remove(i);
                let removed = self.records.remove(i);
                proof {
                    let a = before.ids();
                    let b = self.ids();
                    assert forall|k: int| 0 <= k < b.len() implies b[k] == a[if k < i {
                        k
                    } else {
                        k + 1
                    }] by {}
                    assert(b.no_duplicates());
                    assert forall|other: u64| #![trigger self.spec_get(other)]
                        self.spec_get(other) == if other == id {
                            None
                        } else {
                            before.spec_get(other)
                        } by {
                        if b.contains(other) {
                            let k = b.index_of(other);
                            let j = if k < i {
                                k
                            } else {
                                k + 1
                            };
                            assert(a[j] == other);
                            lemma_index_of_unique(a, j);
                        } else if other != id && a.contains(other) {
                            let j = a.index_of(other);
                            assert(a[j] == other);
                            let k = if j < i {
                                j
                            } else {
                                j - 1
                            };
                            assert(b[k] == other);
                        }
                    }
                }
                Some(removed)
            },
            None => None,
        }
    }
}

} // verus!

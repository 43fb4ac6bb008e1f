//! The catalog of candidate libraries: an ordered list of paths, none of
//! them twice, in which at most one entry is selected.

use vstd::prelude::*;

verus! {

/// What registering a path did.
#[derive(Debug, Clone, Copy, PartialEq, Eq, Structural)]
pub enum AddOutcome {
    /// The path was appended.
    Added,
    /// The path was in the catalog already; nothing changed.
    AlreadyPresent,
}

/// The mathematical content of a [`LibraryCatalog`]: the paths in order, and
/// the index of the selected one.
pub ghost struct CatalogView {
    pub paths: Seq<Seq<char>>,
    pub selected: Option<int>,
}

impl CatalogView {
    /// No path occurs twice, and the selection, if any, is the index of an
    /// entry.
    pub open spec fn wf(self) -> bool {
        &&& self.paths.no_duplicates()
        &&& self.selected matches Some(i) ==> 0 <= i < self.paths.len()
    }

    /// The catalog after `path` was registered.
    pub open spec fn with_added(self, path: Seq<char>) -> CatalogView {
        if self.paths.contains(path) {
            self
        } else {
            CatalogView { paths: self.paths.push(path), selected: self.selected }
        }
    }

    /// What registering `path` reports.
    pub open spec fn add_outcome(self, path: Seq<char>) -> AddOutcome {
        if self.paths.contains(path) {
            AddOutcome::AlreadyPresent
        } else {
            AddOutcome::Added
        }
    }

    /// The catalog after the entry at `index` was taken out: a selection of
    /// that entry is cleared, a selection behind it moves down by one, and a
    /// selection before it stays.
    pub open spec fn without(self, index: int) -> CatalogView {
        CatalogView {
            paths: self.paths.remove(index),
            selected: match self.selected {
                Some(j) => if j == index {
                    None
                } else if j > index {
                    Some(j - 1)
                } else {
                    Some(j)
                },
                None => None,
            },
        }
    }

    /// The catalog with another selection.
    pub open spec fn with_selection(self, selected: Option<int>) -> CatalogView {
        CatalogView { paths: self.paths, selected }
    }

    /// The selected path, if an entry is selected.
    pub open spec fn selected_path(self) -> Option<Seq<char>> {
        match self.selected {
            Some(i) => Some(self.paths[i]),
            None => None,
        }
    }

    /// Registering a path keeps the catalog well formed.
    pub proof fn lemma_add_keeps_wf(self, path: Seq<char>)
        requires
            self.wf(),
        ensures
            self.with_added(path).wf(),
            self.with_added(path).paths.contains(path),
    {
        if !self.paths.contains(path) {
            let after = self.paths.push(path);
            assert(after[self.paths.len() as int] == path);
            assert forall|a: int, b: int| 0 <= a < after.len() && 0 <= b < after.len() && a
                != b implies after[a] != after[b] by {
                if a < self.paths.len() && b < self.paths.len() {
                } else if a < self.paths.len() {
                    assert(self.paths.contains(self.paths[a]));
                } else {
                    assert(self.paths.contains(self.paths[b]));
                }
            }
        }
    }

    /// Taking an entry out keeps the catalog well formed.
    pub proof fn lemma_remove_keeps_wf(self, index: int)
        requires
            self.wf(),
            0 <= index < self.paths.len(),
        ensures
            self.without(index).wf(),
            self.without(index).paths.len() == self.paths.len() - 1,
            !self.without(index).paths.contains(self.paths[index]),
    {
        let after = self.paths.remove(index);
        assert forall|a: int, b: int| 0 <= a < after.len() && 0 <= b < after.len() && a
            != b implies after[a] != after[b] by {
            let oa = if a < index {
                a
            } else {
                a + 1
            };
            let ob = if b < index {
                b
            } else {
                b + 1
            };
            assert(after[a] == self.paths[oa]);
            assert(after[b] == self.paths[ob]);
        }
        if after.contains(self.paths[index]) {
            let a = choose|a: int| 0 <= a < after.len() && after[a] == self.paths[index];
            let oa = if a < index {
                a
            } else {
                a + 1
            };
            assert(after[a] == self.paths[oa]);
        }
    }

    /// Registering the same path twice in a row: the second call reports that
    /// the path is present and changes nothing, so the catalog is as long as
    /// after the first.
    pub proof fn lemma_add_twice(self, path: Seq<char>)
        requires
            self.wf(),
        ensures
            self.with_added(path).add_outcome(path) == AddOutcome::AlreadyPresent,
            self.with_added(path).with_added(path) == self.with_added(path),
            self.with_added(path).with_added(path).paths.len() == self.with_added(
                path,
            ).paths.len(),
    {
        self.lemma_add_keeps_wf(path);
    }

    /// Taking out the entry at `index` makes the selection follow its entry:
    /// cleared if that entry was the one selected; one lower, and on the same
    /// path as before, if the selected entry stood behind it; unchanged, and
    /// on the same path, if it stood before it.
    pub proof fn lemma_remove_tracks_selection(self, index: int)
        requires
            self.wf(),
            0 <= index < self.paths.len(),
        ensures
            self.selected == Some(index) ==> self.without(index).selected.is_none(),
            forall|j: int|
                self.selected == Some(j) && j > index ==> self.without(index).selected == Some(
                    j - 1,
                ) && self.without(index).paths[j - 1] == self.paths[j],
            forall|j: int|
                self.selected == Some(j) && j < index ==> self.without(index).selected == Some(j)
                    && self.without(index).paths[j] == self.paths[j],
            self.selected.is_none() ==> self.without(index).selected.is_none(),
            self.selected != Some(index) ==> self.without(index).selected_path()
                == self.selected_path(),
    {
    }
}

/// The candidate libraries that the user registered, and the one selected.
#[derive(Debug)]
pub struct LibraryCatalog {
    paths: Vec<String>,
    selected: Option<usize>,
}

impl View for LibraryCatalog {
    type V = CatalogView;

    closed spec fn view(&self) -> CatalogView {
        CatalogView {
            paths: self.paths@.map_values(|p: String| p@),
            selected: match self.selected {
                Some(i) => Some(i as int),
                None => None,
            },
        }
    }
}

impl LibraryCatalog {
    /// An empty catalog with nothing selected.
    pub fn new() -> (r: LibraryCatalog)
        ensures
            r@.paths == Seq::<Seq<char>>::empty(),
            r@.selected.is_none(),
            r@.wf(),
    {
        let r = LibraryCatalog { paths: Vec::new(), selected: None };
        assert(r@.paths =~= Seq::<Seq<char>>::empty());
        r
    }

    /// The number of registered paths.
    pub fn len(&self) -> (r: usize)
        ensures
            r == self@.paths.len(),
    {
        self.paths.len()
    }

    /// Whether `path` is registered, by exact comparison.
    pub fn contains(&self, path: &String) -> (r: bool)
        ensures
            r == self@.paths.contains(path@),
    {
        let mut i: usize = 0;
        while i < self.paths.len()
            invariant
                0 <= i <= self.paths.len(),
                forall|j: int| 0 <= j < i ==> self@.paths[j] != path@,
            decreases self.paths.len() - i,
        {
            if self.paths[i] == *path {
                assert(self@.paths[i as int] == path@);
                return true;
            }
            i = i + 1;
        }
        false
    }

    /// Registers `path`: appends it unless it is present already, and says
    /// which of the two happened. The selection is not touched.
    pub fn add(&mut self, path: String) -> (r: AddOutcome)
        requires
            old(self)@.wf(),
        ensures
            final(self)@ == old(self)@.with_added(path@),
            r == old(self)@.add_outcome(path@),
            final(self)@.wf(),
    {
        proof {
            self@.lemma_add_keeps_wf(path@);
        }
        if self.contains(&path) {
            AddOutcome::AlreadyPresent
        } else {
            let ghost before = self@;
            self.paths.push(path);
            assert(self@.paths =~= before.paths.push(path@));
            AddOutcome::Added
        }
    }

    /// Takes out the entry at `index`. The entries behind it move down by
    /// one, and the selection follows its entry; it is cleared if that entry
    /// is the one taken out.
    pub fn remove(&mut self, index: usize)
        requires
            old(self)@.wf(),
            index < old(self)@.paths.len(),
        ensures
            final(self)@ == old(self)@.without(index as int),
            final(self)@.wf(),
    {
        proof {
            self@.lemma_remove_keeps_wf(index as int);
        }
        let ghost before = self@;
        let _ = self.paths.remove(index);
        assert(self@.paths =~= before.paths.remove(index as int));
        self.selected = match self.selected {
            Some(j) => {
                if j == index {
                    None
                } else if j > index {
                    Some(j - 1)
                } else {
                    Some(j)
                }
            },
            None => None,
        };
    }

    /// Selects the entry at `index`, or clears the selection with `None`.
    pub fn select(&mut self, index: Option<usize>)
        requires
            old(self)@.wf(),
            index matches Some(i) ==> i < old(self)@.paths.len(),
        ensures
            final(self)@ == old(self)@.with_selection(
                match index {
                    Some(i) => Some(i as int),
                    None => None,
                },
            ),
            final(self)@.wf(),
    {
        self.selected = index;
    }

    /// The index of the selected entry.
    pub fn selected_dll(&self) -> (r: Option<usize>)
        ensures
            match r {
                Some(i) => self@.selected == Some(i as int),
                None => self@.selected.is_none(),
            },
    {
        self.selected
    }

    /// A copy of the selected path.
    pub fn selected_path(&self) -> (r: Option<String>)
        requires
            self@.wf(),
        ensures
            match r {
                Some(p) => self@.selected_path() == Some(p@),
                None => self@.selected_path().is_none(),
            },
    {
        match self.selected {
            Some(i) => Some(self.paths[i].clone()),
            None => None,
        }
    }

    /// The registered paths, in the order in which they were added.
    pub fn get_dlls(&self) -> (r: &Vec<String>)
        ensures
            r@.map_values(|p: String| p@) == self@.paths,
    {
        &self.paths
    }
}

} // verus!

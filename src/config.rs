//! The records that the processes share through their settings files: the
//! tracked folders with their retention thresholds, and the general settings.

use vstd::prelude::*;

verus! {

/// The retention threshold, in days, given to a newly tracked folder.
pub const DEFAULT_DAYS: u32 = 200;

/// A monitored directory and its retention threshold in days.
pub struct TrackedFolder {
    pub path: String,
    pub days: u32,
}

/// All monitored directories. No two of them have the same path once built
/// through [`FolderConfig::track`].
pub struct FolderConfig {
    pub folders: Vec<TrackedFolder>,
}

/// General settings: the last known path of the executable.
pub struct Settings {
    pub exec_path: Option<String>,
}

impl FolderConfig {
    /// Whether a folder with path `p` is tracked.
    pub open spec fn tracks(&self, p: Seq<char>) -> bool {
        exists|i: int| 0 <= i < self.folders@.len() && #[trigger] self.folders@[i].path@ == p
    }

    /// No path is tracked twice.
    pub open spec fn paths_unique(&self) -> bool {
        forall|i: int, j: int|
            0 <= i < self.folders@.len() && 0 <= j < self.folders@.len() && i != j
                ==> self.folders@[i].path@ != self.folders@[j].path@
    }

    /// A configuration that tracks nothing.
    pub fn new() -> (r: FolderConfig)
        ensures
            r.folders@.len() == 0,
    {
        FolderConfig { folders: Vec::new() }
    }

    /// Whether a folder with this path is tracked.
    pub fn is_tracked(&self, path: &String) -> (r: bool)
        ensures
            r == self.tracks(path@),
    {
        let mut i: usize = 0;
        while i < self.folders.len()
            invariant
                i <= self.folders@.len(),
                forall|k: int| 0 <= k < i ==> #[trigger] self.folders@[k].path@ != path@,
            decreases self.folders@.len() - i,
        {
            if self.folders[i].path == *path {
                return true;
            }
            i = i + 1;
        }
        false
    }

    /// Starts tracking `path` with the default threshold, unless it is tracked
    /// already. Returns whether it was added.
    pub fn track(&mut self, path: String) -> (r: bool)
        ensures
            r == !old(self).tracks(path@),
            r ==> final(self).folders@.len() == old(self).folders@.len() + 1
                && final(self).folders@.drop_last() == old(self).folders@
                && final(self).folders@.last().path == path
                && final(self).folders@.last().days == DEFAULT_DAYS,
            !r ==> final(self).folders@ == old(self).folders@,
            old(self).paths_unique() ==> final(self).paths_unique(),
    {
        if self.is_tracked(&path) {
            false
        } else {
            self.folders.push(TrackedFolder { path, days: DEFAULT_DAYS });
            assert(self.folders@.drop_last() =~= old(self).folders@);
            true
        }
    }

    /// Stops tracking the folder at `index` and returns it.
    pub fn untrack(&mut self, index: usize) -> (r: TrackedFolder)
        requires
            index < old(self).folders@.len(),
        ensures
            r == old(self).folders@[index as int],
            final(self).folders@ == old(self).folders@.remove(index as int),
            old(self).paths_unique() ==> final(self).paths_unique(),
    {
        let r = self.folders.remove(index);
        proof {
            let before = old(self).folders@;
            let after = self.folders@;
            assert forall|i: int, j: int|
                0 <= i < after.len() && 0 <= j < after.len() && i != j && before.len() > 0
                    && old(self).paths_unique()
                implies after[i].path@ != after[j].path@ by {
                let bi = if i < index { i } else { i + 1 };
                let bj = if j < index { j } else { j + 1 };
                assert(after[i] == before[bi]);
                assert(after[j] == before[bj]);
            }
        }
        r
    }
}

/// The saved executable path of the settings, if one was saved.
pub fn get_exec_path(settings: &Settings) -> (r: Option<String>)
    ensures
        r == settings.exec_path,
{
    settings.exec_path.clone()
}

impl Settings {
    /// Records `path` as the executable's path, keeping the other settings.
    pub fn set_exec_path(&mut self, path: String)
        ensures
            final(self).exec_path == Some(path),
    {
        self.exec_path = Some(path);
    }
}

} // verus!

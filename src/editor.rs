//! The editor's state: the tracked folders, the activity log it shows, and the
//! startup switch; and what each of the editor's commands does to them.

use vstd::prelude::*;
use crate::config::{FolderConfig, TrackedFolder, DEFAULT_DAYS};
use crate::text::{decimal, push_decimal};

verus! {

/// The state behind the editor window.
pub struct AutoCleanerApp {
    pub config: FolderConfig,
    /// The activity log, one line per command.
    pub log: String,
    pub run_at_startup: bool,
}

/// The log line for a folder that was added.
pub open spec fn added_line(path: Seq<char>) -> Seq<char> {
    "\u{2714} Added: "@ + path + "\n"@
}

/// The log line for a folder that was tracked already.
pub open spec fn already_tracked_line(path: Seq<char>) -> Seq<char> {
    "\u{26a0} Already tracked: "@ + path + "\n"@
}

/// The log line for a scan that found `count` expired files.
pub open spec fn scan_line(count: nat, days: nat, path: Seq<char>) -> Seq<char> {
    "\u{1f50d} "@ + decimal(count) + " files older than "@ + decimal(days) + " days in "@ + path + "\n"@
}

/// The log line for a cleanup that removed `count` files.
pub open spec fn removal_line(count: nat, days: nat, path: Seq<char>) -> Seq<char> {
    "\u{1f5d1} Removed "@ + decimal(count) + " files older than "@ + decimal(days) + " days from "@ + path
        + "\n"@
}

/// The log line for a folder that is no longer tracked.
pub open spec fn untracked_line(path: Seq<char>) -> Seq<char> {
    "\u{274c} Folder removed from tracking: "@ + path + "\n"@
}

/// The log line for a change of the startup switch.
pub open spec fn startup_line(enabled: bool) -> Seq<char> {
    if enabled {
        "\u{1f501} Startup enabled\n"@
    } else {
        "\u{1f501} Startup disabled\n"@
    }
}

impl AutoCleanerApp {
    /// The editor's state on opening: the loaded folders, an empty log, and the
    /// startup switch as registered.
    pub fn new(config: FolderConfig, run_at_startup: bool) -> (r: AutoCleanerApp)
        ensures
            r.config == config,
            r.log@.len() == 0,
            r.run_at_startup == run_at_startup,
    {
        AutoCleanerApp { config, log: String::new(), run_at_startup }
    }

    /// Starts tracking a chosen folder with the default threshold, unless it
    /// is tracked already, and logs which of the two happened. Returns whether
    /// the folder was added (the configuration is then to be saved).
    pub fn add_folder(&mut self, path: String) -> (r: bool)
        ensures
            r == !old(self).config.tracks(path@),
            r ==> final(self).config.folders@.len() == old(self).config.folders@.len() + 1
                && final(self).config.folders@.drop_last() == old(self).config.folders@
                && final(self).config.folders@.last().path == path
                && final(self).config.folders@.last().days == DEFAULT_DAYS,
            !r ==> final(self).config.folders@ == old(self).config.folders@,
            r ==> final(self).log@ == old(self).log@ + added_line(path@),
            !r ==> final(self).log@ == old(self).log@ + already_tracked_line(path@),
            final(self).run_at_startup == old(self).run_at_startup,
    {
        let ghost p = path@;
        let mut line = String::new();
        line.append(path.as_str());
        let added = self.config.track(path);
        if added {
            self.log.append("\u{2714} Added: ");
        } else {
            self.log.append("\u{26a0} Already tracked: ");
        }
        self.log.append(line.as_str());
        self.log.append("\n");
        assert(added ==> self.log@ =~= old(self).log@ + added_line(p));
        assert(!added ==> self.log@ =~= old(self).log@ + already_tracked_line(p));
        added
    }

    /// Logs the result of scanning the folder at `index`: `count` expired files.
    pub fn record_scan(&mut self, index: usize, count: usize)
        requires
            index < old(self).config.folders@.len(),
        ensures
            final(self).log@ == old(self).log@ + scan_line(
                count as nat,
                old(self).config.folders@[index as int].days as nat,
                old(self).config.folders@[index as int].path@,
            ),
            final(self).config == old(self).config,
            final(self).run_at_startup == old(self).run_at_startup,
    {
        self.log.append("\u{1f50d} ");
        push_decimal(&mut self.log, count as u64);
        self.log.append(" files older than ");
        push_decimal(&mut self.log, self.config.folders[index].days as u64);
        self.log.append(" days in ");
        self.log.append(self.config.folders[index].path.as_str());
        self.log.append("\n");
        let ghost f = self.config.folders@[index as int];
        assert(self.log@ =~= old(self).log@ + scan_line(count as nat, f.days as nat, f.path@));
    }

    /// Logs the result of cleaning the folder at `index`: `count` files removed.
    pub fn record_removal(&mut self, index: usize, count: usize)
        requires
            index < old(self).config.folders@.len(),
        ensures
            final(self).log@ == old(self).log@ + removal_line(
                count as nat,
                old(self).config.folders@[index as int].days as nat,
                old(self).config.folders@[index as int].path@,
            ),
            final(self).config == old(self).config,
            final(self).run_at_startup == old(self).run_at_startup,
    {
        self.log.append("\u{1f5d1} Removed ");
        push_decimal(&mut self.log, count as u64);
        self.log.append(" files older than ");
        push_decimal(&mut self.log, self.config.folders[index].days as u64);
        self.log.append(" days from ");
        self.log.append(self.config.folders[index].path.as_str());
        self.log.append("\n");
        let ghost f = self.config.folders@[index as int];
        assert(self.log@ =~= old(self).log@ + removal_line(count as nat, f.days as nat, f.path@));
    }

    /// Stops tracking the folder at `index`, logs it, and returns it (the
    /// configuration is then to be saved).
    pub fn untrack(&mut self, index: usize) -> (r: TrackedFolder)
        requires
            index < old(self).config.folders@.len(),
        ensures
            r == old(self).config.folders@[index as int],
            final(self).config.folders@ == old(self).config.folders@.remove(index as int),
            final(self).log@ == old(self).log@ + untracked_line(r.path@),
            final(self).run_at_startup == old(self).run_at_startup,
    {
        let removed = self.config.untrack(index);
        self.log.append("\u{274c} Folder removed from tracking: ");
        self.log.append(removed.path.as_str());
        self.log.append("\n");
        assert(self.log@ =~= old(self).log@ + untracked_line(removed.path@));
        removed
    }

    /// Sets the startup switch as the user toggled it, and logs the change
    /// (the registration is then to be persisted).
    pub fn set_run_at_startup(&mut self, enabled: bool)
        ensures
            final(self).run_at_startup == enabled,
            final(self).log@ == old(self).log@ + startup_line(enabled),
            final(self).config == old(self).config,
    {
        self.run_at_startup = enabled;
        if enabled {
            self.log.append("\u{1f501} Startup enabled\n");
        } else {
            self.log.append("\u{1f501} Startup disabled\n");
        }
    }

    /// Empties the activity log.
    pub fn clear_log(&mut self)
        ensures
            final(self).log@.len() == 0,
            final(self).config == old(self).config,
            final(self).run_at_startup == old(self).run_at_startup,
    {
        self.log = String::new();
    }
}

} // verus!

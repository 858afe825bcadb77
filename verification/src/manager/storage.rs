//! The history store: where the persisted history lives, what is made of
//! what was read from it, and the retention rules.

use crate::dbus::types::{Notification, NotificationView};
use crate::time::Timestamp;
use std::collections::VecDeque;
use vstd::prelude::*;

verus! {

/// The views of a run of notifications.
pub open spec fn notification_views(items: Seq<Notification>) -> Seq<NotificationView> {
    items.map_values(|n: Notification| n@)
}

/// The last `cap` items of `items`, or all of them where there are no more
/// than `cap`: what is left when a full queue drops its oldest.
pub open spec fn newest<T>(items: Seq<T>, cap: nat) -> Seq<T> {
    if items.len() > cap {
        items.subrange(items.len() - cap, items.len() as int)
    } else {
        items
    }
}

/// Whether a notification received at `received` is within `days` days of
/// `now`.
pub open spec fn within_retention(received: Timestamp, now: Timestamp, days: u32) -> bool {
    received.total_nanos() >= now.total_nanos() - days * 86_400 * 1_000_000_000
}

/// The test that the retention rule applies to each notification.
pub open spec fn retained(now: Timestamp, days: u32) -> spec_fn(NotificationView) -> bool {
    |n: NotificationView| within_retention(n.timestamp, now, days)
}

/// The history that the retention rule leaves: all of it where no
/// retention period is set, else the notifications within the period, in
/// their order.
pub open spec fn after_retention(
    history: Seq<NotificationView>,
    retention_days: Option<u32>,
    now: Timestamp,
) -> Seq<NotificationView> {
    match retention_days {
        Some(days) => history.filter(retained(now, days)),
        None => history,
    }
}

/// The permissions of the history file: read and write for its owner and
/// nobody else.
pub const STORAGE_FILE_MODE: u32 = 0o600;

/// What an attempt to read the persisted history came to.
#[derive(Debug)]
pub enum LoadOutcome {
    /// The file was read and parsed; the notifications are in file order.
    Loaded(Vec<Notification>),
    /// There is no history file.
    Missing,
    /// The file is there and could not be read.
    Unreadable,
    /// The file was read and is no list of notifications.
    Corrupt,
}

/// The notifications that a load outcome stands for: the loaded ones as
/// they are, or none where nothing could be loaded.
pub open spec fn loaded_items(outcome: LoadOutcome) -> Seq<Notification> {
    match outcome {
        LoadOutcome::Loaded(items) => items@,
        _ => Seq::empty(),
    }
}

/// The history that a load outcome stands for, by its views.
pub open spec fn loaded_history(outcome: LoadOutcome) -> Seq<NotificationView> {
    notification_views(loaded_items(outcome))
}

/// Whether none of the notifications carries raw hints.
pub open spec fn without_raw_hints(items: Seq<Notification>) -> bool {
    forall|i: int| 0 <= i < items.len() ==> (#[trigger] items[i]).raw_hints.entries().len() == 0
}

/// Round trip: the history that is made of a list that was saved for a
/// history holds the same notifications in the same order, each as it
/// was but for its raw hints, of which it has none.
pub proof fn law_save_load_round_trip(history: Seq<Notification>, saved: Vec<Notification>)
    requires
        notification_views(saved@) == notification_views(history),
        without_raw_hints(saved@),
    ensures
        loaded_items(LoadOutcome::Loaded(saved)).len() == history.len(),
        loaded_history(LoadOutcome::Loaded(saved)) == notification_views(history),
        without_raw_hints(loaded_items(LoadOutcome::Loaded(saved))),
{
    assert(notification_views(saved@).len() == saved@.len());
    assert(notification_views(history).len() == history.len());
}

/// Where the history is kept on disk.
#[derive(Debug)]
pub struct HistoryStorage {
    storage_path: String,
}

/// The path of `file` in the applet's directory under `config_dir`.
pub open spec fn applet_file(config_dir: Seq<char>, file: Seq<char>) -> Seq<char> {
    config_dir + "/cosmic/com.system76.CosmicAppletNotifications/v1/"@ + file
}

/// The path of `file` in the applet's directory below the user's
/// configuration directory, or below the working directory where the user
/// has none.
pub fn applet_path(config_dir: Option<&str>, file: &str) -> (path: String)
    ensures
        path@ == applet_file(
            match config_dir {
                Some(dir) => dir@,
                None => "."@,
            },
            file@,
        ),
{
    let base = match config_dir {
        Some(dir) => dir,
        None => ".",
    };
    let mut path = base.to_owned();
    path.append("/cosmic/com.system76.CosmicAppletNotifications/v1/");
    path.append(file);
    path
}

impl HistoryStorage {
    /// The store for the history file below the user's configuration
    /// directory, or below the working directory where there is none.
    pub fn new(config_dir: Option<&str>) -> (s: HistoryStorage)
        ensures
            s.path_spec() == applet_file(
                match config_dir {
                    Some(dir) => dir@,
                    None => "."@,
                },
                "history.ron"@,
            ),
    {
        HistoryStorage { storage_path: applet_path(config_dir, "history.ron") }
    }

    /// The store for the history file at `path`.
    pub fn at(path: String) -> (s: HistoryStorage)
        ensures
            s.path_spec() == path@,
    {
        HistoryStorage { storage_path: path }
    }

    /// The characters of the storage path.
    pub closed spec fn path_spec(&self) -> Seq<char> {
        self.storage_path@
    }

    /// Get storage file path.
    pub fn path(&self) -> (p: &String)
        ensures
            p@ == self.path_spec(),
    {
        &self.storage_path
    }

    /// The history to start from after an attempt to load it: what was
    /// loaded, oldest first, or an empty history where the file is missing,
    /// unreadable or corrupt.
    pub fn load(outcome: LoadOutcome) -> (history: VecDeque<Notification>)
        ensures
            history@ == loaded_items(outcome),
            notification_views(history@) == loaded_history(outcome),
    {
        let mut history: VecDeque<Notification> = VecDeque::new();
        match outcome {
            LoadOutcome::Loaded(items) => {
                let ghost all = items@;
                let mut items = items;
                let mut taken: usize = 0;
                let n = items.len();
                while items.len() > 0
                    invariant
                        taken + items.len() == n,
                        n == all.len(),
                        history@ == all.subrange(0, taken as int),
                        items@ == all.subrange(taken as int, n as int),
                    decreases items.len(),
                {
                    let item = items.remove(0);
                    history.push_back(item);
                    taken += 1;
                    proof {
                        assert(history@ =~= all.subrange(0, taken as int));
                        assert(items@ =~= all.subrange(taken as int, n as int));
                    }
                }
                proof {
                    assert(history@ =~= all);
                }
            },
            _ => {},
        }
        history
    }

    /// The list to persist for a history: a copy of each notification,
    /// oldest first.
    pub fn save(history: &VecDeque<Notification>) -> (items: Vec<Notification>)
        ensures
            notification_views(items@) == notification_views(history@),
            without_raw_hints(items@),
    {
        let mut items: Vec<Notification> = Vec::new();
        let mut i: usize = 0;
        while i < history.len()
            invariant
                i <= history.len(),
                items.len() == i,
                forall|k: int|
                    0 <= k < i ==> (#[trigger] items[k])@ == history@[k]@
                        && items[k].raw_hints.entries().len() == 0,
            decreases history.len() - i,
        {
            items.push(history[i].clone());
            i += 1;
        }
        proof {
            assert(notification_views(items@) =~= notification_views(history@));
        }
        items
    }

    /// A copy of a queue of notifications: a clone of each, in their
    /// order.
    pub fn copy(items: &VecDeque<Notification>) -> (copied: VecDeque<Notification>)
        ensures
            notification_views(copied@) == notification_views(items@),
            without_raw_hints(copied@),
    {
        let mut copied: VecDeque<Notification> = VecDeque::new();
        let mut i: usize = 0;
        while i < items.len()
            invariant
                i <= items@.len(),
                copied@.len() == i,
                forall|k: int|
                    0 <= k < i ==> (#[trigger] copied@[k])@ == items@[k]@
                        && copied@[k].raw_hints.entries().len() == 0,
            decreases items@.len() - i,
        {
            copied.push_back(items[i].clone());
            i += 1;
        }
        proof {
            assert(notification_views(copied@) =~= notification_views(items@));
        }
        copied
    }

    /// Clean up old notifications based on the retention policy, as of the
    /// system clock's time.
    ///
    /// Removes notifications older than the given number of days and
    /// returns how many were removed. With no retention period nothing is
    /// removed.
    pub fn cleanup_old_notifications(
        history: &mut VecDeque<Notification>,
        retention_days: Option<u32>,
    ) -> (removed: usize)
        ensures
            exists|now: Timestamp|
                now.clock_reading() && notification_views(final(history)@) == #[trigger] after_retention(
                    notification_views(old(history)@),
                    retention_days,
                    now,
                ),
            removed == old(history)@.len() - final(history)@.len(),
    {
        let now = Timestamp::now();
        Self::cleanup_older_than(history, retention_days, &now)
    }

    /// Clean up old notifications based on the retention policy, as of
    /// `now`: with a retention period of some days, the notifications that
    /// were received more than that many days before `now` are removed and
    /// the others keep their order. Returns how many were removed.
    pub fn cleanup_older_than(
        history: &mut VecDeque<Notification>,
        retention_days: Option<u32>,
        now: &Timestamp,
    ) -> (removed: usize)
        ensures
            notification_views(final(history)@) == after_retention(
                notification_views(old(history)@),
                retention_days,
                *now,
            ),
            removed == old(history)@.len() - final(history)@.len(),
    {
        let days = match retention_days {
            Some(days) => days,
            None => {
                return 0;
            },
        };
        let ghost before = notification_views(history@);
        let ghost keep = retained(*now, days);
        let length_before = history.len();
        let mut kept: VecDeque<Notification> = VecDeque::new();
        let mut seen: usize = 0;
        proof {
            reveal(Seq::filter);
            assert(before.subrange(0, 0) =~= Seq::empty());
        }
        while history.len() > 0
            invariant
                seen + history.len() == length_before,
                length_before == before.len(),
                keep == retained(*now, days),
                notification_views(history@) == before.subrange(seen as int, length_before as int),
                notification_views(kept@) == before.subrange(0, seen as int).filter(keep),
                kept@.len() <= seen,
            decreases history.len(),
        {
            let ghost rest = history@;
            let item = history.pop_front().unwrap();
            proof {
                assert(history@ =~= rest.subrange(1, rest.len() as int));
                assert(item@ == notification_views(rest)[0]);
                assert(item@ == before[seen as int]);
                assert(before.subrange(0, seen as int + 1) =~= before.subrange(0, seen as int).push(
                    before[seen as int],
                ));
                before.subrange(0, seen as int).lemma_filter_push(before[seen as int], keep);
                assert forall|k: int| 0 <= k < history@.len() implies notification_views(
                    history@,
                )[k] == before[seen + 1 + k] by {
                    assert(history@[k] == rest[k + 1]);
                    assert(notification_views(rest)[k + 1] == before.subrange(
                        seen as int,
                        length_before as int,
                    )[k + 1]);
                }
                assert(notification_views(history@) =~= before.subrange(
                    seen as int + 1,
                    length_before as int,
                ));
            }
            if item.timestamp.within_days_of(now, days) {
                let ghost kept_before = kept@;
                kept.push_back(item);
                proof {
                    assert(notification_views(kept@) =~= notification_views(kept_before).push(
                        item@,
                    ));
                }
            }
            seen += 1;
        }
        proof {
            assert(before.subrange(0, length_before as int) =~= before);
        }
        let removed = length_before - kept.len();
        *history = kept;
        removed
    }

    /// Enforce maximum history size.
    ///
    /// Removes the oldest notifications, at the front, until no more than
    /// `max_items` are left, and returns how many were removed.
    pub fn enforce_size_limit(history: &mut VecDeque<Notification>, max_items: usize) -> (removed:
        usize)
        ensures
            final(history)@ == newest(old(history)@, max_items as nat),
            removed == old(history)@.len() - final(history)@.len(),
            final(history)@.len() <= max_items,
    {
        if history.len() <= max_items {
            return 0;
        }
        let to_remove = history.len() - max_items;
        let ghost before = history@;
        let mut done: usize = 0;
        while done < to_remove
            invariant
                done <= to_remove,
                to_remove == before.len() - max_items,
                history@ == before.subrange(done as int, before.len() as int),
            decreases to_remove - done,
        {
            history.pop_front();
            done += 1;
            proof {
                assert(history@ =~= before.subrange(done as int, before.len() as int));
            }
        }
        to_remove
    }
}

} // verus!

//! The notification manager: active set, history, filters and expiry.
//!
//! The manager is owned by one consumer and changed by nobody else. A
//! notification is recorded in the history when it is admitted, and only
//! then: removal, eviction and clearing take it from the active set and
//! leave the history as it is.

pub mod laws;
pub mod storage;

use crate::dbus::types::{Notification, NotificationView, Urgency};
use crate::manager::storage::{
    after_retention, newest, notification_views, without_raw_hints, HistoryStorage,
};
use crate::string_map::StringMap;
use crate::time::Timestamp;
use std::collections::VecDeque;
use vstd::prelude::*;

verus! {

/// Number of notifications that a manager keeps in its history unless it
/// is told another.
pub const MAX_HISTORY_SIZE: usize = 100;

/// Maximum number of active notifications to display simultaneously.
pub const MAX_ACTIVE_NOTIFICATIONS: usize = 10;

/// Timeout in seconds of a notification that asks for the default.
pub const DEFAULT_TIMEOUT_SECONDS: i64 = 5;

/// Action taken when adding a notification.
#[derive(Debug, Clone, Copy, PartialEq, Eq, Structural)]
pub enum NotificationAction {
    /// Notification was displayed to the user.
    Displayed,
    /// Notification was added to history only (filtered).
    AddedToHistoryOnly,
}

/// Whether the per-application filters let `app_name` through: an
/// application is shown unless a filter says otherwise.
pub open spec fn app_allowed(app_filters: Map<Seq<char>, bool>, app_name: Seq<char>) -> bool {
    app_filters.contains_key(app_name) ==> app_filters[app_name]
}

/// The filter cascade. In order of precedence: a notification below the
/// minimum urgency is filtered; a critical one is then shown unless its
/// application is denied; any other is filtered while Do Not Disturb is
/// on, and else shown unless its application is denied.
pub open spec fn passes_filters(
    min_urgency_level: u8,
    do_not_disturb: bool,
    app_filters: Map<Seq<char>, bool>,
    n: NotificationView,
) -> bool {
    if n.hints.urgency.level() < min_urgency_level {
        false
    } else if n.hints.urgency == Urgency::Critical {
        app_allowed(app_filters, n.app_name)
    } else if do_not_disturb {
        false
    } else {
        app_allowed(app_filters, n.app_name)
    }
}

/// Whether some notification among `items` has the id `id`.
pub open spec fn has_id(items: Seq<NotificationView>, id: u32) -> bool {
    exists|i: int| 0 <= i < items.len() && (#[trigger] items[i]).id == id
}

/// Whether `i` is the first place among `items` that holds the id `id`.
pub open spec fn is_first_with_id(items: Seq<NotificationView>, id: u32, i: int) -> bool {
    &&& 0 <= i < items.len()
    &&& items[i].id == id
    &&& forall|j: int| 0 <= j < i ==> (#[trigger] items[j]).id != id
}

/// The first place among `items` that holds the id `id`; meaningful where
/// `has_id` holds.
pub open spec fn first_with_id(items: Seq<NotificationView>, id: u32) -> int {
    choose|i: int| is_first_with_id(items, id, i)
}

/// `items` without the first notification that has the id `id`.
pub open spec fn without_id(items: Seq<NotificationView>, id: u32) -> Seq<NotificationView> {
    if has_id(items, id) {
        items.remove(first_with_id(items, id))
    } else {
        items
    }
}

/// The history after `n` is offered to it: a transient notification is
/// never recorded; any other is appended, and the oldest entries leave
/// until no more than `cap` are held.
pub open spec fn recorded(history: Seq<NotificationView>, n: NotificationView, cap: usize) -> Seq<
    NotificationView,
> {
    if n.hints.transient {
        history
    } else {
        newest(history.push(n), cap as nat)
    }
}

/// The timeout in whole seconds that `expire_timeout` milliseconds stand
/// for: the default where it is 0, else the milliseconds cut to seconds.
pub open spec fn timeout_seconds(expire_timeout: i32) -> int {
    if expire_timeout == 0 {
        DEFAULT_TIMEOUT_SECONDS as int
    } else {
        expire_timeout as int / 1000
    }
}

/// Whether `n` has expired at `now`: it has a timeout (a negative
/// `expire_timeout`, -1 or any other, means none), it is not resident, and
/// more time than the timeout has passed since it was received.
pub open spec fn expired_at(n: NotificationView, now: Timestamp) -> bool {
    &&& n.expire_timeout >= 0
    &&& !n.hints.resident
    &&& now.total_nanos() - n.timestamp.total_nanos() > timeout_seconds(n.expire_timeout)
        * 1_000_000_000
}

/// The expiry test at `now`, as a predicate.
pub open spec fn expired(now: Timestamp) -> spec_fn(NotificationView) -> bool {
    |n: NotificationView| expired_at(n, now)
}

/// The ids of the notifications among `active` that have expired at
/// `now`, in their order.
pub open spec fn expired_ids(active: Seq<NotificationView>, now: Timestamp) -> Seq<u32> {
    active.filter(expired(now)).map_values(|n: NotificationView| n.id)
}

/// The test for an urgency, as a predicate.
pub open spec fn of_urgency(urgency: Urgency) -> spec_fn(NotificationView) -> bool {
    |n: NotificationView| n.hints.urgency == urgency
}

/// The id that follows `id`: one more, and 1 after the largest. 0 stands
/// for "no id" and follows none.
pub open spec fn following_id(id: u32) -> u32 {
    if id == u32::MAX {
        1
    } else {
        (id + 1) as u32
    }
}

/// The id that lies `k` steps after `from`, 0 skipped: `from` itself for
/// no step, and after the largest id the count goes on at 1. Meant for a
/// start that is not 0 and fewer steps than there are ids.
pub open spec fn id_counted_from(from: u32, k: nat) -> u32
    recommends
        from != 0,
        k < u32::MAX,
{
    if from + k <= u32::MAX {
        (from + k) as u32
    } else {
        (from + k - u32::MAX) as u32
    }
}

/// Whether the id `k` steps after `from` is the first, counted from
/// `from`, that none of `items` holds.
pub open spec fn is_first_free(items: Seq<NotificationView>, from: u32, k: nat) -> bool {
    &&& !has_id(items, id_counted_from(from, k))
    &&& forall|j: nat| j < k ==> has_id(items, #[trigger] id_counted_from(from, j))
}

/// The first id, counted from `from` and skipping 0, that none of `items`
/// holds.
pub open spec fn free_id(items: Seq<NotificationView>, from: u32) -> u32 {
    id_counted_from(from, choose|k: nat| is_first_free(items, from, k))
}

/// The state of a manager.
pub struct ManagerView {
    /// The displayed notifications, oldest first.
    pub active: Seq<NotificationView>,
    /// The recorded notifications, oldest first.
    pub history: Seq<NotificationView>,
    /// The most that the history holds.
    pub max_history_items: usize,
    /// How many days the history is kept, if there is a limit.
    pub history_retention_days: Option<u32>,
    /// The id from which the id of the next notification without one is
    /// sought: that id itself unless an active notification holds it.
    pub next_id: u32,
    pub do_not_disturb: bool,
    pub app_filters: Map<Seq<char>, bool>,
    pub min_urgency_level: u8,
}

impl ManagerView {
    /// What holds of every manager: the two sets are within their bounds,
    /// the minimum urgency is a tier's number, and the next id is not 0,
    /// which stands for "no id".
    pub open spec fn valid(self) -> bool {
        &&& self.active.len() <= MAX_ACTIVE_NOTIFICATIONS
        &&& self.history.len() <= self.max_history_items
        &&& self.min_urgency_level <= 2
        &&& self.next_id != 0
    }

    /// The state of a new manager.
    pub open spec fn initial() -> ManagerView {
        ManagerView {
            active: Seq::empty(),
            history: Seq::empty(),
            max_history_items: MAX_HISTORY_SIZE,
            history_retention_days: None,
            next_id: 1,
            do_not_disturb: false,
            app_filters: Map::empty(),
            min_urgency_level: 0,
        }
    }

    /// The state of a manager made from a loaded history at `now`: the
    /// history tidied by age and then by size, and the two limits kept.
    pub open spec fn seeded(
        history: Seq<NotificationView>,
        max_history_items: usize,
        retention_days: Option<u32>,
        now: Timestamp,
    ) -> ManagerView {
        ManagerView {
            history: newest(
                after_retention(history, retention_days, now),
                max_history_items as nat,
            ),
            max_history_items,
            history_retention_days: retention_days,
            ..ManagerView::initial()
        }
    }

    /// Whether the filters let `n` be displayed.
    pub open spec fn displays(self, n: NotificationView) -> bool {
        passes_filters(self.min_urgency_level, self.do_not_disturb, self.app_filters, n)
    }

    /// `n` with the id that the manager gives it: its own where it has
    /// one, else the first id, counted from the manager's next id, that no
    /// active notification holds.
    pub open spec fn stamped(self, n: NotificationView) -> NotificationView {
        if n.id == 0 {
            NotificationView { id: free_id(self.active, self.next_id), ..n }
        } else {
            n
        }
    }

    /// The next id after `n` was given its id: the id that follows the one
    /// it was given, where the manager gave it.
    pub open spec fn next_id_after(self, n: NotificationView) -> u32 {
        if n.id == 0 {
            following_id(self.stamped(n).id)
        } else {
            self.next_id
        }
    }

    /// The active set once the notification that `n` replaces, if any,
    /// has left it.
    pub open spec fn active_after_replacement(self, n: NotificationView) -> Seq<NotificationView> {
        if n.replaces_id != 0 {
            without_id(self.active, n.replaces_id)
        } else {
            self.active
        }
    }

    /// The state after `n` is added.
    pub open spec fn add(self, n: NotificationView) -> ManagerView {
        let stamped = self.stamped(n);
        let active = self.active_after_replacement(stamped);
        ManagerView {
            active: if self.displays(stamped) {
                newest(active.push(stamped), MAX_ACTIVE_NOTIFICATIONS as nat)
            } else {
                active
            },
            history: recorded(self.history, stamped, self.max_history_items),
            next_id: self.next_id_after(n),
            ..self
        }
    }

    /// What adding `n` reports.
    pub open spec fn add_outcome(self, n: NotificationView) -> NotificationAction {
        if self.displays(self.stamped(n)) {
            NotificationAction::Displayed
        } else {
            NotificationAction::AddedToHistoryOnly
        }
    }

    /// The state after the notification with the id `id` is removed.
    pub open spec fn remove(self, id: u32) -> ManagerView {
        ManagerView { active: without_id(self.active, id), ..self }
    }

    /// The state after the history was tidied at `now`: first by age, then
    /// by size.
    pub open spec fn cleanup(self, max_items: usize, retention_days: Option<u32>, now: Timestamp)
        -> ManagerView {
        ManagerView {
            history: newest(after_retention(self.history, retention_days, now), max_items as nat),
            ..self
        }
    }
}

/// The first occurrence of an id is where `first_with_id` points.
pub proof fn lemma_first_with_id(items: Seq<NotificationView>, id: u32, i: int)
    requires
        is_first_with_id(items, id, i),
    ensures
        has_id(items, id),
        first_with_id(items, id) == i,
{
    let j = first_with_id(items, id);
    assert(is_first_with_id(items, id, j));
    if j < i {
        assert(items[j].id != id);
    }
    if i < j {
        assert(items[i].id != id);
    }
}

/// Counting one step further is taking the following id, and no id that
/// is counted from an id is 0.
pub proof fn lemma_id_counted_on(from: u32, k: nat)
    requires
        from != 0,
        k + 1 < u32::MAX,
    ensures
        id_counted_from(from, 0) == from,
        id_counted_from(from, k) != 0,
        id_counted_from(from, k + 1) == following_id(id_counted_from(from, k)),
{
}

/// Different numbers of steps from one id lead to different ids.
pub proof fn lemma_counted_ids_differ(from: u32, j: nat, k: nat)
    requires
        from != 0,
        j < k < u32::MAX,
    ensures
        id_counted_from(from, j) != id_counted_from(from, k),
{
}

/// Where the first `t` ids counted from `from` are all held, at least `t`
/// notifications hold them.
pub proof fn lemma_held_ids_fit(items: Seq<NotificationView>, from: u32, t: nat)
    requires
        from != 0,
        t < u32::MAX,
        forall|j: nat| j < t ==> has_id(items, #[trigger] id_counted_from(from, j)),
    ensures
        items.len() >= t,
    decreases t,
{
    if t > 0 {
        let last = (t - 1) as nat;
        let id = id_counted_from(from, last);
        assert(has_id(items, id));
        let w = choose|i: int| 0 <= i < items.len() && (#[trigger] items[i]).id == id;
        let rest = items.remove(w);
        assert forall|j: nat| j < last implies has_id(rest, #[trigger] id_counted_from(from, j)) by {
            let held = id_counted_from(from, j);
            lemma_counted_ids_differ(from, j, last);
            assert(has_id(items, held));
            let i = choose|i: int| 0 <= i < items.len() && (#[trigger] items[i]).id == held;
            let at = if i < w {
                i
            } else {
                i - 1
            };
            assert(rest[at] == items[i]);
        }
        lemma_held_ids_fit(rest, from, last);
    }
}

/// Where the first `k` ids counted from `from` are all held, a first free
/// id follows within as many steps as there are notifications.
pub proof fn lemma_first_free_from(items: Seq<NotificationView>, from: u32, k: nat)
    requires
        from != 0,
        items.len() + 1 < u32::MAX,
        k <= items.len(),
        forall|j: nat| j < k ==> has_id(items, #[trigger] id_counted_from(from, j)),
    ensures
        exists|f: nat| f <= items.len() && is_first_free(items, from, f),
    decreases items.len() - k,
{
    if has_id(items, id_counted_from(from, k)) {
        lemma_held_ids_fit(items, from, k + 1);
        lemma_first_free_from(items, from, k + 1);
    } else {
        assert(is_first_free(items, from, k));
    }
}

/// The first free id is where any first free place points.
pub proof fn lemma_first_free_is_unique(items: Seq<NotificationView>, from: u32, k: nat)
    requires
        is_first_free(items, from, k),
    ensures
        free_id(items, from) == id_counted_from(from, k),
{
    let chosen = choose|f: nat| is_first_free(items, from, f);
    assert(is_first_free(items, from, chosen));
    if chosen < k {
        assert(has_id(items, id_counted_from(from, chosen)));
    }
    if k < chosen {
        assert(has_id(items, id_counted_from(from, k)));
    }
}

/// The first free id counted from an id is not 0, none of the
/// notifications holds it, and it is the start itself where that is free.
pub proof fn lemma_free_id(items: Seq<NotificationView>, from: u32)
    requires
        from != 0,
        items.len() + 1 < u32::MAX,
    ensures
        free_id(items, from) != 0,
        !has_id(items, free_id(items, from)),
        !has_id(items, from) ==> free_id(items, from) == from,
        exists|k: nat|
            k <= items.len() && is_first_free(items, from, k) && free_id(items, from)
                == id_counted_from(from, k),
{
    lemma_first_free_from(items, from, 0);
    let k = choose|f: nat| f <= items.len() && is_first_free(items, from, f);
    lemma_first_free_is_unique(items, from, k);
    lemma_id_counted_on(from, k);
    if !has_id(items, from) {
        assert(is_first_free(items, from, 0));
        lemma_first_free_is_unique(items, from, 0);
    }
}

/// Notification manager state.
///
/// Manages active notifications, history, and filtering. All operations
/// are synchronous and leave the sets within their bounds.
#[derive(Debug)]
pub struct NotificationManager {
    /// Active (visible) notifications, oldest first.
    active_notifications: VecDeque<Notification>,
    /// Historical notifications, oldest first.
    notification_history: VecDeque<Notification>,
    /// The most that the history holds.
    max_history_items: usize,
    /// How many days the history is kept, if there is a limit.
    history_retention_days: Option<u32>,
    /// Next notification ID counter; never 0.
    next_id: u32,
    /// Do Not Disturb mode.
    do_not_disturb: bool,
    /// Application filters (app_name -> should_show).
    app_filters: StringMap<bool>,
    /// Minimum urgency level to display (0=Low, 1=Normal, 2=Critical).
    min_urgency_level: u8,
}

impl View for NotificationManager {
    type V = ManagerView;

    closed spec fn view(&self) -> ManagerView {
        ManagerView {
            active: notification_views(self.active_notifications@),
            history: notification_views(self.notification_history@),
            max_history_items: self.max_history_items,
            history_retention_days: self.history_retention_days,
            next_id: self.next_id,
            do_not_disturb: self.do_not_disturb,
            app_filters: self.app_filters@,
            min_urgency_level: self.min_urgency_level,
        }
    }
}

impl Clone for NotificationManager {
    /// A manager in the same state, its notifications cloned.
    fn clone(&self) -> (m: NotificationManager)
        ensures
            m@ == self@,
    {
        proof {
            use_type_invariant(self);
        }
        let active = HistoryStorage::copy(&self.active_notifications);
        let history = HistoryStorage::copy(&self.notification_history);
        let filters = self.app_filters.clone();
        proof {
            assert(filters.entries() =~= self.app_filters.entries());
            assert(notification_views(active@).len() == active@.len());
            assert(notification_views(history@).len() == history@.len());
            assert(notification_views(self.active_notifications@).len()
                == self.active_notifications@.len());
            assert(notification_views(self.notification_history@).len()
                == self.notification_history@.len());
        }
        NotificationManager {
            active_notifications: active,
            notification_history: history,
            max_history_items: self.max_history_items,
            history_retention_days: self.history_retention_days,
            next_id: self.next_id,
            do_not_disturb: self.do_not_disturb,
            app_filters: filters,
            min_urgency_level: self.min_urgency_level,
        }
    }
}

impl Default for NotificationManager {
    fn default() -> (m: NotificationManager)
        ensures
            m@ == ManagerView::initial(),
    {
        NotificationManager::new()
    }
}

impl NotificationManager {
    #[verifier::type_invariant]
    closed spec fn well_formed(&self) -> bool {
        &&& self.active_notifications@.len() <= MAX_ACTIVE_NOTIFICATIONS
        &&& self.notification_history@.len() <= self.max_history_items
        &&& self.min_urgency_level <= 2
        &&& self.next_id != 0
    }

    /// Create a new notification manager: nothing active, nothing
    /// recorded, every notification shown.
    pub fn new() -> (m: NotificationManager)
        ensures
            m@ == ManagerView::initial(),
            m@.valid(),
    {
        let m = NotificationManager {
            active_notifications: VecDeque::new(),
            notification_history: VecDeque::with_capacity(MAX_HISTORY_SIZE),
            max_history_items: MAX_HISTORY_SIZE,
            history_retention_days: None,
            next_id: 1,
            do_not_disturb: false,
            app_filters: StringMap::new(),
            min_urgency_level: 0,
        };
        proof {
            assert(m@.active =~= Seq::empty());
            assert(m@.history =~= Seq::empty());
        }
        m
    }

    /// Check if a notification should be displayed: the filter cascade on
    /// its urgency, Do Not Disturb and its application's filter.
    pub fn should_display(&self, notification: &Notification) -> (r: bool)
        ensures
            r == self@.displays(notification@),
    {
        let urgency = notification.urgency();
        if urgency.to_u8() < self.min_urgency_level {
            return false;
        }
        if urgency == Urgency::Critical {
            return match self.app_filters.get(notification.app_name.as_str()) {
                Some(should_show) => *should_show,
                None => true,
            };
        }
        if self.do_not_disturb {
            return false;
        }
        match self.app_filters.get(notification.app_name.as_str()) {
            Some(should_show) => *should_show,
            None => true,
        }
    }

    /// Set Do Not Disturb mode.
    pub fn set_do_not_disturb(&mut self, enabled: bool)
        ensures
            final(self)@ == (ManagerView { do_not_disturb: enabled, ..old(self)@ }),
            final(self)@.valid(),
    {
        proof {
            use_type_invariant(&*self);
        }
        self.do_not_disturb = enabled;
    }

    /// Check if Do Not Disturb is enabled.
    pub fn is_do_not_disturb(&self) -> (r: bool)
        ensures
            r == self@.do_not_disturb,
    {
        self.do_not_disturb
    }

    /// Set minimum urgency level filter: only notifications of at least
    /// this level are displayed. A level above 2 counts as 2.
    pub fn set_min_urgency_level(&mut self, level: u8)
        ensures
            final(self)@ == (ManagerView {
                min_urgency_level: if level <= 2 {
                    level
                } else {
                    2
                },
                ..old(self)@
            }),
            final(self)@.valid(),
    {
        proof {
            use_type_invariant(&*self);
        }
        self.min_urgency_level = if level <= 2 { level } else { 2 };
    }

    /// Get minimum urgency level.
    pub fn min_urgency_level(&self) -> (r: u8)
        ensures
            r == self@.min_urgency_level,
            r <= 2,
    {
        proof {
            use_type_invariant(self);
        }
        self.min_urgency_level
    }

    /// Get number of active notifications.
    pub fn active_count(&self) -> (n: usize)
        ensures
            n == self@.active.len(),
            n <= MAX_ACTIVE_NOTIFICATIONS,
    {
        proof {
            use_type_invariant(self);
        }
        self.active_notifications.len()
    }

    /// Get active notifications, oldest first.
    pub fn active_notifications(&self) -> (r: &VecDeque<Notification>)
        ensures
            notification_views(r@) == self@.active,
    {
        &self.active_notifications
    }

    /// Get notification history, oldest first.
    pub fn history(&self) -> (r: &VecDeque<Notification>)
        ensures
            notification_views(r@) == self@.history,
    {
        &self.notification_history
    }

    /// Clear notification history.
    pub fn clear_history(&mut self)
        ensures
            final(self)@ == (ManagerView { history: Seq::empty(), ..old(self)@ }),
            final(self)@.valid(),
    {
        proof {
            use_type_invariant(&*self);
        }
        self.notification_history = VecDeque::new();
        proof {
            assert(self@.history =~= Seq::empty());
        }
    }

    /// Clear all active notifications. Each of them was recorded in the
    /// history when it was admitted, unless it is transient, and is not
    /// recorded again.
    pub fn clear_all(&mut self)
        ensures
            final(self)@ == (ManagerView { active: Seq::empty(), ..old(self)@ }),
            final(self)@.valid(),
    {
        proof {
            use_type_invariant(&*self);
        }
        self.active_notifications = VecDeque::new();
        proof {
            assert(self@.active =~= Seq::empty());
        }
    }
}

/// The views of a run of notifications with one more at its end.
pub proof fn lemma_views_push(items: Seq<Notification>, n: Notification)
    ensures
        notification_views(items.push(n)) == notification_views(items).push(n@),
{
    assert(notification_views(items.push(n)) =~= notification_views(items).push(n@));
}

/// The views of the newest of a run are the newest of its views.
pub proof fn lemma_views_newest(items: Seq<Notification>, cap: nat)
    ensures
        notification_views(newest(items, cap)) == newest(notification_views(items), cap),
{
    assert(notification_views(newest(items, cap)) =~= newest(notification_views(items), cap));
}

/// The views of a run without one of its items.
pub proof fn lemma_views_remove(items: Seq<Notification>, i: int)
    requires
        0 <= i < items.len(),
    ensures
        notification_views(items.remove(i)) == notification_views(items).remove(i),
{
    assert(notification_views(items.remove(i)) =~= notification_views(items).remove(i));
}

impl NotificationManager {
    /// The place of the first active notification with the id `id`.
    fn position_of(&self, id: u32) -> (r: Option<usize>)
        ensures
            match r {
                Some(i) => is_first_with_id(self@.active, id, i as int),
                None => !has_id(self@.active, id),
            },
    {
        let mut i: usize = 0;
        while i < self.active_notifications.len()
            invariant
                i <= self.active_notifications@.len(),
                forall|j: int| 0 <= j < i ==> (#[trigger] self@.active[j]).id != id,
            decreases self.active_notifications@.len() - i,
        {
            if self.active_notifications[i].id == id {
                proof {
                    assert(self@.active[i as int].id == id);
                }
                return Some(i);
            }
            proof {
                assert(self@.active[i as int].id != id);
            }
            i += 1;
        }
        None
    }

    /// The id for a notification that came without one: the first,
    /// counted from the manager's next id and skipping 0, that no active
    /// notification holds.
    fn unused_id(&self) -> (id: u32)
        ensures
            id == free_id(self@.active, self@.next_id),
            id != 0,
            !has_id(self@.active, id),
    {
        proof {
            use_type_invariant(self);
            assert(notification_views(self.active_notifications@).len()
                == self.active_notifications@.len());
        }
        let mut id = self.next_id;
        let ghost mut steps: nat = 0;
        loop
            invariant
                self.next_id != 0,
                self@.next_id == self.next_id,
                self@.active.len() <= MAX_ACTIVE_NOTIFICATIONS,
                steps <= self@.active.len(),
                id == id_counted_from(self.next_id, steps),
                forall|j: nat| j < steps ==> has_id(
                    self@.active,
                    #[trigger] id_counted_from(self.next_id, j),
                ),
            decreases self@.active.len() - steps,
        {
            proof {
                lemma_id_counted_on(self.next_id, steps);
            }
            if self.position_of(id).is_none() {
                proof {
                    lemma_first_free_is_unique(self@.active, self.next_id, steps);
                }
                return id;
            }
            proof {
                lemma_held_ids_fit(self@.active, self.next_id, steps + 1);
                steps = steps + 1;
            }
            id = if id == u32::MAX {
                1
            } else {
                id + 1
            };
        }
    }

    /// Remove a notification by ID.
    ///
    /// Takes the first active notification with this id out of the active
    /// set and returns whether there was one. The history is left as it
    /// is: what is removed was recorded when it was admitted.
    pub fn remove_notification(&mut self, id: u32) -> (found: bool)
        ensures
            final(self)@ == old(self)@.remove(id),
            found == has_id(old(self)@.active, id),
            final(self)@.valid(),
    {
        proof {
            use_type_invariant(&*self);
        }
        match self.position_of(id) {
            Some(i) => {
                let mut active: VecDeque<Notification> = VecDeque::new();
                core::mem::swap(&mut active, &mut self.active_notifications);
                let ghost before = active@;
                active.remove(i);
                proof {
                    lemma_first_with_id(notification_views(before), id, i as int);
                    lemma_views_remove(before, i as int);
                }
                self.active_notifications = active;
                true
            },
            None => false,
        }
    }

    /// Get notification by ID: the first active notification that has it.
    pub fn get_notification(&self, id: u32) -> (r: Option<&Notification>)
        ensures
            match r {
                Some(n) => has_id(self@.active, id) && n@ == self@.active[first_with_id(
                    self@.active,
                    id,
                )],
                None => !has_id(self@.active, id),
            },
    {
        match self.position_of(id) {
            Some(i) => {
                proof {
                    lemma_first_with_id(self@.active, id, i as int);
                }
                Some(&self.active_notifications[i])
            },
            None => None,
        }
    }

    /// Get the active notification at `index`, counted from the oldest.
    pub fn get_notification_at(&self, index: usize) -> (r: Option<&Notification>)
        ensures
            match r {
                Some(n) => index < self@.active.len() && n@ == self@.active[index as int],
                None => index >= self@.active.len(),
            },
    {
        if index < self.active_notifications.len() {
            Some(&self.active_notifications[index])
        } else {
            None
        }
    }

    /// Add notification to history: a transient notification is not
    /// recorded; any other is appended, and the oldest entries leave until
    /// the history is within the manager's cap. Nothing else changes.
    pub fn add_to_history(&mut self, notification: Notification)
        ensures
            final(self)@ == (ManagerView {
                history: recorded(
                    old(self)@.history,
                    notification@,
                    old(self)@.max_history_items,
                ),
                ..old(self)@
            }),
            old(self)@.valid(),
            final(self)@.valid(),
            final(self)@.active == old(self)@.active,
            final(self)@.history.len() <= old(self)@.max_history_items,
            notification@.hints.transient ==> final(self)@.history == old(self)@.history,
            !notification@.hints.transient ==> final(self)@.history == newest(
                old(self)@.history.push(notification@),
                old(self)@.max_history_items as nat,
            ),
            !notification@.hints.transient ==> final(self)@.history.len() == (if old(self)@.history.len()
                < old(self)@.max_history_items {
                old(self)@.history.len() + 1
            } else {
                old(self)@.max_history_items as nat
            }),
            !notification@.hints.transient && old(self)@.max_history_items > 0
                ==> final(self)@.history.last() == notification@,
    {
        proof {
            use_type_invariant(&*self);
            assert(notification_views(self.notification_history@).len()
                == self.notification_history@.len());
            assert(notification_views(self.active_notifications@).len()
                == self.active_notifications@.len());
        }
        if notification.is_transient() {
            return ;
        }
        let mut history: VecDeque<Notification> = VecDeque::new();
        core::mem::swap(&mut history, &mut self.notification_history);
        let ghost before = history@;
        history.push_back(notification);
        HistoryStorage::enforce_size_limit(&mut history, self.max_history_items);
        proof {
            lemma_views_push(before, notification);
            lemma_views_newest(before.push(notification), self.max_history_items as nat);
        }
        self.notification_history = history;
    }

    /// Add a new notification.
    ///
    /// A notification without an id is given the first id, counted from
    /// the manager's next id and skipping 0, that no active notification
    /// holds; the manager's next id is then the one that follows it. The
    /// active notification that it replaces, if any, is removed first,
    /// whether or not the new one is shown. The notification is recorded in
    /// the history unless it is transient. Where the filters let it pass
    /// it joins the active set, whose oldest entries leave until no more
    /// than `MAX_ACTIVE_NOTIFICATIONS` are active.
    pub fn add_notification(&mut self, notification: Notification) -> (r: NotificationAction)
        ensures
            final(self)@ == old(self)@.add(notification@),
            r == old(self)@.add_outcome(notification@),
            final(self)@.valid(),
    {
        proof {
            use_type_invariant(&*self);
        }
        let ghost given = notification@;
        let mut notification = notification;
        if notification.id == 0 {
            let id = self.unused_id();
            notification.id = id;
            self.next_id = if id == u32::MAX {
                1
            } else {
                id + 1
            };
        }
        assert(notification@ == old(self)@.stamped(given));
        if notification.replaces_id != 0 {
            self.remove_notification(notification.replaces_id);
        }
        if !self.should_display(&notification) {
            self.add_to_history(notification);
            return NotificationAction::AddedToHistoryOnly;
        }
        self.add_to_history(notification.clone());
        proof {
            use_type_invariant(&*self);
        }
        let mut active: VecDeque<Notification> = VecDeque::new();
        core::mem::swap(&mut active, &mut self.active_notifications);
        let ghost before = active@;
        active.push_back(notification);
        HistoryStorage::enforce_size_limit(&mut active, MAX_ACTIVE_NOTIFICATIONS);
        proof {
            lemma_views_push(before, notification);
            lemma_views_newest(before.push(notification), MAX_ACTIVE_NOTIFICATIONS as nat);
        }
        self.active_notifications = active;
        NotificationAction::Displayed
    }

    /// Check if a notification has expired at `now`.
    ///
    /// A negative `expire_timeout` means that the notification never
    /// expires: -1 by the protocol, any other as a defensive reading of an
    /// invalid value. A resident notification never expires. Any other
    /// expires once it is older than its timeout in whole seconds, which
    /// is `DEFAULT_TIMEOUT_SECONDS` where it asked for the default.
    pub fn is_expired(notification: &Notification, now: &Timestamp) -> (r: bool)
        ensures
            r == expired_at(notification@, *now),
    {
        if notification.expire_timeout < 0 {
            return false;
        }
        if notification.is_resident() {
            return false;
        }
        let timeout_seconds: i64 = if notification.expire_timeout == 0 {
            DEFAULT_TIMEOUT_SECONDS
        } else {
            (notification.expire_timeout as u32 / 1000) as i64
        };
        now.later_by_more_than(&notification.timestamp, timeout_seconds)
    }

    /// The ids of the active notifications that have expired at `now`,
    /// oldest first. The manager is left as it is: the caller removes them.
    pub fn expired_notifications_at(&self, now: &Timestamp) -> (ids: Vec<u32>)
        ensures
            ids@ == expired_ids(self@.active, *now),
    {
        let mut ids: Vec<u32> = Vec::new();
        let ghost active = self@.active;
        let ghost test = expired(*now);
        let mut i: usize = 0;
        proof {
            reveal(Seq::filter);
            assert(active.subrange(0, 0) =~= Seq::empty());
            assert(ids@ =~= active.subrange(0, 0).filter(test).map_values(
                |n: NotificationView| n.id,
            ));
        }
        while i < self.active_notifications.len()
            invariant
                i <= self.active_notifications@.len(),
                active == self@.active,
                test == expired(*now),
                ids@ == active.subrange(0, i as int).filter(test).map_values(
                    |n: NotificationView| n.id,
                ),
            decreases self.active_notifications@.len() - i,
        {
            let n = &self.active_notifications[i];
            proof {
                assert(n@ == active[i as int]);
                assert(active.subrange(0, i as int + 1) =~= active.subrange(0, i as int).push(
                    active[i as int],
                ));
                active.subrange(0, i as int).lemma_filter_push(active[i as int], test);
            }
            if Self::is_expired(n, now) {
                let ghost ids_before = ids@;
                ids.push(n.id);
                proof {
                    assert(ids@ =~= active.subrange(0, i as int + 1).filter(test).map_values(
                        |n: NotificationView| n.id,
                    ));
                }
            }
            i += 1;
        }
        proof {
            assert(active.subrange(0, i as int) =~= active);
        }
        ids
    }

    /// Get notifications that should expire, as of the system clock's
    /// time: the ids of the active notifications that have exceeded their
    /// timeout.
    pub fn get_expired_notifications(&self) -> (ids: Vec<u32>)
        ensures
            exists|now: Timestamp|
                now.clock_reading() && ids@ == #[trigger] expired_ids(self@.active, now),
    {
        let now = Timestamp::now();
        self.expired_notifications_at(&now)
    }

    /// Set application filter. If `should_show` is false, notifications
    /// from this app will only go to history.
    pub fn set_app_filter(&mut self, app_name: String, should_show: bool)
        ensures
            final(self)@ == (ManagerView {
                app_filters: old(self)@.app_filters.insert(app_name@, should_show),
                ..old(self)@
            }),
            final(self)@.valid(),
    {
        proof {
            use_type_invariant(&*self);
        }
        let mut filters: StringMap<bool> = StringMap::new();
        core::mem::swap(&mut filters, &mut self.app_filters);
        filters.insert(app_name, should_show);
        self.app_filters = filters;
    }

    /// Remove application filter.
    pub fn remove_app_filter(&mut self, app_name: &str)
        ensures
            final(self)@ == (ManagerView {
                app_filters: old(self)@.app_filters.remove(app_name@),
                ..old(self)@
            }),
            final(self)@.valid(),
    {
        proof {
            use_type_invariant(&*self);
        }
        let mut filters: StringMap<bool> = StringMap::new();
        core::mem::swap(&mut filters, &mut self.app_filters);
        filters.remove(app_name);
        self.app_filters = filters;
    }

    /// Get all application filters.
    pub fn app_filters(&self) -> (r: &StringMap<bool>)
        ensures
            r@ == self@.app_filters,
    {
        &self.app_filters
    }

    /// Load app filters: replaces the existing filters with the given map.
    pub fn load_app_filters(&mut self, filters: StringMap<bool>)
        ensures
            final(self)@ == (ManagerView { app_filters: filters@, ..old(self)@ }),
            final(self)@.valid(),
    {
        proof {
            use_type_invariant(&*self);
        }
        self.app_filters = filters;
    }

    /// Set the most that the history holds. Where it holds more, the
    /// oldest entries leave at once.
    pub fn set_max_history_items(&mut self, max_items: usize)
        ensures
            final(self)@ == (ManagerView {
                max_history_items: max_items,
                history: newest(old(self)@.history, max_items as nat),
                ..old(self)@
            }),
            final(self)@.valid(),
    {
        proof {
            use_type_invariant(&*self);
        }
        let mut history: VecDeque<Notification> = VecDeque::new();
        core::mem::swap(&mut history, &mut self.notification_history);
        let ghost before = history@;
        HistoryStorage::enforce_size_limit(&mut history, max_items);
        proof {
            lemma_views_newest(before, max_items as nat);
        }
        self.max_history_items = max_items;
        self.notification_history = history;
    }

    /// The most that the history holds.
    pub fn max_history_items(&self) -> (r: usize)
        ensures
            r == self@.max_history_items,
    {
        self.max_history_items
    }

    /// Set how many days the history is kept; `None` sets no limit. The
    /// history is trimmed by it when it is next tidied.
    pub fn set_history_retention_days(&mut self, retention_days: Option<u32>)
        ensures
            final(self)@ == (ManagerView {
                history_retention_days: retention_days,
                ..old(self)@
            }),
            final(self)@.valid(),
    {
        proof {
            use_type_invariant(&*self);
        }
        self.history_retention_days = retention_days;
    }

    /// How many days the history is kept, if there is a limit.
    pub fn history_retention_days(&self) -> (r: Option<u32>)
        ensures
            r == self@.history_retention_days,
    {
        self.history_retention_days
    }

    /// Clean up old notifications from history as of `now`: first those
    /// older than the retention period, then the oldest until no more than
    /// `max_items` are left. Returns the number of notifications removed.
    pub fn cleanup_history_at(
        &mut self,
        max_items: usize,
        retention_days: Option<u32>,
        now: &Timestamp,
    ) -> (removed: usize)
        ensures
            final(self)@ == old(self)@.cleanup(max_items, retention_days, *now),
            removed == old(self)@.history.len() - final(self)@.history.len(),
            final(self)@.valid(),
    {
        proof {
            use_type_invariant(&*self);
        }
        let mut history: VecDeque<Notification> = VecDeque::new();
        core::mem::swap(&mut history, &mut self.notification_history);
        let ghost before = history@;
        let by_age = HistoryStorage::cleanup_older_than(&mut history, retention_days, now);
        let ghost aged = history@;
        let by_size = HistoryStorage::enforce_size_limit(&mut history, max_items);
        proof {
            lemma_views_newest(aged, max_items as nat);
            assert(notification_views(before).len() == before.len());
            assert(notification_views(aged).len() == aged.len());
            assert(notification_views(history@).len() == history@.len());
            if retention_days is Some {
                notification_views(before).lemma_filter_len(
                    crate::manager::storage::retained(*now, retention_days->0),
                );
            }
        }
        self.notification_history = history;
        by_age + by_size
    }

    /// Clean up old notifications from history, as of the system clock's
    /// time. Returns the number of notifications removed.
    pub fn cleanup_history(&mut self, max_items: usize, retention_days: Option<u32>) -> (removed:
        usize)
        ensures
            exists|now: Timestamp|
                now.clock_reading() && final(self)@ == #[trigger] old(self)@.cleanup(
                    max_items,
                    retention_days,
                    now,
                ),
            removed == old(self)@.history.len() - final(self)@.history.len(),
            final(self)@.valid(),
    {
        let now = Timestamp::now();
        self.cleanup_history_at(max_items, retention_days, &now)
    }

    /// The list to persist for the current history: a copy of each
    /// recorded notification, oldest first.
    pub fn save_history(&self) -> (items: Vec<Notification>)
        ensures
            notification_views(items@) == self@.history,
            without_raw_hints(items@),
    {
        HistoryStorage::save(&self.notification_history)
    }

    /// Create a notification manager from a loaded history, as of `now`:
    /// the history is tidied by the retention period and the size limit,
    /// which the manager keeps; nothing is active and every notification
    /// is shown.
    pub fn with_history_at(
        history: VecDeque<Notification>,
        max_history_items: usize,
        retention_days: Option<u32>,
        now: &Timestamp,
    ) -> (m: NotificationManager)
        ensures
            m@ == ManagerView::seeded(
                notification_views(history@),
                max_history_items,
                retention_days,
                *now,
            ),
            m@.valid(),
    {
        let mut history = history;
        HistoryStorage::cleanup_older_than(&mut history, retention_days, now);
        let ghost aged = history@;
        HistoryStorage::enforce_size_limit(&mut history, max_history_items);
        proof {
            lemma_views_newest(aged, max_history_items as nat);
        }
        let m = NotificationManager {
            active_notifications: VecDeque::new(),
            notification_history: history,
            max_history_items,
            history_retention_days: retention_days,
            next_id: 1,
            do_not_disturb: false,
            app_filters: StringMap::new(),
            min_urgency_level: 0,
        };
        proof {
            assert(m@.active =~= Seq::empty());
        }
        m
    }

    /// Create a notification manager with a history loaded from disk,
    /// tidied as of the system clock's time.
    pub fn with_history(
        history: VecDeque<Notification>,
        max_history_items: usize,
        retention_days: Option<u32>,
    ) -> (m: NotificationManager)
        ensures
            exists|now: Timestamp|
                now.clock_reading() && m@ == #[trigger] ManagerView::seeded(
                    notification_views(history@),
                    max_history_items,
                    retention_days,
                    now,
                ),
            m@.valid(),
    {
        let now = Timestamp::now();
        Self::with_history_at(history, max_history_items, retention_days, &now)
    }
}

/// The views of a run of notifications that are held by reference.
pub open spec fn borrowed_views(items: Seq<&Notification>) -> Seq<NotificationView> {
    items.map_values(|n: &Notification| n@)
}

/// The test for an application's name, as a predicate.
pub open spec fn from_app(app_name: Seq<char>) -> spec_fn(NotificationView) -> bool {
    |n: NotificationView| n.app_name == app_name
}

/// The notifications among `active` that the application `app_name`
/// sent, in their order.
pub open spec fn group_of(active: Seq<NotificationView>, app_name: Seq<char>) -> Seq<
    NotificationView,
> {
    active.filter(from_app(app_name))
}

/// What one more notification does to the group of an application: it
/// joins the group of its own application and no other.
pub proof fn lemma_group_push(active: Seq<NotificationView>, n: NotificationView, app: Seq<char>)
    ensures
        group_of(active.push(n), app) == if n.app_name == app {
            group_of(active, app).push(n)
        } else {
            group_of(active, app)
        },
{
    active.lemma_filter_push(n, from_app(app));
}

impl NotificationManager {
    /// Get notifications filtered by urgency: the active notifications of
    /// this urgency, oldest first.
    pub fn get_by_urgency(&self, urgency: Urgency) -> (found: Vec<&Notification>)
        ensures
            borrowed_views(found@) == self@.active.filter(of_urgency(urgency)),
    {
        let mut found: Vec<&Notification> = Vec::new();
        let ghost active = self@.active;
        let ghost test = of_urgency(urgency);
        let mut i: usize = 0;
        proof {
            reveal(Seq::filter);
            assert(active.subrange(0, 0) =~= Seq::empty());
            assert(borrowed_views(found@) =~= active.subrange(0, 0).filter(test));
        }
        while i < self.active_notifications.len()
            invariant
                i <= self.active_notifications@.len(),
                active == self@.active,
                test == of_urgency(urgency),
                borrowed_views(found@) == active.subrange(0, i as int).filter(test),
            decreases self.active_notifications@.len() - i,
        {
            let n = &self.active_notifications[i];
            proof {
                assert(n@ == active[i as int]);
                assert(active.subrange(0, i as int + 1) =~= active.subrange(0, i as int).push(
                    active[i as int],
                ));
                active.subrange(0, i as int).lemma_filter_push(active[i as int], test);
            }
            if n.urgency() == urgency {
                let ghost before = found@;
                found.push(n);
                proof {
                    assert(borrowed_views(found@) =~= borrowed_views(before).push(n@));
                }
            }
            i += 1;
        }
        proof {
            assert(active.subrange(0, i as int) =~= active);
        }
        found
    }

    /// Get notifications grouped by application: under each application's
    /// name the active notifications that it sent, oldest first. An
    /// application without an active notification has no entry.
    pub fn get_notifications_by_app(&self) -> (grouped: StringMap<Vec<&Notification>>)
        ensures
            forall|app: Seq<char>| #[trigger]
                grouped@.contains_key(app) <==> group_of(self@.active, app).len() > 0,
            forall|app: Seq<char>| #[trigger]
                grouped@.contains_key(app) ==> borrowed_views(grouped@[app]@) == group_of(
                    self@.active,
                    app,
                ),
    {
        let mut grouped: StringMap<Vec<&Notification>> = StringMap::new();
        let ghost active = self@.active;
        let mut i: usize = 0;
        proof {
            reveal(Seq::filter);
            assert(active.subrange(0, 0) =~= Seq::empty());
        }
        while i < self.active_notifications.len()
            invariant
                i <= self.active_notifications@.len(),
                active == self@.active,
                forall|app: Seq<char>| #[trigger]
                    grouped@.contains_key(app) <==> group_of(
                        active.subrange(0, i as int),
                        app,
                    ).len() > 0,
                forall|app: Seq<char>| #[trigger]
                    grouped@.contains_key(app) ==> borrowed_views(grouped@[app]@) == group_of(
                        active.subrange(0, i as int),
                        app,
                    ),
            decreases self.active_notifications@.len() - i,
        {
            let n = &self.active_notifications[i];
            let ghost seen = active.subrange(0, i as int);
            let ghost before = grouped@;
            proof {
                assert(n@ == active[i as int]);
                assert(active.subrange(0, i as int + 1) =~= seen.push(n@));
            }
            let mut group: Vec<&Notification> = Vec::new();
            match grouped.get(n.app_name.as_str()) {
                Some(held) => {
                    let mut k: usize = 0;
                    while k < held.len()
                        invariant
                            k <= held@.len(),
                            group@ == held@.subrange(0, k as int),
                        decreases held@.len() - k,
                    {
                        group.push(held[k]);
                        k += 1;
                        proof {
                            assert(group@ =~= held@.subrange(0, k as int));
                        }
                    }
                    proof {
                        assert(group@ =~= held@);
                    }
                },
                None => {
                    proof {
                        assert(borrowed_views(group@) =~= Seq::empty());
                    }
                },
            }
            proof {
                assert(borrowed_views(group@) == group_of(seen, n@.app_name));
            }
            let ghost group_before = group@;
            group.push(n);
            proof {
                assert(borrowed_views(group@) =~= borrowed_views(group_before).push(n@));
            }
            grouped.insert(n.app_name.clone(), group);
            proof {
                assert forall|app: Seq<char>| #[trigger]
                    grouped@.contains_key(app) <==> group_of(seen.push(n@), app).len() > 0 by {
                    lemma_group_push(seen, n@, app);
                    assert(before.contains_key(app) <==> group_of(seen, app).len() > 0);
                }
                assert forall|app: Seq<char>| #[trigger]
                    grouped@.contains_key(app) implies borrowed_views(grouped@[app]@) == group_of(
                    seen.push(n@),
                    app,
                ) by {
                    lemma_group_push(seen, n@, app);
                    if app != n@.app_name {
                        assert(before.contains_key(app));
                    }
                }
            }
            i += 1;
        }
        proof {
            assert(active.subrange(0, i as int) =~= active);
        }
        grouped
    }
}

} // verus!

//! What holds of the manager's state over one step and over many.

use crate::dbus::types::{NotificationView, Urgency};
use crate::manager::storage::{after_retention, newest, retained};
use crate::manager::{
    app_allowed, expired_at, first_with_id, following_id, has_id, is_first_with_id, lemma_free_id,
    passes_filters, recorded, without_id, ManagerView, NotificationAction,
    MAX_ACTIVE_NOTIFICATIONS,
};
use crate::time::Timestamp;
use vstd::prelude::*;

verus! {

/// Whether no two of `items` have the same id.
pub open spec fn ids_distinct(items: Seq<NotificationView>) -> bool {
    forall|i: int, j: int|
        0 <= i < items.len() && 0 <= j < items.len() && i != j ==> (#[trigger] items[i]).id != (
        #[trigger] items[j]).id
}

/// Whether none of `items` is transient.
pub open spec fn free_of_transient(items: Seq<NotificationView>) -> bool {
    forall|i: int| 0 <= i < items.len() ==> !(#[trigger] items[i]).hints.transient
}

/// The test for a notification that is not transient.
pub open spec fn persistent() -> spec_fn(NotificationView) -> bool {
    |n: NotificationView| !n.hints.transient
}

/// The state after the notifications `ns` were added in their order.
pub open spec fn add_all(m: ManagerView, ns: Seq<NotificationView>) -> ManagerView
    decreases ns.len(),
{
    if ns.len() == 0 {
        m
    } else {
        add_all(m, ns.drop_last()).add(ns.last())
    }
}

/// The notifications `ns` as the manager stores them when they are added
/// in their order: each with the id it is given.
pub open spec fn stamped_all(m: ManagerView, ns: Seq<NotificationView>) -> Seq<NotificationView>
    decreases ns.len(),
{
    if ns.len() == 0 {
        Seq::empty()
    } else {
        stamped_all(m, ns.drop_last()).push(add_all(m, ns.drop_last()).stamped(ns.last()))
    }
}

/// Taking the newest of a queue that was trimmed before and has one more
/// at its end is taking the newest of the untrimmed queue with that one.
pub proof fn lemma_newest_push<T>(items: Seq<T>, item: T, cap: nat)
    ensures
        newest(newest(items, cap).push(item), cap) == newest(items.push(item), cap),
        newest(items, cap).len() <= cap,
        newest(items, cap).len() == if items.len() > cap {
            cap
        } else {
            items.len()
        },
{
    assert(newest(newest(items, cap).push(item), cap) =~= newest(items.push(item), cap));
}

/// Whatever is among the newest of a queue is in the queue.
pub proof fn lemma_newest_from<T>(items: Seq<T>, cap: nat, i: int)
    requires
        0 <= i < newest(items, cap).len(),
    ensures
        newest(items, cap)[i] == items[items.len() - newest(items, cap).len() + i],
        0 <= items.len() - newest(items, cap).len() + i < items.len(),
{
}

/// Removing by id takes at most one notification out and leaves the
/// others in their order.
pub proof fn lemma_without_id(items: Seq<NotificationView>, id: u32)
    ensures
        has_id(items, id) ==> without_id(items, id).len() == items.len() - 1,
        !has_id(items, id) ==> without_id(items, id) == items,
        forall|i: int|
            0 <= i < without_id(items, id).len() ==> items.contains(
                #[trigger] without_id(items, id)[i],
            ),
        ids_distinct(items) ==> ids_distinct(without_id(items, id)) && !has_id(
            without_id(items, id),
            id,
        ),
{
    if has_id(items, id) {
        let w = choose|i: int| 0 <= i < items.len() && (#[trigger] items[i]).id == id;
        lemma_some_first(items, id, w);
        let p = first_with_id(items, id);
        assert(is_first_with_id(items, id, p));
        let after = items.remove(p);
        assert forall|i: int| 0 <= i < after.len() implies items.contains(#[trigger] after[i]) by {
            let j = if i < p { i } else { i + 1 };
            assert(items[j] == after[i]);
        }
        if ids_distinct(items) {
            assert forall|i: int, j: int|
                0 <= i < after.len() && 0 <= j < after.len() && i != j implies (
            #[trigger] after[i]).id != (#[trigger] after[j]).id by {
                let a = if i < p { i } else { i + 1 };
                let b = if j < p { j } else { j + 1 };
                assert(after[i] == items[a]);
                assert(after[j] == items[b]);
            }
            if has_id(after, id) {
                let i = choose|i: int| 0 <= i < after.len() && (#[trigger] after[i]).id == id;
                let a = if i < p { i } else { i + 1 };
                assert(after[i] == items[a]);
                assert(items[a].id != items[p].id);
            }
        }
    }
}

/// Where some place holds the id, a first such place exists.
pub proof fn lemma_some_first(items: Seq<NotificationView>, id: u32, w: int)
    requires
        0 <= w < items.len(),
        items[w].id == id,
    ensures
        exists|p: int| is_first_with_id(items, id, p),
        is_first_with_id(items, id, first_with_id(items, id)),
        first_with_id(items, id) <= w,
    decreases w,
{
    if exists|j: int| 0 <= j < w && (#[trigger] items[j]).id == id {
        let j = choose|j: int| 0 <= j < w && (#[trigger] items[j]).id == id;
        lemma_some_first(items, id, j);
    } else {
        assert(is_first_with_id(items, id, w));
    }
    let p = first_with_id(items, id);
    if p > w {
        assert(items[w].id != id);
    }
}

/// Adding a notification keeps the manager within its bounds.
pub proof fn law_add_keeps_bounds(m: ManagerView, n: NotificationView)
    requires
        m.valid(),
    ensures
        m.add(n).valid(),
{
    let stamped = m.stamped(n);
    let active = m.active_after_replacement(stamped);
    lemma_without_id(m.active, stamped.replaces_id);
    lemma_newest_push(active, stamped, MAX_ACTIVE_NOTIFICATIONS as nat);
    lemma_newest_push(m.history, stamped, m.max_history_items as nat);
}

/// Whatever holds an id after a removal held it before.
pub proof fn lemma_without_id_holds_less(items: Seq<NotificationView>, gone: u32, id: u32)
    requires
        !has_id(items, id),
    ensures
        !has_id(without_id(items, gone), id),
{
    let after = without_id(items, gone);
    lemma_without_id(items, gone);
    if has_id(after, id) {
        let i = choose|i: int| 0 <= i < after.len() && (#[trigger] after[i]).id == id;
        assert(items.contains(after[i]));
        let j = choose|j: int| 0 <= j < items.len() && items[j] == after[i];
        assert(items[j].id == id);
    }
}

/// A notification that comes without an id is stored under an id that is
/// not 0 and that no active notification holds: the manager's next id
/// where that is unused, else the first unused id after it. Afterwards
/// exactly one active notification holds it where the notification is
/// displayed, the newest one, and none where it is filtered. The
/// manager's next id is then the id that follows.
pub proof fn law_assigned_id_is_fresh(m: ManagerView, n: NotificationView)
    requires
        m.valid(),
        n.id == 0,
    ensures
        m.stamped(n).id != 0,
        !has_id(m.active, m.stamped(n).id),
        !has_id(m.active_after_replacement(m.stamped(n)), m.stamped(n).id),
        !has_id(m.active, m.next_id) ==> m.stamped(n).id == m.next_id,
        m.displays(m.stamped(n)) ==> m.add(n).active.len() > 0 && m.add(n).active.last()
            == m.stamped(n),
        forall|i: int|
            0 <= i < m.add(n).active.len() && (#[trigger] m.add(n).active[i]).id == m.stamped(n).id
                ==> m.displays(m.stamped(n)) && i == m.add(n).active.len() - 1,
        !n.hints.transient && m.max_history_items > 0 ==> m.add(n).history.len() > 0 && m.add(
            n,
        ).history.last() == m.stamped(n),
        m.add(n).next_id == following_id(m.stamped(n).id),
        m.add(n).next_id != 0,
{
    let stamped = m.stamped(n);
    let active = m.active_after_replacement(stamped);
    let after = m.add(n).active;
    lemma_free_id(m.active, m.next_id);
    lemma_without_id_holds_less(m.active, stamped.replaces_id, stamped.id);
    assert forall|i: int| 0 <= i < after.len() && (#[trigger] after[i]).id
        == stamped.id implies m.displays(stamped) && i == after.len() - 1 by {
        if m.displays(stamped) {
            let pushed = active.push(stamped);
            lemma_newest_from(pushed, MAX_ACTIVE_NOTIFICATIONS as nat, i);
            let a = pushed.len() - after.len() + i;
            if a < active.len() {
                assert(pushed[a] == active[a]);
            }
        }
    }
}

/// A notification whose id none of a run holds can join the run, and the
/// newest of the run be kept, without two of them having the same id.
pub proof fn lemma_joining_keeps_ids_distinct(
    items: Seq<NotificationView>,
    n: NotificationView,
    cap: nat,
)
    requires
        ids_distinct(items),
        !has_id(items, n.id),
    ensures
        ids_distinct(newest(items.push(n), cap)),
{
    let pushed = items.push(n);
    let after = newest(pushed, cap);
    assert forall|i: int, j: int|
        0 <= i < after.len() && 0 <= j < after.len() && i != j implies (#[trigger] after[i]).id != (
    #[trigger] after[j]).id by {
        lemma_newest_from(pushed, cap, i);
        lemma_newest_from(pushed, cap, j);
        let a = pushed.len() - after.len() + i;
        let b = pushed.len() - after.len() + j;
        if a < items.len() {
            assert(pushed[a] == items[a]);
        }
        if b < items.len() {
            assert(pushed[b] == items[b]);
        }
    }
}

/// The active ids stay distinct: where no two active notifications have
/// the same id, none have after a notification without an id was added,
/// whether it was displayed or filtered, and whichever ids the active
/// notifications brought with them.
pub proof fn law_assigned_ids_stay_distinct(m: ManagerView, n: NotificationView)
    requires
        m.valid(),
        ids_distinct(m.active),
        n.id == 0,
    ensures
        ids_distinct(m.add(n).active),
{
    let stamped = m.stamped(n);
    law_assigned_id_is_fresh(m, n);
    lemma_without_id(m.active, stamped.replaces_id);
    lemma_joining_keeps_ids_distinct(
        m.active_after_replacement(stamped),
        stamped,
        MAX_ACTIVE_NOTIFICATIONS as nat,
    );
}

/// A notification that brings its id is stored under it. The active ids
/// stay distinct where no active notification holds that id once the
/// replaced one has left; the manager does not change an id that was
/// given.
pub proof fn law_given_id_is_kept(m: ManagerView, n: NotificationView)
    requires
        m.valid(),
        ids_distinct(m.active),
        n.id != 0,
    ensures
        m.stamped(n) == n,
        m.add(n).next_id == m.next_id,
        !has_id(m.active_after_replacement(n), n.id) ==> ids_distinct(m.add(n).active),
{
    lemma_without_id(m.active, n.replaces_id);
    if !has_id(m.active_after_replacement(n), n.id) {
        lemma_joining_keeps_ids_distinct(
            m.active_after_replacement(n),
            n,
            MAX_ACTIVE_NOTIFICATIONS as nat,
        );
    }
}

/// However many notifications without an id are added, the manager stays
/// valid and no two active notifications have the same id.
pub proof fn law_assigned_ids_distinct_over_many(m: ManagerView, ns: Seq<NotificationView>)
    requires
        m.valid(),
        ids_distinct(m.active),
        forall|i: int| 0 <= i < ns.len() ==> (#[trigger] ns[i]).id == 0,
    ensures
        add_all(m, ns).valid(),
        ids_distinct(add_all(m, ns).active),
    decreases ns.len(),
{
    if ns.len() > 0 {
        let front = ns.drop_last();
        assert forall|i: int| 0 <= i < front.len() implies (#[trigger] front[i]).id == 0 by {
            assert(front[i] == ns[i]);
        }
        law_assigned_ids_distinct_over_many(m, front);
        law_add_keeps_bounds(add_all(m, front), ns.last());
        law_assigned_ids_stay_distinct(add_all(m, front), ns.last());
    }
}

/// Removing a notification keeps the active ids distinct.
pub proof fn law_remove_keeps_ids_distinct(m: ManagerView, id: u32)
    requires
        ids_distinct(m.active),
    ensures
        ids_distinct(m.remove(id).active),
        !has_id(m.remove(id).active, id),
{
    lemma_without_id(m.active, id);
}

/// Replacement: a displayed notification that replaces an active one
/// takes its place in the count. The active set is as large as before,
/// the new notification is its newest entry, and the others are the old
/// entries without the replaced one. Where the active ids were distinct,
/// none of those others holds the replaced id.
pub proof fn law_replacement(m: ManagerView, n: NotificationView)
    requires
        m.valid(),
        n.replaces_id != 0,
        has_id(m.active, n.replaces_id),
        m.displays(m.stamped(n)),
    ensures
        m.add_outcome(n) == NotificationAction::Displayed,
        m.add(n).active.len() == m.active.len(),
        m.add(n).active.last() == m.stamped(n),
        m.add(n).active.drop_last() == without_id(m.active, n.replaces_id),
        ids_distinct(m.active) ==> !has_id(m.add(n).active.drop_last(), n.replaces_id),
{
    let stamped = m.stamped(n);
    lemma_without_id(m.active, n.replaces_id);
    let active = without_id(m.active, n.replaces_id);
    assert(newest(active.push(stamped), MAX_ACTIVE_NOTIFICATIONS as nat) == active.push(stamped));
    assert(active.push(stamped).drop_last() =~= active);
}

/// Filter precedence, level by level. The minimum urgency comes first: a
/// notification below it is filtered whatever else holds, a critical one
/// too. At or above it, a critical notification passes Do Not Disturb and
/// is decided by its application's filter alone. Any other is filtered
/// while Do Not Disturb is on, whatever its application's filter says,
/// and is else decided by that filter, which lets it pass where it has no
/// entry.
pub proof fn law_filter_precedence(
    min_urgency_level: u8,
    do_not_disturb: bool,
    app_filters: Map<Seq<char>, bool>,
    n: NotificationView,
)
    ensures
        n.hints.urgency.level() < min_urgency_level ==> !passes_filters(
            min_urgency_level,
            do_not_disturb,
            app_filters,
            n,
        ),
        n.hints.urgency.level() >= min_urgency_level && n.hints.urgency == Urgency::Critical ==> (
        passes_filters(min_urgency_level, do_not_disturb, app_filters, n) <==> app_allowed(
            app_filters,
            n.app_name,
        )),
        n.hints.urgency.level() >= min_urgency_level && n.hints.urgency != Urgency::Critical
            && do_not_disturb ==> !passes_filters(
            min_urgency_level,
            do_not_disturb,
            app_filters,
            n,
        ),
        n.hints.urgency.level() >= min_urgency_level && n.hints.urgency != Urgency::Critical
            && !do_not_disturb ==> (passes_filters(
            min_urgency_level,
            do_not_disturb,
            app_filters,
            n,
        ) <==> app_allowed(app_filters, n.app_name)),
        !app_filters.contains_key(n.app_name) ==> app_allowed(app_filters, n.app_name),
{
}

/// Adding notifications changes no filter, so what is displayed does not
/// depend on what was added before.
pub proof fn lemma_add_all_keeps_policy(m: ManagerView, ns: Seq<NotificationView>)
    ensures
        add_all(m, ns).min_urgency_level == m.min_urgency_level,
        add_all(m, ns).do_not_disturb == m.do_not_disturb,
        add_all(m, ns).app_filters == m.app_filters,
        add_all(m, ns).max_history_items == m.max_history_items,
        stamped_all(m, ns).len() == ns.len(),
        forall|n: NotificationView| add_all(m, ns).displays(n) == m.displays(n),
    decreases ns.len(),
{
    if ns.len() > 0 {
        lemma_add_all_keeps_policy(m, ns.drop_last());
    }
}

/// Whether the notification `ns[i]` takes an active notification's place
/// when `ns` are added in their order: it names an id to replace, and a
/// notification with that id is active when its turn comes.
pub open spec fn replaces_active(m: ManagerView, ns: Seq<NotificationView>, i: int) -> bool {
    ns[i].replaces_id != 0 && has_id(add_all(m, ns.take(i)).active, ns[i].replaces_id)
}

/// Active-set bound: after notifications that are all displayed and take
/// no active notification's place were added, the active set holds the
/// newest `MAX_ACTIVE_NOTIFICATIONS` of what was active and what was
/// added: the oldest were evicted first. With that many or more in all,
/// exactly `MAX_ACTIVE_NOTIFICATIONS` are active.
pub proof fn law_active_bound(m: ManagerView, ns: Seq<NotificationView>)
    requires
        m.valid(),
        forall|i: int| 0 <= i < ns.len() ==> m.displays(#[trigger] ns[i]),
        forall|i: int| 0 <= i < ns.len() ==> !#[trigger] replaces_active(m, ns, i),
    ensures
        add_all(m, ns).active == newest(
            m.active + stamped_all(m, ns),
            MAX_ACTIVE_NOTIFICATIONS as nat,
        ),
        m.active.len() + ns.len() >= MAX_ACTIVE_NOTIFICATIONS ==> add_all(m, ns).active.len()
            == MAX_ACTIVE_NOTIFICATIONS,
        m.active.len() + ns.len() < MAX_ACTIVE_NOTIFICATIONS ==> add_all(m, ns).active.len()
            == m.active.len() + ns.len(),
    decreases ns.len(),
{
    lemma_add_all_keeps_policy(m, ns);
    if ns.len() == 0 {
        assert(m.active + stamped_all(m, ns) =~= m.active);
    } else {
        let front = ns.drop_last();
        let last = ns.last();
        assert forall|i: int| 0 <= i < front.len() implies m.displays(#[trigger] front[i]) by {
            assert(front[i] == ns[i]);
        }
        assert forall|i: int| 0 <= i < front.len() implies !#[trigger] replaces_active(
            m,
            front,
            i,
        ) by {
            assert(front[i] == ns[i]);
            assert(front.take(i) =~= ns.take(i));
            assert(!replaces_active(m, ns, i));
        }
        law_active_bound(m, front);
        lemma_add_all_keeps_policy(m, front);
        let before = add_all(m, front);
        let stamped = before.stamped(last);
        assert(ns[ns.len() - 1] == last);
        assert(m.displays(last));
        assert(before.displays(stamped) == m.displays(stamped));
        assert(m.displays(stamped) == m.displays(last));
        assert(ns.take(ns.len() - 1) =~= front);
        assert(!replaces_active(m, ns, ns.len() - 1));
        assert(before.active_after_replacement(stamped) == before.active);
        lemma_newest_push(
            m.active + stamped_all(m, front),
            stamped,
            MAX_ACTIVE_NOTIFICATIONS as nat,
        );
        assert((m.active + stamped_all(m, front)).push(stamped) =~= m.active + stamped_all(m, ns));
    }
}

/// History bound: after any notifications were added, the history holds
/// the newest of what was recorded before and of the added notifications
/// that are not transient, as many as its cap allows: the oldest were
/// trimmed first.
pub proof fn law_history_bound(m: ManagerView, ns: Seq<NotificationView>)
    requires
        m.valid(),
    ensures
        add_all(m, ns).history == newest(
            m.history + stamped_all(m, ns).filter(persistent()),
            m.max_history_items as nat,
        ),
        add_all(m, ns).history.len() <= m.max_history_items,
    decreases ns.len(),
{
    reveal(Seq::filter);
    lemma_add_all_keeps_policy(m, ns);
    if ns.len() == 0 {
        assert(m.history + stamped_all(m, ns).filter(persistent()) =~= m.history);
    } else {
        let front = ns.drop_last();
        law_history_bound(m, front);
        lemma_add_all_keeps_policy(m, front);
        let before = add_all(m, front);
        let stamped = before.stamped(ns.last());
        let kept = stamped_all(m, front).filter(persistent());
        stamped_all(m, front).lemma_filter_push(stamped, persistent());
        if stamped.hints.transient {
            assert(stamped_all(m, ns).filter(persistent()) == kept);
        } else {
            lemma_newest_push(m.history + kept, stamped, m.max_history_items as nat);
            assert((m.history + kept).push(stamped) =~= m.history + kept.push(stamped));
        }
    }
}

/// A transient notification never enters the history: a history without
/// transient notifications is without them after a notification was
/// added, whether it was displayed or filtered.
pub proof fn law_add_records_no_transient(m: ManagerView, n: NotificationView)
    requires
        free_of_transient(m.history),
    ensures
        free_of_transient(m.add(n).history),
        n.hints.transient ==> m.add(n).history == m.history,
{
    let stamped = m.stamped(n);
    let after = recorded(m.history, stamped, m.max_history_items);
    if !stamped.hints.transient {
        let pushed = m.history.push(stamped);
        assert forall|i: int| 0 <= i < after.len() implies !(#[trigger] after[i]).hints.transient by {
            lemma_newest_from(pushed, m.max_history_items as nat, i);
            let a = pushed.len() - after.len() + i;
            if a < m.history.len() {
                assert(pushed[a] == m.history[a]);
            }
        }
    }
}

/// Removal, clearing the active set and tidying bring no transient
/// notification into the history: removal and clearing leave the history
/// as it is, and tidying only takes notifications out.
pub proof fn law_removal_records_no_transient(
    m: ManagerView,
    id: u32,
    max_items: usize,
    retention_days: Option<u32>,
    now: Timestamp,
)
    requires
        free_of_transient(m.history),
    ensures
        m.remove(id).history == m.history,
        free_of_transient(m.remove(id).history),
        free_of_transient(m.cleanup(max_items, retention_days, now).history),
{
    let aged = after_retention(m.history, retention_days, now);
    assert(free_of_transient(aged)) by {
        if retention_days is Some {
            let keep = retained(now, retention_days->0);
            assert forall|i: int| 0 <= i < aged.len() implies !(#[trigger] aged[i]).hints.transient by {
                assert(aged.contains(aged[i]));
                m.history.lemma_filter_contains_rev(keep, aged[i]);
                assert(m.history.contains(aged[i]));
                let j = choose|j: int| 0 <= j < m.history.len() && m.history[j] == aged[i];
                assert(!m.history[j].hints.transient);
            }
        }
    }
    let after = newest(aged, max_items as nat);
    assert forall|i: int| 0 <= i < after.len() implies !(#[trigger] after[i]).hints.transient by {
        lemma_newest_from(aged, max_items as nat, i);
    }
}

/// A new manager has recorded nothing, so no transient notification, and
/// holds no two notifications with one id.
pub proof fn law_initial_state()
    ensures
        ManagerView::initial().valid(),
        free_of_transient(ManagerView::initial().history),
        ids_distinct(ManagerView::initial().active),
{
}

/// Expiry never strikes a notification without a timeout or a resident
/// one, however old it is; any other has expired as soon as its age
/// exceeds its timeout in whole seconds.
pub proof fn law_expiry(n: NotificationView, now: Timestamp)
    ensures
        n.expire_timeout < 0 ==> !expired_at(n, now),
        n.hints.resident ==> !expired_at(n, now),
        n.expire_timeout > 0 && !n.hints.resident ==> (expired_at(n, now) <==> now.total_nanos()
            - n.timestamp.total_nanos() > (n.expire_timeout as int / 1000) * 1_000_000_000),
        n.expire_timeout == 0 && !n.hints.resident ==> (expired_at(n, now) <==> now.total_nanos()
            - n.timestamp.total_nanos() > 5 * 1_000_000_000),
{
}

} // verus!

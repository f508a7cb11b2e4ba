//! Transient notification messages with an expiry time. Timestamps are
//! plain milliseconds; only the two functions that ask the clock depend on
//! it, and each delegates its logic to a function that takes the time as an
//! argument.

use vstd::prelude::*;

use crate::clock::now_millis;

verus! {

/// A toast's severity.
#[derive(Debug, Clone, Copy, PartialEq, Eq, Structural)]
pub enum ToastLevel {
    Info,
    Success,
    Warning,
    Error,
}

/// One notification: its text, severity, creation time and lifetime.
#[derive(Debug, Clone)]
pub struct Toast {
    pub message: String,
    pub level: ToastLevel,
    pub created_at_ms: u64,
    pub duration_ms: u64,
    pub id: usize,
}

/// Whether a toast is past its lifetime at the given clock reading.
pub open spec fn spec_expired(t: Toast, now_ms: u64) -> bool {
    now_ms >= t.created_at_ms && now_ms - t.created_at_ms >= t.duration_ms
}

impl Toast {
    /// A fresh toast, created now, shown for three seconds.
    pub fn new(message: String, level: ToastLevel) -> (r: Toast)
        ensures
            r.message == message,
            r.level == level,
            r.duration_ms == 3000,
            r.id == 0,
    {
        Toast { message, level, created_at_ms: now_millis(), duration_ms: 3000, id: 0 }
    }

    /// A success toast.
    pub fn success(message: String) -> (r: Toast)
        ensures
            r.message == message,
            r.level is Success,
            r.duration_ms == 3000,
            r.id == 0,
    {
        Toast::new(message, ToastLevel::Success)
    }

    /// An informational toast.
    pub fn info(message: String) -> (r: Toast)
        ensures
            r.message == message,
            r.level is Info,
            r.duration_ms == 3000,
            r.id == 0,
    {
        Toast::new(message, ToastLevel::Info)
    }

    /// A warning toast.
    pub fn warning(message: String) -> (r: Toast)
        ensures
            r.message == message,
            r.level is Warning,
            r.duration_ms == 3000,
            r.id == 0,
    {
        Toast::new(message, ToastLevel::Warning)
    }

    /// An error toast.
    pub fn error(message: String) -> (r: Toast)
        ensures
            r.message == message,
            r.level is Error,
            r.duration_ms == 3000,
            r.id == 0,
    {
        Toast::new(message, ToastLevel::Error)
    }

    /// Whether the toast is past its lifetime at the given clock reading;
    /// see `spec_expired`.
    pub fn is_expired_at(&self, now_ms: u64) -> (r: bool)
        ensures
            r == spec_expired(*self, now_ms),
    {
        now_ms >= self.created_at_ms && now_ms - self.created_at_ms >= self.duration_ms
    }

    /// Whether the toast is past its lifetime now. The result depends on the
    /// clock; `is_expired_at` carries the exact statement.
    pub fn is_expired(&self) -> bool {
        let now = now_millis();
        self.is_expired_at(now)
    }
}

/// The toasts still live at the given clock reading, in order.
pub open spec fn spec_live_toasts(ts: Seq<Toast>, now_ms: u64) -> Seq<Toast>
    decreases ts.len(),
{
    if ts.len() == 0 {
        Seq::empty()
    } else {
        let rest = spec_live_toasts(ts.drop_last(), now_ms);
        if spec_expired(ts.last(), now_ms) {
            rest
        } else {
            rest.push(ts.last())
        }
    }
}


/// Identifier discipline of a toast queue: the ids grow strictly along the
/// queue and all sit below the next to be handed out, so all live toasts
/// carry distinct identifiers.
pub open spec fn spec_ids_ok(ts: Seq<Toast>, next_id: usize) -> bool {
    &&& forall|k: int| 0 <= k < ts.len() ==> #[trigger] ts[k].id < next_id
    &&& forall|k1: int, k2: int| 0 <= k1 < k2 < ts.len() ==> ts[k1].id < ts[k2].id
}

/// Dropping expired toasts keeps the identifier discipline: the survivors
/// keep their order, so their ids still grow strictly and stay below the
/// same bound; the last survivor's id never exceeds the last toast's.
proof fn lemma_live_toasts_ids_ok(ts: Seq<Toast>, now_ms: u64, next_id: usize)
    requires
        spec_ids_ok(ts, next_id),
    ensures
        spec_ids_ok(spec_live_toasts(ts, now_ms), next_id),
        spec_live_toasts(ts, now_ms).len() > 0 ==> ts.len() > 0 && spec_live_toasts(
            ts,
            now_ms,
        ).last().id <= ts.last().id,
    decreases ts.len(),
{
    if ts.len() > 0 {
        assert(spec_ids_ok(ts.drop_last(), next_id)) by {
            assert(forall|k: int|
                0 <= k < ts.len() - 1 ==> ts.drop_last()[k] == ts[k]);
        }
        lemma_live_toasts_ids_ok(ts.drop_last(), now_ms, next_id);
        let rest = spec_live_toasts(ts.drop_last(), now_ms);
        if !spec_expired(ts.last(), now_ms) {
            assert(rest.push(ts.last()).last() == ts.last());
            assert forall|k1: int, k2: int|
                0 <= k1 < k2 < rest.push(ts.last()).len() implies rest.push(ts.last())[k1].id
                < rest.push(ts.last())[k2].id by {
                if k2 == rest.len() && rest.len() > 0 {
                    assert(rest[k1].id <= rest.last().id);
                    assert(rest.last().id <= ts.drop_last().last().id);
                    assert(ts.drop_last().last() == ts[ts.len() - 2]);
                }
            }
        }
    }
}

/// The queue of live toasts.
pub struct ToastManager {
    pub toasts: Vec<Toast>,
    pub next_id: usize,
}

impl ToastManager {
    /// The identifier discipline; see `spec_ids_ok`.
    pub open spec fn wf(self) -> bool {
        spec_ids_ok(self.toasts@, self.next_id)
    }

    /// An empty queue; identifiers start at one.
    pub fn new() -> (r: ToastManager)
        ensures
            r.wf(),
            r.toasts@.len() == 0,
            r.next_id == 1,
    {
        ToastManager { toasts: Vec::new(), next_id: 1 }
    }

    /// Appends a toast, stamping it with the next identifier. Identifiers
    /// restart at one should the counter ever reach the machine limit.
    pub fn add_toast(&mut self, toast: Toast)
        ensures
            final(self).toasts@ == old(self).toasts@.push(
                Toast { id: old(self).next_id, ..toast },
            ),
            final(self).next_id == (if old(self).next_id < usize::MAX {
                old(self).next_id + 1
            } else {
                1int
            }),
            old(self).wf() && old(self).next_id < usize::MAX ==> final(self).wf(),
    {
        let mut toast = toast;
        toast.id = self.next_id;
        if self.next_id < usize::MAX {
            self.next_id = self.next_id + 1;
        } else {
            self.next_id = 1;
        }
        self.toasts.push(toast);
    }

    /// Appends a success toast with the given text.
    pub fn success(&mut self, message: String)
        ensures
            final(self).toasts@.len() == old(self).toasts@.len() + 1,
            final(self).toasts@.drop_last() == old(self).toasts@,
            final(self).toasts@.last().message == message,
            final(self).toasts@.last().level is Success,
            old(self).wf() && old(self).next_id < usize::MAX ==> final(self).wf(),
    {
        self.add_toast(Toast::success(message));
    }

    /// Appends an informational toast with the given text.
    pub fn info(&mut self, message: String)
        ensures
            final(self).toasts@.len() == old(self).toasts@.len() + 1,
            final(self).toasts@.drop_last() == old(self).toasts@,
            final(self).toasts@.last().message == message,
            final(self).toasts@.last().level is Info,
            old(self).wf() && old(self).next_id < usize::MAX ==> final(self).wf(),
    {
        self.add_toast(Toast::info(message));
    }

    /// Appends a warning toast with the given text.
    pub fn warning(&mut self, message: String)
        ensures
            final(self).toasts@.len() == old(self).toasts@.len() + 1,
            final(self).toasts@.drop_last() == old(self).toasts@,
            final(self).toasts@.last().message == message,
            final(self).toasts@.last().level is Warning,
            old(self).wf() && old(self).next_id < usize::MAX ==> final(self).wf(),
    {
        self.add_toast(Toast::warning(message));
    }

    /// Appends an error toast with the given text.
    pub fn error(&mut self, message: String)
        ensures
            final(self).toasts@.len() == old(self).toasts@.len() + 1,
            final(self).toasts@.drop_last() == old(self).toasts@,
            final(self).toasts@.last().message == message,
            final(self).toasts@.last().level is Error,
            old(self).wf() && old(self).next_id < usize::MAX ==> final(self).wf(),
    {
        self.add_toast(Toast::error(message));
    }

    /// Drops every toast expired at the given clock reading, keeping the
    /// rest in order; see `spec_live_toasts`.
    pub fn remove_expired_at(&mut self, now_ms: u64)
        ensures
            final(self).toasts@ == spec_live_toasts(old(self).toasts@, now_ms),
            final(self).next_id == old(self).next_id,
            old(self).wf() ==> final(self).wf(),
    {
        proof {
            if old(self).wf() {
                lemma_live_toasts_ids_ok(old(self).toasts@, now_ms, old(self).next_id);
            }
        }
        let n = self.toasts.len();
        let mut kept: Vec<Toast> = Vec::new();
        proof {
            assert(kept@ =~= spec_live_toasts(old(self).toasts@.take(0), now_ms));
        }
        let mut i: usize = 0;
        while self.toasts.len() > 0
            invariant
                i == n - self.toasts@.len(),
                0 <= i <= n == old(self).toasts@.len(),
                self.toasts@ == old(self).toasts@.skip(i as int),
                self.next_id == old(self).next_id,
                kept@ == spec_live_toasts(old(self).toasts@.take(i as int), now_ms),
            decreases self.toasts@.len(),
        {
            let t = self.toasts.remove(0);
            proof {
                assert(t == old(self).toasts@[i as int]);
                assert(self.toasts@ =~= old(self).toasts@.skip(i + 1 as int));
                assert(old(self).toasts@.take(i + 1 as int).drop_last() =~= old(
                    self,
                ).toasts@.take(i as int));
                assert(old(self).toasts@.take(i + 1 as int).last() == t);
            }
            if !t.is_expired_at(now_ms) {
                kept.push(t);
            }
            proof {
                assert(kept@ =~= spec_live_toasts(old(self).toasts@.take(i + 1 as int), now_ms));
            }
            i = i + 1;
        }
        proof {
            assert(old(self).toasts@.take(n as int) =~= old(self).toasts@);
        }
        self.toasts = kept;
    }

    /// Drops every toast expired now. The result depends on the clock;
    /// `remove_expired_at` carries the exact statement.
    pub fn update(&mut self)
        ensures
            final(self).next_id == old(self).next_id,
            old(self).wf() ==> final(self).wf(),
    {
        let now = now_millis();
        self.remove_expired_at(now);
    }

    /// Whether any toast is live.
    pub fn has_active_toasts(&self) -> (r: bool)
        ensures
            r == (self.toasts@.len() > 0),
    {
        self.toasts.len() > 0
    }
}

} // verus!

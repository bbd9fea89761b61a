//! The notification queue: an ordered collection of short-lived messages,
//! oldest first, each scheduled to expire after a fixed time.
//!
//! Identity is value-equality on the message; removal deletes the first
//! match and is a no-op when the value is absent, so a manual dismissal
//! racing an expiry timer never fails.

use std::collections::VecDeque;
use vstd::prelude::*;

verus! {

/// How long a notification stays up before its timer removes it, in
/// milliseconds.  Scheduling the timer is the shell's task.
pub const TOAST_TIMEOUT_MS: u32 = 6000;

/// A message to display to the user.
#[derive(Debug, Clone)]
pub struct Toast {
    pub message: String,
}

impl View for Toast {
    type V = Seq<char>;

    open spec fn view(&self) -> Seq<char> {
        self.message@
    }
}

impl Toast {
    /// Copy of the notification, equal to it.
    pub fn duplicate(&self) -> (r: Self)
        ensures
            r == *self,
    {
        Toast { message: self.message.clone() }
    }
}

impl PartialEq for Toast {
    /// Two notifications are the same exactly when their messages are.
    fn eq(&self, other: &Toast) -> (r: bool) {
        self.message == other.message
    }
}

impl vstd::std_specs::cmp::PartialEqSpecImpl for Toast {
    open spec fn obeys_eq_spec() -> bool {
        true
    }

    open spec fn eq_spec(&self, other: &Toast) -> bool {
        self.message@ == other.message@
    }
}

/// A change to apply to the queue.
#[derive(Debug, Clone)]
pub enum ToastChange {
    Push(Toast),
    Remove(Toast),
}

/// The queue after the first entry with message `m` is deleted; the queue
/// unchanged when no entry matches.
pub open spec fn spec_remove_first(q: Seq<Seq<char>>, m: Seq<char>) -> Seq<Seq<char>>
    decreases q.len(),
{
    if q.len() == 0 {
        q
    } else if q[0] == m {
        q.drop_first()
    } else {
        seq![q[0]] + spec_remove_first(q.drop_first(), m)
    }
}

/// How many entries of `q` carry the message `m`.
pub open spec fn spec_match_count(q: Seq<Seq<char>>, m: Seq<char>) -> nat
    decreases q.len(),
{
    if q.len() == 0 {
        0
    } else {
        spec_match_count(q.drop_first(), m) + (if q[0] == m {
            1nat
        } else {
            0nat
        })
    }
}

/// The queue a change leads to: a push appends at the tail, a removal
/// deletes the first match, if any.
pub open spec fn spec_reduce_toasts(q: Seq<Seq<char>>, change: ToastChange) -> Seq<Seq<char>> {
    match change {
        ToastChange::Push(t) => q.push(t@),
        ToastChange::Remove(t) => spec_remove_first(q, t@),
    }
}

/// Removing a message that no entry carries changes nothing.
pub proof fn lemma_remove_absent(q: Seq<Seq<char>>, m: Seq<char>)
    requires
        spec_match_count(q, m) == 0,
    ensures
        spec_remove_first(q, m) == q,
    decreases q.len(),
{
    if q.len() == 0 {
    } else {
        assert(q[0] != m);
        lemma_remove_absent(q.drop_first(), m);
        assert(seq![q[0]] + q.drop_first() =~= q);
    }
}

/// A removal deletes at most one matching entry.
pub proof fn lemma_remove_count(q: Seq<Seq<char>>, m: Seq<char>)
    ensures
        spec_match_count(spec_remove_first(q, m), m) == if spec_match_count(q, m) == 0 {
            0nat
        } else {
            (spec_match_count(q, m) - 1) as nat
        },
    decreases q.len(),
{
    if q.len() == 0 {
    } else if q[0] == m {
    } else {
        lemma_remove_count(q.drop_first(), m);
        let r = seq![q[0]] + spec_remove_first(q.drop_first(), m);
        assert(r[0] == q[0]);
        assert(r.drop_first() =~= spec_remove_first(q.drop_first(), m));
    }
}

/// Removal is idempotent on queues that hold at most one entry with the
/// removed message: removing the same value twice is the same as removing
/// it once.
pub proof fn remove_is_idempotent(q: Seq<Seq<char>>, m: Seq<char>)
    requires
        spec_match_count(q, m) <= 1,
    ensures
        spec_remove_first(spec_remove_first(q, m), m) == spec_remove_first(q, m),
{
    lemma_remove_count(q, m);
    lemma_remove_absent(spec_remove_first(q, m), m);
}

/// The process-wide notification queue, oldest entry first.
#[derive(Debug, Clone)]
pub struct Toasts {
    pub inner: VecDeque<Toast>,
}

impl Toasts {
    /// The messages the queue holds, in display order.
    pub open spec fn messages(&self) -> Seq<Seq<char>> {
        self.inner@.map_values(|t: Toast| t@)
    }

    /// An empty queue.
    pub fn new() -> (r: Self)
        ensures
            r.messages() =~= Seq::<Seq<char>>::empty(),
    {
        Toasts { inner: VecDeque::new() }
    }

    /// Apply one change: a push appends at the tail, keeping insertion
    /// order as display order; a removal deletes the first entry equal to
    /// the given one and does nothing when none is.
    pub fn reduce(&mut self, action: ToastChange)
        ensures
            final(self).messages() == spec_reduce_toasts(old(self).messages(), action),
    {
        let ghost q0 = self.messages();
        match &action {
            ToastChange::Push(t) => {
                let d = t.duplicate();
                self.inner.push_back(d);
                assert(self.messages() =~= q0.push(t@));
            },
            ToastChange::Remove(t) => {
                let n = self.inner.len();
                let mut i: usize = 0;
                while i < n
                    invariant
                        0 <= i <= n,
                        n == self.inner@.len(),
                        q0 == old(self).messages(),
                        self.messages() == q0,
                        spec_reduce_toasts(q0, action) == spec_remove_first(q0, t@),
                        forall|j: int| 0 <= j < i ==> q0[j] != t@,
                    decreases n - i,
                {
                    let same = self.inner[i].eq(t);
                    if same {
                        assert(q0[i as int] == t@);
                        let ghost pre = self.inner@;
                        let removed = self.inner.remove(i);
                        proof {
                            assert(removed is Some);
                            assert(self.inner@ =~= pre.remove(i as int));
                            lemma_remove_at_first_match(q0, t@, i as int);
                            assert(self.messages() =~= q0.remove(i as int));
                        }
                        return ;
                    }
                    assert(q0[i as int] != t@);
                    i += 1;
                }
                proof {
                    lemma_count_zero_when_no_match(q0, t@);
                    lemma_remove_absent(q0, t@);
                }
            },
        }
    }
}

/// When position `i` holds the first match, deleting position `i` is
/// exactly the removal of the first match.
proof fn lemma_remove_at_first_match(q: Seq<Seq<char>>, m: Seq<char>, i: int)
    requires
        0 <= i < q.len(),
        q[i] == m,
        forall|j: int| 0 <= j < i ==> q[j] != m,
    ensures
        spec_remove_first(q, m) == q.remove(i),
    decreases i,
{
    if i == 0 {
        assert(spec_remove_first(q, m) == q.drop_first());
        assert(q.drop_first() =~= q.remove(0));
    } else {
        assert(q[0] != m);
        lemma_remove_at_first_match(q.drop_first(), m, i - 1);
        assert(q.drop_first()[i - 1] == q[i]);
        assert(seq![q[0]] + q.drop_first().remove(i - 1) =~= q.remove(i));
    }
}

/// A queue with no matching entry has a match count of zero.
proof fn lemma_count_zero_when_no_match(q: Seq<Seq<char>>, m: Seq<char>)
    requires
        forall|j: int| 0 <= j < q.len() ==> q[j] != m,
    ensures
        spec_match_count(q, m) == 0,
    decreases q.len(),
{
    if q.len() > 0 {
        lemma_count_zero_when_no_match(q.drop_first(), m);
    }
}

/// Append a notification at the tail of the queue.
pub fn push_toast(ctx: &mut Toasts, toast: Toast)
    ensures
        final(ctx).messages() == old(ctx).messages().push(toast@),
{
    ctx.reduce(ToastChange::Push(toast));
}

/// Delete the first notification equal to the given one; do nothing when
/// none is present.
pub fn remove_toast(ctx: &mut Toasts, toast: Toast)
    ensures
        final(ctx).messages() == spec_remove_first(old(ctx).messages(), toast@),
{
    ctx.reduce(ToastChange::Remove(toast));
}

} // verus!

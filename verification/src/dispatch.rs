//! Running work on the thread that owns a window.
//!
//! A window may only be touched on the thread that created it.  Work that
//! arrives from another thread is parked in one of two collections, which
//! the caller keeps behind its own locks:
//! - an action queue (`VecDeque<Q>`) of fire-and-forget actions, run in
//!   arrival order the next time the owning thread queues an action;
//! - a table of action blocks (`Vec<ActionBlock<J, R>>`) for callers that
//!   wait for a result: a request is parked as `Uncalled`, the owning thread
//!   turns it into `Called` with the result, and the requesting thread takes
//!   the result out, leaving the slot `Empty` for reuse.

use vstd::prelude::*;
use std::collections::VecDeque;

verus! {

/// The number of slots that a fresh table of action blocks has.
pub const DEFAULT_CAPACITY: usize = 64;

/// One slot of the table of action blocks.
pub enum ActionBlock<J, R> {
    /// A request from the thread with the given id, not yet run.
    Uncalled(u32, J),
    /// The result of a request from the thread with the given id.
    Called(u32, R),
    /// A free slot.
    Empty,
}

impl<J, R> ActionBlock<J, R> {
    /// Whether the slot is free.
    pub fn is_empty(&self) -> (r: bool)
        ensures
            r <==> self is Empty,
    {
        match self {
            ActionBlock::Empty => true,
            _ => false,
        }
    }

    /// Whether the slot holds a result.
    pub fn is_called(&self) -> (r: bool)
        ensures
            r <==> self is Called,
    {
        match self {
            ActionBlock::Called(_, _) => true,
            _ => false,
        }
    }

    /// Whether the slot holds a request that has not run yet.
    pub fn is_uncalled(&self) -> (r: bool)
        ensures
            r <==> self is Uncalled,
    {
        match self {
            ActionBlock::Uncalled(_, _) => true,
            _ => false,
        }
    }
}

/// The index of the first free slot at or after `i`, or `s.len()` when
/// there is none.
pub open spec fn first_empty_from<J, R>(s: Seq<ActionBlock<J, R>>, i: int) -> int
    decreases s.len() - i,
{
    if i < 0 || i >= s.len() {
        s.len() as int
    } else if s[i] is Empty {
        i
    } else {
        first_empty_from(s, i + 1)
    }
}

/// The index of the first free slot, or `s.len()` when there is none.
pub open spec fn first_empty<J, R>(s: Seq<ActionBlock<J, R>>) -> int {
    first_empty_from(s, 0)
}

/// Whether slot `b` holds the result for thread `t`.
pub open spec fn is_called_for<J, R>(b: ActionBlock<J, R>, t: u32) -> bool {
    b matches ActionBlock::Called(owner, _) && owner == t
}

/// Whether slot `b` holds a request of thread `t` that has not run yet.
pub open spec fn is_uncalled_for<J, R>(b: ActionBlock<J, R>, t: u32) -> bool {
    b matches ActionBlock::Uncalled(owner, _) && owner == t
}

/// The index of the first result for thread `t` at or after `i`, or
/// `s.len()` when there is none.
pub open spec fn first_called_from<J, R>(s: Seq<ActionBlock<J, R>>, t: u32, i: int) -> int
    decreases s.len() - i,
{
    if i < 0 || i >= s.len() {
        s.len() as int
    } else if is_called_for(s[i], t) {
        i
    } else {
        first_called_from(s, t, i + 1)
    }
}

/// The index of the first result for thread `t`, or `s.len()` when there is
/// none.
pub open spec fn first_called<J, R>(s: Seq<ActionBlock<J, R>>, t: u32) -> int {
    first_called_from(s, t, 0)
}

/// The table after thread `t` parks request `job`: in the first free slot,
/// or in a new slot at the end when none is free.
pub open spec fn with_request<J, R>(s: Seq<ActionBlock<J, R>>, t: u32, job: J) -> Seq<ActionBlock<J, R>> {
    let k = first_empty(s);
    if k < s.len() {
        s.update(k, ActionBlock::Uncalled(t, job))
    } else {
        s.push(ActionBlock::Uncalled(t, job))
    }
}

/// The table after thread `t` takes its first result out: that slot is free
/// again; the table is unchanged when `t` has no result.
pub open spec fn without_result<J, R>(s: Seq<ActionBlock<J, R>>, t: u32) -> Seq<ActionBlock<J, R>> {
    let k = first_called(s, t);
    if k < s.len() {
        s.update(k, ActionBlock::Empty)
    } else {
        s
    }
}

/// The result that thread `t` takes out of the table, if any.
pub open spec fn result_for<J, R>(s: Seq<ActionBlock<J, R>>, t: u32) -> Option<R> {
    let k = first_called(s, t);
    if k < s.len() {
        Some(s[k]->Called_1)
    } else {
        None
    }
}

/// Every request parked in `s` accepts `view`.
pub open spec fn requests_accept<V, J: FnOnce(&V) -> R, R>(s: Seq<ActionBlock<J, R>>, view: V) -> bool {
    forall|i: int|
        0 <= i < s.len() ==> (#[trigger] s[i] matches ActionBlock::Uncalled(_, job) ==> job.requires(
            (&view,),
        ))
}

/// `post` is `pre` after the owning thread ran every parked request on
/// `view`: each `Uncalled(t, job)` became `Called(t, r)` with `r` a result
/// of `job`, and every other slot is unchanged.
pub open spec fn ran_requests<V, J: FnOnce(&V) -> R, R>(
    pre: Seq<ActionBlock<J, R>>,
    post: Seq<ActionBlock<J, R>>,
    view: V,
) -> bool {
    &&& post.len() == pre.len()
    &&& forall|i: int|
        0 <= i < pre.len() ==> ran_slot(#[trigger] pre[i], post[i], view)
}

/// One slot of `ran_requests`.
pub open spec fn ran_slot<V, J: FnOnce(&V) -> R, R>(
    pre: ActionBlock<J, R>,
    post: ActionBlock<J, R>,
    view: V,
) -> bool {
    match pre {
        ActionBlock::Uncalled(t, job) => post matches ActionBlock::Called(u, r) && u == t
            && job.ensures((&view,), r),
        _ => post == pre,
    }
}

/// Thread `t` has neither a pending request nor an untaken result in `s`.
pub open spec fn no_entry_for<J, R>(s: Seq<ActionBlock<J, R>>, t: u32) -> bool {
    forall|i: int|
        0 <= i < s.len() ==> !is_called_for(#[trigger] s[i], t) && !is_uncalled_for(s[i], t)
}

proof fn lemma_first_empty_from<J, R>(s: Seq<ActionBlock<J, R>>, i: int)
    requires
        0 <= i <= s.len(),
    ensures
        i <= first_empty_from(s, i) <= s.len(),
        first_empty_from(s, i) < s.len() ==> s[first_empty_from(s, i)] is Empty,
        forall|j: int| i <= j < first_empty_from(s, i) ==> !(#[trigger] s[j] is Empty),
    decreases s.len() - i,
{
    if i < s.len() && !(s[i] is Empty) {
        lemma_first_empty_from(s, i + 1);
    }
}

proof fn lemma_first_called_at<J, R>(s: Seq<ActionBlock<J, R>>, t: u32, i: int, k: int)
    requires
        0 <= i <= k <= s.len(),
        k < s.len() ==> is_called_for(s[k], t),
        forall|j: int| i <= j < k ==> !is_called_for(#[trigger] s[j], t),
    ensures
        first_called_from(s, t, i) == k,
    decreases k - i,
{
    if i < k {
        lemma_first_called_at(s, t, i + 1, k);
    }
}

/// A request from a thread with no other entry in the table comes back to
/// it: after the thread parks `job`, and the owning thread runs the parked
/// requests on `view`, the thread's next poll takes a result of `job` on
/// `view`, and the table then holds no entry of that thread any more.
pub proof fn lemma_request_round_trip<V, J: FnOnce(&V) -> R, R>(
    pre: Seq<ActionBlock<J, R>>,
    post: Seq<ActionBlock<J, R>>,
    t: u32,
    job: J,
    view: V,
)
    requires
        no_entry_for(pre, t),
        ran_requests(with_request(pre, t, job), post, view),
    ensures
        result_for(post, t) matches Some(r) && job.ensures((&view,), r),
        no_entry_for(without_result(post, t), t),
{
    let mid = with_request(pre, t, job);
    let k = first_empty(pre);
    lemma_first_empty_from(pre, 0);
    assert(mid[k] == ActionBlock::<J, R>::Uncalled(t, job));
    assert(ran_slot(mid[k], post[k], view));
    assert forall|j: int| 0 <= j < post.len() && j != k implies !is_called_for(
        #[trigger] post[j],
        t,
    ) && !is_uncalled_for(post[j], t) by {
        assert(mid[j] == pre[j]);
        assert(ran_slot(mid[j], post[j], view));
    }
    lemma_first_called_at(post, t, 0, k);
    let after = without_result(post, t);
    assert forall|j: int| 0 <= j < after.len() implies !is_called_for(#[trigger] after[j], t)
        && !is_uncalled_for(after[j], t) by {
        if j != k {
            assert(after[j] == post[j]);
        }
    }
}

/// A thread that polls before the owning thread has run its request takes
/// nothing, and the table is left as it was.
pub proof fn lemma_poll_before_run<J, R>(pre: Seq<ActionBlock<J, R>>, t: u32, job: J)
    requires
        no_entry_for(pre, t),
    ensures
        result_for(with_request(pre, t, job), t) is None,
        without_result(with_request(pre, t, job), t) == with_request(pre, t, job),
{
    let mid = with_request(pre, t, job);
    lemma_first_empty_from(pre, 0);
    let k = first_empty(pre);
    assert forall|j: int| 0 <= j < mid.len() implies !is_called_for(#[trigger] mid[j], t) by {
        if j != k {
            assert(mid[j] == pre[j]);
        }
    }
    lemma_first_called_at(mid, t, 0, mid.len() as int);
}

/// The table only grows when every slot is taken: a request parked while
/// some slot is free goes into the first free slot.
pub proof fn lemma_request_reuses_free_slot<J, R>(s: Seq<ActionBlock<J, R>>, t: u32, job: J, i: int)
    requires
        0 <= i < s.len(),
        s[i] is Empty,
    ensures
        with_request(s, t, job).len() == s.len(),
        first_empty(s) <= i,
        with_request(s, t, job)[first_empty(s)] == ActionBlock::<J, R>::Uncalled(t, job),
{
    lemma_first_empty_from(s, 0);
}

/// Taking a result frees exactly its slot: the result taken is the one in
/// the first slot holding a result for the thread, and every other slot is
/// unchanged.
pub proof fn lemma_take_frees_one_slot<J, R>(s: Seq<ActionBlock<J, R>>, t: u32)
    requires
        exists|i: int| 0 <= i < s.len() && is_called_for(#[trigger] s[i], t),
    ensures
        ({
            let k = first_called(s, t);
            &&& 0 <= k < s.len()
            &&& s[k] matches ActionBlock::Called(u, r) && u == t && result_for(s, t) == Some(r)
            &&& without_result(s, t)[k] is Empty
            &&& forall|j: int| 0 <= j < s.len() && j != k ==> #[trigger] without_result(s, t)[j] == s[j]
        }),
{
    lemma_first_called_props(s, t, 0);
}

proof fn lemma_first_called_props<J, R>(s: Seq<ActionBlock<J, R>>, t: u32, i: int)
    requires
        0 <= i <= s.len(),
    ensures
        i <= first_called_from(s, t, i) <= s.len(),
        first_called_from(s, t, i) < s.len() ==> is_called_for(s[first_called_from(s, t, i)], t),
        forall|j: int| i <= j < first_called_from(s, t, i) ==> !is_called_for(#[trigger] s[j], t),
    decreases s.len() - i,
{
    if i < s.len() && !is_called_for(s[i], t) {
        lemma_first_called_props(s, t, i + 1);
    }
}

/// Each request runs once: after the owning thread ran the parked
/// requests, none is left pending, so running them again changes nothing.
pub proof fn lemma_requests_run_once<V, J: FnOnce(&V) -> R, R>(
    pre: Seq<ActionBlock<J, R>>,
    mid: Seq<ActionBlock<J, R>>,
    post: Seq<ActionBlock<J, R>>,
    view: V,
)
    requires
        ran_requests(pre, mid, view),
        ran_requests(mid, post, view),
    ensures
        forall|i: int| 0 <= i < mid.len() ==> !(#[trigger] mid[i] is Uncalled),
        post == mid,
{
    assert forall|i: int| 0 <= i < mid.len() implies !(#[trigger] mid[i] is Uncalled) by {
        assert(ran_slot(pre[i], mid[i], view));
    }
    assert forall|i: int| 0 <= i < mid.len() implies #[trigger] post[i] == mid[i] by {
        assert(ran_slot(mid[i], post[i], view));
        assert(ran_slot(pre[i], mid[i], view));
    }
    assert(post =~= mid);
}

/// The thread that slot `b` belongs to; a free slot belongs to none.
pub open spec fn slot_thread<J, R>(b: ActionBlock<J, R>) -> Option<u32> {
    match b {
        ActionBlock::Uncalled(t, _) => Some(t),
        ActionBlock::Called(t, _) => Some(t),
        ActionBlock::Empty => None,
    }
}

/// The table of action blocks of a view owned by thread `owner` is well
/// formed: it has at least `DEFAULT_CAPACITY` slots, no slot belongs to the
/// owning thread (it never waits for itself), and no thread has more than
/// one slot (a thread waits for one request at a time).
pub open spec fn blocks_wf<J, R>(s: Seq<ActionBlock<J, R>>, owner: u32) -> bool {
    &&& s.len() >= DEFAULT_CAPACITY
    &&& forall|i: int| 0 <= i < s.len() ==> #[trigger] slot_thread(s[i]) != Some(owner)
    &&& forall|i: int, j: int|
        0 <= i < s.len() && 0 <= j < s.len() && i != j && #[trigger] slot_thread(s[i]) is Some
            ==> slot_thread(s[i]) != #[trigger] slot_thread(s[j])
}

/// Thread `t` has no slot in the table.
proof fn lemma_no_entry_slot_thread<J, R>(s: Seq<ActionBlock<J, R>>, t: u32)
    requires
        no_entry_for(s, t),
    ensures
        forall|i: int| 0 <= i < s.len() ==> #[trigger] slot_thread(s[i]) != Some(t),
{
    assert forall|i: int| 0 <= i < s.len() implies #[trigger] slot_thread(s[i]) != Some(t) by {
        assert(!is_called_for(s[i], t) && !is_uncalled_for(s[i], t));
    }
}

/// Parking a request keeps the table well formed, when the requesting
/// thread is not the owning one and has no slot yet.
pub proof fn lemma_park_keeps_wf<J, R>(s: Seq<ActionBlock<J, R>>, owner: u32, t: u32, job: J)
    requires
        blocks_wf(s, owner),
        t != owner,
        no_entry_for(s, t),
    ensures
        blocks_wf(with_request(s, t, job), owner),
{
    let n = with_request(s, t, job);
    let k = first_empty(s);
    lemma_first_empty_from(s, 0);
    lemma_no_entry_slot_thread(s, t);
    assert(slot_thread(n[k]) == Some(t));
    assert forall|i: int| 0 <= i < n.len() implies #[trigger] slot_thread(n[i]) != Some(owner) by {
        if i != k {
            assert(n[i] == s[i]);
        }
    }
    assert forall|i: int, j: int|
        0 <= i < n.len() && 0 <= j < n.len() && i != j && #[trigger] slot_thread(n[i]) is Some
            implies slot_thread(n[i]) != #[trigger] slot_thread(n[j]) by {
        if i != k {
            assert(n[i] == s[i]);
        }
        if j != k {
            assert(n[j] == s[j]);
        }
        if i != k && j != k {
            assert(slot_thread(s[i]) != slot_thread(s[j]));
        }
    }
}

/// Running the parked requests keeps the table well formed: every slot
/// keeps its thread.
pub proof fn lemma_run_keeps_wf<V, J: FnOnce(&V) -> R, R>(
    pre: Seq<ActionBlock<J, R>>,
    post: Seq<ActionBlock<J, R>>,
    owner: u32,
    view: V,
)
    requires
        blocks_wf(pre, owner),
        ran_requests(pre, post, view),
    ensures
        blocks_wf(post, owner),
{
    assert forall|i: int| 0 <= i < post.len() implies #[trigger] slot_thread(post[i]) == slot_thread(
        pre[i],
    ) by {
        assert(ran_slot(pre[i], post[i], view));
    }
    assert forall|i: int, j: int|
        0 <= i < post.len() && 0 <= j < post.len() && i != j && #[trigger] slot_thread(post[i]) is Some
            implies slot_thread(post[i]) != #[trigger] slot_thread(post[j]) by {
        assert(slot_thread(post[i]) == slot_thread(pre[i]));
        assert(slot_thread(post[j]) == slot_thread(pre[j]));
    }
}

/// Taking a result out keeps the table well formed, and the thread that
/// took it has no slot left.
pub proof fn lemma_take_keeps_wf<J, R>(s: Seq<ActionBlock<J, R>>, owner: u32, t: u32)
    requires
        blocks_wf(s, owner),
    ensures
        blocks_wf(without_result(s, t), owner),
        result_for(s, t) is Some ==> no_entry_for(without_result(s, t), t),
{
    let n = without_result(s, t);
    let k = first_called(s, t);
    lemma_first_called_props(s, t, 0);
    assert forall|i: int| 0 <= i < n.len() implies #[trigger] slot_thread(n[i]) != Some(owner) by {
        if i != k {
            assert(n[i] == s[i]);
        }
    }
    assert forall|i: int, j: int|
        0 <= i < n.len() && 0 <= j < n.len() && i != j && #[trigger] slot_thread(n[i]) is Some
            implies slot_thread(n[i]) != #[trigger] slot_thread(n[j]) by {
        assert(n[i] == s[i]);
        if j != k {
            assert(n[j] == s[j]);
            assert(slot_thread(s[i]) != slot_thread(s[j]));
        }
    }
    if k < s.len() {
        assert(slot_thread(s[k]) == Some(t));
        assert forall|i: int| 0 <= i < n.len() implies !is_called_for(#[trigger] n[i], t)
            && !is_uncalled_for(n[i], t) by {
            if i != k {
                assert(n[i] == s[i]);
                assert(slot_thread(s[k]) != slot_thread(s[i]));
            }
        }
    }
}

/// A table of `count` free slots.
pub fn empty_action_blocks<J, R>(count: usize) -> (r: Vec<ActionBlock<J, R>>)
    ensures
        r@.len() == count,
        count >= DEFAULT_CAPACITY ==> forall|owner: u32| #[trigger] blocks_wf(r@, owner),
        forall|i: int| 0 <= i < count ==> #[trigger] r@[i] is Empty,
{
    let mut r: Vec<ActionBlock<J, R>> = Vec::with_capacity(count);
    let mut n: usize = 0;
    while n < count
        invariant
            n <= count,
            r@.len() == n,
            forall|i: int| 0 <= i < n ==> #[trigger] r@[i] is Empty,
        decreases count - n,
    {
        r.push(ActionBlock::Empty);
        n = n + 1;
    }
    r
}

/// Takes the first result for thread `current_id` out of the table.
///
/// This is one poll of a thread that waits for its request: `None` means
/// the owning thread has not run it yet.
pub fn take_called<J, R>(blocks: &mut Vec<ActionBlock<J, R>>, current_id: u32) -> (r: Option<R>)
    ensures
        r == result_for(old(blocks)@, current_id),
        final(blocks)@ == without_result(old(blocks)@, current_id),
        forall|owner: u32| #[trigger]
            blocks_wf(old(blocks)@, owner) ==> blocks_wf(final(blocks)@, owner),
        r is Some && (exists|owner: u32| #[trigger] blocks_wf(old(blocks)@, owner)) ==> no_entry_for(
            final(blocks)@,
            current_id,
        ),
{
    proof {
        assert forall|owner: u32| #[trigger] blocks_wf(old(blocks)@, owner) implies blocks_wf(
            without_result(old(blocks)@, current_id),
            owner,
        ) && (result_for(old(blocks)@, current_id) is Some ==> no_entry_for(
            without_result(old(blocks)@, current_id),
            current_id,
        )) by {
            lemma_take_keeps_wf(old(blocks)@, owner, current_id);
        }
    }
    let len = blocks.len();
    let mut i: usize = 0;
    while i < len
        invariant
            len == blocks@.len(),
            blocks@ == old(blocks)@,
            i <= len,
            first_called(blocks@, current_id) == first_called_from(blocks@, current_id, i as int),
        decreases len - i,
    {
        let found = match &blocks[i] {
            ActionBlock::Called(owner, _) => *owner == current_id,
            _ => false,
        };
        if found {
            let mut slot = ActionBlock::Empty;
            std::mem::swap(&mut slot, &mut blocks[i]);
            match slot {
                ActionBlock::Called(_, result) => {
                    assert(blocks@ =~= without_result(old(blocks)@, current_id));
                    proof {
                        if exists|owner: u32| #[trigger] blocks_wf(old(blocks)@, owner) {
                            let owner = choose|owner: u32| #[trigger] blocks_wf(old(blocks)@, owner);
                            lemma_take_keeps_wf(old(blocks)@, owner, current_id);
                        }
                    }
                    return Some(result);
                },
                _ => {
                    assert(false);
                    return None;
                },
            }
        }
        i = i + 1;
    }
    None
}

/// A view that may only be used on the thread that created its window.
pub struct ThreadLockedView<V> {
    view: V,
    thread_id: u32,
}

impl<V> ThreadLockedView<V> {
    /// The view that is guarded.
    pub closed spec fn spec_view(&self) -> V {
        self.view
    }

    /// The id of the thread that owns the view.
    pub closed spec fn spec_thread_id(&self) -> u32 {
        self.thread_id
    }

    /// Locks `view` to the thread with id `thread_id`, the thread that
    /// created its window.
    pub fn new(view: V, thread_id: u32) -> (r: Self)
        ensures
            r.spec_view() == view,
            r.spec_thread_id() == thread_id,
    {
        ThreadLockedView { view, thread_id }
    }

    /// The guarded view itself, for what may be done with it on any thread,
    /// such as reading its window handle.
    pub fn view(&self) -> (r: &V)
        ensures
            *r == self.spec_view(),
    {
        &self.view
    }

    /// The id of the owning thread.
    pub fn thread_id(&self) -> (r: u32)
        ensures
            r == self.spec_thread_id(),
    {
        self.thread_id
    }

    /// Tries to execute `f` immediately.
    ///
    /// Returns `None` when `current_id` is not the owning thread.
    pub fn try_on_thread<F, R>(&self, current_id: u32, f: F) -> (r: Option<R>)
        where
            F: FnOnce(&V) -> R,
        requires
            current_id == self.spec_thread_id() ==> f.requires((&self.spec_view(),)),
        ensures
            r is Some <==> current_id == self.spec_thread_id(),
            r matches Some(v) ==> f.ensures((&self.spec_view(),), v),
    {
        if self.thread_id == current_id {
            Some(f(&self.view))
        } else {
            None
        }
    }

    /// Executes `f` on the view from whatever thread this is called on.
    ///
    /// The caller vouches that what `f` does is safe off the owning thread.
    pub fn try_on_trust<F, R>(&self, f: F) -> (r: R)
        where
            F: FnOnce(&V) -> R,
        requires
            f.requires((&self.spec_view(),)),
        ensures
            f.ensures((&self.spec_view(),), r),
    {
        f(&self.view)
    }

    /// Runs `f` now when called on the owning thread, after every action
    /// still waiting in `queue`, in arrival order, leaving `queue` empty;
    /// from any other thread, appends `f` to `queue` instead.
    pub fn queue_on_thread<Q>(&self, queue: &mut VecDeque<Q>, current_id: u32, f: Q)
        where
            Q: FnOnce(&V),
        requires
            current_id == self.spec_thread_id() ==> {
                &&& f.requires((&self.spec_view(),))
                &&& forall|i: int|
                    0 <= i < old(queue)@.len() ==> (#[trigger] old(queue)@[i]).requires(
                        (&self.spec_view(),),
                    )
            },
        ensures
            current_id == self.spec_thread_id() ==> {
                &&& final(queue)@ == Seq::<Q>::empty()
                &&& forall|i: int|
                    0 <= i < old(queue)@.len() ==> (#[trigger] old(queue)@[i]).ensures(
                        (&self.spec_view(),),
                        (),
                    )
                &&& f.ensures((&self.spec_view(),), ())
            },
            current_id != self.spec_thread_id() ==> final(queue)@ == old(queue)@.push(f),
    {
        if self.thread_id == current_id {
            let ghost pending = queue@;
            let ghost mut done: int = 0;
            loop
                invariant
                    0 <= done <= pending.len(),
                    queue@ == pending.subrange(done, pending.len() as int),
                    forall|i: int|
                        0 <= i < pending.len() ==> (#[trigger] pending[i]).requires(
                            (&self.view,),
                        ),
                    forall|i: int| 0 <= i < done ==> (#[trigger] pending[i]).ensures((&self.view,), ()),
                ensures
                    queue@ == Seq::<Q>::empty(),
                    forall|i: int| 0 <= i < pending.len() ==> (#[trigger] pending[i]).ensures((&self.view,), ()),
                decreases queue@.len(),
            {
                match queue.pop_front() {
                    Some(action) => {
                        assert(action == pending[done]);
                        action(&self.view);
                        proof {
                            done = done + 1;
                        }
                    },
                    None => {
                        break ;
                    },
                }
            }
            f(&self.view);
        } else {
            queue.push_back(f);
        }
    }

    /// Runs every request parked in `blocks` on the view, turning each
    /// `Uncalled` slot into `Called` with its result.
    ///
    /// Private: parked work runs only through `block_on_thread` called on
    /// the owning thread.
    fn run_requests<J, R>(&self, blocks: &mut Vec<ActionBlock<J, R>>)
        where
            J: FnOnce(&V) -> R,
        requires
            requests_accept(old(blocks)@, self.spec_view()),
        ensures
            ran_requests(old(blocks)@, final(blocks)@, self.spec_view()),
    {
        let len = blocks.len();
        let mut i: usize = 0;
        while i < len
            invariant
                len == blocks@.len(),
                len == old(blocks)@.len(),
                i <= len,
                requests_accept(old(blocks)@, self.view),
                forall|k: int| 0 <= k < i ==> ran_slot(#[trigger] old(blocks)@[k], blocks@[k], self.view),
                forall|k: int| i <= k < len ==> #[trigger] blocks@[k] == old(blocks)@[k],
            decreases len - i,
        {
            if blocks[i].is_uncalled() {
                let mut slot = ActionBlock::Empty;
                std::mem::swap(&mut slot, &mut blocks[i]);
                match slot {
                    ActionBlock::Uncalled(owner, job) => {
                        assert(old(blocks)@[i as int] matches ActionBlock::Uncalled(_, j) && j == job);
                        let result = job(&self.view);
                        blocks[i] = ActionBlock::Called(owner, result);
                    },
                    _ => {
                        assert(false);
                    },
                }
            }
            i = i + 1;
        }
    }

    /// The part of a blocking call that does not wait.
    ///
    /// On the owning thread: runs every parked request, then `f`, and
    /// returns `f`'s result.  On any other thread: parks `f` as a request of
    /// `current_id` in the first free slot (a new slot at the end when none
    /// is free) and returns `None`; the caller then polls with
    /// [`take_called`] until the owning thread has run it.
    pub fn block_on_thread<J, R>(&self, blocks: &mut Vec<ActionBlock<J, R>>, current_id: u32, f: J) -> (r: Option<R>)
        where
            J: FnOnce(&V) -> R,
        requires
            current_id == self.spec_thread_id() ==> {
                &&& f.requires((&self.spec_view(),))
                &&& requests_accept(old(blocks)@, self.spec_view())
            },
        ensures
            current_id == self.spec_thread_id() ==> {
                &&& r matches Some(v) && f.ensures((&self.spec_view(),), v)
                &&& ran_requests(old(blocks)@, final(blocks)@, self.spec_view())
            },
            current_id != self.spec_thread_id() ==> {
                &&& r is None
                &&& final(blocks)@ == with_request(old(blocks)@, current_id, f)
            },
            blocks_wf(old(blocks)@, self.spec_thread_id()) && (current_id != self.spec_thread_id()
                ==> no_entry_for(old(blocks)@, current_id)) ==> blocks_wf(
                final(blocks)@,
                self.spec_thread_id(),
            ),
    {
        if self.thread_id == current_id {
            self.run_requests(blocks);
            proof {
                if blocks_wf(old(blocks)@, self.thread_id) {
                    lemma_run_keeps_wf(old(blocks)@, blocks@, self.thread_id, self.view);
                }
            }
            Some(f(&self.view))
        } else {
            park_request(blocks, current_id, f);
            proof {
                if blocks_wf(old(blocks)@, self.thread_id) && no_entry_for(old(blocks)@, current_id) {
                    lemma_park_keeps_wf(old(blocks)@, self.thread_id, current_id, f);
                }
            }
            None
        }
    }
}

/// Parks request `job` of thread `t` in the first free slot, or in a new
/// slot at the end when none is free.
pub fn park_request<J, R>(blocks: &mut Vec<ActionBlock<J, R>>, t: u32, job: J)
    ensures
        final(blocks)@ == with_request(old(blocks)@, t, job),
{
    let len = blocks.len();
    let mut i: usize = 0;
    while i < len
        invariant
            len == blocks@.len(),
            blocks@ == old(blocks)@,
            i <= len,
            first_empty(blocks@) == first_empty_from(blocks@, i as int),
        decreases len - i,
    {
        if blocks[i].is_empty() {
            blocks[i] = ActionBlock::Uncalled(t, job);
            return;
        }
        i = i + 1;
    }
    blocks.push(ActionBlock::Uncalled(t, job));
}

} // verus!

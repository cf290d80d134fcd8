use crate::geometry::Rect;
use heapless::spsc::Queue;
use vstd::prelude::*;

verus! {

#[verifier::external_type_specification]
#[verifier::external_body]
#[verifier::reject_recursive_types(T)]
pub struct ExQueue<T, const N: usize>(Queue<T, N>);

/// Most bullets the player's queue holds (`Queue<_, 2>` keeps one slot free).
pub const PLAYER_SHOT_CAPACITY: usize = 1;

/// Most bullets the enemy's queue holds (`Queue<_, 5>` keeps one slot free).
pub const ENEMY_SHOT_CAPACITY: usize = 4;

/// What a player bullet queue holds, oldest first.
pub uninterp spec fn player_shots(q: Queue<Rect, 2>) -> Seq<Rect>;

/// What an enemy bullet queue holds, oldest first.
pub uninterp spec fn enemy_shots(q: Queue<Rect, 5>) -> Seq<Rect>;

/// The contents after enqueuing `item` into a queue holding `items` and bounded
/// by `cap`: appended when there is room, dropped when the queue is full.
pub open spec fn enqueue_model(items: Seq<Rect>, cap: nat, item: Rect) -> Seq<Rect> {
    if items.len() < cap {
        items.push(item)
    } else {
        items
    }
}

/// The contents after enqueuing every item of `xs` in order, starting from `items`.
pub open spec fn enqueue_all(items: Seq<Rect>, cap: nat, xs: Seq<Rect>) -> Seq<Rect>
    decreases xs.len(),
{
    if xs.len() == 0 {
        items
    } else {
        enqueue_model(enqueue_all(items, cap, xs.drop_last()), cap, xs.last())
    }
}

proof fn lemma_enqueue_all_prefix(cap: nat, xs: Seq<Rect>)
    requires
        xs.len() <= cap,
    ensures
        enqueue_all(seq![], cap, xs) == xs,
    decreases xs.len(),
{
    if xs.len() > 0 {
        lemma_enqueue_all_prefix(cap, xs.drop_last());
        assert(xs.drop_last().push(xs.last()) =~= xs);
    }
}

/// Enqueuing `cap + 1` items into an empty queue of capacity `cap` keeps exactly
/// the first `cap` of them: the last one is dropped.
pub proof fn lemma_enqueue_past_capacity(cap: nat, xs: Seq<Rect>)
    requires
        xs.len() == cap + 1,
    ensures
        enqueue_all(seq![], cap, xs) == xs.drop_last(),
        enqueue_all(seq![], cap, xs).len() == cap,
{
    lemma_enqueue_all_prefix(cap, xs.drop_last());
}

/// Relies on heapless' `Queue::new`: an empty queue.
#[verifier::external_body]
pub(crate) fn player_queue_new() -> (r: Queue<Rect, 2>)
    ensures
        player_shots(r) == Seq::<Rect>::empty(),
{
    Queue::new()
}

/// Relies on heapless' `Queue::len`: the number of queued items, at most `N - 1`.
#[verifier::external_body]
pub(crate) fn player_queue_len(q: &Queue<Rect, 2>) -> (r: usize)
    ensures
        r == player_shots(*q).len(),
        r <= PLAYER_SHOT_CAPACITY,
{
    q.len()
}

/// Relies on heapless' `Queue::is_full`: whether `N - 1` items are queued.
#[verifier::external_body]
pub(crate) fn player_queue_is_full(q: &Queue<Rect, 2>) -> (r: bool)
    ensures
        r == (player_shots(*q).len() == PLAYER_SHOT_CAPACITY),
{
    q.is_full()
}

/// Relies on heapless' `Queue::enqueue`: appends at the back, or hands the item
/// back and leaves the queue as it was when it is full.
#[verifier::external_body]
pub(crate) fn player_queue_enqueue(q: &mut Queue<Rect, 2>, item: Rect) -> (r: Result<(), Rect>)
    ensures
        player_shots(*final(q)) == enqueue_model(
            player_shots(*old(q)),
            PLAYER_SHOT_CAPACITY as nat,
            item,
        ),
        r is Ok <==> player_shots(*old(q)).len() < PLAYER_SHOT_CAPACITY,
{
    q.enqueue(item)
}

/// Relies on heapless' `Queue::dequeue`: removes and returns the oldest item.
#[verifier::external_body]
pub(crate) fn player_queue_dequeue(q: &mut Queue<Rect, 2>) -> (r: Option<Rect>)
    ensures
        player_shots(*old(q)).len() == 0 ==> r is None && player_shots(*final(q)) == player_shots(
            *old(q),
        ),
        player_shots(*old(q)).len() > 0 ==> r == Some(player_shots(*old(q))[0])
            && player_shots(*final(q)) == player_shots(*old(q)).drop_first(),
{
    q.dequeue()
}

/// Relies on heapless' `Queue::new`: an empty queue.
#[verifier::external_body]
pub(crate) fn enemy_queue_new() -> (r: Queue<Rect, 5>)
    ensures
        enemy_shots(r) == Seq::<Rect>::empty(),
{
    Queue::new()
}

/// Relies on heapless' `Queue::len`: the number of queued items, at most `N - 1`.
#[verifier::external_body]
pub(crate) fn enemy_queue_len(q: &Queue<Rect, 5>) -> (r: usize)
    ensures
        r == enemy_shots(*q).len(),
        r <= ENEMY_SHOT_CAPACITY,
{
    q.len()
}

/// Relies on heapless' `Queue::is_full`: whether `N - 1` items are queued.
#[verifier::external_body]
pub(crate) fn enemy_queue_is_full(q: &Queue<Rect, 5>) -> (r: bool)
    ensures
        r == (enemy_shots(*q).len() == ENEMY_SHOT_CAPACITY),
{
    q.is_full()
}

/// Relies on heapless' `Queue::enqueue`: appends at the back, or hands the item
/// back and leaves the queue as it was when it is full.
#[verifier::external_body]
pub(crate) fn enemy_queue_enqueue(q: &mut Queue<Rect, 5>, item: Rect) -> (r: Result<(), Rect>)
    ensures
        enemy_shots(*final(q)) == enqueue_model(
            enemy_shots(*old(q)),
            ENEMY_SHOT_CAPACITY as nat,
            item,
        ),
        r is Ok <==> enemy_shots(*old(q)).len() < ENEMY_SHOT_CAPACITY,
{
    q.enqueue(item)
}

/// Relies on heapless' `Queue::dequeue`: removes and returns the oldest item.
#[verifier::external_body]
pub(crate) fn enemy_queue_dequeue(q: &mut Queue<Rect, 5>) -> (r: Option<Rect>)
    ensures
        enemy_shots(*old(q)).len() == 0 ==> r is None && enemy_shots(*final(q)) == enemy_shots(
            *old(q),
        ),
        enemy_shots(*old(q)).len() > 0 ==> r == Some(enemy_shots(*old(q))[0]) && enemy_shots(
            *final(q),
        ) == enemy_shots(*old(q)).drop_first(),
{
    q.dequeue()
}

/// Relies on heapless' `Queue::iter`, which walks from the front to the back:
/// its last item is the most recently enqueued one.
#[verifier::external_body]
pub(crate) fn enemy_queue_newest(q: &Queue<Rect, 5>) -> (r: Option<Rect>)
    ensures
        enemy_shots(*q).len() == 0 ==> r is None,
        enemy_shots(*q).len() > 0 ==> r == Some(enemy_shots(*q).last()),
{
    q.iter().last().copied()
}

} // verus!

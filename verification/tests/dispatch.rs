use std::cell::{Cell, RefCell};
use std::collections::VecDeque;

use rosin::dispatch::{empty_action_blocks, park_request, take_called, ActionBlock, ThreadLockedView, DEFAULT_CAPACITY};

type Job = Box<dyn FnOnce(&i32) -> i32>;

fn job(k: i32) -> Job {
    Box::new(move |v: &i32| *v * k)
}

#[test]
fn try_on_thread_runs_only_on_owning_thread() {
    let view = ThreadLockedView::new(21, 4);
    assert_eq!(view.thread_id(), 4);
    assert_eq!(view.try_on_thread(4, |v: &i32| *v * 2), Some(42));
    assert_eq!(view.try_on_thread(5, |v: &i32| *v * 2), None);
}

#[test]
fn try_on_trust_runs_on_any_thread() {
    let view = ThreadLockedView::new(7, 1);
    assert_eq!(view.try_on_trust(|v: &i32| *v + 1), 8);
}

#[test]
fn queue_on_thread_defers_off_thread_and_runs_in_order() {
    let view = ThreadLockedView::new(RefCell::new(Vec::<u32>::new()), 1);
    let mut queue: VecDeque<Box<dyn FnOnce(&RefCell<Vec<u32>>)>> = VecDeque::new();
    view.queue_on_thread(&mut queue, 2, Box::new(|v: &RefCell<Vec<u32>>| v.borrow_mut().push(10)));
    view.queue_on_thread(&mut queue, 3, Box::new(|v: &RefCell<Vec<u32>>| v.borrow_mut().push(20)));
    assert_eq!(queue.len(), 2);
    view.try_on_trust(|v: &RefCell<Vec<u32>>| assert!(v.borrow().is_empty()));
    view.queue_on_thread(&mut queue, 1, Box::new(|v: &RefCell<Vec<u32>>| v.borrow_mut().push(30)));
    assert!(queue.is_empty());
    let seen = view.try_on_trust(|v: &RefCell<Vec<u32>>| v.borrow().clone());
    assert_eq!(seen, vec![10, 20, 30]);
}

#[test]
fn empty_action_blocks_are_all_free() {
    let blocks: Vec<ActionBlock<Job, i32>> = empty_action_blocks(DEFAULT_CAPACITY);
    assert_eq!(blocks.len(), 64);
    assert!(blocks.iter().all(|b| b.is_empty() && !b.is_called() && !b.is_uncalled()));
}

#[test]
fn block_on_thread_round_trip_returns_the_callers_result() {
    let view = ThreadLockedView::new(5, 1);
    let mut blocks: Vec<ActionBlock<Job, i32>> = empty_action_blocks(3);
    assert_eq!(view.block_on_thread(&mut blocks, 2, job(3)), None);
    assert_eq!(view.block_on_thread(&mut blocks, 9, job(100)), None);
    assert!(blocks[0].is_uncalled() && blocks[1].is_uncalled() && blocks[2].is_empty());
    // a poll before the owning thread ran the request takes nothing
    assert_eq!(take_called(&mut blocks, 2), None);
    // the owning thread runs the pending requests, then its own job
    assert_eq!(view.block_on_thread(&mut blocks, 1, job(7)), Some(35));
    assert!(blocks[0].is_called() && blocks[1].is_called());
    assert_eq!(take_called(&mut blocks, 2), Some(15));
    assert_eq!(take_called(&mut blocks, 2), None);
    assert!(blocks[0].is_empty());
    assert_eq!(take_called(&mut blocks, 9), Some(500));
    assert!(blocks.iter().all(|b| b.is_empty()));
}

#[test]
fn park_request_reuses_the_first_free_slot() {
    let mut blocks: Vec<ActionBlock<u8, u8>> = vec![ActionBlock::Called(1, 0), ActionBlock::Empty, ActionBlock::Empty];
    park_request(&mut blocks, 4, 9);
    assert_eq!(blocks.len(), 3);
    assert!(matches!(blocks[1], ActionBlock::Uncalled(4, 9)));
    assert!(blocks[2].is_empty());
}

#[test]
fn park_request_appends_when_no_slot_is_free() {
    let mut blocks: Vec<ActionBlock<u8, u8>> = vec![ActionBlock::Uncalled(1, 0)];
    park_request(&mut blocks, 2, 5);
    assert_eq!(blocks.len(), 2);
    assert!(matches!(blocks[1], ActionBlock::Uncalled(2, 5)));
    let mut none: Vec<ActionBlock<u8, u8>> = Vec::new();
    park_request(&mut none, 3, 6);
    assert!(matches!(none[0], ActionBlock::Uncalled(3, 6)));
}

#[test]
fn take_called_takes_the_first_result_of_the_thread() {
    let mut blocks: Vec<ActionBlock<u8, u8>> = vec![
        ActionBlock::Called(2, 10),
        ActionBlock::Uncalled(1, 0),
        ActionBlock::Called(1, 11),
        ActionBlock::Called(1, 12),
    ];
    assert_eq!(take_called(&mut blocks, 1), Some(11));
    assert!(matches!(blocks[0], ActionBlock::Called(2, 10)));
    assert!(matches!(blocks[1], ActionBlock::Uncalled(1, 0)));
    assert!(blocks[2].is_empty());
    assert!(matches!(blocks[3], ActionBlock::Called(1, 12)));
    assert_eq!(take_called(&mut blocks, 3), None);
    assert_eq!(blocks.len(), 4);
}

#[test]
fn owner_run_keeps_results_and_free_slots() {
    let view = ThreadLockedView::new(2, 1);
    let mut blocks: Vec<ActionBlock<Job, i32>> = vec![ActionBlock::Called(3, 77), ActionBlock::Empty, ActionBlock::Uncalled(4, job(8))];
    assert_eq!(view.block_on_thread(&mut blocks, 1, job(1)), Some(2));
    assert!(matches!(blocks[0], ActionBlock::Called(3, 77)));
    assert!(blocks[1].is_empty());
    assert!(matches!(blocks[2], ActionBlock::Called(4, 16)));
}

#[test]
fn requests_run_once() {
    let view = ThreadLockedView::new(Cell::new(0u32), 1);
    type Counting = Box<dyn FnOnce(&Cell<u32>) -> u32>;
    let mut blocks: Vec<ActionBlock<Counting, u32>> = empty_action_blocks(2);
    park_request(&mut blocks, 2, Box::new(|c: &Cell<u32>| {
        c.set(c.get() + 1);
        c.get()
    }));
    let read: Counting = Box::new(|c: &Cell<u32>| c.get());
    assert_eq!(view.block_on_thread(&mut blocks, 1, read), Some(1));
    let read: Counting = Box::new(|c: &Cell<u32>| c.get());
    assert_eq!(view.block_on_thread(&mut blocks, 1, read), Some(1));
    assert_eq!(view.try_on_trust(|c: &Cell<u32>| c.get()), 1);
    assert_eq!(take_called(&mut blocks, 2), Some(1));
}

#[test]
fn off_thread_call_runs_nothing() {
    let view = ThreadLockedView::new(Cell::new(0u32), 1);
    type Counting = Box<dyn FnOnce(&Cell<u32>) -> u32>;
    let mut blocks: Vec<ActionBlock<Counting, u32>> = empty_action_blocks(DEFAULT_CAPACITY);
    let bump = || -> Counting {
        Box::new(|c: &Cell<u32>| {
            c.set(c.get() + 1);
            c.get()
        })
    };
    assert_eq!(view.block_on_thread(&mut blocks, 2, bump()), None);
    assert_eq!(view.block_on_thread(&mut blocks, 3, bump()), None);
    assert_eq!(view.try_on_trust(|c: &Cell<u32>| c.get()), 0);
    assert_eq!(blocks.len(), DEFAULT_CAPACITY);
    assert_eq!(take_called(&mut blocks, 2), None);
    assert_eq!(view.block_on_thread(&mut blocks, 1, bump()), Some(3));
    assert_eq!(take_called(&mut blocks, 3), Some(2));
    assert_eq!(take_called(&mut blocks, 2), Some(1));
    assert!(blocks.iter().all(|b| b.is_empty()));
}

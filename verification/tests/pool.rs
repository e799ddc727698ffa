use std::cell::Cell;
use triangles::pool::ScratchPool;

#[test]
fn pool_starts_empty() {
    let pool: ScratchPool<u8> = ScratchPool::new();
    assert_eq!(pool.len(), 0);
    assert_eq!(pool.find(1, 1), None);
}

#[test]
fn pool_finds_what_was_inserted() {
    let mut pool: ScratchPool<&str> = ScratchPool::new();
    assert_eq!(pool.insert(8, 8, "eight"), 0);
    assert_eq!(pool.insert(1, 2, "one by two"), 1);
    assert_eq!(pool.insert(2, 1, "two by one"), 2);
    assert_eq!(pool.len(), 3);
    assert_eq!(pool.find(1, 2), Some(1));
    assert_eq!(pool.find(2, 1), Some(2));
    assert_eq!(pool.find(8, 8), Some(0));
    assert_eq!(pool.find(2, 2), None);
    assert_eq!(*pool.get(1), "one by two");
}

#[test]
fn pool_replace_swaps_the_item_and_keeps_the_slot() {
    let mut pool: ScratchPool<String> = ScratchPool::new();
    pool.insert(4, 4, String::from("a"));
    pool.insert(5, 5, String::from("b"));
    pool.insert(6, 6, String::from("c"));
    let previous = pool.replace(1, String::from("B"));
    assert_eq!(previous, "b");
    assert_eq!(pool.len(), 3);
    assert_eq!(pool.get(0), "a");
    assert_eq!(pool.get(1), "B");
    assert_eq!(pool.get(2), "c");
    assert_eq!(pool.find(5, 5), Some(1));
    let last = pool.replace(2, String::from("C"));
    assert_eq!(last, "c");
    assert_eq!(pool.get(2), "C");
}

#[test]
fn pool_makes_an_item_on_first_use_only() {
    let made = Cell::new(0u32);
    let mut pool: ScratchPool<u32> = ScratchPool::new();
    let make = |value: u32| {
        made.set(made.get() + 1);
        value
    };
    assert_eq!(pool.get_or_insert_with(8, 8, || make(10)), 0);
    assert_eq!(made.get(), 1);
    assert_eq!(pool.get_or_insert_with(8, 4, || make(20)), 1);
    assert_eq!(made.get(), 2);
    assert_eq!(pool.get_or_insert_with(8, 8, || make(30)), 0);
    assert_eq!(pool.get_or_insert_with(8, 4, || make(40)), 1);
    assert_eq!(made.get(), 2);
    assert_eq!(*pool.get(0), 10);
    assert_eq!(*pool.get(1), 20);
    assert_eq!(pool.len(), 2);
}

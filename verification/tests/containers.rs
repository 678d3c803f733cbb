use datasize::data_size;
use datasize::growable::Deque;
use datasize::hashed::estimate_hash_table;
use datasize::hashed::HashedMap;
use datasize::hashed::HashedSet;
use datasize::ordered::PriorityQueue;
use datasize::ordered::TreeMap;
use datasize::ordered::TreeSet;

#[test]
fn bucket_array_rounding() {
    let entry: usize = core::mem::size_of::<(u64, u64)>();

    // Below 4 requested slots: 4 buckets.
    assert_eq!(estimate_hash_table::<(u64, u64)>(0), 4 * entry + 4);
    assert_eq!(estimate_hash_table::<(u64, u64)>(3), 4 * entry + 4);

    // Between 4 and 7: 8 buckets.
    assert_eq!(estimate_hash_table::<(u64, u64)>(4), 8 * entry + 8);
    assert_eq!(estimate_hash_table::<(u64, u64)>(7), 8 * entry + 8);

    // From 8 on: capacity x 8 / 7 rounded up to a power of two.
    assert_eq!(estimate_hash_table::<(u64, u64)>(8), 16 * entry + 16);
    assert_eq!(estimate_hash_table::<(u64, u64)>(14), 16 * entry + 16);
    assert_eq!(estimate_hash_table::<(u64, u64)>(28), 32 * entry + 32);
    assert_eq!(estimate_hash_table::<(u64, u64)>(100), 128 * entry + 128);
}

#[test]
fn hashed_map_table_plus_entries() {
    let mut map: HashedMap<u64, Box<u64>> = HashedMap::with_capacity(5);
    map.insert(1, Box::new(2));
    map.insert(3, Box::new(4));

    let entry: usize = core::mem::size_of::<(u64, Box<u64>)>();
    assert_eq!(data_size(&map), 8 * entry + 8 + 2 * 8);
}

#[test]
fn hashed_set_models_unit_values() {
    let mut set: HashedSet<u32> = HashedSet::new();
    let entry: usize = core::mem::size_of::<(u32, ())>();
    assert_eq!(data_size(&set), 4 * entry + 4);

    set.insert(1);
    set.insert(2);
    set.insert(3);
    assert_eq!(data_size(&set), 4 * entry + 4);
}

#[test]
fn tree_map_per_entry_cost() {
    let map: TreeMap<u64, u64> = TreeMap::from_entries(vec![(1, 10), (2, 20), (3, 30)]);
    let entry: usize = core::mem::size_of::<(u64, u64)>();
    assert_eq!(data_size(&map), 3 * entry);

    let boxed: TreeMap<u64, Box<u32>> = TreeMap::from_entries(vec![
        (1, Box::new(10)),
        (2, Box::new(20)),
    ]);
    let boxed_entry: usize = core::mem::size_of::<(u64, Box<u32>)>();
    assert_eq!(data_size(&boxed), 2 * boxed_entry + 2 * 4);
}

#[test]
fn tree_set_per_entry_cost() {
    let set: TreeSet<u32> = TreeSet::from_elems(vec![1, 2]);
    assert_eq!(data_size(&set), 2 * core::mem::size_of::<u32>());

    let empty: TreeSet<u32> = TreeSet::new();
    assert_eq!(data_size(&empty), 0);
}

#[test]
fn priority_queue_costed_like_a_set() {
    let mut queue: PriorityQueue<Box<u32>> = PriorityQueue::new();
    assert_eq!(data_size(&queue), 0);

    queue.push(Box::new(1));
    queue.push(Box::new(2));
    let slot: usize = core::mem::size_of::<Box<u32>>();
    assert_eq!(data_size(&queue), 2 * slot + 2 * 4);
}

#[test]
fn deque_counts_whole_buffer() {
    let mut deque: Deque<u64> = Deque::new();
    assert_eq!(data_size(&deque), 0);

    deque.push_back(1);
    deque.push_back(2);
    deque.push_back(3);
    // Grown to one, then three slots.
    assert_eq!(data_size(&deque), 3 * 8);

    deque.push_front(0);
    // Grown to seven slots.
    assert_eq!(data_size(&deque), 7 * 8);

    assert_eq!(deque.pop_front(), 0);
    assert_eq!(deque.pop_front(), 1);
    // Removal keeps the allocated buffer.
    assert_eq!(data_size(&deque), 7 * 8);
    assert_eq!(deque.len(), 2);
}

use datasize::boxed::OwnedSlice;
use datasize::cow::CowValue;
use datasize::data_size;
use datasize::growable::ResizableArray;
use datasize::hashed::HashedMap;
use datasize::inline_vec::InlineVec;
use datasize::shared::WeakArc;
use datasize::shared::WeakRc;
use datasize::strings::HeapString;
use datasize::strings::OwnedStr;
use datasize::DataSize;

#[test]
fn test_box() {
    let value: Box<u64> = Box::new(1234);

    assert_eq!(data_size::<Box<u64>>(&value), 8);
    assert_eq!(data_size(&value), 8);
}

#[test]
fn test_option_box() {
    let value_none: Option<Box<u64>> = None;
    let value_some: Option<Box<u64>> = Some(Box::new(12345));

    assert_eq!(data_size::<Option<Box<u64>>>(&value_none), 0);
    assert_eq!(data_size::<Option<Box<u64>>>(&value_some), 8);
}

#[test]
fn test_box_slice() {
    let value: OwnedSlice<u8> = OwnedSlice::from_vec(b"abcdef".to_vec());

    assert_eq!(data_size::<OwnedSlice<u8>>(&value), 6);
    assert_eq!(data_size(&value), 6);
}

#[test]
fn test_cow() {
    let backing = HeapString::from_bytes(b"hello".to_vec());
    let value: CowValue<HeapString> = CowValue::Borrowed(&backing);
    assert_eq!(data_size(&value), 0);

    let value_owned: CowValue<HeapString> = CowValue::Owned(HeapString::from_bytes(
        b"hello".to_vec(),
    ));

    assert_eq!(
        data_size(&value_owned),
        data_size(&HeapString::from_bytes(b"hello".to_vec()))
    );
}

#[test]
fn test_string() {
    let value = HeapString::from_bytes(b"abcdef".to_vec());

    assert_eq!(data_size(&value), 6);
}

#[test]
fn test_box_str() {
    let value = OwnedStr::from_bytes(b"abcdef".to_vec());

    assert_eq!(data_size::<OwnedStr>(&value), 6);
    assert_eq!(data_size(&value), 6);
}

#[test]
fn owned_slice_of_dynamic_elements_sums_each() {
    let value: OwnedSlice<HeapString> = OwnedSlice::from_vec(vec![
        HeapString::from_bytes(b"abc".to_vec()),
        HeapString::from_bytes(b"defgh".to_vec()),
    ]);

    // Dynamic elements: the per-element sum, with no slot term.
    assert_eq!(data_size(&value), 3 + 5);
}

#[test]
fn owned_slice_of_static_elements_charges_slots() {
    let value: OwnedSlice<Box<u32>> = OwnedSlice::from_vec(vec![Box::new(7), Box::new(9)]);

    // Non-dynamic elements: their contribution is folded into the
    // buffer's slots, charged by inline size.
    assert_eq!(data_size(&value), 2 * core::mem::size_of::<Box<u32>>());
}

#[test]
fn shared_and_weak_references_report_zero() {
    let owned: ResizableArray<u64> = ResizableArray::from_vec(vec![1, 2, 3]);
    assert!(data_size(&owned) > 0);

    let rc = std::rc::Rc::new(ResizableArray::<u64>::from_vec(vec![1, 2, 3]));
    assert_eq!(data_size(&rc), 0);
    let weak_rc: WeakRc<ResizableArray<u64>> = WeakRc::downgrade(&rc);
    assert_eq!(data_size(&weak_rc), 0);

    let arc = std::sync::Arc::new(ResizableArray::<u64>::from_vec(vec![1, 2, 3]));
    assert_eq!(data_size(&arc), 0);
    let weak_arc: WeakArc<ResizableArray<u64>> = WeakArc::downgrade(&arc);
    assert_eq!(data_size(&weak_arc), 0);
}

#[test]
fn scenario_empty_then_reserved_array() {
    let mut value: ResizableArray<u64> = ResizableArray::new();
    assert_eq!(data_size(&value), 0);

    value.reserve_exact(10);
    assert_eq!(data_size(&value), 80);
}

#[test]
fn scenario_boxed_four_byte_integer() {
    let value: Box<u32> = Box::new(77);

    assert_eq!(data_size(&value), 4);
}

#[test]
fn scenario_empty_hash_map_floor_cost() {
    let value: HashedMap<u32, u64> = HashedMap::new();

    let entry_size: usize = core::mem::size_of::<(u32, u64)>();
    assert_eq!(data_size(&value), 4 * entry_size + 4);
}

#[test]
fn scenario_small_vector_spill() {
    let mut value: InlineVec<Box<u64>> = InlineVec::new(1);
    value.push(Box::new(1));

    // Within inline capacity: only the element's own contribution.
    assert!(!value.spilled());
    assert_eq!(value.estimate_heap_size(), 8);

    // The second push spills to a heap buffer, whose whole capacity is
    // now charged.
    value.push(Box::new(2));
    assert!(value.spilled());
    let slot: usize = core::mem::size_of::<Box<u64>>();
    assert_eq!(value.estimate_heap_size(), 3 * slot + 16);
}

#[test]
fn estimate_is_idempotent() {
    let value: ResizableArray<Box<u32>> = ResizableArray::from_vec(vec![
        Box::new(1),
        Box::new(2),
    ]);

    let first = value.estimate_heap_size();
    let second = value.estimate_heap_size();
    assert_eq!(first, second);
    assert_eq!(first, data_size(&value));
}

#[test]
fn reserving_grows_by_slot_size() {
    let mut value: ResizableArray<u64> = ResizableArray::from_vec(vec![1, 2, 3]);
    let before = data_size(&value);

    value.reserve_exact(7);
    let after = data_size(&value);
    assert!(after >= before);
    assert_eq!(after, before + 7 * 8);
}

#[test]
fn fixed_size_arrays_have_no_buffer_term() {
    let boxes: [Box<u32>; 3] = [Box::new(1), Box::new(2), Box::new(3)];
    // Non-dynamic elements: three static contributions, no slots.
    assert_eq!(data_size(&boxes), 3 * 4);

    let strings: [HeapString; 2] = [
        HeapString::from_bytes(b"ab".to_vec()),
        HeapString::from_bytes(b"cdef".to_vec()),
    ];
    // Dynamic elements: the per-element sum.
    assert_eq!(data_size(&strings), 2 + 4);
}

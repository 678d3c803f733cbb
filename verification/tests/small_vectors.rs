use datasize::aggregates::OneByte;
use datasize::data_size;
use datasize::inline_vec::InlineVec;
use datasize::DataSize;

#[test]
fn nonspilled_smallvec_counts_children() {
    let mut v: InlineVec<OneByte> = InlineVec::new(1);
    assert_eq!(v.estimate_heap_size(), 0);

    v.push(OneByte);
    assert_eq!(v.estimate_heap_size(), OneByte::static_heap_size());
}

#[test]
fn spilled_smallvec_counts_children() {
    let mut v: InlineVec<OneByte> = InlineVec::new(1);
    assert_eq!(v.estimate_heap_size(), 0);

    v.push(OneByte);
    v.push(OneByte);
    assert_eq!(v.estimate_heap_size(), OneByte::static_heap_size() * 2);
}

#[test]
fn nonspilled_smallvec_via_data_size() {
    let mut v: InlineVec<OneByte> = InlineVec::new(4);
    v.push(OneByte);
    v.push(OneByte);

    // Two occupied inline slots, no heap buffer: the elements alone.
    assert!(!v.spilled());
    assert_eq!(data_size(&v), 2);
}

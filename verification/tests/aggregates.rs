// User-defined aggregates sum the footprints of their counted fields;
// a skipped field or variant is excluded from both compile-time facts
// and the runtime sum.

use datasize::aggregates::Example;
use datasize::aggregates::Foo;
use datasize::aggregates::GenericExample;
use datasize::aggregates::GenericFoo;
use datasize::aggregates::Inner;
use datasize::aggregates::NewtypeFoo;
use datasize::aggregates::Skipper;
use datasize::aggregates::TupleFoo;
use datasize::data_size;
use datasize::growable::ResizableArray;
use datasize::DataSize;

#[test]
fn test_struct() {
    // Start with a small example struct.
    let mut ex = Example {
        count: 99,
        my_data: ResizableArray::new(),
        warning: None,
        skipped: Box::new(char::default()),
    };

    // We expect a heap size of 0, as the array is empty and no box allocated.
    assert_eq!(data_size(&ex), 0);

    // Adding a `warning` causes a heap allocation.
    ex.warning = Some(Box::new(12345));
    assert_eq!(data_size(&ex), 4);

    // Reserve some capacity on `my_data`.
    ex.my_data.reserve_exact(10);
    assert_eq!(data_size(&ex), 4 + 10 * 8)
}

#[test]
fn test_enum() {
    let bar = Foo::Bar;
    assert_eq!(data_size(&bar), 0);

    let baz = Foo::Baz {
        boxed: Box::new(123),
        nonheap: 99,
        extra: Box::new(456),
    };
    assert_eq!(data_size(&baz), 4);

    let bert = Foo::Bert(
        ResizableArray::from_vec(vec![5, 6, 7, 8, 9]),
        ResizableArray::from_vec(vec![1, 2, 3, 4, 5]),
    );
    assert_eq!(data_size(&bert), 5 * 4);

    let skipped = Foo::Skipped(ResizableArray::from_vec(vec![-1, 1, 99, 100]));
    assert_eq!(data_size(&skipped), 0);
}

#[test]
fn test_generic_struct() {
    let none: GenericExample<Box<u32>, Box<u8>> = GenericExample {
        a: None,
        b: None,
        c: 123,
    };
    assert_eq!(data_size(&none), 0);

    let a: GenericExample<Box<u32>, Box<u8>> = GenericExample {
        a: Some(Box::new(0)),
        b: None,
        c: 123,
    };
    assert_eq!(data_size(&a), 4);

    let both: GenericExample<Box<u32>, Box<u8>> = GenericExample {
        a: Some(Box::new(0)),
        b: Some(Box::new(0)),
        c: 123,
    };
    assert_eq!(data_size(&both), 5);
}

#[test]
fn test_enum_variant_with_single_skipped_field() {
    let specimen = Skipper::OnlyVariant {
        skip_me: Box::new(123u8),
    };
    assert_eq!(data_size(&specimen), 0);
}

#[test]
fn test_data_size_inner_box() {
    let inner = Inner {
        value: Box::new(0),
        dummy: 0,
    };

    let boxed = Box::new(inner.clone());

    let inner_size: usize = core::mem::size_of::<Inner>();
    assert_eq!(8, data_size(&inner));
    assert_eq!(8 + inner_size, data_size(&boxed));
}

#[test]
fn test_generic_enum() {
    let baz: GenericFoo<u8, u16, u32, u64> = GenericFoo::Baz {
        boxed: Box::new(123),
        extra: Box::new(456),
    };
    assert_eq!(data_size(&baz), 1);

    let bert: GenericFoo<u8, u16, u32, u64> = GenericFoo::Bert(
        ResizableArray::from_vec(vec![5, 6, 7, 8, 9]),
        ResizableArray::from_vec(vec![1, 2, 3, 4, 5]),
        Box::new(1),
    );
    assert_eq!(data_size(&bert), 5 + 1);

    let skipped: GenericFoo<u8, u16, u32, u64> = GenericFoo::Skipped(
        ResizableArray::from_vec(vec![1, 1, 99, 100]),
    );
    assert_eq!(data_size(&skipped), 0);
}

#[test]
fn test_generic_newtype_struct() {
    assert!(!NewtypeFoo::<Box<u32>>::is_dynamic());
    assert_eq!(NewtypeFoo::<Box<u32>>::static_heap_size(), 4);
    assert_eq!(data_size(&NewtypeFoo(Box::new(123u32))), 4);
}

#[test]
fn test_generic_tuple_struct() {
    assert!(!TupleFoo::<Box<u32>>::is_dynamic());
    assert_eq!(TupleFoo::<Box<u32>>::static_heap_size(), 5);
    assert_eq!(
        data_size(&TupleFoo(Box::new(123u32), Box::new(45), Box::new(0))),
        5
    );
}

use pascal_marshal::MarshalError;
use pascal_marshal::PascalDynamicArray;

#[test]
fn test_pascal_dynamic_array() {
    let mut array = PascalDynamicArray::new();
    let mut vec = Vec::new();
    for i in 0..10 {
        array.append(i);
        vec.push(i);
    }
    assert_eq!(array.len(), 10);
    for i in 0..10 {
        assert_eq!(*array.get(i).unwrap(), vec[i]);
    }
    let vec2: Vec<i32> = array.into_elems();
    assert_eq!(vec, vec2);
}

#[test]
fn test_pascal_dynamic_array_clear() {
    let mut array = PascalDynamicArray::new();
    for i in 0..10 {
        array.append(i);
    }
    array.clear();
    assert_eq!(array.len(), 0);
}

#[test]
fn test_get_out_of_range() {
    let mut array = PascalDynamicArray::new();
    array.append(5u8);
    assert_eq!(array.get(0), Some(&5u8));
    assert_eq!(array.get(1), None);
    assert_eq!(array.get(100), None);
}

#[test]
fn test_free_counts_allocations_once() {
    let mut array = PascalDynamicArray::new();
    for i in 0..4 {
        array.append(i);
    }
    // four elements plus the table, released exactly once
    assert_eq!(array.free(), 5);
    assert_eq!(array.len(), 0);
    assert_eq!(array.free(), 0);
    assert_eq!(array.free(), 0);
}

#[test]
fn test_free_on_null_table() {
    let mut array: PascalDynamicArray<u8> = PascalDynamicArray::new();
    assert_eq!(array.free(), 0);
}

#[test]
fn test_from_terminated_takes_prefix() {
    let slots = vec![Some(10), Some(20), None, Some(30)];
    let array = PascalDynamicArray::from_terminated(slots).unwrap();
    assert_eq!(array.len(), 2);
    assert_eq!(*array.get(0).unwrap(), 10);
    assert_eq!(*array.get(1).unwrap(), 20);
    assert_eq!(array.get(2), None);
}

#[test]
fn test_from_terminated_leading_terminator() {
    let slots: Vec<Option<u8>> = vec![None, Some(1)];
    let array = PascalDynamicArray::from_terminated(slots).unwrap();
    assert_eq!(array.len(), 0);
}

#[test]
fn test_from_terminated_missing_terminator() {
    let slots = vec![Some(1), Some(2)];
    let result = PascalDynamicArray::from_terminated(slots);
    assert!(matches!(result, Err(MarshalError::MissingTerminator)));
    let empty: Vec<Option<u8>> = Vec::new();
    let result = PascalDynamicArray::from_terminated(empty);
    assert!(matches!(result, Err(MarshalError::MissingTerminator)));
}

#[test]
fn test_from_elems_and_detach() {
    let array = PascalDynamicArray::from_elems(vec![1u8, 2, 3]);
    assert_eq!(array.len(), 3);
    assert_eq!(array.detach(), Some(vec![1u8, 2, 3]));
    let fresh: PascalDynamicArray<u8> = PascalDynamicArray::new();
    assert_eq!(fresh.detach(), None);
}

use gela::UnpaddedElement;

fn assert_unpadded<T: UnpaddedElement>() {
    let size = size_of::<T>();
    assert!(size != 0 && size.is_multiple_of(4));
}

fn assert_size_multiple_of_four<T>() {
    let size = size_of::<T>();
    assert!(size != 0 && size.is_multiple_of(4));
}

#[test]
fn element_sizes_are_multiples_of_four() {
    assert_size_multiple_of_four::<f32>();
    assert_size_multiple_of_four::<f64>();
    assert_unpadded::<i32>();
    assert_unpadded::<u32>();
    assert_unpadded::<i64>();
    assert_unpadded::<u64>();
    assert_unpadded::<i128>();
    assert_unpadded::<u128>();
    assert_unpadded::<isize>();
    assert_unpadded::<usize>();
}

use parallel_vec::layout::{append_column, block_layout, field_layout, pack, BlockLayout};

#[test]
fn a_field_layout_is_that_of_the_type() {
    assert_eq!(field_layout::<u8>(), BlockLayout { size: 1, align: 1 });
    assert_eq!(field_layout::<u32>(), BlockLayout { size: 4, align: 4 });
    assert_eq!(
        field_layout::<u64>(),
        BlockLayout { size: std::mem::size_of::<u64>(), align: std::mem::align_of::<u64>() }
    );
    assert_eq!(field_layout::<()>(), BlockLayout { size: 0, align: 1 });
}

#[test]
fn columns_are_padded_to_their_alignment() {
    let fields = vec![
        BlockLayout { size: 1, align: 1 },
        BlockLayout { size: 8, align: 8 },
        BlockLayout { size: 2, align: 2 },
        BlockLayout { size: 4, align: 4 },
    ];
    let (layout, offsets) = pack(&fields, 3).unwrap();
    assert_eq!(offsets, vec![0, 8, 32, 40]);
    assert_eq!(layout, BlockLayout { size: 52, align: 8 });
    let (layout, offsets) = pack(&fields, 8).unwrap();
    assert_eq!(offsets, vec![0, 8, 72, 88]);
    assert_eq!(layout, BlockLayout { size: 120, align: 8 });
}

#[test]
fn the_order_of_the_fields_decides_the_padding() {
    let small_first = vec![BlockLayout { size: 1, align: 1 }, BlockLayout { size: 8, align: 8 }];
    let large_first = vec![BlockLayout { size: 8, align: 8 }, BlockLayout { size: 1, align: 1 }];
    assert_eq!(pack(&small_first, 5), Some((BlockLayout { size: 48, align: 8 }, vec![0, 8])));
    assert_eq!(pack(&large_first, 5), Some((BlockLayout { size: 45, align: 8 }, vec![0, 40])));
}

#[test]
fn a_field_without_size_has_no_column() {
    let fields = vec![
        BlockLayout { size: 4, align: 4 },
        BlockLayout { size: 0, align: 16 },
        BlockLayout { size: 1, align: 1 },
        BlockLayout { size: 0, align: 1 },
    ];
    assert_eq!(pack(&fields, 3), Some((BlockLayout { size: 15, align: 4 }, vec![0, 0, 12, 0])));
}

#[test]
fn no_records_and_no_fields_take_no_memory() {
    let fields = vec![BlockLayout { size: 4, align: 4 }, BlockLayout { size: 8, align: 8 }];
    assert_eq!(pack(&fields, 0), Some((BlockLayout { size: 0, align: 8 }, vec![0, 0])));
    assert_eq!(pack(&Vec::new(), 7), Some((BlockLayout { size: 0, align: 1 }, Vec::new())));
}

#[test]
fn a_block_that_is_too_large_cannot_be_laid_out() {
    let limit = isize::MAX as usize;
    let fields = vec![BlockLayout { size: 1, align: 1 }, BlockLayout { size: 8, align: 8 }];
    assert_eq!(pack(&fields, limit), None);
    assert_eq!(pack(&fields, limit / 8), None);
    assert_eq!(pack(&fields, usize::MAX), None);
    let bytes = vec![BlockLayout { size: 1, align: 1 }];
    assert_eq!(pack(&bytes, limit), Some((BlockLayout { size: limit, align: 1 }, vec![0])));
    assert_eq!(pack(&bytes, limit + 1), None);
    let words = vec![BlockLayout { size: 8, align: 8 }];
    assert_eq!(pack(&words, limit / 8), Some((BlockLayout { size: limit - 7, align: 8 }, vec![0])));
    assert_eq!(pack(&words, limit / 8 + 1), None);
}

#[test]
fn a_column_is_appended_after_the_padding() {
    let block = BlockLayout { size: 5, align: 4 };
    assert_eq!(
        append_column(block, BlockLayout { size: 2, align: 2 }, 3),
        Some((BlockLayout { size: 12, align: 4 }, 6))
    );
    assert_eq!(
        append_column(block, BlockLayout { size: 16, align: 16 }, 1),
        Some((BlockLayout { size: 32, align: 16 }, 16))
    );
    assert_eq!(append_column(block, BlockLayout { size: 0, align: 64 }, 9), Some((block, 0)));
    assert_eq!(append_column(block, BlockLayout { size: 2, align: 2 }, usize::MAX), None);
}

#[test]
fn the_block_of_a_record_shape() {
    let (layout, offsets) = block_layout::<(u8, u32, u16)>(4).unwrap();
    assert_eq!(offsets, vec![0, 4, 20]);
    assert_eq!(layout, BlockLayout { size: 28, align: 4 });
    let (layout, offsets) = block_layout::<(u32, (), u8)>(10).unwrap();
    assert_eq!(offsets, vec![0, 0, 40]);
    assert_eq!(layout, BlockLayout { size: 50, align: 4 });
    assert_eq!(block_layout::<(u8, u16)>(usize::MAX / 2), None);
}

use parallel_vec::{ParallelVec, ParallelVecConversionError};

#[test]
fn columns_of_one_length_convert() {
    let converted = ParallelVec::try_from((vec![1, 2, 3], vec!['a', 'b', 'c']));
    assert!(converted.is_ok());
    let vec = converted.unwrap();
    assert_eq!(vec.len(), 3);
    assert_eq!(vec.capacity(), 3);
    assert_eq!(vec.index(0), (&1, &'a'));
    assert_eq!(vec.index(2), (&3, &'c'));
}

#[test]
fn columns_of_different_length_do_not_convert() {
    let converted = ParallelVec::<(i32, char)>::try_from((vec![1, 2, 3], vec!['a', 'b']));
    assert!(matches!(converted, Err(ParallelVecConversionError::UnevenLengths)));
    let converted =
        ParallelVec::<(i32, char, bool)>::try_from((vec![1], vec!['a'], vec![true, false]));
    assert!(matches!(converted, Err(ParallelVecConversionError::UnevenLengths)));
    let converted =
        ParallelVec::<(i32, char, bool)>::try_from((Vec::new(), vec!['a'], vec![true]));
    assert!(matches!(converted, Err(ParallelVecConversionError::UnevenLengths)));
}

#[test]
fn empty_columns_convert() {
    let converted = ParallelVec::<(i32, char, bool)>::try_from((vec![], vec![], vec![]));
    let vec = converted.unwrap();
    assert!(vec.is_empty());
    assert_eq!(vec.capacity(), 0);
}

#[test]
fn from_vecs_tells_columns_of_different_length() {
    let good = ParallelVec::<(u8, u8)>::from_vecs((vec![1, 2], vec![3, 4]));
    assert_eq!(good.unwrap().index(1), (&2, &4));
    let bad = ParallelVec::<(u8, u8)>::from_vecs((vec![1, 2], vec![3]));
    assert_eq!(bad.err(), Some(ParallelVecConversionError::UnevenLengths));
}

#[test]
fn the_error_can_be_told_from_itself() {
    let error = ParallelVecConversionError::UnevenLengths;
    assert_eq!(error, error.clone());
    assert_eq!(format!("{:?}", error), "UnevenLengths");
}

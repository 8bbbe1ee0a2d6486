use idek_basics::{Array2D, Array3D};

#[test]
fn array3d_from_array_reads_back() {
    let data: Vec<u32> = (0..24).collect();
    let a = Array3D::from_array(2, 3, data.clone());
    assert_eq!(a.width(), 2);
    assert_eq!(a.height(), 3);
    assert_eq!(a.length(), 4);
    for z in 0..4 {
        for y in 0..3 {
            for x in 0..2 {
                assert_eq!(*a.get((x, y, z)), data[x + y * 2 + z * 6]);
            }
        }
    }
    assert_eq!(a.data(), &data[..]);
}

#[test]
fn array3d_from_array_single_layer() {
    let a = Array3D::from_array(3, 1, vec![7u8, 8, 9]);
    assert_eq!(a.length(), 1);
    assert_eq!(*a.get((2, 0, 0)), 9);
}

#[test]
fn array3d_from_array_empty() {
    let a: Array3D<u8> = Array3D::from_array(2, 2, Vec::new());
    assert_eq!(a.length(), 0);
    assert!(a.data().is_empty());
}

#[test]
fn array3d_new_is_default() {
    let a: Array3D<u16> = Array3D::new(2, 3, 4);
    assert_eq!(a.data().len(), 24);
    assert!(a.data().iter().all(|v| *v == 0));
    assert_eq!((a.width(), a.height(), a.length()), (2, 3, 4));
}

#[test]
fn array3d_new_with_zero_dimension() {
    let a: Array3D<u16> = Array3D::new(5, 0, 4);
    assert!(a.data().is_empty());
}

#[test]
fn array3d_get_mut_changes_one_cell() {
    let mut a: Array3D<i32> = Array3D::new(2, 2, 2);
    *a.get_mut((1, 0, 1)) = 5;
    assert_eq!(*a.get((1, 0, 1)), 5);
    assert_eq!(a.data()[1 + 4], 5);
    assert_eq!(a.data().iter().filter(|v| **v != 0).count(), 1);
}

#[test]
fn array3d_data_mut_bulk() {
    let mut a: Array3D<i32> = Array3D::new(2, 1, 2);
    for (k, v) in a.data_mut().iter_mut().enumerate() {
        *v = k as i32 * 10;
    }
    assert_eq!(*a.get((1, 0, 1)), 30);
    assert_eq!(*a.get((0, 0, 1)), 20);
}

#[test]
fn array2d_from_array_reads_back() {
    let data: Vec<i64> = (0..12).map(|v| v * 3).collect();
    let a = Array2D::from_array(4, data.clone());
    assert_eq!(a.width(), 4);
    assert_eq!(a.height(), 3);
    for y in 0..3 {
        for x in 0..4 {
            assert_eq!(*a.get((x, y)), data[x + y * 4]);
        }
    }
}

#[test]
fn array2d_new_is_default() {
    let a: Array2D<bool> = Array2D::new(3, 2);
    assert_eq!(a.data(), &[false; 6][..]);
}

#[test]
fn array2d_get_mut_and_data_mut() {
    let mut a: Array2D<u8> = Array2D::new(2, 2);
    *a.get_mut((0, 1)) = 9;
    assert_eq!(a.data(), &[0, 0, 9, 0][..]);
    a.data_mut()[3] = 4;
    assert_eq!(*a.get((1, 1)), 4);
}

use zonaris::raster::RasterGrid;

#[test]
fn fill_cells_are_transparent_whatever_shade_is_offered() {
    let grid = RasterGrid::new(2, 2, -32767, vec![-32767, 5, 7, -32767]).unwrap();
    let image = grid.render(&vec![Some(200), Some(0), Some(255), Some(13)]).unwrap();
    assert_eq!(
        image,
        vec![0, 0, 0, 0, 0, 0, 0, 255, 255, 255, 255, 255, 0, 0, 0, 0]
    );
}

#[test]
fn valid_cells_are_opaque_grey() {
    let grid = RasterGrid::new(3, 1, 0, vec![1, 2, 3]).unwrap();
    let image = grid.render(&vec![Some(0), Some(127), Some(255)]).unwrap();
    assert_eq!(image, vec![0, 0, 0, 255, 127, 127, 127, 255, 255, 255, 255, 255]);
}

#[test]
fn cells_without_shade_are_transparent() {
    let grid = RasterGrid::new(1, 2, 0, vec![1, 2]).unwrap();
    let image = grid.render(&vec![None, Some(9)]).unwrap();
    assert_eq!(image, vec![0, 0, 0, 0, 9, 9, 9, 255]);
}

#[test]
fn grid_without_measurements_is_transparent_throughout() {
    let grid = RasterGrid::new(2, 2, 4, vec![4, 4, 4, 4]).unwrap();
    assert_eq!(grid.valid_count(), 0);
    assert_eq!(grid.measurements(), vec![None, None, None, None]);
    let image = grid.render(&vec![Some(1), Some(2), Some(3), Some(4)]).unwrap();
    assert_eq!(image, vec![0u8; 16]);
    let empty = RasterGrid::new(0, 0, 4, vec![]).unwrap();
    assert_eq!(empty.render(&vec![]).unwrap(), Vec::<u8>::new());
    assert_eq!(empty.valid_count(), 0);
}

#[test]
fn measurements_leave_the_fill_value_out() {
    let grid = RasterGrid::new(2, 2, -32767, vec![-32767, 5, i16::MAX, i16::MIN]).unwrap();
    assert_eq!(grid.measurements(), vec![None, Some(5), Some(i16::MAX), Some(i16::MIN)]);
    assert_eq!(grid.valid_count(), 3);
    assert_eq!((grid.width(), grid.height(), grid.len()), (2, 2, 4));
}

#[test]
fn grid_needs_one_count_per_cell() {
    assert!(RasterGrid::new(2, 2, 0, vec![1, 2, 3]).is_none());
    assert!(RasterGrid::new(2, 2, 0, vec![1, 2, 3, 4, 5]).is_none());
    assert!(RasterGrid::new(usize::MAX, 2, 0, vec![]).is_none());
    assert!(RasterGrid::new(0, 7, 0, vec![]).is_some());
}

#[test]
fn render_needs_one_shade_per_cell() {
    let grid = RasterGrid::new(2, 1, 0, vec![1, 2]).unwrap();
    assert!(grid.render(&vec![Some(1)]).is_none());
    assert!(grid.render(&vec![Some(1), None, None]).is_none());
}

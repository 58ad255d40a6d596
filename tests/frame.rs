use ascii_cast::frame::FrameBuffer;

#[test]
fn blank_frame_is_all_spaces() {
    let f = FrameBuffer::new(2, 3);
    assert_eq!(f.rows(), 2);
    assert_eq!(f.cols(), 3);
    assert_eq!(f.cells(), &vec![' '; 6]);
}

#[test]
fn resolution_gives_cell_grid() {
    let f = FrameBuffer::for_resolution(1920, 1080);
    assert_eq!(f.rows(), 67);
    assert_eq!(f.cols(), 240);
    assert_eq!(f.cells().len(), 67 * 240);
    let g = FrameBuffer::for_resolution(7, 15);
    assert_eq!(g.rows(), 0);
    assert_eq!(g.cols(), 0);
    assert!(g.cells().is_empty());
}

#[test]
fn set_then_get_touches_one_cell() {
    let mut f = FrameBuffer::new(2, 3);
    f.set(1, 2, '@');
    assert_eq!(f.get(1, 2), '@');
    assert_eq!(f.get(0, 2), ' ');
    assert_eq!(f.cells(), &vec![' ', ' ', ' ', ' ', ' ', '@']);
}

#[test]
fn from_cells_checks_size() {
    assert!(FrameBuffer::from_cells(2, 3, vec!['a'; 5]).is_none());
    assert!(FrameBuffer::from_cells(0, 3, vec!['a']).is_none());
    assert!(FrameBuffer::from_cells(3, 0, vec![]).is_some());
    let f = FrameBuffer::from_cells(2, 2, vec!['a', 'b', 'c', 'd']).unwrap();
    assert_eq!(f.get(1, 0), 'c');
}

#[test]
fn text_prints_last_row_first() {
    let f = FrameBuffer::from_cells(2, 3, "abcdef".chars().collect()).unwrap();
    let text: String = f.to_text().into_iter().collect();
    assert_eq!(text, "def\nabc\n");
}

#[test]
fn text_of_empty_frame_is_empty() {
    let f = FrameBuffer::new(0, 4);
    assert!(f.to_text().is_empty());
    let g = FrameBuffer::new(2, 0);
    let text: String = g.to_text().into_iter().collect();
    assert_eq!(text, "\n\n");
}

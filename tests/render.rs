use ascii_cast::render::pixel_offset;
use ascii_cast::render::render_parallel;
use ascii_cast::render::render_sequential;

#[test]
fn offsets_are_centred() {
    assert_eq!(pixel_offset(0, 3, 4), (-2, -1));
    assert_eq!(pixel_offset(3, 3, 4), (1, -1));
    assert_eq!(pixel_offset(6, 3, 4), (0, 0));
    assert_eq!(pixel_offset(11, 3, 4), (1, 1));
}

fn disc(x: i64, y: i64) -> char {
    // A round blob of radius 3 around the centre, brighter towards it.
    let d2 = x * x + y * y;
    if d2 == 0 {
        '@'
    } else if d2 <= 9 {
        'o'
    } else {
        ' '
    }
}

#[test]
fn sequential_render_places_each_cell() {
    let f = render_sequential(5, 7, disc);
    assert_eq!(f.rows(), 5);
    assert_eq!(f.cols(), 7);
    // Centre cell: row 2, column 3.
    assert_eq!(f.get(2, 3), '@');
    assert_eq!(f.get(0, 0), ' ');
    assert_eq!(f.get(2, 5), 'o');
    let text: String = f.to_text().into_iter().collect();
    assert_eq!(text, " ooooo \n ooooo \nooo@ooo\n ooooo \n ooooo \n");
}

#[test]
fn parallel_render_matches_sequential() {
    for &(rows, cols) in &[(0usize, 0usize), (1, 1), (5, 7), (67, 240), (4, 9)] {
        let s = render_sequential(rows, cols, disc);
        let p = render_parallel(rows, cols, disc);
        assert_eq!(s.cells(), p.cells());
        assert_eq!(p.rows(), rows);
        assert_eq!(p.cols(), cols);
    }
}

#[test]
fn parallel_render_keeps_cell_order() {
    let f = render_parallel(3, 4, |x: i64, y: i64| char::from(b'a' + ((y + 1) * 4 + (x + 2)) as u8));
    let cells: String = f.cells().iter().collect();
    assert_eq!(cells, "abcdefghijkl");
}

#[test]
fn centre_pixel_hits_and_corner_misses() {
    // A ray cast with one object straight ahead: only the centre pixel sees it.
    let hit = |x: i64, y: i64| if x == 0 && y == 0 { '#' } else { ' ' };
    let f = render_parallel(9, 16, hit);
    assert_eq!(f.get(4, 8), '#');
    assert_eq!(f.get(0, 0), ' ');
    assert_eq!(f.get(8, 15), ' ');
    assert_eq!(f.cells().iter().filter(|&&c| c != ' ').count(), 1);
}

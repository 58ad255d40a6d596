use ascii_cast::shade::palette_symbol;
use ascii_cast::shade::PALETTE_LEN;

#[test]
fn palette_ends_and_inner_levels() {
    assert_eq!(palette_symbol(0), '.');
    assert_eq!(palette_symbol(1), ',');
    assert_eq!(palette_symbol(2), ':');
    assert_eq!(palette_symbol(7), 'x');
    assert_eq!(palette_symbol(13), '9');
}

#[test]
fn palette_clamps_out_of_range_levels() {
    assert_eq!(palette_symbol(-1), '.');
    assert_eq!(palette_symbol(i64::MIN), '.');
    assert_eq!(palette_symbol(14), '9');
    assert_eq!(palette_symbol(i64::MAX), '9');
}

#[test]
fn palette_is_monotone_in_level() {
    let order = ".,:;*+ox%&#$@9";
    let rank = |c: char| order.find(c).unwrap();
    let mut last = 0;
    for level in -5i64..30 {
        let r = rank(palette_symbol(level));
        assert!(r >= last);
        assert!(r < PALETTE_LEN);
        last = r;
    }
}

#[test]
fn ambient_only_and_full_light_levels() {
    // Ambient alone: 0.2 * 14 = 2.8, level 2; ambient plus full diffuse: 0.8 * 14 = 11.2.
    let ambient: f32 = 0.2;
    let lit: f32 = 0.2 + 0.6;
    assert_eq!(palette_symbol((ambient * 14.0) as i64), ':');
    assert_eq!(palette_symbol((lit * 14.0) as i64), '$');
    assert_eq!(palette_symbol((1.5f32 * 14.0) as i64), '9');
}

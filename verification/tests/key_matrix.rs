use keypeek::key_matrix::KeyMatrix;
use keypeek::layout_key::LayoutKey;

fn sample() -> KeyMatrix {
    let base = vec![
        vec![Some(LayoutKey::simple("Q")), Some(LayoutKey::simple("W"))],
        vec![Some(LayoutKey::simple("A")), None],
    ];
    let upper = vec![vec![None, Some(LayoutKey::simple("2"))], vec![None, None]];
    KeyMatrix::from_layout_keys(vec![base, upper], 2, 2)
}

#[test]
fn new_matrix_has_nothing_pressed() {
    let m = sample();
    assert_eq!(m.get_num_layers(), 2);
    assert_eq!(m.pressed, vec![vec![false, false], vec![false, false]]);
    for r in 0..3 {
        for c in 0..3 {
            assert!(!m.is_pressed(r, c));
        }
    }
}

#[test]
fn get_key_and_transparency_agree() {
    let m = sample();
    assert_eq!(m.get_key(0, 0, 1).map(|k| k.tap.as_str()), Some("W"));
    assert_eq!(m.get_key(1, 0, 1).map(|k| k.tap.as_str()), Some("2"));
    for layer in 0..3 {
        for row in 0..3 {
            for col in 0..3 {
                assert_eq!(m.is_transparent(layer, row, col), m.get_key(layer, row, col).is_none());
            }
        }
    }
    assert!(m.is_transparent(1, 0, 0));
    assert!(m.is_transparent(5, 0, 0));
    assert!(!m.is_transparent(0, 1, 0));
}

#[test]
fn set_pressed_reads_back() {
    let mut m = sample();
    m.set_pressed(1, 0, true);
    assert!(m.is_pressed(1, 0));
    assert!(!m.is_pressed(0, 0));
    assert!(!m.is_pressed(1, 1));
    m.set_pressed(1, 0, false);
    assert!(!m.is_pressed(1, 0));
}

#[test]
fn set_pressed_outside_changes_nothing() {
    let mut m = sample();
    m.set_pressed(2, 0, true);
    m.set_pressed(0, 7, true);
    assert_eq!(m.pressed, vec![vec![false, false], vec![false, false]]);
    assert!(!m.is_pressed(2, 0));
}

#[test]
fn empty_matrix() {
    let m = KeyMatrix::from_layout_keys(Vec::new(), 0, 4);
    assert_eq!(m.get_num_layers(), 0);
    assert!(m.pressed.is_empty());
    assert!(m.get_key(0, 0, 0).is_none());
}

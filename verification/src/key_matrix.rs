//! The key matrix of a keyboard: the keys of each layer and which positions
//! are pressed.

use vstd::prelude::*;
use crate::layout_key::LayoutKey;

verus! {

/// Keys by layer, row and column, and the pressed state by row and column.
///
/// A `None` key is transparent: the layers below show through it.
pub struct KeyMatrix {
    /// Abstracted key storage.
    pub keys: Vec<Vec<Vec<Option<LayoutKey>>>>,
    pub pressed: Vec<Vec<bool>>,
}

/// A pressed state of `rows` rows of `cols` columns, none of them pressed.
pub open spec fn unpressed(rows: nat, cols: nat) -> Seq<Seq<bool>> {
    Seq::new(rows, |_r: int| Seq::new(cols, |_c: int| false))
}

/// Whether `(row, col)` is a position of the pressed state `p`.
pub open spec fn in_grid(p: Seq<Seq<bool>>, row: int, col: int) -> bool {
    0 <= row < p.len() && 0 <= col < p[row].len()
}

/// Whether `(row, col)` is pressed in `p`; a position outside `p` is not.
pub open spec fn pressed_in(p: Seq<Seq<bool>>, row: int, col: int) -> bool {
    in_grid(p, row, col) && p[row][col]
}

/// `p` with `(row, col)` set to `value`; `p` itself when the position is
/// outside it.
pub open spec fn with_pressed(p: Seq<Seq<bool>>, row: int, col: int, value: bool) -> Seq<
    Seq<bool>,
> {
    if in_grid(p, row, col) {
        p.update(row, p[row].update(col, value))
    } else {
        p
    }
}

/// After a position of the matrix is set, reading it gives the value written;
/// a position outside the matrix still reads as not pressed.
pub proof fn lemma_read_after_set(p: Seq<Seq<bool>>, row: int, col: int, value: bool)
    ensures
        pressed_in(with_pressed(p, row, col, value), row, col) == (in_grid(p, row, col) && value),
{
}

/// Setting one position leaves every other position as it was.
pub proof fn lemma_set_leaves_others(
    p: Seq<Seq<bool>>,
    row: int,
    col: int,
    value: bool,
    r: int,
    c: int,
)
    requires
        r != row || c != col,
    ensures
        pressed_in(with_pressed(p, row, col, value), r, c) == pressed_in(p, r, c),
{
}

/// Setting a position keeps the number of rows and the length of each row.
pub proof fn lemma_set_keeps_shape(p: Seq<Seq<bool>>, row: int, col: int, value: bool)
    ensures
        with_pressed(p, row, col, value).len() == p.len(),
        forall|r: int|
            0 <= r < p.len() ==> #[trigger] with_pressed(p, row, col, value)[r].len()
                == p[r].len(),
{
}

/// Of two writes to one position, the second wins.
pub proof fn lemma_last_set_wins(p: Seq<Seq<bool>>, row: int, col: int, first: bool, second: bool)
    ensures
        with_pressed(with_pressed(p, row, col, first), row, col, second) == with_pressed(
            p,
            row,
            col,
            second,
        ),
{
    if in_grid(p, row, col) {
        let q = with_pressed(p, row, col, first);
        assert(in_grid(q, row, col));
        assert(q[row].update(col, second) =~= p[row].update(col, second));
        assert(q.update(row, q[row].update(col, second)) =~= p.update(
            row,
            p[row].update(col, second),
        ));
    }
}

/// A new matrix has exactly the positions of `rows` rows of `cols` columns,
/// and none of them is pressed.
pub proof fn lemma_new_matrix_unpressed(rows: nat, cols: nat, r: int, c: int)
    ensures
        in_grid(unpressed(rows, cols), r, c) <==> (0 <= r < rows && 0 <= c < cols),
        !pressed_in(unpressed(rows, cols), r, c),
{
}

/// A position is transparent exactly when the matrix gives no key for it.
pub proof fn lemma_transparent_iff_no_key(m: KeyMatrix, layer: int, row: int, col: int)
    ensures
        m.transparent_at(layer, row, col) <==> m.key_at(layer, row, col) is None,
{
}

impl KeyMatrix {
    /// The pressed state as rows of booleans.
    pub open spec fn pressed_view(&self) -> Seq<Seq<bool>> {
        self.pressed@.map_values(|r: Vec<bool>| r@)
    }

    /// Whether `(layer, row, col)` is a position of the key storage.
    pub open spec fn has_position(&self, layer: int, row: int, col: int) -> bool {
        &&& 0 <= layer < self.keys@.len()
        &&& 0 <= row < self.keys@[layer]@.len()
        &&& 0 <= col < self.keys@[layer]@[row]@.len()
    }

    /// The key at `(layer, row, col)`: `None` when the position does not exist
    /// or holds a transparent key.
    pub open spec fn key_at(&self, layer: int, row: int, col: int) -> Option<LayoutKey> {
        if self.has_position(layer, row, col) {
            self.keys@[layer]@[row]@[col]
        } else {
            None
        }
    }

    /// Whether `(layer, row, col)` lets the layers below show through: the
    /// position does not exist, or it holds no key.
    pub open spec fn transparent_at(&self, layer: int, row: int, col: int) -> bool {
        !self.has_position(layer, row, col) || self.keys@[layer]@[row]@[col] is None
    }

    /// A matrix over the given keys, with `rows` rows of `cols` columns, none
    /// of them pressed.
    pub fn from_layout_keys(keys: Vec<Vec<Vec<Option<LayoutKey>>>>, rows: usize, cols: usize) -> (m:
        KeyMatrix)
        ensures
            m.keys == keys,
            m.pressed_view() == unpressed(rows as nat, cols as nat),
    {
        let mut pressed: Vec<Vec<bool>> = Vec::new();
        for r in 0..rows
            invariant
                pressed@.len() == r,
                forall|i: int| 0 <= i < r ==> #[trigger] pressed@[i]@ == Seq::new(
                    cols as nat,
                    |_c: int| false,
                ),
        {
            let mut row: Vec<bool> = Vec::new();
            for c in 0..cols
                invariant
                    row@ == Seq::new(c as nat, |_c: int| false),
            {
                row.push(false);
            }
            pressed.push(row);
        }
        let m = KeyMatrix { keys, pressed };
        assert(m.pressed_view() =~= unpressed(rows as nat, cols as nat));
        m
    }

    /// The number of layers.
    pub fn get_num_layers(&self) -> (n: usize)
        ensures
            n == self.keys@.len(),
    {
        self.keys.len()
    }

    /// The key at a position; `None` for a transparent key or a position that
    /// does not exist.
    pub fn get_key(&self, layer: usize, row: usize, col: usize) -> (r: Option<&LayoutKey>)
        ensures
            r is None <==> self.key_at(layer as int, row as int, col as int) is None,
            r matches Some(k) ==> self.key_at(layer as int, row as int, col as int) == Some(*k),
    {
        if layer < self.keys.len() {
            let l = &self.keys[layer];
            if row < l.len() {
                let r = &l[row];
                if col < r.len() {
                    return match &r[col] {
                        Some(k) => Some(k),
                        None => None,
                    };
                }
            }
        }
        None
    }

    /// Whether a position is transparent (no key, or no such position).
    pub fn is_transparent(&self, layer: usize, row: usize, col: usize) -> (b: bool)
        ensures
            b == self.transparent_at(layer as int, row as int, col as int),
    {
        if layer < self.keys.len() {
            let l = &self.keys[layer];
            if row < l.len() {
                let r = &l[row];
                if col < r.len() {
                    return r[col].is_none();
                }
            }
        }
        true
    }

    /// Whether a position is pressed; a position outside the matrix is not.
    pub fn is_pressed(&self, row: usize, col: usize) -> (b: bool)
        ensures
            b == pressed_in(self.pressed_view(), row as int, col as int),
    {
        if row < self.pressed.len() {
            let r = &self.pressed[row];
            if col < r.len() {
                return r[col];
            }
        }
        false
    }

    /// Sets the pressed state of a position; does nothing for a position
    /// outside the matrix.
    pub fn set_pressed(&mut self, row: usize, col: usize, value: bool)
        ensures
            final(self).keys == old(self).keys,
            final(self).pressed_view() == with_pressed(
                old(self).pressed_view(),
                row as int,
                col as int,
                value,
            ),
    {
        if row < self.pressed.len() {
            if col < self.pressed[row].len() {
                let ghost old_view = self.pressed_view();
                let mut r: Vec<bool> = Vec::new();
                std::mem::swap(&mut r, &mut self.pressed[row]);
                r.set(col, value);
                self.pressed.set(row, r);
                assert(self.pressed_view() =~= with_pressed(
                    old_view,
                    row as int,
                    col as int,
                    value,
                ));
            }
        }
    }
}

} // verus!

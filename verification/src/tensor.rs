//! Mathematical model of the tensors the library works with.
//!
//! A tensor of rank 2, 3 or 4 is its extent along each axis together with its
//! elements as nested sequences, outermost axis first. The element type is left
//! open: the library moves elements around and hands them to the tensor engine,
//! it never computes with them.

use vstd::prelude::*;

verus! {

/// A matrix: `data[i][j]` is the element in row `i`, column `j`.
pub struct Rank2<E> {
    pub rows: nat,
    pub cols: nat,
    pub data: Seq<Seq<E>>,
}

/// A rank-3 tensor `[d0, d1, d2]`: `data[a][b][c]`.
pub struct Rank3<E> {
    pub dims: (nat, nat, nat),
    pub data: Seq<Seq<Seq<E>>>,
}

/// A rank-4 tensor `[d0, d1, d2, d3]`: `data[a][b][c][d]`.
pub struct Rank4<E> {
    pub dims: (nat, nat, nat, nat),
    pub data: Seq<Seq<Seq<Seq<E>>>>,
}

impl<E> Rank2<E> {
    /// The nested sequences are rectangular and as large as `rows` and `cols` say.
    pub open spec fn wf(self) -> bool {
        &&& self.data.len() == self.rows
        &&& forall|i: int| 0 <= i < self.rows ==> (#[trigger] self.data[i]).len() == self.cols
    }

    /// The matrix of the given extent that holds `e` everywhere.
    pub open spec fn filled(rows: nat, cols: nat, e: E) -> Self {
        Rank2 { rows, cols, data: Seq::new(rows, |i: int| Seq::new(cols, |j: int| e)) }
    }

    /// The block of the first `rows` rows and first `cols` columns.
    pub open spec fn leading_block(self, rows: nat, cols: nat) -> Self {
        Rank2 {
            rows,
            cols,
            data: Seq::new(rows, |i: int| Seq::new(cols, |j: int| self.data[i][j])),
        }
    }

    /// The matrix with the block whose top left corner is `(row, col)` replaced
    /// by `block`, every other element kept.
    pub open spec fn with_block(self, row: nat, col: nat, block: Self) -> Self {
        Rank2 {
            rows: self.rows,
            cols: self.cols,
            data: Seq::new(
                self.rows,
                |i: int|
                    Seq::new(
                        self.cols,
                        |j: int|
                            if row <= i < row + block.rows && col <= j < col + block.cols {
                                block.data[i - row][j - col]
                            } else {
                                self.data[i][j]
                            },
                    ),
            ),
        }
    }
}

/// Two well-formed matrices of one extent that agree on every element are
/// the same matrix.
pub proof fn lemma_rank2_equal<E>(a: Rank2<E>, b: Rank2<E>)
    requires
        a.wf(),
        b.wf(),
        a.rows == b.rows,
        a.cols == b.cols,
        forall|i: int, j: int|
            0 <= i < a.rows && 0 <= j < a.cols ==> #[trigger] a.data[i][j] == b.data[i][j],
    ensures
        a == b,
{
    assert forall|i: int| 0 <= i < a.rows implies #[trigger] a.data[i] =~= b.data[i] by {
        assert(a.data[i].len() == a.cols);
        assert(b.data[i].len() == b.cols);
    }
    assert(a.data =~= b.data);
}

impl<E> Rank3<E> {
    pub open spec fn wf(self) -> bool {
        &&& self.data.len() == self.dims.0
        &&& forall|a: int| 0 <= a < self.dims.0 ==> (#[trigger] self.data[a]).len() == self.dims.1
        &&& forall|a: int, b: int|
            0 <= a < self.dims.0 && 0 <= b < self.dims.1 ==> (#[trigger] self.data[a][b]).len()
                == self.dims.2
    }

    /// The last axis cut into `n_head` equal parts: `[d0, d1, d2]` becomes
    /// `[d0, d1, n_head, d2 / n_head]`, and element `[a][b][h][c]` of the result
    /// is element `[a][b][h * (d2 / n_head) + c]` of `self`.
    pub open spec fn split_heads(self, n_head: nat) -> Rank4<E> {
        let width = self.dims.2 / n_head;
        Rank4 {
            dims: (self.dims.0, self.dims.1, n_head, width),
            data: Seq::new(
                self.dims.0,
                |a: int|
                    Seq::new(
                        self.dims.1,
                        |b: int|
                            Seq::new(
                                n_head,
                                |h: int| Seq::new(width, |c: int| self.data[a][b][h * width + c]),
                            ),
                    ),
            ),
        }
    }
}

impl<E> Rank4<E> {
    pub open spec fn wf(self) -> bool {
        &&& self.data.len() == self.dims.0
        &&& forall|a: int| 0 <= a < self.dims.0 ==> (#[trigger] self.data[a]).len() == self.dims.1
        &&& forall|a: int, b: int|
            0 <= a < self.dims.0 && 0 <= b < self.dims.1 ==> (#[trigger] self.data[a][b]).len()
                == self.dims.2
        &&& forall|a: int, b: int, c: int|
            0 <= a < self.dims.0 && 0 <= b < self.dims.1 && 0 <= c < self.dims.2 ==> (
            #[trigger] self.data[a][b][c]).len() == self.dims.3
    }

    /// The two middle axes exchanged: element `[a][c][b][d]` of the result is
    /// element `[a][b][c][d]` of `self`.
    pub open spec fn swap_middle(self) -> Self {
        Rank4 {
            dims: (self.dims.0, self.dims.2, self.dims.1, self.dims.3),
            data: Seq::new(
                self.dims.0,
                |a: int|
                    Seq::new(
                        self.dims.2,
                        |c: int| Seq::new(self.dims.1, |b: int| self.data[a][b][c]),
                    ),
            ),
        }
    }

    /// The two last axes exchanged: element `[a][b][d][c]` of the result is
    /// element `[a][b][c][d]` of `self`.
    pub open spec fn transpose(self) -> Self {
        Rank4 {
            dims: (self.dims.0, self.dims.1, self.dims.3, self.dims.2),
            data: Seq::new(
                self.dims.0,
                |a: int|
                    Seq::new(
                        self.dims.1,
                        |b: int|
                            Seq::new(
                                self.dims.3,
                                |d: int| Seq::new(self.dims.2, |c: int| self.data[a][b][c][d]),
                            ),
                    ),
            ),
        }
    }

    /// The two last axes joined into one: `[d0, d1, d2, d3]` becomes
    /// `[d0, d1, d2 * d3]`, and element `[a][b][c * d3 + d]` of the result is
    /// element `[a][b][c][d]` of `self`.
    pub open spec fn merge_heads(self) -> Rank3<E> {
        let width = self.dims.3 as int;
        Rank3 {
            dims: (self.dims.0, self.dims.1, self.dims.2 * self.dims.3),
            data: Seq::new(
                self.dims.0,
                |a: int|
                    Seq::new(
                        self.dims.1,
                        |b: int|
                            Seq::new(
                                self.dims.2 * self.dims.3,
                                |k: int| self.data[a][b][k / width][k % width],
                            ),
                    ),
            ),
        }
    }
}

/// Two well-formed rank-3 tensors of one shape that agree on every element are
/// the same tensor.
pub proof fn lemma_rank3_equal<E>(x: Rank3<E>, y: Rank3<E>)
    requires
        x.wf(),
        y.wf(),
        x.dims == y.dims,
        forall|a: int, b: int, c: int|
            0 <= a < x.dims.0 && 0 <= b < x.dims.1 && 0 <= c < x.dims.2
                ==> #[trigger] x.data[a][b][c] == y.data[a][b][c],
    ensures
        x == y,
{
    assert forall|a: int| 0 <= a < x.dims.0 implies #[trigger] x.data[a] =~= y.data[a] by {
        assert(x.data[a].len() == x.dims.1);
        assert(y.data[a].len() == y.dims.1);
        assert forall|b: int| 0 <= b < x.dims.1 implies #[trigger] x.data[a][b]
            =~= y.data[a][b] by {
            assert(x.data[a][b].len() == x.dims.2);
            assert(y.data[a][b].len() == y.dims.2);
        }
    }
    assert(x.data =~= y.data);
}

/// Two well-formed rank-4 tensors of one shape that agree on every element are
/// the same tensor.
pub proof fn lemma_rank4_equal<E>(x: Rank4<E>, y: Rank4<E>)
    requires
        x.wf(),
        y.wf(),
        x.dims == y.dims,
        forall|a: int, b: int, c: int, d: int|
            0 <= a < x.dims.0 && 0 <= b < x.dims.1 && 0 <= c < x.dims.2 && 0 <= d < x.dims.3
                ==> #[trigger] x.data[a][b][c][d] == y.data[a][b][c][d],
    ensures
        x == y,
{
    assert forall|a: int| 0 <= a < x.dims.0 implies #[trigger] x.data[a] =~= y.data[a] by {
        assert(x.data[a].len() == x.dims.1);
        assert(y.data[a].len() == y.dims.1);
        assert forall|b: int| 0 <= b < x.dims.1 implies #[trigger] x.data[a][b]
            =~= y.data[a][b] by {
            assert(x.data[a][b].len() == x.dims.2);
            assert(y.data[a][b].len() == y.dims.2);
            assert forall|c: int| 0 <= c < x.dims.2 implies #[trigger] x.data[a][b][c]
                =~= y.data[a][b][c] by {
                assert(x.data[a][b][c].len() == x.dims.3);
                assert(y.data[a][b][c].len() == y.dims.3);
            }
        }
    }
    assert(x.data =~= y.data);
}

/// Exchanging the middle axes keeps a tensor well formed, and doing it twice
/// gives the tensor back.
pub proof fn lemma_swap_middle_twice<E>(x: Rank4<E>)
    requires
        x.wf(),
    ensures
        x.swap_middle().wf(),
        x.swap_middle().swap_middle() == x,
{
    lemma_rank4_equal(x.swap_middle().swap_middle(), x);
}

/// Exchanging the last axes keeps a tensor well formed, and doing it twice
/// gives the tensor back.
pub proof fn lemma_transpose_twice<E>(x: Rank4<E>)
    requires
        x.wf(),
    ensures
        x.transpose().wf(),
        x.transpose().transpose() == x,
{
    lemma_rank4_equal(x.transpose().transpose(), x);
}

/// Cutting the last axis into heads and putting the heads back side by side
/// gives the tensor back: no element is lost, repeated or moved.
pub proof fn lemma_split_then_merge<E>(x: Rank3<E>, n_head: nat)
    requires
        x.wf(),
        n_head > 0,
        x.dims.2 % n_head == 0,
    ensures
        x.split_heads(n_head).wf(),
        x.split_heads(n_head).merge_heads().wf(),
        x.split_heads(n_head).merge_heads() == x,
{
    let width = x.dims.2 / n_head;
    let merged = x.split_heads(n_head).merge_heads();
    assert(n_head * width == x.dims.2) by (nonlinear_arith)
        requires
            n_head > 0,
            width == x.dims.2 / n_head,
            x.dims.2 % n_head == 0,
    ;
    assert forall|a: int, b: int, c: int|
        0 <= a < x.dims.0 && 0 <= b < x.dims.1 && 0 <= c < x.dims.2 implies #[trigger] merged.data[a][b][c]
        == x.data[a][b][c] by {
        let w = width as int;
        assert(w > 0) by (nonlinear_arith)
            requires
                0 <= c < n_head * w,
                w >= 0,
        ;
        assert(0 <= c / w < n_head && 0 <= c % w < w && (c / w) * w + c % w == c)
            by (nonlinear_arith)
            requires
                0 <= c < n_head * w,
                w > 0,
                n_head > 0,
        ;
    }
    lemma_rank3_equal(merged, x);
}

} // verus!

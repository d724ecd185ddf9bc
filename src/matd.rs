//! Dense matrices stored in row-major order, and borrowed views over them.

use vstd::prelude::*;

verus! {

/// A dense matrix that owns its elements, stored row by row.
#[derive(Debug)]
pub struct Matd<T> {
    rows: usize,
    cols: usize,
    data: Vec<T>,
}

/// A read-only view of a matrix's elements, borrowed from the matrix that owns them.
#[derive(Debug)]
pub struct MatdRef<'a, T> {
    rows: usize,
    cols: usize,
    data: &'a [T],
}

/// The element at (`row`, `col`) of `data`, read as a row-major matrix with `cols` columns.
pub open spec fn at<T>(data: Seq<T>, cols: nat, row: nat, col: nat) -> T {
    data[(row * cols + col) as int]
}

/// The elements, row by row, of the transpose of a `rows` x `cols` matrix whose
/// elements are `data`, row by row: entry (`i`, `j`) of the result is entry (`j`, `i`) of `data`.
pub open spec fn transpose_elems<T>(data: Seq<T>, rows: nat, cols: nat) -> Seq<T> {
    Seq::new(
        rows * cols,
        |k: int| at(data, cols, (k % rows as int) as nat, (k / rows as int) as nat),
    )
}

proof fn lemma_transposed_slot(i: nat, j: nat, rows: nat, cols: nat)
    requires
        i < cols,
        j < rows,
    ensures
        i * rows + j < rows * cols,
        j * cols + i < rows * cols,
        ((i * rows + j) as int) % (rows as int) == j,
        ((i * rows + j) as int) / (rows as int) == i,
{
    assert(i * rows + j < rows * cols) by (nonlinear_arith)
        requires
            i < cols,
            j < rows,
    ;
    assert(j * cols + i < rows * cols) by (nonlinear_arith)
        requires
            i < cols,
            j < rows,
    ;
    vstd::arithmetic::div_mod::lemma_fundamental_div_mod_converse(
        (i * rows + j) as int,
        rows as int,
        i as int,
        j as int,
    );
}

/// Entry (`i`, `j`) of the transpose is entry (`j`, `i`) of the matrix.
pub proof fn lemma_transpose_entries<T>(data: Seq<T>, rows: nat, cols: nat)
    requires
        data.len() == rows * cols,
    ensures
        transpose_elems(data, rows, cols).len() == cols * rows,
        forall|i: nat, j: nat|
            i < cols && j < rows ==> #[trigger] at(transpose_elems(data, rows, cols), rows, i, j)
                == at(data, cols, j, i),
{
    assert(rows * cols == cols * rows) by (nonlinear_arith);
    assert forall|i: nat, j: nat| i < cols && j < rows implies #[trigger] at(
        transpose_elems(data, rows, cols),
        rows,
        i,
        j,
    ) == at(data, cols, j, i) by {
        lemma_transposed_slot(i, j, rows, cols);
    }
}

impl<T> Matd<T> {
    /// Number of rows.
    pub closed spec fn nrows(&self) -> nat {
        self.rows as nat
    }

    /// Number of columns.
    pub closed spec fn ncols(&self) -> nat {
        self.cols as nat
    }

    /// The elements, row by row.
    pub closed spec fn elems(&self) -> Seq<T> {
        self.data@
    }

    /// The element count matches the dimensions.
    pub open spec fn wf(&self) -> bool {
        self.elems().len() == self.nrows() * self.ncols()
    }

    /// Takes ownership of `data`, read row by row, as a `rows` x `cols` matrix.
    /// Returns `None` when `data` does not hold exactly `rows * cols` elements.
    pub fn from_vec(rows: usize, cols: usize, data: Vec<T>) -> (r: Option<Matd<T>>)
        ensures
            r.is_some() <==> data@.len() == rows * cols,
            r matches Some(m) ==> m.wf() && m.nrows() == rows && m.ncols() == cols
                && m.elems() == data@,
    {
        let len = data.len();
        match rows.checked_mul(cols) {
            Some(n) => {
                if n == len {
                    Some(Matd { rows, cols, data })
                } else {
                    None
                }
            },
            None => None,
        }
    }

    /// Number of rows.
    pub fn rows(&self) -> (r: usize)
        ensures
            r == self.nrows(),
    {
        self.rows
    }

    /// Number of columns.
    pub fn cols(&self) -> (r: usize)
        ensures
            r == self.ncols(),
    {
        self.cols
    }

    /// A read-only view of this matrix, sharing its storage.
    pub fn as_view(&self) -> (v: MatdRef<'_, T>)
        requires
            self.wf(),
        ensures
            v.wf(),
            v.nrows() == self.nrows(),
            v.ncols() == self.ncols(),
            v.elems() == self.elems(),
    {
        MatdRef { rows: self.rows, cols: self.cols, data: self.data.as_slice() }
    }
}

impl<'a, T> MatdRef<'a, T> {
    /// Number of rows.
    pub closed spec fn nrows(&self) -> nat {
        self.rows as nat
    }

    /// Number of columns.
    pub closed spec fn ncols(&self) -> nat {
        self.cols as nat
    }

    /// The elements, row by row.
    pub closed spec fn elems(&self) -> Seq<T> {
        self.data@
    }

    /// The element count matches the dimensions.
    pub open spec fn wf(&self) -> bool {
        self.elems().len() == self.nrows() * self.ncols()
    }

    /// Number of rows.
    pub fn rows(&self) -> (r: usize)
        ensures
            r == self.nrows(),
    {
        self.rows
    }

    /// Number of columns.
    pub fn cols(&self) -> (r: usize)
        ensures
            r == self.ncols(),
    {
        self.cols
    }

    /// A new matrix holding the transpose of this one.
    pub fn transpose(&self) -> (t: Matd<T>) where T: Copy
        requires
            self.wf(),
        ensures
            t.wf(),
            t.nrows() == self.ncols(),
            t.ncols() == self.nrows(),
            t.elems() == transpose_elems(self.elems(), self.nrows(), self.ncols()),
    {
        let ghost want = transpose_elems(self.elems(), self.nrows(), self.ncols());
        let n: usize = self.data.len();
        let mut out: Vec<T> = Vec::new();
        let mut i: usize = 0;
        while i < self.cols
            invariant
                self.wf(),
                n == self.data@.len(),
                i <= self.cols,
                want == transpose_elems(self.elems(), self.nrows(), self.ncols()),
                out@.len() == i * self.rows,
                forall|k: int| 0 <= k < out@.len() ==> out@[k] == want[k],
            decreases self.cols - i,
        {
            let mut j: usize = 0;
            while j < self.rows
                invariant
                    self.wf(),
                    n == self.data@.len(),
                    i < self.cols,
                    j <= self.rows,
                    want == transpose_elems(self.elems(), self.nrows(), self.ncols()),
                    out@.len() == i * self.rows + j,
                    forall|k: int| 0 <= k < out@.len() ==> out@[k] == want[k],
                decreases self.rows - j,
            {
                proof {
                    lemma_transposed_slot(i as nat, j as nat, self.nrows(), self.ncols());
                }
                let x: T = self.data[j * self.cols + i];
                out.push(x);
                j += 1;
            }
            proof {
                assert((i + 1) * self.rows == i * self.rows + self.rows) by (nonlinear_arith);
            }
            i += 1;
        }
        proof {
            assert(self.cols * self.rows == self.rows * self.cols) by (nonlinear_arith);
            assert(out@ =~= want);
        }
        Matd { rows: self.cols, cols: self.rows, data: out }
    }

    /// A new matrix holding a copy of these elements, with the same dimensions.
    pub fn to_matd(&self) -> (m: Matd<T>) where T: Copy
        requires
            self.wf(),
        ensures
            m.wf(),
            m.nrows() == self.nrows(),
            m.ncols() == self.ncols(),
            m.elems() == self.elems(),
    {
        let mut out: Vec<T> = Vec::new();
        let mut k: usize = 0;
        while k < self.data.len()
            invariant
                k <= self.data@.len(),
                out@ == self.data@.subrange(0, k as int),
            decreases self.data@.len() - k,
        {
            out.push(self.data[k]);
            k += 1;
        }
        proof {
            assert(out@ =~= self.data@);
        }
        Matd { rows: self.rows, cols: self.cols, data: out }
    }

    /// The elements, row by row, without copying them.
    pub fn data(&self) -> (r: &'a [T])
        ensures
            r@ == self.elems(),
    {
        self.data
    }
}

} // verus!

//! A dense array of flags over timesteps, channels and baselines.

use vstd::prelude::*;

verus! {

/// Flags in three dimensions, `[timestep][channel][baseline]`, held in an
/// `ndarray::Array3<bool>` in standard (row-major) layout. The verifier does
/// not look inside the array: `flag_array_dims` and `flag_array_cells` name
/// what it holds, and the few methods of `ndarray` that are called on it are
/// given their contracts below.
#[derive(Debug)]
#[verifier::external_body]
pub struct FlagArray {
    cells: ndarray::Array3<bool>,
}

/// The lengths of the three axes of a flag array.
pub uninterp spec fn flag_array_dims(flags: FlagArray) -> (nat, nat, nat);

/// The flags of an array, by timestep, channel and baseline.
pub uninterp spec fn flag_array_cells(flags: FlagArray) -> Map<(int, int, int), bool>;

/// Whether `(t, c, b)` is an index into an array of this shape.
pub open spec fn in_shape(shape: (nat, nat, nat), t: int, c: int, b: int) -> bool {
    &&& 0 <= t < shape.0
    &&& 0 <= c < shape.1
    &&& 0 <= b < shape.2
}

/// The place of cell `(t, c, b)` in a row-major vector of this shape.
pub open spec fn row_major_offset(shape: (nat, nat, nat), t: int, c: int, b: int) -> int {
    (t * shape.1 + c) * shape.2 + b
}

/// The product of the axis lengths that are not zero.
pub open spec fn nonzero_axes_product(shape: (nat, nat, nat)) -> nat {
    (if shape.0 == 0 {
        1
    } else {
        shape.0
    }) * (if shape.1 == 0 {
        1
    } else {
        shape.1
    }) * (if shape.2 == 0 {
        1
    } else {
        shape.2
    })
}

/// Every index into a shape has its place inside a vector of as many cells
/// as the shape has.
pub proof fn lemma_row_major_offset(shape: (nat, nat, nat), t: int, c: int, b: int)
    requires
        in_shape(shape, t, c, b),
    ensures
        0 <= row_major_offset(shape, t, c, b) < shape.0 * shape.1 * shape.2,
{
    let d1 = shape.1 as int;
    let d2 = shape.2 as int;
    assert(t * d1 + c <= (shape.0 - 1) * d1 + d1 - 1) by (nonlinear_arith)
        requires
            0 <= t <= shape.0 - 1,
            0 <= c <= d1 - 1,
    ;
    assert(0 <= t * d1 + c) by (nonlinear_arith)
        requires
            0 <= t,
            0 <= c,
            0 <= d1,
    ;
    let row = t * d1 + c;
    assert((shape.0 - 1) * d1 + d1 - 1 == shape.0 * d1 - 1) by (nonlinear_arith);
    assert(row * d2 + b <= (shape.0 * d1 - 1) * d2 + d2 - 1) by (nonlinear_arith)
        requires
            0 <= row <= shape.0 * d1 - 1,
            0 <= b <= d2 - 1,
    ;
    assert(0 <= row * d2 + b) by (nonlinear_arith)
        requires
            0 <= row,
            0 <= b,
            0 <= d2,
    ;
    assert((shape.0 * d1 - 1) * d2 + d2 - 1 == shape.0 * d1 * d2 - 1) by (nonlinear_arith);
}

impl FlagArray {
    /// The lengths of the three axes.
    pub open spec fn dims(&self) -> (nat, nat, nat) {
        flag_array_dims(*self)
    }

    /// The flag at timestep `t`, channel `c` and baseline `b`.
    pub open spec fn cell(&self, t: int, c: int, b: int) -> bool {
        flag_array_cells(*self)[(t, c, b)]
    }

    /// Whether `cells`, read row by row, holds the flags of this array.
    pub open spec fn holds(&self, cells: Seq<bool>) -> bool {
        &&& cells.len() == self.dims().0 * self.dims().1 * self.dims().2
        &&& forall|t: int, c: int, b: int|
            in_shape(self.dims(), t, c, b) ==> #[trigger] self.cell(t, c, b)
                == cells[row_major_offset(self.dims(), t, c, b)]
    }

    /// `ndarray::Array3::from_shape_vec` with a plain shape: the array has
    /// that shape and reads `cells` row by row. `ndarray` refuses a vector of
    /// another length and a shape whose axes that are not zero multiply to
    /// more than `isize::MAX`; both are left out here.
    #[verifier::external_body]
    pub(crate) fn raw_from_shape_vec(shape: (usize, usize, usize), cells: Vec<bool>) -> (flags: FlagArray)
        requires
            cells@.len() == shape.0 * shape.1 * shape.2,
            nonzero_axes_product((shape.0 as nat, shape.1 as nat, shape.2 as nat)) <= isize::MAX,
        ensures
            flag_array_dims(flags) == (shape.0 as nat, shape.1 as nat, shape.2 as nat),
            flags.holds(cells@),
    {
        FlagArray { cells: ndarray::Array3::from_shape_vec(shape, cells).unwrap() }
    }

    /// `ndarray::ArrayBase::dim` of a three-dimensional array.
    #[verifier::external_body]
    fn raw_dim(&self) -> (dim: (usize, usize, usize))
        ensures
            (dim.0 as nat, dim.1 as nat, dim.2 as nat) == flag_array_dims(*self),
    {
        self.cells.dim()
    }

    /// Indexing an `ndarray` array by `[t, c, b]`, which panics outside the
    /// array's shape.
    #[verifier::external_body]
    fn raw_get(&self, t: usize, c: usize, b: usize) -> (flag: bool)
        requires
            in_shape(self.dims(), t as int, c as int, b as int),
        ensures
            flag == self.cell(t as int, c as int, b as int),
    {
        self.cells[[t, c, b]]
    }

    /// Assigning to an `ndarray` array at `[t, c, b]`: that cell changes,
    /// and neither the shape nor any other cell does.
    #[verifier::external_body]
    fn raw_set(&mut self, t: usize, c: usize, b: usize, flag: bool)
        requires
            in_shape(old(self).dims(), t as int, c as int, b as int),
        ensures
            flag_array_dims(*final(self)) == flag_array_dims(*old(self)),
            flag_array_cells(*final(self)) == flag_array_cells(*old(self)).insert(
                (t as int, c as int, b as int),
                flag,
            ),
    {
        self.cells[[t, c, b]] = flag;
    }

    /// `ndarray::Array::into_raw_vec`: the cells in the order in which the
    /// array stores them, which for standard layout is row by row.
    #[verifier::external_body]
    fn raw_into_vec(self) -> (cells: Vec<bool>)
        ensures
            self.holds(cells@),
    {
        self.cells.into_raw_vec()
    }

    /// An array of the given shape that reads `cells` row by row; `None`
    /// where `cells` has another length than the shape asks for, or where the
    /// axes that are not zero multiply to more than `isize::MAX`.
    pub fn from_vec(shape: (usize, usize, usize), cells: Vec<bool>) -> (flags: Option<FlagArray>)
        ensures
            flags.is_some() <==> {
                &&& cells@.len() == shape.0 * shape.1 * shape.2
                &&& nonzero_axes_product((shape.0 as nat, shape.1 as nat, shape.2 as nat))
                    <= isize::MAX
            },
            flags.is_some() ==> {
                &&& flags.unwrap().dims() == (shape.0 as nat, shape.1 as nat, shape.2 as nat)
                &&& flags.unwrap().holds(cells@)
            },
    {
        let ghost spec_shape = (shape.0 as nat, shape.1 as nat, shape.2 as nat);
        let n0: usize = if shape.0 == 0 {
            1
        } else {
            shape.0
        };
        let n1: usize = if shape.1 == 0 {
            1
        } else {
            shape.1
        };
        let n2: usize = if shape.2 == 0 {
            1
        } else {
            shape.2
        };
        assert(n0 * n1 <= n0 * n1 * n2) by (nonlinear_arith)
            requires
                n2 >= 1,
        ;
        let product = match n0.checked_mul(n1) {
            Some(rows) => match rows.checked_mul(n2) {
                Some(product) => product,
                None => {
                    return None;
                },
            },
            None => {
                return None;
            },
        };
        assert(product == nonzero_axes_product(spec_shape));
        if product > isize::MAX as usize {
            return None;
        }
        let num_cells: usize = if shape.0 == 0 || shape.1 == 0 || shape.2 == 0 {
            assert(shape.0 * shape.1 * shape.2 == 0) by (nonlinear_arith)
                requires
                    shape.0 == 0 || shape.1 == 0 || shape.2 == 0,
            ;
            0
        } else {
            product
        };
        if cells.len() != num_cells {
            return None;
        }
        Some(FlagArray::raw_from_shape_vec(shape, cells))
    }

    /// The shape of the array: timesteps, channels, baselines.
    pub fn dim(&self) -> (dim: (usize, usize, usize))
        ensures
            (dim.0 as nat, dim.1 as nat, dim.2 as nat) == self.dims(),
    {
        self.raw_dim()
    }

    /// The flag at `[t, c, b]`, or `None` outside the array.
    pub fn get(&self, t: usize, c: usize, b: usize) -> (flag: Option<bool>)
        ensures
            flag == if in_shape(self.dims(), t as int, c as int, b as int) {
                Some(self.cell(t as int, c as int, b as int))
            } else {
                None
            },
    {
        let dim = self.raw_dim();
        if t < dim.0 && c < dim.1 && b < dim.2 {
            Some(self.raw_get(t, c, b))
        } else {
            None
        }
    }

    /// The cells of the array, row by row.
    pub fn into_vec(self) -> (cells: Vec<bool>)
        ensures
            self.holds(cells@),
    {
        self.raw_into_vec()
    }

    /// Sets the flag of every baseline in the channels
    /// `chan_start..chan_start + num_chans` of one timestep. All other cells
    /// stay as they are.
    pub fn flag_chans(&mut self, timestep: usize, chan_start: usize, num_chans: usize)
        requires
            timestep < old(self).dims().0,
            chan_start + num_chans <= old(self).dims().1,
        ensures
            final(self).dims() == old(self).dims(),
            forall|t: int, c: int, b: int|
                in_shape(old(self).dims(), t, c, b) ==> #[trigger] final(self).cell(t, c, b) == (
                old(self).cell(t, c, b) || (t == timestep && chan_start <= c < chan_start
                    + num_chans)),
    {
        let dim = self.raw_dim();
        let chan_end: usize = chan_start + num_chans;
        let mut chan: usize = chan_start;
        while chan < chan_end
            invariant
                chan_start <= chan <= chan_end <= dim.1,
                timestep < dim.0,
                self.dims() == old(self).dims(),
                (dim.0 as nat, dim.1 as nat, dim.2 as nat) == self.dims(),
                forall|t: int, c: int, b: int|
                    in_shape(self.dims(), t, c, b) ==> #[trigger] self.cell(t, c, b) == (old(
                        self,
                    ).cell(t, c, b) || (t == timestep && chan_start <= c < chan)),
            decreases chan_end - chan,
        {
            let mut baseline: usize = 0;
            while baseline < dim.2
                invariant
                    baseline <= dim.2,
                    chan_start <= chan < chan_end <= dim.1,
                    timestep < dim.0,
                    self.dims() == old(self).dims(),
                    (dim.0 as nat, dim.1 as nat, dim.2 as nat) == self.dims(),
                    forall|t: int, c: int, b: int|
                        in_shape(self.dims(), t, c, b) ==> #[trigger] self.cell(t, c, b) == (old(
                            self,
                        ).cell(t, c, b) || (t == timestep && (chan_start <= c < chan || (c == chan
                            && b < baseline)))),
                decreases dim.2 - baseline,
            {
                let ghost before = *self;
                self.raw_set(timestep, chan, baseline, true);
                assert forall|t: int, c: int, b: int| in_shape(self.dims(), t, c, b) implies (
                #[trigger] self.cell(t, c, b)) == (before.cell(t, c, b) || (t == timestep && c
                    == chan && b == baseline)) by {
                    if (t, c, b) != (timestep as int, chan as int, baseline as int) {
                        assert(flag_array_cells(*self)[(t, c, b)] == flag_array_cells(before)[(
                            t,
                            c,
                            b,
                        )]);
                    }
                }
                baseline = baseline + 1;
            }
            chan = chan + 1;
        }
    }
}

} // verus!

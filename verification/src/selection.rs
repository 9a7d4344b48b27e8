//! Selecting a subset of correlator visibilities from an observation using
//! timestep, coarse channel and baseline indices.
//!
//! Observations can be too large to fit in memory. A selection names the
//! timesteps, coarse channels and baselines of one chunk, and gives the shape
//! of the arrays that hold it. Timesteps and coarse channels are contiguous
//! ranges; baselines are a list whose order is the order of the arrays' last
//! axis.

use std::ops::Range;
use vstd::arithmetic::div_mod::lemma_fundamental_div_mod_converse;
use vstd::prelude::*;

use crate::flags::{in_shape, lemma_row_major_offset, nonzero_axes_product, FlagArray};
use crate::text::{shape_string, shape_text};

verus! {

/// A clone of a range starts and ends where clones of its bounds do.
pub assume_specification<Idx: Clone>[ <Range<Idx> as Clone>::clone ](range: &Range<Idx>) -> (copy:
    Range<Idx>)
    ensures
        cloned::<Idx>(range.start, copy.start),
        cloned::<Idx>(range.end, copy.end),
;

/// The bytes that one cell of a selection takes: a visibility of four
/// single-precision complex numbers, its weight and its flag.
pub const BYTES_PER_CELL: usize = 37;

/// The bytes in a gibibyte.
pub const BYTES_PER_GIB: usize = 1_073_741_824;

#[derive(Debug, Clone)]
pub enum SelectionError {
    /// Error for when the files provided have no overlapping visibilities.
    NoCommonTimesteps {
        /// A display of the files' time map.
        hdu_info: String,
    },
    /// Error for when no timesteps were provided.
    NoProvidedTimesteps {
        /// A display of the files' time map.
        hdu_info: String,
    },
    /// Error when we asked for too much memory.
    InsufficientMemory {
        /// The amount of memory we think we need.
        need_gib: usize,
    },
    /// Error for bad array shape in provided argument.
    BadArrayShape {
        /// The argument name within the function.
        argument: String,
        /// The function name.
        function: String,
        /// The expected shape.
        expected: String,
        /// The shape that was received instead.
        received: String,
    },
}

/// The antennas of one baseline, as indices into the antenna list.
#[derive(Debug, Clone, Copy, PartialEq, Eq, Structural)]
pub struct Baseline {
    /// Index of the first antenna.
    pub ant1_index: usize,
    /// Index of the second antenna.
    pub ant2_index: usize,
}

/// What a selection reads of an observation's metadata.
#[derive(Debug, Clone)]
pub struct MetafitsSummary {
    /// The number of baselines in each HDU.
    pub num_baselines: usize,
    /// The antenna pair of each baseline.
    pub baselines: Vec<Baseline>,
    /// The number of fine channels in each coarse channel.
    pub num_corr_fine_chans_per_coarse: usize,
    /// The number of polarisation products of each visibility.
    pub num_visibility_pols: usize,
}

/// What a selection reads of a set of correlator files.
#[derive(Debug, Clone)]
pub struct CorrelatorSummary {
    /// The timesteps that every provided coarse channel has data for.
    pub common_timestep_indices: Vec<usize>,
    /// The timesteps that at least one file has data for.
    pub provided_timestep_indices: Vec<usize>,
    /// The coarse channels that the common timesteps were found for.
    pub common_coarse_chan_indices: Vec<usize>,
    /// The observation's metadata.
    pub metafits_context: MetafitsSummary,
    /// A display of which file holds which timestep, for error reports.
    pub hdu_info: String,
}

/// Keep track of which timestep, coarse channel and baseline indices the
/// values in a visibility array, its weights and its flags came from.
#[derive(Debug, Default, Clone)]
pub struct VisSelection {
    /// selected range of timestep indices
    pub timestep_range: Range<usize>,
    /// selected range of coarse channel indices
    pub coarse_chan_range: Range<usize>,
    /// selected baseline indices
    pub baseline_idxs: Vec<usize>,
}

/// The number of indices in a half-open range; none where it ends before it
/// starts.
pub open spec fn range_len(range: Range<usize>) -> nat {
    if range.start < range.end {
        (range.end - range.start) as nat
    } else {
        0
    }
}

/// The number of indices in a half-open range.
pub fn range_length(range: &Range<usize>) -> (len: usize)
    ensures
        len == range_len(*range),
{
    if range.start < range.end {
        range.end - range.start
    } else {
        0
    }
}

impl CorrelatorSummary {
    /// Whether there is a first common timestep that is not after the last
    /// provided one.
    pub open spec fn has_timesteps(self) -> bool {
        &&& self.common_timestep_indices@.len() > 0
        &&& self.provided_timestep_indices@.len() > 0
        &&& self.common_timestep_indices@.first() <= self.provided_timestep_indices@.last()
    }

    /// Whether there is a first common coarse channel that is not after the
    /// last.
    pub open spec fn has_coarse_chans(self) -> bool {
        &&& self.common_coarse_chan_indices@.len() > 0
        &&& self.common_coarse_chan_indices@.first() <= self.common_coarse_chan_indices@.last()
    }
}

impl VisSelection {
    /// The shape of the visibility, flag or weight array of this selection:
    /// timesteps, fine channels and baselines.
    pub open spec fn shape(self, fine_chans_per_coarse: nat) -> (nat, nat, nat) {
        (
            range_len(self.timestep_range),
            range_len(self.coarse_chan_range) * fine_chans_per_coarse,
            self.baseline_idxs@.len(),
        )
    }

    /// The number of cells in the arrays of this selection.
    pub open spec fn num_cells(self, fine_chans_per_coarse: nat) -> nat {
        self.shape(fine_chans_per_coarse).0 * self.shape(fine_chans_per_coarse).1 * self.shape(
            fine_chans_per_coarse,
        ).2
    }

    /// The bytes that the visibilities, weights and flags of this selection
    /// take together.
    pub open spec fn bytes_best(self, fine_chans_per_coarse: nat) -> nat {
        self.num_cells(fine_chans_per_coarse) * BYTES_PER_CELL as nat
    }

    /// Whether this selection is the one that `from_mwalib` makes of
    /// `corr_ctx`: from the first common timestep to the last provided one,
    /// the common coarse channels, and every baseline in order.
    pub open spec fn is_selection_of(self, corr_ctx: CorrelatorSummary) -> bool {
        &&& self.timestep_range.start == corr_ctx.common_timestep_indices@.first()
        &&& self.timestep_range.end == corr_ctx.provided_timestep_indices@.last() + 1
        &&& self.coarse_chan_range.start == corr_ctx.common_coarse_chan_indices@.first()
        &&& self.coarse_chan_range.end == corr_ctx.common_coarse_chan_indices@.last() + 1
        &&& self.baseline_idxs@ == Seq::new(
            corr_ctx.metafits_context.num_baselines as nat,
            |i: int| i as usize,
        )
    }

    /// Produce a [`VisSelection`] from what is known of a set of correlator
    /// files.
    ///
    /// - timesteps are selected from the first common to the last provided.
    /// - only common coarse channels are selected
    /// - all baselines are selected
    ///
    /// # Errors
    /// This will return [`SelectionError::NoProvidedTimesteps`] if no
    /// timesteps have been provided, [`SelectionError::NoCommonTimesteps`] if
    /// none of the provided files have timesteps in common.
    pub fn from_mwalib(corr_ctx: &CorrelatorSummary) -> (selection: Result<Self, SelectionError>)
        requires
            corr_ctx.provided_timestep_indices@.len() > 0
                ==> corr_ctx.provided_timestep_indices@.last() < usize::MAX,
            corr_ctx.common_coarse_chan_indices@.len() > 0
                ==> corr_ctx.common_coarse_chan_indices@.last() < usize::MAX,
        ensures
            match selection {
                Ok(sel) => {
                    &&& corr_ctx.has_timesteps()
                    &&& corr_ctx.has_coarse_chans()
                    &&& sel.is_selection_of(*corr_ctx)
                },
                Err(SelectionError::NoProvidedTimesteps { hdu_info }) => {
                    &&& corr_ctx.provided_timestep_indices@.len() == 0
                    &&& hdu_info@ == corr_ctx.hdu_info@
                },
                Err(SelectionError::NoCommonTimesteps { hdu_info }) => {
                    &&& corr_ctx.provided_timestep_indices@.len() > 0
                    &&& !(corr_ctx.has_timesteps() && corr_ctx.has_coarse_chans())
                    &&& hdu_info@ == corr_ctx.hdu_info@
                },
                Err(_) => false,
            },
    {
        let num_provided = corr_ctx.provided_timestep_indices.len();
        if num_provided == 0 {
            return Err(SelectionError::NoProvidedTimesteps { hdu_info: corr_ctx.hdu_info.clone() });
        }
        let last_timestep: usize = corr_ctx.provided_timestep_indices[num_provided - 1];
        if corr_ctx.common_timestep_indices.len() == 0
            || corr_ctx.common_timestep_indices[0] > last_timestep {
            return Err(SelectionError::NoCommonTimesteps { hdu_info: corr_ctx.hdu_info.clone() });
        }
        let first_timestep: usize = corr_ctx.common_timestep_indices[0];
        let num_coarse = corr_ctx.common_coarse_chan_indices.len();
        if num_coarse == 0 || corr_ctx.common_coarse_chan_indices[0]
            > corr_ctx.common_coarse_chan_indices[num_coarse - 1] {
            return Err(SelectionError::NoCommonTimesteps { hdu_info: corr_ctx.hdu_info.clone() });
        }
        let first_chan: usize = corr_ctx.common_coarse_chan_indices[0];
        let last_chan: usize = corr_ctx.common_coarse_chan_indices[num_coarse - 1];
        let num_baselines = corr_ctx.metafits_context.num_baselines;
        let mut baseline_idxs: Vec<usize> = Vec::new();
        let mut idx: usize = 0;
        while idx < num_baselines
            invariant
                idx <= num_baselines,
                baseline_idxs@ == Seq::new(idx as nat, |i: int| i as usize),
            decreases num_baselines - idx,
        {
            baseline_idxs.push(idx);
            assert(baseline_idxs@ =~= Seq::new((idx + 1) as nat, |i: int| i as usize));
            idx = idx + 1;
        }
        Ok(
            VisSelection {
                timestep_range: first_timestep..last_timestep + 1,
                coarse_chan_range: first_chan..last_chan + 1,
                baseline_idxs,
            },
        )
    }

    /// The selected antenna index pairs corresponding to `baseline_idxs`.
    pub fn get_ant_pairs(&self, meta_ctx: &MetafitsSummary) -> (pairs: Vec<(usize, usize)>)
        requires
            forall|i: int|
                0 <= i < self.baseline_idxs@.len() ==> (#[trigger] self.baseline_idxs@[i])
                    < meta_ctx.baselines@.len(),
        ensures
            pairs@.len() == self.baseline_idxs@.len(),
            forall|i: int|
                0 <= i < pairs@.len() ==> #[trigger] pairs@[i] == (
                    meta_ctx.baselines@[self.baseline_idxs@[i] as int].ant1_index,
                    meta_ctx.baselines@[self.baseline_idxs@[i] as int].ant2_index,
                ),
    {
        let mut pairs: Vec<(usize, usize)> = Vec::new();
        let mut i: usize = 0;
        while i < self.baseline_idxs.len()
            invariant
                i <= self.baseline_idxs@.len(),
                pairs@.len() == i,
                forall|k: int|
                    0 <= k < self.baseline_idxs@.len() ==> (#[trigger] self.baseline_idxs@[k])
                        < meta_ctx.baselines@.len(),
                forall|k: int|
                    0 <= k < i ==> #[trigger] pairs@[k] == (
                        meta_ctx.baselines@[self.baseline_idxs@[k] as int].ant1_index,
                        meta_ctx.baselines@[self.baseline_idxs@[k] as int].ant2_index,
                    ),
            decreases self.baseline_idxs@.len() - i,
        {
            let idx: usize = self.baseline_idxs[i];
            pairs.push((meta_ctx.baselines[idx].ant1_index, meta_ctx.baselines[idx].ant2_index));
            i = i + 1;
        }
        pairs
    }

    /// Get the shape of the visibility, flag or weight array for this
    /// selection.
    pub fn get_shape(&self, fine_chans_per_coarse: usize) -> (shape: (usize, usize, usize))
        requires
            range_len(self.coarse_chan_range) * fine_chans_per_coarse <= usize::MAX,
        ensures
            (shape.0 as nat, shape.1 as nat, shape.2 as nat) == self.shape(
                fine_chans_per_coarse as nat,
            ),
    {
        let num_chans = range_length(&self.coarse_chan_range) * fine_chans_per_coarse;
        let num_baselines = self.baseline_idxs.len();
        let num_timesteps = range_length(&self.timestep_range);
        (num_timesteps, num_chans, num_baselines)
    }

    /// Estimate the memory size in bytes required to store the given
    /// selection without redundant pols.
    pub fn estimate_bytes_best(&self, fine_chans_per_coarse: usize) -> (bytes: usize)
        requires
            range_len(self.coarse_chan_range) * fine_chans_per_coarse <= usize::MAX,
            self.bytes_best(fine_chans_per_coarse as nat) <= usize::MAX,
        ensures
            bytes == self.bytes_best(fine_chans_per_coarse as nat),
    {
        let shape = self.get_shape(fine_chans_per_coarse);
        proof {
            lemma_cells_fit(shape.0 as nat, shape.1 as nat, shape.2 as nat);
        }
        if shape.2 == 0 {
            assert(shape.0 * shape.1 * 0 * BYTES_PER_CELL == 0) by (nonlinear_arith);
            return 0;
        }
        shape.0 * shape.1 * shape.2 * BYTES_PER_CELL
    }

    /// The error of an allocation that failed: how many GiB the whole
    /// selection needs, visibilities, weights and flags together.
    pub fn insufficient_memory(&self, fine_chans_per_coarse: usize) -> (error: SelectionError)
        requires
            range_len(self.coarse_chan_range) * fine_chans_per_coarse <= usize::MAX,
            self.bytes_best(fine_chans_per_coarse as nat) <= usize::MAX,
        ensures
            error matches SelectionError::InsufficientMemory { need_gib } && need_gib
                == self.bytes_best(fine_chans_per_coarse as nat) / BYTES_PER_GIB as nat,
    {
        let need_gib = self.estimate_bytes_best(fine_chans_per_coarse) / BYTES_PER_GIB;
        SelectionError::InsufficientMemory { need_gib }
    }

    /// Whether `flags` has the shape of this selection and no flag set.
    pub open spec fn is_blank(self, fine_chans_per_coarse: nat, flags: FlagArray) -> bool {
        &&& flags.dims() == self.shape(fine_chans_per_coarse)
        &&& forall|t: int, c: int, b: int|
            in_shape(flags.dims(), t, c, b) ==> !(#[trigger] flags.cell(t, c, b))
    }

    /// Whether `ndarray` can hold an array of this selection's shape: the
    /// axes that are not empty must not multiply to more than `isize::MAX`.
    pub open spec fn shape_is_allocatable(self, fine_chans_per_coarse: nat) -> bool {
        nonzero_axes_product(self.shape(fine_chans_per_coarse)) <= isize::MAX
    }

    /// Makes the flag array of this selection out of a vector whose memory
    /// was reserved, or reports the memory that the selection needs where
    /// the reservation failed.
    pub fn flags_from_reservation(
        &self,
        fine_chans_per_coarse: usize,
        reserved: Option<Vec<bool>>,
    ) -> (flags: Result<FlagArray, SelectionError>)
        requires
            range_len(self.coarse_chan_range) * fine_chans_per_coarse <= usize::MAX,
            self.bytes_best(fine_chans_per_coarse as nat) <= usize::MAX,
            self.shape_is_allocatable(fine_chans_per_coarse as nat),
        ensures
            match flags {
                Ok(array) => reserved.is_some() && self.is_blank(
                    fine_chans_per_coarse as nat,
                    array,
                ),
                Err(SelectionError::InsufficientMemory { need_gib }) => reserved.is_none()
                    && need_gib == self.bytes_best(fine_chans_per_coarse as nat)
                    / BYTES_PER_GIB as nat,
                Err(_) => false,
            },
    {
        match reserved {
            Some(mut cells) => {
                let shape = self.get_shape(fine_chans_per_coarse);
                proof {
                    lemma_cells_fit(shape.0 as nat, shape.1 as nat, shape.2 as nat);
                }
                let num_elems: usize = if shape.2 == 0 {
                    assert(shape.0 * shape.1 * 0 == 0) by (nonlinear_arith);
                    0
                } else {
                    shape.0 * shape.1 * shape.2
                };
                cells.clear();
                cells.resize(num_elems, false);
                let array = FlagArray::raw_from_shape_vec(shape, cells);
                assert forall|t: int, c: int, b: int|
                    in_shape(array.dims(), t, c, b) implies !(#[trigger] array.cell(t, c, b)) by {
                    lemma_row_major_offset(array.dims(), t, c, b);
                }
                Ok(array)
            },
            None => Err(self.insufficient_memory(fine_chans_per_coarse)),
        }
    }

    /// Allocate a flag array to store flags for the selection.
    ///
    /// # Errors
    ///
    /// can raise `SelectionError::InsufficientMemory` if not enough memory.
    pub fn allocate_flags(&self, fine_chans_per_coarse: usize) -> (flags: Result<
        FlagArray,
        SelectionError,
    >)
        requires
            range_len(self.coarse_chan_range) * fine_chans_per_coarse <= usize::MAX,
            self.bytes_best(fine_chans_per_coarse as nat) <= usize::MAX,
            self.shape_is_allocatable(fine_chans_per_coarse as nat),
        ensures
            match flags {
                Ok(array) => self.is_blank(fine_chans_per_coarse as nat, array),
                Err(SelectionError::InsufficientMemory { need_gib }) => need_gib
                    == self.bytes_best(fine_chans_per_coarse as nat) / BYTES_PER_GIB as nat,
                Err(_) => false,
            },
    {
        let shape = self.get_shape(fine_chans_per_coarse);
        proof {
            lemma_cells_fit(shape.0 as nat, shape.1 as nat, shape.2 as nat);
        }
        let num_elems: usize = if shape.2 == 0 {
            0
        } else {
            shape.0 * shape.1 * shape.2
        };
        let mut cells: Vec<bool> = Vec::new();
        let reserved = if try_reserve_exact_flags(&mut cells, num_elems) {
            Some(cells)
        } else {
            None
        };
        self.flags_from_reservation(fine_chans_per_coarse, reserved)
    }
}

/// `Vec::try_reserve_exact`, which tries to make room for `additional` more
/// flags and reports whether it could. The contents stay as they are.
#[verifier::external_body]
fn try_reserve_exact_flags(cells: &mut Vec<bool>, additional: usize) -> (reserved: bool)
    ensures
        final(cells)@ == old(cells)@,
{
    cells.try_reserve_exact(additional).is_ok()
}

/// The shape of a selection takes its first component from the timesteps
/// alone, its second from the coarse channels and the number of fine
/// channels in each, and its third from the number of baselines: selections
/// that agree in one of these agree in that component of their shapes.
pub proof fn lemma_shape_components(a: VisSelection, b: VisSelection, fine_chans_per_coarse: nat)
    ensures
        a.timestep_range == b.timestep_range ==> a.shape(fine_chans_per_coarse).0 == b.shape(
            fine_chans_per_coarse,
        ).0,
        a.coarse_chan_range == b.coarse_chan_range ==> a.shape(fine_chans_per_coarse).1
            == b.shape(fine_chans_per_coarse).1,
        a.baseline_idxs@.len() == b.baseline_idxs@.len() ==> a.shape(fine_chans_per_coarse).2
            == b.shape(fine_chans_per_coarse).2,
        a.shape(fine_chans_per_coarse).0 == range_len(a.timestep_range),
        a.shape(fine_chans_per_coarse).2 == a.baseline_idxs@.len(),
{
}

/// Where the bytes of a selection fit a machine word, so do the number of
/// its cells and the product of its first two axes, unless the last is empty.
pub proof fn lemma_cells_fit(d0: nat, d1: nat, d2: nat)
    requires
        d0 * d1 * d2 * BYTES_PER_CELL as nat <= usize::MAX,
    ensures
        d0 * d1 * d2 <= usize::MAX,
        d2 > 0 ==> d0 * d1 <= usize::MAX,
{
    assert(d0 * d1 * d2 <= d0 * d1 * d2 * 37) by (nonlinear_arith);
    if d2 > 0 {
        assert(d0 * d1 <= d0 * d1 * d2) by (nonlinear_arith)
            requires
                d2 > 0,
        ;
    }
}

/// The values that one fine channel of one baseline takes in an HDU: the
/// real and the imaginary part of each of four polarisations.
pub const SAMPLES_PER_CHAN: usize = 8;

/// The number of values in the buffer of one HDU, which holds every baseline
/// of one timestep and one coarse channel.
pub open spec fn hdu_len(fine_chans_per_coarse: nat, num_baselines: nat) -> nat {
    SAMPLES_PER_CHAN as nat * fine_chans_per_coarse * num_baselines
}

/// Where the values of one fine channel of one baseline start in the buffer
/// of an HDU, which is ordered by baseline, then fine channel.
pub open spec fn hdu_offset(fine_chans_per_coarse: nat, baseline: nat, chan: nat) -> nat {
    baseline * (SAMPLES_PER_CHAN as nat * fine_chans_per_coarse) + chan * SAMPLES_PER_CHAN as nat
}

/// The values of one fine channel of one baseline in the buffer of an HDU.
pub open spec fn hdu_sample<T>(
    hdu_buffer: Seq<T>,
    fine_chans_per_coarse: nat,
    baseline: nat,
    chan: nat,
) -> Seq<T> {
    hdu_buffer.subrange(
        hdu_offset(fine_chans_per_coarse, baseline, chan) as int,
        hdu_offset(fine_chans_per_coarse, baseline, chan) + SAMPLES_PER_CHAN as int,
    )
}

/// The values of every channel of every baseline lie inside the buffer.
pub proof fn lemma_hdu_offset(
    fine_chans_per_coarse: nat,
    num_baselines: nat,
    baseline: nat,
    chan: nat,
)
    requires
        baseline < num_baselines,
        chan < fine_chans_per_coarse,
    ensures
        hdu_offset(fine_chans_per_coarse, baseline, chan) + SAMPLES_PER_CHAN as nat <= hdu_len(
            fine_chans_per_coarse,
            num_baselines,
        ),
        baseline * (SAMPLES_PER_CHAN as nat * fine_chans_per_coarse) <= hdu_offset(
            fine_chans_per_coarse,
            baseline,
            chan,
        ),
        SAMPLES_PER_CHAN as nat * fine_chans_per_coarse <= hdu_len(
            fine_chans_per_coarse,
            num_baselines,
        ),
{
    let per_baseline = 8 * fine_chans_per_coarse;
    assert(chan * 8 + 8 <= per_baseline);
    assert(baseline * per_baseline + per_baseline <= num_baselines * per_baseline)
        by (nonlinear_arith)
        requires
            baseline + 1 <= num_baselines,
    ;
    assert(num_baselines * per_baseline == 8 * fine_chans_per_coarse * num_baselines)
        by (nonlinear_arith)
        requires
            per_baseline == 8 * fine_chans_per_coarse,
    ;
    assert(baseline * per_baseline >= 0) by (nonlinear_arith);
}

impl MetafitsSummary {
    /// The number of values that the buffer for one HDU must hold.
    pub fn hdu_buffer_len(&self) -> (len: usize)
        requires
            self.num_visibility_pols * 2 == SAMPLES_PER_CHAN,
            hdu_len(self.num_corr_fine_chans_per_coarse as nat, self.num_baselines as nat)
                <= usize::MAX,
        ensures
            len == hdu_len(self.num_corr_fine_chans_per_coarse as nat, self.num_baselines as nat),
    {
        if self.num_baselines == 0 {
            assert(8 * self.num_corr_fine_chans_per_coarse * 0 == 0) by (nonlinear_arith);
            return 0;
        }
        assert(8 * self.num_corr_fine_chans_per_coarse <= 8 * self.num_corr_fine_chans_per_coarse
            * self.num_baselines) by (nonlinear_arith)
            requires
                self.num_baselines >= 1,
        ;
        let per_baseline: usize = SAMPLES_PER_CHAN * self.num_corr_fine_chans_per_coarse;
        per_baseline * self.num_baselines
    }
}

/// What came of the attempt to read one HDU.
#[derive(Debug, Clone, Copy, PartialEq, Eq, Structural)]
pub enum HduRead {
    /// The buffer holds the HDU.
    Data,
    /// The files hold no data for this timestep and coarse channel.
    NoData,
    /// The read failed for another reason.
    Failed,
}

/// One HDU that a selection reads, and where its visibilities go.
#[derive(Debug, Clone, Copy, PartialEq, Eq, Structural)]
pub struct HduRequest {
    /// The timestep to read, as an index into the observation's timesteps.
    pub timestep_idx: usize,
    /// The coarse channel to read, as an index into the observation's.
    pub coarse_chan_idx: usize,
    /// The timestep of the arrays that the HDU fills.
    pub timestep: usize,
    /// The first channel of the arrays that the HDU fills.
    pub chan_start: usize,
}

impl HduRequest {
    /// Takes note of what came of the read. Where there was no data, every
    /// baseline of the HDU's timestep and channels is flagged. Returns
    /// whether to go on: a failed read ends the whole selection's read.
    pub fn record(&self, read: HduRead, flags: &mut FlagArray, fine_chans_per_coarse: usize) -> (proceed:
        bool)
        requires
            self.timestep < old(flags).dims().0,
            self.chan_start + fine_chans_per_coarse <= old(flags).dims().1,
        ensures
            proceed == (read != HduRead::Failed),
            final(flags).dims() == old(flags).dims(),
            forall|t: int, c: int, b: int|
                in_shape(old(flags).dims(), t, c, b) ==> #[trigger] final(flags).cell(t, c, b) == (
                old(flags).cell(t, c, b) || (read == HduRead::NoData && t == self.timestep
                    && self.chan_start <= c < self.chan_start + fine_chans_per_coarse)),
    {
        match read {
            HduRead::Data => true,
            HduRead::NoData => {
                flags.flag_chans(self.timestep, self.chan_start, fine_chans_per_coarse);
                true
            },
            HduRead::Failed => false,
        }
    }
}

impl VisSelection {
    /// Whether `request` asks for the HDU of the coarse channel at position
    /// `coarse` of the selection and the timestep at position `timestep`,
    /// and sends it to that timestep and the channels of that coarse channel.
    pub open spec fn is_request(
        self,
        request: HduRequest,
        fine_chans_per_coarse: nat,
        coarse: int,
        timestep: int,
    ) -> bool {
        &&& request.timestep_idx == self.timestep_range.start + timestep
        &&& request.coarse_chan_idx == self.coarse_chan_range.start + coarse
        &&& request.timestep == timestep
        &&& request.chan_start == coarse * fine_chans_per_coarse
    }

    /// Checks the arrays that a read is to fill against the shape of this
    /// selection, the visibilities first and then the flags.
    pub fn check_read_shapes(
        &self,
        fine_chans_per_coarse: usize,
        jones_dim: (usize, usize, usize),
        flag_dim: (usize, usize, usize),
    ) -> (checked: Result<(), SelectionError>)
        requires
            range_len(self.coarse_chan_range) * fine_chans_per_coarse <= usize::MAX,
        ensures
            match checked {
                Ok(()) => {
                    &&& (jones_dim.0 as nat, jones_dim.1 as nat, jones_dim.2 as nat) == self.shape(
                        fine_chans_per_coarse as nat,
                    )
                    &&& (flag_dim.0 as nat, flag_dim.1 as nat, flag_dim.2 as nat) == self.shape(
                        fine_chans_per_coarse as nat,
                    )
                },
                Err(SelectionError::BadArrayShape { argument, function, expected, received }) => {
                    &&& function@ == "VisSelection::read_mwalib"@
                    &&& expected@ == shape_text(self.shape(fine_chans_per_coarse as nat))
                    &&& if (jones_dim.0 as nat, jones_dim.1 as nat, jones_dim.2 as nat)
                        != self.shape(fine_chans_per_coarse as nat) {
                        &&& argument@ == "jones_array"@
                        &&& received@ == shape_text(
                            (jones_dim.0 as nat, jones_dim.1 as nat, jones_dim.2 as nat),
                        )
                    } else {
                        &&& (flag_dim.0 as nat, flag_dim.1 as nat, flag_dim.2 as nat) != self.shape(
                            fine_chans_per_coarse as nat,
                        )
                        &&& argument@ == "flag_array"@
                        &&& received@ == shape_text(
                            (flag_dim.0 as nat, flag_dim.1 as nat, flag_dim.2 as nat),
                        )
                    }
                },
                Err(_) => false,
            },
    {
        let shape = self.get_shape(fine_chans_per_coarse);
        if jones_dim.0 != shape.0 || jones_dim.1 != shape.1 || jones_dim.2 != shape.2 {
            return Err(
                SelectionError::BadArrayShape {
                    argument: "jones_array".to_owned(),
                    function: "VisSelection::read_mwalib".to_owned(),
                    expected: shape_string(shape),
                    received: shape_string(jones_dim),
                },
            );
        }
        if flag_dim.0 != shape.0 || flag_dim.1 != shape.1 || flag_dim.2 != shape.2 {
            return Err(
                SelectionError::BadArrayShape {
                    argument: "flag_array".to_owned(),
                    function: "VisSelection::read_mwalib".to_owned(),
                    expected: shape_string(shape),
                    received: shape_string(flag_dim),
                },
            );
        }
        Ok(())
    }

    /// The HDUs that a read of this selection asks for, in the order of the
    /// read: coarse channel by coarse channel, and for each of them timestep
    /// by timestep. Each request lies inside the arrays of the selection.
    pub fn hdu_requests(&self, fine_chans_per_coarse: usize) -> (requests: Vec<HduRequest>)
        requires
            range_len(self.coarse_chan_range) * fine_chans_per_coarse <= usize::MAX,
        ensures
            requests@.len() == range_len(self.coarse_chan_range) * range_len(self.timestep_range),
            forall|i: int|
                0 <= i < requests@.len() ==> self.is_request(
                    #[trigger] requests@[i],
                    fine_chans_per_coarse as nat,
                    i / range_len(self.timestep_range) as int,
                    i % range_len(self.timestep_range) as int,
                ),
            forall|i: int|
                0 <= i < requests@.len() ==> {
                    &&& (#[trigger] requests@[i]).timestep < self.shape(
                        fine_chans_per_coarse as nat,
                    ).0
                    &&& requests@[i].chan_start + fine_chans_per_coarse <= self.shape(
                        fine_chans_per_coarse as nat,
                    ).1
                },
    {
        let num_timesteps = range_length(&self.timestep_range);
        let num_coarse = range_length(&self.coarse_chan_range);
        let mut requests: Vec<HduRequest> = Vec::new();
        let mut coarse: usize = 0;
        while coarse < num_coarse
            invariant
                coarse <= num_coarse,
                num_timesteps == range_len(self.timestep_range),
                num_coarse == range_len(self.coarse_chan_range),
                num_coarse * fine_chans_per_coarse <= usize::MAX,
                requests@.len() == coarse * num_timesteps,
                forall|i: int|
                    0 <= i < requests@.len() ==> self.is_request(
                        #[trigger] requests@[i],
                        fine_chans_per_coarse as nat,
                        i / num_timesteps as int,
                        i % num_timesteps as int,
                    ),
                forall|i: int|
                    0 <= i < requests@.len() ==> {
                        &&& (#[trigger] requests@[i]).timestep < num_timesteps
                        &&& requests@[i].chan_start + fine_chans_per_coarse <= num_coarse
                            * fine_chans_per_coarse
                    },
            decreases num_coarse - coarse,
        {
            assert(coarse * fine_chans_per_coarse + fine_chans_per_coarse <= num_coarse
                * fine_chans_per_coarse) by (nonlinear_arith)
                requires
                    coarse + 1 <= num_coarse,
            ;
            let chan_start: usize = coarse * fine_chans_per_coarse;
            let mut timestep: usize = 0;
            while timestep < num_timesteps
                invariant
                    timestep <= num_timesteps,
                    coarse < num_coarse,
                    chan_start == coarse * fine_chans_per_coarse,
                    chan_start + fine_chans_per_coarse <= num_coarse * fine_chans_per_coarse,
                    num_timesteps == range_len(self.timestep_range),
                    num_coarse == range_len(self.coarse_chan_range),
                    requests@.len() == coarse * num_timesteps + timestep,
                    forall|i: int|
                        0 <= i < requests@.len() ==> self.is_request(
                            #[trigger] requests@[i],
                            fine_chans_per_coarse as nat,
                            i / num_timesteps as int,
                            i % num_timesteps as int,
                        ),
                    forall|i: int|
                        0 <= i < requests@.len() ==> {
                            &&& (#[trigger] requests@[i]).timestep < num_timesteps
                            &&& requests@[i].chan_start + fine_chans_per_coarse <= num_coarse
                                * fine_chans_per_coarse
                        },
                decreases num_timesteps - timestep,
            {
                proof {
                    lemma_fundamental_div_mod_converse(
                        coarse * num_timesteps + timestep,
                        num_timesteps as int,
                        coarse as int,
                        timestep as int,
                    );
                }
                requests.push(
                    HduRequest {
                        timestep_idx: self.timestep_range.start + timestep,
                        coarse_chan_idx: self.coarse_chan_range.start + coarse,
                        timestep,
                        chan_start,
                    },
                );
                timestep = timestep + 1;
            }
            assert((coarse + 1) * num_timesteps == coarse * num_timesteps + num_timesteps)
                by (nonlinear_arith);
            coarse = coarse + 1;
        }
        requests
    }

    /// Picks the visibilities of the selected baselines out of the buffer of
    /// one HDU, which holds every baseline. The result is ordered by fine
    /// channel, then selected baseline, as one timestep of the visibility
    /// array is; each entry holds the eight values of one visibility
    /// unchanged.
    pub fn gather_hdu<T: Copy>(
        &self,
        hdu_buffer: &[T],
        fine_chans_per_coarse: usize,
        num_baselines: usize,
    ) -> (samples: Vec<[T; 8]>)
        requires
            hdu_buffer@.len() == hdu_len(fine_chans_per_coarse as nat, num_baselines as nat),
            forall|i: int|
                0 <= i < self.baseline_idxs@.len() ==> (#[trigger] self.baseline_idxs@[i])
                    < num_baselines,
        ensures
            samples@.len() == fine_chans_per_coarse * self.baseline_idxs@.len(),
            forall|i: int|
                0 <= i < samples@.len() ==> (#[trigger] samples@[i])@ == hdu_sample(
                    hdu_buffer@,
                    fine_chans_per_coarse as nat,
                    self.baseline_idxs@[i % self.baseline_idxs@.len() as int] as nat,
                    (i / self.baseline_idxs@.len() as int) as nat,
                ),
    {
        let num_selected = self.baseline_idxs.len();
        let buffer_len: usize = hdu_buffer.len();
        let mut samples: Vec<[T; 8]> = Vec::new();
        let mut chan: usize = 0;
        while chan < fine_chans_per_coarse
            invariant
                chan <= fine_chans_per_coarse,
                num_selected == self.baseline_idxs@.len(),
                buffer_len == hdu_buffer@.len(),
                hdu_buffer@.len() == hdu_len(fine_chans_per_coarse as nat, num_baselines as nat),
                forall|i: int|
                    0 <= i < self.baseline_idxs@.len() ==> (#[trigger] self.baseline_idxs@[i])
                        < num_baselines,
                samples@.len() == chan * num_selected,
                forall|i: int|
                    0 <= i < samples@.len() ==> (#[trigger] samples@[i])@ == hdu_sample(
                        hdu_buffer@,
                        fine_chans_per_coarse as nat,
                        self.baseline_idxs@[i % num_selected as int] as nat,
                        (i / num_selected as int) as nat,
                    ),
            decreases fine_chans_per_coarse - chan,
        {
            let mut selected: usize = 0;
            while selected < num_selected
                invariant
                    selected <= num_selected,
                    chan < fine_chans_per_coarse,
                    num_selected == self.baseline_idxs@.len(),
                    buffer_len == hdu_buffer@.len(),
                    hdu_buffer@.len() == hdu_len(
                        fine_chans_per_coarse as nat,
                        num_baselines as nat,
                    ),
                    forall|i: int|
                        0 <= i < self.baseline_idxs@.len() ==> (#[trigger] self.baseline_idxs@[i])
                            < num_baselines,
                    samples@.len() == chan * num_selected + selected,
                    forall|i: int|
                        0 <= i < samples@.len() ==> (#[trigger] samples@[i])@ == hdu_sample(
                            hdu_buffer@,
                            fine_chans_per_coarse as nat,
                            self.baseline_idxs@[i % num_selected as int] as nat,
                            (i / num_selected as int) as nat,
                        ),
                decreases num_selected - selected,
            {
                let baseline: usize = self.baseline_idxs[selected];
                proof {
                    lemma_hdu_offset(
                        fine_chans_per_coarse as nat,
                        num_baselines as nat,
                        baseline as nat,
                        chan as nat,
                    );
                    lemma_fundamental_div_mod_converse(
                        chan * num_selected + selected,
                        num_selected as int,
                        chan as int,
                        selected as int,
                    );
                }
                let per_baseline: usize = SAMPLES_PER_CHAN * fine_chans_per_coarse;
                let start: usize = baseline * per_baseline + chan * SAMPLES_PER_CHAN;
                let sample: [T; 8] = [
                    hdu_buffer[start],
                    hdu_buffer[start + 1],
                    hdu_buffer[start + 2],
                    hdu_buffer[start + 3],
                    hdu_buffer[start + 4],
                    hdu_buffer[start + 5],
                    hdu_buffer[start + 6],
                    hdu_buffer[start + 7],
                ];
                assert(sample@ =~= hdu_sample(
                    hdu_buffer@,
                    fine_chans_per_coarse as nat,
                    baseline as nat,
                    chan as nat,
                ));
                samples.push(sample);
                selected = selected + 1;
            }
            assert((chan + 1) * num_selected == chan * num_selected + num_selected)
                by (nonlinear_arith);
            chan = chan + 1;
        }
        samples
    }
}

/// The request at place `index` out of those for `num_timesteps` timesteps
/// is the one whose HDU holds channel `chan` at timestep `timestep`, if and
/// only if `index` is the place that `request_index` gives for that cell.
pub proof fn lemma_request_covers(
    num_timesteps: nat,
    fine_chans_per_coarse: nat,
    index: nat,
    timestep: nat,
    chan: nat,
)
    requires
        timestep < num_timesteps,
        fine_chans_per_coarse > 0,
    ensures
        (timestep == index % num_timesteps && (index / num_timesteps) * fine_chans_per_coarse
            <= chan < (index / num_timesteps) * fine_chans_per_coarse + fine_chans_per_coarse)
            <==> (chan / fine_chans_per_coarse) * num_timesteps + timestep == index,
{
    let n = num_timesteps as int;
    let f = fine_chans_per_coarse as int;
    let i = index as int;
    let t = timestep as int;
    let c = chan as int;
    let coarse = c / f;
    assert(c == f * coarse + c % f && 0 <= c % f < f) by (nonlinear_arith)
        requires
            f > 0,
            coarse == c / f,
    ;
    assert(i == n * (i / n) + i % n && 0 <= i % n < n) by (nonlinear_arith)
        requires
            n > 0,
    ;
    assert(f * coarse == coarse * f && n * (i / n) == (i / n) * n) by (nonlinear_arith);
    if t == i % n && (i / n) * f <= c < (i / n) * f + f {
        lemma_fundamental_div_mod_converse(c, f, i / n, c - (i / n) * f);
    }
    if coarse * n + t == i {
        lemma_fundamental_div_mod_converse(i, n, coarse, t);
    }
}

impl VisSelection {
    /// The place, among the requests of `hdu_requests`, of the one whose HDU
    /// holds channel `chan` at timestep `timestep`.
    pub open spec fn request_index(self, fine_chans_per_coarse: nat, timestep: int, chan: int) -> int {
        (chan / fine_chans_per_coarse as int) * range_len(self.timestep_range) + timestep
    }

    /// The number of reads that are looked at: all of them up to the first
    /// that failed.
    pub open spec fn reads_recorded(reads: Seq<HduRead>, failed: Option<usize>) -> int {
        match failed {
            Some(index) => index as int,
            None => reads.len() as int,
        }
    }

    /// Whether `failed` names the first read that failed, or is `None` where
    /// none did.
    pub open spec fn is_first_failure(reads: Seq<HduRead>, failed: Option<usize>) -> bool {
        &&& 0 <= Self::reads_recorded(reads, failed) <= reads.len()
        &&& failed.is_some() ==> Self::reads_recorded(reads, failed) < reads.len()
            && reads[Self::reads_recorded(reads, failed)] == HduRead::Failed
        &&& forall|j: int|
            0 <= j < Self::reads_recorded(reads, failed) ==> #[trigger] reads[j] != HduRead::Failed
    }

    /// Takes note of what came of the reads of a selection, one for each
    /// request of `hdu_requests` and in their order. The flags must have the
    /// shape of the selection. Every cell whose HDU held no data is flagged,
    /// up to the first read that failed; the place of that read is returned,
    /// and means that the read of the selection is to be given up.
    pub fn record_reads(
        &self,
        fine_chans_per_coarse: usize,
        flags: &mut FlagArray,
        reads: &[HduRead],
    ) -> (outcome: Result<Option<usize>, SelectionError>)
        requires
            range_len(self.coarse_chan_range) * fine_chans_per_coarse <= usize::MAX,
            reads@.len() == range_len(self.coarse_chan_range) * range_len(self.timestep_range),
        ensures
            final(flags).dims() == old(flags).dims(),
            match outcome {
                Ok(failed) => {
                    &&& old(flags).dims() == self.shape(fine_chans_per_coarse as nat)
                    &&& Self::is_first_failure(reads@, failed)
                    &&& forall|t: int, c: int, b: int|
                        in_shape(old(flags).dims(), t, c, b) ==> #[trigger] final(flags).cell(
                            t,
                            c,
                            b,
                        ) == (old(flags).cell(t, c, b) || (0 <= self.request_index(
                            fine_chans_per_coarse as nat,
                            t,
                            c,
                        ) < Self::reads_recorded(reads@, failed) && reads@[self.request_index(
                            fine_chans_per_coarse as nat,
                            t,
                            c,
                        )] == HduRead::NoData))
                },
                Err(SelectionError::BadArrayShape { argument, function, expected, received }) => {
                    &&& old(flags).dims() != self.shape(fine_chans_per_coarse as nat)
                    &&& *final(flags) == *old(flags)
                    &&& argument@ == "flag_array"@
                    &&& function@ == "VisSelection::read_mwalib"@
                    &&& expected@ == shape_text(self.shape(fine_chans_per_coarse as nat))
                    &&& received@ == shape_text(old(flags).dims())
                },
                Err(_) => false,
            },
    {
        let shape = self.get_shape(fine_chans_per_coarse);
        let dim = flags.dim();
        if dim.0 != shape.0 || dim.1 != shape.1 || dim.2 != shape.2 {
            return Err(
                SelectionError::BadArrayShape {
                    argument: "flag_array".to_owned(),
                    function: "VisSelection::read_mwalib".to_owned(),
                    expected: shape_string(shape),
                    received: shape_string(dim),
                },
            );
        }
        let requests = self.hdu_requests(fine_chans_per_coarse);
        let ghost num_timesteps = range_len(self.timestep_range);
        let ghost fine = fine_chans_per_coarse as nat;
        let mut index: usize = 0;
        while index < requests.len()
            invariant
                index <= requests@.len() == reads@.len(),
                num_timesteps == range_len(self.timestep_range),
                fine == fine_chans_per_coarse as nat,
                flags.dims() == old(flags).dims(),
                flags.dims() == self.shape(fine),
                forall|i: int|
                    0 <= i < requests@.len() ==> self.is_request(
                        #[trigger] requests@[i],
                        fine,
                        i / num_timesteps as int,
                        i % num_timesteps as int,
                    ),
                forall|i: int|
                    0 <= i < requests@.len() ==> {
                        &&& (#[trigger] requests@[i]).timestep < self.shape(fine).0
                        &&& requests@[i].chan_start + fine_chans_per_coarse <= self.shape(fine).1
                    },
                forall|j: int| 0 <= j < index ==> #[trigger] reads@[j] != HduRead::Failed,
                forall|t: int, c: int, b: int|
                    in_shape(flags.dims(), t, c, b) ==> #[trigger] flags.cell(t, c, b) == (old(
                        flags,
                    ).cell(t, c, b) || (0 <= self.request_index(fine, t, c) < index
                        && reads@[self.request_index(fine, t, c)] == HduRead::NoData)),
            decreases requests@.len() - index,
        {
            let ghost before = *flags;
            let request = requests[index];
            let proceed = request.record(reads[index], flags, fine_chans_per_coarse);
            proof {
                assert forall|t: int, c: int, b: int| in_shape(flags.dims(), t, c, b) implies (
                #[trigger] flags.cell(t, c, b)) == (old(flags).cell(t, c, b) || (0
                    <= self.request_index(fine, t, c) < (if proceed {
                    index + 1
                } else {
                    index as int
                }) && reads@[self.request_index(fine, t, c)] == HduRead::NoData)) by {
                    assert(fine > 0) by (nonlinear_arith)
                        requires
                            0 <= c < range_len(self.coarse_chan_range) * fine,
                    ;
                    lemma_request_covers(num_timesteps, fine, index as nat, t as nat, c as nat);
                    assert(request.timestep == index as int % num_timesteps as int);
                    assert(request.chan_start == (index as int / num_timesteps as int) * fine);
                    assert(0 <= self.request_index(fine, t, c)) by (nonlinear_arith)
                        requires
                            self.request_index(fine, t, c) == (c / fine as int) * num_timesteps
                                + t,
                            0 <= t,
                            0 <= c,
                            fine > 0,
                    ;
                    assert(flags.cell(t, c, b) == (before.cell(t, c, b) || (reads@[index as int]
                        == HduRead::NoData && t == request.timestep && request.chan_start <= c
                        < request.chan_start + fine)));
                }
            }
            if !proceed {
                return Ok(Some(index));
            }
            index = index + 1;
        }
        Ok(None)
    }
}

} // verus!

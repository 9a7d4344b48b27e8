//! The averaged counterpart of a selection: how many timesteps and channels
//! were selected, by how much each axis is averaged, and which raw cells go
//! into each averaged one.

use std::ops::Range;
use vstd::prelude::*;

use crate::io::error::BadArrayShape;
use crate::io::uvfits::{lemma_write_rows, RowCounter, RowState};
use crate::selection::{range_len, MetafitsSummary, VisSelection};

verus! {

/// The number of chunks of `size` that `len` items make, the last of which
/// may be short.
pub open spec fn num_chunks(len: nat, size: nat) -> nat
    recommends
        size > 0,
{
    if len % size == 0 {
        len / size
    } else {
        len / size + 1
    }
}

/// The first item of chunk `index`.
pub open spec fn chunk_start(size: nat, index: nat) -> nat {
    index * size
}

/// The item after the last one of chunk `index`, which is cut off at `len`.
pub open spec fn chunk_end(len: nat, size: nat, index: nat) -> nat {
    if (index + 1) * size < len {
        (index + 1) * size
    } else {
        len
    }
}

/// The chunks of `size` cover `0..len` without gap or overlap: each of them
/// holds at least one item, starts where the one before it ends, the first
/// starts at 0 and the last ends at `len`.
pub proof fn lemma_chunks_partition(len: nat, size: nat, index: nat)
    requires
        size > 0,
        index < num_chunks(len, size),
    ensures
        chunk_start(size, index) < chunk_end(len, size, index) <= len,
        chunk_end(len, size, index) - chunk_start(size, index) <= size,
        chunk_start(size, 0) == 0,
        index + 1 < num_chunks(len, size) ==> chunk_end(len, size, index) == chunk_start(
            size,
            index + 1,
        ),
        index + 1 == num_chunks(len, size) ==> chunk_end(len, size, index) == len,
{
    let q = len / size;
    let r = len % size;
    assert(len == q * size + r) by (nonlinear_arith)
        requires
            size > 0,
            q == len / size,
            r == len % size,
    ;
    assert(0 <= r < size);
    assert(0 * size == 0);
    assert((index + 1) * size == index * size + size) by (nonlinear_arith);
    if index < q {
        assert((index + 1) * size <= q * size) by (nonlinear_arith)
            requires
                index + 1 <= q,
        ;
    } else {
        assert(index == q && r > 0);
    }
    if index + 1 < num_chunks(len, size) {
        if index + 1 < q {
            assert((index + 2) * size <= q * size) by (nonlinear_arith)
                requires
                    index + 2 <= q,
            ;
        }
    }
    if index + 1 == num_chunks(len, size) {
        if r == 0 {
            assert(index + 1 == q);
        } else {
            assert(index == q);
        }
    }
}

/// Chunks of one item are the items themselves.
pub proof fn lemma_chunks_of_one(len: nat, index: nat)
    requires
        index < len,
    ensures
        num_chunks(len, 1) == len,
        chunk_start(1, index) == index,
        chunk_end(len, 1, index) == index + 1,
{
    assert(len % 1 == 0 && len / 1 == len);
    assert(index * 1 == index && (index + 1) * 1 == index + 1);
}

/// Without averaging, every averaged timestep and channel is exactly one
/// selected timestep and channel: the counts stay as they are, and the chunk
/// of cell `(timestep, chan)` holds that cell alone.
pub proof fn lemma_trivial_averaging(context: VisContext, timestep: nat, chan: nat)
    requires
        context.avg_time == 1,
        context.avg_freq == 1,
        timestep < context.num_sel_timesteps,
        chan < context.num_sel_chans,
    ensures
        context.avg_timesteps() == context.num_sel_timesteps,
        context.avg_chans() == context.num_sel_chans,
        chunk_start(1, timestep) == timestep,
        chunk_end(context.num_sel_timesteps as nat, 1, timestep) == timestep + 1,
        chunk_start(1, chan) == chan,
        chunk_end(context.num_sel_chans as nat, 1, chan) == chan + 1,
{
    lemma_chunks_of_one(context.num_sel_timesteps as nat, timestep);
    lemma_chunks_of_one(context.num_sel_chans as nat, chan);
}

/// A description of the visibilities that are handed to a writer: the shape
/// of what was selected, and how it is to be averaged.
#[derive(Debug, Clone)]
pub struct VisContext {
    /// The number of selected timesteps, before averaging.
    pub num_sel_timesteps: usize,
    /// The number of selected channels, before averaging.
    pub num_sel_chans: usize,
    /// The antenna pair of each selected baseline, in the order of the
    /// arrays' last axis.
    pub sel_baselines: Vec<(usize, usize)>,
    /// The number of timesteps that are averaged into one.
    pub avg_time: usize,
    /// The number of channels that are averaged into one.
    pub avg_freq: usize,
    /// The number of polarisation products of each visibility.
    pub num_vis_pols: usize,
}

/// What a writer is about to write for one call: the averaged counts, the
/// number of rows and the number of values in each row's visibilities.
#[derive(Debug, Clone, Copy, PartialEq, Eq, Structural)]
pub struct WritePlan {
    /// The number of rows that the file held before this call; the rows of
    /// this call follow them.
    pub first_row: usize,
    /// The number of timesteps after averaging.
    pub num_avg_timesteps: usize,
    /// The number of channels after averaging.
    pub num_avg_chans: usize,
    /// The number of rows: one for each averaged timestep and baseline.
    pub num_avg_rows: usize,
    /// The number of values in a row behind its parameters: a real part, an
    /// imaginary part and a weight for each polarisation of each channel.
    pub payload_len: usize,
}

impl VisContext {
    /// Whether both averaging factors are at least one.
    pub open spec fn well_formed(self) -> bool {
        self.avg_time > 0 && self.avg_freq > 0
    }

    /// The shape of the selected arrays.
    pub open spec fn sel_shape(self) -> (nat, nat, nat) {
        (self.num_sel_timesteps as nat, self.num_sel_chans as nat, self.sel_baselines@.len())
    }

    /// The number of timesteps after averaging.
    pub open spec fn avg_timesteps(self) -> nat {
        num_chunks(self.num_sel_timesteps as nat, self.avg_time as nat)
    }

    /// The number of channels after averaging.
    pub open spec fn avg_chans(self) -> nat {
        num_chunks(self.num_sel_chans as nat, self.avg_freq as nat)
    }

    /// The number of rows that the selection makes.
    pub open spec fn avg_rows(self) -> nat {
        self.avg_timesteps() * self.sel_baselines@.len()
    }

    /// The number of values in the visibilities of one row.
    pub open spec fn payload_len(self) -> nat {
        3 * self.num_vis_pols as nat * self.avg_chans()
    }

    /// What is written for this context into a file in the state `rows`.
    pub open spec fn write_plan(self, rows: RowState) -> WritePlan {
        WritePlan {
            first_row: rows.current as usize,
            num_avg_timesteps: self.avg_timesteps() as usize,
            num_avg_chans: self.avg_chans() as usize,
            num_avg_rows: self.avg_rows() as usize,
            payload_len: self.payload_len() as usize,
        }
    }

    /// The context of the visibilities that `selection` picks out of an
    /// observation: its shape, the antennas of its baselines, and the
    /// averaging that is asked for.
    pub fn from_selection(
        selection: &VisSelection,
        meta_ctx: &MetafitsSummary,
        avg_time: usize,
        avg_freq: usize,
    ) -> (context: Self)
        requires
            range_len(selection.coarse_chan_range) * meta_ctx.num_corr_fine_chans_per_coarse
                <= usize::MAX,
            forall|i: int|
                0 <= i < selection.baseline_idxs@.len() ==> (#[trigger] selection.baseline_idxs@[i])
                    < meta_ctx.baselines@.len(),
        ensures
            context.sel_shape() == selection.shape(
                meta_ctx.num_corr_fine_chans_per_coarse as nat,
            ),
            forall|i: int|
                0 <= i < context.sel_baselines@.len() ==> #[trigger] context.sel_baselines@[i] == (
                    meta_ctx.baselines@[selection.baseline_idxs@[i] as int].ant1_index,
                    meta_ctx.baselines@[selection.baseline_idxs@[i] as int].ant2_index,
                ),
            context.avg_time == avg_time,
            context.avg_freq == avg_freq,
            context.num_vis_pols == meta_ctx.num_visibility_pols,
    {
        let shape = selection.get_shape(meta_ctx.num_corr_fine_chans_per_coarse);
        VisContext {
            num_sel_timesteps: shape.0,
            num_sel_chans: shape.1,
            sel_baselines: selection.get_ant_pairs(meta_ctx),
            avg_time,
            avg_freq,
            num_vis_pols: meta_ctx.num_visibility_pols,
        }
    }

    /// The averaged channel in the middle, whose frequency is the reference
    /// frequency of a file: channel `n / 2` of `n`.
    pub fn avg_centre_chan(&self) -> (chan: usize)
        requires
            self.avg_freq > 0,
            self.avg_chans() > 0,
        ensures
            chan == self.avg_chans() / 2,
            chan < self.avg_chans(),
    {
        self.num_avg_chans() / 2
    }

    /// The expected shape of the selected arrays.
    pub fn sel_dims(&self) -> (dims: (usize, usize, usize))
        ensures
            (dims.0 as nat, dims.1 as nat, dims.2 as nat) == self.sel_shape(),
    {
        (self.num_sel_timesteps, self.num_sel_chans, self.sel_baselines.len())
    }

    /// Whether nothing is averaged: every cell is written as it is.
    pub fn trivial_averaging(&self) -> (trivial: bool)
        ensures
            trivial == (self.avg_time == 1 && self.avg_freq == 1),
    {
        self.avg_time == 1 && self.avg_freq == 1
    }

    /// The number of timesteps after averaging.
    pub fn num_avg_timesteps(&self) -> (count: usize)
        requires
            self.avg_time > 0,
        ensures
            count == self.avg_timesteps(),
    {
        count_chunks(self.num_sel_timesteps, self.avg_time)
    }

    /// The number of channels after averaging.
    pub fn num_avg_chans(&self) -> (count: usize)
        requires
            self.avg_freq > 0,
        ensures
            count == self.avg_chans(),
    {
        count_chunks(self.num_sel_chans, self.avg_freq)
    }

    /// The shape of the averaged arrays.
    pub fn avg_dims(&self) -> (dims: (usize, usize, usize))
        requires
            self.well_formed(),
        ensures
            (dims.0 as nat, dims.1 as nat, dims.2 as nat) == (
                self.avg_timesteps(),
                self.avg_chans(),
                self.sel_baselines@.len(),
            ),
    {
        (self.num_avg_timesteps(), self.num_avg_chans(), self.sel_baselines.len())
    }

    /// The selected timesteps that are averaged into timestep
    /// `avg_timestep`.
    pub fn timestep_chunk(&self, avg_timestep: usize) -> (chunk: Range<usize>)
        requires
            self.avg_time > 0,
            avg_timestep < self.avg_timesteps(),
        ensures
            chunk.start == chunk_start(self.avg_time as nat, avg_timestep as nat),
            chunk.end == chunk_end(
                self.num_sel_timesteps as nat,
                self.avg_time as nat,
                avg_timestep as nat,
            ),
    {
        chunk_range(self.num_sel_timesteps, self.avg_time, avg_timestep)
    }

    /// The selected channels that are averaged into channel `avg_chan`.
    pub fn chan_chunk(&self, avg_chan: usize) -> (chunk: Range<usize>)
        requires
            self.avg_freq > 0,
            avg_chan < self.avg_chans(),
        ensures
            chunk.start == chunk_start(self.avg_freq as nat, avg_chan as nat),
            chunk.end == chunk_end(self.num_sel_chans as nat, self.avg_freq as nat, avg_chan as nat),
    {
        chunk_range(self.num_sel_chans, self.avg_freq, avg_chan)
    }

    /// Whether `report` is the complaint about `argument`, which had the
    /// shape `received` in place of the selected one.
    pub open spec fn is_shape_report(
        self,
        report: BadArrayShape,
        argument: Seq<char>,
        received: (usize, usize, usize),
    ) -> bool {
        &&& (received.0 as nat, received.1 as nat, received.2 as nat) != self.sel_shape()
        &&& report.reports(
            argument,
            "write_vis_marlu"@,
            self.sel_shape(),
            (received.0 as nat, received.1 as nat, received.2 as nat),
        )
    }

    /// Prepares one call of a uvfits writer. The visibilities are checked
    /// against the selected shape first, then the weights; where both match,
    /// the rows of this context must still fit the file, and every one of
    /// them will then be accepted.
    pub fn plan_write(
        &self,
        counter: &RowCounter,
        vis_dim: (usize, usize, usize),
        weights_dim: (usize, usize, usize),
    ) -> (plan: Result<WritePlan, BadArrayShape>)
        requires
            self.well_formed(),
            self.avg_rows() <= usize::MAX,
            self.payload_len() <= usize::MAX,
            (vis_dim.0 as nat, vis_dim.1 as nat, vis_dim.2 as nat) == self.sel_shape() && (
            weights_dim.0 as nat,
            weights_dim.1 as nat,
            weights_dim.2 as nat,
            ) == self.sel_shape() ==> counter@.total - counter@.current >= self.avg_rows(),
        ensures
            match plan {
                Ok(plan) => {
                    &&& (vis_dim.0 as nat, vis_dim.1 as nat, vis_dim.2 as nat) == self.sel_shape()
                    &&& (weights_dim.0 as nat, weights_dim.1 as nat, weights_dim.2 as nat)
                        == self.sel_shape()
                    &&& plan == self.write_plan(counter@)
                    &&& plan.first_row == counter@.current
                    &&& plan.num_avg_timesteps == self.avg_timesteps()
                    &&& plan.num_avg_chans == self.avg_chans()
                    &&& plan.num_avg_rows == self.avg_rows()
                    &&& plan.payload_len == self.payload_len()
                    &&& counter@.write_rows(self.avg_rows()) == Some(
                        RowState::counted(counter@.current + self.avg_rows(), counter@.total),
                    )
                },
                Err(report) => {
                    if (vis_dim.0 as nat, vis_dim.1 as nat, vis_dim.2 as nat) != self.sel_shape() {
                        self.is_shape_report(report, "vis"@, vis_dim)
                    } else {
                        self.is_shape_report(report, "weights"@, weights_dim)
                    }
                },
            },
    {
        let sel_dims = self.sel_dims();
        if vis_dim.0 != sel_dims.0 || vis_dim.1 != sel_dims.1 || vis_dim.2 != sel_dims.2 {
            return Err(BadArrayShape::new("vis", "write_vis_marlu", sel_dims, vis_dim));
        }
        if weights_dim.0 != sel_dims.0 || weights_dim.1 != sel_dims.1 || weights_dim.2
            != sel_dims.2 {
            return Err(BadArrayShape::new("weights", "write_vis_marlu", sel_dims, weights_dim));
        }
        let num_avg_timesteps = self.num_avg_timesteps();
        let num_avg_chans = self.num_avg_chans();
        let first_row = counter.current_num_rows();
        proof {
            lemma_write_rows(counter@, self.avg_rows());
        }
        let num_avg_rows: usize = num_avg_timesteps * self.sel_baselines.len();
        let payload_len: usize = if num_avg_chans == 0 {
            assert(3 * self.num_vis_pols * 0 == 0) by (nonlinear_arith);
            0
        } else {
            assert(3 * self.num_vis_pols <= 3 * self.num_vis_pols * num_avg_chans)
                by (nonlinear_arith)
                requires
                    num_avg_chans >= 1,
            ;
            3 * self.num_vis_pols * num_avg_chans
        };
        Ok(WritePlan { first_row, num_avg_timesteps, num_avg_chans, num_avg_rows, payload_len })
    }
}

/// The number of chunks of `size` that `len` items make.
pub fn count_chunks(len: usize, size: usize) -> (count: usize)
    requires
        size > 0,
    ensures
        count == num_chunks(len as nat, size as nat),
{
    if len % size == 0 {
        len / size
    } else {
        assert(len / size < len) by (nonlinear_arith)
            requires
                size > 0,
                len % size != 0,
                len >= 0,
        ;
        len / size + 1
    }
}

/// The items of chunk `index` out of `len` items in chunks of `size`.
pub fn chunk_range(len: usize, size: usize, index: usize) -> (chunk: Range<usize>)
    requires
        size > 0,
        index < num_chunks(len as nat, size as nat),
    ensures
        chunk.start == chunk_start(size as nat, index as nat),
        chunk.end == chunk_end(len as nat, size as nat, index as nat),
{
    proof {
        lemma_chunks_partition(len as nat, size as nat, index as nat);
    }
    let start: usize = index * size;
    let end: usize = if len - start > size {
        start + size
    } else {
        len
    };
    assert((index + 1) * size == index * size + size) by (nonlinear_arith);
    start..end
}

} // verus!

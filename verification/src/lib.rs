//! Coordinate bookkeeping, visibility selection and uvfits row layout for
//! radio-interferometry correlator data.
//!
//! Everything here works on integers, strings and opaque samples: the
//! library decides which cells are read, where each value lands in a uvfits
//! row and which rows may still be written, and leaves arithmetic on the
//! samples themselves to its callers.

pub mod context;
pub mod flags;
pub mod io;
pub mod pos;
pub mod selection;
pub mod text;

pub use context::{VisContext, WritePlan};
pub use flags::FlagArray;
pub use io::error::{BadArrayShape, UvfitsWriteError};
pub use io::uvfits::{decode_uvfits_baseline, encode_uvfits_baseline, RowCounter, WriterPhase};
pub use selection::{
    Baseline, CorrelatorSummary, HduRead, HduRequest, MetafitsSummary, SelectionError,
    VisSelection,
};

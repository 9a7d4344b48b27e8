//! The uvfits file format: baseline ids, row bookkeeping and row layout.

use vstd::prelude::*;

use vstd::string::StringExecFns;

use crate::io::error::UvfitsWriteError;
use crate::text::{
    decimal_text, push_decimal, push_signed_decimal, push_two_digits, signed_decimal_text,
    two_digit_text,
};

verus! {

/// The uvfits id of the baseline between antennas `ant1` and `ant2`, both
/// counted from 1. Antennas up to 255 use the standard `256 * ant1 + ant2`;
/// a second antenna above 255 switches to the Miriad extension, which has
/// room for 2048 antennas.
pub open spec fn encoded_baseline(ant1: nat, ant2: nat) -> nat {
    if ant2 > 255 {
        ant1 * 2048 + ant2 + 65_536
    } else {
        ant1 * 256 + ant2
    }
}

/// The antenna pair that a uvfits baseline id stands for. Ids below 65535
/// are read in the standard form, all others in the Miriad form. The id
/// 65535 itself lies below the Miriad offset and has no reading.
pub open spec fn decoded_baseline(bl: nat) -> (nat, nat)
    recommends
        bl != 65_535,
{
    if bl < 65_535 {
        (bl / 256, bl % 256)
    } else {
        (((bl - 65_536) / 2048) as nat, ((bl - 65_536) % 2048) as nat)
    }
}

/// The antenna pairs that survive a trip through the baseline id: either
/// both antennas are at most 255 (but not both equal to 255, whose id 65535
/// is read as Miriad), or the second antenna lies in 256..=2047.
pub open spec fn baseline_round_trips(ant1: nat, ant2: nat) -> bool {
    if ant2 > 255 {
        ant2 < 2048
    } else {
        ant1 <= 255 && !(ant1 == 255 && ant2 == 255)
    }
}

/// Encode a baseline into the uvfits format. Use the Miriad convention to
/// handle more than 255 antennas (up to 2048). Antenna indices start at 1.
pub fn encode_uvfits_baseline(ant1: usize, ant2: usize) -> (bl: usize)
    requires
        encoded_baseline(ant1 as nat, ant2 as nat) <= usize::MAX,
    ensures
        bl == encoded_baseline(ant1 as nat, ant2 as nat),
{
    if ant2 > 255 {
        assert(ant1 * 2048 <= usize::MAX) by (nonlinear_arith)
            requires
                ant1 * 2048 + ant2 + 65_536 <= usize::MAX,
        ;
        ant1 * 2048 + ant2 + 65_536
    } else {
        ant1 * 256 + ant2
    }
}

/// Decode a uvfits baseline into the antennas that formed it. Antenna
/// indices start at 1.
pub fn decode_uvfits_baseline(bl: usize) -> (ants: (usize, usize))
    requires
        bl != 65_535,
    ensures
        (ants.0 as nat, ants.1 as nat) == decoded_baseline(bl as nat),
{
    if bl < 65_535 {
        let ant2: usize = bl % 256;
        let ant1: usize = (bl - ant2) / 256;
        (ant1, ant2)
    } else {
        let ant2: usize = (bl - 65_536) % 2048;
        let ant1: usize = (bl - ant2 - 65_536) / 2048;
        (ant1, ant2)
    }
}

/// Decoding the id of a baseline gives the baseline back, for every antenna
/// pair in 1..=2048 that `baseline_round_trips` admits.
pub proof fn lemma_baseline_round_trip(ant1: nat, ant2: nat)
    requires
        1 <= ant1 <= 2048,
        1 <= ant2 <= 2048,
        baseline_round_trips(ant1, ant2),
    ensures
        encoded_baseline(ant1, ant2) != 65_535,
        decoded_baseline(encoded_baseline(ant1, ant2)) == (ant1, ant2),
{
}

/// The pairs left out of `lemma_baseline_round_trip` are exactly the ones
/// whose id does not lead back to them.
pub proof fn lemma_baseline_round_trip_only(ant1: nat, ant2: nat)
    requires
        1 <= ant1 <= 2048,
        1 <= ant2 <= 2048,
        !baseline_round_trips(ant1, ant2),
    ensures
        encoded_baseline(ant1, ant2) == 65_535 || decoded_baseline(
            encoded_baseline(ant1, ant2),
        ) != (ant1, ant2),
{
}

/// Where a uvfits file stands between its creation and its antenna table.
#[derive(Debug, Clone, Copy, PartialEq, Eq, Structural)]
pub enum WriterPhase {
    /// The headers are written and no row is.
    Created,
    /// Some rows are written, and more must follow.
    WritingRows,
    /// Every row that the file was created for is written.
    RowsComplete,
}

/// The row count of a uvfits file as a mathematical value: how many rows
/// are written, out of how many that the file was created for.
pub struct RowState {
    pub current: nat,
    pub total: nat,
}

impl RowState {
    /// The state of a file created for `total` rows that holds `current`.
    pub open spec fn counted(current: nat, total: nat) -> RowState {
        RowState { current, total }
    }

    /// The state of a file that was just created for `total` rows.
    pub open spec fn created(total: nat) -> RowState {
        RowState::counted(0, total)
    }

    /// The state after one more row, or the error that refuses the row
    /// because the file is full.
    pub open spec fn write_row(self) -> Result<RowState, UvfitsWriteError> {
        if self.current + 1 > self.total {
            Err(
                UvfitsWriteError::BadRowNum {
                    row_num: self.current as usize,
                    num_rows: self.total as usize,
                },
            )
        } else {
            Ok(RowState::counted(self.current + 1, self.total))
        }
    }

    /// Whether the antenna table may follow: only once every row is written.
    pub open spec fn finish(self) -> Result<(), UvfitsWriteError> {
        if self.current != self.total {
            Err(
                UvfitsWriteError::NotEnoughRowsWritten {
                    current: self.current as usize,
                    total: self.total as usize,
                },
            )
        } else {
            Ok(())
        }
    }

    /// The state after `count` rows were offered one after the other, or
    /// `None` if one of them was refused.
    pub open spec fn write_rows(self, count: nat) -> Option<RowState>
        decreases count,
    {
        if count == 0 {
            Some(self)
        } else {
            match self.write_row() {
                Ok(next) => next.write_rows((count - 1) as nat),
                Err(_) => None,
            }
        }
    }

    /// The phase that this count stands for.
    pub open spec fn phase(self) -> WriterPhase {
        if self.current == 0 {
            WriterPhase::Created
        } else if self.current < self.total {
            WriterPhase::WritingRows
        } else {
            WriterPhase::RowsComplete
        }
    }
}

/// Offering `count` rows to a file with room for them moves the count up by
/// `count`; offering more than there is room for is refused.
pub proof fn lemma_write_rows(state: RowState, count: nat)
    requires
        state.current <= state.total,
    ensures
        state.current + count <= state.total ==> state.write_rows(count) == Some(
            RowState::counted(state.current + count, state.total),
        ),
        state.current + count > state.total ==> state.write_rows(count).is_none(),
    decreases count,
{
    if count > 0 && state.current + 1 <= state.total {
        lemma_write_rows(state.write_row()->Ok_0, (count - 1) as nat);
    }
}

/// The row count of a fresh file for `total` rows, after `count` rows were
/// written: the antenna table is allowed exactly when `count == total`, an
/// earlier request is refused with both counts, and one row more than
/// `total` is refused with the row number.
pub proof fn lemma_row_count_state_machine(total: nat, count: nat)
    requires
        0 < total <= usize::MAX,
        count <= total,
    ensures
        RowState::created(total).write_rows(count) == Some(RowState::counted(count, total)),
        count == total ==> RowState::counted(count, total).finish().is_ok(),
        count < total ==> RowState::counted(count, total).finish().is_err(),
        count < total ==> RowState::counted(count, total).finish()->Err_0 == (
            UvfitsWriteError::NotEnoughRowsWritten { current: count as usize, total: total as usize }
        ),
        RowState::created(total).write_rows(total + 1).is_none(),
        RowState::counted(total, total).write_row().is_err(),
        RowState::counted(total, total).write_row()->Err_0 == (
            UvfitsWriteError::BadRowNum { row_num: total as usize, num_rows: total as usize }
        ),
{
    lemma_write_rows(RowState::created(total), count);
    lemma_write_rows(RowState::created(total), total + 1);
}

/// The running row count of one uvfits file. The number of rows is fixed
/// when the file is created, as `num_timesteps * num_baselines`, and rows
/// are counted as they are written.
#[derive(Debug)]
pub struct RowCounter {
    /// The number of uvfits rows. This is equal to `num_timesteps` *
    /// `num_baselines`.
    total_num_rows: usize,
    /// The number of uvfits rows that have currently been written.
    current_num_rows: usize,
}

impl View for RowCounter {
    type V = RowState;

    closed spec fn view(&self) -> RowState {
        RowState::counted(self.current_num_rows as nat, self.total_num_rows as nat)
    }
}

impl RowCounter {
    #[verifier::type_invariant]
    spec fn well_formed(self) -> bool {
        &&& 0 < self.total_num_rows <= i64::MAX
        &&& self.current_num_rows <= self.total_num_rows
    }

    /// The count of a new file that will hold `num_timesteps * num_baselines`
    /// rows, which must be at least one and fit a FITS group count.
    pub fn new(num_timesteps: usize, num_baselines: usize) -> (counter: Self)
        requires
            0 < num_timesteps * num_baselines <= i64::MAX,
            num_timesteps * num_baselines <= usize::MAX,
        ensures
            counter@ == RowState::created((num_timesteps * num_baselines) as nat),
    {
        RowCounter { total_num_rows: num_timesteps * num_baselines, current_num_rows: 0 }
    }

    /// The number of rows that the file was created for.
    pub fn total_num_rows(&self) -> (total: usize)
        ensures
            total == self@.total,
            0 < total <= i64::MAX,
    {
        proof {
            use_type_invariant(self);
        }
        self.total_num_rows
    }

    /// The number of rows written so far.
    pub fn current_num_rows(&self) -> (current: usize)
        ensures
            current == self@.current,
            current <= self@.total,
    {
        proof {
            use_type_invariant(self);
        }
        self.current_num_rows
    }

    /// The number of rows that can still be written.
    pub fn remaining_rows(&self) -> (remaining: usize)
        ensures
            remaining == self@.total - self@.current,
    {
        proof {
            use_type_invariant(self);
        }
        self.total_num_rows - self.current_num_rows
    }

    /// Where the file stands.
    pub fn phase(&self) -> (phase: WriterPhase)
        ensures
            phase == self@.phase(),
    {
        if self.current_num_rows == 0 {
            WriterPhase::Created
        } else if self.current_num_rows < self.total_num_rows {
            WriterPhase::WritingRows
        } else {
            WriterPhase::RowsComplete
        }
    }

    /// The group number, counted from 1, under which the next row is
    /// written; `BadRowNum` if the file already holds all its rows.
    pub fn next_group(&self) -> (group: Result<i64, UvfitsWriteError>)
        ensures
            match self@.write_row() {
                Ok(_) => group == Ok::<i64, UvfitsWriteError>((self@.current + 1) as i64),
                Err(e) => group == Err::<i64, UvfitsWriteError>(e),
            },
    {
        proof {
            use_type_invariant(self);
        }
        if self.current_num_rows >= self.total_num_rows {
            return Err(
                UvfitsWriteError::BadRowNum {
                    row_num: self.current_num_rows,
                    num_rows: self.total_num_rows,
                },
            );
        }
        Ok(self.current_num_rows as i64 + 1)
    }

    /// Counts one row as written.
    pub fn row_written(&mut self)
        requires
            old(self)@.write_row().is_ok(),
        ensures
            Ok::<RowState, UvfitsWriteError>(final(self)@) == old(self)@.write_row(),
    {
        proof {
            use_type_invariant(&*self);
        }
        self.current_num_rows = self.current_num_rows + 1;
    }

    /// Closes the count before the antenna table is written, which ends the
    /// life of the file's writer: an error with both counts unless every row
    /// is written.
    pub fn finish(self) -> (done: Result<(), UvfitsWriteError>)
        ensures
            done == self@.finish(),
    {
        if self.current_num_rows != self.total_num_rows {
            return Err(
                UvfitsWriteError::NotEnoughRowsWritten {
                    current: self.current_num_rows,
                    total: self.total_num_rows,
                },
            );
        }
        Ok(())
    }
}

/// The calendar date of an epoch in UTC, as (year, month, day): what
/// `hifitime` computes from the epoch's TAI duration and its table of leap
/// seconds.
pub uninterp spec fn gregorian_utc_date(epoch: hifitime::Epoch) -> (int, int, int);

#[verifier::external_type_specification]
#[verifier::external_body]
pub struct ExEpoch(hifitime::Epoch);

/// `hifitime::Epoch::to_gregorian_utc`, cut down to the date. The contract
/// only gives the result its name: the same epoch has the same date.
#[verifier::external_body]
fn epoch_gregorian_utc_date(epoch: &hifitime::Epoch) -> (date: (i32, u8, u8))
    ensures
        (date.0 as int, date.1 as int, date.2 as int) == gregorian_utc_date(*epoch),
{
    let (year, month, day, _, _, _, _) = epoch.to_gregorian_utc();
    (year, month, day)
}

/// A date with the hours, minutes and seconds set to 0, as uvfits headers
/// hold it: `2017-12-01T00:00:00.0`. Month and day have two digits.
pub open spec fn truncated_date_text(date: (int, int, int)) -> Seq<char> {
    signed_decimal_text(date.0) + seq!['-'] + two_digit_text(date.1 as nat) + seq!['-']
        + two_digit_text(date.2 as nat) + "T00:00:00.0"@
}

/// Formats a calendar date with the hours, minutes and seconds set to 0.
pub fn truncated_date_string(year: i32, month: u8, day: u8) -> (out: String)
    ensures
        out@ == truncated_date_text((year as int, month as int, day as int)),
{
    let mut out = String::new();
    push_signed_decimal(&mut out, year as i64);
    out.push('-');
    push_two_digits(&mut out, month as u64);
    out.push('-');
    push_two_digits(&mut out, day as u64);
    out.append("T00:00:00.0");
    assert(out@ =~= truncated_date_text((year as int, month as int, day as int)));
    out
}

/// From a `hifitime` epoch, get a formatted date string with the hours,
/// minutes and seconds set to 0.
pub fn get_truncated_date_string(epoch: hifitime::Epoch) -> (out: String)
    ensures
        out@ == truncated_date_text(gregorian_utc_date(epoch)),
{
    let (year, month, day) = epoch_gregorian_utc_date(&epoch);
    truncated_date_string(year, month, day)
}

/// The lengths of the six axes of the random-groups primary header, for a
/// file of `num_chans` channels: no image, then complex triple, four
/// polarisations, the channels, and one RA and one Dec.
pub open spec fn group_axes_spec(num_chans: nat) -> Seq<i64> {
    seq![0i64, 3i64, 4i64, num_chans as i64, 1i64, 1i64]
}

/// The number of parameters in front of each group: UU, VV, WW, BASELINE
/// and DATE.
pub const NUM_GROUP_PARAMS: usize = 5;

/// The axis lengths that the primary header is initialised with.
pub fn group_axes(num_chans: usize) -> (naxes: [i64; 6])
    requires
        num_chans <= i64::MAX,
    ensures
        naxes@ == group_axes_spec(num_chans as nat),
{
    let naxes: [i64; 6] = [0, 3, 4, num_chans as i64, 1, 1];
    assert(naxes@ =~= group_axes_spec(num_chans as nat));
    naxes
}

/// The name of the group parameter at position `index`, counted from 0.
pub open spec fn group_param_name(index: int) -> Seq<char> {
    if index == 0 {
        "UU"@
    } else if index == 1 {
        "VV"@
    } else if index == 2 {
        "WW"@
    } else if index == 3 {
        "BASELINE"@
    } else {
        "DATE"@
    }
}

/// A header keyword that is numbered, such as `PTYPE3`.
pub open spec fn indexed_key_text(prefix: Seq<char>, index: nat) -> Seq<char> {
    prefix + decimal_text(index)
}

/// The keyword `prefix` followed by `index` in decimal.
pub fn indexed_key(prefix: &str, index: usize) -> (key: String)
    ensures
        key@ == indexed_key_text(prefix@, index as nat),
{
    let mut key = prefix.to_owned();
    push_decimal(&mut key, index as u64);
    key
}

/// One of the parameters in front of every uvfits group, with the three
/// header keywords that describe it.
#[derive(Debug)]
pub struct GroupParam {
    /// The parameter's name, the value of `PTYPEn`.
    pub name: &'static str,
    /// The keyword `PTYPEn`.
    pub ptype_key: String,
    /// The keyword `PSCALn`; its value is always 1.
    pub pscal_key: String,
    /// The keyword `PZEROn`.
    pub pzero_key: String,
    /// Whether `PZEROn` holds the Julian date at the start of the first day;
    /// it is 0 otherwise.
    pub zero_is_date: bool,
}

impl GroupParam {
    /// Whether this is the parameter at position `index`, counted from 0.
    pub open spec fn is_param(self, index: int) -> bool {
        &&& self.name@ == group_param_name(index)
        &&& self.ptype_key@ == indexed_key_text("PTYPE"@, (index + 1) as nat)
        &&& self.pscal_key@ == indexed_key_text("PSCAL"@, (index + 1) as nat)
        &&& self.pzero_key@ == indexed_key_text("PZERO"@, (index + 1) as nat)
        &&& self.zero_is_date == (index == 4)
    }
}

/// The five group parameters in the order of the file, with their keywords
/// numbered from 1. Only DATE has a zero level.
pub fn group_params() -> (params: Vec<GroupParam>)
    ensures
        params@.len() == NUM_GROUP_PARAMS,
        forall|i: int| 0 <= i < params@.len() ==> (#[trigger] params@[i]).is_param(i),
{
    let names: [&'static str; 5] = ["UU", "VV", "WW", "BASELINE", "DATE"];
    let mut params: Vec<GroupParam> = Vec::new();
    let mut i: usize = 0;
    while i < 5
        invariant
            i <= 5,
            params@.len() == i,
            names@ =~= seq!["UU", "VV", "WW", "BASELINE", "DATE"],
            forall|k: int| 0 <= k < i ==> (#[trigger] params@[k]).is_param(k),
        decreases 5 - i,
    {
        let ii: usize = i + 1;
        let param = GroupParam {
            name: names[i],
            ptype_key: indexed_key("PTYPE", ii),
            pscal_key: indexed_key("PSCAL", ii),
            pzero_key: indexed_key("PZERO", ii),
            zero_is_date: i == 4,
        };
        assert(param.is_param(i as int));
        params.push(param);
        i = i + 1;
    }
    params
}

/// The reference pixel of the frequency axis: the centre channel, counted
/// from 1.
pub fn reference_pixel(centre_freq_chan: usize) -> (pixel: u64)
    requires
        centre_freq_chan < u64::MAX,
    ensures
        pixel == centre_freq_chan + 1,
{
    centre_freq_chan as u64 + 1
}

/// The value of the `OBJECT` keyword: the observation's name, or
/// `Undefined` where it has none.
pub fn object_name(obs_name: Option<String>) -> (name: String)
    ensures
        name@ == match obs_name {
            Some(given) => given@,
            None => "Undefined"@,
        },
{
    match obs_name {
        Some(given) => given,
        None => "Undefined".to_owned(),
    }
}

/// `str::rsplit_once` with a character as the delimiter: the parts before
/// and after the last occurrence of `delimiter`, or `None` if there is none.
#[verifier::external_body]
fn rsplit_once_char<'a>(s: &'a str, delimiter: char) -> (parts: Option<(&'a str, &'a str)>)
    ensures
        match parts {
            Some((head, tail)) => s@ == head@ + seq![delimiter] + tail@ && !tail@.contains(
                delimiter,
            ),
            None => !s@.contains(delimiter),
        },
{
    s.rsplit_once(delimiter)
}

/// What stands in front of the last `delimiter` of `s`; nothing if `s` has
/// no `delimiter`.
pub open spec fn before_last(s: Seq<char>, delimiter: char) -> Seq<char>
    decreases s.len(),
{
    if s.len() == 0 {
        s
    } else if s.last() == delimiter {
        s.drop_last()
    } else {
        before_last(s.drop_last(), delimiter)
    }
}

/// The name of the observed field: the observation's name up to its last
/// underscore, or all of it where it has none.
pub open spec fn field_name_text(obs_name: Seq<char>) -> Seq<char> {
    if obs_name.contains('_') {
        before_last(obs_name, '_')
    } else {
        obs_name
    }
}

proof fn lemma_before_last(head: Seq<char>, tail: Seq<char>, delimiter: char)
    requires
        !tail.contains(delimiter),
    ensures
        before_last(head + seq![delimiter] + tail, delimiter) == head,
        (head + seq![delimiter] + tail).contains(delimiter),
    decreases tail.len(),
{
    let s = head + seq![delimiter] + tail;
    assert(s[head.len() as int] == delimiter);
    if tail.len() == 0 {
        assert(s.drop_last() =~= head);
    } else {
        assert(tail.contains(tail.last()));
        assert(s.last() == tail.last());
        assert(s.drop_last() =~= head + seq![delimiter] + tail.drop_last());
        assert forall|c: char| tail.drop_last().contains(c) implies tail.contains(c) by {
            let i = choose|i: int| 0 <= i < tail.drop_last().len() && tail.drop_last()[i] == c;
            assert(tail[i] == c);
        }
        lemma_before_last(head, tail.drop_last(), delimiter);
    }
}

/// The field that an observation belongs to, taken from the observation's
/// name: everything before its last underscore.
pub fn field_name(obs_name: &str) -> (name: String)
    ensures
        name@ == field_name_text(obs_name@),
{
    match rsplit_once_char(obs_name, '_') {
        Some((head, tail)) => {
            proof {
                lemma_before_last(head@, tail@, '_');
            }
            head.to_owned()
        },
        None => obs_name.to_owned(),
    }
}

/// The columns of the `AIPS AN` antenna table, each as name, format and
/// unit, in the order of the table.
pub open spec fn antenna_table_schema() -> Seq<(Seq<char>, Seq<char>, Seq<char>)> {
    seq![
        ("ANNAME"@, "8A"@, ""@),
        ("STABXYZ"@, "3D"@, "METERS"@),
        ("NOSTA"@, "1J"@, ""@),
        ("MNTSTA"@, "1J"@, ""@),
        ("STAXOF"@, "1E"@, "METERS"@),
        ("POLTYA"@, "1A"@, ""@),
        ("POLAA"@, "1E"@, "DEGREES"@),
        ("POLCALA"@, "3E"@, ""@),
        ("POLTYB"@, "1A"@, ""@),
        ("POLAB"@, "1E"@, "DEGREES"@),
        ("POLCALB"@, "3E"@, ""@),
    ]
}

/// One column of a binary table.
#[derive(Debug, Clone, Copy)]
pub struct TableColumn {
    /// The column's name, `TTYPEn`.
    pub name: &'static str,
    /// The column's format, `TFORMn`.
    pub format: &'static str,
    /// The column's unit, `TUNITn`.
    pub unit: &'static str,
}

impl View for TableColumn {
    type V = (Seq<char>, Seq<char>, Seq<char>);

    open spec fn view(&self) -> (Seq<char>, Seq<char>, Seq<char>) {
        (self.name@, self.format@, self.unit@)
    }
}

/// The name of the antenna table's extension.
pub fn antenna_table_name() -> (name: &'static str)
    ensures
        name@ == "AIPS AN"@,
{
    "AIPS AN"
}

/// The eleven columns that the antenna table is created with.
pub fn antenna_table_columns() -> (columns: Vec<TableColumn>)
    ensures
        columns@.len() == 11,
        columns@.map_values(|c: TableColumn| c@) == antenna_table_schema(),
{
    let mut columns: Vec<TableColumn> = Vec::new();
    columns.push(TableColumn { name: "ANNAME", format: "8A", unit: "" });
    columns.push(TableColumn { name: "STABXYZ", format: "3D", unit: "METERS" });
    columns.push(TableColumn { name: "NOSTA", format: "1J", unit: "" });
    columns.push(TableColumn { name: "MNTSTA", format: "1J", unit: "" });
    columns.push(TableColumn { name: "STAXOF", format: "1E", unit: "METERS" });
    columns.push(TableColumn { name: "POLTYA", format: "1A", unit: "" });
    columns.push(TableColumn { name: "POLAA", format: "1E", unit: "DEGREES" });
    columns.push(TableColumn { name: "POLCALA", format: "3E", unit: "" });
    columns.push(TableColumn { name: "POLTYB", format: "1A", unit: "" });
    columns.push(TableColumn { name: "POLAB", format: "1E", unit: "DEGREES" });
    columns.push(TableColumn { name: "POLCALB", format: "3E", unit: "" });
    assert(columns@.map_values(|c: TableColumn| c@) =~= antenna_table_schema());
    columns
}

/// The cells of one row of the antenna table, but for the antenna's
/// position. `STAXOF` and all but the first calibration parameter of each
/// feed are not written.
#[derive(Debug)]
pub struct AntennaRow {
    /// The row of the table, counted from 1.
    pub row: i64,
    /// `ANNAME`: the antenna's name.
    pub name: String,
    /// `NOSTA`: the station number, which is the row.
    pub station: i32,
    /// `MNTSTA`: the mount type; 0 for all antennas.
    pub mount: i32,
    /// `POLTYA`: the feed A polarisation.
    pub pol_type_a: &'static str,
    /// `POLAA`: the feed A position angle \[degrees\].
    pub pol_angle_a: i32,
    /// `POLCALA`: the first feed A calibration parameter.
    pub pol_cal_a: i32,
    /// `POLTYB`: the feed B polarisation.
    pub pol_type_b: &'static str,
    /// `POLAB`: the feed B position angle \[degrees\].
    pub pol_angle_b: i32,
    /// `POLCALB`: the first feed B calibration parameter.
    pub pol_cal_b: i32,
}

impl AntennaRow {
    /// Whether this is the row of the antenna at position `index`, counted
    /// from 0, under the name `name`.
    pub open spec fn is_row(self, index: int, name: Seq<char>) -> bool {
        &&& self.row == index + 1
        &&& self.name@ == name
        &&& self.station == index + 1
        &&& self.mount == 0
        &&& self.pol_type_a@ == "X"@
        &&& self.pol_angle_a == 0
        &&& self.pol_cal_a == 0
        &&& self.pol_type_b@ == "Y"@
        &&& self.pol_angle_b == 90
        &&& self.pol_cal_b == 0
    }
}

/// The rows of the antenna table, one for each of the first `num_positions`
/// names and in their order, numbered from 1.
pub fn antenna_rows(antenna_names: &[String], num_positions: usize) -> (rows: Vec<AntennaRow>)
    requires
        num_positions <= antenna_names@.len(),
        num_positions <= i32::MAX,
    ensures
        rows@.len() == num_positions,
        forall|i: int|
            0 <= i < num_positions ==> (#[trigger] rows@[i]).is_row(i, antenna_names@[i]@),
{
    let mut rows: Vec<AntennaRow> = Vec::new();
    let mut i: usize = 0;
    while i < num_positions
        invariant
            i <= num_positions <= antenna_names@.len(),
            num_positions <= i32::MAX,
            rows@.len() == i,
            forall|k: int| 0 <= k < i ==> (#[trigger] rows@[k]).is_row(k, antenna_names@[k]@),
        decreases num_positions - i,
    {
        let row: i64 = i as i64 + 1;
        let antenna = AntennaRow {
            row,
            name: antenna_names[i].clone(),
            station: row as i32,
            mount: 0,
            pol_type_a: "X",
            pol_angle_a: 0,
            pol_cal_a: 0,
            pol_type_b: "Y",
            pol_angle_b: 90,
            pol_cal_b: 0,
        };
        assert(antenna.is_row(i as int, antenna_names@[i as int]@));
        rows.push(antenna);
        i = i + 1;
    }
    rows
}

/// The parameters and the visibilities of one uvfits group, as they follow
/// one another in the file.
pub open spec fn assembled_row<T>(params: Seq<T>, vis: Seq<T>) -> Seq<T> {
    params + vis
}

/// Puts the five group parameters in front of the visibilities of a row.
pub fn assemble_row<T: Copy>(u: T, v: T, w: T, baseline: T, date: T, vis: &[T]) -> (row: Vec<T>)
    ensures
        row@ == assembled_row(seq![u, v, w, baseline, date], vis@),
{
    let mut row: Vec<T> = Vec::with_capacity(5);
    row.push(u);
    row.push(v);
    row.push(w);
    row.push(baseline);
    row.push(date);
    let mut i: usize = 0;
    while i < vis.len()
        invariant
            i <= vis@.len(),
            row@ == seq![u, v, w, baseline, date] + vis@.subrange(0, i as int),
        decreases vis@.len() - i,
    {
        row.push(vis[i]);
        assert(vis@.subrange(0, i as int).push(vis@[i as int]) =~= vis@.subrange(0, i + 1));
        assert(row@ =~= seq![u, v, w, baseline, date] + vis@.subrange(0, i + 1));
        i = i + 1;
    }
    assert(vis@.subrange(0, i as int) =~= vis@);
    row
}

/// The baseline id of a row between two tiles that are counted from 0: the
/// file counts antennas from 1.
pub fn row_baseline_id(tile_index1: usize, tile_index2: usize) -> (bl: usize)
    requires
        encoded_baseline((tile_index1 + 1) as nat, (tile_index2 + 1) as nat) <= usize::MAX,
    ensures
        bl == encoded_baseline((tile_index1 + 1) as nat, (tile_index2 + 1) as nat),
{
    assert(tile_index1 + 1 <= usize::MAX && tile_index2 + 1 <= usize::MAX) by (nonlinear_arith)
        requires
            encoded_baseline((tile_index1 + 1) as nat, (tile_index2 + 1) as nat) <= usize::MAX,
    ;
    encode_uvfits_baseline(tile_index1 + 1, tile_index2 + 1)
}

/// One visibility as uvfits holds it. The eight values of `jones` are the
/// real and imaginary parts of XX, XY, YX and YY; the file wants XX, YY, XY,
/// YX, each followed by the weight.
pub open spec fn packed_visibility<T>(jones: Seq<T>, weight: T) -> Seq<T> {
    seq![
        jones[0],
        jones[1],
        weight,
        jones[6],
        jones[7],
        weight,
        jones[2],
        jones[3],
        weight,
        jones[4],
        jones[5],
        weight,
    ]
}

/// Reorders the four polarisations of one visibility from XX, XY, YX, YY to
/// XX, YY, XY, YX and puts the weight behind each. No value is changed.
pub fn pack_visibility<T: Copy>(jones: &[T; 8], weight: T) -> (packed: [T; 12])
    ensures
        packed@ == packed_visibility(jones@, weight),
{
    let packed: [T; 12] = [
        jones[0],
        jones[1],
        weight,
        jones[6],
        jones[7],
        weight,
        jones[2],
        jones[3],
        weight,
        jones[4],
        jones[5],
        weight,
    ];
    assert(packed@ =~= packed_visibility(jones@, weight));
    packed
}

/// The visibilities of one row: the packed visibility of each channel, one
/// after the other.
pub open spec fn row_payload_spec<T>(jones: Seq<[T; 8]>, weights: Seq<T>) -> Seq<T>
    recommends
        jones.len() == weights.len(),
    decreases jones.len(),
{
    if jones.len() == 0 || weights.len() == 0 {
        Seq::empty()
    } else {
        row_payload_spec(jones.drop_last(), weights.drop_last()) + packed_visibility(
            jones.last()@,
            weights.last(),
        )
    }
}

/// The payload of a row has twelve values for each channel, and the value at
/// place `k` of channel `chan` is the one that `packed_visibility` puts
/// there.
pub proof fn lemma_row_payload_index<T>(jones: Seq<[T; 8]>, weights: Seq<T>, chan: int, k: int)
    requires
        jones.len() == weights.len(),
        0 <= chan < jones.len(),
        0 <= k < 12,
    ensures
        row_payload_spec(jones, weights).len() == 12 * jones.len(),
        row_payload_spec(jones, weights)[12 * chan + k] == packed_visibility(
            jones[chan]@,
            weights[chan],
        )[k],
    decreases jones.len(),
{
    lemma_row_payload_len(jones, weights);
    lemma_row_payload_len(jones.drop_last(), weights.drop_last());
    if chan < jones.len() - 1 {
        lemma_row_payload_index(jones.drop_last(), weights.drop_last(), chan, k);
    }
}

/// The payload of a row has twelve values for each channel.
pub proof fn lemma_row_payload_len<T>(jones: Seq<[T; 8]>, weights: Seq<T>)
    requires
        jones.len() == weights.len(),
    ensures
        row_payload_spec(jones, weights).len() == 12 * jones.len(),
    decreases jones.len(),
{
    if jones.len() > 0 {
        lemma_row_payload_len(jones.drop_last(), weights.drop_last());
    }
}

/// Lays out the visibilities of one row from the visibility and the weight
/// of each of its channels.
pub fn row_payload<T: Copy>(jones: &[[T; 8]], weights: &[T]) -> (payload: Vec<T>)
    requires
        jones@.len() == weights@.len(),
    ensures
        payload@ == row_payload_spec(jones@, weights@),
{
    let mut payload: Vec<T> = Vec::new();
    let mut chan: usize = 0;
    while chan < jones.len()
        invariant
            chan <= jones@.len() == weights@.len(),
            payload@ == row_payload_spec(
                jones@.subrange(0, chan as int),
                weights@.subrange(0, chan as int),
            ),
        decreases jones@.len() - chan,
    {
        let packed = pack_visibility(&jones[chan], weights[chan]);
        let ghost before = payload@;
        let mut k: usize = 0;
        while k < 12
            invariant
                k <= 12,
                payload@ == before + packed@.subrange(0, k as int),
            decreases 12 - k,
        {
            payload.push(packed[k]);
            assert(payload@ =~= before + packed@.subrange(0, k + 1));
            k = k + 1;
        }
        assert(packed@.subrange(0, 12) =~= packed@);
        assert(jones@.subrange(0, chan + 1).drop_last() =~= jones@.subrange(0, chan as int));
        assert(weights@.subrange(0, chan + 1).drop_last() =~= weights@.subrange(0, chan as int));
        chan = chan + 1;
    }
    assert(jones@.subrange(0, chan as int) =~= jones@);
    assert(weights@.subrange(0, chan as int) =~= weights@);
    payload
}

} // verus!

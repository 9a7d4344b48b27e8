//! Errors of the visibility readers and writers.

use vstd::prelude::*;

use crate::text::{shape_string, shape_text};

verus! {

/// An array handed to a reader or writer does not have the shape that the
/// selection asks for.
#[derive(Debug, Clone)]
pub struct BadArrayShape {
    /// The argument name within the function.
    pub argument: String,
    /// The function name.
    pub function: String,
    /// The expected shape.
    pub expected: String,
    /// The shape that was received instead.
    pub received: String,
}

impl BadArrayShape {
    /// Whether this report names `argument` of `function` and holds the two
    /// shapes in tuple form.
    pub open spec fn reports(
        self,
        argument: Seq<char>,
        function: Seq<char>,
        expected: (nat, nat, nat),
        received: (nat, nat, nat),
    ) -> bool {
        &&& self.argument@ == argument
        &&& self.function@ == function
        &&& self.expected@ == shape_text(expected)
        &&& self.received@ == shape_text(received)
    }

    /// A report on `argument` of `function`, which should have had the shape
    /// `expected` and had `received`.
    pub fn new(
        argument: &str,
        function: &str,
        expected: (usize, usize, usize),
        received: (usize, usize, usize),
    ) -> (report: Self)
        ensures
            report.reports(
                argument@,
                function@,
                (expected.0 as nat, expected.1 as nat, expected.2 as nat),
                (received.0 as nat, received.1 as nat, received.2 as nat),
            ),
    {
        BadArrayShape {
            argument: argument.to_owned(),
            function: function.to_owned(),
            expected: shape_string(expected),
            received: shape_string(received),
        }
    }
}

/// Misuse of the row count that a uvfits file was created with.
#[derive(Debug, Clone, Copy, PartialEq, Eq, Structural)]
pub enum UvfitsWriteError {
    /// The antenna table was asked for before all rows were written.
    NotEnoughRowsWritten {
        /// The number of rows written so far.
        current: usize,
        /// The number of rows that the file was created for.
        total: usize,
    },
    /// A row was offered to a file that already holds all its rows.
    BadRowNum {
        /// The number of rows written so far.
        row_num: usize,
        /// The number of rows that the file was created for.
        num_rows: usize,
    },
}

} // verus!

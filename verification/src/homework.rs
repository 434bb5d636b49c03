//! The list of homework.

use crate::error::RepositoryError;
use crate::record::{records_view, Assignment, AssignmentType};
use crate::repository::{read_response, records_of, same_outcome, serials_dense};
use vstd::prelude::*;

verus! {

/// Reads the homework in the server's answer: one record for each row of
/// the table, each carrying the serial of its place, so that the serials are
/// 1 to the number of records without gap or repeat.
pub fn get_hw(response: &str) -> (out: Result<Vec<Assignment>, RepositoryError>)
    ensures
        same_outcome(out, records_of(response@, AssignmentType::Homework)),
        out matches Ok(records) ==> serials_dense(records_view(records@)),
{
    read_response(response, AssignmentType::Homework)
}

} // verus!

//! The row that a run writes.

use vstd::prelude::*;
use crate::system::SystemInfo;

verus! {

/// The one statement of a run. Its five parameters are bound by position, in
/// the order of the columns.
pub const INSERT_STATEMENT: &'static str =
    "INSERT INTO info (system_name, system_host_name, system_total_space, system_available_space, system_used_space) VALUES (?, ?, ?, ?, ?)";

/// The values of a row, in the order in which [`INSERT_STATEMENT`] binds
/// them: the two names, then the total, the available and the used capacity.
/// The capacities come as the decimal texts of their gibibytes.
pub fn row_values(
    system: SystemInfo,
    total_space: String,
    available_space: String,
    used_space: String,
) -> (values: Vec<String>)
    ensures
        values@.len() == 5,
        values@[0]@ == system@.system_name,
        values@[1]@ == system@.system_host_name,
        values@[2]@ == total_space@,
        values@[3]@ == available_space@,
        values@[4]@ == used_space@,
{
    let mut values: Vec<String> = Vec::new();
    values.push(system.system_name);
    values.push(system.system_host_name);
    values.push(total_space);
    values.push(available_space);
    values.push(used_space);
    values
}

} // verus!

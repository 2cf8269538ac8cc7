use vstd::prelude::*;

pub mod change;
pub mod commit;
pub mod change_type;
pub mod changes;
pub mod delta_file_ref;
pub mod parser;
pub mod search;
pub mod text;
pub mod time;

verus! {

} // verus!

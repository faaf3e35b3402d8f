use vstd::prelude::*;

verus! {

/// Box ids are taken modulo this bound; the isolator is configured for as
/// many boxes.
pub const MAX_BOX_ID: u64 = 900;

/// Where each runtime's directory lies.
pub const RUNTIMES_DIR: &'static str = "/envicutor/runtimes";

/// The runtime database.
pub const DB_PATH: &'static str = "/envicutor/db.sql";

/// Where scratch directories are made.
pub const TEMP_DIR: &'static str = "/tmp";

} // verus!

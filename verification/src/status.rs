//! The closed mapping from textual TCB status categories to code space.
//!
//! Seven known categories map to the codes zero through six in declared
//! order, most compliant first; every other string maps to the reserved
//! code seven.  The mapping is total: no input fails it.

use vstd::prelude::*;

verus! {

broadcast use vstd::string::group_string_axioms;

/// The reserved code for a status string outside the seven known
/// categories.
pub const UNRECOGNIZED_STATUS: u8 = 7;

/// The declared code of a status string: the seven known categories in
/// order, and the reserved code for everything else.
pub open spec fn status_code_spec(s: Seq<char>) -> u8 {
    if s == "UpToDate"@ {
        0
    } else if s == "SWHardeningNeeded"@ {
        1
    } else if s == "ConfigurationNeeded"@ {
        2
    } else if s == "ConfigurationAndSWHardeningNeeded"@ {
        3
    } else if s == "OutOfDate"@ {
        4
    } else if s == "OutOfDateConfigurationNeeded"@ {
        5
    } else if s == "Revoked"@ {
        6
    } else {
        7
    }
}

/// String equality by contents.
pub fn str_eq(a: &str, b: &str) -> (r: bool)
    ensures
        r == (a@ == b@),
{
    let aa = a.to_owned();
    let bb = b.to_owned();
    aa == bb
}

/// Maps a textual TCB status category to its declared code.  Total: an
/// unrecognized string yields the reserved code, never a failure.
pub fn map_tcb_status(status: &str) -> (code: u8)
    ensures
        code == status_code_spec(status@),
        code <= UNRECOGNIZED_STATUS,
{
    if str_eq(status, "UpToDate") {
        0
    } else if str_eq(status, "SWHardeningNeeded") {
        1
    } else if str_eq(status, "ConfigurationNeeded") {
        2
    } else if str_eq(status, "ConfigurationAndSWHardeningNeeded") {
        3
    } else if str_eq(status, "OutOfDate") {
        4
    } else if str_eq(status, "OutOfDateConfigurationNeeded") {
        5
    } else if str_eq(status, "Revoked") {
        6
    } else {
        7
    }
}

/// Each of the seven known status strings maps to its declared fixed
/// code, any other string maps to the reserved code, and no input is
/// outside these cases.
pub proof fn lemma_status_mapping_total(s: Seq<char>)
    ensures
        status_code_spec("UpToDate"@) == 0,
        status_code_spec("SWHardeningNeeded"@) == 1,
        status_code_spec("ConfigurationNeeded"@) == 2,
        status_code_spec("ConfigurationAndSWHardeningNeeded"@) == 3,
        status_code_spec("OutOfDate"@) == 4,
        status_code_spec("OutOfDateConfigurationNeeded"@) == 5,
        status_code_spec("Revoked"@) == 6,
        s != "UpToDate"@ && s != "SWHardeningNeeded"@ && s != "ConfigurationNeeded"@ && s
            != "ConfigurationAndSWHardeningNeeded"@ && s != "OutOfDate"@ && s
            != "OutOfDateConfigurationNeeded"@ && s != "Revoked"@ ==> status_code_spec(s) == 7,
        status_code_spec(s) <= 7,
{
    reveal_strlit("UpToDate");
    reveal_strlit("SWHardeningNeeded");
    reveal_strlit("ConfigurationNeeded");
    reveal_strlit("ConfigurationAndSWHardeningNeeded");
    reveal_strlit("OutOfDate");
    reveal_strlit("OutOfDateConfigurationNeeded");
    reveal_strlit("Revoked");
    assert("UpToDate"@.len() == 8);
    assert("SWHardeningNeeded"@.len() == 17);
    assert("ConfigurationNeeded"@.len() == 19);
    assert("ConfigurationAndSWHardeningNeeded"@.len() == 33);
    assert("OutOfDate"@.len() == 9);
    assert("OutOfDateConfigurationNeeded"@.len() == 28);
    assert("Revoked"@.len() == 7);
}

} // verus!

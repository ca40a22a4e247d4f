//! Settings command handlers.
//!
//! Persistence is delegated to a front-end-driven SQL component outside
//! this core; these handlers are reserved entry points that answer with
//! empty or unit values and never report an error.

use vstd::prelude::*;

verus! {

/// Look up a setting. No backend store exists in this core, so every key
/// resolves to nothing.
pub fn get_setting(key: String) -> (r: Result<Option<String>, String>)
    ensures
        r is Ok,
        r->Ok_0 is None,
{
    let _ = key;
    Ok(None)
}

/// Store a setting. No backend store exists in this core, so the value is
/// accepted and discarded.
pub fn set_setting(key: String, value: String) -> (r: Result<(), String>)
    ensures
        r is Ok,
{
    let _ = (key, value);
    Ok(())
}

} // verus!

//! Startup wiring helpers: resolution of the engine resource directory.

use vstd::prelude::*;

verus! {

/// Directory holding the engine binary: the resource directory the host
/// shell resolved at startup, or the local fallback when it resolved none.
pub fn get_doay_ray_dir(resolved: &Option<String>) -> (r: String)
    ensures
        match resolved {
            Some(d) => r@ == d@,
            None => r@ == "./ray"@,
        },
{
    match resolved {
        Some(d) => d.clone(),
        None => "./ray".to_owned(),
    }
}

} // verus!

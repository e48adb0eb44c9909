//! The keyboard-layout module.

use vstd::prelude::*;

verus! {

/// The keyboard-layout module's settings: a display label per layout name.
#[derive(Clone, Debug)]
pub struct KeyboardLayoutModuleConfig {
    pub labels: std::collections::HashMap<String, String>,
}

impl Default for KeyboardLayoutModuleConfig {
    fn default() -> (c: Self)
        ensures
            c.labels@.len() == 0,
    {
        KeyboardLayoutModuleConfig { labels: std::collections::HashMap::new() }
    }
}

} // verus!

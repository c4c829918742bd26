//! The settings the scanner runs with, and the cell that holds them once
//! they are loaded.

use vstd::prelude::*;

verus! {

/// The settings read from the configuration file.
#[derive(Debug, Clone)]
pub struct Config {
    /// How many workers share the paths of each scanned pattern.
    pub thread_count: usize,
    /// Where the store of file records lives.
    pub database_location: String,
    /// The glob patterns whose matches are scanned.
    pub scan_directories: Vec<String>,
}

/// Holds the settings once they have been loaded; they are loaded at most
/// once and never replaced.
pub struct ConfigCell {
    value: Option<Config>,
}

impl ConfigCell {
    /// A cell with nothing loaded yet.
    pub fn new() -> (cell: ConfigCell)
        ensures
            cell.loaded() is None,
    {
        ConfigCell { value: None }
    }

    /// The settings held, if they have been loaded.
    pub closed spec fn loaded(&self) -> Option<Config> {
        self.value
    }
}

/// The settings, loaded by `init` on the first call and the same settings
/// on every later call, which leaves `init` uncalled.
pub fn get<'a, F: FnOnce() -> Config>(cell: &'a mut ConfigCell, init: F) -> (config: &'a Config)
    requires
        old(cell).loaded() is None ==> init.requires(()),
    ensures
        final(cell).loaded() == Some(*config),
        old(cell).loaded() matches Some(c) ==> *config == c,
        old(cell).loaded() is None ==> init.ensures((), *config),
{
    if cell.value.is_none() {
        let loaded = init();
        cell.value = Some(loaded);
    }
    cell.value.as_ref().unwrap()
}

} // verus!

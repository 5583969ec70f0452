//! The settings and the cache together with the files they are saved in.

use vstd::prelude::*;
use std::path::PathBuf;

use crate::session::{Cache, Config};

verus! {

/// Declares `std::path::PathBuf` to Verus as an opaque type: the paths are
/// carried through the library and never read.
#[verifier::external_type_specification]
#[verifier::external_body]
pub struct ExPathBuf(PathBuf);

/// The settings and the cache, with the paths of the files that hold them.
pub struct Persistent {
    pub config: Config,
    pub config_path: PathBuf,
    pub cache: Cache,
    pub cache_path: PathBuf,
}

impl Persistent {
    /// The settings and the cache as read from `config_path` and `cache_path`.
    pub fn new(config: Config, config_path: PathBuf, cache: Cache, cache_path: PathBuf) -> (p: Self)
        ensures
            p == (Persistent { config, config_path, cache, cache_path }),
    {
        Persistent { config, config_path, cache, cache_path }
    }
}

} // verus!

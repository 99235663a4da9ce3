//! Where the server listens and what it serves.

use vstd::prelude::*;

verus! {

/// The directory that static assets are served from unless configured
/// otherwise, relative to the working directory of the process.
pub const DEFAULT_ASSET_ROOT: &'static str = "./static";

/// The port the server listens on unless configured otherwise.
pub const DEFAULT_PORT: u16 = 3000;

/// The settings of one server process.
#[derive(Debug, PartialEq, Eq)]
pub struct Settings {
    /// The IPv4 address to listen on, most significant octet first.
    pub address: [u8; 4],
    /// The TCP port to listen on.
    pub port: u16,
    /// The directory that static assets are served from.
    pub asset_root: String,
}

impl Default for Settings {
    /// The loopback address 127.0.0.1, the default port and the default asset
    /// root.
    fn default() -> (settings: Settings)
        ensures
            settings.address@ == seq![127u8, 0u8, 0u8, 1u8],
            settings.port == DEFAULT_PORT,
            settings.asset_root@ == DEFAULT_ASSET_ROOT@,
    {
        let settings = Settings {
            address: [127, 0, 0, 1],
            port: DEFAULT_PORT,
            asset_root: DEFAULT_ASSET_ROOT.to_owned(),
        };
        assert(settings.address@ =~= seq![127u8, 0u8, 0u8, 1u8]);
        settings
    }
}

} // verus!

//! The command line of the key tool.

use vstd::prelude::*;

verus! {

/// The key tool's command line.
pub struct Cli {
    pub command: Commands,
}

/// What the key tool does with a key file.
pub enum Commands {
    /// Generates a key pair and writes it to the file.
    GenerateKey { key_file: String },
    /// Shows the key pair in the file.
    ShowKey { key_file: String },
    /// Shows the peer id of the key pair in the file.
    ShowPeerId { key_file: String },
}

} // verus!

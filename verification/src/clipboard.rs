//! The `kdeconnect.clipboard` packet.

use vstd::prelude::*;

verus! {

/// Clipboard content shared by the phone.
#[derive(Clone, Debug, Default)]
pub struct Clipboard {
    pub content: String,
    pub timestamp: Option<u64>,
}

} // verus!

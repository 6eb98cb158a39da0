//! Interpretation of device-node status bit flags.
//!
//! The configuration manager reports a device node's state as a bit
//! field. The library maps that raw field onto a small closed status
//! model: a node with no flags at all is treated as not currently
//! present (`Disconnected`), a node with flags but without the
//! "started" bit is administratively off (`Disabled`), and a started
//! node is `Enabled`.

use vstd::prelude::*;

verus! {

/// Operational state of a game-controller device node, derived from
/// the node's raw status flags.
#[derive(Debug, Clone, Copy, PartialEq, Eq, Structural)]
pub enum GameControllerStatus {
    Enabled,
    Disabled,
    Disconnected,
}

/// Status-flag bit reported while the device node is started (live).
pub const DN_STARTED: u32 = 0x0000_0008;

/// Status-flag bit reported when the node may be disabled.
pub const DN_DISABLEABLE: u32 = 0x0000_2000;

/// The status that a raw flag field denotes.
pub open spec fn spec_status(flags: u32) -> GameControllerStatus {
    if flags == 0 {
        GameControllerStatus::Disconnected
    } else if flags & DN_STARTED == 0 {
        GameControllerStatus::Disabled
    } else {
        GameControllerStatus::Enabled
    }
}

/// Whether a raw flag field marks the node as disableable.
pub open spec fn spec_disableable(flags: u32) -> bool {
    flags & DN_DISABLEABLE != 0
}

/// Derive the semantic status from a raw status flag field.
pub fn derive_status(flags: u32) -> (r: GameControllerStatus)
    ensures
        r == spec_status(flags),
{
    if flags == 0 {
        GameControllerStatus::Disconnected
    } else if flags & DN_STARTED == 0 {
        GameControllerStatus::Disabled
    } else {
        GameControllerStatus::Enabled
    }
}

/// Whether the OS permits disabling a node with the given flags.
pub fn derive_disableable(flags: u32) -> (r: bool)
    ensures
        r == spec_disableable(flags),
{
    flags & DN_DISABLEABLE != 0
}

/// Law: a node whose status flags are entirely zero is `Disconnected`,
/// and such a node is never disableable.
pub proof fn lemma_zero_flags_status(flags: u32)
    requires
        flags == 0,
    ensures
        spec_status(flags) == GameControllerStatus::Disconnected,
        !spec_disableable(flags),
{
    assert(0u32 & 0x0000_2000u32 == 0) by (bit_vector);
}

/// Law: a non-zero flag field without the started bit denotes
/// `Disabled`; any flag field with the started bit denotes `Enabled`.
pub proof fn lemma_nonzero_flags_status(flags: u32)
    ensures
        flags != 0 && flags & DN_STARTED == 0 ==> spec_status(flags)
            == GameControllerStatus::Disabled,
        flags & DN_STARTED != 0 ==> spec_status(flags) == GameControllerStatus::Enabled,
{
    assert(0u32 & 0x0000_0008u32 == 0) by (bit_vector);
}

} // verus!

//! Agent identifiers: process-wide-unique 128-bit values assigned at
//! creation and used only for diagnostics and map keys.

use vstd::prelude::*;

verus! {

/// A 128-bit agent identifier, carried as the raw bits of a version-4 UUID.
#[derive(Debug, Clone, Copy, PartialEq, Eq, Hash, Structural)]
pub struct AgentId(pub u128);

impl AgentId {
    /// Draws a fresh random identifier, laid out as a version-4 UUID.
    pub fn fresh() -> (r: AgentId)
        ensures
            (r.0 >> 76) & 0xf == 4,
            (r.0 >> 62) & 0x3 == 2,
    {
        AgentId(fresh_v4_bits())
    }
}

/// Relies on uuid::Uuid::new_v4, read back through Uuid::as_u128: a random
/// 128-bit value whose version nibble is 4 and whose variant bits are 0b10;
/// nothing else holds of it.
#[verifier::external_body]
fn fresh_v4_bits() -> (r: u128)
    ensures
        (r >> 76) & 0xf == 4,
        (r >> 62) & 0x3 == 2,
{
    uuid::Uuid::new_v4().as_u128()
}

} // verus!

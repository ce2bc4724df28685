use vstd::prelude::*;

verus! {

/// The identifier of a configured button: either a button number or one of the named buttons.
#[derive(Debug, Clone, PartialEq, Eq)]
pub enum ButtonId {
    /// A number that fits in `i64`.
    Integer(i64),
    /// A button name.
    Text(String),
    /// Any other value (a fraction, a number beyond `i64`, a list, ...), which binds nothing.
    Other,
}

/// A configured button: its identifier and its index on the physical controller.
#[derive(Debug, Clone)]
pub struct ButtonConfig {
    pub id: ButtonId,
    pub index: usize,
}

/// A configured d-pad: the index of the POV hat on the physical controller.
#[derive(Debug, Clone, Copy)]
pub struct DPadConfig {
    pub index: usize,
}

/// Default attack time, in milliseconds, of the experimental force-shaping effects.
pub fn default_attack_ms() -> (r: u32)
    ensures
        r == 120,
{
    120
}

/// Default recovery time, in milliseconds, of the experimental force-shaping effects.
pub fn default_recovery_ms() -> (r: u32)
    ensures
        r == 450,
{
    450
}

/// Default for the per-effect switches that are on unless configured otherwise.
pub fn default_apply_true() -> (r: bool)
    ensures
        r,
{
    true
}

} // verus!

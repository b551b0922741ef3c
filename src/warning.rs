use vstd::prelude::*;

verus! {

/// A degraded but recoverable condition met while loading configuration,
/// to be reported to the operator.
#[derive(Debug)]
pub enum Warning {
    /// The daemon configuration file could not be read; defaults are used.
    ConfigMissing,
    /// The gadget directory does not exist or is not a directory.
    GadgetDirMissing,
    /// A gadget file could not be read; it is skipped.
    GadgetUnreadable { path: String, reason: String },
    /// A gadget file could not be parsed; it is skipped.
    GadgetMalformed { path: String, reason: String },
}

} // verus!

//! Plain configuration values exchanged with the host shell.

use vstd::prelude::*;

verus! {

/// Whether the host should use single or double buffering, or leave the
/// choice open.
#[derive(Clone, Copy, Debug, PartialEq, Eq, Structural)]
pub enum Buffering {
    Single,
    Double,
    DoNotCare,
}

impl Buffering {
    /// The tri-state flag the host's context builder takes.
    pub fn flag(self) -> (r: Option<bool>)
        ensures
            r == match self {
                Buffering::Single => Some(false),
                Buffering::Double => Some(true),
                Buffering::DoNotCare => None::<bool>,
            },
    {
        match self {
            Buffering::Single => Some(false),
            Buffering::Double => Some(true),
            Buffering::DoNotCare => None,
        }
    }
}

impl From<Option<bool>> for Buffering {
    /// Reads the host's tri-state flag back.
    fn from(flag: Option<bool>) -> (r: Buffering) {
        match flag {
            Some(false) => Buffering::Single,
            Some(true) => Buffering::Double,
            None => Buffering::DoNotCare,
        }
    }
}

impl vstd::std_specs::convert::FromSpecImpl<Option<bool>> for Buffering {
    open spec fn obeys_from_spec() -> bool {
        true
    }

    open spec fn from_spec(flag: Option<bool>) -> Buffering {
        match flag {
            Some(false) => Buffering::Single,
            Some(true) => Buffering::Double,
            None => Buffering::DoNotCare,
        }
    }
}

impl From<bool> for Buffering {
    /// `true` asks for double buffering.
    fn from(double_buffering: bool) -> (r: Buffering) {
        if double_buffering {
            Buffering::Double
        } else {
            Buffering::Single
        }
    }
}

impl vstd::std_specs::convert::FromSpecImpl<bool> for Buffering {
    open spec fn obeys_from_spec() -> bool {
        true
    }

    open spec fn from_spec(double_buffering: bool) -> Buffering {
        if double_buffering {
            Buffering::Double
        } else {
            Buffering::Single
        }
    }
}

/// Whether the host must render with hardware acceleration, without it, or
/// with whatever is available.
#[derive(Clone, Copy, Debug, PartialEq, Eq, Structural)]
pub enum Acceleration {
    Hardware,
    Software,
    DoNotCare,
}

impl Acceleration {
    /// The tri-state flag the host's context builder takes.
    pub fn flag(self) -> (r: Option<bool>)
        ensures
            r == match self {
                Acceleration::Software => Some(false),
                Acceleration::Hardware => Some(true),
                Acceleration::DoNotCare => None::<bool>,
            },
    {
        match self {
            Acceleration::Software => Some(false),
            Acceleration::Hardware => Some(true),
            Acceleration::DoNotCare => None,
        }
    }
}

impl From<Option<bool>> for Acceleration {
    /// Reads the host's tri-state flag back.
    fn from(flag: Option<bool>) -> (r: Acceleration) {
        match flag {
            Some(false) => Acceleration::Software,
            Some(true) => Acceleration::Hardware,
            None => Acceleration::DoNotCare,
        }
    }
}

impl vstd::std_specs::convert::FromSpecImpl<Option<bool>> for Acceleration {
    open spec fn obeys_from_spec() -> bool {
        true
    }

    open spec fn from_spec(flag: Option<bool>) -> Acceleration {
        match flag {
            Some(false) => Acceleration::Software,
            Some(true) => Acceleration::Hardware,
            None => Acceleration::DoNotCare,
        }
    }
}

impl From<bool> for Acceleration {
    /// `true` asks for hardware acceleration.
    fn from(acceleration: bool) -> (r: Acceleration) {
        if acceleration {
            Acceleration::Hardware
        } else {
            Acceleration::Software
        }
    }
}

impl vstd::std_specs::convert::FromSpecImpl<bool> for Acceleration {
    open spec fn obeys_from_spec() -> bool {
        true
    }

    open spec fn from_spec(acceleration: bool) -> Acceleration {
        if acceleration {
            Acceleration::Hardware
        } else {
            Acceleration::Software
        }
    }
}

/// What the host's per-frame hook asks for next.
#[derive(Clone, Copy, Debug, PartialEq, Eq, Structural)]
pub enum AppState {
    Exit,
    Continue,
}

} // verus!

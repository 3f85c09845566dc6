use vstd::prelude::*;

verus! {

/// EC register that holds the extreme-cooling setting.
pub const EXTREME_COOLING_REGISTER: u8 = 0xBD;

/// Register value while extreme cooling is on.
pub const COOLING_ACTIVE: u8 = 0x40;

/// Register value while extreme cooling is off.
pub const COOLING_INACTIVE: u8 = 0x00;

/// The extreme-cooling setting as read from its register.
#[derive(Debug, Clone, Copy, PartialEq, Eq, Structural)]
pub enum CoolingState {
    Active,
    Inactive,
    /// Any other register value.
    Unknown,
}

/// The setting that a register value stands for.
pub open spec fn cooling_of(val: u8) -> CoolingState {
    if val == COOLING_ACTIVE {
        CoolingState::Active
    } else if val == COOLING_INACTIVE {
        CoolingState::Inactive
    } else {
        CoolingState::Unknown
    }
}

impl From<u8> for CoolingState {
    fn from(val: u8) -> (r: Self) {
        match val {
            0x40 => CoolingState::Active,
            0x00 => CoolingState::Inactive,
            _ => CoolingState::Unknown,
        }
    }
}

impl vstd::std_specs::convert::FromSpecImpl<u8> for CoolingState {
    open spec fn obeys_from_spec() -> bool {
        true
    }

    open spec fn from_spec(val: u8) -> CoolingState {
        cooling_of(val)
    }
}

impl CoolingState {
    /// The human-readable name of the setting.
    pub fn label(&self) -> (r: &'static str)
        ensures
            *self is Active ==> r@ == "active"@,
            *self is Inactive ==> r@ == "inactive"@,
            *self is Unknown ==> r@ == "unknown"@,
    {
        match self {
            CoolingState::Active => "active",
            CoolingState::Inactive => "inactive",
            CoolingState::Unknown => "unknown",
        }
    }

    /// The other setting, for a switch; none when the current one is unknown.
    pub fn toggled(self) -> (r: Option<CoolingState>)
        ensures
            self is Active ==> r == Some(CoolingState::Inactive),
            self is Inactive ==> r == Some(CoolingState::Active),
            self is Unknown ==> r is None,
    {
        match self {
            CoolingState::Active => Some(CoolingState::Inactive),
            CoolingState::Inactive => Some(CoolingState::Active),
            CoolingState::Unknown => None,
        }
    }

    /// The register value that selects this setting; none for `Unknown`.
    pub fn register_value(self) -> (r: Option<u8>)
        ensures
            r matches Some(v) ==> cooling_of(v) == self,
            self is Unknown <==> r is None,
    {
        match self {
            CoolingState::Active => Some(COOLING_ACTIVE),
            CoolingState::Inactive => Some(COOLING_INACTIVE),
            CoolingState::Unknown => None,
        }
    }
}

} // verus!

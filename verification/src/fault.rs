//! Faults that a target can raise, by architecture family.

use vstd::prelude::*;

verus! {

/// The faults of an x86-64 target that a session can watch for.
#[derive(Clone, Copy, Debug, PartialEq, Eq, Hash, Structural)]
pub enum X86_64Fault {
    /// The processor shut down on a third nested fault.
    Triple,
    /// Exception 6, an undefined instruction.
    InvalidOpcode,
    /// Exception 8, a fault while another was being delivered.
    Double,
    /// Exception 13, a protection violation.
    GeneralProtection,
    /// Exception 14, an access to an unmapped or protected page.
    Page,
}

impl X86_64Fault {
    /// The number under which the target reports this fault: the exception
    /// vector, and -1 for a triple fault, which has none.
    pub open spec fn spec_code(self) -> int {
        match self {
            X86_64Fault::Triple => -1,
            X86_64Fault::InvalidOpcode => 6,
            X86_64Fault::Double => 8,
            X86_64Fault::GeneralProtection => 13,
            X86_64Fault::Page => 14,
        }
    }

    /// The number under which the target reports this fault.
    pub fn code(&self) -> (c: i64)
        ensures
            c == self.spec_code(),
    {
        match self {
            X86_64Fault::Triple => -1,
            X86_64Fault::InvalidOpcode => 6,
            X86_64Fault::Double => 8,
            X86_64Fault::GeneralProtection => 13,
            X86_64Fault::Page => 14,
        }
    }

    /// The fault that the target reports under `code`, if it is one of the
    /// supported faults.
    pub fn from_code(code: i64) -> (f: Option<X86_64Fault>)
        ensures
            match f {
                Some(fault) => fault.spec_code() == code,
                None => forall|fault: X86_64Fault| fault.spec_code() != code,
            },
    {
        if code == -1 {
            Some(X86_64Fault::Triple)
        } else if code == 6 {
            Some(X86_64Fault::InvalidOpcode)
        } else if code == 8 {
            Some(X86_64Fault::Double)
        } else if code == 13 {
            Some(X86_64Fault::GeneralProtection)
        } else if code == 14 {
            Some(X86_64Fault::Page)
        } else {
            None
        }
    }
}

/// A fault of a supported architecture family.
#[derive(Clone, Copy, Debug, PartialEq, Eq, Hash, Structural)]
pub enum Fault {
    /// A fault of an x86-64 target.
    X86_64(X86_64Fault),
}

impl Fault {
    /// The number under which the target reports this fault.
    pub open spec fn spec_code(self) -> int {
        match self {
            Fault::X86_64(fault) => fault.spec_code(),
        }
    }

    /// The number under which the target reports this fault.
    pub fn code(&self) -> (c: i64)
        ensures
            c == self.spec_code(),
    {
        match self {
            Fault::X86_64(fault) => fault.code(),
        }
    }
}

} // verus!

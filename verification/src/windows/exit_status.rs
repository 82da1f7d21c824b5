//! The exit code of a process on the handle-based platform.

use vstd::prelude::*;

verus! {

/// The exit code of a process that succeeded.
pub const EXIT_SUCCESS: u32 = 0;

/// The exit code that a process left behind.
#[derive(Clone, Copy, Debug, PartialEq, Eq, Structural)]
pub struct ExitStatus {
    /// The exit code as the operating system holds it.
    pub code: u32,
}

/// The unsigned number with the same 32 bits as `code`.
pub open spec fn reinterpret(code: i32) -> u32 {
    if code >= 0 {
        code as u32
    } else {
        (code + 0x1_0000_0000) as u32
    }
}

impl ExitStatus {
    /// The status of a process that left `exit_code`.
    pub fn new(exit_code: u32) -> (status: Self)
        ensures
            status.code == exit_code,
    {
        ExitStatus { code: exit_code }
    }

    /// Whether the process left the code for success.
    pub fn success(self) -> (yes: bool)
        ensures
            yes == (self.code == EXIT_SUCCESS),
    {
        self.code == EXIT_SUCCESS
    }

    /// The exit code, which is always there.
    pub fn code(self) -> (code: Option<u32>)
        ensures
            code == Some(self.code),
    {
        Some(self.code)
    }

    /// Converts the exit code that the standard library reports, which it
    /// holds as a signed number with the same bits.
    pub fn from_std(code: Option<i32>) -> (status: Self)
        requires
            code.is_some(),
        ensures
            status.code == reinterpret(code.unwrap()),
    {
        let signed: i32 = code.unwrap();
        let unsigned: u32 = #[verifier::truncate]
        (signed as u32);
        assert(unsigned == reinterpret(signed)) by (bit_vector)
            requires
                unsigned == signed as u32,
        ;
        ExitStatus { code: unsigned }
    }
}

} // verus!

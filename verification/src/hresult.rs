//! Result codes of the graphics runtime.

use vstd::prelude::*;

verus! {

/// The Win32 error code of an unspecified failure.
pub const E_FAIL: u32 = 0x8000_4005;

/// The result code of an unspecified failure.
pub const E_FAIL_RESULT: i32 = -2147467259;

/// The result code that says that no adapter was found.
pub const DXGI_ERROR_NOT_FOUND: i32 = -2005270526;

/// A failure of the graphics runtime, with its result code.
#[derive(Debug, Clone, Copy, PartialEq, Eq, Structural)]
pub struct InitError {
    pub hresult: i32,
}

/// A 32-bit pattern read as a signed number.
pub open spec fn as_signed(bits: int) -> int {
    if bits < 0x8000_0000 {
        bits
    } else {
        bits - 0x1_0000_0000
    }
}

/// The result code for a Win32 error code: a code that is zero or has its top
/// bit set is a result code already, and any other code becomes the failure of
/// the Win32 facility with the low 16 bits of the code.
pub open spec fn hresult_of_win32(error: u32) -> int {
    if error == 0 || error >= 0x8000_0000 {
        as_signed(error as int)
    } else {
        as_signed(0x8007_0000 + error % 0x1_0000)
    }
}

/// `windows_core::HRESULT::from_win32`: the result code for a Win32 error
/// code, as `hresult_of_win32` states it.
#[verifier::external_body]
fn hresult_from_win32(error: u32) -> (code: i32)
    ensures
        code == hresult_of_win32(error),
{
    windows_core::HRESULT::from_win32(error).0
}

/// Whether a result code means success: it does when it is not negative.
pub fn succeeded(hresult: i32) -> (ok: bool)
    ensures
        ok == (hresult >= 0),
{
    hresult >= 0
}

impl InitError {
    /// The failure with the result code `hresult`.
    pub fn new(hresult: i32) -> (error: Self)
        ensures
            error.hresult == hresult,
    {
        Self { hresult }
    }

    /// The failure for the Win32 error code `error`.
    pub fn from_win32(error: u32) -> (out: Self)
        ensures
            out.hresult == hresult_of_win32(error),
    {
        Self { hresult: hresult_from_win32(error) }
    }

    /// The unspecified failure.
    pub fn fail() -> (out: Self)
        ensures
            out.hresult == E_FAIL_RESULT,
            out.hresult == hresult_of_win32(E_FAIL),
    {
        Self::from_win32(E_FAIL)
    }

    /// The failure that says that no adapter was found.
    pub fn not_found() -> (out: Self)
        ensures
            out.hresult == DXGI_ERROR_NOT_FOUND,
    {
        Self { hresult: DXGI_ERROR_NOT_FOUND }
    }
}

} // verus!

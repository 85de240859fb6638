//! The model of one attached display, as far as filtering reads it.
//!
//! A live display handle belongs to the unverified shell; what the
//! verified stages read of it — the backend it was found through and
//! its identification strings — enters the library as this plain
//! record.

use crate::text::str_eq;
use vstd::prelude::*;

verus! {

/// The driver a display is reached through.  The set is closed: a
/// backend name outside it is a configuration error.
#[derive(Clone, Copy, Debug, PartialEq, Eq, Structural)]
pub enum Backend {
    /// Linux `i2c-dev` driver.
    I2cDevice,
    /// Windows Monitor Configuration API.
    WinApi,
    /// NVIDIA NVAPI driver.
    Nvapi,
    /// MacOS display APIs.
    MacOS,
}

impl Backend {
    /// The name under which the command line addresses this backend.
    pub open spec fn spec_name(self) -> Seq<char> {
        match self {
            Backend::I2cDevice => "i2c-dev"@,
            Backend::WinApi => "winapi"@,
            Backend::Nvapi => "nvapi"@,
            Backend::MacOS => "macos"@,
        }
    }

    /// The name under which the command line addresses this backend.
    pub fn name(self) -> (r: &'static str)
        ensures
            r@ == self.spec_name(),
    {
        match self {
            Backend::I2cDevice => "i2c-dev",
            Backend::WinApi => "winapi",
            Backend::Nvapi => "nvapi",
            Backend::MacOS => "macos",
        }
    }

    /// The backend that a name denotes, if any.
    pub open spec fn spec_parse(s: Seq<char>) -> Option<Backend> {
        if s == Backend::I2cDevice.spec_name() {
            Some(Backend::I2cDevice)
        } else if s == Backend::WinApi.spec_name() {
            Some(Backend::WinApi)
        } else if s == Backend::Nvapi.spec_name() {
            Some(Backend::Nvapi)
        } else if s == Backend::MacOS.spec_name() {
            Some(Backend::MacOS)
        } else {
            None
        }
    }

    /// Parses a command-line backend name against the closed set.
    pub fn parse(s: &str) -> (r: Option<Backend>)
        ensures
            r == Self::spec_parse(s@),
    {
        if str_eq(s, "i2c-dev") {
            Some(Backend::I2cDevice)
        } else if str_eq(s, "winapi") {
            Some(Backend::WinApi)
        } else if str_eq(s, "nvapi") {
            Some(Backend::Nvapi)
        } else if str_eq(s, "macos") {
            Some(Backend::MacOS)
        } else {
            None
        }
    }
}

/// Law: the backend name binding round-trips; parsing a backend's name
/// yields that backend back.
pub proof fn lemma_backend_name_round_trip(b: Backend)
    ensures
        Backend::spec_parse(b.spec_name()) == Some(b),
{
    reveal_strlit("i2c-dev");
    reveal_strlit("winapi");
    reveal_strlit("nvapi");
    reveal_strlit("macos");
    // Names of unequal length are told apart by their lengths; the
    // two of equal length differ in their first character.  Naming
    // these facts lets the prover tell the four names apart.
    assert("i2c-dev"@.len() == 7);
    assert("winapi"@.len() == 6);
    assert("nvapi"@.len() == 5);
    assert("macos"@.len() == 5);
    assert("nvapi"@[0] == 'n');
    assert("macos"@[0] == 'm');
}

/// Identification of one display, as reported by its backend.  Any of
/// the string fields may be missing; on some backends the model name
/// is populated only after a capability refresh.
#[derive(Clone, Debug)]
pub struct DisplayInfo {
    /// The backend the display was found through.
    pub backend: Backend,
    /// Backend-specific display identifier.
    pub id: String,
    /// Three-character manufacturer identifier.
    pub manufacturer_id: Option<String>,
    /// Model name of the display.
    pub model_name: Option<String>,
    /// Human-readable serial number.
    pub serial_number: Option<String>,
}

} // verus!

//! The closed table of input sources.
//!
//! Each source is bound to the one-byte value that the VESA MCCS
//! "Input Source Select" feature (code `0x60`) assigns to it, and to
//! the name under which the command line addresses it.  Both bindings
//! are total and bijective; a device value or a name outside the table
//! is rejected.

use crate::text::str_eq;
use vstd::prelude::*;

verus! {

/// VCP feature code of "Input Source Select" in the MCCS standard.
pub const INPUT_SELECT: u8 = 0x60;

/// One entry of the MCCS "Input Source Select" value table.
#[derive(Clone, Copy, Debug, PartialEq, Eq, Structural)]
pub enum InputSource {
    Vga1,
    Vga2,
    Dvi1,
    Dvi2,
    CompositeVideo1,
    CompositeVideo2,
    SVideo1,
    SVideo2,
    Tuner1,
    Tuner2,
    Tuner3,
    ComponentVideo1,
    ComponentVideo2,
    ComponentVideo3,
    DisplayPort1,
    DisplayPort2,
    Hdmi1,
    Hdmi2,
}

impl InputSource {
    /// The one-byte device value bound to this source.
    pub open spec fn spec_code(self) -> u8 {
        match self {
            InputSource::Vga1 => 0x01,
            InputSource::Vga2 => 0x02,
            InputSource::Dvi1 => 0x03,
            InputSource::Dvi2 => 0x04,
            InputSource::CompositeVideo1 => 0x05,
            InputSource::CompositeVideo2 => 0x06,
            InputSource::SVideo1 => 0x07,
            InputSource::SVideo2 => 0x08,
            InputSource::Tuner1 => 0x09,
            InputSource::Tuner2 => 0x0a,
            InputSource::Tuner3 => 0x0b,
            InputSource::ComponentVideo1 => 0x0c,
            InputSource::ComponentVideo2 => 0x0d,
            InputSource::ComponentVideo3 => 0x0e,
            InputSource::DisplayPort1 => 0x0f,
            InputSource::DisplayPort2 => 0x10,
            InputSource::Hdmi1 => 0x11,
            InputSource::Hdmi2 => 0x12,
        }
    }

    /// The one-byte device value bound to this source.
    pub fn code(self) -> (c: u8)
        ensures
            c == self.spec_code(),
    {
        match self {
            InputSource::Vga1 => 0x01,
            InputSource::Vga2 => 0x02,
            InputSource::Dvi1 => 0x03,
            InputSource::Dvi2 => 0x04,
            InputSource::CompositeVideo1 => 0x05,
            InputSource::CompositeVideo2 => 0x06,
            InputSource::SVideo1 => 0x07,
            InputSource::SVideo2 => 0x08,
            InputSource::Tuner1 => 0x09,
            InputSource::Tuner2 => 0x0a,
            InputSource::Tuner3 => 0x0b,
            InputSource::ComponentVideo1 => 0x0c,
            InputSource::ComponentVideo2 => 0x0d,
            InputSource::ComponentVideo3 => 0x0e,
            InputSource::DisplayPort1 => 0x0f,
            InputSource::DisplayPort2 => 0x10,
            InputSource::Hdmi1 => 0x11,
            InputSource::Hdmi2 => 0x12,
        }
    }

    /// The source bound to a device value, if any.  A device reports
    /// the current source as a two-byte value, so the lookup takes the
    /// full reported width.
    pub open spec fn spec_from_code(code: u16) -> Option<InputSource> {
        if code == 0x01 {
            Some(InputSource::Vga1)
        } else if code == 0x02 {
            Some(InputSource::Vga2)
        } else if code == 0x03 {
            Some(InputSource::Dvi1)
        } else if code == 0x04 {
            Some(InputSource::Dvi2)
        } else if code == 0x05 {
            Some(InputSource::CompositeVideo1)
        } else if code == 0x06 {
            Some(InputSource::CompositeVideo2)
        } else if code == 0x07 {
            Some(InputSource::SVideo1)
        } else if code == 0x08 {
            Some(InputSource::SVideo2)
        } else if code == 0x09 {
            Some(InputSource::Tuner1)
        } else if code == 0x0a {
            Some(InputSource::Tuner2)
        } else if code == 0x0b {
            Some(InputSource::Tuner3)
        } else if code == 0x0c {
            Some(InputSource::ComponentVideo1)
        } else if code == 0x0d {
            Some(InputSource::ComponentVideo2)
        } else if code == 0x0e {
            Some(InputSource::ComponentVideo3)
        } else if code == 0x0f {
            Some(InputSource::DisplayPort1)
        } else if code == 0x10 {
            Some(InputSource::DisplayPort2)
        } else if code == 0x11 {
            Some(InputSource::Hdmi1)
        } else if code == 0x12 {
            Some(InputSource::Hdmi2)
        } else {
            None
        }
    }

    /// Looks a device-reported value up in the table.
    pub fn from_code(code: u16) -> (r: Option<InputSource>)
        ensures
            r == Self::spec_from_code(code),
    {
        if 0x01 <= code && code <= 0x12 {
            match code {
                0x01 => Some(InputSource::Vga1),
                0x02 => Some(InputSource::Vga2),
                0x03 => Some(InputSource::Dvi1),
                0x04 => Some(InputSource::Dvi2),
                0x05 => Some(InputSource::CompositeVideo1),
                0x06 => Some(InputSource::CompositeVideo2),
                0x07 => Some(InputSource::SVideo1),
                0x08 => Some(InputSource::SVideo2),
                0x09 => Some(InputSource::Tuner1),
                0x0a => Some(InputSource::Tuner2),
                0x0b => Some(InputSource::Tuner3),
                0x0c => Some(InputSource::ComponentVideo1),
                0x0d => Some(InputSource::ComponentVideo2),
                0x0e => Some(InputSource::ComponentVideo3),
                0x0f => Some(InputSource::DisplayPort1),
                0x10 => Some(InputSource::DisplayPort2),
                0x11 => Some(InputSource::Hdmi1),
                _ => Some(InputSource::Hdmi2),
            }
        } else {
            None
        }
    }

    /// The name under which the command line addresses this source.
    pub open spec fn spec_name(self) -> Seq<char> {
        match self {
            InputSource::Vga1 => "Vga1"@,
            InputSource::Vga2 => "Vga2"@,
            InputSource::Dvi1 => "Dvi1"@,
            InputSource::Dvi2 => "Dvi2"@,
            InputSource::CompositeVideo1 => "CompositeVideo1"@,
            InputSource::CompositeVideo2 => "CompositeVideo2"@,
            InputSource::SVideo1 => "SVideo1"@,
            InputSource::SVideo2 => "SVideo2"@,
            InputSource::Tuner1 => "Tuner1"@,
            InputSource::Tuner2 => "Tuner2"@,
            InputSource::Tuner3 => "Tuner3"@,
            InputSource::ComponentVideo1 => "ComponentVideo1"@,
            InputSource::ComponentVideo2 => "ComponentVideo2"@,
            InputSource::ComponentVideo3 => "ComponentVideo3"@,
            InputSource::DisplayPort1 => "DisplayPort1"@,
            InputSource::DisplayPort2 => "DisplayPort2"@,
            InputSource::Hdmi1 => "Hdmi1"@,
            InputSource::Hdmi2 => "Hdmi2"@,
        }
    }

    /// The name under which the command line addresses this source.
    pub fn name(self) -> (r: &'static str)
        ensures
            r@ == self.spec_name(),
    {
        match self {
            InputSource::Vga1 => "Vga1",
            InputSource::Vga2 => "Vga2",
            InputSource::Dvi1 => "Dvi1",
            InputSource::Dvi2 => "Dvi2",
            InputSource::CompositeVideo1 => "CompositeVideo1",
            InputSource::CompositeVideo2 => "CompositeVideo2",
            InputSource::SVideo1 => "SVideo1",
            InputSource::SVideo2 => "SVideo2",
            InputSource::Tuner1 => "Tuner1",
            InputSource::Tuner2 => "Tuner2",
            InputSource::Tuner3 => "Tuner3",
            InputSource::ComponentVideo1 => "ComponentVideo1",
            InputSource::ComponentVideo2 => "ComponentVideo2",
            InputSource::ComponentVideo3 => "ComponentVideo3",
            InputSource::DisplayPort1 => "DisplayPort1",
            InputSource::DisplayPort2 => "DisplayPort2",
            InputSource::Hdmi1 => "Hdmi1",
            InputSource::Hdmi2 => "Hdmi2",
        }
    }

    /// The source that a name denotes, if any.
    pub open spec fn spec_parse(s: Seq<char>) -> Option<InputSource> {
        if s == InputSource::Vga1.spec_name() {
            Some(InputSource::Vga1)
        } else if s == InputSource::Vga2.spec_name() {
            Some(InputSource::Vga2)
        } else if s == InputSource::Dvi1.spec_name() {
            Some(InputSource::Dvi1)
        } else if s == InputSource::Dvi2.spec_name() {
            Some(InputSource::Dvi2)
        } else if s == InputSource::CompositeVideo1.spec_name() {
            Some(InputSource::CompositeVideo1)
        } else if s == InputSource::CompositeVideo2.spec_name() {
            Some(InputSource::CompositeVideo2)
        } else if s == InputSource::SVideo1.spec_name() {
            Some(InputSource::SVideo1)
        } else if s == InputSource::SVideo2.spec_name() {
            Some(InputSource::SVideo2)
        } else if s == InputSource::Tuner1.spec_name() {
            Some(InputSource::Tuner1)
        } else if s == InputSource::Tuner2.spec_name() {
            Some(InputSource::Tuner2)
        } else if s == InputSource::Tuner3.spec_name() {
            Some(InputSource::Tuner3)
        } else if s == InputSource::ComponentVideo1.spec_name() {
            Some(InputSource::ComponentVideo1)
        } else if s == InputSource::ComponentVideo2.spec_name() {
            Some(InputSource::ComponentVideo2)
        } else if s == InputSource::ComponentVideo3.spec_name() {
            Some(InputSource::ComponentVideo3)
        } else if s == InputSource::DisplayPort1.spec_name() {
            Some(InputSource::DisplayPort1)
        } else if s == InputSource::DisplayPort2.spec_name() {
            Some(InputSource::DisplayPort2)
        } else if s == InputSource::Hdmi1.spec_name() {
            Some(InputSource::Hdmi1)
        } else if s == InputSource::Hdmi2.spec_name() {
            Some(InputSource::Hdmi2)
        } else {
            None
        }
    }

    /// Parses a command-line name; names are matched exactly and
    /// case-sensitively against the table.
    pub fn parse(s: &str) -> (r: Option<InputSource>)
        ensures
            r == Self::spec_parse(s@),
    {
        if str_eq(s, "Vga1") {
            Some(InputSource::Vga1)
        } else if str_eq(s, "Vga2") {
            Some(InputSource::Vga2)
        } else if str_eq(s, "Dvi1") {
            Some(InputSource::Dvi1)
        } else if str_eq(s, "Dvi2") {
            Some(InputSource::Dvi2)
        } else if str_eq(s, "CompositeVideo1") {
            Some(InputSource::CompositeVideo1)
        } else if str_eq(s, "CompositeVideo2") {
            Some(InputSource::CompositeVideo2)
        } else if str_eq(s, "SVideo1") {
            Some(InputSource::SVideo1)
        } else if str_eq(s, "SVideo2") {
            Some(InputSource::SVideo2)
        } else if str_eq(s, "Tuner1") {
            Some(InputSource::Tuner1)
        } else if str_eq(s, "Tuner2") {
            Some(InputSource::Tuner2)
        } else if str_eq(s, "Tuner3") {
            Some(InputSource::Tuner3)
        } else if str_eq(s, "ComponentVideo1") {
            Some(InputSource::ComponentVideo1)
        } else if str_eq(s, "ComponentVideo2") {
            Some(InputSource::ComponentVideo2)
        } else if str_eq(s, "ComponentVideo3") {
            Some(InputSource::ComponentVideo3)
        } else if str_eq(s, "DisplayPort1") {
            Some(InputSource::DisplayPort1)
        } else if str_eq(s, "DisplayPort2") {
            Some(InputSource::DisplayPort2)
        } else if str_eq(s, "Hdmi1") {
            Some(InputSource::Hdmi1)
        } else if str_eq(s, "Hdmi2") {
            Some(InputSource::Hdmi2)
        } else {
            None
        }
    }
}

/// Law: the numeric binding round-trips; looking a source's value up
/// in the table yields that source back.
pub proof fn lemma_code_round_trip(s: InputSource)
    ensures
        InputSource::spec_from_code(s.spec_code() as u16) == Some(s),
{
}

/// Law: a value accepted by the table lookup carries exactly the value
/// that its source binds, so value-to-source-to-value is the identity.
pub proof fn lemma_code_inverse(code: u16)
    ensures
        InputSource::spec_from_code(code) is Some ==> InputSource::spec_from_code(code)->0.spec_code()
            == code,
{
}

/// Law: the name binding round-trips; parsing a source's name yields
/// that source back.
pub proof fn lemma_name_round_trip(s: InputSource)
    ensures
        InputSource::spec_parse(s.spec_name()) == Some(s),
{
    reveal_strlit("Vga1");
    reveal_strlit("Vga2");
    reveal_strlit("Dvi1");
    reveal_strlit("Dvi2");
    reveal_strlit("CompositeVideo1");
    reveal_strlit("CompositeVideo2");
    reveal_strlit("SVideo1");
    reveal_strlit("SVideo2");
    reveal_strlit("Tuner1");
    reveal_strlit("Tuner2");
    reveal_strlit("Tuner3");
    reveal_strlit("ComponentVideo1");
    reveal_strlit("ComponentVideo2");
    reveal_strlit("ComponentVideo3");
    reveal_strlit("DisplayPort1");
    reveal_strlit("DisplayPort2");
    reveal_strlit("Hdmi1");
    reveal_strlit("Hdmi2");
    // Names of equal length differ at the indices named below; naming
    // those characters lets the prover tell the names apart.
    assert("Vga1"@[0] == 'V' && "Vga1"@[3] == '1');
    assert("Vga2"@[0] == 'V' && "Vga2"@[3] == '2');
    assert("Dvi1"@[0] == 'D' && "Dvi1"@[3] == '1');
    assert("Dvi2"@[0] == 'D' && "Dvi2"@[3] == '2');
    assert("Hdmi1"@[4] == '1');
    assert("Hdmi2"@[4] == '2');
    assert("Tuner1"@[5] == '1');
    assert("Tuner2"@[5] == '2');
    assert("Tuner3"@[5] == '3');
    assert("SVideo1"@[6] == '1');
    assert("SVideo2"@[6] == '2');
    assert("DisplayPort1"@[11] == '1');
    assert("DisplayPort2"@[11] == '2');
    assert("CompositeVideo1"@[5] == 's' && "CompositeVideo1"@[14] == '1');
    assert("CompositeVideo2"@[5] == 's' && "CompositeVideo2"@[14] == '2');
    assert("ComponentVideo1"@[5] == 'n' && "ComponentVideo1"@[14] == '1');
    assert("ComponentVideo2"@[5] == 'n' && "ComponentVideo2"@[14] == '2');
    assert("ComponentVideo3"@[5] == 'n' && "ComponentVideo3"@[14] == '3');
}

/// Law: parsing succeeds exactly on the eighteen names of the table;
/// any other string fails.
pub proof fn lemma_parse_exactly_the_table(s: Seq<char>)
    ensures
        InputSource::spec_parse(s) is Some <==> exists|v: InputSource| s == v.spec_name(),
{
    if InputSource::spec_parse(s) is Some {
        let v = InputSource::spec_parse(s)->0;
        assert(s == v.spec_name());
    }
    if exists|v: InputSource| s == v.spec_name() {
        let v = choose|v: InputSource| s == v.spec_name();
        lemma_name_round_trip(v);
    }
}

} // verus!

pub mod mbc_initializer;
pub mod debugger;
pub mod gameboy;

use vstd::prelude::*;
use core::convert::TryFrom;
use vstd::string::StringSliceAdditionalSpecFns;

verus! {

/// The hardware to emulate: the monochrome Game Boy or the Game Boy Color.
#[derive(Clone, Copy, PartialEq, Eq, Structural, Debug)]
pub enum Mode {
    DMG,
    CGB,
}

/// The bytes of the name of each mode.
pub open spec fn mode_name(mode: Mode) -> Seq<u8> {
    match mode {
        Mode::DMG => seq![0x44u8, 0x4Du8, 0x47u8],
        Mode::CGB => seq![0x43u8, 0x47u8, 0x42u8],
    }
}

/// The mode whose name the bytes spell, if any.
pub open spec fn mode_of_name(bytes: Seq<u8>) -> Option<Mode> {
    if bytes == mode_name(Mode::DMG) {
        Some(Mode::DMG)
    } else if bytes == mode_name(Mode::CGB) {
        Some(Mode::CGB)
    } else {
        None
    }
}

impl<'a> TryFrom<&'a str> for Mode {
    type Error = ();

    fn try_from(value: &'a str) -> (r: Result<Mode, ()>) {
        let bytes = value.as_bytes();
        if bytes.len() == 3 && bytes[0] == 0x44 && bytes[1] == 0x4D && bytes[2] == 0x47 {
            proof {
                assert(bytes@ =~= mode_name(Mode::DMG));
            }
            Ok(Mode::DMG)
        } else if bytes.len() == 3 && bytes[0] == 0x43 && bytes[1] == 0x47 && bytes[2] == 0x42 {
            proof {
                assert(bytes@ =~= mode_name(Mode::CGB));
            }
            Ok(Mode::CGB)
        } else {
            proof {
                if bytes@ == mode_name(Mode::DMG) {
                    assert(bytes@[0] == 0x44u8 && bytes@[1] == 0x4Du8 && bytes@[2] == 0x47u8);
                }
                if bytes@ == mode_name(Mode::CGB) {
                    assert(bytes@[0] == 0x43u8 && bytes@[1] == 0x47u8 && bytes@[2] == 0x42u8);
                }
            }
            Err(())
        }
    }
}

impl<'a> vstd::std_specs::convert::TryFromSpecImpl<&'a str> for Mode {
    open spec fn obeys_try_from_spec() -> bool {
        true
    }

    open spec fn try_from_spec(value: &'a str) -> Result<Mode, ()> {
        match mode_of_name(value.spec_bytes()) {
            Some(m) => Ok(m),
            None => Err(()),
        }
    }
}

/// The name of each mode.
pub open spec fn mode_str(mode: Mode) -> &'static str {
    match mode {
        Mode::DMG => "DMG",
        Mode::CGB => "CGB",
    }
}

impl From<Mode> for &'static str {
    fn from(mode: Mode) -> (r: &'static str) {
        match mode {
            Mode::CGB => "CGB",
            Mode::DMG => "DMG",
        }
    }
}

impl vstd::std_specs::convert::FromSpecImpl<Mode> for &'static str {
    open spec fn obeys_from_spec() -> bool {
        true
    }

    open spec fn from_spec(mode: Mode) -> &'static str {
        mode_str(mode)
    }
}

/// A mode's name reads back as that mode: the string that `from` gives for a mode holds the
/// bytes of its name, and `try_from` takes those bytes, and no others, to that mode.
pub proof fn lemma_mode_name_roundtrip(mode: Mode)
    ensures
        mode_str(mode).spec_bytes() == mode_name(mode),
        mode_of_name(mode_str(mode).spec_bytes()) == Some(mode),
{
    reveal_strlit("DMG");
    reveal_strlit("CGB");
    vstd::string::is_ascii_spec_bytes(mode_str(mode));
    assert(mode_str(mode).spec_bytes() =~= mode_name(mode));
    assert(mode_name(Mode::DMG) != mode_name(Mode::CGB)) by {
        assert(mode_name(Mode::DMG)[0] != mode_name(Mode::CGB)[0]);
    }
}

} // verus!

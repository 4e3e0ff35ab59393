//! Key codes and the note-name catalog.
//!
//! A physical key is identified on the wire by a raw code in
//! [`KEY_CODE_MIN`, `KEY_CODE_MAX`]. Four codes double as controls when
//! they arrive in a control-class message: the three pedals and the
//! ambience knob.

use vstd::prelude::*;
use crate::errors::DecodeError;

verus! {

/// Lowest raw code that names a physical key.
pub const KEY_CODE_MIN: u8 = 15;

/// Highest raw code that names a physical key.
pub const KEY_CODE_MAX: u8 = 113;

/// Raw code that a control-class message uses for the right pedal.
pub const RIGHT_PEDAL_KEY: u8 = 64;

/// Raw code that a control-class message uses for the middle pedal.
pub const MIDDLE_PEDAL_KEY: u8 = 66;

/// Raw code that a control-class message uses for the left pedal.
pub const LEFT_PEDAL_KEY: u8 = 67;

/// Raw code that a control-class message uses for the ambience level.
pub const AMBIENCE_KEY: u8 = 91;

/// A physical key of the keyboard, identified by its raw wire code.
///
/// Every value in [`KEY_CODE_MIN`, `KEY_CODE_MAX`] names exactly one key;
/// no other code does. The checked constructor [`PianoKeyCode::from`]
/// refuses codes outside that range.
#[derive(Clone, Copy, Debug, PartialEq, Eq, Structural)]
pub struct PianoKeyCode {
    pub code: u8,
}

/// Chromatic note letter of a raw key code (no octave). Flats are spelled
/// with the sharp of the adjacent pitch, so the name depends only on the
/// pitch class, the code modulo 12.
pub open spec fn spec_key_name(code: u8) -> Seq<char> {
    let pc = code % 12;
    if pc == 0 {
        "C"@
    } else if pc == 1 {
        "C#"@
    } else if pc == 2 {
        "D"@
    } else if pc == 3 {
        "D#"@
    } else if pc == 4 {
        "E"@
    } else if pc == 5 {
        "F"@
    } else if pc == 6 {
        "F#"@
    } else if pc == 7 {
        "G"@
    } else if pc == 8 {
        "G#"@
    } else if pc == 9 {
        "A"@
    } else if pc == 10 {
        "A#"@
    } else {
        "B"@
    }
}

impl PianoKeyCode {
    /// A code names a key exactly when it lies in the supported range.
    pub open spec fn valid(self) -> bool {
        KEY_CODE_MIN <= self.code <= KEY_CODE_MAX
    }

    /// What the checked constructor returns for each raw code.
    pub open spec fn spec_from(code: u8) -> Result<PianoKeyCode, DecodeError> {
        if KEY_CODE_MIN <= code && code <= KEY_CODE_MAX {
            Ok(PianoKeyCode { code })
        } else {
            Err(DecodeError::ProtocolError)
        }
    }

    /// Checked construction from a raw wire code: succeeds exactly on the
    /// supported range and hands back a key carrying that code.
    pub fn from(code: u8) -> (r: Result<PianoKeyCode, DecodeError>)
        ensures
            r == PianoKeyCode::spec_from(code),
    {
        if KEY_CODE_MIN <= code && code <= KEY_CODE_MAX {
            Ok(PianoKeyCode { code })
        } else {
            Err(DecodeError::ProtocolError)
        }
    }

    /// Construction from a code already known to be in range.
    pub fn new(key: u8) -> (r: Self)
        requires
            KEY_CODE_MIN <= key <= KEY_CODE_MAX,
        ensures
            r.code == key,
            r.valid(),
    {
        PianoKeyCode { code: key }
    }

    /// The raw wire code, for wire-level identification by consumers.
    pub fn code(self) -> (r: u8)
        ensures
            r == self.code,
    {
        self.code
    }

    /// The chromatic note letter of this key, per [`spec_key_name`]. The
    /// catalog is total: every key has a name.
    pub fn to_key_name(self) -> (r: String)
        ensures
            r@ == spec_key_name(self.code),
    {
        let pc: u8 = self.code % 12;
        let name: &str = if pc == 0 {
            "C"
        } else if pc == 1 {
            "C#"
        } else if pc == 2 {
            "D"
        } else if pc == 3 {
            "D#"
        } else if pc == 4 {
            "E"
        } else if pc == 5 {
            "F"
        } else if pc == 6 {
            "F#"
        } else if pc == 7 {
            "G"
        } else if pc == 8 {
            "G#"
        } else if pc == 9 {
            "A"
        } else if pc == 10 {
            "A#"
        } else {
            "B"
        };
        name.to_owned()
    }
}

/// Law: for every raw code in the supported range, checked construction
/// succeeds and reading the key's code gives back the raw code; for every
/// code outside the range, construction fails with a protocol error.
pub proof fn lemma_key_code_round_trip(k: u8)
    ensures
        KEY_CODE_MIN <= k <= KEY_CODE_MAX ==> (PianoKeyCode::spec_from(k) matches Ok(key)
            && key.code == k),
        !(KEY_CODE_MIN <= k <= KEY_CODE_MAX) ==> PianoKeyCode::spec_from(k) == Err::<
            PianoKeyCode,
            DecodeError,
        >(DecodeError::ProtocolError),
{
}

} // verus!

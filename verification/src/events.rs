//! The message decoder: raw three-byte control messages become typed
//! piano events, and typed events become flat client records for the
//! consumer that displays them.
//!
//! A raw message is `(status, key, alpha)`. The status byte selects the
//! message class; the key byte names a physical key (or, in a
//! control-class message, a pedal or the ambience knob); the alpha byte
//! carries the strike force or the control value, always in [0, 127].

use vstd::prelude::*;
use crate::errors::DecodeError;
use crate::keys::{
    PianoKeyCode, spec_key_name, AMBIENCE_KEY, LEFT_PEDAL_KEY, MIDDLE_PEDAL_KEY, RIGHT_PEDAL_KEY,
};

verus! {

/// Highest value a data byte may carry.
pub const ALPHA_MAX: u8 = 127;

/// A raw data byte: strike force for key events, control value otherwise.
/// Valid values lie in [0, `ALPHA_MAX`].
#[derive(Clone, Copy, Debug, PartialEq, Eq, Structural)]
pub struct Alpha(pub u8);

impl Alpha {
    /// A data byte is valid exactly when it does not exceed the protocol
    /// maximum.
    pub open spec fn valid(self) -> bool {
        self.0 <= ALPHA_MAX
    }
}

/// A normalized intensity. `Percent(n)` denotes the fraction n / 127, so
/// `Percent(0)` is 0.0, `Percent(127)` is 1.0, and the denoted value is
/// linear and monotone in the stored numerator.
#[derive(Clone, Copy, Debug, PartialEq, Eq, Structural)]
pub struct Percent(pub u8);

impl Percent {
    /// The denoted fraction lies in [0.0, 1.0] exactly when the numerator
    /// does not exceed the denominator, 127.
    pub open spec fn valid(self) -> bool {
        self.0 <= ALPHA_MAX
    }

    /// What [`Percent::new`] returns: the intensity alpha / 127, stored as
    /// its numerator.
    pub open spec fn spec_new(alpha: Alpha) -> Percent {
        Percent(alpha.0)
    }

    /// The intensity alpha / 127.
    pub fn new(alpha: Alpha) -> (r: Self)
        requires
            alpha.valid(),
        ensures
            r == Percent::spec_new(alpha),
            r.valid(),
    {
        Percent(alpha.0)
    }
}

/// The message classes the protocol recognizes, one per recognized status
/// byte; any other status byte is a protocol error at the decode boundary.
#[derive(Clone, Copy, Debug, PartialEq, Eq, Structural)]
pub enum StateCode {
    /// Status byte 144: a key was struck.
    KeyPress,
    /// Status byte 128: a key was released.
    KeyRelease,
    /// Status byte 176: a control took a new position.
    FunctionBegin,
    /// Status byte 178: a control was let go.
    FunctionRelease,
    /// Status byte 181: a further control class, carrying only the
    /// ambience level.
    Other,
}

impl StateCode {
    /// The status byte of each message class.
    pub open spec fn spec_code(self) -> u8 {
        match self {
            StateCode::KeyPress => 144,
            StateCode::KeyRelease => 128,
            StateCode::FunctionBegin => 176,
            StateCode::FunctionRelease => 178,
            StateCode::Other => 181,
        }
    }

    /// What the checked constructor returns for each status byte.
    pub open spec fn spec_from(code: u8) -> Result<StateCode, DecodeError> {
        if code == 144 {
            Ok(StateCode::KeyPress)
        } else if code == 128 {
            Ok(StateCode::KeyRelease)
        } else if code == 176 {
            Ok(StateCode::FunctionBegin)
        } else if code == 178 {
            Ok(StateCode::FunctionRelease)
        } else if code == 181 {
            Ok(StateCode::Other)
        } else {
            Err(DecodeError::ProtocolError)
        }
    }

    /// Checked construction from a status byte: succeeds exactly on the
    /// five recognized bytes, and the class it returns carries that byte.
    pub fn from(code: u8) -> (r: Result<StateCode, DecodeError>)
        ensures
            r == StateCode::spec_from(code),
            r matches Ok(s) ==> s.spec_code() == code,
    {
        if code == 144 {
            Ok(StateCode::KeyPress)
        } else if code == 128 {
            Ok(StateCode::KeyRelease)
        } else if code == 176 {
            Ok(StateCode::FunctionBegin)
        } else if code == 178 {
            Ok(StateCode::FunctionRelease)
        } else if code == 181 {
            Ok(StateCode::Other)
        } else {
            Err(DecodeError::ProtocolError)
        }
    }

    /// The status byte of this message class.
    pub fn code(self) -> (r: u8)
        ensures
            r == self.spec_code(),
    {
        match self {
            StateCode::KeyPress => 144,
            StateCode::KeyRelease => 128,
            StateCode::FunctionBegin => 176,
            StateCode::FunctionRelease => 178,
            StateCode::Other => 181,
        }
    }
}

/// A decoded domain event. Built only by the decoder from a valid
/// (key, class, alpha) triple; immutable once built.
#[derive(Clone, Copy, Debug, PartialEq, Eq, Structural)]
pub enum PianoEvent {
    /// A key was struck with the given intensity.
    KeyPress(PianoKeyCode, Percent),
    /// A key was released.
    KeyRelease(PianoKeyCode),
    /// The right pedal moved to the given position.
    RightPedal(Percent),
    /// The middle pedal is fully down (true) or not (false).
    MiddlePedal(bool),
    /// The left pedal moved to the given position.
    LeftPedal(Percent),
    /// The ambience level was set.
    SetAmbience(Percent),
}

/// What the decoder returns for each (class, key, alpha) triple.
///
/// Key presses and releases succeed for every key. A control-begin
/// message succeeds only for the four designated control keys; the middle
/// pedal is a binary threshold, down exactly at the maximum alpha. The
/// remaining control classes carry only the ambience level. Every other
/// control key is an unmapped-control-key error.
pub open spec fn spec_decode(state: StateCode, key: PianoKeyCode, alpha: Alpha) -> Result<
    PianoEvent,
    DecodeError,
> {
    match state {
        StateCode::KeyPress => Ok(PianoEvent::KeyPress(key, Percent::spec_new(alpha))),
        StateCode::KeyRelease => Ok(PianoEvent::KeyRelease(key)),
        StateCode::FunctionBegin => if key.code == RIGHT_PEDAL_KEY {
            Ok(PianoEvent::RightPedal(Percent::spec_new(alpha)))
        } else if key.code == MIDDLE_PEDAL_KEY {
            Ok(PianoEvent::MiddlePedal(alpha.0 == ALPHA_MAX))
        } else if key.code == LEFT_PEDAL_KEY {
            Ok(PianoEvent::LeftPedal(Percent::spec_new(alpha)))
        } else if key.code == AMBIENCE_KEY {
            Ok(PianoEvent::SetAmbience(Percent::spec_new(alpha)))
        } else {
            Err(DecodeError::UnmappedControlKey)
        },
        StateCode::FunctionRelease => if key.code == AMBIENCE_KEY {
            Ok(PianoEvent::SetAmbience(Percent::spec_new(alpha)))
        } else {
            Err(DecodeError::UnmappedControlKey)
        },
        StateCode::Other => if key.code == AMBIENCE_KEY {
            Ok(PianoEvent::SetAmbience(Percent::spec_new(alpha)))
        } else {
            Err(DecodeError::UnmappedControlKey)
        },
    }
}

impl PianoEvent {
    /// Decode one (key, class, alpha) triple, per [`spec_decode`]. A
    /// decode failure is an error value, never a halt: hardware may send
    /// unexpected bytes and must not be able to crash the capture thread.
    pub fn new(key_code: PianoKeyCode, state_code: StateCode, alpha: Alpha) -> (r: Result<
        Self,
        DecodeError,
    >)
        requires
            alpha.valid(),
        ensures
            r == spec_decode(state_code, key_code, alpha),
    {
        match state_code {
            StateCode::KeyPress => Ok(PianoEvent::KeyPress(key_code, Percent::new(alpha))),
            StateCode::KeyRelease => Ok(PianoEvent::KeyRelease(key_code)),
            StateCode::FunctionBegin => {
                if key_code.code == RIGHT_PEDAL_KEY {
                    Ok(PianoEvent::RightPedal(Percent::new(alpha)))
                } else if key_code.code == MIDDLE_PEDAL_KEY {
                    Ok(PianoEvent::MiddlePedal(alpha.0 == ALPHA_MAX))
                } else if key_code.code == LEFT_PEDAL_KEY {
                    Ok(PianoEvent::LeftPedal(Percent::new(alpha)))
                } else if key_code.code == AMBIENCE_KEY {
                    Ok(PianoEvent::SetAmbience(Percent::new(alpha)))
                } else {
                    Err(DecodeError::UnmappedControlKey)
                }
            },
            StateCode::FunctionRelease | StateCode::Other => {
                if key_code.code == AMBIENCE_KEY {
                    Ok(PianoEvent::SetAmbience(Percent::new(alpha)))
                } else {
                    Err(DecodeError::UnmappedControlKey)
                }
            },
        }
    }
}

/// Decode one raw wire message, per [`spec_decode_message`]: exactly
/// three bytes, a recognized status byte, a key code in range and a data
/// byte within the protocol maximum, then the triple decode.
pub open spec fn spec_decode_message(msg: Seq<u8>) -> Result<PianoEvent, DecodeError> {
    if msg.len() != 3 {
        Err(DecodeError::ProtocolError)
    } else {
        match StateCode::spec_from(msg[0]) {
            Err(e) => Err(e),
            Ok(state) => match PianoKeyCode::spec_from(msg[1]) {
                Err(e) => Err(e),
                Ok(key) => if msg[2] > ALPHA_MAX {
                    Err(DecodeError::ProtocolError)
                } else {
                    spec_decode(state, key, Alpha(msg[2]))
                },
            },
        }
    }
}

/// The decode boundary for raw messages arriving from the hardware: every
/// malformed input is reported as an error, never as a halt.
pub fn decode_message(message: &[u8]) -> (r: Result<PianoEvent, DecodeError>)
    ensures
        r == spec_decode_message(message@),
{
    if message.len() != 3 {
        return Err(DecodeError::ProtocolError);
    }
    let state = match StateCode::from(message[0]) {
        Ok(s) => s,
        Err(e) => {
            return Err(e);
        },
    };
    let key = match PianoKeyCode::from(message[1]) {
        Ok(k) => k,
        Err(e) => {
            return Err(e);
        },
    };
    if message[2] > ALPHA_MAX {
        return Err(DecodeError::ProtocolError);
    }
    PianoEvent::new(key, state, Alpha(message[2]))
}

/// The coarse class a consumer sees for a decoded event.
#[derive(Clone, Copy, Debug, PartialEq, Eq, Structural)]
pub enum ClientEventType {
    KeyPress,
    KeyRelease,
    Pedal,
    Ambience,
}

/// The flat record handed to the consumer for each decoded event: its
/// class, the note name and wire code of the key it concerns (empty name
/// and code 0 for pedal and ambience events, which are not tied to a
/// key), and its intensity.
#[derive(Clone, Debug, PartialEq)]
pub struct ClientPianoEvent {
    pub event_type: ClientEventType,
    pub key_string: String,
    pub key_id: u8,
    pub intensity: Percent,
}

impl ClientPianoEvent {
    /// Plain construction: the record holds exactly the given parts.
    pub fn new(event_type: ClientEventType, key_string: String, intensity: Percent, key_id: u8) -> (r: Self)
        ensures
            r.event_type == event_type,
            r.key_string == key_string,
            r.intensity == intensity,
            r.key_id == key_id,
    {
        Self { event_type, intensity, key_string, key_id }
    }
}

impl PianoEvent {
    /// The consumer-facing class of this event.
    pub open spec fn spec_client_type(self) -> ClientEventType {
        match self {
            PianoEvent::KeyPress(_, _) => ClientEventType::KeyPress,
            PianoEvent::KeyRelease(_) => ClientEventType::KeyRelease,
            PianoEvent::RightPedal(_) => ClientEventType::Pedal,
            PianoEvent::MiddlePedal(_) => ClientEventType::Pedal,
            PianoEvent::LeftPedal(_) => ClientEventType::Pedal,
            PianoEvent::SetAmbience(_) => ClientEventType::Ambience,
        }
    }

    /// The note name shown for this event: the key's name for key events,
    /// empty for pedal and ambience events.
    pub open spec fn spec_client_key_name(self) -> Seq<char> {
        match self {
            PianoEvent::KeyPress(key, _) => spec_key_name(key.code),
            PianoEvent::KeyRelease(key) => spec_key_name(key.code),
            _ => Seq::<char>::empty(),
        }
    }

    /// The wire code shown for this event: the key's code for key events,
    /// zero for pedal and ambience events.
    pub open spec fn spec_client_key_id(self) -> u8 {
        match self {
            PianoEvent::KeyPress(key, _) => key.code,
            PianoEvent::KeyRelease(key) => key.code,
            _ => 0,
        }
    }

    /// The intensity shown for this event. A release is exactly zero, by
    /// definition and regardless of the alpha byte that arrived with it;
    /// the middle pedal maps down to full and up to zero.
    pub open spec fn spec_client_intensity(self) -> Percent {
        match self {
            PianoEvent::KeyPress(_, p) => p,
            PianoEvent::KeyRelease(_) => Percent(0),
            PianoEvent::RightPedal(p) => p,
            PianoEvent::MiddlePedal(down) => if down {
                Percent(ALPHA_MAX)
            } else {
                Percent(0)
            },
            PianoEvent::LeftPedal(p) => p,
            PianoEvent::SetAmbience(p) => p,
        }
    }

    /// Flatten this event into the record the consumer receives.
    pub fn to_client_event(&self) -> (r: ClientPianoEvent)
        ensures
            r.event_type == self.spec_client_type(),
            r.key_string@ == self.spec_client_key_name(),
            r.key_id == self.spec_client_key_id(),
            r.intensity == self.spec_client_intensity(),
    {
        let event_type = match self {
            Self::KeyPress(_, _) => ClientEventType::KeyPress,
            Self::KeyRelease(_) => ClientEventType::KeyRelease,
            Self::RightPedal(_) | Self::MiddlePedal(_) | Self::LeftPedal(_) => ClientEventType::Pedal,
            Self::SetAmbience(_) => ClientEventType::Ambience,
        };

        let key_string = match self {
            Self::KeyPress(key, _) | Self::KeyRelease(key) => key.to_key_name(),
            _ => String::new(),
        };

        let key_id = match self {
            Self::KeyPress(key, _) | Self::KeyRelease(key) => key.code(),
            _ => 0,
        };

        let intensity = match self {
            Self::KeyRelease(_) => Percent(0),
            Self::RightPedal(percent)
            | Self::LeftPedal(percent)
            | Self::KeyPress(_, percent)
            | Self::SetAmbience(percent) => *percent,
            Self::MiddlePedal(down) => if *down {
                Percent(ALPHA_MAX)
            } else {
                Percent(0)
            },
        };

        ClientPianoEvent::new(event_type, key_string, intensity, key_id)
    }
}

/// Law: the intensity a data byte of zero denotes is 0.0 and the maximum
/// byte denotes 1.0 (a `Percent` numerator equal to its denominator, 127);
/// and the denoted intensity is monotonically non-decreasing in the data
/// byte, since the numerator follows the byte and the denominator is
/// fixed.
pub proof fn lemma_percent_endpoints_and_monotone(a1: Alpha, a2: Alpha)
    requires
        a1.0 <= a2.0,
    ensures
        Percent::spec_new(Alpha(0)).0 == 0,
        Percent::spec_new(Alpha(ALPHA_MAX)).0 == ALPHA_MAX,
        Percent::spec_new(a1).0 <= Percent::spec_new(a2).0,
{
}

/// Law: a key-press message decodes successfully for every key and every
/// valid data byte, into a key press of that key with intensity
/// alpha / 127.
pub proof fn lemma_decode_key_press(key: PianoKeyCode, alpha: Alpha)
    ensures
        spec_decode(StateCode::KeyPress, key, alpha) == Ok::<PianoEvent, DecodeError>(
            PianoEvent::KeyPress(key, Percent(alpha.0)),
        ),
{
}

/// Law: a key-release message decodes successfully for every key and
/// every data byte, into a release of that key; and the intensity shown
/// to the consumer for a release is exactly zero, whatever the data byte
/// carried.
pub proof fn lemma_decode_key_release(key: PianoKeyCode, alpha: Alpha)
    ensures
        spec_decode(StateCode::KeyRelease, key, alpha) == Ok::<PianoEvent, DecodeError>(
            PianoEvent::KeyRelease(key),
        ),
        PianoEvent::KeyRelease(key).spec_client_intensity() == Percent(0),
{
}

/// Law: the middle pedal is a binary threshold at the maximum data byte:
/// a control-begin message on its key reads as down exactly when alpha is
/// 127, and as up for every smaller alpha — there is no intermediate
/// position.
pub proof fn lemma_middle_pedal_threshold(key: PianoKeyCode, alpha: Alpha)
    requires
        key.code == MIDDLE_PEDAL_KEY,
    ensures
        spec_decode(StateCode::FunctionBegin, key, alpha) == Ok::<PianoEvent, DecodeError>(
            PianoEvent::MiddlePedal(alpha.0 == ALPHA_MAX),
        ),
{
}

/// Law: a control-begin message whose key is none of the four designated
/// control keys is refused with an unmapped-control-key error, for every
/// data byte — an error value, never a halt.
pub proof fn lemma_decode_unmapped_control_key(key: PianoKeyCode, alpha: Alpha)
    requires
        key.code != RIGHT_PEDAL_KEY,
        key.code != MIDDLE_PEDAL_KEY,
        key.code != LEFT_PEDAL_KEY,
        key.code != AMBIENCE_KEY,
    ensures
        spec_decode(StateCode::FunctionBegin, key, alpha) == Err::<PianoEvent, DecodeError>(
            DecodeError::UnmappedControlKey,
        ),
{
}

} // verus!

use vstd::prelude::*;

verus! {

/// The version identifier of the keyboard's firmware.
#[derive(Debug, PartialEq, Eq, Structural)]
pub struct Version {
    pub major: u8,
    pub minor: u8,
}

/// What a raw firmware version byte decodes to: the high nibble is the major
/// version, the low nibble the minor version. Every byte is a valid input.
pub open spec fn spec_version_from_byte(byte: u8) -> Version {
    Version { major: (byte >> 4) & 0xF, minor: byte & 0xF }
}

impl Version {
    /// Split one firmware byte into its major (high nibble) and minor (low
    /// nibble) version numbers.
    pub fn from_byte(byte: u8) -> (r: Version)
        ensures
            r == spec_version_from_byte(byte),
            r.major == (byte >> 4) & 0xF,
            r.minor == byte & 0xF,
    {
        proof {
            assert((byte & 0xF0) >> 4 == (byte >> 4) & 0xF) by (bit_vector);
        }
        Version {
            major: (byte & 0xF0) >> 4,
            minor: (byte & 0x0F),
        }
    }
}

/// A raw key event from the keyboard's FIFO.
#[derive(Copy, Clone, Debug, PartialEq, Eq, Structural)]
pub enum KeyRaw {
    Invalid,
    Pressed(u8),
    Held(u8),
    Released(u8),
}

/// What a 2-byte FIFO entry decodes to: the first byte is an event-kind tag
/// (1 = pressed, 2 = held, 3 = released, anything else is invalid), the second
/// byte is the key identifier.
pub open spec fn spec_key_raw_from_bytes(tag: u8, key: u8) -> KeyRaw {
    if tag == 1 {
        KeyRaw::Pressed(key)
    } else if tag == 2 {
        KeyRaw::Held(key)
    } else if tag == 3 {
        KeyRaw::Released(key)
    } else {
        KeyRaw::Invalid
    }
}

impl KeyRaw {
    /// Decode one 2-byte FIFO entry. There is no error condition: an
    /// unrecognized tag (including 0, the empty-FIFO steady state) decodes to
    /// `Invalid`.
    pub fn from_bytes(buf: [u8; 2]) -> (r: KeyRaw)
        ensures
            r == spec_key_raw_from_bytes(buf[0], buf[1]),
            buf[0] == 1 ==> r == KeyRaw::Pressed(buf[1]),
            buf[0] == 2 ==> r == KeyRaw::Held(buf[1]),
            buf[0] == 3 ==> r == KeyRaw::Released(buf[1]),
            !(buf[0] == 1 || buf[0] == 2 || buf[0] == 3) ==> r == KeyRaw::Invalid,
    {
        let tag = buf[0];
        let key = buf[1];
        if tag == 1 {
            KeyRaw::Pressed(key)
        } else if tag == 2 {
            KeyRaw::Held(key)
        } else if tag == 3 {
            KeyRaw::Released(key)
        } else {
            KeyRaw::Invalid
        }
    }
}

/// The current state of NumLock.
///
/// NumLock is enabled by pressing `alt` + `Left Shift`, and disabled by double
/// clicking either Shift key.
#[derive(Copy, Clone, Debug, PartialEq, Eq, Structural)]
pub enum NumLockState {
    Off,
    On,
}

/// The current state of CapsLock.
///
/// CapsLock is enabled by pressing `alt` + `Right Shift`, and disabled by
/// double clicking either Shift key.
///
/// NOTE: Due to a firmware bug, the FIFO count may roll over into the CapsLock
/// bit. In this case, an `Unknown` value will be returned.
#[derive(Copy, Clone, Debug, PartialEq, Eq, Structural)]
pub enum CapsLockState {
    Off,
    On,
    Unknown,
}

/// The current number of key events waiting in the FIFO queue.
///
/// NOTE: Due to a firmware bug, the FIFO count may roll over into the CapsLock
/// bit. In this case, an `EmptyOr32` value will be returned, and there are
/// either zero or 32 elements in the FIFO currently.
#[derive(Copy, Clone, Debug, PartialEq, Eq, Structural)]
pub enum FifoCount {
    Known(u8),
    EmptyOr32,
}

/// The current key status register reported by the keyboard firmware.
#[derive(Copy, Clone, Debug, PartialEq, Eq, Structural)]
pub struct KeyStatus {
    pub num_lock: NumLockState,
    pub caps_lock: CapsLockState,
    pub fifo_count: FifoCount,
}

/// What a status byte decodes to. Bit 6 is the num-lock flag; bit 5 the
/// caps-lock flag; bits 4-0 the 5-bit FIFO count. A set caps-lock flag with a
/// zero count is the documented firmware ambiguity: the controller cannot
/// distinguish "caps-lock on, FIFO empty" from "FIFO rolled over to 32", so
/// that case decodes to `Unknown` / `EmptyOr32`.
pub open spec fn spec_key_status_from_byte(byte: u8) -> KeyStatus {
    KeyStatus {
        num_lock: if byte & 0x40 != 0 {
            NumLockState::On
        } else {
            NumLockState::Off
        },
        caps_lock: if byte & 0x20 != 0 {
            if byte & 0x1F == 0 {
                CapsLockState::Unknown
            } else {
                CapsLockState::On
            }
        } else {
            CapsLockState::Off
        },
        fifo_count: if byte & 0x20 != 0 && byte & 0x1F == 0 {
            FifoCount::EmptyOr32
        } else {
            FifoCount::Known(byte & 0x1F)
        },
    }
}

impl KeyStatus {
    /// Decode one status byte. Bit 6 is masked out before the caps/FIFO bits
    /// are interpreted, since the firmware may on rare occasions leak state
    /// into it. Every byte value maps to a defined `KeyStatus`.
    pub fn from_byte(byte: u8) -> (r: KeyStatus)
        ensures
            r == spec_key_status_from_byte(byte),
            r.num_lock == NumLockState::On <==> byte & 0x40 != 0,
            byte & 0x20 != 0 && byte & 0x1F == 0 ==> r.caps_lock == CapsLockState::Unknown
                && r.fifo_count == FifoCount::EmptyOr32,
            byte & 0x20 != 0 && byte & 0x1F != 0 ==> r.caps_lock == CapsLockState::On
                && r.fifo_count == FifoCount::Known(byte & 0x1F),
            byte & 0x20 == 0 ==> r.caps_lock == CapsLockState::Off
                && r.fifo_count == FifoCount::Known(byte & 0x1F),
    {
        let num_lock = if (byte & 0b0100_0000) != 0 {
            NumLockState::On
        } else {
            NumLockState::Off
        };
        let masked = byte & 0b1011_1111;

        let capslock = (masked & 0b0010_0000) != 0;
        let fifo_ct = masked & 0b0001_1111;

        proof {
            assert((byte & 0b1011_1111) & 0b0010_0000 == byte & 0x20) by (bit_vector);
            assert((byte & 0b1011_1111) & 0b0001_1111 == byte & 0x1F) by (bit_vector);
        }

        if capslock && fifo_ct == 0 {
            KeyStatus {
                caps_lock: CapsLockState::Unknown,
                num_lock,
                fifo_count: FifoCount::EmptyOr32,
            }
        } else if capslock {
            KeyStatus {
                caps_lock: CapsLockState::On,
                num_lock,
                fifo_count: FifoCount::Known(fifo_ct),
            }
        } else {
            KeyStatus {
                caps_lock: CapsLockState::Off,
                num_lock,
                fifo_count: FifoCount::Known(fifo_ct),
            }
        }
    }
}

/// Law: num-lock decoding is independent of caps-lock and FIFO decoding.
/// Flipping bit 6 of a status byte, and nothing else, flips the decoded
/// num-lock state and never changes the decoded caps-lock state or FIFO count.
pub proof fn lemma_num_lock_independent(byte: u8)
    ensures
        spec_key_status_from_byte(byte ^ 0x40).caps_lock
            == spec_key_status_from_byte(byte).caps_lock,
        spec_key_status_from_byte(byte ^ 0x40).fifo_count
            == spec_key_status_from_byte(byte).fifo_count,
        spec_key_status_from_byte(byte ^ 0x40).num_lock
            != spec_key_status_from_byte(byte).num_lock,
{
    assert((byte ^ 0x40) & 0x20 == byte & 0x20) by (bit_vector);
    assert((byte ^ 0x40) & 0x1F == byte & 0x1F) by (bit_vector);
    assert(((byte ^ 0x40) & 0x40 != 0) <==> !(byte & 0x40 != 0)) by (bit_vector);
}

} // verus!

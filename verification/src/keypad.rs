//! The sixteen-key pad and where its keys lie on a host keyboard.
//!
//! The pad is a four by four block, `1 2 3 C / 4 5 6 D / 7 8 9 E / A 0 B F`,
//! laid over the block `1 2 3 4 / Q W E R / A S D F / Z X C V` of the host
//! keyboard. Host keys are named by their key code, which for these keys is
//! the ASCII code of the digit or lower-case letter they carry.

use vstd::prelude::*;

verus! {

/// The host key code of each pad key, by pad key number.
pub const HOST_KEYS: [i32; 16] = [
    0x78, 0x31, 0x32, 0x33,
    0x71, 0x77, 0x65, 0x61,
    0x73, 0x64, 0x7A, 0x63,
    0x34, 0x72, 0x66, 0x76,
];

/// The host key code of the space bar, which pauses and resumes the machine.
pub const PAUSE_KEY: i32 = 0x20;

/// What a key of the host keyboard is to the machine.
#[derive(Clone, Copy, Debug, PartialEq, Eq, Structural)]
pub enum KeyRole {
    /// The pad key with this number, 0 to 15.
    Pad(u8),
    /// The pause switch.
    Pause,
    /// Nothing.
    Unused,
}

/// Whether host key `code` is the host key of pad key `key`.
pub open spec fn is_host_key_of(code: i32, key: u8) -> bool {
    key < 16 && HOST_KEYS@[key as int] == code
}

/// Whether host key `code` is a pad key.
pub open spec fn is_pad_key(code: i32) -> bool {
    exists|key: u8| is_host_key_of(code, key)
}

/// The role of host key `code`: the pause switch for the space bar, the pad
/// key whose entry in `HOST_KEYS` it is, nothing for any other key.
pub open spec fn key_role_of(code: i32) -> KeyRole {
    if code == PAUSE_KEY {
        KeyRole::Pause
    } else if is_pad_key(code) {
        KeyRole::Pad(choose|key: u8| is_host_key_of(code, key))
    } else {
        KeyRole::Unused
    }
}

/// No two pad keys share a host key, and none lies on the space bar: a host
/// key is pad key `key` exactly if it stands at `key` in `HOST_KEYS`.
pub proof fn lemma_pad_keys_are_distinct(code: i32, key: u8)
    requires
        is_host_key_of(code, key),
    ensures
        key_role_of(code) == KeyRole::Pad(key),
{
    let found = choose|k: u8| is_host_key_of(code, k);
    assert(HOST_KEYS@[found as int] == HOST_KEYS@[key as int]);
}

/// Finds the role of host key `code`.
pub fn key_role(code: i32) -> (role: KeyRole)
    ensures
        role == key_role_of(code),
{
    if code == PAUSE_KEY {
        return KeyRole::Pause;
    }
    let mut key: u8 = 0;
    while key < 16
        invariant
            key <= 16,
            code != PAUSE_KEY,
            forall|k: u8| k < key ==> !is_host_key_of(code, k),
        decreases 16 - key,
    {
        if HOST_KEYS[key as usize] == code {
            proof {
                lemma_pad_keys_are_distinct(code, key);
            }
            return KeyRole::Pad(key);
        }
        key += 1;
    }
    KeyRole::Unused
}

} // verus!

//! The full parameter record a `Params` message carries: nineteen 32-bit
//! values, four big-endian bytes each, in declaration order. As with the
//! sensor channels, each value is carried as the bit pattern of the
//! instrument's floating value; interpretation as a float stays outside.

use vstd::prelude::*;

use crate::msg::PARAMS_SIZE;
use crate::readings::be_word;
use crate::readings::word_at;

verus! {

/// First-order state record of the instrument's carrier: positions,
/// attitude, velocities and accelerations, as 32-bit floating-value bit
/// patterns.
#[derive(Clone, Copy, PartialEq, Eq, Structural, Debug)]
pub struct Params {
    /// Position, x.
    pub s_x: u32,
    /// Position, y.
    pub s_y: u32,
    /// Altitude over mean sea level.
    pub s_z_msl: u32,
    /// Altitude over ground.
    pub s_z_agl: u32,
    /// Attitude, pitch.
    pub s_pitch: u32,
    /// Attitude, roll.
    pub s_roll: u32,
    /// Attitude, yaw.
    pub s_yaw: u32,
    /// Velocity, x.
    pub v_x: u32,
    /// Velocity, y.
    pub v_y: u32,
    /// Velocity, z.
    pub v_z: u32,
    /// Angular velocity, pitch.
    pub v_pitch: u32,
    /// Angular velocity, roll.
    pub v_roll: u32,
    /// Angular velocity, yaw.
    pub v_yaw: u32,
    /// Acceleration, x.
    pub a_x: u32,
    /// Acceleration, y.
    pub a_y: u32,
    /// Acceleration, z.
    pub a_z: u32,
    /// Angular acceleration, pitch.
    pub a_pitch: u32,
    /// Angular acceleration, roll.
    pub a_roll: u32,
    /// Angular acceleration, yaw.
    pub a_yaw: u32,
}

impl Params {
    /// Decode a `Params` payload: nineteen 32-bit values, four bytes each,
    /// at consecutive offsets in field declaration order.
    pub fn from_bytes(buf: &[u8]) -> (r: Self)
        requires
            buf@.len() >= PARAMS_SIZE,
        ensures
            r.s_x == be_word(buf@, 0),
            r.s_y == be_word(buf@, 4),
            r.s_z_msl == be_word(buf@, 8),
            r.s_z_agl == be_word(buf@, 12),
            r.s_pitch == be_word(buf@, 16),
            r.s_roll == be_word(buf@, 20),
            r.s_yaw == be_word(buf@, 24),
            r.v_x == be_word(buf@, 28),
            r.v_y == be_word(buf@, 32),
            r.v_z == be_word(buf@, 36),
            r.v_pitch == be_word(buf@, 40),
            r.v_roll == be_word(buf@, 44),
            r.v_yaw == be_word(buf@, 48),
            r.a_x == be_word(buf@, 52),
            r.a_y == be_word(buf@, 56),
            r.a_z == be_word(buf@, 60),
            r.a_pitch == be_word(buf@, 64),
            r.a_roll == be_word(buf@, 68),
            r.a_yaw == be_word(buf@, 72),
    {
        Params {
            s_x: word_at(buf, 0),
            s_y: word_at(buf, 4),
            s_z_msl: word_at(buf, 8),
            s_z_agl: word_at(buf, 12),
            s_pitch: word_at(buf, 16),
            s_roll: word_at(buf, 20),
            s_yaw: word_at(buf, 24),
            v_x: word_at(buf, 28),
            v_y: word_at(buf, 32),
            v_z: word_at(buf, 36),
            v_pitch: word_at(buf, 40),
            v_roll: word_at(buf, 44),
            v_yaw: word_at(buf, 48),
            a_x: word_at(buf, 52),
            a_y: word_at(buf, 56),
            a_z: word_at(buf, 60),
            a_pitch: word_at(buf, 64),
            a_roll: word_at(buf, 68),
            a_yaw: word_at(buf, 72),
        }
    }
}

} // verus!

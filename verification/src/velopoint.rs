//! The point record that the pipeline produces for every channel return.

use vstd::prelude::*;
use vstd::string::StringExecFns;
use crate::text::{decimal, metres, push_decimal, push_metres, push_signed_decimal, signed_decimal};

verus! {

/// Upper bound (exclusive) of the nominal azimuth range, in hundredths of a
/// degree.
pub const FULL_TURN: u16 = 36000;

/// One channel return in polar form.
///
/// All quantities are exact integers: the azimuth in hundredths of a degree,
/// the distance in millimetres, the timestamp in microseconds and the
/// vertical angle in degrees.
#[derive(Clone, Copy, Debug, PartialEq, Eq, Structural)]
pub struct VeloPoint {
    pub reflectivity: u8,
    pub channel: u8,
    pub azimuth: u16,
    pub distance_mm: u32,
    pub timestamp: u32,
    pub vertical_angle: i32,
}

/// The Cartesian position of a return in metres, each coordinate as the
/// decimal text in which it is written out. Resolving the position takes
/// trigonometry on real numbers, which is done outside this crate.
#[derive(Debug)]
pub struct Position {
    pub x: String,
    pub y: String,
    pub z: String,
}

impl VeloPoint {
    /// The text row of a point: reflectivity, channel, azimuth, distance
    /// in metres, the timestamp in both time columns, vertical angle and
    /// the three coordinates, separated by commas and ended by a newline.
    pub open spec fn row(self, position: Position) -> Seq<char> {
        decimal(self.reflectivity as nat) + seq![','] + decimal(self.channel as nat) + seq![',']
            + decimal(self.azimuth as nat) + seq![','] + metres(self.distance_mm as nat) + seq![
            ',',
        ] + decimal(self.timestamp as nat) + seq![','] + decimal(self.timestamp as nat) + seq![',']
            + signed_decimal(self.vertical_angle as int) + seq![','] + position.x@ + seq![',']
            + position.y@ + seq![','] + position.z@ + seq!['\n']
    }

    /// Writes the point out as one text row.
    pub fn to_string(&self, position: &Position) -> (text: String)
        ensures
            text@ == self.row(*position),
    {
        proof {
            reveal_strlit(",");
            reveal_strlit("\n");
        }
        let mut text = String::new();
        push_decimal(&mut text, self.reflectivity as u64);
        text.append(",");
        push_decimal(&mut text, self.channel as u64);
        text.append(",");
        push_decimal(&mut text, self.azimuth as u64);
        text.append(",");
        push_metres(&mut text, self.distance_mm);
        text.append(",");
        push_decimal(&mut text, self.timestamp as u64);
        text.append(",");
        push_decimal(&mut text, self.timestamp as u64);
        text.append(",");
        push_signed_decimal(&mut text, self.vertical_angle as i64);
        text.append(",");
        text.append(position.x.as_str());
        text.append(",");
        text.append(position.y.as_str());
        text.append(",");
        text.append(position.z.as_str());
        text.append("\n");
        assert(text@ =~= self.row(*position));
        text
    }

    /// Whether the azimuth lies in the nominal range of one full turn.
    pub open spec fn nominal(self) -> bool {
        self.azimuth < FULL_TURN
    }

    /// Validates the azimuth against the nominal range `[0, 36000)`.
    pub fn has_nominal_azimuth(&self) -> (ok: bool)
        ensures
            ok == self.nominal(),
    {
        self.azimuth < FULL_TURN
    }
}

} // verus!

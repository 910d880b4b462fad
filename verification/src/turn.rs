//! Turn classification from bearing changes.
//!
//! Bearings and relative angles are measured in millidegrees (one
//! thousandth of a degree), so every threshold of the classification is
//! exact integer arithmetic. A positive relative angle is a turn to the
//! right, a negative one a turn to the left.

use vstd::prelude::*;

verus! {

/// Turn direction categories.
#[derive(Debug, Clone, Copy, PartialEq, Eq, Structural)]
pub enum Turn {
    Start,
    Straight,
    SlightLeft,
    Left,
    SharpLeft,
    SlightRight,
    Right,
    SharpRight,
    UTurn,
    Arrive,
}

/// Relative angle normalized into [-180 000, 180 000] millidegrees by
/// repeatedly adding or subtracting a full circle.
pub open spec fn norm_angle(a: int) -> int
    decreases (if a >= 0 { a } else { -a }),
{
    if a > 180_000 {
        norm_angle(a - 360_000)
    } else if a < -180_000 {
        norm_angle(a + 360_000)
    } else {
        a
    }
}

/// Classification of a normalized relative angle, by absolute value:
/// above 170 degrees a U-turn, above 120 sharp, above 60 normal, above
/// 20 slight, else straight; the sign picks left or right.
pub open spec fn spec_classify(angle: int) -> Turn {
    let abs_angle = if angle >= 0 { angle } else { -angle };
    if abs_angle > 170_000 {
        Turn::UTurn
    } else if abs_angle > 120_000 {
        if angle > 0 { Turn::SharpRight } else { Turn::SharpLeft }
    } else if abs_angle > 60_000 {
        if angle > 0 { Turn::Right } else { Turn::Left }
    } else if abs_angle > 20_000 {
        if angle > 0 { Turn::SlightRight } else { Turn::SlightLeft }
    } else {
        Turn::Straight
    }
}

/// Swaps the left and right variants of a turn and keeps the rest.
pub open spec fn mirror(t: Turn) -> Turn {
    match t {
        Turn::SlightLeft => Turn::SlightRight,
        Turn::Left => Turn::Right,
        Turn::SharpLeft => Turn::SharpRight,
        Turn::SlightRight => Turn::SlightLeft,
        Turn::Right => Turn::Left,
        Turn::SharpRight => Turn::SharpLeft,
        _ => t,
    }
}

/// Classifying the opposite angle yields the mirrored turn: left/right
/// pairs swap and straight and U-turns are their own mirror image.
pub proof fn lemma_classify_mirror(angle: int)
    ensures
        spec_classify(-angle) == mirror(spec_classify(angle)),
{
}

/// Classify a relative bearing change, in millidegrees, into a turn
/// direction.
pub fn classify_turn(angle_mdeg: i64) -> (t: Turn)
    ensures
        t == spec_classify(angle_mdeg as int),
{
    if angle_mdeg > 170_000 || angle_mdeg < -170_000 {
        Turn::UTurn
    } else if angle_mdeg > 120_000 {
        Turn::SharpRight
    } else if angle_mdeg < -120_000 {
        Turn::SharpLeft
    } else if angle_mdeg > 60_000 {
        Turn::Right
    } else if angle_mdeg < -60_000 {
        Turn::Left
    } else if angle_mdeg > 20_000 {
        Turn::SlightRight
    } else if angle_mdeg < -20_000 {
        Turn::SlightLeft
    } else {
        Turn::Straight
    }
}

/// Normalize a relative angle in millidegrees into [-180 000, 180 000]
/// by repeated full-circle adjustment.
pub fn normalize_angle(angle_mdeg: i64) -> (r: i64)
    requires
        -720_000 <= angle_mdeg <= 720_000,
    ensures
        r == norm_angle(angle_mdeg as int),
        -180_000 <= r <= 180_000,
{
    let mut a: i64 = angle_mdeg;
    while a > 180_000
        invariant
            -720_000 <= a <= 720_000,
            norm_angle(a as int) == norm_angle(angle_mdeg as int),
        decreases a + 720_000,
    {
        a = a - 360_000;
    }
    while a < -180_000
        invariant
            -720_000 <= a <= 180_000,
            norm_angle(a as int) == norm_angle(angle_mdeg as int),
        decreases 720_000 - a,
    {
        a = a + 360_000;
    }
    a
}

/// Turn at a waypoint, from the bearing of the approach segment and the
/// bearing of the exit segment, both in millidegrees in [0, 360 000).
pub fn compute_turn(bearing_in_mdeg: i64, bearing_out_mdeg: i64) -> (t: Turn)
    requires
        0 <= bearing_in_mdeg < 360_000,
        0 <= bearing_out_mdeg < 360_000,
    ensures
        t == spec_classify(norm_angle(bearing_out_mdeg - bearing_in_mdeg)),
{
    let angle = normalize_angle(bearing_out_mdeg - bearing_in_mdeg);
    classify_turn(angle)
}

/// Human-readable phrase for each turn direction.
pub open spec fn turn_phrase(t: Turn) -> Seq<char> {
    match t {
        Turn::Start => "start navigation"@,
        Turn::Straight => "continue straight"@,
        Turn::SlightLeft => "keep slightly left"@,
        Turn::Left => "turn left"@,
        Turn::SharpLeft => "turn sharp left"@,
        Turn::SlightRight => "keep slightly right"@,
        Turn::Right => "turn right"@,
        Turn::SharpRight => "turn sharp right"@,
        Turn::UTurn => "make a U-turn"@,
        Turn::Arrive => "arrive at destination"@,
    }
}

/// Phrase used for a turn inside an instruction text.
pub fn turn_to_text(turn: Turn) -> (r: &'static str)
    ensures
        r@ == turn_phrase(turn),
{
    match turn {
        Turn::Start => "start navigation",
        Turn::Straight => "continue straight",
        Turn::SlightLeft => "keep slightly left",
        Turn::Left => "turn left",
        Turn::SharpLeft => "turn sharp left",
        Turn::SlightRight => "keep slightly right",
        Turn::Right => "turn right",
        Turn::SharpRight => "turn sharp right",
        Turn::UTurn => "make a U-turn",
        Turn::Arrive => "arrive at destination",
    }
}

} // verus!

//! Turn-by-turn instruction synthesis.
//!
//! A path of `n` waypoints is described by its `n - 1` legs: for each
//! consecutive pair of waypoints, the leg's length in millimeters and
//! its initial bearing in millidegrees. From those the synthesizer
//! produces one instruction per waypoint: a start instruction, a turn
//! instruction at every interior waypoint, and an arrival instruction.

use vstd::prelude::*;
use vstd::string::StringExecFns;
use crate::format::{format_distance, spec_format_distance};
use crate::turn::{compute_turn, norm_angle, spec_classify, turn_phrase, turn_to_text, Turn};

verus! {

/// One leg of a path: the stretch between two consecutive waypoints.
#[derive(Debug, Clone, Copy, PartialEq, Eq, Structural)]
pub struct Leg {
    /// Length of the leg in millimeters.
    pub dist_mm: u64,
    /// Initial bearing of the leg in millidegrees, in [0, 360 000).
    pub bearing_mdeg: i64,
}

/// A single turn-by-turn instruction.
#[derive(Debug, Clone)]
pub struct Instruction {
    /// Waypoint index this instruction applies to.
    pub waypoint_index: usize,
    /// Distance from the previous waypoint in millimeters.
    pub distance_mm: u64,
    /// Turn direction at this waypoint.
    pub turn: Turn,
    /// Human-readable instruction text.
    pub text: String,
}

/// Text of an instruction other than the start: the distance to cover,
/// then the turn phrase.
pub open spec fn instruction_text(dist_mm: nat, t: Turn) -> Seq<char> {
    "In "@ + spec_format_distance(dist_mm) + ", "@ + turn_phrase(t)
}

/// Build the text of an instruction other than the start.
fn render_instruction(dist_mm: u64, t: Turn) -> (r: String)
    requires
        dist_mm + 50_000 <= u64::MAX,
    ensures
        r@ == instruction_text(dist_mm as nat, t),
{
    let dist_text = format_distance(dist_mm);
    let r = "In ".to_owned().concat(dist_text.as_str()).concat(", ").concat(turn_to_text(t));
    proof {
        assert(r@ =~= instruction_text(dist_mm as nat, t));
    }
    r
}

/// Generate turn-by-turn instructions for a path given by its legs.
///
/// A path of fewer than two waypoints has no legs and yields no
/// instructions; otherwise there is exactly one instruction per
/// waypoint: `Start` first, `Arrive` last, and at each interior
/// waypoint the turn classified from the bearing change between the
/// incoming and the outgoing leg.
pub fn generate_instructions(legs: &Vec<Leg>) -> (r: Vec<Instruction>)
    requires
        legs.len() < usize::MAX,
        forall|i: int| 0 <= i < legs.len() ==> 0 <= (#[trigger] legs[i]).bearing_mdeg < 360_000,
        forall|i: int| 0 <= i < legs.len() ==> (#[trigger] legs[i]).dist_mm + 50_000 <= u64::MAX,
    ensures
        legs.len() == 0 ==> r.len() == 0,
        legs.len() >= 1 ==> r.len() == legs.len() + 1,
        legs.len() >= 1 ==> {
            &&& r[0].waypoint_index == 0
            &&& r[0].distance_mm == 0
            &&& r[0].turn == Turn::Start
            &&& r[0].text@ == "Start navigation"@
        },
        legs.len() >= 1 ==> {
            let last = legs.len() as int;
            &&& r[last].waypoint_index == legs.len()
            &&& r[last].distance_mm == legs[last - 1].dist_mm
            &&& r[last].turn == Turn::Arrive
            &&& r[last].text@ == instruction_text(legs[last - 1].dist_mm as nat, Turn::Arrive)
        },
        forall|i: int|
            1 <= i < legs.len() ==> {
                let t = spec_classify(
                    norm_angle(legs[i].bearing_mdeg - legs[i - 1].bearing_mdeg),
                );
                &&& (#[trigger] r[i]).waypoint_index == i
                &&& r[i].distance_mm == legs[i - 1].dist_mm
                &&& r[i].turn == t
                &&& r[i].text@ == instruction_text(legs[i - 1].dist_mm as nat, t)
            },
{
    let mut out: Vec<Instruction> = Vec::new();
    if legs.len() == 0 {
        return out;
    }

    out.push(
        Instruction {
            waypoint_index: 0,
            distance_mm: 0,
            turn: Turn::Start,
            text: "Start navigation".to_owned(),
        },
    );

    let mut i: usize = 1;
    while i < legs.len()
        invariant
            1 <= i <= legs.len(),
            legs.len() < usize::MAX,
            forall|j: int| 0 <= j < legs.len() ==> 0 <= (#[trigger] legs[j]).bearing_mdeg < 360_000,
            forall|j: int| 0 <= j < legs.len() ==> (#[trigger] legs[j]).dist_mm + 50_000 <= u64::MAX,
            out.len() == i,
            out[0].waypoint_index == 0,
            out[0].distance_mm == 0,
            out[0].turn == Turn::Start,
            out[0].text@ == "Start navigation"@,
            forall|j: int|
                1 <= j < i ==> {
                    let t = spec_classify(
                        norm_angle(legs[j].bearing_mdeg - legs[j - 1].bearing_mdeg),
                    );
                    &&& (#[trigger] out[j]).waypoint_index == j
                    &&& out[j].distance_mm == legs[j - 1].dist_mm
                    &&& out[j].turn == t
                    &&& out[j].text@ == instruction_text(legs[j - 1].dist_mm as nat, t)
                },
        decreases legs.len() - i,
    {
        let dist = legs[i - 1].dist_mm;
        let t = compute_turn(legs[i - 1].bearing_mdeg, legs[i].bearing_mdeg);
        let text = render_instruction(dist, t);
        out.push(Instruction { waypoint_index: i, distance_mm: dist, turn: t, text });
        i = i + 1;
    }

    let last_dist = legs[legs.len() - 1].dist_mm;
    let text = render_instruction(last_dist, Turn::Arrive);
    out.push(
        Instruction {
            waypoint_index: legs.len(),
            distance_mm: last_dist,
            turn: Turn::Arrive,
            text,
        },
    );

    out
}

} // verus!

//! The text form of commands.

use vstd::prelude::*;
use crate::gcode_types::{Command, CommandView, ValveState, WaitType};
use crate::units::{
    push_decimal, push_fixed1, push_fixed3, spec_decimal, spec_fixed1, spec_fixed3,
};

verus! {

/// The texts of a list of valve states, separated by single spaces.
pub open spec fn spec_join_valves(valves: Seq<ValveState>) -> Seq<char>
    decreases valves.len(),
{
    if valves.len() == 0 {
        Seq::empty()
    } else if valves.len() == 1 {
        valves[0].spec_text()
    } else {
        spec_join_valves(valves.drop_last()) + seq![' '] + valves.last().spec_text()
    }
}

fn push_valves_text(out: &mut String, valves: &Vec<ValveState>)
    ensures
        final(out)@ == old(out)@ + spec_join_valves(valves@),
{
    let mut i: usize = 0;
    while i < valves.len()
        invariant
            i <= valves@.len(),
            out@ == old(out)@ + spec_join_valves(valves@.take(i as int)),
        decreases valves@.len() - i,
    {
        let ghost before = out@;
        if i > 0 {
            out.append(" ");
        }
        let v = valves[i];
        v.push_text(out);
        proof {
            reveal_strlit(" ");
            let head = valves@.take(i as int + 1);
            assert(head.drop_last() =~= valves@.take(i as int));
            assert(head.last() == v);
            assert(" "@ =~= seq![' ']);
            assert(out@ =~= old(out)@ + spec_join_valves(head));
        }
        i = i + 1;
    }
    assert(valves@.take(i as int) =~= valves@);
}

impl CommandView {
    /// The text form of the command.
    pub open spec fn gcode_text(self) -> Seq<char> {
        match self {
            CommandView::G4D { position, valves, extrusion } => "G4D "@ + position.spec_text()
                + " "@ + spec_join_valves(valves),
            CommandView::G4L(c) => match c.feed_rate {
                Some(f) => "G4L Z"@ + spec_fixed3(c.z_height as int) + " F"@ + spec_fixed1(
                    f as int,
                ),
                None => "G4L Z"@ + spec_fixed3(c.z_height as int),
            },
            CommandView::G4C { color, material_channel, mixing_ratios } => "G4C"@ + (match color {
                Some(c) => " COLOR "@ + c.spec_text(),
                None => Seq::empty(),
            }) + (match material_channel {
                Some(m) => " M"@ + spec_decimal(m as nat),
                None => Seq::empty(),
            }),
            CommandView::G4S(c) => "G4S SPEED "@ + spec_fixed1(c.speed_percentage as int),
            CommandView::G4H(c) => "G4H TEMP "@ + spec_fixed1(c.temperature as int),
            CommandView::G4W(c) => match c.wait_type {
                WaitType::Valves => "G4W VALVES"@,
                WaitType::Pressure => "G4W PRESSURE"@,
                WaitType::Temperature => "G4W TEMPERATURE"@,
                WaitType::Duration(ms) => "G4W P"@ + spec_decimal(ms as nat),
            },
            CommandView::G4P(c) => "G4P PRESSURE "@ + spec_fixed1(c.pressure as int),
            CommandView::Comment(t) => "; "@ + t,
        }
    }
}

impl Command {
    /// Converts the command to its human-readable text form.
    pub fn to_gcode_text(&self) -> (s: String)
        ensures
            s@ == self@.gcode_text(),
    {
        let mut s = String::new();
        match self {
            Command::G4D(cmd) => {
                s.append("G4D ");
                cmd.position.push_text(&mut s);
                s.append(" ");
                push_valves_text(&mut s, &cmd.valves);
            },
            Command::G4L(cmd) => {
                s.append("G4L Z");
                push_fixed3(&mut s, cmd.z_height);
                match cmd.feed_rate {
                    Some(f) => {
                        s.append(" F");
                        push_fixed1(&mut s, f);
                    },
                    None => {},
                }
            },
            Command::G4C(cmd) => {
                s.append("G4C");
                match cmd.color {
                    Some(c) => {
                        s.append(" COLOR ");
                        c.push_text(&mut s);
                    },
                    None => {},
                }
                match cmd.material_channel {
                    Some(m) => {
                        s.append(" M");
                        push_decimal(&mut s, m as u64);
                    },
                    None => {},
                }
            },
            Command::G4S(cmd) => {
                s.append("G4S SPEED ");
                push_fixed1(&mut s, cmd.speed_percentage);
            },
            Command::G4H(cmd) => {
                s.append("G4H TEMP ");
                push_fixed1(&mut s, cmd.temperature);
            },
            Command::G4W(cmd) => match cmd.wait_type {
                WaitType::Valves => {
                    s.append("G4W VALVES");
                },
                WaitType::Pressure => {
                    s.append("G4W PRESSURE");
                },
                WaitType::Temperature => {
                    s.append("G4W TEMPERATURE");
                },
                WaitType::Duration(ms) => {
                    s.append("G4W P");
                    push_decimal(&mut s, ms as u64);
                },
            },
            Command::G4P(cmd) => {
                s.append("G4P PRESSURE ");
                push_fixed1(&mut s, cmd.pressure);
            },
            Command::Comment(text) => {
                s.append("; ");
                s.append(text.as_str());
            },
        }
        assert(s@ =~= self@.gcode_text());
        s
    }
}

} // verus!

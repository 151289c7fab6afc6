//! Builders for commands.

use vstd::prelude::*;
use crate::gcode_types::{
    Color, Command, CommandView, Coordinate, G4CCommand, G4DCommand, G4HCommand, G4LCommand,
    G4PCommand, G4WCommand, ValveState, WaitType,
};

verus! {

/// Builder for deposit commands.
#[derive(Debug, Clone)]
pub struct G4DBuilder {
    position: Coordinate,
    valves: Vec<ValveState>,
    extrusion: Option<i64>,
}

impl G4DBuilder {
    /// The command that the builder would build now.
    pub closed spec fn pending(&self) -> CommandView {
        CommandView::G4D {
            position: self.position,
            valves: self.valves@,
            extrusion: self.extrusion,
        }
    }

    /// A builder for a deposit at `position`, without valves or extrusion.
    pub fn new(position: Coordinate) -> (b: Self)
        ensures
            b.pending() == (CommandView::G4D { position, valves: Seq::empty(), extrusion: None }),
    {
        Self { position, valves: Vec::new(), extrusion: None }
    }

    /// Adds a valve state after those already added.
    pub fn valve(self, index: u8, open: bool) -> (b: Self)
        ensures
            self.pending() matches CommandView::G4D { position, valves, extrusion } && b.pending()
                == (CommandView::G4D {
                position,
                valves: valves.push(ValveState { index, open }),
                extrusion,
            }),
    {
        let mut b = self;
        b.valves.push(ValveState::new(index, open));
        b
    }

    /// Sets the amount to extrude, in thousandths of a cubic millimetre.
    pub fn extrusion(self, amount: i64) -> (b: Self)
        ensures
            self.pending() matches CommandView::G4D { position, valves, extrusion } && b.pending()
                == (CommandView::G4D { position, valves, extrusion: Some(amount) }),
    {
        let mut b = self;
        b.extrusion = Some(amount);
        b
    }

    /// Builds the command.
    pub fn build(self) -> (c: Command)
        ensures
            c@ == self.pending(),
    {
        Command::G4D(
            G4DCommand { position: self.position, valves: self.valves, extrusion: self.extrusion },
        )
    }
}

/// Builder for material and colour commands.
#[derive(Debug, Clone, Copy)]
pub struct MaterialCommandBuilder;

impl MaterialCommandBuilder {
    /// A command that sets the target colour.
    pub fn set_color(r: u8, g: u8, b: u8) -> (c: Command)
        ensures
            c@ == (CommandView::G4C {
                color: Some(Color { r, g, b }),
                material_channel: None,
                mixing_ratios: None,
            }),
    {
        Command::G4C(
            G4CCommand {
                color: Some(Color::new(r, g, b)),
                material_channel: None,
                mixing_ratios: None,
            },
        )
    }

    /// A command that selects a material channel.
    pub fn set_material_channel(channel: u8) -> (c: Command)
        ensures
            c@ == (CommandView::G4C {
                color: None,
                material_channel: Some(channel),
                mixing_ratios: None,
            }),
    {
        Command::G4C(
            G4CCommand { color: None, material_channel: Some(channel), mixing_ratios: None },
        )
    }

    /// A command that sets the mixing ratios, in thousandths.
    pub fn mix_materials(ratios: Vec<(u8, i64)>) -> (c: Command)
        ensures
            c@ == (CommandView::G4C {
                color: None,
                material_channel: None,
                mixing_ratios: Some(ratios@),
            }),
    {
        Command::G4C(G4CCommand { color: None, material_channel: None, mixing_ratios: Some(ratios) })
    }
}

/// Common commands.
#[derive(Debug, Clone, Copy)]
pub struct CommandBuilder;

impl CommandBuilder {
    /// A layer advance to `z` micrometres, without feed rate.
    pub fn layer_advance(z: i64) -> (c: Command)
        ensures
            c@ == CommandView::G4L(G4LCommand { z_height: z, feed_rate: None }),
    {
        Command::G4L(G4LCommand { z_height: z, feed_rate: None })
    }

    /// A wait for the valves, of at most one second.
    pub fn wait_valves() -> (c: Command)
        ensures
            c@ == CommandView::G4W(
                G4WCommand { wait_type: WaitType::Valves, timeout_ms: Some(1000) },
            ),
    {
        Command::G4W(G4WCommand { wait_type: WaitType::Valves, timeout_ms: Some(1000) })
    }

    /// A wait for stable pressure, of at most five seconds.
    pub fn wait_pressure() -> (c: Command)
        ensures
            c@ == CommandView::G4W(
                G4WCommand { wait_type: WaitType::Pressure, timeout_ms: Some(5000) },
            ),
    {
        Command::G4W(G4WCommand { wait_type: WaitType::Pressure, timeout_ms: Some(5000) })
    }

    /// A command that sets the temperature of a zone, in millidegrees
    /// Celsius.
    pub fn set_temperature(zone: u8, temp: i64, wait: bool) -> (c: Command)
        ensures
            c@ == CommandView::G4H(G4HCommand { temperature: temp, zone: Some(zone), wait }),
    {
        Command::G4H(G4HCommand { temperature: temp, zone: Some(zone), wait })
    }

    /// A command that sets the pressure of a channel, in milli-PSI.
    pub fn set_pressure(channel: u8, pressure: i64) -> (c: Command)
        ensures
            c@ == CommandView::G4P(G4PCommand { pressure, material_channel: Some(channel) }),
    {
        Command::G4P(G4PCommand { pressure, material_channel: Some(channel) })
    }
}

} // verus!

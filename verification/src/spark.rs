//! The values exchanged with the receiver host: receivers, radios, spots and
//! the commands of the control channel.
//!
//! Frequencies are whole hertz, decode offsets milliseconds, distances
//! kilometres and coordinates millionths of a degree.

use vstd::prelude::*;
use crate::call::{Call, LogEntry, country_worked, is_country_worked, is_state_worked, state_worked};
use crate::text::{is_substring, str_contains};

verus! {

/// An operating mode, by name, with whether a receiver in it decodes spots.
#[derive(Debug, PartialEq, Eq)]
pub struct Mode {
    pub name: String,
    pub decodes_spots: bool,
}

impl Clone for Mode {
    fn clone(&self) -> (copy: Self)
        ensures
            copy == *self,
    {
        Mode { name: self.name.clone(), decodes_spots: self.decodes_spots }
    }
}

impl Mode {
    pub fn new(name: String, decodes_spots: bool) -> (made: Mode)
        ensures
            made == (Mode { name, decodes_spots }),
    {
        Mode { name, decodes_spots }
    }

    pub fn mode(&self) -> (name: String)
        ensures
            name == self.name,
    {
        self.name.clone()
    }

    pub open spec fn same(self, other: Mode) -> bool {
        self.name@ == other.name@ && self.decodes_spots == other.decodes_spots
    }

    pub fn is_same(&self, other: &Mode) -> (yes: bool)
        ensures
            yes == self.same(*other),
    {
        self.name == other.name && self.decodes_spots == other.decodes_spots
    }
}

/// A point on the globe.
#[derive(Debug, PartialEq, Eq, Clone, Copy)]
pub struct Coord {
    pub lat: i32,
    pub lon: i32,
}

/// A grid locator as received, with the point it stands for where the text
/// is a valid locator.
#[derive(Debug, PartialEq, Eq)]
pub struct Grid {
    pub locator: String,
    pub coord: Option<Coord>,
}

impl Clone for Grid {
    fn clone(&self) -> (copy: Self)
        ensures
            copy == *self,
    {
        Grid { locator: self.locator.clone(), coord: self.coord }
    }
}

#[derive(Debug, PartialEq, Eq)]
pub struct Receiver {
    pub id: u32,
    pub mode: Mode,
    pub frequency: i64,
    pub filter_low: i64,
    pub filter_high: i64,
}

impl Clone for Receiver {
    fn clone(&self) -> (copy: Self)
        ensures
            copy == *self,
    {
        Receiver {
            id: self.id,
            mode: self.mode.clone(),
            frequency: self.frequency,
            filter_low: self.filter_low,
            filter_high: self.filter_high,
        }
    }
}

impl Receiver {
    /// Whether the receiver decodes spots in its present mode.
    pub fn has_spots(&self) -> (yes: bool)
        ensures
            yes == self.mode.decodes_spots,
    {
        self.mode.decodes_spots
    }
}

#[derive(Debug, PartialEq, Eq)]
pub struct Radio {
    pub id: u32,
    pub name: String,
    pub running: bool,
}

impl Clone for Radio {
    fn clone(&self) -> (copy: Self)
        ensures
            copy == *self,
    {
        Radio { id: self.id, name: self.name.clone(), running: self.running }
    }
}

#[derive(Debug, PartialEq, Eq)]
pub struct Version {
    pub protocol_version: String,
    pub host: String,
    pub host_version: String,
}

impl Clone for Version {
    fn clone(&self) -> (copy: Self)
        ensures
            copy == *self,
    {
        Version {
            protocol_version: self.protocol_version.clone(),
            host: self.host.clone(),
            host_version: self.host_version.clone(),
        }
    }
}

/// One decoded detection reported by the host.
#[derive(Debug, PartialEq, Eq)]
pub struct Spot {
    /// Seconds since the Unix epoch, UTC.
    pub time: i64,
    pub frequency: i64,
    pub tuned_frequency: i64,
    pub power: i32,
    pub drift: i32,
    pub snr: i32,
    pub dt: i32,
    pub msg: Option<String>,
    pub mode: Mode,
    pub distance: Option<u32>,
    pub call: Call,
    pub color: i32,
    pub locator: Option<Grid>,
    /// The amateur band of the tuned frequency, where it lies in one.
    pub band: Option<String>,
    pub valid: bool,
}

impl Clone for Spot {
    fn clone(&self) -> (copy: Self)
        ensures
            copy == *self,
    {
        Spot {
            time: self.time,
            frequency: self.frequency,
            tuned_frequency: self.tuned_frequency,
            power: self.power,
            drift: self.drift,
            snr: self.snr,
            dt: self.dt,
            msg: crate::call::clone_text(&self.msg),
            mode: self.mode.clone(),
            distance: self.distance,
            call: self.call.clone(),
            color: self.color,
            locator: match &self.locator {
                Some(g) => Some(g.clone()),
                None => None,
            },
            band: crate::call::clone_text(&self.band),
            valid: self.valid,
        }
    }
}

impl Spot {
    /// The same spot under another callsign value.
    pub open spec fn with_call(self, call: Call) -> Spot {
        Spot { call, ..self }
    }

    /// The message is a general call: its text holds "CQ".
    pub open spec fn cq(self) -> bool {
        self.msg matches Some(m) && is_substring(m@, "CQ"@)
    }

    /// The station confirms contacts through Logbook of The World.
    pub open spec fn lotw_user(self) -> bool {
        self.call.lotw.registered()
    }

    /// The spot was heard by `receiver`: same tuned frequency, same mode.
    pub open spec fn heard_by(self, receiver: Receiver) -> bool {
        self.tuned_frequency == receiver.frequency && self.mode.same(receiver.mode)
    }

    /// Where the signal lies in the receiver's passband.
    pub open spec fn offset(self) -> int {
        self.frequency - self.tuned_frequency
    }

    pub fn set_call(&mut self, call: Call)
        ensures
            *final(self) == old(self).with_call(call),
    {
        self.call = call;
    }

    pub fn is_cq(&self) -> (yes: bool)
        ensures
            yes == self.cq(),
    {
        match &self.msg {
            Some(m) => str_contains(m.as_str(), "CQ"),
            None => false,
        }
    }

    pub fn uses_lotw(&self) -> (yes: bool)
        ensures
            yes == self.lotw_user(),
    {
        self.call.lotw.is_registered()
    }

    /// No contact of the log was made with the spot's state.
    pub fn new_state(&self, logs: &Vec<LogEntry>) -> (yes: bool)
        ensures
            yes == !state_worked(logs@, self.call.state),
    {
        !is_state_worked(logs, &self.call.state)
    }

    /// No contact of the log was made with the spot's country.
    pub fn new_country(&self, logs: &Vec<LogEntry>) -> (yes: bool)
        ensures
            yes == !country_worked(logs@, self.call.country),
    {
        !is_country_worked(logs, &self.call.country)
    }

    pub fn current_rx(&self, receiver: &Receiver) -> (yes: bool)
        ensures
            yes == self.heard_by(*receiver),
    {
        self.tuned_frequency == receiver.frequency && self.mode.is_same(&receiver.mode)
    }

    /// The offset of the signal from the tuned frequency, where it fits.
    pub fn audio_offset(&self) -> (offset: Option<i64>)
        ensures
            match offset {
                Some(o) => o == self.offset(),
                None => self.offset() < i64::MIN || self.offset() > i64::MAX,
            },
    {
        self.frequency.checked_sub(self.tuned_frequency)
    }
}

/// What the host answers on the control channel.
#[derive(Debug, PartialEq, Eq)]
pub enum CommandResponse {
    Receivers { receivers: Vec<Receiver> },
    Version(Version),
    Radios { radios: Vec<Radio> },
    Spots { spots: Vec<Spot> },
    ReceiverResponse { id: u32, mode: Mode, frequency: i64, filter_low: i64, filter_high: i64 },
}

/// What the client asks of the host on the control channel.
#[derive(Debug, PartialEq, Eq)]
pub enum Command {
    GetReceivers,
    SetFrequency { frequency: i32, id: u32 },
    SetMode { mode: Mode, id: u32 },
    GetVersion,
    GetRadios,
    AddReceiver { id: u32 },
    RemoveReceiver { id: u32 },
    SetRunning { id: u32, running: bool },
    SubscribeToSpots { enable: bool },
    SubscribeToAudio { rx_id: u32, enable: bool },
    SubscribeToSpectrum { rx_id: u32, enable: bool },
}

} // verus!

//! Callsigns with their enrichment, and the entries of an imported log.

use vstd::prelude::*;

verus! {

/// Registration of a callsign with Logbook of The World.
#[derive(Debug, PartialEq, Eq)]
pub enum LoTWStatus {
    Registered,
    Unregistered,
    Unknown,
    /// Registered, with the date of the last upload as the registry gives it.
    LastUpload(String),
}

impl Clone for LoTWStatus {
    fn clone(&self) -> (copy: Self)
        ensures
            copy == *self,
    {
        match self {
            LoTWStatus::Registered => LoTWStatus::Registered,
            LoTWStatus::Unregistered => LoTWStatus::Unregistered,
            LoTWStatus::Unknown => LoTWStatus::Unknown,
            LoTWStatus::LastUpload(date) => LoTWStatus::LastUpload(date.clone()),
        }
    }
}

impl LoTWStatus {
    /// The callsign is known to the registry.
    pub open spec fn registered(self) -> bool {
        self is Registered || self is LastUpload
    }

    pub fn is_registered(&self) -> (yes: bool)
        ensures
            yes == self.registered(),
    {
        match self {
            LoTWStatus::Registered => true,
            LoTWStatus::LastUpload(_) => true,
            _ => false,
        }
    }
}

/// The country a callsign is issued in. Only the United States carry the
/// registry data that justifies a lookup per callsign, so they stand apart;
/// every other country is known by its name.
#[derive(Debug, PartialEq, Eq)]
pub enum Country {
    UnitedStates,
    Other(String),
}

impl Clone for Country {
    fn clone(&self) -> (copy: Self)
        ensures
            copy == *self,
    {
        match self {
            Country::UnitedStates => Country::UnitedStates,
            Country::Other(name) => Country::Other(name.clone()),
        }
    }
}

impl Country {
    /// Two values name the same country.
    pub open spec fn same(self, other: Country) -> bool {
        match (self, other) {
            (Country::UnitedStates, Country::UnitedStates) => true,
            (Country::Other(a), Country::Other(b)) => a@ == b@,
            _ => false,
        }
    }

    pub fn is_same(&self, other: &Country) -> (yes: bool)
        ensures
            yes == self.same(*other),
    {
        match (self, other) {
            (Country::UnitedStates, Country::UnitedStates) => true,
            (Country::Other(a), Country::Other(b)) => *a == *b,
            _ => false,
        }
    }
}

/// Two optional countries are both known and the same.
pub open spec fn same_country(a: Option<Country>, b: Option<Country>) -> bool {
    a matches Some(x) && b matches Some(y) && x.same(y)
}

pub fn is_same_country(a: &Option<Country>, b: &Option<Country>) -> (yes: bool)
    ensures
        yes == same_country(*a, *b),
{
    match (a, b) {
        (Some(x), Some(y)) => x.is_same(y),
        _ => false,
    }
}

/// Copies an optional string.
pub fn clone_text(text: &Option<String>) -> (copy: Option<String>)
    ensures
        copy == *text,
{
    match text {
        Some(s) => Some(s.clone()),
        None => None,
    }
}

/// Two optional strings are both present and hold the same characters.
pub open spec fn same_text(a: Option<String>, b: Option<String>) -> bool {
    a matches Some(x) && b matches Some(y) && x@ == y@
}

pub fn is_same_text(a: &Option<String>, b: &Option<String>) -> (yes: bool)
    ensures
        yes == same_text(*a, *b),
{
    match (a, b) {
        (Some(x), Some(y)) => *x == *y,
        _ => false,
    }
}

/// A callsign and what is known of its holder.
#[derive(Debug, PartialEq, Eq)]
pub struct Call {
    /// The normalized callsign; the key of every per-callsign table.
    pub call: String,
    /// `None` where the callsign maps to no country.
    pub country: Option<Country>,
    /// The prefix under which the lookup service files the callsign.
    pub prefix: Option<String>,
    pub state: Option<String>,
    pub op: Option<String>,
    pub lotw: LoTWStatus,
}

impl Clone for Call {
    fn clone(&self) -> (copy: Self)
        ensures
            copy == *self,
    {
        Call {
            call: self.call.clone(),
            country: match &self.country {
                Some(c) => Some(c.clone()),
                None => None,
            },
            prefix: clone_text(&self.prefix),
            state: clone_text(&self.state),
            op: clone_text(&self.op),
            lotw: self.lotw.clone(),
        }
    }
}

impl Call {
    /// A callsign as first seen: country and prefix as derived from its
    /// text, nothing else known.
    pub fn new(call: String, country: Option<Country>, prefix: Option<String>) -> (made: Call)
        ensures
            made == (Call { call, country, prefix, state: None, op: None, lotw: LoTWStatus::Unknown }),
    {
        Call { call, country, prefix, state: None, op: None, lotw: LoTWStatus::Unknown }
    }

    /// The key of this callsign in the per-callsign tables.
    pub open spec fn key(self) -> Seq<char> {
        self.call@
    }

    pub open spec fn united_states(self) -> bool {
        self.country == Some(Country::UnitedStates)
    }

    /// The same callsign with another registration status.
    pub open spec fn with_lotw(self, lotw: LoTWStatus) -> Call {
        Call { lotw, ..self }
    }

    pub fn call(&self) -> (text: String)
        ensures
            text == self.call,
    {
        self.call.clone()
    }

    pub fn is_united_states(&self) -> (yes: bool)
        ensures
            yes == self.united_states(),
    {
        match &self.country {
            Some(Country::UnitedStates) => true,
            _ => false,
        }
    }

    pub fn country(&self) -> (country: &Option<Country>)
        ensures
            *country == self.country,
    {
        &self.country
    }

    pub fn prefix(&self) -> (prefix: Option<String>)
        ensures
            prefix == self.prefix,
    {
        clone_text(&self.prefix)
    }

    pub fn state(&self) -> (state: Option<String>)
        ensures
            state == self.state,
    {
        clone_text(&self.state)
    }

    pub fn op(&self) -> (op: Option<String>)
        ensures
            op == self.op,
    {
        clone_text(&self.op)
    }

    pub fn lotw(&self) -> (lotw: LoTWStatus)
        ensures
            lotw == self.lotw,
    {
        self.lotw.clone()
    }

    pub fn set_lotw(&mut self, lotw: LoTWStatus)
        ensures
            *final(self) == old(self).with_lotw(lotw),
    {
        self.lotw = lotw;
    }
}

/// One contact of the imported log.
#[derive(Debug, PartialEq, Eq)]
pub struct LogEntry {
    pub call: Call,
    /// The contact is confirmed through Logbook of The World.
    pub lotw_qsl_rcvd: bool,
}

impl Clone for LogEntry {
    fn clone(&self) -> (copy: Self)
        ensures
            copy == *self,
    {
        LogEntry { call: self.call.clone(), lotw_qsl_rcvd: self.lotw_qsl_rcvd }
    }
}

/// The log as contracts see it.
pub open spec fn log_view(logs: Option<Vec<LogEntry>>) -> Option<Seq<LogEntry>> {
    match logs {
        Some(entries) => Some(entries@),
        None => None,
    }
}

/// Some contact of the log was made with a station in `state`.
pub open spec fn state_worked(logs: Seq<LogEntry>, state: Option<String>) -> bool {
    exists|i: int| 0 <= i < logs.len() && same_text(#[trigger] logs[i].call.state, state)
}

/// Some contact of the log was made with a station in `country`.
pub open spec fn country_worked(logs: Seq<LogEntry>, country: Option<Country>) -> bool {
    exists|i: int| 0 <= i < logs.len() && same_country(#[trigger] logs[i].call.country, country)
}

pub fn is_state_worked(logs: &Vec<LogEntry>, state: &Option<String>) -> (yes: bool)
    ensures
        yes == state_worked(logs@, *state),
{
    let mut i: usize = 0;
    while i < logs.len()
        invariant
            i <= logs.len(),
            forall|j: int| 0 <= j < i ==> !same_text(#[trigger] logs[j].call.state, *state),
        decreases logs.len() - i,
    {
        if is_same_text(&logs[i].call.state, state) {
            return true;
        }
        i += 1;
    }
    false
}

pub fn is_country_worked(logs: &Vec<LogEntry>, country: &Option<Country>) -> (yes: bool)
    ensures
        yes == country_worked(logs@, *country),
{
    let mut i: usize = 0;
    while i < logs.len()
        invariant
            i <= logs.len(),
            forall|j: int| 0 <= j < i ==> !same_country(#[trigger] logs[j].call.country, *country),
        decreases logs.len() - i,
    {
        if is_same_country(&logs[i].call.country, country) {
            return true;
        }
        i += 1;
    }
    false
}

} // verus!

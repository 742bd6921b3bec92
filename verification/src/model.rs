//! The client as a whole: what it knows of the host, and what each message
//! does to it.
//!
//! The client performs nothing itself. Every message is answered with the
//! [`Action`]s that are to be carried out: commands for the host, requests,
//! and what the map, the waterfall and the audio output are to be told.

use vstd::prelude::*;
use crate::audio::{AudioProvider, AudioView, ScheduledChunk};
use crate::call::{Call, LoTWStatus, LogEntry, country_worked, log_view, state_worked};
use crate::spark::{Command, CommandResponse, Mode, Radio, Receiver, Spot, Version};
use crate::spectrum::{
    SpectrumOutcome,
    SpectrumProvider,
    SpectrumView,
    WaterfallRow,
    row_levels,
    row_pixels,
};
use crate::spot::{
    Admission,
    LookupRequest,
    MarkerEvent,
    SpotDB,
    SpotDbView,
    SpotFilter,
    SpotOutcome,
    StatesOverlayUpdate,
    ranked,
};

verus! {

pub const LOGBOOK_KEY: &'static str = "radio.logs";

/// Where the host listens unless told otherwise.
pub const DEFAULT_WS_LOCATION: &'static str = "ws://localhost:4649/Spark";

/// The spots that the history keeps.
pub const SPOT_LIMIT: usize = 100;

/// The pages of the client.
#[derive(Debug, Clone, Copy, PartialEq, Eq, Structural)]
pub enum AppRoute {
    WorldMap,
    Index,
}

/// A binary frame with its numbers read.
#[derive(Debug, PartialEq, Eq)]
pub enum BinaryFrame {
    /// An audio chunk that arrived at frame `now` of the output clock.
    Audio { now: u64 },
    /// A spectrum frame of a receiver: its levels and the span they cover.
    Spectrum { receiver_id: u32, bins: Vec<i32>, start: i64, stop: i64 },
    /// A frame of another type.
    Unsupported(u8),
}

/// What the frequency scale of the waterfall is set up with.
#[derive(Debug, PartialEq, Eq)]
pub struct WaterfallNav {
    pub mode: String,
    pub frequency: i64,
    pub filter_high: i64,
    pub filter_low: i64,
}

/// The states of the log for the map: all that were worked, and those
/// confirmed through Logbook of The World.
#[derive(Debug, PartialEq, Eq)]
pub struct StateMapUpdate {
    pub worked_states: Vec<String>,
    pub lotw_states: Vec<String>,
}

/// What is to be carried out for the client.
#[derive(Debug, PartialEq, Eq)]
pub enum Action {
    /// Send the command to the host.
    Send(Command),
    /// Open the channel to the address.
    OpenSocket(String),
    /// Show the page.
    SetRoute(AppRoute),
    /// Fetch the list of Logbook of The World users.
    FetchLotwUsers,
    /// Fetch the outlines of the states.
    FetchStatesOverlay,
    /// Look a callsign up.
    Lookup(LookupRequest),
    /// Put a marker on the map.
    Marker(MarkerEvent),
    /// Tell the map of the state outlines.
    StatesOverlay(StatesOverlayUpdate),
    /// Tell the map of the states of the log.
    StateMap(StateMapUpdate),
    /// Set the frequency scale of the waterfall up, or clear it.
    WaterfallNav(Option<WaterfallNav>),
    /// Draw a line of the waterfall.
    Waterfall(WaterfallRow),
    /// Decode the chunk and play it at its place.
    Play(ScheduledChunk),
    /// Apply the gain to the output path.
    Gain(u32),
    /// Store the filters, in this order.
    StoreFilters(Vec<SpotFilter>),
    /// Store the list of users.
    StoreLotwUsers(String),
    /// Store the state outlines.
    StoreStatesOverlay(String),
    /// Store the log.
    StoreLog,
}

/// A line of the waterfall as contracts see it.
pub struct WaterfallRowView {
    pub levels: Seq<u8>,
    pub pixels: Seq<u8>,
    pub span: Option<(i64, i64)>,
}

/// An action as contracts see it.
pub enum ActionView {
    Send(Command),
    OpenSocket(Seq<char>),
    SetRoute(AppRoute),
    FetchLotwUsers,
    FetchStatesOverlay,
    Lookup(LookupRequest),
    Marker(MarkerEvent),
    StatesOverlay(StatesOverlayUpdate),
    StateMap(Seq<String>, Seq<String>),
    WaterfallNav(Option<WaterfallNav>),
    Waterfall(WaterfallRowView),
    Play(ScheduledChunk),
    Gain(u32),
    StoreFilters(Seq<SpotFilter>),
    StoreLotwUsers(String),
    StoreStatesOverlay(String),
    StoreLog,
}

impl View for Action {
    type V = ActionView;

    open spec fn view(&self) -> ActionView {
        match *self {
            Action::Send(command) => ActionView::Send(command),
            Action::OpenSocket(address) => ActionView::OpenSocket(address@),
            Action::SetRoute(route) => ActionView::SetRoute(route),
            Action::FetchLotwUsers => ActionView::FetchLotwUsers,
            Action::FetchStatesOverlay => ActionView::FetchStatesOverlay,
            Action::Lookup(request) => ActionView::Lookup(request),
            Action::Marker(marker) => ActionView::Marker(marker),
            Action::StatesOverlay(update) => ActionView::StatesOverlay(update),
            Action::StateMap(update) => ActionView::StateMap(update.worked_states@, update.lotw_states@),
            Action::WaterfallNav(nav) => ActionView::WaterfallNav(nav),
            Action::Waterfall(row) => ActionView::Waterfall(
                WaterfallRowView { levels: row.levels@, pixels: row.pixels@, span: row.span },
            ),
            Action::Play(chunk) => ActionView::Play(chunk),
            Action::Gain(gain) => ActionView::Gain(gain),
            Action::StoreFilters(filters) => ActionView::StoreFilters(filters@),
            Action::StoreLotwUsers(users) => ActionView::StoreLotwUsers(users),
            Action::StoreStatesOverlay(overlay) => ActionView::StoreStatesOverlay(overlay),
            Action::StoreLog => ActionView::StoreLog,
        }
    }
}

/// A list of actions as contracts see it.
pub open spec fn actions_view(actions: Seq<Action>) -> Seq<ActionView> {
    Seq::new(actions.len(), |i: int| actions[i]@)
}

/// `at` is the first place at which `flags` holds true.
pub open spec fn first_at(flags: Seq<bool>, at: int) -> bool {
    &&& 0 <= at < flags.len()
    &&& flags[at]
    &&& forall|before: int| 0 <= before < at ==> !flags[before]
}

/// The first place at which `flags` holds true, if there is one.
pub open spec fn first_true(flags: Seq<bool>) -> Option<int> {
    if exists|at: int| first_at(flags, at) {
        Some(choose|at: int| first_at(flags, at))
    } else {
        None
    }
}

/// For each receiver, whether it has the id.
pub open spec fn receivers_with(receivers: Seq<Receiver>, id: u32) -> Seq<bool> {
    Seq::new(receivers.len(), |i: int| receivers[i].id == id)
}

/// For each radio, whether it has the id.
pub open spec fn radios_with(radios: Seq<Radio>, id: u32) -> Seq<bool> {
    Seq::new(radios.len(), |i: int| radios[i].id == id)
}

/// For each receiver, whether it heard the spot.
pub open spec fn receivers_hearing(receivers: Seq<Receiver>, spot: Spot) -> Seq<bool> {
    Seq::new(receivers.len(), |i: int| spot.heard_by(receivers[i]))
}

/// The place of the first receiver with the id, if there is one.
pub open spec fn receiver_at(receivers: Seq<Receiver>, id: u32) -> Option<int> {
    first_true(receivers_with(receivers, id))
}

/// The place of the first radio with the id, if there is one.
pub open spec fn radio_at(radios: Seq<Radio>, id: u32) -> Option<int> {
    first_true(radios_with(radios, id))
}

/// What `first_true` gives is a place that holds true, and the first; it
/// gives none only where no place holds true.
pub proof fn lemma_first_true(flags: Seq<bool>)
    ensures
        first_true(flags) matches Some(at) ==> first_at(flags, at),
        first_true(flags) is None ==> forall|at: int| 0 <= at < flags.len() ==> !flags[at],
        forall|at: int| first_at(flags, at) ==> first_true(flags) == Some(at),
{
    if first_true(flags) is None {
        assert forall|at: int| 0 <= at < flags.len() implies !flags[at] by {
            if flags[at] {
                lemma_first_exists(flags, at);
            }
        }
    }
    assert forall|at: int| first_at(flags, at) implies first_true(flags) == Some(at) by {
        let chosen = choose|c: int| first_at(flags, c);
        assert(first_at(flags, chosen));
    }
}

/// Where some place holds true, a first place does.
proof fn lemma_first_exists(flags: Seq<bool>, at: int)
    requires
        0 <= at < flags.len(),
        flags[at],
    ensures
        exists|first: int| first_at(flags, first),
    decreases at,
{
    if forall|before: int| 0 <= before < at ==> !flags[before] {
        assert(first_at(flags, at));
    } else {
        let before = choose|before: int| 0 <= before < at && flags[before];
        lemma_first_exists(flags, before);
    }
}

/// The states of the contacts with the United States, in the order of the
/// log; with `confirmed`, of those confirmed through Logbook of The World
/// only.
pub open spec fn states_of(logs: Seq<LogEntry>, confirmed: bool) -> Seq<String>
    decreases logs.len(),
{
    if logs.len() == 0 {
        Seq::empty()
    } else {
        let entry = logs.last();
        let rest = states_of(logs.drop_last(), confirmed);
        if entry.call.united_states() && entry.call.state is Some && (!confirmed || entry.lotw_qsl_rcvd) {
            rest.push(entry.call.state->0)
        } else {
            rest
        }
    }
}

/// The step by which a digit of the frequency display changes the
/// frequency: the leftmost of nine digits by a hundred million hertz, the
/// rightmost by one.
pub open spec fn digit_step(digit: i32) -> int {
    if digit == 0 {
        100_000_000
    } else if digit == 1 {
        10_000_000
    } else if digit == 2 {
        1_000_000
    } else if digit == 3 {
        100_000
    } else if digit == 4 {
        10_000
    } else if digit == 5 {
        1_000
    } else if digit == 6 {
        100
    } else if digit == 7 {
        10
    } else if digit == 8 {
        1
    } else {
        0
    }
}

/// A frequency as a command carries it: held within the 32-bit range.
pub open spec fn wire_frequency(frequency: int) -> i32 {
    if frequency < i32::MIN {
        i32::MIN
    } else if frequency > i32::MAX {
        i32::MAX
    } else {
        frequency as i32
    }
}

/// A frequency moved by `step`, unless that leaves the 64-bit range.
pub open spec fn stepped(frequency: i64, step: int) -> i64 {
    if i64::MIN <= frequency + step <= i64::MAX {
        (frequency + step) as i64
    } else {
        frequency
    }
}

/// What sets the waterfall's scale up for a receiver.
pub open spec fn nav_of(receiver: Receiver) -> WaterfallNav {
    WaterfallNav {
        mode: receiver.mode.name,
        frequency: receiver.frequency,
        filter_high: receiver.filter_high,
        filter_low: receiver.filter_low,
    }
}

/// The actions that follow from what a spot met in the database.
pub open spec fn outcome_actions(outcome: SpotOutcome) -> Seq<ActionView> {
    match outcome {
        SpotOutcome::Queued(Some(request)) => seq![ActionView::Lookup(request)],
        SpotOutcome::Settled(admission) => admission_actions(admission),
        _ => Seq::empty(),
    }
}

/// The actions that follow from an admission.
pub open spec fn admission_actions(admission: Admission) -> Seq<ActionView> {
    match admission {
        Admission::Admitted(Some(marker)) => seq![ActionView::Marker(marker)],
        _ => Seq::empty(),
    }
}

/// The actions that follow from the admissions of a flushed queue.
pub open spec fn flush_actions(admissions: Seq<Admission>) -> Seq<ActionView>
    decreases admissions.len(),
{
    if admissions.len() == 0 {
        Seq::empty()
    } else {
        flush_actions(admissions.drop_last()) + admission_actions(admissions.last())
    }
}

/// A message to the client.
#[derive(Debug, PartialEq, Eq)]
pub enum Msg {
    RouteChanged(AppRoute),
    ChangeRoute(AppRoute),
    Connect,
    Disconnected,
    Connected,
    UpdateWebsocketAddress(String),
    /// An answer of the host, or why it could not be read.
    CommandResponse(Result<CommandResponse, String>),
    ReceivedAudio(BinaryFrame),
    /// A step up of the digit of a receiver's frequency display.
    FrequencyUp(u32, i32),
    /// A step down of the digit of a receiver's frequency display.
    FrequencyDown(u32, i32),
    ModeChanged(u32, Mode),
    AddReceiver(u32),
    RemoveReceiver(u32),
    TogglePower(u32),
    SetDefaultReceiver(u32),
    EnableAudio,
    ToggleReceiverList,
    Idle,
    /// The contacts read from a log file.
    Loaded(Vec<LogEntry>),
    CancelImport,
    ConfirmImport,
    SetGain(u32),
    MuteUnmute,
    ClearSpots,
    /// The answer to a lookup, or why it could not be read.
    CallsignInfoReady(Result<Call, String>),
    LotwUsers(String),
    StatesOverlay(String),
    ToggleCQSpotFilter,
    ToggleStateSpotFilter,
    ToggleCountrySpotFilter,
    ToggleCurrentReceiverSpotFilter,
    ToggleLoTWSpotFilter,
}

/// What a message leaves to do.
#[derive(Debug, PartialEq, Eq)]
pub struct Update {
    /// The page is to be drawn again.
    pub render: bool,
    pub actions: Vec<Action>,
}

/// The client as contracts see it.
pub struct ModelView {
    pub route: AppRoute,
    pub ws_location: Seq<char>,
    pub connected: bool,
    pub receivers: Seq<Receiver>,
    pub radios: Seq<Radio>,
    pub version: Option<Version>,
    pub default_receiver: Option<u32>,
    pub spots: SpotDbView,
    pub audio: AudioView,
    pub spectrum: SpectrumView,
    pub show_receiver_list: bool,
    pub import: Option<Seq<LogEntry>>,
}

/// A client after a message, with what the message leaves to do.
pub struct Step {
    pub model: ModelView,
    pub actions: Seq<ActionView>,
}

impl ModelView {
    /// Nothing changes and nothing is to do.
    pub open spec fn idle(self) -> Step {
        Step { model: self, actions: Seq::empty() }
    }

    /// A command goes out while the channel is open, and is dropped else.
    pub open spec fn send(self, command: Command) -> Seq<ActionView> {
        if self.connected {
            seq![ActionView::Send(command)]
        } else {
            Seq::empty()
        }
    }

    /// The receiver that the client shows, if it is still listed.
    pub open spec fn shown_receiver(self) -> Option<Receiver> {
        match self.default_receiver {
            Some(id) => match receiver_at(self.receivers, id) {
                Some(at) => Some(self.receivers[at]),
                None => None,
            },
            None => None,
        }
    }

    /// The commands that end the present audio subscription.
    pub open spec fn audio_off(self) -> Seq<ActionView> {
        match self.audio.subscribed {
            Some(previous) => self.send(Command::SubscribeToAudio { rx_id: previous, enable: false }),
            None => Seq::empty(),
        }
    }

    /// The audio follows the shown receiver.
    pub open spec fn subscribe_to_audio(self) -> Step {
        match self.shown_receiver() {
            Some(receiver) => Step {
                model: ModelView { audio: self.audio.set_subscribed(Some(receiver.id)), ..self },
                actions: self.audio_off() + self.send(
                    Command::SubscribeToAudio { rx_id: receiver.id, enable: true },
                ),
            },
            None => Step {
                model: ModelView { audio: self.audio.set_subscribed(None), ..self },
                actions: self.audio_off(),
            },
        }
    }

    pub open spec fn unsubscribe_to_audio(self) -> Step {
        Step {
            model: ModelView { audio: self.audio.set_subscribed(None), ..self },
            actions: self.audio_off(),
        }
    }

    /// The commands that end the present spectrum subscription.
    pub open spec fn spectrum_off(self) -> Seq<ActionView> {
        match self.spectrum.subscribed {
            Some(previous) => self.send(Command::SubscribeToSpectrum { rx_id: previous, enable: false }),
            None => Seq::empty(),
        }
    }

    /// Another receiver is shown: the spectrum moves to it, and the audio
    /// where it plays. An id that no receiver has changes nothing but ends
    /// the spectrum subscription at the host.
    pub open spec fn set_default_receiver(self, receiver: Option<u32>) -> Step {
        if self.default_receiver == receiver {
            self.idle()
        } else {
            match receiver {
                Some(id) => match receiver_at(self.receivers, id) {
                    Some(at) => {
                        let moved = ModelView {
                            spectrum: SpectrumView { subscribed: Some(id), ..self.spectrum },
                            default_receiver: Some(id),
                            ..self
                        };
                        let audio = if self.audio.subscribed is Some {
                            moved.subscribe_to_audio()
                        } else {
                            moved.idle()
                        };
                        Step {
                            model: audio.model,
                            actions: self.spectrum_off() + self.send(
                                Command::SubscribeToSpectrum { rx_id: id, enable: true },
                            ) + seq![ActionView::WaterfallNav(Some(nav_of(self.receivers[at])))]
                                + audio.actions,
                        }
                    },
                    None => Step { model: self, actions: self.spectrum_off() },
                },
                None => {
                    let audio = ModelView { default_receiver: None, ..self }.unsubscribe_to_audio();
                    Step {
                        model: audio.model,
                        actions: self.spectrum_off() + audio.actions + seq![ActionView::WaterfallNav(None)],
                    }
                },
            }
        }
    }

    /// The host listed its receivers. Where none is shown yet, the first of
    /// the list is.
    pub open spec fn set_receivers(self, receivers: Seq<Receiver>) -> Step {
        let listed = ModelView { receivers, ..self };
        if self.default_receiver is None && receivers.len() > 0 {
            listed.set_default_receiver(Some(receivers[0].id))
        } else {
            listed.idle()
        }
    }

    /// The host told of a receiver's mode, frequency and filter.
    pub open spec fn update_receiver(
        self,
        id: u32,
        mode: Mode,
        frequency: i64,
        filter_low: i64,
        filter_high: i64,
    ) -> Step {
        match receiver_at(self.receivers, id) {
            Some(at) => {
                let updated = Receiver { id: self.receivers[at].id, mode, frequency, filter_low, filter_high };
                Step {
                    model: ModelView { receivers: self.receivers.update(at, updated), ..self },
                    actions: seq![ActionView::WaterfallNav(Some(nav_of(updated)))],
                }
            },
            None => self.idle(),
        }
    }

    pub open spec fn change_receiver_mode(self, id: u32, mode: Mode) -> Step {
        match receiver_at(self.receivers, id) {
            Some(at) => Step {
                model: ModelView {
                    receivers: self.receivers.update(at, Receiver { mode, ..self.receivers[at] }),
                    ..self
                },
                actions: self.send(Command::SetMode { mode, id }),
            },
            None => self.idle(),
        }
    }

    /// A receiver's frequency moves by `step` and the host is told.
    pub open spec fn retune(self, id: u32, step: int) -> Step {
        match receiver_at(self.receivers, id) {
            Some(at) => {
                let frequency = stepped(self.receivers[at].frequency, step);
                Step {
                    model: ModelView {
                        receivers: self.receivers.update(at, Receiver { frequency, ..self.receivers[at] }),
                        ..self
                    },
                    actions: self.send(
                        Command::SetFrequency { frequency: wire_frequency(frequency as int), id },
                    ),
                }
            },
            None => self.idle(),
        }
    }

    pub open spec fn frequency_up(self, id: u32, digit: i32) -> Step {
        self.retune(id, digit_step(digit))
    }

    pub open spec fn frequency_down(self, id: u32, digit: i32) -> Step {
        self.retune(id, -digit_step(digit))
    }

    /// The channel is lost: what was known of the host is forgotten, and
    /// with it history, queue and cache of the spots.
    pub open spec fn disconnect(self) -> ModelView {
        ModelView {
            connected: false,
            receivers: Seq::empty(),
            radios: Seq::empty(),
            version: None,
            default_receiver: None,
            spots: SpotDbView {
                spots: Seq::empty(),
                pending: Map::empty(),
                callsigns: Map::empty(),
                lotw_requested: false,
                states_requested: false,
                ..self.spots
            },
            ..self
        }
    }

    /// What the map is told of the states of the log.
    pub open spec fn state_map(self) -> ActionView {
        match self.import {
            Some(logs) => ActionView::StateMap(states_of(logs, false), states_of(logs, true)),
            None => ActionView::StateMap(Seq::empty(), Seq::empty()),
        }
    }

    pub open spec fn load_adif_data(self, records: Seq<LogEntry>) -> Step {
        let loaded = ModelView { import: Some(records), ..self };
        Step { model: loaded, actions: seq![ActionView::StoreLog, loaded.state_map()] }
    }

    pub open spec fn clear_adif_data(self) -> Step {
        let cleared = ModelView { import: None, ..self };
        Step { model: cleared, actions: seq![ActionView::StoreLog, cleared.state_map()] }
    }

    /// Whether the radio runs, if it is listed.
    pub open spec fn radio_power(self, id: u32) -> Option<bool> {
        match radio_at(self.radios, id) {
            Some(at) => Some(self.radios[at].running),
            None => None,
        }
    }

    /// A spot of a batch goes on to the database: it is a general call where
    /// only those are wanted, and it was heard by the shown receiver where
    /// only its spots are wanted and it decodes any.
    pub open spec fn passes(self, spot: Spot) -> bool {
        &&& self.spots.enabled(SpotFilter::CQOnly) ==> spot.cq()
        &&& match self.shown_receiver() {
            Some(receiver) => self.spots.enabled(SpotFilter::CurrentReceiver) && receiver.mode.decodes_spots
                ==> spot.heard_by(receiver),
            None => true,
        }
    }

    /// The spots of a batch are handed to the database in order.
    pub open spec fn ingest(self, batch: Seq<Spot>) -> Step
        decreases batch.len(),
    {
        if batch.len() == 0 {
            self.idle()
        } else {
            let before = self.ingest(batch.drop_last());
            let spot = batch.last();
            if self.passes(spot) {
                Step {
                    model: ModelView {
                        spots: before.model.spots.add_spot(spot, self.import),
                        ..before.model
                    },
                    actions: before.actions + outcome_actions(
                        before.model.spots.outcome(spot, self.import),
                    ),
                }
            } else {
                before
            }
        }
    }

    /// A batch of spots is taken in and the history trimmed.
    pub open spec fn add_spots(self, batch: Seq<Spot>) -> Step {
        let taken = self.ingest(batch);
        Step {
            model: ModelView { spots: taken.model.spots.trim_spots(SPOT_LIMIT as nat), ..taken.model },
            actions: taken.actions,
        }
    }

    /// A lookup was answered. A callsign whose registration the answer
    /// leaves open counts as unregistered.
    pub open spec fn callsign_info_ready(self, call: Call) -> Step {
        let settled = if call.lotw is Unknown {
            call.with_lotw(LoTWStatus::Unregistered)
        } else {
            call
        };
        Step {
            model: ModelView { spots: self.spots.cache_callsign_info(settled, self.import), ..self },
            actions: flush_actions(
                self.spots.admissions(self.spots.queue(settled.key()), settled, self.import),
            ),
        }
    }

    /// A binary frame arrived: audio is scheduled while audio is subscribed
    /// to; a spectrum frame is gathered while the spectrum of its receiver
    /// is subscribed to and a receiver is shown; anything else is dropped.
    pub open spec fn received_frame(self, frame: BinaryFrame) -> Step {
        match frame {
            BinaryFrame::Audio { now } if self.audio.subscribed is Some => Step {
                model: ModelView { audio: self.audio.import_audio_data(now), ..self },
                actions: match self.audio.schedule(now) {
                    Some(chunk) => seq![ActionView::Play(chunk)],
                    None => Seq::empty(),
                },
            },
            BinaryFrame::Spectrum { receiver_id, bins, start, stop } if self.spectrum.subscribed is Some
                && self.shown_receiver() is Some => Step {
                model: ModelView {
                    spectrum: self.spectrum.import_spectrum_data(receiver_id, bins@, start, stop),
                    ..self
                },
                actions: if self.spectrum.completes(receiver_id, bins@) {
                    seq![
                        ActionView::Waterfall(
                            WaterfallRowView {
                                levels: row_levels(self.spectrum.buffer.push(bins@)),
                                pixels: row_pixels(
                                    self.spectrum.gradient,
                                    row_levels(self.spectrum.buffer.push(bins@)),
                                ),
                                span: self.spectrum.span_change(start, stop),
                            },
                        ),
                    ]
                } else {
                    Seq::empty()
                },
            },
            _ => self.idle(),
        }
    }

    /// After a filter was switched the filters are to be stored as they are
    /// then.
    pub open spec fn stores_filters(self, filter: SpotFilter) -> Seq<ActionView> {
        seq![ActionView::StoreFilters(ranked(self.toggle_filter(filter).spots.filters))]
    }

    /// A filter is switched: on where it was off, off where it was on.
    pub open spec fn toggle_filter(self, filter: SpotFilter) -> ModelView {
        ModelView {
            spots: SpotDbView {
                filters: if self.spots.enabled(filter) {
                    self.spots.filters.remove(filter)
                } else {
                    self.spots.filters.insert(filter)
                },
                ..self.spots
            },
            ..self
        }
    }

}

/// Whether the page is drawn again after a message.
pub open spec fn render_of(msg: Msg) -> bool {
    match msg {
        Msg::Connected => false,
        Msg::CommandResponse(Err(_)) => false,
        Msg::ReceivedAudio(_) => false,
        Msg::CallsignInfoReady(Err(_)) => false,
        Msg::AddReceiver(_) => false,
        Msg::RemoveReceiver(_) => false,
        Msg::TogglePower(_) => false,
        Msg::StatesOverlay(_) => false,
        Msg::Idle => false,
        _ => true,
    }
}

impl ModelView {
    /// The channel opened: the host is asked for its receivers, radios and
    /// version and for its spots, and the list of users is fetched unless it
    /// is at hand.
    pub open spec fn connected(self) -> Step {
        let asked = self.send(Command::GetReceivers) + self.send(Command::GetRadios) + self.send(
            Command::GetVersion,
        ) + self.send(Command::SubscribeToSpots { enable: true });
        if self.spots.lotw_users is None {
            Step {
                model: ModelView { spots: SpotDbView { lotw_requested: true, ..self.spots }, ..self },
                actions: asked + seq![ActionView::FetchLotwUsers],
            }
        } else {
            Step { model: self, actions: asked }
        }
    }

    /// An answer of the host arrived.
    pub open spec fn command_response(self, response: CommandResponse) -> Step {
        match response {
            CommandResponse::Receivers { receivers } => self.set_receivers(receivers@),
            CommandResponse::Radios { radios } => ModelView { radios: radios@, ..self }.idle(),
            CommandResponse::Version(version) => ModelView { version: Some(version), ..self }.idle(),
            CommandResponse::Spots { spots } => self.add_spots(spots@),
            CommandResponse::ReceiverResponse { id, mode, frequency, filter_low, filter_high } => self.update_receiver(
                id,
                mode,
                frequency,
                filter_low,
                filter_high,
            ),
        }
    }

    /// The power of a radio is switched, where the radio is listed.
    pub open spec fn toggle_power(self, id: u32) -> Seq<ActionView> {
        match self.radio_power(id) {
            Some(running) => self.send(Command::SetRunning { id, running: !running }),
            None => Seq::empty(),
        }
    }

    /// The gain to apply after the audio took `gain`.
    pub open spec fn gain_action(self, gain: u32) -> Seq<ActionView> {
        if self.audio.context {
            seq![ActionView::Gain(gain)]
        } else {
            Seq::empty()
        }
    }

    /// The filter for new states is switched. Switching it on fetches the
    /// state outlines unless they are at hand; either way the map is told.
    pub open spec fn toggle_state_filter(self) -> Step {
        let toggled = self.toggle_filter(SpotFilter::NewState);
        if !self.spots.enabled(SpotFilter::NewState) && self.spots.states_overlay is None {
            let asked = ModelView { spots: SpotDbView { states_requested: true, ..toggled.spots }, ..toggled };
            Step {
                model: asked,
                actions: seq![
                    ActionView::StoreFilters(ranked(asked.spots.filters)),
                    ActionView::FetchStatesOverlay,
                    ActionView::StatesOverlay(asked.spots.overlay_update()),
                ],
            }
        } else {
            Step {
                model: toggled,
                actions: seq![
                    ActionView::StoreFilters(ranked(toggled.spots.filters)),
                    ActionView::StatesOverlay(toggled.spots.overlay_update()),
                ],
            }
        }
    }

    /// The state outlines arrived.
    pub open spec fn import_states_overlay(self, data: String) -> Step {
        let spots = SpotDbView { states_overlay: Some(data), states_requested: false, ..self.spots };
        Step {
            model: ModelView { spots, ..self },
            actions: seq![
                ActionView::StoreStatesOverlay(data),
                ActionView::StatesOverlay(spots.overlay_update()),
            ],
        }
    }

    /// The client after a message, and what the message leaves to do.
    pub open spec fn update(self, msg: Msg) -> Step {
        match msg {
            Msg::Connected => self.connected(),
            Msg::CommandResponse(Ok(response)) => self.command_response(response),
            Msg::CommandResponse(Err(_)) => self.idle(),
            Msg::EnableAudio => if self.audio.subscribed is Some {
                self.unsubscribe_to_audio()
            } else {
                self.subscribe_to_audio()
            },
            Msg::ReceivedAudio(frame) => self.received_frame(frame),
            Msg::MuteUnmute => Step {
                model: ModelView { audio: self.audio.toggle_mute(), ..self },
                actions: self.gain_action(self.audio.toggle_mute().gain),
            },
            Msg::CallsignInfoReady(Ok(call)) => self.callsign_info_ready(call),
            Msg::CallsignInfoReady(Err(_)) => self.idle(),
            Msg::ClearSpots => ModelView {
                spots: SpotDbView { spots: Seq::empty(), pending: Map::empty(), ..self.spots },
                ..self
            }.idle(),
            Msg::SetDefaultReceiver(id) => self.set_default_receiver(Some(id)),
            Msg::AddReceiver(id) => Step { model: self, actions: self.send(Command::AddReceiver { id }) },
            Msg::RemoveReceiver(id) => Step { model: self, actions: self.send(Command::RemoveReceiver { id }) },
            Msg::TogglePower(id) => Step { model: self, actions: self.toggle_power(id) },
            Msg::ToggleReceiverList => ModelView {
                show_receiver_list: !self.show_receiver_list,
                ..self
            }.idle(),
            Msg::ModeChanged(id, mode) => self.change_receiver_mode(id, mode),
            Msg::FrequencyDown(id, digit) => self.frequency_down(id, digit),
            Msg::FrequencyUp(id, digit) => self.frequency_up(id, digit),
            Msg::Connect => Step {
                model: ModelView { connected: true, ..self },
                actions: seq![ActionView::OpenSocket(self.ws_location)],
            },
            Msg::UpdateWebsocketAddress(address) => ModelView { ws_location: address@, ..self }.idle(),
            Msg::Disconnected => self.disconnect().idle(),
            Msg::SetGain(gain) => Step {
                model: ModelView { audio: self.audio.set_gain(gain), ..self },
                actions: self.gain_action(gain),
            },
            Msg::RouteChanged(route) => ModelView { show_receiver_list: false, route, ..self }.idle(),
            Msg::ChangeRoute(route) => Step {
                model: ModelView { show_receiver_list: false, route, ..self },
                actions: seq![ActionView::SetRoute(route)],
            },
            Msg::CancelImport => self.clear_adif_data(),
            Msg::ConfirmImport => self.idle(),
            Msg::Loaded(records) => self.load_adif_data(records@),
            Msg::LotwUsers(users) => Step {
                model: ModelView {
                    spots: SpotDbView { lotw_users: Some(users), lotw_requested: false, ..self.spots },
                    ..self
                },
                actions: seq![ActionView::StoreLotwUsers(users)],
            },
            Msg::StatesOverlay(data) => self.import_states_overlay(data),
            Msg::ToggleCQSpotFilter => Step {
                model: self.toggle_filter(SpotFilter::CQOnly),
                actions: self.stores_filters(SpotFilter::CQOnly),
            },
            Msg::ToggleCountrySpotFilter => Step {
                model: self.toggle_filter(SpotFilter::NewCountry),
                actions: self.stores_filters(SpotFilter::NewCountry),
            },
            Msg::ToggleStateSpotFilter => self.toggle_state_filter(),
            Msg::ToggleCurrentReceiverSpotFilter => Step {
                model: self.toggle_filter(SpotFilter::CurrentReceiver),
                actions: self.stores_filters(SpotFilter::CurrentReceiver),
            },
            Msg::ToggleLoTWSpotFilter => Step {
                model: self.toggle_filter(SpotFilter::LoTW),
                actions: self.stores_filters(SpotFilter::LoTW),
            },
            Msg::Idle => self.idle(),
        }
    }
}

/// The client.
pub struct Model {
    route: AppRoute,
    /// Where the host listens.
    ws_location: String,
    connected: bool,
    receivers: Vec<Receiver>,
    radios: Vec<Radio>,
    version: Option<Version>,
    default_receiver: Option<u32>,
    spots: SpotDB,
    audio: AudioProvider,
    spectrum: SpectrumProvider,
    show_receiver_list: bool,
    /// The imported log that spots are checked against.
    import: Option<Vec<LogEntry>>,
}

impl View for Model {
    type V = ModelView;

    closed spec fn view(&self) -> ModelView {
        ModelView {
            route: self.route,
            ws_location: self.ws_location@,
            connected: self.connected,
            receivers: self.receivers@,
            radios: self.radios@,
            version: self.version,
            default_receiver: self.default_receiver,
            spots: self.spots@,
            audio: self.audio@,
            spectrum: self.spectrum@,
            show_receiver_list: self.show_receiver_list,
            import: log_view(self.import),
        }
    }
}

/// One action.
fn one(action: Action) -> (actions: Vec<Action>)
    ensures
        actions_view(actions@) == seq![action@],
{
    let mut actions: Vec<Action> = Vec::new();
    actions.push(action);
    actions
}

/// No action.
fn none() -> (actions: Vec<Action>)
    ensures
        actions_view(actions@) == Seq::<ActionView>::empty(),
{
    Vec::new()
}

/// Puts `more` behind `actions`.
fn join(actions: Vec<Action>, more: Vec<Action>) -> (all: Vec<Action>)
    ensures
        actions_view(all@) == actions_view(actions@) + actions_view(more@),
{
    let mut all = actions;
    let mut rest = more;
    all.append(&mut rest);
    all
}

fn find_receiver(receivers: &Vec<Receiver>, id: u32) -> (at: Option<usize>)
    ensures
        match at {
            Some(i) => i < receivers.len() && receivers[i as int].id == id && receiver_at(receivers@, id)
                == Some(i as int),
            None => receiver_at(receivers@, id) is None,
        },
{
    let ghost flags = receivers_with(receivers@, id);
    let mut i: usize = 0;
    while i < receivers.len()
        invariant
            i <= receivers.len(),
            flags == receivers_with(receivers@, id),
            forall|j: int| 0 <= j < i ==> !flags[j],
        decreases receivers.len() - i,
    {
        if receivers[i].id == id {
            proof {
                assert(first_at(flags, i as int));
                lemma_first_true(flags);
            }
            return Some(i);
        }
        i += 1;
    }
    None
}

fn find_radio(radios: &Vec<Radio>, id: u32) -> (at: Option<usize>)
    ensures
        match at {
            Some(i) => i < radios.len() && radios[i as int].id == id && radio_at(radios@, id) == Some(
                i as int,
            ),
            None => radio_at(radios@, id) is None,
        },
{
    let ghost flags = radios_with(radios@, id);
    let mut i: usize = 0;
    while i < radios.len()
        invariant
            i <= radios.len(),
            flags == radios_with(radios@, id),
            forall|j: int| 0 <= j < i ==> !flags[j],
        decreases radios.len() - i,
    {
        if radios[i].id == id {
            proof {
                assert(first_at(flags, i as int));
                lemma_first_true(flags);
            }
            return Some(i);
        }
        i += 1;
    }
    None
}

fn find_hearing(receivers: &Vec<Receiver>, spot: &Spot) -> (at: Option<usize>)
    ensures
        match at {
            Some(i) => i < receivers.len() && first_true(receivers_hearing(receivers@, *spot)) == Some(
                i as int,
            ),
            None => first_true(receivers_hearing(receivers@, *spot)) is None,
        },
{
    let ghost flags = receivers_hearing(receivers@, *spot);
    let mut i: usize = 0;
    while i < receivers.len()
        invariant
            i <= receivers.len(),
            flags == receivers_hearing(receivers@, *spot),
            forall|j: int| 0 <= j < i ==> !flags[j],
        decreases receivers.len() - i,
    {
        if spot.current_rx(&receivers[i]) {
            proof {
                assert(first_at(flags, i as int));
                lemma_first_true(flags);
            }
            return Some(i);
        }
        i += 1;
    }
    None
}

/// The step of a digit of the frequency display.
fn step_of(digit: i32) -> (step: i64)
    ensures
        step == digit_step(digit),
{
    if digit == 0 {
        100_000_000
    } else if digit == 1 {
        10_000_000
    } else if digit == 2 {
        1_000_000
    } else if digit == 3 {
        100_000
    } else if digit == 4 {
        10_000
    } else if digit == 5 {
        1_000
    } else if digit == 6 {
        100
    } else if digit == 7 {
        10
    } else if digit == 8 {
        1
    } else {
        0
    }
}

/// A frequency as a command carries it.
fn frequency_on_wire(frequency: i64) -> (wire: i32)
    ensures
        wire == wire_frequency(frequency as int),
{
    if frequency < i32::MIN as i64 {
        i32::MIN
    } else if frequency > i32::MAX as i64 {
        i32::MAX
    } else {
        frequency as i32
    }
}

/// The states of the contacts with the United States.
fn states_in(logs: &Vec<LogEntry>, confirmed: bool) -> (states: Vec<String>)
    ensures
        states@ == states_of(logs@, confirmed),
{
    let mut states: Vec<String> = Vec::new();
    let mut i: usize = 0;
    while i < logs.len()
        invariant
            i <= logs.len(),
            states@ == states_of(logs@.take(i as int), confirmed),
        decreases logs.len() - i,
    {
        assert(logs@.take(i + 1).drop_last() =~= logs@.take(i as int));
        let entry = &logs[i];
        if entry.call.is_united_states() && (!confirmed || entry.lotw_qsl_rcvd) {
            match &entry.call.state {
                Some(state) => {
                    states.push(state.clone());
                },
                None => {},
            }
        }
        i += 1;
    }
    assert(logs@.take(logs.len() as int) =~= logs@);
    states
}

/// The actions that follow from what a spot met in the database.
fn actions_of_outcome(outcome: SpotOutcome) -> (actions: Vec<Action>)
    ensures
        actions_view(actions@) == outcome_actions(outcome),
{
    match outcome {
        SpotOutcome::Queued(Some(request)) => one(Action::Lookup(request)),
        SpotOutcome::Queued(None) => none(),
        SpotOutcome::Settled(admission) => actions_of_admission(admission),
    }
}

fn actions_of_admission(admission: Admission) -> (actions: Vec<Action>)
    ensures
        actions_view(actions@) == admission_actions(admission),
{
    match admission {
        Admission::Admitted(Some(marker)) => one(Action::Marker(marker)),
        _ => none(),
    }
}

impl Model {
    /// A client that is not connected, on the page `route`, over the log
    /// and the spot database that the store held. The map is to be told of
    /// the state outlines and of the states of the log.
    pub fn new(route: AppRoute, import: Option<Vec<LogEntry>>, spots: SpotDB) -> (made: (Model, Vec<Action>))
        ensures
            made.0@.route == route,
            made.0@.ws_location == DEFAULT_WS_LOCATION@,
            !made.0@.connected,
            made.0@.receivers == Seq::<Receiver>::empty(),
            made.0@.radios == Seq::<Radio>::empty(),
            made.0@.version is None,
            made.0@.default_receiver is None,
            made.0@.spots == spots@,
            made.0@.audio == AudioView::fresh(),
            made.0@.spectrum == SpectrumView::fresh(),
            !made.0@.show_receiver_list,
            made.0@.import == log_view(import),
            actions_view(made.1@) == seq![
                ActionView::StatesOverlay(spots@.overlay_update()),
                made.0@.state_map(),
            ],
    {
        let audio = AudioProvider::new();
        let spectrum = SpectrumProvider::new();
        let model = Model {
            route,
            ws_location: DEFAULT_WS_LOCATION.to_owned(),
            connected: false,
            receivers: Vec::new(),
            radios: Vec::new(),
            version: None,
            default_receiver: None,
            spots,
            audio,
            spectrum,
            show_receiver_list: false,
            import,
        };
        let overlay = one(Action::StatesOverlay(model.spots.update_states_overlay_js()));
        let states = one(Action::StateMap(model.update_state_map_overlay()));
        let actions = join(overlay, states);
        (model, actions)
    }

    /// The states of the log for the map.
    pub fn update_state_map_overlay(&self) -> (update: StateMapUpdate)
        ensures
            Action::StateMap(update)@ == self@.state_map(),
    {
        match &self.import {
            Some(logs) => StateMapUpdate {
                worked_states: states_in(logs, false),
                lotw_states: states_in(logs, true),
            },
            None => StateMapUpdate { worked_states: Vec::new(), lotw_states: Vec::new() },
        }
    }

    /// The command as an action while the channel is open; nothing else.
    pub fn send_command(&self, cmd: Command) -> (actions: Vec<Action>)
        ensures
            actions_view(actions@) == self@.send(cmd),
    {
        if self.connected {
            one(Action::Send(cmd))
        } else {
            none()
        }
    }

    /// Takes the list of receivers of the host.
    pub fn set_receivers(&mut self, receivers: Vec<Receiver>) -> (actions: Vec<Action>)
        ensures
            final(self)@ == old(self)@.set_receivers(receivers@).model,
            actions_view(actions@) == old(self)@.set_receivers(receivers@).actions,
    {
        self.receivers = receivers;
        if self.default_receiver.is_none() && self.receivers.len() > 0 {
            let first = self.receivers[0].id;
            self.set_default_receiver(Some(first))
        } else {
            none()
        }
    }

    /// The receiver that the client shows, if it is still listed.
    pub fn default_receiver(&self) -> (receiver: Option<Receiver>)
        ensures
            receiver == self@.shown_receiver(),
    {
        match self.default_receiver {
            Some(id) => match find_receiver(&self.receivers, id) {
                Some(at) => Some(self.receivers[at].clone()),
                None => None,
            },
            None => None,
        }
    }

    pub fn set_radios(&mut self, radios: Vec<Radio>)
        ensures
            final(self)@ == (ModelView { radios: radios@, ..old(self)@ }),
    {
        self.radios = radios;
    }

    pub fn set_version(&mut self, version: Version)
        ensures
            final(self)@ == (ModelView { version: Some(version), ..old(self)@ }),
    {
        self.version = Some(version);
    }

    /// Takes what the host told of a receiver; the waterfall's scale is set
    /// up for it.
    pub fn update_receiver(
        &mut self,
        receiver_id: u32,
        mode: Mode,
        frequency: i64,
        filter_low: i64,
        filter_high: i64,
    ) -> (actions: Vec<Action>)
        ensures
            final(self)@ == old(self)@.update_receiver(receiver_id, mode, frequency, filter_low, filter_high).model,
            actions_view(actions@) == old(self)@.update_receiver(
                receiver_id,
                mode,
                frequency,
                filter_low,
                filter_high,
            ).actions,
    {
        match find_receiver(&self.receivers, receiver_id) {
            Some(at) => {
                let nav = WaterfallNav { mode: mode.name.clone(), frequency, filter_high, filter_low };
                let updated = Receiver { id: self.receivers[at].id, mode, frequency, filter_low, filter_high };
                self.receivers.set(at, updated);
                one(Action::WaterfallNav(Some(nav)))
            },
            None => none(),
        }
    }

    /// Puts a receiver into another mode and tells the host.
    pub fn change_receiver_mode(&mut self, receiver_id: u32, mode: Mode) -> (actions: Vec<Action>)
        ensures
            final(self)@ == old(self)@.change_receiver_mode(receiver_id, mode).model,
            actions_view(actions@) == old(self)@.change_receiver_mode(receiver_id, mode).actions,
    {
        match find_receiver(&self.receivers, receiver_id) {
            Some(at) => {
                let updated = Receiver {
                    id: self.receivers[at].id,
                    mode: mode.clone(),
                    frequency: self.receivers[at].frequency,
                    filter_low: self.receivers[at].filter_low,
                    filter_high: self.receivers[at].filter_high,
                };
                self.receivers.set(at, updated);
                self.send_command(Command::SetMode { mode, id: receiver_id })
            },
            None => none(),
        }
    }

    fn retune(&mut self, receiver_id: u32, up: bool, digit: i32) -> (actions: Vec<Action>)
        ensures
            final(self)@ == old(self)@.retune(
                receiver_id,
                if up {
                    digit_step(digit)
                } else {
                    -digit_step(digit)
                },
            ).model,
            actions_view(actions@) == old(self)@.retune(
                receiver_id,
                if up {
                    digit_step(digit)
                } else {
                    -digit_step(digit)
                },
            ).actions,
    {
        match find_receiver(&self.receivers, receiver_id) {
            Some(at) => {
                let step = step_of(digit);
                let before = self.receivers[at].frequency;
                let moved = if up {
                    before.checked_add(step)
                } else {
                    before.checked_sub(step)
                };
                let frequency = match moved {
                    Some(f) => f,
                    None => before,
                };
                let updated = Receiver {
                    id: self.receivers[at].id,
                    mode: self.receivers[at].mode.clone(),
                    frequency,
                    filter_low: self.receivers[at].filter_low,
                    filter_high: self.receivers[at].filter_high,
                };
                self.receivers.set(at, updated);
                self.send_command(
                    Command::SetFrequency { frequency: frequency_on_wire(frequency), id: receiver_id },
                )
            },
            None => none(),
        }
    }

    /// Moves a receiver up by the step of a digit of its display.
    pub fn frequency_up(&mut self, receiver_id: u32, digit: i32) -> (actions: Vec<Action>)
        ensures
            final(self)@ == old(self)@.frequency_up(receiver_id, digit).model,
            actions_view(actions@) == old(self)@.frequency_up(receiver_id, digit).actions,
    {
        self.retune(receiver_id, true, digit)
    }

    /// Moves a receiver down by the step of a digit of its display.
    pub fn frequency_down(&mut self, receiver_id: u32, digit: i32) -> (actions: Vec<Action>)
        ensures
            final(self)@ == old(self)@.frequency_down(receiver_id, digit).model,
            actions_view(actions@) == old(self)@.frequency_down(receiver_id, digit).actions,
    {
        self.retune(receiver_id, false, digit)
    }

    /// Notes that the channel is being opened to `ws`.
    pub fn connect(&mut self, ws: &str) -> (actions: Vec<Action>)
        ensures
            final(self)@ == (ModelView { connected: true, ..old(self)@ }),
            actions_view(actions@) == seq![ActionView::OpenSocket(ws@)],
    {
        self.connected = true;
        one(Action::OpenSocket(ws.to_owned()))
    }

    /// Forgets what was known of the host.
    pub fn disconnect(&mut self)
        ensures
            final(self)@ == old(self)@.disconnect(),
    {
        self.connected = false;
        self.receivers = Vec::new();
        self.radios = Vec::new();
        self.version = None;
        self.default_receiver = None;
        self.spots.reset();
    }

    pub fn is_connected(&self) -> (yes: bool)
        ensures
            yes == self@.connected,
    {
        self.connected
    }

    /// Moves the audio subscription to the shown receiver.
    pub fn subscribe_to_audio(&mut self) -> (actions: Vec<Action>)
        ensures
            final(self)@ == old(self)@.subscribe_to_audio().model,
            actions_view(actions@) == old(self)@.subscribe_to_audio().actions,
    {
        let off = match self.audio.receiving_audio() {
            Some(previous) => self.send_command(Command::SubscribeToAudio { rx_id: previous, enable: false }),
            None => none(),
        };
        match self.default_receiver() {
            Some(receiver) => {
                let on = self.send_command(Command::SubscribeToAudio { rx_id: receiver.id, enable: true });
                self.audio.set_subscribed(Some(receiver.id));
                join(off, on)
            },
            None => {
                self.audio.set_subscribed(None);
                off
            },
        }
    }

    /// Ends the audio subscription.
    pub fn unsubscribe_to_audio(&mut self) -> (actions: Vec<Action>)
        ensures
            final(self)@ == old(self)@.unsubscribe_to_audio().model,
            actions_view(actions@) == old(self)@.unsubscribe_to_audio().actions,
    {
        let off = match self.audio.receiving_audio() {
            Some(previous) => self.send_command(Command::SubscribeToAudio { rx_id: previous, enable: false }),
            None => none(),
        };
        self.audio.set_subscribed(None);
        off
    }

    /// Shows another receiver, or none.
    pub fn set_default_receiver(&mut self, receiver: Option<u32>) -> (actions: Vec<Action>)
        ensures
            final(self)@ == old(self)@.set_default_receiver(receiver).model,
            actions_view(actions@) == old(self)@.set_default_receiver(receiver).actions,
    {
        if self.default_receiver == receiver {
            return none();
        }
        let off = match self.spectrum.receiving_spectrum() {
            Some(previous) => self.send_command(
                Command::SubscribeToSpectrum { rx_id: previous, enable: false },
            ),
            None => none(),
        };
        match receiver {
            Some(id) => match find_receiver(&self.receivers, id) {
                Some(at) => {
                    let on = self.send_command(Command::SubscribeToSpectrum { rx_id: id, enable: true });
                    self.spectrum.set_subscribed(Some(id));
                    let nav = WaterfallNav {
                        mode: self.receivers[at].mode.name.clone(),
                        frequency: self.receivers[at].frequency,
                        filter_high: self.receivers[at].filter_high,
                        filter_low: self.receivers[at].filter_low,
                    };
                    self.default_receiver = Some(id);
                    let audio = match self.audio.receiving_audio() {
                        Some(_) => self.subscribe_to_audio(),
                        None => none(),
                    };
                    join(join(join(off, on), one(Action::WaterfallNav(Some(nav)))), audio)
                },
                None => off,
            },
            None => {
                self.default_receiver = None;
                let audio = self.unsubscribe_to_audio();
                join(join(off, audio), one(Action::WaterfallNav(None)))
            },
        }
    }

    pub fn toggle_receiver_list(&mut self)
        ensures
            final(self)@ == (ModelView { show_receiver_list: !old(self)@.show_receiver_list, ..old(self)@ }),
    {
        self.show_receiver_list = !self.show_receiver_list;
    }

    pub fn show_receiver_list(&mut self)
        ensures
            final(self)@ == (ModelView { show_receiver_list: true, ..old(self)@ }),
    {
        self.show_receiver_list = true;
    }

    pub fn hide_receiver_list(&mut self)
        ensures
            final(self)@ == (ModelView { show_receiver_list: false, ..old(self)@ }),
    {
        self.show_receiver_list = false;
    }

    /// Whether the list of receivers is shown.
    pub fn receiver_list_shown(&self) -> (yes: bool)
        ensures
            yes == self@.show_receiver_list,
    {
        self.show_receiver_list
    }

    /// Takes the contacts read from a log file as the log.
    pub fn load_adif_data(&mut self, records: Vec<LogEntry>) -> (actions: Vec<Action>)
        ensures
            final(self)@ == old(self)@.load_adif_data(records@).model,
            actions_view(actions@) == old(self)@.load_adif_data(records@).actions,
    {
        self.import = Some(records);
        join(one(Action::StoreLog), one(Action::StateMap(self.update_state_map_overlay())))
    }

    /// Drops the log.
    pub fn clear_adif_data(&mut self) -> (actions: Vec<Action>)
        ensures
            final(self)@ == old(self)@.clear_adif_data().model,
            actions_view(actions@) == old(self)@.clear_adif_data().actions,
    {
        self.import = None;
        join(one(Action::StoreLog), one(Action::StateMap(self.update_state_map_overlay())))
    }

    /// Whether the radio runs, if it is listed.
    pub fn get_radio_power_state(&self, radio_id: u32) -> (running: Option<bool>)
        ensures
            running == self@.radio_power(radio_id),
    {
        match find_radio(&self.radios, radio_id) {
            Some(at) => Some(self.radios[at].running),
            None => None,
        }
    }

    /// The page that is shown.
    pub fn route(&self) -> (route: AppRoute)
        ensures
            route == self@.route,
    {
        self.route
    }

    /// Where the host listens.
    pub fn ws_location(&self) -> (address: &String)
        ensures
            address@ == self@.ws_location,
    {
        &self.ws_location
    }

    /// The spot database.
    pub fn spots(&self) -> (spots: &SpotDB)
        ensures
            spots@ == self@.spots,
    {
        &self.spots
    }

    /// The audio of the subscribed receiver.
    pub fn audio(&self) -> (audio: &AudioProvider)
        ensures
            audio@ == self@.audio,
    {
        &self.audio
    }

    /// The waterfall of the subscribed receiver.
    pub fn spectrum(&self) -> (spectrum: &SpectrumProvider)
        ensures
            spectrum@ == self@.spectrum,
    {
        &self.spectrum
    }

    /// The imported log that spots are checked against.
    pub fn import(&self) -> (import: &Option<Vec<LogEntry>>)
        ensures
            log_view(*import) == self@.import,
    {
        &self.import
    }

    /// Notes that the output path of the audio was made.
    pub fn create_audio_context(&mut self)
        ensures
            final(self)@ == (ModelView {
                audio: AudioView {
                    context: true,
                    gain: crate::audio::FULL_GAIN,
                    remembered: crate::audio::FULL_GAIN,
                    ..old(self)@.audio
                },
                ..old(self)@
            }),
    {
        self.audio.create_audio_context();
    }

    /// The receivers as the host listed them.
    pub fn receivers(&self) -> (receivers: &Vec<Receiver>)
        ensures
            receivers@ == self@.receivers,
    {
        &self.receivers
    }

    /// The radios as the host listed them.
    pub fn radios(&self) -> (radios: &Vec<Radio>)
        ensures
            radios@ == self@.radios,
    {
        &self.radios
    }

    /// The version of the host, once it told it.
    pub fn version(&self) -> (version: &Option<Version>)
        ensures
            *version == self@.version,
    {
        &self.version
    }
}

/// A batch changes nothing of the client but its spot database, and of
/// that neither the filters nor what is stored.
pub proof fn lemma_ingest_touches_spots_only(model: ModelView, batch: Seq<Spot>)
    ensures
        model.ingest(batch).model == (ModelView { spots: model.ingest(batch).model.spots, ..model }),
        model.ingest(batch).model.spots.filters == model.spots.filters,
        model.ingest(batch).model.spots.lotw_users == model.spots.lotw_users,
        model.ingest(batch).model.spots.states_overlay == model.spots.states_overlay,
    decreases batch.len(),
{
    if batch.len() > 0 {
        lemma_ingest_touches_spots_only(model, batch.drop_last());
    }
}

/// After a batch the history holds no more spots than its limit, the newest
/// of those it held and those the batch added, in arrival order.
pub proof fn lemma_batch_leaves_newest(model: ModelView, batch: Seq<Spot>)
    ensures
        model.add_spots(batch).model.spots.spots.len() <= SPOT_LIMIT,
        model.add_spots(batch).model.spots == model.ingest(batch).model.spots.trim_spots(SPOT_LIMIT as nat),
        forall|i: int|
            0 <= i < model.add_spots(batch).model.spots.spots.len() ==> #[trigger] model.add_spots(
                batch,
            ).model.spots.spots[i] == model.ingest(batch).model.spots.spots[model.ingest(
                batch,
            ).model.spots.spots.len() - model.add_spots(batch).model.spots.spots.len() + i],
{
}

/// The actions that follow from the admissions of a flushed queue.
fn actions_of_flush(admissions: &Vec<Admission>) -> (actions: Vec<Action>)
    ensures
        actions_view(actions@) == flush_actions(admissions@),
{
    let mut actions = none();
    let mut i: usize = 0;
    while i < admissions.len()
        invariant
            i <= admissions.len(),
            actions_view(actions@) == flush_actions(admissions@.take(i as int)),
        decreases admissions.len() - i,
    {
        assert(admissions@.take(i + 1).drop_last() =~= admissions@.take(i as int));
        actions = join(actions, actions_of_admission(admissions[i].clone()));
        i += 1;
    }
    assert(admissions@.take(admissions.len() as int) =~= admissions@);
    actions
}

impl Model {
    /// Takes in a batch of spots from the host, in order, and trims the
    /// history to its limit. A spot goes on to the database unless the filter
    /// for general calls or the filter for the shown receiver holds it back.
    pub fn add_spots(&mut self, spots: Vec<Spot>) -> (actions: Vec<Action>)
        ensures
            final(self)@ == old(self)@.add_spots(spots@).model,
            actions_view(actions@) == old(self)@.add_spots(spots@).actions,
            final(self)@.spots.spots.len() <= SPOT_LIMIT,
    {
        let cq_only = self.spots.cq_only_spot_filter_enabled();
        let heard_only = self.spots.current_receiver_spot_filter_enabled();
        let receiver = self.default_receiver();
        let mut actions = none();
        let mut i: usize = 0;
        while i < spots.len()
            invariant
                i <= spots.len(),
                cq_only == old(self)@.spots.enabled(SpotFilter::CQOnly),
                heard_only == old(self)@.spots.enabled(SpotFilter::CurrentReceiver),
                receiver == old(self)@.shown_receiver(),
                self@ == old(self)@.ingest(spots@.take(i as int)).model,
                actions_view(actions@) == old(self)@.ingest(spots@.take(i as int)).actions,
                self@.import == old(self)@.import,
                self.import == old(self).import,
            decreases spots.len() - i,
        {
            assert(spots@.take(i + 1).drop_last() =~= spots@.take(i as int));
            let spot = spots[i].clone();
            let wanted = !cq_only || spot.is_cq();
            let heard = match &receiver {
                Some(shown) => !(heard_only && shown.has_spots()) || spot.current_rx(shown),
                None => true,
            };
            if wanted && heard {
                let outcome = self.spots.add_spot(spot, &self.import);
                actions = join(actions, actions_of_outcome(outcome));
            }
            i += 1;
        }
        assert(spots@.take(spots.len() as int) =~= spots@);
        proof {
            lemma_ingest_touches_spots_only(old(self)@, spots@);
        }
        self.spots.trim_spots(SPOT_LIMIT);
        actions
    }

    /// Takes the answer to a lookup.
    pub fn callsign_info_ready(&mut self, call: Call) -> (actions: Vec<Action>)
        ensures
            final(self)@ == old(self)@.callsign_info_ready(call).model,
            actions_view(actions@) == old(self)@.callsign_info_ready(call).actions,
    {
        let mut call = call;
        match call.lotw {
            LoTWStatus::Unknown => {
                call.set_lotw(LoTWStatus::Unregistered);
            },
            _ => {},
        }
        let admissions = self.spots.cache_callsign_info(call, &self.import);
        actions_of_flush(&admissions)
    }

    /// Takes in a binary frame.
    pub fn received_frame(&mut self, frame: BinaryFrame) -> (actions: Vec<Action>)
        ensures
            final(self)@ == old(self)@.received_frame(frame).model,
            actions_view(actions@) == old(self)@.received_frame(frame).actions,
    {
        match frame {
            BinaryFrame::Audio { now } => {
                if self.audio.receiving_audio().is_some() {
                    match self.audio.import_audio_data(now) {
                        Some(chunk) => one(Action::Play(chunk)),
                        None => none(),
                    }
                } else {
                    none()
                }
            },
            BinaryFrame::Spectrum { receiver_id, bins, start, stop } => {
                if self.spectrum.receiving_spectrum().is_some() && self.default_receiver().is_some() {
                    match self.spectrum.import_spectrum_data(receiver_id, bins, start, stop) {
                        SpectrumOutcome::Row(row) => one(Action::Waterfall(row)),
                        _ => none(),
                    }
                } else {
                    none()
                }
            },
            BinaryFrame::Unsupported(_) => none(),
        }
    }

    /// Switches a filter and has the filters stored.
    fn toggle_filter(&mut self, filter: SpotFilter) -> (actions: Vec<Action>)
        ensures
            final(self)@ == old(self)@.toggle_filter(filter),
            actions_view(actions@) == old(self)@.stores_filters(filter),
    {
        if self.spots.filter_enabled(filter) {
            match self.spots.remove_filter(filter) {
                Ok(stored) => one(Action::StoreFilters(stored)),
                Err(_) => none(),
            }
        } else {
            one(Action::StoreFilters(self.spots.add_filter(filter)))
        }
    }
}

impl Model {
    /// The channel opened.
    fn connected(&mut self) -> (actions: Vec<Action>)
        ensures
            final(self)@ == old(self)@.connected().model,
            actions_view(actions@) == old(self)@.connected().actions,
    {
        let receivers = self.send_command(Command::GetReceivers);
        let radios = self.send_command(Command::GetRadios);
        let version = self.send_command(Command::GetVersion);
        let spots = self.send_command(Command::SubscribeToSpots { enable: true });
        let asked = join(join(join(receivers, radios), version), spots);
        if !self.spots.has_lotw_users() {
            let _ = self.spots.fetch_lotw_users();
            join(asked, one(Action::FetchLotwUsers))
        } else {
            asked
        }
    }

    /// An answer of the host arrived.
    fn command_response(&mut self, response: CommandResponse) -> (actions: Vec<Action>)
        ensures
            final(self)@ == old(self)@.command_response(response).model,
            actions_view(actions@) == old(self)@.command_response(response).actions,
    {
        match response {
            CommandResponse::Receivers { receivers } => self.set_receivers(receivers),
            CommandResponse::Radios { radios } => {
                self.set_radios(radios);
                none()
            },
            CommandResponse::Version(version) => {
                self.set_version(version);
                none()
            },
            CommandResponse::Spots { spots } => self.add_spots(spots),
            CommandResponse::ReceiverResponse { id, mode, frequency, filter_low, filter_high } => self.update_receiver(
                id,
                mode,
                frequency,
                filter_low,
                filter_high,
            ),
        }
    }

    /// The filter for new states is switched.
    fn toggle_state_filter(&mut self) -> (actions: Vec<Action>)
        ensures
            final(self)@ == old(self)@.toggle_state_filter().model,
            actions_view(actions@) == old(self)@.toggle_state_filter().actions,
    {
        let was_on = self.spots.state_spot_filter_enabled();
        let stored = self.toggle_filter(SpotFilter::NewState);
        if !was_on && !self.spots.has_states_overlay() {
            let _ = self.spots.fetch_states_overlay();
            let told = one(Action::StatesOverlay(self.spots.update_states_overlay_js()));
            join(join(stored, one(Action::FetchStatesOverlay)), told)
        } else {
            let told = one(Action::StatesOverlay(self.spots.update_states_overlay_js()));
            join(stored, told)
        }
    }

    /// Takes a message and says what it leaves to do.
    pub fn update(&mut self, msg: Msg) -> (update: Update)
        ensures
            final(self)@ == old(self)@.update(msg).model,
            actions_view(update.actions@) == old(self)@.update(msg).actions,
            update.render == render_of(msg),
    {
        match msg {
            Msg::Connected => Update { render: false, actions: self.connected() },
            Msg::CommandResponse(Ok(response)) => Update {
                render: true,
                actions: self.command_response(response),
            },
            Msg::CommandResponse(Err(_)) => Update { render: false, actions: none() },
            Msg::EnableAudio => {
                let actions = match self.audio.receiving_audio() {
                    Some(_) => self.unsubscribe_to_audio(),
                    None => self.subscribe_to_audio(),
                };
                Update { render: true, actions }
            },
            Msg::ReceivedAudio(frame) => Update { render: false, actions: self.received_frame(frame) },
            Msg::MuteUnmute => {
                let actions = match self.audio.toggle_mute() {
                    Some(gain) => one(Action::Gain(gain)),
                    None => none(),
                };
                Update { render: true, actions }
            },
            Msg::CallsignInfoReady(Ok(call)) => Update {
                render: true,
                actions: self.callsign_info_ready(call),
            },
            Msg::CallsignInfoReady(Err(_)) => Update { render: false, actions: none() },
            Msg::ClearSpots => {
                self.spots.clear_spots();
                Update { render: true, actions: none() }
            },
            Msg::SetDefaultReceiver(id) => Update {
                render: true,
                actions: self.set_default_receiver(Some(id)),
            },
            Msg::AddReceiver(id) => Update {
                render: false,
                actions: self.send_command(Command::AddReceiver { id }),
            },
            Msg::RemoveReceiver(id) => Update {
                render: false,
                actions: self.send_command(Command::RemoveReceiver { id }),
            },
            Msg::TogglePower(id) => {
                let actions = match self.get_radio_power_state(id) {
                    Some(running) => self.send_command(Command::SetRunning { id, running: !running }),
                    None => none(),
                };
                Update { render: false, actions }
            },
            Msg::ToggleReceiverList => {
                self.toggle_receiver_list();
                Update { render: true, actions: none() }
            },
            Msg::ModeChanged(id, mode) => Update {
                render: true,
                actions: self.change_receiver_mode(id, mode),
            },
            Msg::FrequencyDown(id, digit) => Update { render: true, actions: self.frequency_down(id, digit) },
            Msg::FrequencyUp(id, digit) => Update { render: true, actions: self.frequency_up(id, digit) },
            Msg::Connect => {
                let address = self.ws_location.clone();
                Update { render: true, actions: self.connect(address.as_str()) }
            },
            Msg::UpdateWebsocketAddress(address) => {
                self.ws_location = address;
                Update { render: true, actions: none() }
            },
            Msg::Disconnected => {
                self.disconnect();
                Update { render: true, actions: none() }
            },
            Msg::SetGain(gain) => {
                let actions = match self.audio.set_gain(gain) {
                    Some(applied) => one(Action::Gain(applied)),
                    None => none(),
                };
                Update { render: true, actions }
            },
            Msg::RouteChanged(route) => {
                self.hide_receiver_list();
                self.route = route;
                Update { render: true, actions: none() }
            },
            Msg::ChangeRoute(route) => {
                self.hide_receiver_list();
                self.route = route;
                Update { render: true, actions: one(Action::SetRoute(route)) }
            },
            Msg::CancelImport => Update { render: true, actions: self.clear_adif_data() },
            Msg::ConfirmImport => Update { render: true, actions: none() },
            Msg::Loaded(records) => Update { render: true, actions: self.load_adif_data(records) },
            Msg::LotwUsers(users) => {
                let stored = users.clone();
                self.spots.import_lotw_users(users);
                Update { render: true, actions: one(Action::StoreLotwUsers(stored)) }
            },
            Msg::StatesOverlay(data) => {
                let stored = data.clone();
                let told = self.spots.import_states_overlay(data);
                Update {
                    render: false,
                    actions: join(one(Action::StoreStatesOverlay(stored)), one(Action::StatesOverlay(told))),
                }
            },
            Msg::ToggleCQSpotFilter => Update {
                render: true,
                actions: self.toggle_filter(SpotFilter::CQOnly),
            },
            Msg::ToggleCountrySpotFilter => Update {
                render: true,
                actions: self.toggle_filter(SpotFilter::NewCountry),
            },
            Msg::ToggleStateSpotFilter => Update { render: true, actions: self.toggle_state_filter() },
            Msg::ToggleCurrentReceiverSpotFilter => Update {
                render: true,
                actions: self.toggle_filter(SpotFilter::CurrentReceiver),
            },
            Msg::ToggleLoTWSpotFilter => Update {
                render: true,
                actions: self.toggle_filter(SpotFilter::LoTW),
            },
            Msg::Idle => Update { render: false, actions: none() },
        }
    }
}

/// What the table shows of a spot beyond the spot itself.
#[derive(Debug, Clone, Copy, PartialEq, Eq, Structural)]
pub struct SpotRow {
    /// The country is known and the log holds no contact with it.
    pub new_country: bool,
    /// The state is known and the log holds no contact with it.
    pub new_state: bool,
    /// Whether the station is registered with Logbook of The World, where
    /// that is known.
    pub lotw: Option<bool>,
    /// The first receiver that is tuned as the spot was heard.
    pub receiver_id: Option<u32>,
    pub is_cq: bool,
}

impl ModelView {
    pub open spec fn spot_row(self, spot: Spot) -> SpotRow {
        SpotRow {
            new_country: self.import is Some && spot.call.country is Some && !country_worked(
                self.import->0,
                spot.call.country,
            ),
            new_state: self.import is Some && spot.call.country is Some && spot.call.state is Some
                && !state_worked(self.import->0, spot.call.state),
            lotw: match spot.call.lotw {
                LoTWStatus::Unknown => None,
                LoTWStatus::Unregistered => Some(false),
                _ => Some(true),
            },
            receiver_id: match first_true(receivers_hearing(self.receivers, spot)) {
                Some(at) => Some(self.receivers[at].id),
                None => None,
            },
            is_cq: spot.cq(),
        }
    }

    /// The table shows the spots of the shown receiver only.
    pub open spec fn table_follows_receiver(self) -> bool {
        self.shown_receiver() matches Some(receiver) && receiver.mode.decodes_spots && self.spots.enabled(
            SpotFilter::CurrentReceiver,
        )
    }
}

impl Model {
    /// What the table shows of a spot of the history.
    pub fn spot_row(&self, spot: &Spot) -> (row: SpotRow)
        ensures
            row == self@.spot_row(*spot),
    {
        let known = spot.call.country.is_some();
        let (new_country, new_state) = match &self.import {
            Some(logs) => (
                known && spot.new_country(logs),
                known && spot.call.state.is_some() && spot.new_state(logs),
            ),
            None => (false, false),
        };
        let lotw = match &spot.call.lotw {
            LoTWStatus::Unknown => None,
            LoTWStatus::Unregistered => Some(false),
            _ => Some(true),
        };
        let receiver_id = match find_hearing(&self.receivers, spot) {
            Some(at) => Some(self.receivers[at].id),
            None => None,
        };
        SpotRow { new_country, new_state, lotw, receiver_id, is_cq: spot.is_cq() }
    }

    /// Whether the table shows the spots of the shown receiver only.
    pub fn table_follows_receiver(&self) -> (yes: bool)
        ensures
            yes == self@.table_follows_receiver(),
    {
        match self.default_receiver() {
            Some(receiver) => receiver.has_spots() && self.spots.current_receiver_spot_filter_enabled(),
            None => false,
        }
    }
}

} // verus!

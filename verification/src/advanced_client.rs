//! The client on the main thread: it numbers requests, sends them to the thread that talks to
//! mpv, and keeps what mpv has reported.
use std::collections::HashMap;

use crossbeam::channel::{Receiver, SendError, Sender};
use vstd::prelude::*;
use vstd::string::*;

use crate::channel::{send, try_recv, unbounded, unbounded_events};
use crate::client_api::{event_kind, log_level, CoreEvent, EventData, EventKind, LogLevel, PropertyData};
use crate::double::Double;
use crate::omt_client::{ClientRequest, RequestView};
use crate::shared::MpvEvent;
use crate::text::{decimal_text, signed_decimal_text, split_lines};

verus! {

broadcast use vstd::std_specs::hash::group_hash_axioms;

/// What mpv has last reported of the playback.
#[derive(Clone, Copy, Debug, PartialEq, Eq, Structural)]
pub struct AsyncClientState {
    pub is_paused: bool,
    pub percent_pos: Double,
    pub time_pos: Double,
    pub time_remaining: Double,
    pub duration: Double,
    pub width: Double,
    pub height: Double,
}

/// The state before mpv has reported anything: not paused, and every number zero.
pub open spec fn initial_state() -> AsyncClientState {
    AsyncClientState {
        is_paused: false,
        percent_pos: Double { bits: 0 },
        time_pos: Double { bits: 0 },
        time_remaining: Double { bits: 0 },
        duration: Double { bits: 0 },
        width: Double { bits: 0 },
        height: Double { bits: 0 },
    }
}

impl Default for AsyncClientState {
    fn default() -> (r: Self)
        ensures
            r == initial_state(),
    {
        AsyncClientState {
            is_paused: false,
            percent_pos: Double::zero(),
            time_pos: Double::zero(),
            time_remaining: Double::zero(),
            duration: Double::zero(),
            width: Double::zero(),
            height: Double::zero(),
        }
    }
}

/// Whether the number with this name tells where the playback is.
pub open spec fn is_position(name: Seq<char>) -> bool {
    ||| name == "percent-pos"@
    ||| name == "time-pos"@
    ||| name == "time-remaining"@
    ||| name == "duration"@
}

/// Whether the number with this name tells how large the video is.
pub open spec fn is_size(name: Seq<char>) -> bool {
    ||| name == "width"@
    ||| name == "height"@
}

impl AsyncClientState {
    /// The state once mpv has reported `value` for the number called `name`.
    pub open spec fn with_double(self, name: Seq<char>, value: Double) -> AsyncClientState {
        if name == "percent-pos"@ {
            AsyncClientState { percent_pos: value, ..self }
        } else if name == "time-pos"@ {
            AsyncClientState { time_pos: value, ..self }
        } else if name == "time-remaining"@ {
            AsyncClientState { time_remaining: value, ..self }
        } else if name == "duration"@ {
            AsyncClientState { duration: value, ..self }
        } else if name == "width"@ {
            AsyncClientState { width: value, ..self }
        } else if name == "height"@ {
            AsyncClientState { height: value, ..self }
        } else {
            self
        }
    }

    /// The state once mpv has answered `request` with `property`.
    pub open spec fn with_property(self, request: RequestView, property: PropertyData) -> AsyncClientState {
        match (request, property) {
            (RequestView::GetPropertyFlag(_, _), PropertyData::Flag(flag)) => AsyncClientState {
                is_paused: flag != 0,
                ..self
            },
            (
                RequestView::GetPropertyDouble(_, name),
                PropertyData::Double(value),
            ) => self.with_double(name, value),
            _ => self,
        }
    }
}

/// Why a request could not be sent.
#[derive(Clone, Copy, Debug, PartialEq, Eq, Structural)]
pub enum ClientError {
    /// The thread that talks to mpv is gone.
    Disconnected,
}

/// How a file is added to the playlist.
#[derive(Clone, Copy, Debug, PartialEq, Eq, Structural)]
pub enum FileState {
    /// It replaces the playlist and is played.
    Replace,
    /// It goes to the end of the playlist.
    Append,
    /// It goes to the end of the playlist, and is played if nothing else is.
    AppendPlay,
}

impl FileState {
    /// The word for it in a `loadfile` command.
    pub open spec fn word(self) -> Seq<char> {
        match self {
            FileState::Replace => "replace"@,
            FileState::Append => "append"@,
            FileState::AppendPlay => "append-play"@,
        }
    }

    /// The word for it in a `loadfile` command.
    pub fn val(&self) -> (r: &'static str)
        ensures
            r@ == self.word(),
    {
        match self {
            FileState::Replace => "replace",
            FileState::Append => "append",
            FileState::AppendPlay => "append-play",
        }
    }
}

/// The value of an option of mpv.
#[derive(Clone, Copy, Debug, PartialEq, Eq)]
pub enum OptionValue {
    Flag(bool),
    Text(&'static str),
}

/// The options that mpv has to be started with, in order: it stays there while there is nothing
/// to play, leaves the drawing to its render API, and decodes directly into textures.
pub fn initial_options() -> (r: Vec<(&'static str, OptionValue)>)
    ensures
        r@.len() == 3,
        r@[0].0@ == "idle"@ && r@[0].1 == OptionValue::Flag(true),
        r@[1].0@ == "vo"@ && (r@[1].1 matches OptionValue::Text(text) && text@ == "libmpv"@),
        r@[2].0@ == "vd-lavc-dr"@ && r@[2].1 == OptionValue::Flag(true),
{
    let mut options: Vec<(&'static str, OptionValue)> = Vec::new();
    options.push(("idle", OptionValue::Flag(true)));
    options.push(("vo", OptionValue::Text("libmpv")));
    options.push(("vd-lavc-dr", OptionValue::Flag(true)));
    options
}

/// The mathematical content of a [`MpvAdvancedClient`].
#[verifier::ext_equal]
pub struct ClientView {
    /// The number of the next request.
    pub next_id: u64,
    /// The requests that mpv has not answered, by their numbers.
    pub outstanding: Map<u64, RequestView>,
    /// What has been sent to the thread that talks to mpv, oldest first.
    pub sent: Seq<RequestView>,
    /// What mpv has last reported.
    pub state: AsyncClientState,
    /// The channel that the requests are sent through.
    pub channel: nat,
    /// Whether the thread that talks to mpv has been found to be gone. It does not come back.
    pub gone: bool,
    /// The channel through which the callbacks of mpv are heard of.
    pub wakeups: nat,
    /// What polling for the callbacks of mpv has brought, oldest first.
    pub polls: Seq<Option<MpvEvent>>,
}

impl ClientView {
    /// Every outstanding request stands under its own number, and has been numbered before.
    pub open spec fn wf(self) -> bool {
        &&& self.next_id >= 1
        &&& forall|id: u64| #[trigger]
            self.outstanding.contains_key(id) ==> {
                &&& 1 <= id < self.next_id
                &&& self.outstanding[id].task_id() == Some(id)
            }
    }

    /// How many more requests can be numbered.
    pub open spec fn ids_left(self) -> int {
        u64::MAX - self.next_id
    }

    /// The state after `request` has been numbered and recorded, and sent if the thread that
    /// talks to mpv was there to take it.
    pub open spec fn submit(self, request: RequestView, delivered: bool) -> ClientView {
        ClientView {
            next_id: (self.next_id + 1) as u64,
            outstanding: self.outstanding.insert(self.next_id, request),
            sent: if delivered {
                self.sent.push(request)
            } else {
                self.sent
            },
            state: self.state,
            channel: self.channel,
            gone: self.gone || !delivered,
            wakeups: self.wakeups,
            polls: self.polls,
        }
    }

    /// The state after all of `requests` have been sent.
    pub open spec fn submit_all(self, requests: Seq<RequestView>) -> ClientView
        decreases requests.len(),
    {
        if requests.len() == 0 {
            self
        } else {
            self.submit_all(requests.drop_last()).submit(requests.last(), true)
        }
    }

    /// Whether `after` is the state once `requests` have been submitted in order: all of them,
    /// or, where one could not be sent, those before it and that one.
    pub open spec fn submits(self, requests: Seq<RequestView>, after: ClientView, all: bool) -> bool {
        if all {
            &&& after == self.submit_all(requests)
            &&& requests.len() > 0 ==> !self.gone
        } else {
            exists|k: int|
                0 <= k < requests.len() && (self.gone ==> k == 0) && after == #[trigger] self.submit_all(
                    requests.take(k),
                ).submit(requests[k], false)
        }
    }

    /// The state after the submission of the command made of `words`.
    pub open spec fn command(self, words: Seq<Seq<char>>, delivered: bool) -> ClientView {
        self.submit(RequestView::Command(self.next_id, words), delivered)
    }

    /// The state after the submission of the command that seeks forward by `secs`, written out.
    pub open spec fn seek_forward(self, secs: Seq<char>, delivered: bool) -> ClientView {
        self.command(seq!["seek"@, secs, "relative"@], delivered)
    }

    /// The state after the submission of the command that seeks backward by `secs`, written out.
    pub open spec fn seek_backward(self, secs: Seq<char>, delivered: bool) -> ClientView {
        self.command(seq!["seek"@, "-"@ + secs, "relative"@], delivered)
    }

    /// The state after the submission of the request to set the flag `name`.
    pub open spec fn set_flag(self, name: Seq<char>, value: bool, delivered: bool) -> ClientView {
        self.submit(RequestView::SetPropertyFlag(self.next_id, name, value), delivered)
    }

    /// The state after the submission of the request to read the flag `name`.
    pub open spec fn get_flag(self, name: Seq<char>, delivered: bool) -> ClientView {
        self.submit(RequestView::GetPropertyFlag(self.next_id, name), delivered)
    }

    /// The state after the submission of the request to read the number `name`.
    pub open spec fn get_double(self, name: Seq<char>, delivered: bool) -> ClientView {
        self.submit(RequestView::GetPropertyDouble(self.next_id, name), delivered)
    }

    /// The state after the end of the session has been announced, if the thread that talks to
    /// mpv was there to hear it.
    pub open spec fn exit(self, delivered: bool) -> ClientView {
        ClientView {
            sent: if delivered {
                self.sent.push(RequestView::Exit)
            } else {
                self.sent
            },
            gone: self.gone || !delivered,
            ..self
        }
    }

    /// The state after the thread that talks to mpv has been found to be gone.
    pub open spec fn found_gone(self) -> ClientView {
        ClientView { gone: true, ..self }
    }

    /// The state after polling for the callbacks of mpv has brought `event`.
    pub open spec fn poll(self, event: Option<MpvEvent>) -> ClientView {
        ClientView { polls: self.polls.push(event), ..self }
    }

    /// The state after the completion of request `id` has been sent on.
    pub open spec fn receipt(self, id: u64) -> ClientView {
        ClientView {
            outstanding: self.outstanding.remove(id),
            sent: self.sent.push(RequestView::Completed(id)),
            ..self
        }
    }
}

/// What has become of a request that mpv has answered.
#[derive(Debug)]
pub enum Receipt {
    /// It has succeeded.
    Done(ClientRequest),
    /// It has failed.
    Failed(ClientRequest),
    /// No such request was outstanding.
    Missing,
}

/// What an event has brought, for the loop that drains the events and for the log.
#[derive(Debug)]
pub enum EventNote {
    /// There are no more events for now.
    Drained,
    /// A request has succeeded; this is its text.
    ReplyOk(String),
    /// A request has failed, with an error code; this is its text.
    ReplyError(i32, String),
    /// No request with the number of the reply was outstanding.
    MissingTask,
    /// mpv wants these lines logged.
    Log(LogLevel, Vec<String>),
    /// The file with this playlist entry is being played.
    FileStarted(i64),
    /// The playback of a file has ended.
    FileEnded,
    Idle,
    FileLoaded,
    AudioReconfig,
    VideoReconfig,
    Seek,
    PlaybackRestart,
    Unrecognized,
}

impl ClientView {
    /// Whether the reading of a property can have been answered like this: a flag is the
    /// answer to a request for `pause`, a number the answer to a request for a position.
    pub open spec fn expects(self, id: u64, property: PropertyData) -> bool {
        match property {
            PropertyData::Flag(_) => self.outstanding[id] matches RequestView::GetPropertyFlag(_, name)
                && name == "pause"@,
            PropertyData::Double(_) => self.outstanding[id] matches RequestView::GetPropertyDouble(_, name)
                && is_position(name),
            PropertyData::Unused => false,
            PropertyData::Ignored => true,
        }
    }

    /// Whether `event` can have come: log messages and file starts bring their data, and what
    /// the reading of a property has brought is what was asked for.
    pub open spec fn admits(self, event: CoreEvent) -> bool {
        match event.kind() {
            EventKind::PropertyReply => {
                event.error == 0 && self.outstanding.contains_key(event.reply_userdata) ==> (
                event.data matches EventData::Property(property) ==> self.expects(
                    event.reply_userdata,
                    property,
                ))
            },
            EventKind::LogMessage => event.data is LogMessage,
            EventKind::StartFile => event.data is StartFile,
            _ => true,
        }
    }

    /// Whether `event` brings a number that tells how large the video is, to someone who has asked
    /// for it.
    pub open spec fn brings_size(self, event: CoreEvent) -> bool {
        &&& event.kind() == EventKind::PropertyReply
        &&& event.error == 0
        &&& self.outstanding.contains_key(event.reply_userdata)
        &&& event.data matches EventData::Property(PropertyData::Double(_))
        &&& self.outstanding[event.reply_userdata] matches RequestView::GetPropertyDouble(_, name)
        &&& is_size(name)
    }

    /// What mpv has reported up to `event`.
    pub open spec fn state_after(self, event: CoreEvent) -> AsyncClientState {
        if event.kind() == EventKind::PropertyReply && event.error == 0
            && self.outstanding.contains_key(event.reply_userdata) {
            match event.data {
                EventData::Property(property) => self.state.with_property(
                    self.outstanding[event.reply_userdata],
                    property,
                ),
                _ => self.state,
            }
        } else {
            self.state
        }
    }

    /// The state after `event`: a reply is sent on as a completion, and what it has reported is
    /// kept; any other event changes nothing.
    pub open spec fn after_event(self, event: CoreEvent) -> ClientView {
        match event.kind() {
            EventKind::Reply | EventKind::PropertyReply => ClientView {
                state: self.state_after(event),
                ..self.receipt(event.reply_userdata)
            },
            _ => self,
        }
    }

    /// Whether `note` says what `event` has brought.
    pub open spec fn notes(self, event: CoreEvent, note: EventNote) -> bool {
        match event.kind() {
            EventKind::Nothing => note is Drained,
            EventKind::Reply | EventKind::PropertyReply => {
                let id = event.reply_userdata;
                if !self.outstanding.contains_key(id) {
                    note is MissingTask
                } else if event.error == 0 {
                    note matches EventNote::ReplyOk(text) && text@ == self.outstanding[id].text()
                } else {
                    note matches EventNote::ReplyError(error, text) && error == event.error
                        && text@ == self.outstanding[id].text()
                }
            },
            EventKind::LogMessage => {
                &&& note matches EventNote::Log(level, lines)
                &&& event.data matches EventData::LogMessage(raw, text)
                &&& level == crate::client_api::spec_log_level(raw)
                &&& crate::text::are_lines_of(crate::text::texts(lines@), text@)
            },
            EventKind::StartFile => {
                &&& note matches EventNote::FileStarted(entry)
                &&& event.data == EventData::StartFile(entry)
            },
            EventKind::EndFile => note is FileEnded,
            EventKind::Idle => note is Idle,
            EventKind::FileLoaded => note is FileLoaded,
            EventKind::AudioReconfig => note is AudioReconfig,
            EventKind::VideoReconfig => note is VideoReconfig,
            EventKind::Seek => note is Seek,
            EventKind::PlaybackRestart => note is PlaybackRestart,
            EventKind::Unrecognized => note is Unrecognized,
        }
    }
}

/// The requests that ask for what is kept up to date, numbered from `id` on.
pub open spec fn poll_requests(id: u64) -> Seq<RequestView> {
    seq![
        RequestView::GetPropertyFlag(id, "pause"@),
        RequestView::GetPropertyDouble((id + 1) as u64, "percent-pos"@),
        RequestView::GetPropertyDouble((id + 2) as u64, "time-pos"@),
        RequestView::GetPropertyDouble((id + 3) as u64, "time-remaining"@),
        RequestView::GetPropertyDouble((id + 4) as u64, "duration"@),
    ]
}

/// The requests that ask how large the video is, numbered from `id` on.
pub open spec fn size_requests(id: u64) -> Seq<RequestView> {
    seq![
        RequestView::GetPropertyDouble(id, "width"@),
        RequestView::GetPropertyDouble((id + 1) as u64, "height"@),
    ]
}

/// One pass over the wakeups and events of mpv.
#[derive(Clone, Copy, Debug, PartialEq, Eq, Structural)]
pub struct DrainPass {
    /// Whether the playback of a file has ended during the pass.
    pub stopped: bool,
}

/// What has come of the last step of a pass.
#[derive(Debug)]
pub enum DrainSignal {
    /// A callback of mpv was called.
    Wakeup(MpvEvent),
    /// No more callbacks have been called.
    NoWakeup,
    /// mpv has handed out an event.
    Event(CoreEvent),
    /// mpv has handed out an event that tells how large the video is.
    SizeReply(CoreEvent),
    /// mpv has handed out nothing.
    NoEvent,
}

/// The next step of a pass.
#[derive(Debug)]
pub enum DrainStep {
    /// See whether another callback of mpv was called.
    PollWakeup,
    /// Ask mpv for the next event. One wakeup may stand for several.
    WaitEvent,
    /// The pass is over.
    Finished(bool),
}

impl ClientView {
    /// Whether `signal` can come during a pass, and what it leads to can be numbered.
    pub open spec fn admits_signal(self, signal: DrainSignal) -> bool {
        match signal {
            DrainSignal::Wakeup(event) => event == MpvEvent::CoreUpdate,
            DrainSignal::NoWakeup => self.ids_left() >= 5,
            DrainSignal::Event(event) => self.admits(event),
            DrainSignal::SizeReply(event) => self.brings_size(event),
            DrainSignal::NoEvent => true,
        }
    }
}

impl DrainSignal {
    /// Whether it is the event that the playback of a file has ended.
    pub open spec fn ends_file(self) -> bool {
        self matches DrainSignal::Event(event) && event.kind() == EventKind::EndFile
    }
}

/// Whether `signal` leads from the client `before` in the pass `pass` to `after` and `next`, and
/// to the step and the note in `r`. A wakeup leads to the events of mpv, and the last of these to
/// the next wakeup; when no wakeup is left, what is kept up to date is asked for.
pub open spec fn drains(
    before: ClientView,
    pass: DrainPass,
    signal: DrainSignal,
    after: ClientView,
    next: DrainPass,
    r: Result<(DrainStep, Option<EventNote>), ClientError>,
) -> bool {
    match signal {
        DrainSignal::Wakeup(_) => {
            &&& r matches Ok((DrainStep::WaitEvent, None))
            &&& after == before
            &&& next == pass
        },
        DrainSignal::NoEvent => {
            &&& r matches Ok((DrainStep::PollWakeup, None))
            &&& after == before
            &&& next == pass
        },
        DrainSignal::NoWakeup => {
            &&& before.submits(poll_requests(before.next_id), after, r is Ok)
            &&& r is Ok ==> (r matches Ok((DrainStep::Finished(stopped), None)) && stopped
                == pass.stopped)
            &&& next == pass
        },
        DrainSignal::Event(event) | DrainSignal::SizeReply(event) => match r {
            Ok((step, note)) => {
                &&& event.is_reply() ==> !before.gone
                &&& after == before.after_event(event)
                &&& note is Some && before.notes(event, note->0)
                &&& if event.kind() == EventKind::Nothing {
                    step is PollWakeup
                } else {
                    step is WaitEvent
                }
                &&& next.stopped == (pass.stopped || signal.ends_file())
            },
            Err(_) => {
                &&& event.is_reply()
                &&& after == before.found_gone()
                &&& next == pass
            },
        },
    }
}

fn text_is(text: &String, other: &str) -> (r: bool)
    ensures
        r == (text@ == other@),
{
    *text == other.to_owned()
}

impl AsyncClientState {
    fn store(&mut self, request: &ClientRequest, property: PropertyData)
        ensures
            *final(self) == old(self).with_property(request@, property),
    {
        match (request, property) {
            (ClientRequest::GetPropertyFlag(_, _), PropertyData::Flag(flag)) => {
                self.is_paused = flag != 0;
            },
            (ClientRequest::GetPropertyDouble(_, name), PropertyData::Double(value)) => {
                if text_is(name, "percent-pos") {
                    self.percent_pos = value;
                } else if text_is(name, "time-pos") {
                    self.time_pos = value;
                } else if text_is(name, "time-remaining") {
                    self.time_remaining = value;
                } else if text_is(name, "duration") {
                    self.duration = value;
                } else if text_is(name, "width") {
                    self.width = value;
                } else if text_is(name, "height") {
                    self.height = value;
                }
            },
            _ => {},
        }
    }
}

/// The words of the command that loads `file`.
pub open spec fn load_words(file: (&str, FileState, Option<&str>)) -> Seq<Seq<char>> {
    match file.2 {
        None => seq!["loadfile"@, file.0@, file.1.word()],
        Some(options) => seq!["loadfile"@, file.0@, file.1.word(), options@],
    }
}

/// The requests that load `files`, numbered from `id` on.
pub open spec fn load_requests(
    id: u64,
    files: Seq<(&str, FileState, Option<&str>)>,
) -> Seq<RequestView> {
    Seq::new(
        files.len(),
        |i: int| RequestView::Command((id + i) as u64, load_words(files[i])),
    )
}

/// Safe wrapper for libmpv when using an "advanced" mode renderer.
///
/// It only exposes the requests that are safe to make when rendering in advanced mode. A
/// request is numbered, recorded as outstanding and sent to the thread that talks to mpv.
pub struct MpvAdvancedClient {
    events: Receiver<MpvEvent>,
    omt_send: Sender<ClientRequest>,
    next_id: u64,
    outstanding: HashMap<u64, ClientRequest>,
    async_state: AsyncClientState,
}

impl View for MpvAdvancedClient {
    type V = ClientView;

    closed spec fn view(&self) -> ClientView {
        ClientView {
            next_id: self.next_id,
            outstanding: self.outstanding@.map_values(|r: ClientRequest| r@),
            sent: crate::channel::sent(self.omt_send),
            state: self.async_state,
            channel: crate::channel::channel_of_sender(self.omt_send),
            gone: crate::channel::gone(self.omt_send),
            wakeups: crate::channel::channel_of_listener(self.events),
            polls: crate::channel::polls(self.events),
        }
    }
}

/// What an attempt to send a request amounts to for the one who made it.
pub fn delivery(outcome: Result<(), SendError<ClientRequest>>) -> (r: Result<(), ClientError>)
    ensures
        r is Ok <==> outcome is Ok,
        r is Err ==> r == Err::<(), ClientError>(ClientError::Disconnected),
{
    match outcome {
        Ok(()) => Ok(()),
        Err(_) => Err(ClientError::Disconnected),
    }
}

impl MpvAdvancedClient {
    /// What requests are sent through.
    pub closed spec fn sender(self) -> Sender<ClientRequest> {
        self.omt_send
    }

    /// Where the callbacks of mpv are heard of.
    pub closed spec fn listener(self) -> Receiver<MpvEvent> {
        self.events
    }

    /// The requests that mpv has not answered.
    pub closed spec fn unanswered(self) -> Map<u64, ClientRequest> {
        self.outstanding@
    }

    /// Sending never waits for room in the channel.
    pub closed spec fn never_waits(self) -> bool {
        crate::channel::capacity(self.omt_send) is None
    }

    /// The invariant of a client.
    pub open spec fn wf(self) -> bool {
        self@.wf() && self.never_waits()
    }

    /// A client that has sent nothing, and the end of its channel for the thread that
    /// talks to mpv. The callbacks of mpv are heard of through the other end that is returned.
    pub fn new() -> (r: (MpvAdvancedClient, Receiver<ClientRequest>, Sender<MpvEvent>))
        ensures
            r.0.wf(),
            r.0@ == (ClientView {
                next_id: 1,
                outstanding: Map::empty(),
                sent: Seq::empty(),
                state: initial_state(),
                channel: crate::channel::channel_of_receiver(r.1),
                gone: false,
                wakeups: crate::channel::channel_of_notifier(r.2),
                polls: Seq::empty(),
            }),
    {
        let (wakeup_send, events) = unbounded_events();
        let (omt_send, omt_recv) = unbounded();
        let client = MpvAdvancedClient {
            events,
            omt_send,
            next_id: 1,
            outstanding: HashMap::new(),
            async_state: AsyncClientState::default(),
        };
        assert(client@.outstanding =~= Map::empty());
        (client, omt_recv, wakeup_send)
    }

    fn submit(&mut self, msg: ClientRequest) -> (r: Result<(), ClientError>)
        requires
            old(self).wf(),
            old(self)@.ids_left() >= 1,
            msg@.task_id() == Some(old(self)@.next_id),
        ensures
            final(self).wf(),
            old(self)@.gone ==> r is Err,
            final(self)@ == old(self)@.submit(msg@, r is Ok),
    {
        let ghost before = self@;
        let ghost m = msg@;
        let id = self.next_id;
        self.next_id = self.next_id + 1;
        self.outstanding.insert(id, msg.clone());
        let outcome = send(&mut self.omt_send, msg);
        proof {
            assert(self@.outstanding =~= before.outstanding.insert(id, m));
            assert(self@ =~= before.submit(m, outcome is Ok));
        }
        delivery(outcome)
    }

    /// Sends the command `name` with `args`.
    pub fn command_async(&mut self, name: &str, args: &[&str]) -> (r: Result<(), ClientError>)
        requires
            old(self).wf(),
            old(self)@.ids_left() >= 1,
        ensures
            final(self).wf(),
            old(self)@.gone ==> r is Err,
            final(self)@ == old(self)@.command(
                seq![name@] + crate::text::slices(args@),
                r is Ok,
            ),
    {
        let mut cmd: Vec<String> = Vec::new();
        cmd.push(name.to_owned());
        let mut i: usize = 0;
        while i < args.len()
            invariant
                i <= args@.len(),
                crate::text::texts(cmd@) =~= seq![name@] + crate::text::slices(args@).take(i as int),
            decreases args.len() - i,
        {
            let ghost words = crate::text::slices(args@);
            let ghost before = crate::text::texts(cmd@);
            let word: String = args[i].to_owned();
            cmd.push(word);
            proof {
                assert(words[i as int] == args@[i as int]@);
                assert(crate::text::texts(cmd@) =~= before.push(words[i as int]));
                assert(words.take(i + 1) =~= words.take(i as int).push(words[i as int]));
            }
            i = i + 1;
        }
        assert(crate::text::texts(cmd@) =~= seq![name@] + crate::text::slices(args@));
        let id = self.next_id;
        self.submit(ClientRequest::Command(id, cmd))
    }

    /// Tells the thread that talks to mpv that request `reply_userdata` has been answered, and
    /// takes the request off the outstanding ones.
    pub fn send_reply_receipt(&mut self, reply_userdata: u64, error: i32) -> (r: Result<
        Receipt,
        ClientError,
    >)
        requires
            old(self).wf(),
        ensures
            final(self).wf(),
            match r {
                Ok(receipt) => {
                    &&& !old(self)@.gone
                    &&& final(self)@ == old(self)@.receipt(reply_userdata)
                    &&& match receipt {
                        Receipt::Done(request) => {
                            &&& old(self)@.outstanding.contains_key(reply_userdata)
                            &&& error == 0
                            &&& request@ == old(self)@.outstanding[reply_userdata]
                        },
                        Receipt::Failed(request) => {
                            &&& old(self)@.outstanding.contains_key(reply_userdata)
                            &&& error != 0
                            &&& request@ == old(self)@.outstanding[reply_userdata]
                        },
                        Receipt::Missing => !old(self)@.outstanding.contains_key(reply_userdata),
                    }
                },
                Err(_) => final(self)@ == old(self)@.found_gone(),
            },
    {
        let ghost before = self@;
        let outcome = send(&mut self.omt_send, ClientRequest::Completed(reply_userdata));
        match delivery(outcome) {
            Ok(()) => {},
            Err(e) => {
                assert(self@.outstanding =~= before.outstanding);
                assert(self@ =~= before.found_gone());
                return Err(e);
            },
        }
        let request = self.outstanding.remove(&reply_userdata);
        proof {
            assert(self@.outstanding =~= before.outstanding.remove(reply_userdata));
            assert(self@ =~= before.receipt(reply_userdata));
        }
        match request {
            Some(request) => if error == 0 {
                Ok(Receipt::Done(request))
            } else {
                Ok(Receipt::Failed(request))
            },
            None => Ok(Receipt::Missing),
        }
    }

    fn expects(&self, id: u64, property: PropertyData) -> (r: bool)
        requires
            self@.outstanding.contains_key(id),
        ensures
            r == self@.expects(id, property),
    {
        match self.outstanding.get(&id) {
            Some(request) => match (property, request) {
                (PropertyData::Flag(_), ClientRequest::GetPropertyFlag(_, name)) => text_is(
                    name,
                    "pause",
                ),
                (PropertyData::Double(_), ClientRequest::GetPropertyDouble(_, name)) => {
                    text_is(name, "percent-pos") || text_is(name, "time-pos") || text_is(
                        name,
                        "time-remaining",
                    ) || text_is(name, "duration")
                },
                (PropertyData::Ignored, _) => true,
                _ => false,
            },
            None => false,
        }
    }

    /// Whether `event` can have come.
    pub fn admits(&self, event: &CoreEvent) -> (r: bool)
        ensures
            r == self@.admits(*event),
    {
        match event_kind(event.event_id) {
            EventKind::PropertyReply => match &event.data {
                EventData::Property(property) => {
                    if event.error == 0 && self.outstanding.contains_key(&event.reply_userdata) {
                        self.expects(event.reply_userdata, *property)
                    } else {
                        true
                    }
                },
                _ => true,
            },
            EventKind::LogMessage => match &event.data {
                EventData::LogMessage(_, _) => true,
                _ => false,
            },
            EventKind::StartFile => match &event.data {
                EventData::StartFile(_) => true,
                _ => false,
            },
            _ => true,
        }
    }

    /// Whether `event` brings a number that tells how large the video is, to someone who has asked
    /// for it.
    pub fn brings_size(&self, event: &CoreEvent) -> (r: bool)
        ensures
            r == self@.brings_size(*event),
    {
        if event_kind(event.event_id) != EventKind::PropertyReply || event.error != 0 {
            return false;
        }
        match (&event.data, self.outstanding.get(&event.reply_userdata)) {
            (
                EventData::Property(PropertyData::Double(_)),
                Some(ClientRequest::GetPropertyDouble(_, name)),
            ) => text_is(name, "width") || text_is(name, "height"),
            _ => false,
        }
    }

    fn handle_reply(&mut self, event: &CoreEvent, property: Option<PropertyData>) -> (r: Result<
        EventNote,
        ClientError,
    >)
        requires
            old(self).wf(),
            event.kind() == EventKind::Reply ==> property is None,
            event.kind() == EventKind::Reply || event.kind() == EventKind::PropertyReply,
            event.kind() == EventKind::PropertyReply ==> property == (match event.data {
                EventData::Property(p) => Some(p),
                _ => None::<PropertyData>,
            }),
        ensures
            final(self).wf(),
            match r {
                Ok(note) => {
                    &&& !old(self)@.gone
                    &&& final(self)@ == old(self)@.after_event(*event)
                    &&& old(self)@.notes(*event, note)
                },
                Err(_) => final(self)@ == old(self)@.found_gone(),
            },
    {
        match self.send_reply_receipt(event.reply_userdata, event.error) {
            Err(e) => Err(e),
            Ok(Receipt::Done(request)) => {
                if let Some(property) = property {
                    self.async_state.store(&request, property);
                }
                Ok(EventNote::ReplyOk(request.to_string()))
            },
            Ok(Receipt::Failed(request)) => Ok(
                EventNote::ReplyError(event.error, request.to_string()),
            ),
            Ok(Receipt::Missing) => Ok(EventNote::MissingTask),
        }
    }

    /// Takes in one event of mpv.
    pub fn handle_event(&mut self, event: &CoreEvent) -> (r: Result<EventNote, ClientError>)
        requires
            old(self).wf(),
            old(self)@.admits(*event),
        ensures
            final(self).wf(),
            match r {
                Ok(note) => {
                    &&& event.is_reply() ==> !old(self)@.gone
                    &&& final(self)@ == old(self)@.after_event(*event)
                    &&& old(self)@.notes(*event, note)
                },
                Err(_) => {
                    &&& event.is_reply()
                    &&& final(self)@ == old(self)@.found_gone()
                },
            },
    {
        match event_kind(event.event_id) {
            EventKind::Nothing => Ok(EventNote::Drained),
            EventKind::Reply => self.handle_reply(event, None),
            EventKind::PropertyReply => match &event.data {
                EventData::Property(property) => self.handle_reply(event, Some(*property)),
                _ => self.handle_reply(event, None),
            },
            EventKind::LogMessage => match &event.data {
                EventData::LogMessage(raw, text) => Ok(
                    EventNote::Log(log_level(*raw), split_lines(text.as_str())),
                ),
                _ => Ok(EventNote::Unrecognized),
            },
            EventKind::StartFile => match &event.data {
                EventData::StartFile(entry) => Ok(EventNote::FileStarted(*entry)),
                _ => Ok(EventNote::Unrecognized),
            },
            EventKind::EndFile => Ok(EventNote::FileEnded),
            EventKind::Idle => Ok(EventNote::Idle),
            EventKind::FileLoaded => Ok(EventNote::FileLoaded),
            EventKind::AudioReconfig => Ok(EventNote::AudioReconfig),
            EventKind::VideoReconfig => Ok(EventNote::VideoReconfig),
            EventKind::Seek => Ok(EventNote::Seek),
            EventKind::PlaybackRestart => Ok(EventNote::PlaybackRestart),
            EventKind::Unrecognized => Ok(EventNote::Unrecognized),
        }
    }

    /// Takes in an event that tells how large the video is.
    pub fn handle_size_reply(&mut self, event: &CoreEvent) -> (r: Result<EventNote, ClientError>)
        requires
            old(self).wf(),
            old(self)@.brings_size(*event),
        ensures
            final(self).wf(),
            match r {
                Ok(note) => {
                    &&& !old(self)@.gone
                    &&& final(self)@ == old(self)@.after_event(*event)
                    &&& old(self)@.notes(*event, note)
                },
                Err(_) => final(self)@ == old(self)@.found_gone(),
            },
    {
        match &event.data {
            EventData::Property(property) => self.handle_reply(event, Some(*property)),
            _ => self.handle_reply(event, None),
        }
    }

    /// Asks mpv how large the video is.
    pub fn request_size(&mut self) -> (r: Result<(), ClientError>)
        requires
            old(self).wf(),
            old(self)@.ids_left() >= 2,
        ensures
            final(self).wf(),
            old(self)@.submits(size_requests(old(self)@.next_id), final(self)@, r is Ok),
    {
        let ghost before = self@;
        let ghost all = size_requests(before.next_id);
        proof {
            reveal_with_fuel(ClientView::submit_all, 3);
            assert(all.take(0) =~= Seq::empty());
            assert(all.take(1) =~= seq![all[0]]);
            assert(all.take(1).drop_last() =~= Seq::empty());
            assert(all.drop_last() =~= all.take(1));
        }
        let result = self.get_property_double_async("width");
        if result.is_err() {
            assert(self@ == before.submit_all(all.take(0)).submit(all[0], false));
            return result;
        }
        let result = self.get_property_double_async("height");
        assert(result is Err ==> self@ == before.submit_all(all.take(1)).submit(all[1], false));
        result
    }

    /// Asks mpv for what is kept up to date.
    pub fn request_state(&mut self) -> (r: Result<(), ClientError>)
        requires
            old(self).wf(),
            old(self)@.ids_left() >= 5,
        ensures
            final(self).wf(),
            old(self)@.submits(poll_requests(old(self)@.next_id), final(self)@, r is Ok),
    {
        let ghost before = self@;
        let ghost all = poll_requests(before.next_id);
        let numbers: [&str; 4] = ["percent-pos", "time-pos", "time-remaining", "duration"];
        proof {
            assert(all.take(0) =~= Seq::empty());
            assert(before.submit_all(all.take(0)) == before);
            assert(all.take(1).drop_last() =~= all.take(0));
        }
        let result = self.get_property_flag_async("pause");
        if result.is_err() {
            return result;
        }
        let mut i: usize = 0;
        while i < 4
            invariant
                i <= 4,
                self.wf(),
                before == old(self)@,
                before.ids_left() >= 5,
                all == poll_requests(before.next_id),
                numbers@ == seq!["percent-pos", "time-pos", "time-remaining", "duration"],
                self@ == before.submit_all(all.take(i + 1)),
                self@.next_id == before.next_id + i + 1,
                !before.gone,
                self@.gone == before.gone,
            decreases 4 - i,
        {
            let result = self.get_property_double_async(numbers[i]);
            proof {
                assert(all.take(i + 2).drop_last() =~= all.take(i + 1));
                assert(all.take(i + 2).last() == all[i + 1]);
            }
            if result.is_err() {
                return result;
            }
            i = i + 1;
        }
        assert(all.take(5) =~= all);
        Ok(())
    }

    /// Whether another callback of mpv was called.
    pub fn poll_wakeup(&mut self) -> (r: DrainSignal)
        ensures
            old(self).wf() ==> final(self).wf(),
            match r {
                DrainSignal::Wakeup(event) => final(self)@ == old(self)@.poll(Some(event)),
                DrainSignal::NoWakeup => final(self)@ == old(self)@.poll(None),
                _ => false,
            },
    {
        match try_recv(&mut self.events) {
            Some(event) => DrainSignal::Wakeup(event),
            None => DrainSignal::NoWakeup,
        }
    }

    /// One step of a pass over the wakeups and events of mpv. When no wakeup is left, the pass
    /// ends with a request for what is kept up to date.
    pub fn drain_events(&mut self, pass: &mut DrainPass, signal: &DrainSignal) -> (r: Result<
        (DrainStep, Option<EventNote>),
        ClientError,
    >)
        requires
            old(self).wf(),
            old(self)@.admits_signal(*signal),
        ensures
            final(self).wf(),
            drains(old(self)@, *old(pass), *signal, final(self)@, *final(pass), r),
    {
        match signal {
            DrainSignal::Wakeup(_) => Ok((DrainStep::WaitEvent, None)),
            DrainSignal::NoEvent => Ok((DrainStep::PollWakeup, None)),
            DrainSignal::NoWakeup => match self.request_state() {
                Ok(()) => Ok((DrainStep::Finished(pass.stopped), None)),
                Err(e) => Err(e),
            },
            DrainSignal::Event(event) => match self.handle_event(event) {
                Err(e) => Err(e),
                Ok(note) => {
                    let step = match &note {
                        EventNote::Drained => DrainStep::PollWakeup,
                        EventNote::FileEnded => {
                            pass.stopped = true;
                            DrainStep::WaitEvent
                        },
                        _ => DrainStep::WaitEvent,
                    };
                    Ok((step, Some(note)))
                },
            },
            DrainSignal::SizeReply(event) => match self.handle_size_reply(event) {
                Err(e) => Err(e),
                Ok(note) => Ok((DrainStep::WaitEvent, Some(note))),
            },
        }
    }

    /// Tells the thread that talks to mpv to leave its loop.
    pub fn send_exit(&mut self) -> (r: Result<(), ClientError>)
        requires
            old(self).wf(),
        ensures
            final(self).wf(),
            old(self)@.gone ==> r is Err,
            final(self)@ == old(self)@.exit(r is Ok),
    {
        let ghost before = self@;
        let outcome = send(&mut self.omt_send, ClientRequest::Exit);
        assert(self@.outstanding =~= before.outstanding);
        delivery(outcome)
    }

    fn command1(&mut self, name: &str) -> (r: Result<(), ClientError>)
        requires
            old(self).wf(),
            old(self)@.ids_left() >= 1,
        ensures
            final(self).wf(),
            old(self)@.gone ==> r is Err,
            final(self)@ == old(self)@.command(seq![name@], r is Ok),
    {
        let args: [&str; 0] = [];
        assert(seq![name@] + crate::text::slices(args@) =~= seq![name@]);
        self.command_async(name, &args)
    }

    fn command2(&mut self, name: &str, arg: &str) -> (r: Result<(), ClientError>)
        requires
            old(self).wf(),
            old(self)@.ids_left() >= 1,
        ensures
            final(self).wf(),
            old(self)@.gone ==> r is Err,
            final(self)@ == old(self)@.command(seq![name@, arg@], r is Ok),
    {
        let args: [&str; 1] = [arg];
        assert(seq![name@] + crate::text::slices(args@) =~= seq![name@, arg@]);
        self.command_async(name, &args)
    }

    fn command3(&mut self, name: &str, first: &str, second: &str) -> (r: Result<(), ClientError>)
        requires
            old(self).wf(),
            old(self)@.ids_left() >= 1,
        ensures
            final(self).wf(),
            old(self)@.gone ==> r is Err,
            final(self)@ == old(self)@.command(seq![name@, first@, second@], r is Ok),
    {
        let args: [&str; 2] = [first, second];
        assert(seq![name@] + crate::text::slices(args@) =~= seq![name@, first@, second@]);
        self.command_async(name, &args)
    }

    /// Asks mpv to set the flag `name`.
    pub fn set_property_flag_async(&mut self, name: &str, value: bool) -> (r: Result<(), ClientError>)
        requires
            old(self).wf(),
            old(self)@.ids_left() >= 1,
        ensures
            final(self).wf(),
            old(self)@.gone ==> r is Err,
            final(self)@ == old(self)@.set_flag(name@, value, r is Ok),
    {
        let id = self.next_id;
        self.submit(ClientRequest::SetPropertyFlag(id, name.to_owned(), value))
    }

    /// Asks mpv for the flag `name`.
    pub fn get_property_flag_async(&mut self, name: &str) -> (r: Result<(), ClientError>)
        requires
            old(self).wf(),
            old(self)@.ids_left() >= 1,
        ensures
            final(self).wf(),
            old(self)@.gone ==> r is Err,
            final(self)@ == old(self)@.get_flag(name@, r is Ok),
    {
        let id = self.next_id;
        self.submit(ClientRequest::GetPropertyFlag(id, name.to_owned()))
    }

    /// Asks mpv for the number `name`.
    pub fn get_property_double_async(&mut self, name: &str) -> (r: Result<(), ClientError>)
        requires
            old(self).wf(),
            old(self)@.ids_left() >= 1,
        ensures
            final(self).wf(),
            old(self)@.gone ==> r is Err,
            final(self)@ == old(self)@.get_double(name@, r is Ok),
    {
        let id = self.next_id;
        self.submit(ClientRequest::GetPropertyDouble(id, name.to_owned()))
    }

    /// Seek forward relatively from the current position. `secs` is the number of seconds, written
    /// out. This is less exact than `seek_absolute_async`.
    pub fn seek_forward_async(&mut self, secs: &str) -> (r: Result<(), ClientError>)
        requires
            old(self).wf(),
            old(self)@.ids_left() >= 1,
        ensures
            final(self).wf(),
            old(self)@.gone ==> r is Err,
            final(self)@ == old(self)@.seek_forward(secs@, r is Ok),
    {
        self.command3("seek", secs, "relative")
    }

    /// See `seek_forward_async`.
    pub fn seek_backward_async(&mut self, secs: &str) -> (r: Result<(), ClientError>)
        requires
            old(self).wf(),
            old(self)@.ids_left() >= 1,
        ensures
            final(self).wf(),
            old(self)@.gone ==> r is Err,
            final(self)@ == old(self)@.seek_backward(secs@, r is Ok),
    {
        let offset = "-".to_owned().concat(secs);
        self.command3("seek", offset.as_str(), "relative")
    }

    /// Seek to a given position, in seconds, written out.
    pub fn seek_absolute_async(&mut self, secs: &str) -> (r: Result<(), ClientError>)
        requires
            old(self).wf(),
            old(self)@.ids_left() >= 1,
        ensures
            final(self).wf(),
            old(self)@.gone ==> r is Err,
            final(self)@ == old(self)@.command(seq!["seek"@, secs@, "absolute"@], r is Ok),
    {
        self.command3("seek", secs, "absolute")
    }

    /// Seek to a given relative percent position (may be negative).
    /// If `percent` of the playtime is bigger than the remaining playtime, mpv plays the next file;
    /// a position out of bounds it clamps to either 0 or 100.
    pub fn seek_percent_async(&mut self, percent: isize) -> (r: Result<(), ClientError>)
        requires
            old(self).wf(),
            old(self)@.ids_left() >= 1,
        ensures
            final(self).wf(),
            old(self)@.gone ==> r is Err,
            final(self)@ == old(self)@.command(seq!["seek"@, crate::text::signed_decimal(percent as int), "relative-percent"@], r is Ok),
    {
        let offset = signed_decimal_text(percent as i64);
        self.command3("seek", offset.as_str(), "relative-percent")
    }

    /// Seek to the given percentage of the playtime.
    pub fn seek_percent_absolute_async(&mut self, percent: usize) -> (r: Result<(), ClientError>)
        requires
            old(self).wf(),
            old(self)@.ids_left() >= 1,
        ensures
            final(self).wf(),
            old(self)@.gone ==> r is Err,
            final(self)@ == old(self)@.command(seq!["seek"@, crate::text::decimal(percent as nat), "absolute-percent"@], r is Ok),
    {
        let position = decimal_text(percent as u64);
        self.command3("seek", position.as_str(), "absolute-percent")
    }

    /// Revert the previous `seek_` call, can also revert itself.
    pub fn seek_revert_async(&mut self) -> (r: Result<(), ClientError>)
        requires
            old(self).wf(),
            old(self)@.ids_left() >= 1,
        ensures
            final(self).wf(),
            old(self)@.gone ==> r is Err,
            final(self)@ == old(self)@.command(seq!["revert-seek"@], r is Ok),
    {
        self.command1("revert-seek")
    }

    /// Mark the current position as the position that will be sought to by `seek_revert_async`.
    pub fn seek_revert_mark_async(&mut self) -> (r: Result<(), ClientError>)
        requires
            old(self).wf(),
            old(self)@.ids_left() >= 1,
        ensures
            final(self).wf(),
            old(self)@.gone ==> r is Err,
            final(self)@ == old(self)@.command(seq!["revert-seek"@, "mark"@], r is Ok),
    {
        self.command2("revert-seek", "mark")
    }

    /// Seek exactly one frame, and pause.
    /// Noop on audio only streams.
    pub fn seek_frame_async(&mut self) -> (r: Result<(), ClientError>)
        requires
            old(self).wf(),
            old(self)@.ids_left() >= 1,
        ensures
            final(self).wf(),
            old(self)@.gone ==> r is Err,
            final(self)@ == old(self)@.command(seq!["frame-step"@], r is Ok),
    {
        self.command1("frame-step")
    }

    /// See `seek_frame_async`.
    pub fn seek_frame_backward_async(&mut self) -> (r: Result<(), ClientError>)
        requires
            old(self).wf(),
            old(self)@.ids_left() >= 1,
        ensures
            final(self).wf(),
            old(self)@.gone ==> r is Err,
            final(self)@ == old(self)@.command(seq!["frame-back-step"@], r is Ok),
    {
        self.command1("frame-back-step")
    }

    /// Play the next item of the current playlist.
    /// Does nothing if the current item is the last item.
    pub fn playlist_next_weak_async(&mut self) -> (r: Result<(), ClientError>)
        requires
            old(self).wf(),
            old(self)@.ids_left() >= 1,
        ensures
            final(self).wf(),
            old(self)@.gone ==> r is Err,
            final(self)@ == old(self)@.command(seq!["playlist-next"@, "weak"@], r is Ok),
    {
        self.command2("playlist-next", "weak")
    }

    /// Play the next item of the current playlist.
    /// Terminates playback if the current item is the last item.
    pub fn playlist_next_force_async(&mut self) -> (r: Result<(), ClientError>)
        requires
            old(self).wf(),
            old(self)@.ids_left() >= 1,
        ensures
            final(self).wf(),
            old(self)@.gone ==> r is Err,
            final(self)@ == old(self)@.command(seq!["playlist-next"@, "force"@], r is Ok),
    {
        self.command2("playlist-next", "force")
    }

    /// See `playlist_next_weak_async`.
    pub fn playlist_previous_weak_async(&mut self) -> (r: Result<(), ClientError>)
        requires
            old(self).wf(),
            old(self)@.ids_left() >= 1,
        ensures
            final(self).wf(),
            old(self)@.gone ==> r is Err,
            final(self)@ == old(self)@.command(seq!["playlist-prev"@, "weak"@], r is Ok),
    {
        self.command2("playlist-prev", "weak")
    }

    /// See `playlist_next_force_async`.
    pub fn playlist_previous_force_async(&mut self) -> (r: Result<(), ClientError>)
        requires
            old(self).wf(),
            old(self)@.ids_left() >= 1,
        ensures
            final(self).wf(),
            old(self)@.gone ==> r is Err,
            final(self)@ == old(self)@.command(seq!["playlist-prev"@, "force"@], r is Ok),
    {
        self.command2("playlist-prev", "force")
    }

    /// Loads each of `files` in turn: its name, how it is added to the playlist, and options for
    /// its playback. Stops at the first that cannot be sent.
    pub fn playlist_load_files_async(
        &mut self,
        files: &[(&str, FileState, Option<&str>)],
    ) -> (r: Result<(), ClientError>)
        requires
            old(self).wf(),
            old(self)@.ids_left() >= files@.len(),
        ensures
            final(self).wf(),
            old(self)@.submits(load_requests(old(self)@.next_id, files@), final(self)@, r is Ok),
    {
        let ghost before = self@;
        let ghost all = load_requests(before.next_id, files@);
        let mut i: usize = 0;
        while i < files.len()
            invariant
                i <= files@.len(),
                self.wf(),
                before == old(self)@,
                before.ids_left() >= files@.len(),
                all == load_requests(before.next_id, files@),
                self@ == before.submit_all(all.take(i as int)),
                self@.next_id == before.next_id + i,
                i > 0 ==> !before.gone,
                self@.gone == before.gone,
            decreases files.len() - i,
        {
            let (name, state, options) = files[i];
            let ghost words = load_words(files@[i as int]);
            let result = match options {
                None => self.command3("loadfile", name, state.val()),
                Some(options) => {
                    let args: [&str; 3] = [name, state.val(), options];
                    assert(seq!["loadfile"@] + crate::text::slices(args@) =~= words);
                    self.command_async("loadfile", &args)
                },
            };
            proof {
                assert(all[i as int] == RequestView::Command((before.next_id + i) as u64, words));
                assert(all.take(i + 1).drop_last() =~= all.take(i as int));
            }
            if result.is_err() {
                return result;
            }
            i = i + 1;
        }
        assert(all.take(i as int) =~= all);
        Ok(())
    }

    /// Remove every, except the current, item from the playlist.
    pub fn playlist_clear_async(&mut self) -> (r: Result<(), ClientError>)
        requires
            old(self).wf(),
            old(self)@.ids_left() >= 1,
        ensures
            final(self).wf(),
            old(self)@.gone ==> r is Err,
            final(self)@ == old(self)@.command(seq!["playlist-clear"@], r is Ok),
    {
        self.command1("playlist-clear")
    }

    /// Remove the currently selected item from the playlist.
    pub fn playlist_remove_current_async(&mut self) -> (r: Result<(), ClientError>)
        requires
            old(self).wf(),
            old(self)@.ids_left() >= 1,
        ensures
            final(self).wf(),
            old(self)@.gone ==> r is Err,
            final(self)@ == old(self)@.command(seq!["playlist-remove"@, "current"@], r is Ok),
    {
        self.command2("playlist-remove", "current")
    }

    /// Remove item at `position` from the playlist.
    pub fn playlist_remove_index_async(&mut self, position: usize) -> (r: Result<(), ClientError>)
        requires
            old(self).wf(),
            old(self)@.ids_left() >= 1,
        ensures
            final(self).wf(),
            old(self)@.gone ==> r is Err,
            final(self)@ == old(self)@.command(seq!["playlist-remove"@, crate::text::decimal(position as nat)], r is Ok),
    {
        let index = decimal_text(position as u64);
        self.command2("playlist-remove", index.as_str())
    }

    /// Move item `from` to the position of item `to`. mpv takes the item that moves first, and then
    /// the item whose place it takes.
    pub fn playlist_move_async(&mut self, from: usize, to: usize) -> (r: Result<(), ClientError>)
        requires
            old(self).wf(),
            old(self)@.ids_left() >= 1,
        ensures
            final(self).wf(),
            old(self)@.gone ==> r is Err,
            final(self)@ == old(self)@.command(seq!["playlist-move"@, crate::text::decimal(from as nat), crate::text::decimal(to as nat)], r is Ok),
    {
        let first = decimal_text(from as u64);
        let second = decimal_text(to as u64);
        self.command3("playlist-move", first.as_str(), second.as_str())
    }

    /// Shuffle the playlist.
    pub fn playlist_shuffle_async(&mut self) -> (r: Result<(), ClientError>)
        requires
            old(self).wf(),
            old(self)@.ids_left() >= 1,
        ensures
            final(self).wf(),
            old(self)@.gone ==> r is Err,
            final(self)@ == old(self)@.command(seq!["playlist-shuffle"@], r is Ok),
    {
        self.command1("playlist-shuffle")
    }

    /// Pause the playback.
    pub fn pause_async(&mut self) -> (r: Result<(), ClientError>)
        requires
            old(self).wf(),
            old(self)@.ids_left() >= 1,
        ensures
            final(self).wf(),
            old(self)@.gone ==> r is Err,
            final(self)@ == old(self)@.set_flag("pause"@, true, r is Ok),
    {
        self.set_property_flag_async("pause", true)
    }

    /// Resume the playback.
    pub fn unpause_async(&mut self) -> (r: Result<(), ClientError>)
        requires
            old(self).wf(),
            old(self)@.ids_left() >= 1,
        ensures
            final(self).wf(),
            old(self)@.gone ==> r is Err,
            final(self)@ == old(self)@.set_flag("pause"@, false, r is Ok),
    {
        self.set_property_flag_async("pause", false)
    }

    /// Whether the playback was paused when mpv last reported it.
    pub fn is_paused(&self) -> (r: bool)
        ensures
            r == self@.state.is_paused,
    {
        self.async_state.is_paused
    }

    /// The position in percent of the playtime, as mpv last reported it.
    pub fn percent_pos(&self) -> (r: Double)
        ensures
            r == self@.state.percent_pos,
    {
        self.async_state.percent_pos
    }

    /// The position in seconds, as mpv last reported it.
    pub fn time_pos(&self) -> (r: Double)
        ensures
            r == self@.state.time_pos,
    {
        self.async_state.time_pos
    }

    /// The remaining playtime in seconds, as mpv last reported it.
    pub fn time_remaining(&self) -> (r: Double)
        ensures
            r == self@.state.time_remaining,
    {
        self.async_state.time_remaining
    }

    /// The playtime in seconds, as mpv last reported it.
    pub fn duration(&self) -> (r: Double)
        ensures
            r == self@.state.duration,
    {
        self.async_state.duration
    }

    /// The width of the video, as mpv last reported it.
    pub fn width(&self) -> (r: Double)
        ensures
            r == self@.state.width,
    {
        self.async_state.width
    }

    /// The height of the video, as mpv last reported it.
    pub fn height(&self) -> (r: Double)
        ensures
            r == self@.state.height,
    {
        self.async_state.height
    }

    /// How many more requests can be numbered.
    pub fn ids_left(&self) -> (r: u64)
        ensures
            r == self@.ids_left(),
    {
        u64::MAX - self.next_id
    }
}

/// What a client has sent is what has gone into its channel, request by request, what polling has
/// brought is what its receiver has handed out, and what is outstanding is what it has not had
/// answered.
pub proof fn client_shows_its_channels(client: MpvAdvancedClient)
    ensures
        client@.sent == crate::channel::sent(client.sender()),
        client@.channel == crate::channel::channel_of_sender(client.sender()),
        client@.gone == crate::channel::gone(client.sender()),
        client@.polls == crate::channel::polls(client.listener()),
        client@.wakeups == crate::channel::channel_of_listener(client.listener()),
        client@.outstanding.dom() == client.unanswered().dom(),
        forall|id: u64| #[trigger]
            client.unanswered().contains_key(id) ==> client@.outstanding[id]
                == client.unanswered()[id]@,
{
    assert(client@.outstanding.dom() =~= client.unanswered().dom());
}

/// Submitting several requests sends them in order behind those sent before, and takes as many
/// numbers.
pub proof fn submits_in_order(client: ClientView, requests: Seq<RequestView>)
    requires
        client.ids_left() >= requests.len(),
    ensures
        client.submit_all(requests).sent == client.sent + requests,
        client.submit_all(requests).next_id == client.next_id + requests.len(),
        client.submit_all(requests).state == client.state,
        client.submit_all(requests).channel == client.channel,
        client.submit_all(requests).gone == client.gone,
        client.submit_all(requests).wakeups == client.wakeups,
        client.submit_all(requests).polls == client.polls,
    decreases requests.len(),
{
    if requests.len() == 0 {
        assert(client.sent + requests =~= client.sent);
    } else {
        submits_in_order(client, requests.drop_last());
        assert(client.sent + requests =~= (client.sent + requests.drop_last()).push(
            requests.last(),
        ));
    }
}

/// What stands for the negated number, where `number` is one written out.
pub open spec fn negated(number: Seq<char>) -> Seq<char> {
    if number.len() > 0 && number[0] == '-' {
        number.skip(1)
    } else {
        "-"@ + number
    }
}

/// Seeking backward by a number that is not negative is seeking forward by the negated number, and
/// sends the same command.
pub proof fn backward_is_negated_forward(client: ClientView, secs: Seq<char>, delivered: bool)
    requires
        secs.len() > 0,
        secs[0] != '-',
    ensures
        client.seek_backward(secs, delivered) == client.seek_forward(negated(secs), delivered),
        client.seek_forward(secs, true).sent == client.sent.push(
            RequestView::Command(client.next_id, seq!["seek"@, secs, "relative"@]),
        ),
        client.seek_backward(secs, true).sent == client.sent.push(
            RequestView::Command(client.next_id, seq!["seek"@, "-"@ + secs, "relative"@]),
        ),
{
}

/// What mpv answers for a number is what the client has of it from then on, and the client has
/// everything else as before.
pub proof fn answer_is_kept(client: ClientView, event: CoreEvent, value: Double)
    requires
        event.kind() == EventKind::PropertyReply,
        event.error == 0,
        event.data == EventData::Property(PropertyData::Double(value)),
        client.outstanding.contains_key(event.reply_userdata),
    ensures
        ({
            let request = client.outstanding[event.reply_userdata];
            let old_state = client.state;
            let state = client.after_event(event).state;
            let id = event.reply_userdata;
            &&& request == RequestView::GetPropertyDouble(id, "percent-pos"@) ==> state == (
            AsyncClientState { percent_pos: value, ..old_state })
            &&& request == RequestView::GetPropertyDouble(id, "time-pos"@) ==> state == (
            AsyncClientState { time_pos: value, ..old_state })
            &&& request == RequestView::GetPropertyDouble(id, "time-remaining"@) ==> state == (
            AsyncClientState { time_remaining: value, ..old_state })
            &&& request == RequestView::GetPropertyDouble(id, "duration"@) ==> state == (
            AsyncClientState { duration: value, ..old_state })
            &&& request == RequestView::GetPropertyDouble(id, "width"@) ==> state == (
            AsyncClientState { width: value, ..old_state })
            &&& request == RequestView::GetPropertyDouble(id, "height"@) ==> state == (
            AsyncClientState { height: value, ..old_state })
        }),
{
    reveal_strlit("percent-pos");
    reveal_strlit("time-pos");
    reveal_strlit("time-remaining");
    reveal_strlit("duration");
    reveal_strlit("width");
    reveal_strlit("height");
    assert("percent-pos"@.len() == 11);
    assert("time-pos"@.len() == 8);
    assert("duration"@.len() == 8 && "duration"@[0] == 'd');
    assert("time-pos"@[0] == 't');
    assert("time-remaining"@.len() == 14);
    assert("width"@.len() == 5);
    assert("height"@.len() == 6);
}

/// What mpv answers for `pause` is what the client has of it from then on, and the client has
/// everything else as before.
pub proof fn pause_answer_is_kept(client: ClientView, event: CoreEvent, flag: i32)
    requires
        event.kind() == EventKind::PropertyReply,
        event.error == 0,
        event.data == EventData::Property(PropertyData::Flag(flag)),
        client.outstanding.contains_key(event.reply_userdata),
        client.outstanding[event.reply_userdata] == RequestView::GetPropertyFlag(
            event.reply_userdata,
            "pause"@,
        ),
    ensures
        client.after_event(event).state == (AsyncClientState { is_paused: flag != 0, ..client.state }),
{
}

/// An answer that reports a failure, and one to a request that is not outstanding, leave
/// everything that mpv has reported as it was.
pub proof fn failed_answer_reports_nothing(client: ClientView, event: CoreEvent)
    requires
        event.error != 0 || !client.outstanding.contains_key(event.reply_userdata),
    ensures
        client.after_event(event).state == client.state,
{
}

impl ClientView {
    /// The state once polling for the callbacks of mpv has brought `signal`, if that is how it came.
    pub open spec fn hears_of(self, signal: DrainSignal) -> ClientView {
        match signal {
            DrainSignal::Wakeup(event) => self.poll(Some(event)),
            DrainSignal::NoWakeup => self.poll(None),
            _ => self,
        }
    }

    /// The state after `signals` have come in order, and the events among them have been taken in.
    pub open spec fn after_signals(self, signals: Seq<DrainSignal>) -> ClientView
        decreases signals.len(),
    {
        if signals.len() == 0 {
            self
        } else {
            let before = self.after_signals(signals.drop_last());
            match signals.last() {
                DrainSignal::Event(event) => before.after_event(event),
                DrainSignal::SizeReply(event) => before.after_event(event),
                signal => before.hears_of(signal),
            }
        }
    }

    /// What mpv has reported up to the last of `signals`: what each event among them reports, on top
    /// of what those before it have.
    pub open spec fn state_after_all(self, signals: Seq<DrainSignal>) -> AsyncClientState
        decreases signals.len(),
    {
        if signals.len() == 0 {
            self.state
        } else {
            let before = self.after_signals(signals.drop_last());
            match signals.last() {
                DrainSignal::Event(event) => before.state_after(event),
                DrainSignal::SizeReply(event) => before.state_after(event),
                _ => self.state_after_all(signals.drop_last()),
            }
        }
    }
}

impl DrainSignal {
    /// The number of the request that it is a reply to.
    pub open spec fn answered(self) -> Option<u64> {
        match self {
            DrainSignal::Event(event) if event.is_reply() => Some(event.reply_userdata),
            DrainSignal::SizeReply(event) if event.is_reply() => Some(event.reply_userdata),
            _ => None,
        }
    }
}

/// The completions of the requests that `signals` are replies to, in order.
pub open spec fn completions(signals: Seq<DrainSignal>) -> Seq<RequestView>
    decreases signals.len(),
{
    if signals.len() == 0 {
        Seq::empty()
    } else {
        match signals.last().answered() {
            Some(id) => completions(signals.drop_last()).push(RequestView::Completed(id)),
            None => completions(signals.drop_last()),
        }
    }
}

/// Whether `signals` make up a pass that starts with `passes[0]`: one after the other, each leads
/// from one client and pass to the next. Those that polling brings are preceded by the poll.
pub open spec fn is_pass(
    clients: Seq<ClientView>,
    passes: Seq<DrainPass>,
    signals: Seq<DrainSignal>,
    results: Seq<Result<(DrainStep, Option<EventNote>), ClientError>>,
) -> bool {
    &&& clients.len() == signals.len() + 1
    &&& passes.len() == signals.len() + 1
    &&& results.len() == signals.len()
    &&& forall|i: int|
        #![trigger signals[i]]
        0 <= i < signals.len() ==> drains(
            clients[i].hears_of(signals[i]),
            passes[i],
            signals[i],
            clients[i + 1],
            passes[i + 1],
            results[i],
        )
}

proof fn stopped_so_far(
    clients: Seq<ClientView>,
    passes: Seq<DrainPass>,
    signals: Seq<DrainSignal>,
    results: Seq<Result<(DrainStep, Option<EventNote>), ClientError>>,
    k: int,
)
    requires
        is_pass(clients, passes, signals, results),
        !passes[0].stopped,
        0 <= k <= signals.len(),
    ensures
        passes[k].stopped <==> exists|i: int| 0 <= i < k && (#[trigger] signals[i]).ends_file(),
    decreases k,
{
    if k > 0 {
        stopped_so_far(clients, passes, signals, results, k - 1);
        let signal = signals[k - 1];
        assert(passes[k].stopped == (passes[k - 1].stopped || signal.ends_file()));
    }
}

/// A pass that comes to its end reports the end of a file if and only if such an event has come
/// during it.
pub proof fn stopped_iff_file_ended(
    clients: Seq<ClientView>,
    passes: Seq<DrainPass>,
    signals: Seq<DrainSignal>,
    results: Seq<Result<(DrainStep, Option<EventNote>), ClientError>>,
    stopped: bool,
)
    requires
        is_pass(clients, passes, signals, results),
        !passes[0].stopped,
        signals.len() > 0,
        results.last() matches Ok((DrainStep::Finished(b), _)) && b == stopped,
    ensures
        stopped <==> exists|i: int|
            0 <= i < signals.len() && (#[trigger] signals[i] matches DrainSignal::Event(event)
                && event.event_id == 7),
{
    let n = signals.len() as int;
    stopped_so_far(clients, passes, signals, results, n);
    assert(signals[n - 1] is NoWakeup);
    assert forall|i: int| 0 <= i < n implies ((#[trigger] signals[i]).ends_file() <==> (
    signals[i] matches DrainSignal::Event(event) && event.event_id == 7)) by {
        if let DrainSignal::Event(event) = signals[i] {
            crate::client_api::events_by_number(event);
        }
    }
}

/// Of signals that come in order, each reply adds the completion of the request that it names, and
/// nothing else adds anything.
pub proof fn completions_follow_replies(signals: Seq<DrainSignal>, signal: DrainSignal)
    ensures
        completions(Seq::empty()) == Seq::<RequestView>::empty(),
        completions(signals.push(signal)) == completions(signals) + (match signal {
            DrainSignal::Event(event) => if 3 <= event.event_id <= 5 {
                seq![RequestView::Completed(event.reply_userdata)]
            } else {
                Seq::empty()
            },
            DrainSignal::SizeReply(event) => if 3 <= event.event_id <= 5 {
                seq![RequestView::Completed(event.reply_userdata)]
            } else {
                Seq::empty()
            },
            _ => Seq::empty(),
        }),
{
    assert(signals.push(signal).drop_last() =~= signals);
    match signal {
        DrainSignal::Event(event) => crate::client_api::events_by_number(event),
        DrainSignal::SizeReply(event) => crate::client_api::events_by_number(event),
        _ => {},
    }
    assert(completions(signals) + Seq::empty() =~= completions(signals));
}

/// Of signals that come in order, each event reports on top of what those before it have, polls add
/// what they have brought, and nothing else changes the client.
pub proof fn signals_are_taken_in_turn(
    client: ClientView,
    signals: Seq<DrainSignal>,
    signal: DrainSignal,
)
    ensures
        client.after_signals(Seq::empty()) == client,
        client.state_after_all(Seq::empty()) == client.state,
        client.after_signals(signals.push(signal)) == (match signal {
            DrainSignal::Event(event) => client.after_signals(signals).after_event(event),
            DrainSignal::SizeReply(event) => client.after_signals(signals).after_event(event),
            DrainSignal::Wakeup(event) => ClientView {
                polls: client.after_signals(signals).polls.push(Some(event)),
                ..client.after_signals(signals)
            },
            DrainSignal::NoWakeup => ClientView {
                polls: client.after_signals(signals).polls.push(None),
                ..client.after_signals(signals)
            },
            DrainSignal::NoEvent => client.after_signals(signals),
        }),
        client.state_after_all(signals) == client.after_signals(signals).state,
    decreases signals.len(),
{
    assert(signals.push(signal).drop_last() =~= signals);
    if signals.len() > 0 {
        signals_are_taken_in_turn(client, signals.drop_last(), signals.last());
        assert(signals.drop_last().push(signals.last()) =~= signals);
    }
}

proof fn taken_in_so_far(
    clients: Seq<ClientView>,
    passes: Seq<DrainPass>,
    signals: Seq<DrainSignal>,
    results: Seq<Result<(DrainStep, Option<EventNote>), ClientError>>,
    k: int,
)
    requires
        is_pass(clients, passes, signals, results),
        0 <= k <= signals.len(),
        forall|i: int| 0 <= i < k ==> (#[trigger] signals[i]) !is NoWakeup,
        forall|i: int| 0 <= i < k ==> (#[trigger] results[i]) is Ok,
    ensures
        clients[k] == clients[0].after_signals(signals.take(k)),
        clients[k].next_id == clients[0].next_id,
        clients[k].sent == clients[0].sent + completions(signals.take(k)),
        clients[k].state == clients[0].state_after_all(signals.take(k)),
    decreases k,
{
    let so_far = signals.take(k);
    if k == 0 {
        assert(clients[0].sent + completions(so_far) =~= clients[0].sent);
    } else {
        taken_in_so_far(clients, passes, signals, results, k - 1);
        assert(so_far.drop_last() =~= signals.take(k - 1));
        let signal = signals[k - 1];
        assert(so_far.last() == signal);
        assert(results[k - 1] is Ok);
        if signal.answered() is Some {
            let done = RequestView::Completed(signal.answered()->0);
            assert(clients[0].sent + completions(so_far) =~= (clients[0].sent + completions(
                signals.take(k - 1),
            )).push(done));
        }
    }
}

/// A pass that comes to its end without an error has sent on the completion of every request that
/// was answered during it, in order, and then the requests for what is kept up to date. What the
/// client has of the playback is what the events of the pass have reported, one after the other.
pub proof fn pass_sends_and_keeps(
    clients: Seq<ClientView>,
    passes: Seq<DrainPass>,
    signals: Seq<DrainSignal>,
    results: Seq<Result<(DrainStep, Option<EventNote>), ClientError>>,
)
    requires
        is_pass(clients, passes, signals, results),
        signals.len() > 0,
        signals.last() is NoWakeup,
        forall|i: int| 0 <= i < signals.len() - 1 ==> (#[trigger] signals[i]) !is NoWakeup,
        forall|i: int| 0 <= i < results.len() ==> (#[trigger] results[i]) is Ok,
        clients[0].ids_left() >= 5,
    ensures
        clients.last() == clients[0].after_signals(signals).submit_all(
            poll_requests(clients[0].next_id),
        ),
        clients.last().sent == clients[0].sent + completions(signals) + seq![
            RequestView::GetPropertyFlag(clients[0].next_id, "pause"@),
            RequestView::GetPropertyDouble((clients[0].next_id + 1) as u64, "percent-pos"@),
            RequestView::GetPropertyDouble((clients[0].next_id + 2) as u64, "time-pos"@),
            RequestView::GetPropertyDouble((clients[0].next_id + 3) as u64, "time-remaining"@),
            RequestView::GetPropertyDouble((clients[0].next_id + 4) as u64, "duration"@),
        ],
        clients.last().state == clients[0].state_after_all(signals),
        clients.last().next_id == clients[0].next_id + 5,
{
    let n = signals.len() - 1;
    taken_in_so_far(clients, passes, signals, results, n);
    assert(signals.drop_last() =~= signals.take(n));
    assert(signals[n] == signals.last());
    assert(results[n] is Ok);
    submits_in_order(clients[n].hears_of(signals[n]), poll_requests(clients[0].next_id));
}

} // verus!

//! Numbers of the mpv client API, and the events that it hands out.
use vstd::prelude::*;

use crate::double::Double;

verus! {

pub const EVENT_NONE: u32 = 0;

pub const EVENT_LOG_MESSAGE: u32 = 2;

pub const EVENT_GET_PROPERTY_REPLY: u32 = 3;

pub const EVENT_SET_PROPERTY_REPLY: u32 = 4;

pub const EVENT_COMMAND_REPLY: u32 = 5;

pub const EVENT_START_FILE: u32 = 6;

pub const EVENT_END_FILE: u32 = 7;

pub const EVENT_FILE_LOADED: u32 = 8;

pub const EVENT_IDLE: u32 = 11;

pub const EVENT_VIDEO_RECONFIG: u32 = 17;

pub const EVENT_AUDIO_RECONFIG: u32 = 18;

pub const EVENT_SEEK: u32 = 20;

pub const EVENT_PLAYBACK_RESTART: u32 = 21;

pub const FORMAT_STRING: u32 = 1;

pub const FORMAT_FLAG: u32 = 3;

pub const FORMAT_DOUBLE: u32 = 5;

pub const FORMAT_BYTE_ARRAY: u32 = 9;

pub const LOG_LEVEL_NONE: u32 = 0;

pub const LOG_LEVEL_FATAL: u32 = 10;

pub const LOG_LEVEL_ERROR: u32 = 20;

pub const LOG_LEVEL_WARN: u32 = 30;

pub const LOG_LEVEL_INFO: u32 = 40;

pub const LOG_LEVEL_V: u32 = 50;

pub const LOG_LEVEL_DEBUG: u32 = 60;

/// How urgent a log message is.
#[derive(Clone, Copy, Debug, PartialEq, Eq, Structural)]
pub enum LogLevel {
    Error,
    Warn,
    Info,
    Debug,
    Trace,
}

/// The level that a numeric log level of mpv stands for.
pub open spec fn spec_log_level(raw: u32) -> LogLevel {
    if raw == LOG_LEVEL_NONE || raw == LOG_LEVEL_FATAL || raw == LOG_LEVEL_ERROR {
        LogLevel::Error
    } else if raw == LOG_LEVEL_WARN {
        LogLevel::Warn
    } else if raw == LOG_LEVEL_INFO {
        LogLevel::Info
    } else if raw == LOG_LEVEL_V || raw == LOG_LEVEL_DEBUG {
        LogLevel::Debug
    } else {
        LogLevel::Trace
    }
}

/// The level that a numeric log level of mpv stands for.
pub fn log_level(raw: u32) -> (r: LogLevel)
    ensures
        r == spec_log_level(raw),
{
    if raw == LOG_LEVEL_NONE || raw == LOG_LEVEL_FATAL || raw == LOG_LEVEL_ERROR {
        LogLevel::Error
    } else if raw == LOG_LEVEL_WARN {
        LogLevel::Warn
    } else if raw == LOG_LEVEL_INFO {
        LogLevel::Info
    } else if raw == LOG_LEVEL_V || raw == LOG_LEVEL_DEBUG {
        LogLevel::Debug
    } else {
        LogLevel::Trace
    }
}

/// What an event is about.
#[derive(Clone, Copy, Debug, PartialEq, Eq, Structural)]
pub enum EventKind {
    /// There is no event.
    Nothing,
    /// mpv has finished a command or the setting of a property.
    Reply,
    /// mpv has finished the reading of a property.
    PropertyReply,
    LogMessage,
    StartFile,
    EndFile,
    Idle,
    FileLoaded,
    AudioReconfig,
    VideoReconfig,
    Seek,
    PlaybackRestart,
    Unrecognized,
}

/// The kind of the events with the number `event_id`.
pub open spec fn spec_event_kind(event_id: u32) -> EventKind {
    if event_id == EVENT_NONE {
        EventKind::Nothing
    } else if event_id == EVENT_SET_PROPERTY_REPLY || event_id == EVENT_COMMAND_REPLY {
        EventKind::Reply
    } else if event_id == EVENT_GET_PROPERTY_REPLY {
        EventKind::PropertyReply
    } else if event_id == EVENT_LOG_MESSAGE {
        EventKind::LogMessage
    } else if event_id == EVENT_START_FILE {
        EventKind::StartFile
    } else if event_id == EVENT_END_FILE {
        EventKind::EndFile
    } else if event_id == EVENT_IDLE {
        EventKind::Idle
    } else if event_id == EVENT_FILE_LOADED {
        EventKind::FileLoaded
    } else if event_id == EVENT_AUDIO_RECONFIG {
        EventKind::AudioReconfig
    } else if event_id == EVENT_VIDEO_RECONFIG {
        EventKind::VideoReconfig
    } else if event_id == EVENT_SEEK {
        EventKind::Seek
    } else if event_id == EVENT_PLAYBACK_RESTART {
        EventKind::PlaybackRestart
    } else {
        EventKind::Unrecognized
    }
}

/// The kind of the events with the number `event_id`.
pub fn event_kind(event_id: u32) -> (r: EventKind)
    ensures
        r == spec_event_kind(event_id),
{
    match event_id {
        EVENT_NONE => EventKind::Nothing,
        EVENT_SET_PROPERTY_REPLY | EVENT_COMMAND_REPLY => EventKind::Reply,
        EVENT_GET_PROPERTY_REPLY => EventKind::PropertyReply,
        EVENT_LOG_MESSAGE => EventKind::LogMessage,
        EVENT_START_FILE => EventKind::StartFile,
        EVENT_END_FILE => EventKind::EndFile,
        EVENT_IDLE => EventKind::Idle,
        EVENT_FILE_LOADED => EventKind::FileLoaded,
        EVENT_AUDIO_RECONFIG => EventKind::AudioReconfig,
        EVENT_VIDEO_RECONFIG => EventKind::VideoReconfig,
        EVENT_SEEK => EventKind::Seek,
        EVENT_PLAYBACK_RESTART => EventKind::PlaybackRestart,
        _ => EventKind::Unrecognized,
    }
}

/// What a property comes as.
#[derive(Clone, Copy, Debug, PartialEq, Eq, Structural)]
pub enum PropertyKind {
    Flag,
    Double,
    /// A format that no request of this library asks for.
    Unused,
    /// No value, or one in a format that is not known.
    Ignored,
}

/// The kind of the properties in the format with the number `format`.
pub open spec fn spec_property_kind(format: u32) -> PropertyKind {
    if format == FORMAT_FLAG {
        PropertyKind::Flag
    } else if format == FORMAT_DOUBLE {
        PropertyKind::Double
    } else if FORMAT_STRING <= format <= FORMAT_BYTE_ARRAY {
        PropertyKind::Unused
    } else {
        PropertyKind::Ignored
    }
}

/// The kind of the properties in the format with the number `format`.
pub fn property_kind(format: u32) -> (r: PropertyKind)
    ensures
        r == spec_property_kind(format),
{
    if format == FORMAT_FLAG {
        PropertyKind::Flag
    } else if format == FORMAT_DOUBLE {
        PropertyKind::Double
    } else if FORMAT_STRING <= format && format <= FORMAT_BYTE_ARRAY {
        PropertyKind::Unused
    } else {
        PropertyKind::Ignored
    }
}

/// The value of a property, as a reply brings it.
#[derive(Clone, Copy, Debug, PartialEq, Eq, Structural)]
pub enum PropertyData {
    /// A flag: zero is false.
    Flag(i32),
    Double(Double),
    /// A value in a format that no request of this library asks for.
    Unused,
    /// No value, or one in a format that is not known.
    Ignored,
}

/// What comes with an event.
#[derive(Debug)]
pub enum EventData {
    Absent,
    Property(PropertyData),
    LogMessage(u32, String),
    /// The playlist entry that is being played.
    StartFile(i64),
}

/// An event of the mpv client API.
#[derive(Debug)]
pub struct CoreEvent {
    pub event_id: u32,
    /// Zero, or why the request that this is a reply to has failed.
    pub error: i32,
    /// The number of the request that this is a reply to.
    pub reply_userdata: u64,
    pub data: EventData,
}

impl CoreEvent {
    /// What the event is about.
    pub open spec fn kind(self) -> EventKind {
        spec_event_kind(self.event_id)
    }

    /// Whether the event is a reply to a request.
    pub open spec fn is_reply(self) -> bool {
        self.kind() == EventKind::Reply || self.kind() == EventKind::PropertyReply
    }
}

/// Which events are of which kind, by their numbers.
pub proof fn events_by_number(event: CoreEvent)
    ensures
        event.kind() == spec_event_kind(event.event_id),
        event.kind() == EventKind::Nothing <==> event.event_id == 0,
        event.kind() == EventKind::LogMessage <==> event.event_id == 2,
        event.kind() == EventKind::PropertyReply <==> event.event_id == 3,
        event.kind() == EventKind::Reply <==> event.event_id == 4 || event.event_id == 5,
        event.kind() == EventKind::StartFile <==> event.event_id == 6,
        event.kind() == EventKind::EndFile <==> event.event_id == 7,
        event.kind() == EventKind::FileLoaded <==> event.event_id == 8,
        event.kind() == EventKind::Idle <==> event.event_id == 11,
        event.kind() == EventKind::VideoReconfig <==> event.event_id == 17,
        event.kind() == EventKind::AudioReconfig <==> event.event_id == 18,
        event.kind() == EventKind::Seek <==> event.event_id == 20,
        event.kind() == EventKind::PlaybackRestart <==> event.event_id == 21,
        event.is_reply() <==> 3 <= event.event_id <= 5,
{
}

/// Which properties are of which kind, by the numbers of their formats.
pub proof fn properties_by_number(format: u32)
    ensures
        spec_property_kind(format) == PropertyKind::Flag <==> format == 3,
        spec_property_kind(format) == PropertyKind::Double <==> format == 5,
        spec_property_kind(format) == PropertyKind::Ignored <==> format == 0 || format > 9,
{
}

/// Which log messages are how urgent, by the numbers of their levels.
pub proof fn levels_by_number(raw: u32)
    ensures
        spec_log_level(raw) == LogLevel::Error <==> raw == 0 || raw == 10 || raw == 20,
        spec_log_level(raw) == LogLevel::Warn <==> raw == 30,
        spec_log_level(raw) == LogLevel::Info <==> raw == 40,
        spec_log_level(raw) == LogLevel::Debug <==> raw == 50 || raw == 60,
{
}

} // verus!

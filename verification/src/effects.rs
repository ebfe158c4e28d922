//! What the operations of a client amount to: what they send, what the client then holds, and what
//! mpv's events make of it, with every name and number written out.
use vstd::prelude::*;

use crate::advanced_client::{AsyncClientState, ClientError, ClientView, DrainPass, DrainSignal, DrainStep, EventNote, FileState};
use crate::client_api::{CoreEvent, EventData, PropertyData};
use crate::double::Double;
use crate::omt_client::RequestView;
use crate::player::PlayerView;
use crate::shared::MpvEvent;

verus! {

/// A client starts with nothing reported: not paused, and every number zero.
pub proof fn starts_from_zero()
    ensures
        ({
            let s = crate::advanced_client::initial_state();
            &&& !s.is_paused
            &&& s.percent_pos.bits == 0
            &&& s.time_pos.bits == 0
            &&& s.time_remaining.bits == 0
            &&& s.duration.bits == 0
            &&& s.width.bits == 0
            &&& s.height.bits == 0
        }),
{
}

/// A submitted request is recorded under the next number, which is used up, and it is sent behind
/// all others if the thread is there to take it. Nothing else changes, but that a thread that is not
/// there has been found to be gone.
pub proof fn submission(client: ClientView, request: RequestView)
    requires
        client.next_id < 0xffff_ffff_ffff_ffff,
    ensures
        client.ids_left() == 0xffff_ffff_ffff_ffff - client.next_id,
        client.submit(request, true).sent == client.sent.push(request),
        client.submit(request, false).sent == client.sent,
        client.submit(request, true).gone == client.gone,
        client.submit(request, false).gone,
        forall|d: bool|
            {
                let after = #[trigger] client.submit(request, d);
                &&& after.next_id == client.next_id + 1
                &&& after.outstanding == client.outstanding.insert(client.next_id, request)
                &&& after.state == client.state
                &&& after.channel == client.channel
                &&& after.wakeups == client.wakeups
                &&& after.polls == client.polls
            },
{
}

/// Setting a flag sends exactly its name and the value that was passed in, whatever has been reported
/// of the playback, and changes nothing but what a submission does.
pub proof fn flag_is_set_as_asked(client: ClientView, name: Seq<char>, value: bool, delivered: bool)
    ensures
        client.set_flag(name, value, true).sent == client.sent.push(
            RequestView::SetPropertyFlag(client.next_id, name, value),
        ),
        client.set_flag(name, value, false).sent == client.sent,
        client.set_flag(name, value, delivered) == client.submit(
            RequestView::SetPropertyFlag(client.next_id, name, value),
            delivered,
        ),
{
}

/// In every state, pausing asks for `pause` to be set and resuming for it to be cleared; so resuming
/// after pausing leaves the last request that mpv gets at `pause` cleared.
pub proof fn resuming_clears_pause(client: ClientView)
    ensures
        client.set_flag("pause"@, true, true).sent.last() == RequestView::SetPropertyFlag(
            client.next_id,
            "pause"@,
            true,
        ),
        client.set_flag("pause"@, false, true).sent.last() == RequestView::SetPropertyFlag(
            client.next_id,
            "pause"@,
            false,
        ),
        client.set_flag("pause"@, true, true).set_flag("pause"@, false, true).sent.last()
            == RequestView::SetPropertyFlag((client.next_id + 1) as u64, "pause"@, false),
{
}

/// Reading a flag or a number asks for exactly the name that was passed in.
pub proof fn properties_are_asked_for_by_name(client: ClientView, name: Seq<char>, delivered: bool)
    ensures
        client.get_flag(name, true).sent == client.sent.push(
            RequestView::GetPropertyFlag(client.next_id, name),
        ),
        client.get_double(name, true).sent == client.sent.push(
            RequestView::GetPropertyDouble(client.next_id, name),
        ),
        client.get_flag(name, delivered) == client.submit(
            RequestView::GetPropertyFlag(client.next_id, name),
            delivered,
        ),
        client.get_double(name, delivered) == client.submit(
            RequestView::GetPropertyDouble(client.next_id, name),
            delivered,
        ),
{
}

/// A command is sent with exactly the words that it is made of, in their order.
pub proof fn commands_keep_their_words(client: ClientView, words: Seq<Seq<char>>, delivered: bool)
    ensures
        client.command(words, true).sent == client.sent.push(
            RequestView::Command(client.next_id, words),
        ),
        client.command(words, false).sent == client.sent,
        client.command(words, delivered) == client.submit(
            RequestView::Command(client.next_id, words),
            delivered,
        ),
{
}

/// Seeking sends the seconds as they are, or behind a minus sign, and relative to the position.
pub proof fn seeking_is_relative(client: ClientView, secs: Seq<char>, delivered: bool)
    ensures
        client.seek_forward(secs, delivered) == client.submit(
            RequestView::Command(client.next_id, seq!["seek"@, secs, "relative"@]),
            delivered,
        ),
        client.seek_backward(secs, delivered) == client.submit(
            RequestView::Command(client.next_id, seq!["seek"@, seq!['-'] + secs, "relative"@]),
            delivered,
        ),
{
    reveal_strlit("-");
    assert("-"@ =~= seq!['-']);
}

/// The end is sent behind everything else, and changes nothing else.
pub proof fn end_is_sent_last(client: ClientView)
    ensures
        client.exit(true) == (ClientView { sent: client.sent.push(RequestView::Exit), ..client }),
        client.exit(false) == (ClientView { gone: true, ..client }),
{
}

/// Of several submissions, request `i` stands under the number `next_id + i` afterwards, and
/// everything that was outstanding before is so still.
pub proof fn submissions_are_recorded(client: ClientView, requests: Seq<RequestView>)
    requires
        client.next_id + requests.len() <= 0xffff_ffff_ffff_ffff,
    ensures
        forall|id: u64|
            #![trigger client.submit_all(requests).outstanding.contains_key(id)]
            {
                let after = client.submit_all(requests).outstanding;
                if client.next_id <= id < client.next_id + requests.len() {
                    after.contains_key(id) && after[id] == requests[id - client.next_id]
                } else {
                    &&& after.contains_key(id) == client.outstanding.contains_key(id)
                    &&& after.contains_key(id) ==> after[id] == client.outstanding[id]
                }
            },
    decreases requests.len(),
{
    if requests.len() > 0 {
        submissions_are_recorded(client, requests.drop_last());
        crate::advanced_client::submits_in_order(client, requests.drop_last());
        let before = client.submit_all(requests.drop_last());
        let last: u64 = before.next_id;
        assert(client.submit_all(requests).outstanding == before.outstanding.insert(
            last,
            requests.last(),
        ));
        assert forall|id: u64|
            #![trigger client.submit_all(requests).outstanding.contains_key(id)]
            {
                let after = client.submit_all(requests).outstanding;
                if client.next_id <= id < client.next_id + requests.len() {
                    after.contains_key(id) && after[id] == requests[id - client.next_id]
                } else {
                    &&& after.contains_key(id) == client.outstanding.contains_key(id)
                    &&& after.contains_key(id) ==> after[id] == client.outstanding[id]
                }
            } by {
            let earlier = before.outstanding.contains_key(id);
        }
    }
}

/// Submissions in turn either all get sent, behind what was sent before; or those before the first
/// that could not be sent were, that one has taken a number, and the thread is known to be gone.
pub proof fn submissions_in_turn(client: ClientView, requests: Seq<RequestView>, after: ClientView, all: bool)
    requires
        client.submits(requests, after, all),
        client.next_id + requests.len() <= 0xffff_ffff_ffff_ffff,
    ensures
        all ==> {
            &&& after.sent == client.sent + requests
            &&& after.next_id == client.next_id + requests.len()
            &&& after.gone == client.gone
            &&& requests.len() > 0 ==> !client.gone
        },
        !all ==> after.gone && exists|k: int|
            0 <= k < requests.len() && after.sent == client.sent + #[trigger] requests.take(k)
                && after.next_id == client.next_id + k + 1 && (client.gone ==> k == 0),
        after.state == client.state,
        after.channel == client.channel,
        after.wakeups == client.wakeups,
        after.polls == client.polls,
{
    if all {
        crate::advanced_client::submits_in_order(client, requests);
    } else {
        let k = choose|k: int|
            0 <= k < requests.len() && (client.gone ==> k == 0) && after == #[trigger] client.submit_all(
                requests.take(k),
            ).submit(requests[k], false);
        crate::advanced_client::submits_in_order(client, requests.take(k));
        assert(after.sent == client.sent + requests.take(k));
    }
}

/// The five requests for what is kept up to date: for `pause`, `percent-pos`, `time-pos`,
/// `time-remaining` and `duration`, in this order, with consecutive numbers, whatever the first.
pub proof fn all_five_are_asked_for(client: ClientView, after: ClientView)
    requires
        client.next_id + 5 <= 0xffff_ffff_ffff_ffff,
        client.submits(crate::advanced_client::poll_requests(client.next_id), after, true),
    ensures
        after.sent == client.sent.push(
            RequestView::GetPropertyFlag(client.next_id, "pause"@),
        ).push(
            RequestView::GetPropertyDouble((client.next_id + 1) as u64, "percent-pos"@),
        ).push(
            RequestView::GetPropertyDouble((client.next_id + 2) as u64, "time-pos"@),
        ).push(
            RequestView::GetPropertyDouble((client.next_id + 3) as u64, "time-remaining"@),
        ).push(
            RequestView::GetPropertyDouble((client.next_id + 4) as u64, "duration"@),
        ),
        after.next_id == client.next_id + 5,
        after.outstanding[client.next_id] == RequestView::GetPropertyFlag(client.next_id, "pause"@),
        after.outstanding[(client.next_id + 1) as u64] == RequestView::GetPropertyDouble(
            (client.next_id + 1) as u64,
            "percent-pos"@,
        ),
        after.outstanding[(client.next_id + 2) as u64] == RequestView::GetPropertyDouble(
            (client.next_id + 2) as u64,
            "time-pos"@,
        ),
        after.outstanding[(client.next_id + 3) as u64] == RequestView::GetPropertyDouble(
            (client.next_id + 3) as u64,
            "time-remaining"@,
        ),
        after.outstanding[(client.next_id + 4) as u64] == RequestView::GetPropertyDouble(
            (client.next_id + 4) as u64,
            "duration"@,
        ),
{
    let requests = crate::advanced_client::poll_requests(client.next_id);
    let id: u64 = client.next_id;
    submissions_in_turn(client, requests, after, true);
    submissions_are_recorded(client, requests);
    assert(after.sent =~= client.sent.push(RequestView::GetPropertyFlag(id, "pause"@)).push(
        RequestView::GetPropertyDouble((id + 1) as u64, "percent-pos"@),
    ).push(RequestView::GetPropertyDouble((id + 2) as u64, "time-pos"@)).push(
        RequestView::GetPropertyDouble((id + 3) as u64, "time-remaining"@),
    ).push(RequestView::GetPropertyDouble((id + 4) as u64, "duration"@)));
    assert(after.outstanding.contains_key(id));
    assert(after.outstanding.contains_key((id + 1) as u64));
    assert(after.outstanding.contains_key((id + 2) as u64));
    assert(after.outstanding.contains_key((id + 3) as u64));
    assert(after.outstanding.contains_key((id + 4) as u64));
}

/// What is asked for does not depend on the number that the first request bears.
pub proof fn same_is_asked_for_each_time(id: u64, other: u64, i: int)
    requires
        id + 5 <= 0xffff_ffff_ffff_ffff,
        other + 5 <= 0xffff_ffff_ffff_ffff,
        0 <= i < 5,
    ensures
        ({
            let a = crate::advanced_client::poll_requests(id);
            let b = crate::advanced_client::poll_requests(other);
            &&& a.len() == 5
            &&& b.len() == 5
            &&& a[i].task_id() == Some((id + i) as u64)
            &&& a[i] is GetPropertyFlag <==> b[i] is GetPropertyFlag
            &&& a[i] matches RequestView::GetPropertyFlag(_, name) ==> b[i]
                == RequestView::GetPropertyFlag((other + i) as u64, name)
            &&& a[i] matches RequestView::GetPropertyDouble(_, name) ==> b[i]
                == RequestView::GetPropertyDouble((other + i) as u64, name)
        }),
{
}

/// For the size of the video, `width` and then `height` are asked for.
pub proof fn width_and_height_are_asked_for(client: ClientView, after: ClientView)
    requires
        client.next_id + 2 <= 0xffff_ffff_ffff_ffff,
        client.submits(crate::advanced_client::size_requests(client.next_id), after, true),
    ensures
        after.sent == client.sent.push(
            RequestView::GetPropertyDouble(client.next_id, "width"@),
        ).push(RequestView::GetPropertyDouble((client.next_id + 1) as u64, "height"@)),
        after.next_id == client.next_id + 2,
{
    submissions_in_turn(client, crate::advanced_client::size_requests(client.next_id), after, true);
    assert(after.sent =~= client.sent.push(
        RequestView::GetPropertyDouble(client.next_id, "width"@),
    ).push(RequestView::GetPropertyDouble((client.next_id + 1) as u64, "height"@)));
}

/// The words of the three ways to add a file to the playlist.
pub proof fn words_of_file_states()
    ensures
        FileState::Replace.word() == "replace"@,
        FileState::Append.word() == "append"@,
        FileState::AppendPlay.word() == "append-play"@,
{
}

/// The command that loads a file is `loadfile`, the name, the word for how the file is added, and
/// where there are options, whatever that word is, one more word: the options.
pub proof fn options_are_the_last_word(name: &str, state: FileState, options: Option<&str>)
    ensures
        ({
            let words = crate::advanced_client::load_words((name, state, options));
            &&& words.len() == (if options is Some { 4int } else { 3 })
            &&& words[0] == "loadfile"@
            &&& words[1] == name@
            &&& state is Replace ==> words[2] == "replace"@
            &&& state is Append ==> words[2] == "append"@
            &&& state is AppendPlay ==> words[2] == "append-play"@
            &&& options is Some ==> words.last() == options->0@
        }),
{
}

/// Every file that is loaded is sent, in order, by a command of its own with its name, how it is
/// added, and its options where it has any.
pub proof fn every_file_is_loaded(
    client: ClientView,
    files: Seq<(&str, FileState, Option<&str>)>,
    after: ClientView,
    i: int,
)
    requires
        client.next_id + files.len() <= 0xffff_ffff_ffff_ffff,
        client.submits(
            crate::advanced_client::load_requests(client.next_id, files),
            after,
            true,
        ),
        0 <= i < files.len(),
    ensures
        after.sent.len() == client.sent.len() + files.len(),
        after.sent.take(client.sent.len() as int) == client.sent,
        after.sent[client.sent.len() + i] matches RequestView::Command(id, words) && {
            &&& id == client.next_id + i
            &&& words.len() == (if files[i].2 is Some { 4int } else { 3 })
            &&& words[0] == "loadfile"@
            &&& words[1] == files[i].0@
            &&& files[i].1 is Replace ==> words[2] == "replace"@
            &&& files[i].1 is Append ==> words[2] == "append"@
            &&& files[i].1 is AppendPlay ==> words[2] == "append-play"@
            &&& files[i].2 is Some ==> words.last() == files[i].2->0@
        },
{
    let requests = crate::advanced_client::load_requests(client.next_id, files);
    submissions_in_turn(client, requests, after, true);
    assert(after.sent.take(client.sent.len() as int) =~= client.sent);
    assert(after.sent[client.sent.len() + i] == requests[i]);
    options_are_the_last_word(files[i].0, files[i].1, files[i].2);
}

/// Where not all files could be sent, those before some file were, each as it is loaded otherwise.
pub proof fn files_before_a_failure_are_loaded(
    client: ClientView,
    files: Seq<(&str, FileState, Option<&str>)>,
    after: ClientView,
)
    requires
        client.next_id + files.len() <= 0xffff_ffff_ffff_ffff,
        client.submits(
            crate::advanced_client::load_requests(client.next_id, files),
            after,
            false,
        ),
    ensures
        after.gone,
        client.sent.len() <= after.sent.len() < client.sent.len() + files.len(),
        after.sent.take(client.sent.len() as int) == client.sent,
        forall|j: int|
            client.sent.len() <= j < after.sent.len() ==> (#[trigger] after.sent[j]
                == RequestView::Command(
                (client.next_id + j - client.sent.len()) as u64,
                crate::advanced_client::load_words(files[j - client.sent.len()]),
            )),
{
    let requests = crate::advanced_client::load_requests(client.next_id, files);
    submissions_in_turn(client, requests, after, false);
    let k = choose|k: int|
        0 <= k < requests.len() && after.sent == client.sent + #[trigger] requests.take(k)
            && after.next_id == client.next_id + k + 1 && (client.gone ==> k == 0);
    assert(after.sent.take(client.sent.len() as int) =~= client.sent);
    assert forall|j: int| client.sent.len() <= j < after.sent.len() implies (#[trigger] after.sent[j]
        == RequestView::Command(
        (client.next_id + j - client.sent.len()) as u64,
        crate::advanced_client::load_words(files[j - client.sent.len()]),
    )) by {
        assert(after.sent[j] == requests[j - client.sent.len()]);
    }
}

/// Every reply is sent on as the completion of the request that it names, which is outstanding no
/// longer; every other event leaves the client as it was.
pub proof fn replies_are_completed(client: ClientView, event: CoreEvent)
    ensures
        3 <= event.event_id <= 5 ==> {
            let after = client.after_event(event);
            &&& after.sent == client.sent.push(RequestView::Completed(event.reply_userdata))
            &&& after.outstanding == client.outstanding.remove(event.reply_userdata)
            &&& after.next_id == client.next_id
            &&& after.channel == client.channel
            &&& after.gone == client.gone
            &&& after.wakeups == client.wakeups
            &&& after.polls == client.polls
        },
        event.event_id < 3 || event.event_id > 5 ==> client.after_event(event) == client,
        client.receipt(event.reply_userdata) == (ClientView {
            outstanding: client.outstanding.remove(event.reply_userdata),
            sent: client.sent.push(RequestView::Completed(event.reply_userdata)),
            ..client
        }),
{
    crate::client_api::events_by_number(event);
}

/// A number that mpv reports is what the client has under that name from then on, and everything else
/// stays; this holds of each of the six names.
pub proof fn reported_number_is_held(client: ClientView, event: CoreEvent, value: Double)
    requires
        event.event_id == 3,
        event.error == 0,
        event.data == EventData::Property(PropertyData::Double(value)),
        client.outstanding.contains_key(event.reply_userdata),
    ensures
        client.outstanding[event.reply_userdata] matches RequestView::GetPropertyDouble(_, name) ==> {
            let old_state = client.state;
            let state = client.after_event(event).state;
            &&& state.is_paused == old_state.is_paused
            &&& state.percent_pos == (if name == "percent-pos"@ { value } else { old_state.percent_pos })
            &&& state.time_pos == (if name == "time-pos"@ { value } else { old_state.time_pos })
            &&& state.time_remaining == (if name == "time-remaining"@ { value } else {
                old_state.time_remaining
            })
            &&& state.duration == (if name == "duration"@ { value } else { old_state.duration })
            &&& state.width == (if name == "width"@ { value } else { old_state.width })
            &&& state.height == (if name == "height"@ { value } else { old_state.height })
        },
        client.outstanding[event.reply_userdata] !is GetPropertyDouble ==> client.after_event(
            event,
        ).state == client.state,
{
    crate::client_api::events_by_number(event);
    reveal_strlit("percent-pos");
    reveal_strlit("time-pos");
    reveal_strlit("time-remaining");
    reveal_strlit("duration");
    reveal_strlit("width");
    reveal_strlit("height");
    assert("percent-pos"@.len() == 11);
    assert("time-pos"@.len() == 8 && "time-pos"@[0] == 't');
    assert("duration"@.len() == 8 && "duration"@[0] == 'd');
    assert("time-remaining"@.len() == 14);
    assert("width"@.len() == 5);
    assert("height"@.len() == 6);
}

/// A flag that mpv reports is what the client has of the pause from then on: paused if and only if it
/// is not zero. Everything else stays.
pub proof fn reported_flag_is_held(client: ClientView, event: CoreEvent, flag: i32)
    requires
        event.event_id == 3,
        event.error == 0,
        event.data == EventData::Property(PropertyData::Flag(flag)),
        client.outstanding.contains_key(event.reply_userdata),
    ensures
        client.outstanding[event.reply_userdata] is GetPropertyFlag ==> client.after_event(event).state
            == (AsyncClientState { is_paused: flag != 0, ..client.state }),
        client.outstanding[event.reply_userdata] !is GetPropertyFlag ==> client.after_event(event).state
            == client.state,
{
    crate::client_api::events_by_number(event);
}

/// Nothing is reported but by the successful reply to the reading of an outstanding property that
/// brings a flag or a number.
pub proof fn nothing_else_reports(client: ClientView, event: CoreEvent)
    requires
        event.event_id != 3 || event.error != 0 || !client.outstanding.contains_key(
            event.reply_userdata,
        ) || event.data !is Property || event.data == EventData::Property(PropertyData::Ignored)
            || event.data == EventData::Property(PropertyData::Unused),
    ensures
        client.after_event(event).state == client.state,
        client.state_after(event) == client.state,
{
    crate::client_api::events_by_number(event);
}

/// Which events can be taken in. What the successful reading of an outstanding property has brought is
/// a flag only if it was `pause` that was asked for as a flag, and a number only if it was one of the
/// four positions that was asked for as a number; it is in no format that is never asked for. Log
/// messages and starts of files bring their data.
pub proof fn what_can_come(client: ClientView, event: CoreEvent)
    ensures
        event.event_id == 3 && event.error == 0 && client.outstanding.contains_key(
            event.reply_userdata,
        ) ==> {
            let request = client.outstanding[event.reply_userdata];
            match event.data {
                EventData::Property(PropertyData::Flag(_)) => client.admits(event) <==> (
                request matches RequestView::GetPropertyFlag(_, name) && name == "pause"@),
                EventData::Property(PropertyData::Double(_)) => client.admits(event) <==> (
                request matches RequestView::GetPropertyDouble(_, name) && (name == "percent-pos"@
                    || name == "time-pos"@ || name == "time-remaining"@ || name == "duration"@)),
                EventData::Property(PropertyData::Unused) => !client.admits(event),
                _ => client.admits(event),
            }
        },
        event.event_id == 3 && (event.error != 0 || !client.outstanding.contains_key(
            event.reply_userdata,
        )) ==> client.admits(event),
        event.event_id == 2 ==> (client.admits(event) <==> event.data is LogMessage),
        event.event_id == 6 ==> (client.admits(event) <==> event.data is StartFile),
        event.event_id != 2 && event.event_id != 3 && event.event_id != 6 ==> client.admits(event),
{
    crate::client_api::events_by_number(event);
}

/// Which events tell how large the video is.
pub proof fn what_tells_the_size(client: ClientView, event: CoreEvent)
    ensures
        client.brings_size(event) <==> {
            &&& event.event_id == 3
            &&& event.error == 0
            &&& client.outstanding.contains_key(event.reply_userdata)
            &&& event.data is Property
            &&& event.data->Property_0 is Double
            &&& client.outstanding[event.reply_userdata] matches RequestView::GetPropertyDouble(_, name)
            &&& name == "width"@ || name == "height"@
        },
{
    crate::client_api::events_by_number(event);
}

/// What is noted of an event.
pub proof fn what_is_noted(client: ClientView, event: CoreEvent, note: EventNote)
    requires
        client.notes(event, note),
    ensures
        note is Drained <==> event.event_id == 0,
        note is FileStarted <==> event.event_id == 6,
        note is FileEnded <==> event.event_id == 7,
        note is FileLoaded <==> event.event_id == 8,
        note is Idle <==> event.event_id == 11,
        note is VideoReconfig <==> event.event_id == 17,
        note is AudioReconfig <==> event.event_id == 18,
        note is Seek <==> event.event_id == 20,
        note is PlaybackRestart <==> event.event_id == 21,
        note is Log <==> event.event_id == 2,
        ({
            let reply = 3 <= event.event_id <= 5;
            let known = client.outstanding.contains_key(event.reply_userdata);
            &&& note is MissingTask <==> reply && !known
            &&& note is ReplyOk <==> reply && known && event.error == 0
            &&& note is ReplyError <==> reply && known && event.error != 0
            &&& note matches EventNote::ReplyOk(text) ==> text@
                == client.outstanding[event.reply_userdata].text()
            &&& note matches EventNote::ReplyError(error, text) ==> error == event.error && text@
                == client.outstanding[event.reply_userdata].text()
        }),
        note matches EventNote::FileStarted(entry) ==> event.data == EventData::StartFile(entry),
        note matches EventNote::Log(level, lines) ==> (event.data matches EventData::LogMessage(
            raw,
            text,
        ) && level == crate::client_api::spec_log_level(raw) && crate::text::are_lines_of(
            crate::text::texts(lines@),
            text@,
        )),
{
    crate::client_api::events_by_number(event);
}

/// What a step of a pass comes to. A wakeup leads to the events, an event to the next one, and the
/// last to the wakeups. A file has ended in the pass if and only if it had before or this is the event
/// that says so. Replies are sent on as completions; nothing else is sent.
pub proof fn step_of_a_pass(
    before: ClientView,
    pass: DrainPass,
    signal: DrainSignal,
    after: ClientView,
    next: DrainPass,
    r: Result<(DrainStep, Option<EventNote>), ClientError>,
)
    requires
        crate::advanced_client::drains(before, pass, signal, after, next, r),
    ensures
        signal is Wakeup ==> {
            &&& r is Ok
            &&& r->Ok_0.0 is WaitEvent
            &&& r->Ok_0.1 is None
            &&& after == before
            &&& next == pass
        },
        signal is NoEvent ==> {
            &&& r is Ok
            &&& r->Ok_0.0 is PollWakeup
            &&& r->Ok_0.1 is None
            &&& after == before
            &&& next == pass
        },
        signal matches DrainSignal::Event(event) ==> {
            &&& r is Ok ==> {
                &&& r->Ok_0.0 is PollWakeup <==> event.event_id == 0
                &&& r->Ok_0.0 is WaitEvent <==> event.event_id != 0
                &&& next.stopped == (pass.stopped || event.event_id == 7)
                &&& after == before.after_event(event)
                &&& after.sent == (if 3 <= event.event_id <= 5 {
                    before.sent.push(RequestView::Completed(event.reply_userdata))
                } else {
                    before.sent
                })
                &&& r->Ok_0.1 is Some
                &&& before.notes(event, r->Ok_0.1->0)
            }
            &&& r is Err ==> {
                &&& 3 <= event.event_id <= 5
                &&& next == pass
                &&& after == (ClientView { gone: true, ..before })
            }
            &&& before.gone && 3 <= event.event_id <= 5 ==> r is Err
        },
        signal matches DrainSignal::SizeReply(event) ==> {
            &&& r is Ok && event.event_id == 3 ==> {
                &&& r->Ok_0.0 is WaitEvent
                &&& next.stopped == pass.stopped
                &&& after == before.after_event(event)
                &&& after.sent == before.sent.push(RequestView::Completed(event.reply_userdata))
                &&& r->Ok_0.1 is Some
                &&& before.notes(event, r->Ok_0.1->0)
            }
            &&& r is Err ==> next == pass && after == (ClientView { gone: true, ..before })
            &&& before.gone && event.event_id == 3 ==> r is Err
        },
        signal is NoWakeup ==> next == pass,
{
    match signal {
        DrainSignal::Event(event) => {
            crate::client_api::events_by_number(event);
            replies_are_completed(before, event);
        },
        DrainSignal::SizeReply(event) => {
            crate::client_api::events_by_number(event);
            replies_are_completed(before, event);
        },
        _ => {},
    }
}

/// How a pass ends. When no wakeup is left, `pause`, `percent-pos`, `time-pos`, `time-remaining` and
/// `duration` are asked for once each, and the pass reports whether a file has ended during it.
pub proof fn end_of_a_pass(
    before: ClientView,
    pass: DrainPass,
    after: ClientView,
    next: DrainPass,
    r: Result<(DrainStep, Option<EventNote>), ClientError>,
)
    requires
        crate::advanced_client::drains(before, pass, DrainSignal::NoWakeup, after, next, r),
        before.next_id + 5 <= 0xffff_ffff_ffff_ffff,
    ensures
        next == pass,
        after.state == before.state,
        r is Ok ==> {
            &&& r->Ok_0.0 == DrainStep::Finished(pass.stopped)
            &&& r->Ok_0.1 is None
            &&& !before.gone
            &&& after.sent == before.sent + seq![
                RequestView::GetPropertyFlag(before.next_id, "pause"@),
                RequestView::GetPropertyDouble((before.next_id + 1) as u64, "percent-pos"@),
                RequestView::GetPropertyDouble((before.next_id + 2) as u64, "time-pos"@),
                RequestView::GetPropertyDouble((before.next_id + 3) as u64, "time-remaining"@),
                RequestView::GetPropertyDouble((before.next_id + 4) as u64, "duration"@),
            ]
        },
        r is Err ==> after.gone,
        before.gone ==> r is Err,
{
    let requests = crate::advanced_client::poll_requests(before.next_id);
    submissions_in_turn(before, requests, after, r is Ok);
    assert(requests =~= seq![
        RequestView::GetPropertyFlag(before.next_id, "pause"@),
        RequestView::GetPropertyDouble((before.next_id + 1) as u64, "percent-pos"@),
        RequestView::GetPropertyDouble((before.next_id + 2) as u64, "time-pos"@),
        RequestView::GetPropertyDouble((before.next_id + 3) as u64, "time-remaining"@),
        RequestView::GetPropertyDouble((before.next_id + 4) as u64, "duration"@),
    ]);
}

/// Which signals can come during a pass: of wakeups only those of mpv's core, and the end only while
/// five more requests can be numbered.
pub proof fn which_signals_can_come(client: ClientView, event: CoreEvent)
    ensures
        client.admits_signal(DrainSignal::Wakeup(MpvEvent::CoreUpdate)),
        !client.admits_signal(DrainSignal::Wakeup(MpvEvent::RenderUpdate)),
        client.admits_signal(DrainSignal::NoEvent),
        client.admits_signal(DrainSignal::NoWakeup) <==> client.next_id + 5 <= 0xffff_ffff_ffff_ffff,
        client.admits_signal(DrainSignal::Event(event)) <==> client.admits(event),
        client.admits_signal(DrainSignal::SizeReply(event)) <==> client.brings_size(event),
{
}

/// Polling and finding the thread gone change nothing else.
pub proof fn polling_only_adds(client: ClientView, event: Option<MpvEvent>)
    ensures
        client.poll(event) == (ClientView { polls: client.polls.push(event), ..client }),
        client.found_gone() == (ClientView { gone: true, ..client }),
{
}

/// What a player does with requests is what its client does with them; its renderer is left alone.
pub proof fn player_passes_on(player: PlayerView, words: Seq<Seq<char>>, name: Seq<char>, value: bool, delivered: bool, n: int)
    requires
        player.client is Some,
    ensures
        player.command(words, delivered) == (PlayerView {
            client: Some(
                player.client->0.submit(
                    RequestView::Command(player.client->0.next_id, words),
                    delivered,
                ),
            ),
            render: player.render,
        }),
        player.set_flag(name, value, delivered) == (PlayerView {
            client: Some(
                player.client->0.submit(
                    RequestView::SetPropertyFlag(player.client->0.next_id, name, value),
                    delivered,
                ),
            ),
            render: player.render,
        }),
        player.ready(n) <==> player.client->0.next_id + n <= 0xffff_ffff_ffff_ffff,
        forall|client: ClientView| #[trigger]
            player.with_client(client) == (PlayerView { client: Some(client), render: player.render }),
        forall|render: crate::render::RenderView| #[trigger]
            player.with_render(render) == (PlayerView { client: player.client, render: Some(render) }),
{
}

} // verus!

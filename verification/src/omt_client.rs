//! The off-main-thread client: it hands mpv one request at a time.
use std::collections::VecDeque;

use vstd::prelude::*;
use vstd::string::*;

use crate::text::{decimal_text, join_texts};

verus! {

/// A message to the thread that talks to mpv.
#[derive(Debug)]
pub enum ClientRequest {
    Exit,
    Completed(u64),
    Command(u64, Vec<String>),
    SetPropertyFlag(u64, String, bool),
    GetPropertyFlag(u64, String),
    GetPropertyDouble(u64, String),
}

/// The mathematical content of a [`ClientRequest`].
pub enum RequestView {
    Exit,
    Completed(u64),
    Command(u64, Seq<Seq<char>>),
    SetPropertyFlag(u64, Seq<char>, bool),
    GetPropertyFlag(u64, Seq<char>),
    GetPropertyDouble(u64, Seq<char>),
}

impl View for ClientRequest {
    type V = RequestView;

    open spec fn view(&self) -> RequestView {
        match *self {
            ClientRequest::Exit => RequestView::Exit,
            ClientRequest::Completed(id) => RequestView::Completed(id),
            ClientRequest::Command(id, cmd) => RequestView::Command(id, crate::text::texts(cmd@)),
            ClientRequest::SetPropertyFlag(id, name, data) => RequestView::SetPropertyFlag(
                id,
                name@,
                data,
            ),
            ClientRequest::GetPropertyFlag(id, name) => RequestView::GetPropertyFlag(id, name@),
            ClientRequest::GetPropertyDouble(id, name) => RequestView::GetPropertyDouble(id, name@),
        }
    }
}

impl Clone for ClientRequest {
    fn clone(&self) -> (r: Self)
        ensures
            r@ == self@,
    {
        match self {
            ClientRequest::Exit => ClientRequest::Exit,
            ClientRequest::Completed(id) => ClientRequest::Completed(*id),
            ClientRequest::Command(id, cmd) => {
                let words = cmd.clone();
                assert(crate::text::texts(words@) =~= crate::text::texts(cmd@));
                ClientRequest::Command(*id, words)
            },
            ClientRequest::SetPropertyFlag(id, name, data) => ClientRequest::SetPropertyFlag(
                *id,
                name.clone(),
                *data,
            ),
            ClientRequest::GetPropertyFlag(id, name) => ClientRequest::GetPropertyFlag(
                *id,
                name.clone(),
            ),
            ClientRequest::GetPropertyDouble(id, name) => ClientRequest::GetPropertyDouble(
                *id,
                name.clone(),
            ),
        }
    }
}

impl RequestView {
    /// The number of a request that mpv is asked to work on.
    pub open spec fn task_id(self) -> Option<u64> {
        match self {
            RequestView::Exit => None,
            RequestView::Completed(_) => None,
            RequestView::Command(id, _) => Some(id),
            RequestView::SetPropertyFlag(id, _, _) => Some(id),
            RequestView::GetPropertyFlag(id, _) => Some(id),
            RequestView::GetPropertyDouble(id, _) => Some(id),
        }
    }

    /// Whether mpv is asked to work on this request.
    pub open spec fn is_task(self) -> bool {
        self.task_id() is Some
    }

    /// The request as one line of text.
    pub open spec fn text(self) -> Seq<char> {
        match self {
            RequestView::Exit => "exit"@,
            RequestView::Completed(id) => "completed"@ + tagged(id),
            RequestView::Command(id, cmd) => "command"@ + tagged(id) + " "@ + crate::text::joined(
                cmd,
                " "@,
            ),
            RequestView::SetPropertyFlag(id, name, data) => "set-property"@ + tagged(id) + " "@
                + name + (if data { " true"@ } else { " false"@ }),
            RequestView::GetPropertyFlag(id, name) => "get-property"@ + tagged(id) + " "@ + name,
            RequestView::GetPropertyDouble(id, name) => "get-property"@ + tagged(id) + " "@ + name,
        }
    }
}

/// A request number in square brackets.
pub open spec fn tagged(id: u64) -> Seq<char> {
    "["@ + crate::text::decimal(id as nat) + "]"@
}

fn append_tag(out: &mut String, id: u64)
    ensures
        final(out)@ == old(out)@ + tagged(id),
{
    let ghost before = out@;
    out.append("[");
    out.append(decimal_text(id).as_str());
    out.append("]");
    assert(out@ =~= before + tagged(id));
}

impl ClientRequest {
    /// Writes the request as one line of text, for the log.
    pub fn to_string(&self) -> (r: String)
        ensures
            r@ == self@.text(),
    {
        match self {
            ClientRequest::Exit => "exit".to_owned(),
            ClientRequest::Completed(id) => {
                let mut r = "completed".to_owned();
                append_tag(&mut r, *id);
                r
            },
            ClientRequest::Command(id, cmd) => {
                let mut r = "command".to_owned();
                append_tag(&mut r, *id);
                r.append(" ");
                r.append(join_texts(cmd, " ").as_str());
                r
            },
            ClientRequest::SetPropertyFlag(id, name, data) => {
                let mut r = "set-property".to_owned();
                append_tag(&mut r, *id);
                r.append(" ");
                r.append(name.as_str());
                if *data {
                    r.append(" true");
                } else {
                    r.append(" false");
                }
                r
            },
            ClientRequest::GetPropertyFlag(id, name) | ClientRequest::GetPropertyDouble(
                id,
                name,
            ) => {
                let mut r = "get-property".to_owned();
                append_tag(&mut r, *id);
                r.append(" ");
                r.append(name.as_str());
                r
            },
        }
    }
}

/// Why mpv did not take a request.
#[derive(Clone, Copy, Debug, PartialEq, Eq, Structural)]
pub enum MpvError {
    /// The error code that the client API returned.
    Raw(i32),
    /// A text holds a zero byte and has no zero-terminated form.
    Nul,
}

/// Turns a return code of the client API into a result: zero is success.
pub fn mpv_err<T>(ret: T, err: i32) -> (r: Result<T, MpvError>)
    ensures
        r == (if err == 0 {
            Ok::<T, MpvError>(ret)
        } else {
            Err::<T, MpvError>(MpvError::Raw(err))
        }),
{
    if err == 0 {
        Ok(ret)
    } else {
        Err(MpvError::Raw(err))
    }
}

/// The UTF-8 bytes of a text.
pub open spec fn utf8(text: Seq<char>) -> Seq<u8> {
    vstd::utf8::encode_utf8(text)
}

/// Whether `bytes` are the zero-terminated form of `text`. A text that holds a zero byte
/// has none.
pub open spec fn is_c_string(bytes: Seq<u8>, text: Seq<char>) -> bool {
    &&& !utf8(text).contains(0u8)
    &&& bytes == utf8(text).push(0u8)
}

/// The zero-terminated form of `text`.
pub fn c_string(text: &str) -> (r: Result<Vec<u8>, MpvError>)
    ensures
        match r {
            Ok(bytes) => is_c_string(bytes@, text@),
            Err(e) => utf8(text@).contains(0u8) && e == MpvError::Nul,
        },
{
    let mut bytes = text.as_bytes_vec();
    let mut i: usize = 0;
    while i < bytes.len()
        invariant
            i <= bytes@.len(),
            bytes@ == utf8(text@),
            forall|k: int| 0 <= k < i ==> bytes@[k] != 0,
        decreases bytes.len() - i,
    {
        if bytes[i] == 0 {
            assert(utf8(text@)[i as int] == 0);
            return Err(MpvError::Nul);
        }
        i = i + 1;
    }
    bytes.push(0u8);
    Ok(bytes)
}

/// The zero-terminated forms of the words of a command, in order.
pub fn c_strings(cmd: &Vec<String>) -> (r: Result<Vec<Vec<u8>>, MpvError>)
    ensures
        match r {
            Ok(words) => {
                &&& words@.len() == cmd@.len()
                &&& forall|i: int|
                    0 <= i < cmd@.len() ==> is_c_string((#[trigger] words@[i])@, cmd@[i]@)
            },
            Err(e) => {
                &&& e == MpvError::Nul
                &&& exists|i: int|
                    0 <= i < cmd@.len() && utf8((#[trigger] cmd@[i])@).contains(0u8)
            },
        },
{
    let mut words: Vec<Vec<u8>> = Vec::new();
    let mut i: usize = 0;
    while i < cmd.len()
        invariant
            i <= cmd@.len(),
            words@.len() == i,
            forall|k: int| 0 <= k < i ==> is_c_string((#[trigger] words@[k])@, cmd@[k]@),
        decreases cmd.len() - i,
    {
        match c_string(cmd[i].as_str()) {
            Ok(word) => {
                words.push(word);
            },
            Err(e) => {
                assert(utf8(cmd@[i as int]@).contains(0u8));
                return Err(e);
            },
        }
        i = i + 1;
    }
    Ok(words)
}

/// What the thread that talks to mpv has to do next.
#[derive(Debug)]
pub enum OmtStep {
    /// Leave the loop.
    Exit,
    /// Wait for the next message.
    Wait,
    /// Hand this request to mpv, then wait for the next message.
    Run(ClientRequest),
}

/// Requests that wait for their turn, and the number of the one that mpv works on.
///
/// mpv does not preserve the order of requests that it works on concurrently, so at most one
/// is active at a time. It stays active until its completion has been received.
pub struct MpvOmtClient {
    queue: VecDeque<ClientRequest>,
    active: Option<u64>,
}

/// The mathematical content of a [`MpvOmtClient`].
#[verifier::ext_equal]
pub struct OmtView {
    pub queue: Seq<RequestView>,
    pub active: Option<u64>,
}

impl View for MpvOmtClient {
    type V = OmtView;

    closed spec fn view(&self) -> OmtView {
        OmtView {
            queue: self.queue@.map_values(|r: ClientRequest| r@),
            active: self.active,
        }
    }
}

impl OmtView {
    /// Only tasks wait, and none waits while mpv is free.
    pub open spec fn wf(self) -> bool {
        &&& forall|i: int| 0 <= i < self.queue.len() ==> (#[trigger] self.queue[i]).is_task()
        &&& self.active is None ==> self.queue.len() == 0
    }

    /// Whether `msg` may arrive now: only the active request can have been completed.
    pub open spec fn admits(self, msg: RequestView) -> bool {
        msg matches RequestView::Completed(id) ==> self.active == Some(id)
    }

    /// The state once `msg` has been taken in and before a request is started.
    pub open spec fn taken_in(self, msg: RequestView) -> OmtView {
        match msg {
            RequestView::Exit => self,
            RequestView::Completed(_) => OmtView { queue: self.queue, active: None },
            _ => OmtView { queue: self.queue.push(msg), active: self.active },
        }
    }

    /// The request that `msg` lets start: the oldest one that waits, if mpv is free.
    pub open spec fn starts(self, msg: RequestView) -> Option<RequestView> {
        let s = self.taken_in(msg);
        if msg !is Exit && s.active is None && s.queue.len() > 0 {
            Some(s.queue[0])
        } else {
            None
        }
    }

    /// The state after `msg`.
    pub open spec fn after(self, msg: RequestView) -> OmtView {
        let s = self.taken_in(msg);
        match self.starts(msg) {
            Some(task) => OmtView { queue: s.queue.skip(1), active: task.task_id() },
            None => s,
        }
    }
}

impl MpvOmtClient {
    /// A client with nothing to do.
    pub fn new() -> (r: Self)
        ensures
            r@.wf(),
            r@ == (OmtView { queue: Seq::empty(), active: None }),
    {
        let r = MpvOmtClient { queue: VecDeque::new(), active: None };
        assert(r@.queue =~= Seq::empty());
        r
    }

    /// The number of the request that mpv works on.
    pub fn active(&self) -> (r: Option<u64>)
        ensures
            r == self@.active,
    {
        self.active
    }

    /// Whether `msg` may arrive now: only the active request can have been completed.
    pub fn admits(&self, msg: &ClientRequest) -> (r: bool)
        ensures
            r == self@.admits(msg@),
    {
        match msg {
            ClientRequest::Completed(id) => match self.active {
                Some(active) => active == *id,
                None => false,
            },
            _ => true,
        }
    }

    /// Takes in one message, and says what to do next.
    pub fn on_request(&mut self, msg: ClientRequest) -> (r: OmtStep)
        requires
            old(self)@.wf(),
            old(self)@.admits(msg@),
        ensures
            final(self)@.wf(),
            final(self)@ == old(self)@.after(msg@),
            (r is Exit) == (msg@ is Exit),
            match r {
                OmtStep::Run(task) => old(self)@.starts(msg@) == Some(task@),
                _ => old(self)@.starts(msg@) is None,
            },
    {
        let ghost before = self@;
        let ghost m = msg@;
        match msg {
            ClientRequest::Exit => {
                return OmtStep::Exit;
            },
            ClientRequest::Completed(_) => {
                self.active = None;
            },
            task => {
                self.queue.push_back(task);
                proof {
                    assert(self@.queue =~= before.queue.push(m));
                }
            },
        }
        assert(self@ == before.taken_in(m));
        if self.active.is_some() {
            return OmtStep::Wait;
        }
        let ghost s = self@;
        let ghost waiting = self.queue@;
        match self.queue.pop_front() {
            None => OmtStep::Wait,
            Some(task) => {
                assert(task@ == s.queue[0]);
                assert(self.queue@ =~= waiting.skip(1));
                assert(self.queue@.map_values(|r: ClientRequest| r@) =~= s.queue.skip(1));
                match &task {
                    ClientRequest::Command(id, _) => {
                        self.active = Some(*id);
                    },
                    ClientRequest::SetPropertyFlag(id, _, _) => {
                        self.active = Some(*id);
                    },
                    ClientRequest::GetPropertyFlag(id, _) => {
                        self.active = Some(*id);
                    },
                    ClientRequest::GetPropertyDouble(id, _) => {
                        self.active = Some(*id);
                    },
                    ClientRequest::Exit | ClientRequest::Completed(_) => {
                        assert(!s.queue[0].is_task());
                    },
                }
                OmtStep::Run(task)
            },
        }
    }
}

/// The content of a request is what it holds, nothing left out, added or changed.
pub proof fn content_is_faithful(request: ClientRequest)
    ensures
        request is Exit <==> request@ is Exit,
        request is Completed <==> request@ is Completed,
        request is Command <==> request@ is Command,
        request is SetPropertyFlag <==> request@ is SetPropertyFlag,
        request is GetPropertyFlag <==> request@ is GetPropertyFlag,
        request is GetPropertyDouble <==> request@ is GetPropertyDouble,
        request matches ClientRequest::Completed(id) ==> request@ == RequestView::Completed(id),
        request matches ClientRequest::Command(id, cmd) ==> (request@ matches RequestView::Command(
            seen,
            words,
        ) && seen == id && words.len() == cmd@.len() && forall|i: int|
            0 <= i < cmd@.len() ==> #[trigger] words[i] == cmd@[i]@),
        request matches ClientRequest::SetPropertyFlag(id, name, data) ==> request@
            == RequestView::SetPropertyFlag(id, name@, data),
        request matches ClientRequest::GetPropertyFlag(id, name) ==> request@
            == RequestView::GetPropertyFlag(id, name@),
        request matches ClientRequest::GetPropertyDouble(id, name) ==> request@
            == RequestView::GetPropertyDouble(id, name@),
{
}

/// mpv is asked to work on everything but ends and completions, each with a number of its own.
pub proof fn tasks_have_numbers(id: u64, cmd: Seq<Seq<char>>, name: Seq<char>, data: bool)
    ensures
        !RequestView::Exit.is_task(),
        !RequestView::Completed(id).is_task(),
        RequestView::Command(id, cmd).is_task() && RequestView::Command(id, cmd).task_id() == Some(id),
        RequestView::SetPropertyFlag(id, name, data).is_task(),
        RequestView::SetPropertyFlag(id, name, data).task_id() == Some(id),
        RequestView::GetPropertyFlag(id, name).is_task(),
        RequestView::GetPropertyFlag(id, name).task_id() == Some(id),
        RequestView::GetPropertyDouble(id, name).is_task(),
        RequestView::GetPropertyDouble(id, name).task_id() == Some(id),
{
}

/// How requests read in the log: what is asked, the number in square brackets, and what it is asked
/// with, word by word.
pub proof fn requests_read(id: u64, cmd: Seq<Seq<char>>, name: Seq<char>)
    ensures
        ({
            let n = crate::text::decimal(id as nat);
            &&& RequestView::Exit.text() == "exit"@
            &&& RequestView::Completed(id).text() == "completed["@ + n + "]"@
            &&& RequestView::Command(id, cmd).text() == "command["@ + n + "] "@
                + crate::text::joined(cmd, " "@)
            &&& RequestView::SetPropertyFlag(id, name, true).text() == "set-property["@ + n + "] "@
                + name + " true"@
            &&& RequestView::SetPropertyFlag(id, name, false).text() == "set-property["@ + n + "] "@
                + name + " false"@
            &&& RequestView::GetPropertyFlag(id, name).text() == "get-property["@ + n + "] "@ + name
            &&& RequestView::GetPropertyDouble(id, name).text() == "get-property["@ + n + "] "@ + name
        }),
{
    reveal_strlit("completed");
    reveal_strlit("completed[");
    reveal_strlit("command");
    reveal_strlit("command[");
    reveal_strlit("set-property");
    reveal_strlit("set-property[");
    reveal_strlit("get-property");
    reveal_strlit("get-property[");
    reveal_strlit("[");
    reveal_strlit("]");
    reveal_strlit(" ");
    reveal_strlit("] ");
    assert("completed["@ =~= "completed"@ + "["@);
    assert("command["@ =~= "command"@ + "["@);
    assert("set-property["@ =~= "set-property"@ + "["@);
    assert("get-property["@ =~= "get-property"@ + "["@);
    assert("] "@ =~= "]"@ + " "@);
    let n = crate::text::decimal(id as nat);
    assert(RequestView::Completed(id).text() =~= "completed["@ + n + "]"@);
    assert(RequestView::Command(id, cmd).text() =~= "command["@ + n + "] "@ + crate::text::joined(
        cmd,
        " "@,
    ));
    assert(RequestView::SetPropertyFlag(id, name, true).text() =~= "set-property["@ + n + "] "@ + name
        + " true"@);
    assert(RequestView::SetPropertyFlag(id, name, false).text() =~= "set-property["@ + n + "] "@ + name
        + " false"@);
    assert(RequestView::GetPropertyFlag(id, name).text() =~= "get-property["@ + n + "] "@ + name);
    assert(RequestView::GetPropertyDouble(id, name).text() =~= "get-property["@ + n + "] "@ + name);
}

/// The zero-terminated form of a text is its UTF-8 bytes up to the first zero, which is the last
/// byte. There is one if and only if no byte of the text is zero.
pub proof fn c_string_ends_at_its_only_zero(bytes: Seq<u8>, text: Seq<char>)
    ensures
        is_c_string(bytes, text) <==> {
            &&& bytes.len() == vstd::utf8::encode_utf8(text).len() + 1
            &&& bytes.last() == 0
            &&& forall|i: int| 0 <= i < bytes.len() - 1 ==> #[trigger] bytes[i] != 0
            &&& bytes.take(bytes.len() - 1) == vstd::utf8::encode_utf8(text)
        },
        utf8(text) == vstd::utf8::encode_utf8(text),
{
    let plain = vstd::utf8::encode_utf8(text);
    if is_c_string(bytes, text) {
        assert(bytes.take(bytes.len() - 1) =~= plain);
        assert forall|i: int| 0 <= i < bytes.len() - 1 implies #[trigger] bytes[i] != 0 by {
            assert(plain[i] == bytes[i]);
        }
    }
    if bytes.len() == plain.len() + 1 && bytes.last() == 0 && (forall|i: int|
        0 <= i < bytes.len() - 1 ==> #[trigger] bytes[i] != 0) && bytes.take(bytes.len() - 1)
        == plain {
        assert(bytes =~= plain.push(0u8));
        assert forall|i: int| 0 <= i < plain.len() implies plain[i] != 0 by {
            assert(plain[i] == bytes[i]);
        }
    }
}

/// A request that arrives while mpv is free is handed to it, and is then the active one.
pub proof fn free_mpv_gets_the_request(omt: OmtView, msg: RequestView)
    requires
        omt.wf(),
        omt.active is None,
        msg !is Exit,
        msg !is Completed,
    ensures
        omt.admits(msg),
        omt.starts(msg) == Some(msg),
        omt.after(msg).active is Some,
        omt.after(msg).active == msg.task_id(),
        omt.after(msg).queue == Seq::<RequestView>::empty(),
{
    assert(omt.after(msg).queue =~= Seq::<RequestView>::empty());
}

/// A request that arrives while mpv works goes behind all that wait, and nothing is started.
pub proof fn busy_mpv_lets_the_request_wait(omt: OmtView, msg: RequestView)
    requires
        omt.active is Some,
        msg !is Exit,
        msg !is Completed,
    ensures
        omt.admits(msg),
        omt.starts(msg) is None,
        omt.after(msg).active == omt.active,
        omt.after(msg).queue == omt.queue.push(msg),
{
}

/// Only the completion of the active request is admitted. It starts the one that has waited longest,
/// which then is active and waits no longer; where none waits, mpv is free.
pub proof fn completion_starts_the_oldest(omt: OmtView, id: u64)
    ensures
        omt.admits(RequestView::Completed(id)) <==> omt.active == Some(id),
        omt.queue.len() == 0 ==> {
            &&& omt.starts(RequestView::Completed(id)) is None
            &&& omt.after(RequestView::Completed(id)).active is None
            &&& omt.after(RequestView::Completed(id)).queue == omt.queue
        },
        omt.queue.len() > 0 ==> {
            &&& omt.starts(RequestView::Completed(id)) == Some(omt.queue[0])
            &&& omt.after(RequestView::Completed(id)).active == omt.queue[0].task_id()
            &&& seq![omt.queue[0]] + omt.after(RequestView::Completed(id)).queue == omt.queue
        },
{
    if omt.queue.len() > 0 {
        assert(seq![omt.queue[0]] + omt.after(RequestView::Completed(id)).queue =~= omt.queue);
    }
}

/// The end starts nothing and changes nothing, and may come at any time.
pub proof fn end_changes_nothing(omt: OmtView)
    ensures
        omt.admits(RequestView::Exit),
        omt.starts(RequestView::Exit) is None,
        omt.after(RequestView::Exit) == omt,
{
}

/// Nothing that arrives is lost, and nothing is handed out twice: what was waiting and what arrives
/// is what is started and what waits then, in this order.
pub proof fn requests_are_conserved(omt: OmtView, msg: RequestView)
    ensures
        omt.queue + (if msg.is_task() { seq![msg] } else { Seq::empty() }) == (match omt.starts(msg) {
            Some(task) => seq![task],
            None => Seq::empty(),
        }) + omt.after(msg).queue,
        omt.starts(msg) is Some ==> omt.after(msg).active == omt.starts(msg)->0.task_id(),
{
    assert(omt.queue + (if msg.is_task() { seq![msg] } else { Seq::empty() }) =~= (match omt.starts(
        msg,
    ) {
        Some(task) => seq![task],
        None => Seq::empty(),
    }) + omt.after(msg).queue);
}

} // verus!

//! The worker manager: a two-state machine, Stopped and Running.
//!
//! The host owns the process and its pipes and performs every read, write,
//! spawn and kill. It asks the manager before each step and hands it what
//! came back; the manager decides what that means and which state follows.
use vstd::prelude::*;

use crate::error::PlaywrightError;
use crate::json::json_string_text;
#[allow(unused_imports)]
use crate::json::{json_parsed, json_value_text};
#[allow(unused_imports)]
use crate::protocol::{
    answers, bool_member, command_text, decode_reply, decodes_to, encode_command, is_ready, reply_decodes,
    reply_value, Reply,
};

verus! {

/// What the manager knows: whether a worker is up, and the id that the next
/// request will carry.
pub struct WorkerModel {
    pub running: bool,
    pub next_id: nat,
}

/// The model of a fresh manager: stopped, and the first request gets id 1.
pub open spec fn initial() -> WorkerModel {
    WorkerModel { running: false, next_id: 1 }
}

/// A request launches the worker first exactly when none is running.
pub open spec fn needs_launch_spec(m: WorkerModel) -> bool {
    !m.running
}

/// After the first line of a freshly spawned worker: running exactly when it said ready.
pub open spec fn after_handshake(m: WorkerModel, ready: bool) -> WorkerModel {
    WorkerModel { running: ready, ..m }
}

/// Why a request cannot go out now, if it cannot: no worker is running, or
/// every id has been used.
pub open spec fn command_refusal(m: WorkerModel) -> Option<PlaywrightError> {
    if !m.running {
        Some(PlaywrightError::NotRunning)
    } else if m.next_id >= u64::MAX {
        Some(PlaywrightError::IdsExhausted)
    } else {
        None
    }
}

/// The first line of a freshly spawned worker says it is ready: it decodes
/// as a reply, and its `ready` member is `true`.
pub open spec fn handshake_ok(text: Seq<char>) -> bool {
    reply_decodes(text) && bool_member(json_parsed(text)->Some_0, "ready"@) == Some(Some(true))
}

/// After a request has been framed: its id is used up.
pub open spec fn after_request(m: WorkerModel) -> WorkerModel {
    if command_refusal(m) is None {
        WorkerModel { next_id: m.next_id + 1, ..m }
    } else {
        m
    }
}

/// After a stop: no worker, and the id counter untouched.
pub open spec fn after_stop(m: WorkerModel) -> WorkerModel {
    WorkerModel { running: false, ..m }
}

pub struct PlaywrightWorker {
    running: bool,
    next_id: u64,
}

impl View for PlaywrightWorker {
    type V = WorkerModel;

    closed spec fn view(&self) -> WorkerModel {
        WorkerModel { running: self.running, next_id: self.next_id as nat }
    }
}

impl PlaywrightWorker {
    pub fn new() -> (r: Self)
        ensures
            r@ == initial(),
    {
        PlaywrightWorker { running: false, next_id: 1 }
    }

    pub fn is_running(&self) -> (r: bool)
        ensures
            r == self@.running,
    {
        self.running
    }

    /// The id that the next request will carry.
    pub fn next_request_id(&self) -> (r: u64)
        ensures
            r == self@.next_id,
    {
        self.next_id
    }

    /// Whether a request must first launch the worker.
    pub fn needs_launch(&self) -> (r: bool)
        ensures
            r == needs_launch_spec(self@),
    {
        !self.running
    }

    /// Takes the first line of a freshly spawned worker: ready or not.
    pub fn accept_handshake(&mut self, reply: &Reply) -> (r: Result<(), PlaywrightError>)
        requires
            !old(self)@.running,
        ensures
            r is Ok <==> is_ready(*reply),
            r is Err ==> r->Err_0 is HandshakeFailure,
            final(self)@ == after_handshake(old(self)@, is_ready(*reply)),
    {
        if reply.ready == Some(true) {
            self.running = true;
            Ok(())
        } else {
            Err(PlaywrightError::HandshakeFailure)
        }
    }

    /// Completes a launch with what reading the worker's first line gave: the
    /// line, or the message of the read error. An empty line is the end of the
    /// stream. On an error the worker stays stopped, and the host must kill
    /// the process it spawned.
    pub fn complete_start(&mut self, first_line: Result<String, String>) -> (r: Result<(), PlaywrightError>)
        requires
            !old(self)@.running,
        ensures
            final(self)@.running <==> r is Ok,
            final(self)@.next_id == old(self)@.next_id,
            first_line is Err ==> r == Err::<(), _>(PlaywrightError::SpawnError(first_line->Err_0)),
            first_line is Ok && first_line->Ok_0@.len() == 0 ==> r == Err::<(), _>(PlaywrightError::HandshakeFailure),
            first_line is Ok && r is Err ==> r->Err_0 is HandshakeFailure,
            first_line is Ok && first_line->Ok_0@.len() > 0 ==> (r is Ok <==> handshake_ok(first_line->Ok_0@)),
    {
        let line = match first_line {
            Ok(l) => l,
            Err(m) => return Err(PlaywrightError::SpawnError(m)),
        };
        if line.as_str().unicode_len() == 0 {
            return Err(PlaywrightError::HandshakeFailure);
        }
        match decode_reply(line.as_str()) {
            Ok(reply) => self.accept_handshake(&reply),
            Err(_) => Err(PlaywrightError::HandshakeFailure),
        }
    }

    /// Frames the next request, using up its id. Refused where no worker is
    /// running, or where every id has been used.
    pub fn begin_command(&mut self, action: &str, params: &serde_json::Value) -> (r: Result<String, PlaywrightError>)
        ensures
            final(self)@ == after_request(old(self)@),
            command_refusal(old(self)@) is Some ==> r == Err::<String, _>(command_refusal(old(self)@)->Some_0),
            command_refusal(old(self)@) is None ==> r is Ok
                && r->Ok_0@ == command_text(old(self)@.next_id, json_string_text(action@), json_value_text(*params)),
    {
        if !self.running {
            return Err(PlaywrightError::NotRunning);
        }
        if self.next_id == u64::MAX {
            return Err(PlaywrightError::IdsExhausted);
        }
        let id = self.next_id;
        self.next_id = self.next_id + 1;
        encode_command(id, action, params)
    }

    /// What the request just sent returns for its decoded reply. Refused with
    /// `NotRunning` where no worker is running.
    pub fn accept_reply(&self, reply: Reply) -> (r: Result<serde_json::Value, PlaywrightError>)
        ensures
            !self@.running ==> r == Err::<serde_json::Value, _>(PlaywrightError::NotRunning),
            self@.running ==> answers(reply, r),
    {
        if !self.running {
            return Err(PlaywrightError::NotRunning);
        }
        reply_value(reply)
    }

    /// Takes what reading the reply to the request just sent gave: the line,
    /// or the message of the read error. An empty line is the end of the
    /// stream. A line that decodes goes to `accept_reply`.
    pub fn finish_command(&mut self, line: Result<String, String>) -> (r: Result<serde_json::Value, PlaywrightError>)
        ensures
            final(self)@ == old(self)@,
            !old(self)@.running ==> r == Err::<serde_json::Value, _>(PlaywrightError::NotRunning),
            old(self)@.running && line is Err ==> r == Err::<serde_json::Value, _>(PlaywrightError::SpawnError(line->Err_0)),
            old(self)@.running && line is Ok && line->Ok_0@.len() == 0 ==> r is Err && r->Err_0 is JsonError,
            old(self)@.running && line is Ok && line->Ok_0@.len() > 0 && !reply_decodes(line->Ok_0@)
                ==> r is Err && r->Err_0 is JsonError,
            old(self)@.running && line is Ok && line->Ok_0@.len() > 0 && reply_decodes(line->Ok_0@)
                ==> exists|reply: Reply| decodes_to(line->Ok_0@, reply) && answers(reply, r),
    {
        if !self.running {
            return Err(PlaywrightError::NotRunning);
        }
        let line = match line {
            Ok(l) => l,
            Err(m) => return Err(PlaywrightError::SpawnError(m)),
        };
        if line.as_str().unicode_len() == 0 {
            return Err(PlaywrightError::JsonError(String::from_str("the worker closed its output")));
        }
        let reply = decode_reply(line.as_str())?;
        self.accept_reply(reply)
    }

    /// Stops the worker. The host kills the process and waits for it, then
    /// drops both pipes. Stopping a stopped manager changes nothing.
    pub fn stop(&mut self) -> (r: Result<(), PlaywrightError>)
        ensures
            r is Ok,
            final(self)@ == after_stop(old(self)@),
    {
        self.running = false;
        Ok(())
    }
}

/// The model after `n` requests framed in a row.
pub open spec fn after_requests(m: WorkerModel, n: nat) -> WorkerModel
    decreases n,
{
    if n == 0 {
        m
    } else {
        after_request(after_requests(m, (n - 1) as nat))
    }
}

/// Lazy start happens once: after a successful handshake the worker stays
/// running through any number of requests, so none of them launches it again;
/// while ids last, each of them uses up the next one.
pub proof fn lemma_launch_once(m: WorkerModel, n: nat)
    requires
        needs_launch_spec(m),
    ensures
        !needs_launch_spec(after_requests(after_handshake(m, true), n)),
        m.next_id + n <= u64::MAX ==> after_requests(after_handshake(m, true), n).next_id == m.next_id + n,
    decreases n,
{
    if n > 0 {
        lemma_launch_once(m, (n - 1) as nat);
    }
}

/// A second stop changes nothing: the manager is stopped after either.
pub proof fn lemma_stop_idempotent(m: WorkerModel)
    ensures
        after_stop(after_stop(m)) == after_stop(m),
        !after_stop(m).running,
{
}

/// After a stop no request goes out: it is refused with `NotRunning`, and
/// the refusal uses up no id.
pub proof fn lemma_refused_after_stop(m: WorkerModel)
    ensures
        command_refusal(after_stop(m)) == Some(PlaywrightError::NotRunning),
        after_request(after_stop(m)) == after_stop(m),
{
}

/// Request ids only grow: each request takes the next one, and neither a stop
/// nor a new handshake resets the counter.
pub proof fn lemma_ids_never_reused(m: WorkerModel, ready: bool)
    ensures
        m.running && m.next_id < u64::MAX ==> after_request(m).next_id == m.next_id + 1,
        after_request(m).next_id >= m.next_id,
        after_stop(m).next_id == m.next_id,
        after_handshake(m, ready).next_id == m.next_id,
{
}

} // verus!

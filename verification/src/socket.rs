//! The control channel: the commands a controller can send, their textual
//! encoding, what each does to a timer, where the endpoint lies, and what
//! the listener decides at startup and on each turn of its loop.

use crate::dirs::{list_runtime_files, place_runtime_file, with_prefix};
use crate::paths::{file_name, file_name_of};
use crate::text::{
    chars_of, is_whitespace, lower, lowered, same_text, spells, trim_bounds, trim_end,
    trim_start, trimmed,
};
use crate::timer::{Timer, TimerState};
use std::sync::mpsc::{Receiver, Sender};
use vstd::prelude::*;

verus! {

/// The directory of the endpoint, below the user's runtime directory.
pub const SOCKET_DIR: &'static str = "verandah-plugin-pomodoro";

/// The file name of the endpoint.
pub const SOCKET_NAME: &'static str = "pomodoro.socket";

/// How long the listener waits, in milliseconds, before it tries again to
/// accept a connection.
pub const RETRY_DELAY_MS: u64 = 100;

/// `std::sync::mpsc::Sender`, the sending end of a queue: carried, never
/// looked into.
#[verifier::external_type_specification]
#[verifier::external_body]
#[verifier::reject_recursive_types(T)]
pub struct ExSender<T>(Sender<T>);

/// `std::sync::mpsc::Receiver`, the receiving end of a queue: carried,
/// never looked into.
#[verifier::external_type_specification]
#[verifier::external_body]
#[verifier::reject_recursive_types(T)]
pub struct ExReceiver<T>(Receiver<T>);

/// Commands that can be sent to the timer
#[derive(Debug, Clone, Copy, PartialEq, Eq, Structural)]
pub enum Command {
    Toggle,
    Start,
    Stop,
    Reset,
    Skip,
}

impl Command {
    /// The word that encodes this command.
    pub open spec fn word(self) -> Seq<char> {
        match self {
            Command::Toggle => "toggle"@,
            Command::Start => "start"@,
            Command::Stop => "stop"@,
            Command::Reset => "reset"@,
            Command::Skip => "skip"@,
        }
    }

    /// The token that a payload carries: the payload without the whitespace
    /// around it, in lower case.
    pub open spec fn token(payload: Seq<char>) -> Seq<char> {
        lowered(trimmed(payload))
    }

    /// The command that a payload encodes, if any: the one whose word is the
    /// payload's token.
    pub open spec fn decode(payload: Seq<char>) -> Option<Command> {
        let token = Self::token(payload);
        if token == Command::Toggle.word() {
            Some(Command::Toggle)
        } else if token == Command::Start.word() {
            Some(Command::Start)
        } else if token == Command::Stop.word() {
            Some(Command::Stop)
        } else if token == Command::Reset.word() {
            Some(Command::Reset)
        } else if token == Command::Skip.word() {
            Some(Command::Skip)
        } else {
            None
        }
    }

    /// The state of a timer after this command.
    pub open spec fn applied(self, state: TimerState) -> TimerState {
        match self {
            Command::Toggle => state.toggled(),
            Command::Start => state.started(),
            Command::Stop => state.paused(),
            Command::Reset => state.reset(),
            Command::Skip => state.advanced(),
        }
    }

    /// Whether this command can be applied in `state` with the session
    /// counter staying in `u32`.
    pub open spec fn applicable(self, state: TimerState) -> bool {
        self == Command::Skip ==> state.can_advance()
    }

    pub fn parse(s: &str) -> (command: Option<Command>)
        ensures
            command == Command::decode(s@),
    {
        let chars = chars_of(s);
        let (start, end) = trim_bounds(&chars);
        if spells(&chars, start, end, "toggle") {
            Some(Command::Toggle)
        } else if spells(&chars, start, end, "start") {
            Some(Command::Start)
        } else if spells(&chars, start, end, "stop") {
            Some(Command::Stop)
        } else if spells(&chars, start, end, "reset") {
            Some(Command::Reset)
        } else if spells(&chars, start, end, "skip") {
            Some(Command::Skip)
        } else {
            None
        }
    }

    pub fn apply(&self, timer: &mut Timer)
        requires
            self.applicable(old(timer)@),
        ensures
            final(timer)@ == self.applied(old(timer)@),
    {
        match self {
            Command::Toggle => timer.toggle(),
            Command::Start => timer.start(),
            Command::Stop => timer.pause(),
            Command::Reset => timer.reset(),
            Command::Skip => {
                let _ = timer.skip();
            },
        }
    }
}

/// Whether every character of `s` is whitespace.
pub open spec fn all_whitespace(s: Seq<char>) -> bool {
    forall|i: int| 0 <= i < s.len() ==> is_whitespace(#[trigger] s[i])
}

proof fn lemma_trim_start_of_whitespace(pre: Seq<char>, s: Seq<char>)
    requires
        all_whitespace(pre),
    ensures
        trim_start(pre + s) == trim_start(s),
    decreases pre.len(),
{
    if pre.len() == 0 {
        assert(pre + s =~= s);
    } else {
        assert((pre + s).first() == pre[0]);
        assert((pre + s).drop_first() =~= pre.drop_first() + s);
        lemma_trim_start_of_whitespace(pre.drop_first(), s);
    }
}

proof fn lemma_trim_end_of_whitespace(s: Seq<char>, post: Seq<char>)
    requires
        all_whitespace(post),
    ensures
        trim_end(s + post) == trim_end(s),
    decreases post.len(),
{
    if post.len() == 0 {
        assert(s + post =~= s);
    } else {
        assert((s + post).last() == post.last());
        assert((s + post).drop_last() =~= s + post.drop_last());
        lemma_trim_end_of_whitespace(s, post.drop_last());
    }
}

proof fn lemma_trimmed_drops_trailing(s: Seq<char>, post: Seq<char>)
    requires
        all_whitespace(post),
    ensures
        trimmed(s + post) == trimmed(s),
    decreases s.len(),
{
    if s.len() == 0 {
        assert(s + post =~= post + s);
        lemma_trim_start_of_whitespace(post, s);
    } else if is_whitespace(s.first()) {
        assert((s + post).first() == s.first());
        assert((s + post).drop_first() =~= s.drop_first() + post);
        lemma_trimmed_drops_trailing(s.drop_first(), post);
    } else {
        assert((s + post).first() == s.first());
        lemma_trim_end_of_whitespace(s, post);
    }
}

/// Whitespace around a payload does not change what it decodes to.
pub proof fn lemma_decode_ignores_whitespace(pre: Seq<char>, payload: Seq<char>, post: Seq<char>)
    requires
        all_whitespace(pre),
        all_whitespace(post),
    ensures
        Command::decode(pre + payload + post) == Command::decode(payload),
{
    assert(pre + payload + post =~= pre + (payload + post));
    lemma_trim_start_of_whitespace(pre, payload + post);
    lemma_trimmed_drops_trailing(payload, post);
}

proof fn lemma_lower_keeps_whitespace(c: char, d: char)
    requires
        lower(c) == lower(d),
    ensures
        is_whitespace(c) == is_whitespace(d),
{
}

proof fn lemma_trim_start_ignores_case(s: Seq<char>, t: Seq<char>)
    requires
        lowered(s) == lowered(t),
    ensures
        lowered(trim_start(s)) == lowered(trim_start(t)),
    decreases s.len(),
{
    assert(s.len() == lowered(s).len() == t.len());
    if s.len() > 0 {
        assert(lowered(s)[0] == lower(s[0]));
        assert(lowered(t)[0] == lower(t[0]));
        lemma_lower_keeps_whitespace(s[0], t[0]);
        if is_whitespace(s.first()) {
            assert(lowered(s.drop_first()) =~= lowered(s).drop_first());
            assert(lowered(t.drop_first()) =~= lowered(t).drop_first());
            lemma_trim_start_ignores_case(s.drop_first(), t.drop_first());
        }
    }
}

proof fn lemma_trim_end_ignores_case(s: Seq<char>, t: Seq<char>)
    requires
        lowered(s) == lowered(t),
    ensures
        lowered(trim_end(s)) == lowered(trim_end(t)),
    decreases s.len(),
{
    assert(s.len() == lowered(s).len() == t.len());
    if s.len() > 0 {
        assert(lowered(s)[s.len() - 1] == lower(s.last()));
        assert(lowered(t)[t.len() - 1] == lower(t.last()));
        lemma_lower_keeps_whitespace(s.last(), t.last());
        if is_whitespace(s.last()) {
            assert(lowered(s.drop_last()) =~= lowered(s).drop_last());
            assert(lowered(t.drop_last()) =~= lowered(t).drop_last());
            lemma_trim_end_ignores_case(s.drop_last(), t.drop_last());
        }
    }
}

/// Two payloads that differ only in the case of ASCII letters decode alike.
pub proof fn lemma_decode_ignores_case(a: Seq<char>, b: Seq<char>)
    requires
        lowered(a) == lowered(b),
    ensures
        Command::decode(a) == Command::decode(b),
{
    lemma_trim_start_ignores_case(a, b);
    lemma_trim_end_ignores_case(trim_start(a), trim_start(b));
}

/// Each command's word decodes to that command, and a payload decodes to a
/// command only if its token is that command's word: anything else decodes to
/// nothing.
pub proof fn lemma_decode_vocabulary(payload: Seq<char>, command: Command)
    ensures
        Command::decode(command.word()) == Some(command),
        Command::decode(payload) == Some(command) <==> Command::token(payload) == command.word(),
{
    reveal_strlit("toggle");
    reveal_strlit("start");
    reveal_strlit("stop");
    reveal_strlit("reset");
    reveal_strlit("skip");
    let word = command.word();
    assert(trim_start(word) == word);
    assert(trim_end(word) == word);
    assert(lowered(word) =~= word);
    assert(Command::Toggle.word()[1] != Command::Start.word()[1]);
    assert(Command::Toggle.word().len() != Command::Stop.word().len());
    assert(Command::Toggle.word()[0] != Command::Reset.word()[0]);
    assert(Command::Toggle.word()[0] != Command::Skip.word()[0]);
    assert(Command::Start.word().len() != Command::Stop.word().len());
    assert(Command::Start.word()[0] != Command::Reset.word()[0]);
    assert(Command::Start.word().len() != Command::Skip.word().len());
    assert(Command::Stop.word()[0] != Command::Reset.word()[0]);
    assert(Command::Stop.word()[1] != Command::Skip.word()[1]);
    assert(Command::Reset.word()[0] != Command::Skip.word()[0]);
}

/// Whether `file` is a path whose final component is `name`.
pub open spec fn is_named(file: Option<String>, name: Seq<char>) -> bool {
    file matches Some(path) && file_name_of(path@) == Some(name)
}

/// The first of `files` whose final component is `name`.
pub fn first_named(files: &Vec<Option<String>>, name: &str) -> (index: Option<usize>)
    ensures
        match index {
            Some(i) => {
                &&& i < files.len()
                &&& is_named(files[i as int], name@)
                &&& forall|j: int| 0 <= j < i ==> !is_named(#[trigger] files[j], name@)
            },
            None => forall|j: int| 0 <= j < files.len() ==> !is_named(#[trigger] files[j], name@),
        },
{
    let mut i: usize = 0;
    while i < files.len()
        invariant
            i <= files.len(),
            forall|j: int| 0 <= j < i ==> !is_named(#[trigger] files[j], name@),
        decreases files.len() - i,
    {
        let found = match &files[i] {
            Some(path) => has_file_name(path.as_str(), name),
            None => false,
        };
        if found {
            return Some(i);
        }
        i = i + 1;
    }
    None
}

/// Whether the final component of `path` is `name`.
pub fn has_file_name(path: &str, name: &str) -> (named: bool)
    ensures
        named == (file_name_of(path@) == Some(name@)),
{
    match file_name(path) {
        Some(last) => same_text(last.as_str(), name),
        None => false,
    }
}

/// What is made of a placed path: it is the endpoint's place if it bears
/// the endpoint's name, and no place otherwise.
pub fn endpoint_place(placed: Option<String>) -> (path: Option<String>)
    ensures
        path == (match placed {
            Some(place) => if file_name_of(place@) == Some(SOCKET_NAME@) {
                Some(place)
            } else {
                None
            },
            None => None,
        }),
{
    match placed {
        Some(place) => if has_file_name(place.as_str(), SOCKET_NAME) {
            Some(place)
        } else {
            None
        },
        None => None,
    }
}

/// The socket among the listed files: the first that bears the endpoint's
/// name, and none only if no file bears it.
pub fn socket_among(files: &Vec<Option<String>>) -> (path: Option<String>)
    ensures
        match path {
            Some(found) => exists|i: int|
                {
                    &&& 0 <= i < files.len()
                    &&& #[trigger] files[i] == Some(found)
                    &&& is_named(files[i], SOCKET_NAME@)
                    &&& forall|j: int| 0 <= j < i ==> !is_named(#[trigger] files[j], SOCKET_NAME@)
                },
            None => forall|j: int|
                0 <= j < files.len() ==> !is_named(#[trigger] files[j], SOCKET_NAME@),
        },
{
    match first_named(files, SOCKET_NAME) {
        Some(i) => match &files[i] {
            Some(path) => {
                let found = path.clone();
                assert(files[i as int] == Some(found));
                Some(found)
            },
            None => None,
        },
        None => None,
    }
}

/// Get the socket path using XDG runtime directory: the place of the
/// endpoint for a listener to bind, with the directories above it made.
/// Nothing where the environment offers no usable runtime directory. The
/// path bears the endpoint's name, by which `find_socket` knows it.
pub fn get_socket_path() -> (path: Option<String>)
    ensures
        path matches Some(place) ==> file_name_of(place@) == Some(SOCKET_NAME@),
{
    match with_prefix(SOCKET_DIR) {
        Some(dirs) => endpoint_place(place_runtime_file(&dirs, SOCKET_NAME)),
        None => None,
    }
}

/// Find existing socket for the control client: the first entry of the
/// endpoint's directory that bears the endpoint's name.
pub fn find_socket() -> (path: Option<String>)
    ensures
        path matches Some(found) ==> file_name_of(found@) == Some(SOCKET_NAME@),
{
    match with_prefix(SOCKET_DIR) {
        Some(dirs) => {
            let files = list_runtime_files(&dirs, ".");
            socket_among(&files)
        },
        None => None,
    }
}

/// Create a command channel: `std::sync::mpsc::channel`, the queue from the
/// listener to the poll loop.
#[verifier::external_body]
pub fn command_channel() -> (ends: (Sender<Command>, Receiver<Command>)) {
    std::sync::mpsc::channel()
}

/// Why the control channel could not be set up or reached.
#[derive(Debug, Clone, Copy, PartialEq, Eq, Structural)]
pub enum ChannelError {
    /// the environment offers no usable runtime directory
    NoRuntimeDirectory,
    /// a live listener owns the endpoint
    AlreadyRunning,
    /// no endpoint to send a command to
    NotRunning,
}

impl ChannelError {
    pub open spec fn spec_message(self) -> Seq<char> {
        match self {
            ChannelError::NoRuntimeDirectory => "Failed to determine XDG runtime directory"@,
            ChannelError::AlreadyRunning => "Another pomodoro instance is already running"@,
            ChannelError::NotRunning => "No running pomodoro instance found"@,
        }
    }

    pub fn message(self) -> (text: &'static str)
        ensures
            text@ == self.spec_message(),
    {
        match self {
            ChannelError::NoRuntimeDirectory => "Failed to determine XDG runtime directory",
            ChannelError::AlreadyRunning => "Another pomodoro instance is already running",
            ChannelError::NotRunning => "No running pomodoro instance found",
        }
    }
}

/// What a starting listener found at the endpoint's path.
#[derive(Debug, Clone, Copy, PartialEq, Eq, Structural)]
pub enum Endpoint {
    /// no file there
    Absent,
    /// a file, and a connection to it succeeded
    Live,
    /// a file, and no connection to it could be made
    Stale,
}

/// What a starting listener does before it binds.
#[derive(Debug, Clone, Copy, PartialEq, Eq, Structural)]
pub enum Startup {
    /// bind at the path
    Bind,
    /// delete the file a dead listener left, then bind at the path
    ReplaceStale,
}

/// What a starting listener found: a file that accepts a connection has a
/// live owner, one that does not is stale. The connection is attempted only
/// where there is a file.
pub fn probe_endpoint(file_exists: bool, connects: bool) -> (found: Endpoint)
    ensures
        found == (if !file_exists {
            Endpoint::Absent
        } else if connects {
            Endpoint::Live
        } else {
            Endpoint::Stale
        }),
{
    if !file_exists {
        Endpoint::Absent
    } else if connects {
        Endpoint::Live
    } else {
        Endpoint::Stale
    }
}

/// The startup decision: a second listener is refused while the first is
/// alive; a stale file does not block the start.
pub fn startup(found: Endpoint) -> (decision: Result<Startup, ChannelError>)
    ensures
        decision == (match found {
            Endpoint::Absent => Ok::<Startup, ChannelError>(Startup::Bind),
            Endpoint::Stale => Ok(Startup::ReplaceStale),
            Endpoint::Live => Err(ChannelError::AlreadyRunning),
        }),
{
    match found {
        Endpoint::Absent => Ok(Startup::Bind),
        Endpoint::Stale => Ok(Startup::ReplaceStale),
        Endpoint::Live => Err(ChannelError::AlreadyRunning),
    }
}

/// What happened on one turn of the listener's loop.
#[derive(Debug, Clone, PartialEq, Eq)]
pub enum ListenerEvent {
    /// the shutdown flag was found set
    ShutdownRequested,
    /// a connection was accepted and its payload read to the end
    Received(String),
    /// a connection was accepted and reading from it failed
    ReadFailed,
    /// no connection is pending
    WouldBlock,
    /// accepting failed otherwise
    AcceptFailed,
    /// the command went into the queue
    Delivered,
    /// the queue has lost its receiving end
    QueueClosed,
}

/// What the listener does next.
#[derive(Debug, Clone, Copy, PartialEq, Eq, Structural)]
pub enum ListenerAction {
    /// put the command into the queue
    Deliver(Command),
    /// go on with the next turn
    Continue,
    /// wait `RETRY_DELAY_MS`, then go on with the next turn
    Backoff,
    /// leave the loop and delete the endpoint's file
    Stop,
}

impl ListenerEvent {
    /// The listener's rule: a payload that decodes is delivered, any other
    /// is dropped; nothing to accept, or a failure to accept, is waited
    /// out; shutdown and a closed queue end the loop.
    pub open spec fn action(self) -> ListenerAction {
        match self {
            ListenerEvent::ShutdownRequested => ListenerAction::Stop,
            ListenerEvent::Received(payload) => match Command::decode(payload@) {
                Some(command) => ListenerAction::Deliver(command),
                None => ListenerAction::Continue,
            },
            ListenerEvent::ReadFailed => ListenerAction::Continue,
            ListenerEvent::WouldBlock => ListenerAction::Backoff,
            ListenerEvent::AcceptFailed => ListenerAction::Backoff,
            ListenerEvent::Delivered => ListenerAction::Continue,
            ListenerEvent::QueueClosed => ListenerAction::Stop,
        }
    }
}

/// What the listener does after `event`.
pub fn listener_step(event: &ListenerEvent) -> (action: ListenerAction)
    ensures
        action == event.action(),
{
    match event {
        ListenerEvent::ShutdownRequested => ListenerAction::Stop,
        ListenerEvent::Received(payload) => match Command::parse(payload.as_str()) {
            Some(command) => ListenerAction::Deliver(command),
            None => ListenerAction::Continue,
        },
        ListenerEvent::ReadFailed => ListenerAction::Continue,
        ListenerEvent::WouldBlock => ListenerAction::Backoff,
        ListenerEvent::AcceptFailed => ListenerAction::Backoff,
        ListenerEvent::Delivered => ListenerAction::Continue,
        ListenerEvent::QueueClosed => ListenerAction::Stop,
    }
}

/// The listener never crashes on what arrives: only shutdown and a closed
/// queue stop it, and a command is delivered only for a payload that
/// encodes it.
pub proof fn lemma_listener_goes_on(event: ListenerEvent)
    ensures
        event.action() == ListenerAction::Stop <==> (event == ListenerEvent::ShutdownRequested
            || event == ListenerEvent::QueueClosed),
        forall|command: Command|
            event.action() == ListenerAction::Deliver(command) <==> (event matches ListenerEvent::Received(
                payload,
            ) && Command::decode(payload@) == Some(command)),
{
}

} // verus!

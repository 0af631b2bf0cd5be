use crate::kv::kv_views;
use crate::secrets::{map_of, SecretsMap};
use vstd::prelude::*;

verus! {

/// Everything one launch needs: the program, its arguments, and the secrets
/// to overlay on the inherited environment.
pub struct LaunchSpec {
    pub program: String,
    pub args: Vec<String>,
    pub extra_env: SecretsMap,
}

impl LaunchSpec {
    /// The child's environment block: the inherited pairs overlaid with the
    /// secrets, so that on a key collision the secret wins.
    pub fn child_env(&self, inherited: &Vec<(String, String)>) -> (r: SecretsMap)
        ensures
            r@ == map_of(kv_views(inherited@)).union_prefer_right(self.extra_env@),
    {
        self.extra_env.overlay_onto(inherited)
    }
}

/// What String::from_utf8 makes of a byte sequence: the characters of its
/// text when the bytes are valid UTF-8, nothing otherwise. The encoding's
/// exact shape belongs to std and is left uninterpreted.
pub uninterp spec fn utf8_decode(bytes: Seq<u8>) -> Option<Seq<char>>;

/// Relies on String::from_utf8: whether it succeeds, and the text it returns,
/// are functions of the bytes alone.
#[verifier::external_body]
fn bytes_to_text(bytes: Vec<u8>) -> (r: Option<String>)
    ensures
        r is Some <==> utf8_decode(bytes@) is Some,
        r matches Some(s) ==> utf8_decode(bytes@) == Some(s@),
{
    match String::from_utf8(bytes) {
        Ok(s) => Some(s),
        Err(_) => None,
    }
}

/// One read from the child's captured stream.
pub enum ReadEvent {
    /// A chunk of bytes was read.
    Chunk(Vec<u8>),
    /// A zero-length read: the child closed its end.
    Eof,
    /// The read itself failed.
    ReadFailed,
}

/// The abstract content of a read.
pub enum ReadEventModel {
    Chunk(Seq<u8>),
    Eof,
    ReadFailed,
}

pub open spec fn read_event_model(ev: ReadEvent) -> ReadEventModel {
    match ev {
        ReadEvent::Chunk(bytes) => ReadEventModel::Chunk(bytes@),
        ReadEvent::Eof => ReadEventModel::Eof,
        ReadEvent::ReadFailed => ReadEventModel::ReadFailed,
    }
}

/// What the forwarding task does with one read.
pub enum ForwardAction {
    /// Write this text to the parent's corresponding stream and flush it.
    Emit(String),
    /// The chunk was not valid text: forward nothing and keep reading.
    DropChunk,
    /// End of stream: stop cleanly.
    Stop,
    /// The read failed: warn for this side and stop; the sibling stream and
    /// the child itself are unaffected.
    StopWithWarning,
}

/// The abstract content of a forwarding action.
pub enum ForwardActionModel {
    Emit(Seq<char>),
    DropChunk,
    Stop,
    StopWithWarning,
}

pub open spec fn forward_action_model(a: ForwardAction) -> ForwardActionModel {
    match a {
        ForwardAction::Emit(s) => ForwardActionModel::Emit(s@),
        ForwardAction::DropChunk => ForwardActionModel::DropChunk,
        ForwardAction::Stop => ForwardActionModel::Stop,
        ForwardAction::StopWithWarning => ForwardActionModel::StopWithWarning,
    }
}

/// The abstract state of one forwarding task: whether it has stopped, and the
/// texts it has forwarded so far, in order.
pub struct ForwardModel {
    pub done: bool,
    pub forwarded: Seq<Seq<char>>,
}

/// How a forwarding task advances on one read: a decodable chunk is forwarded
/// at once and in order, an undecodable one is dropped, end-of-stream stops
/// the task cleanly, and a failed read stops it with a warning.
pub open spec fn forward_step(m: ForwardModel, ev: ReadEventModel) -> (ForwardModel, ForwardActionModel) {
    match ev {
        ReadEventModel::Chunk(bytes) => match utf8_decode(bytes) {
            Some(text) => (
                ForwardModel { done: m.done, forwarded: m.forwarded.push(text) },
                ForwardActionModel::Emit(text),
            ),
            None => (m, ForwardActionModel::DropChunk),
        },
        ReadEventModel::Eof => (
            ForwardModel { done: true, forwarded: m.forwarded },
            ForwardActionModel::Stop,
        ),
        ReadEventModel::ReadFailed => (
            ForwardModel { done: true, forwarded: m.forwarded },
            ForwardActionModel::StopWithWarning,
        ),
    }
}

/// One forwarding task: relays one of the child's output streams to the
/// parent's corresponding stream, chunk by chunk in the order read. Each of
/// the two streams gets a task of its own; they share nothing.
pub struct ForwardTask {
    done: bool,
    forwarded: Ghost<Seq<Seq<char>>>,
}

impl View for ForwardTask {
    type V = ForwardModel;

    closed spec fn view(&self) -> ForwardModel {
        ForwardModel { done: self.done, forwarded: self.forwarded@ }
    }
}

impl ForwardTask {
    pub fn new() -> (r: ForwardTask)
        ensures
            r@ == (ForwardModel { done: false, forwarded: Seq::empty() }),
    {
        ForwardTask { done: false, forwarded: Ghost(Seq::empty()) }
    }

    /// Decide what to do with one read from the child's stream.
    pub fn on_read(&mut self, ev: ReadEvent) -> (a: ForwardAction)
        requires
            !old(self)@.done,
        ensures
            final(self)@ == forward_step(old(self)@, read_event_model(ev)).0,
            forward_action_model(a) == forward_step(old(self)@, read_event_model(ev)).1,
    {
        match ev {
            ReadEvent::Chunk(bytes) => {
                match bytes_to_text(bytes) {
                    Some(text) => {
                        let ghost grown = self.forwarded@.push(text@);
                        self.forwarded = Ghost(grown);
                        ForwardAction::Emit(text)
                    },
                    None => ForwardAction::DropChunk,
                }
            },
            ReadEvent::Eof => {
                self.done = true;
                ForwardAction::Stop
            },
            ReadEvent::ReadFailed => {
                self.done = true;
                ForwardAction::StopWithWarning
            },
        }
    }

    /// Whether the forwarding has stopped.
    pub fn is_done(&self) -> (b: bool)
        ensures
            b == self@.done,
    {
        self.done
    }
}

/// The state a forwarding task reaches after a whole run of reads.
pub open spec fn forward_run(m: ForwardModel, evs: Seq<ReadEventModel>) -> ForwardModel
    decreases evs.len(),
{
    if evs.len() == 0 {
        m
    } else {
        forward_run(forward_step(m, evs[0]).0, evs.drop_first())
    }
}

/// The bytes of a chunk event.
pub open spec fn chunk_bytes(ev: ReadEventModel) -> Seq<u8> {
    match ev {
        ReadEventModel::Chunk(bytes) => bytes,
        _ => Seq::empty(),
    }
}

/// Within one stream, forwarding keeps the order read: a run of decodable
/// chunks extends the forwarded history by exactly those chunks' texts, in
/// the order the chunks arrived, and does not stop the task.
pub proof fn lemma_forward_fifo(m: ForwardModel, evs: Seq<ReadEventModel>)
    requires
        forall|i: int|
            0 <= i < evs.len() ==> (#[trigger] evs[i]) is Chunk && utf8_decode(
                chunk_bytes(evs[i]),
            ) is Some,
    ensures
        forward_run(m, evs).forwarded == m.forwarded + evs.map_values(
            |e: ReadEventModel| utf8_decode(chunk_bytes(e))->0,
        ),
        forward_run(m, evs).done == m.done,
    decreases evs.len(),
{
    let texts = evs.map_values(|e: ReadEventModel| utf8_decode(chunk_bytes(e))->0);
    if evs.len() == 0 {
        assert(m.forwarded + texts =~= m.forwarded);
    } else {
        let stepped = forward_step(m, evs[0]).0;
        lemma_forward_fifo(stepped, evs.drop_first());
        assert(evs.drop_first().map_values(|e: ReadEventModel| utf8_decode(chunk_bytes(e))->0)
            =~= texts.drop_first());
        assert(stepped.forwarded + texts.drop_first() =~= m.forwarded + texts);
    }
}

/// The texts a run of chunks makes the forwarding emit: each decodable
/// chunk's text in arrival order, with undecodable chunks left out.
pub open spec fn emitted_texts(evs: Seq<ReadEventModel>) -> Seq<Seq<char>>
    decreases evs.len(),
{
    if evs.len() == 0 {
        Seq::empty()
    } else {
        let rest = emitted_texts(evs.drop_first());
        match utf8_decode(chunk_bytes(evs[0])) {
            Some(text) => seq![text] + rest,
            None => rest,
        }
    }
}

/// Undecodable chunks are dropped from the forwarded output, not the stream:
/// a run of chunks, decodable or not, extends the forwarded history by
/// exactly the decodable chunks' texts in arrival order, and never stops the
/// forwarding.
pub proof fn lemma_forward_drops_undecodable(m: ForwardModel, evs: Seq<ReadEventModel>)
    requires
        forall|i: int| 0 <= i < evs.len() ==> (#[trigger] evs[i]) is Chunk,
    ensures
        forward_run(m, evs).forwarded == m.forwarded + emitted_texts(evs),
        forward_run(m, evs).done == m.done,
    decreases evs.len(),
{
    if evs.len() == 0 {
        assert(m.forwarded + emitted_texts(evs) =~= m.forwarded);
    } else {
        let stepped = forward_step(m, evs[0]).0;
        lemma_forward_drops_undecodable(stepped, evs.drop_first());
        let rest = emitted_texts(evs.drop_first());
        match utf8_decode(chunk_bytes(evs[0])) {
            Some(text) => {
                assert(stepped.forwarded + rest =~= m.forwarded + (seq![text] + rest));
            },
            None => {
                assert(stepped == m);
            },
        }
    }
}

/// Which of the child's two output streams a task serves.
#[derive(Clone, Copy, PartialEq, Eq, Structural, Debug)]
pub enum StreamKind {
    Stdout,
    Stderr,
}

/// The abstract lifecycle of one launch.
pub enum LaunchModel {
    NotStarted,
    Spawning,
    Running { stdout_done: bool, stderr_done: bool },
    Draining,
    Exited { code: i32 },
    Failed,
}

/// What happens to a launch.
pub enum LaunchEventModel {
    SpawnIssued,
    SpawnOk,
    SpawnFailed,
    StreamDone(StreamKind),
    ChildExited(i32),
}

/// How a launch advances: spawn failure is terminal, both forwarding tasks
/// must join before the child's status is reaped, and the child's exit code
/// is kept verbatim. An event that does not belong to the current state
/// changes nothing.
pub open spec fn launch_step(m: LaunchModel, ev: LaunchEventModel) -> LaunchModel {
    match (m, ev) {
        (LaunchModel::NotStarted, LaunchEventModel::SpawnIssued) => LaunchModel::Spawning,
        (LaunchModel::Spawning, LaunchEventModel::SpawnOk) => LaunchModel::Running {
            stdout_done: false,
            stderr_done: false,
        },
        (LaunchModel::Spawning, LaunchEventModel::SpawnFailed) => LaunchModel::Failed,
        (
            LaunchModel::Running { stdout_done, stderr_done },
            LaunchEventModel::StreamDone(k),
        ) => {
            let so = stdout_done || k is Stdout;
            let se = stderr_done || k is Stderr;
            if so && se {
                LaunchModel::Draining
            } else {
                LaunchModel::Running { stdout_done: so, stderr_done: se }
            }
        },
        (LaunchModel::Draining, LaunchEventModel::ChildExited(code)) => LaunchModel::Exited {
            code,
        },
        (state, _) => state,
    }
}

enum LaunchPhase {
    NotStarted,
    Spawning,
    Running,
    Draining,
    Exited,
    Failed,
}

/// Supervises one child process: spawn with the overlaid environment, let the
/// two forwarding tasks drain the output streams, reap the child only after
/// both have joined, and report its exit code verbatim.
pub struct Launcher {
    phase: LaunchPhase,
    stdout_done: bool,
    stderr_done: bool,
    code: i32,
}

impl View for Launcher {
    type V = LaunchModel;

    closed spec fn view(&self) -> LaunchModel {
        match self.phase {
            LaunchPhase::NotStarted => LaunchModel::NotStarted,
            LaunchPhase::Spawning => LaunchModel::Spawning,
            LaunchPhase::Running => LaunchModel::Running {
                stdout_done: self.stdout_done,
                stderr_done: self.stderr_done,
            },
            LaunchPhase::Draining => LaunchModel::Draining,
            LaunchPhase::Exited => LaunchModel::Exited { code: self.code },
            LaunchPhase::Failed => LaunchModel::Failed,
        }
    }
}

impl Launcher {
    pub fn new() -> (r: Launcher)
        ensures
            r@ == LaunchModel::NotStarted,
    {
        Launcher { phase: LaunchPhase::NotStarted, stdout_done: false, stderr_done: false, code: 0 }
    }

    /// Record that the spawn call, with the overlaid environment, was issued.
    pub fn begin_spawn(&mut self)
        requires
            old(self)@ is NotStarted,
        ensures
            final(self)@ == launch_step(old(self)@, LaunchEventModel::SpawnIssued),
    {
        self.phase = LaunchPhase::Spawning;
    }

    /// Record whether the child came up; a spawn failure is terminal and no
    /// forwarding ever starts.
    pub fn on_spawn_result(&mut self, ok: bool)
        requires
            old(self)@ is Spawning,
        ensures
            final(self)@ == launch_step(
                old(self)@,
                if ok {
                    LaunchEventModel::SpawnOk
                } else {
                    LaunchEventModel::SpawnFailed
                },
            ),
    {
        if ok {
            self.phase = LaunchPhase::Running;
            self.stdout_done = false;
            self.stderr_done = false;
        } else {
            self.phase = LaunchPhase::Failed;
        }
    }

    /// Record that one forwarding task has joined; once both have, the child
    /// may be reaped.
    pub fn on_stream_done(&mut self, kind: StreamKind)
        requires
            old(self)@ is Running,
        ensures
            final(self)@ == launch_step(old(self)@, LaunchEventModel::StreamDone(kind)),
    {
        match kind {
            StreamKind::Stdout => {
                self.stdout_done = true;
            },
            StreamKind::Stderr => {
                self.stderr_done = true;
            },
        }
        if self.stdout_done && self.stderr_done {
            self.phase = LaunchPhase::Draining;
        }
    }

    /// Record the child's exit status, once both forwarding tasks have joined.
    pub fn on_child_exit(&mut self, code: i32)
        requires
            old(self)@ is Draining,
        ensures
            final(self)@ == launch_step(old(self)@, LaunchEventModel::ChildExited(code)),
    {
        self.phase = LaunchPhase::Exited;
        self.code = code;
    }

    /// Whether the spawn itself failed.
    pub fn spawn_failed(&self) -> (b: bool)
        ensures
            b == (self@ is Failed),
    {
        match self.phase {
            LaunchPhase::Failed => true,
            _ => false,
        }
    }

    /// Whether the launch has run to completion.
    pub fn is_exited(&self) -> (b: bool)
        ensures
            b == (self@ is Exited),
    {
        match self.phase {
            LaunchPhase::Exited => true,
            _ => false,
        }
    }

    /// The child's exit code, exactly as the child reported it.
    pub fn exit_code(&self) -> (code: i32)
        requires
            self@ is Exited,
        ensures
            self@ == (LaunchModel::Exited { code }),
    {
        self.code
    }
}

/// The child's exit code is propagated verbatim: a launch whose child comes
/// up, whose two forwarding tasks join, and whose child then exits with
/// `code`, reports exactly `code`.
pub proof fn lemma_exit_code_propagation(code: i32)
    ensures
        launch_step(
            launch_step(
                launch_step(
                    launch_step(
                        launch_step(LaunchModel::NotStarted, LaunchEventModel::SpawnIssued),
                        LaunchEventModel::SpawnOk,
                    ),
                    LaunchEventModel::StreamDone(StreamKind::Stdout),
                ),
                LaunchEventModel::StreamDone(StreamKind::Stderr),
            ),
            LaunchEventModel::ChildExited(code),
        ) == (LaunchModel::Exited { code }),
{
}

/// No output is lost to an early reap: while either forwarding task is still
/// running, the child's exit status is not taken.
pub proof fn lemma_no_reap_before_join(m: LaunchModel, code: i32)
    requires
        m is Running,
    ensures
        launch_step(m, LaunchEventModel::ChildExited(code)) == m,
{
}

} // verus!

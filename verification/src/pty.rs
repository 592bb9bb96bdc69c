//! The bridge to one interactive terminal session.
//!
//! The bridge records whether a session is active and decides what each
//! request means; the caller owns the terminal handles and does the
//! reading and writing.

use vstd::prelude::*;
use vstd::string::StringSliceAdditionalSpecFns;
use vstd::utf8::{decode_utf8, valid_utf8};
use crate::config::home_dir;
use crate::server::{bun_path, bun_path_of};
use crate::terminator::Platform;
use crate::text::{join_path, joined, same_text, text_of, texts_of};

verus! {

/// Why a bridge operation failed.
#[derive(Clone, Copy, Debug, PartialEq, Eq, Structural)]
pub enum PtyError {
    /// The platform could not allocate a pseudo-terminal.
    PtyOpenFailed,
    /// The directory of the running executable is unknown.
    ExecutableUnresolved,
    /// The child could not be spawned on the terminal, or its input or
    /// output stream could not be obtained.
    SpawnFailed,
    /// There is no session to write to.
    NoActiveSession,
    /// Writing or flushing the input failed.
    WriteFailed,
    /// The terminal refused the new geometry.
    ResizeFailed,
    /// The state was left locked by a caller that panicked.
    LockPoisoned,
}

/// The fixed text of an error.
pub open spec fn pty_error_text(e: PtyError) -> Seq<char> {
    match e {
        PtyError::PtyOpenFailed => "Failed to open PTY"@,
        PtyError::ExecutableUnresolved => "Could not resolve executable"@,
        PtyError::SpawnFailed => "Failed to spawn command"@,
        PtyError::NoActiveSession => "No PTY session active"@,
        PtyError::WriteFailed => "Failed to write to PTY"@,
        PtyError::ResizeFailed => "Failed to resize PTY"@,
        PtyError::LockPoisoned => "poisoned lock: another task failed inside"@,
    }
}

impl PtyError {
    /// The message shown to the user.
    pub fn message(&self) -> (r: String)
        ensures
            r@ == pty_error_text(*self),
    {
        match self {
            PtyError::PtyOpenFailed => String::from_str("Failed to open PTY"),
            PtyError::ExecutableUnresolved => String::from_str("Could not resolve executable"),
            PtyError::SpawnFailed => String::from_str("Failed to spawn command"),
            PtyError::NoActiveSession => String::from_str("No PTY session active"),
            PtyError::WriteFailed => String::from_str("Failed to write to PTY"),
            PtyError::ResizeFailed => String::from_str("Failed to resize PTY"),
            PtyError::LockPoisoned => String::from_str("poisoned lock: another task failed inside"),
        }
    }
}

/// The geometry reported to the program on the terminal.
#[derive(Clone, Copy, Debug, PartialEq, Eq, Structural)]
pub struct TerminalSize {
    pub rows: u16,
    pub cols: u16,
    pub pixel_width: u16,
    pub pixel_height: u16,
}

/// The geometry of `cols` by `rows` character cells.
pub open spec fn cells(cols: u16, rows: u16) -> TerminalSize {
    TerminalSize { rows: rows, cols: cols, pixel_width: 0, pixel_height: 0 }
}

/// The geometry every session starts with: 80 columns by 24 rows.
pub fn initial_size() -> (r: TerminalSize)
    ensures
        r == cells(80, 24),
{
    TerminalSize { rows: 24, cols: 80, pixel_width: 0, pixel_height: 0 }
}

/// How far the caller got in bringing a session up.
#[derive(Clone, Copy, Debug, PartialEq, Eq, Structural)]
pub enum SpawnReport {
    /// No pseudo-terminal could be opened.
    OpenFailed,
    /// The command could not be spawned on the terminal.
    SpawnFailed,
    /// The terminal's input stream could not be taken.
    WriterFailed,
    /// The terminal's output stream could not be cloned.
    ReaderFailed,
    /// The child runs, and input and output streams are at hand.
    Started,
}

/// The error behind a report, `None` for success.
pub open spec fn report_error(report: SpawnReport) -> Option<PtyError> {
    match report {
        SpawnReport::OpenFailed => Some(PtyError::PtyOpenFailed),
        SpawnReport::SpawnFailed => Some(PtyError::SpawnFailed),
        SpawnReport::WriterFailed => Some(PtyError::SpawnFailed),
        SpawnReport::ReaderFailed => Some(PtyError::SpawnFailed),
        SpawnReport::Started => None,
    }
}

/// The abstract state of the bridge.
pub struct PtyModel {
    /// The session whose input stream is held.
    pub writer: Option<u64>,
    /// The session whose control handle is held.
    pub master: Option<u64>,
    /// Whether the held session is believed to be live.
    pub alive: bool,
    /// The number the next session gets.
    pub next: u64,
}

impl PtyModel {
    /// No session.
    pub open spec fn idle(next: u64) -> PtyModel {
        PtyModel { writer: None, master: None, alive: false, next: next }
    }

    pub open spec fn active(self) -> bool {
        self.writer is Some
    }

    /// Both handles belong to one session, they are held exactly while the
    /// session is live, and the next session will not get its number.
    pub open spec fn wf(self) -> bool {
        &&& self.writer == self.master
        &&& self.alive <==> self.writer is Some
        &&& self.writer != Some(self.next)
    }

    /// The number after `n`, starting over after the last one.
    pub open spec fn following(n: u64) -> u64 {
        if n == u64::MAX {
            0
        } else {
            (n + 1) as u64
        }
    }

    /// The state after a session came up: it replaces whatever was there.
    pub open spec fn after_spawn(self, report: SpawnReport) -> PtyModel {
        if report == SpawnReport::Started {
            PtyModel {
                writer: Some(self.next),
                master: Some(self.next),
                alive: true,
                next: Self::following(self.next),
            }
        } else {
            self
        }
    }

    /// The state after an explicit kill.
    pub open spec fn after_kill(self) -> PtyModel {
        Self::idle(self.next)
    }

    /// The state after the reader of `session` saw the end of its stream:
    /// idle if that session is still the one held, unchanged otherwise.
    pub open spec fn after_reader_end(self, session: u64) -> PtyModel {
        if self.writer == Some(session) || self.master == Some(session) {
            Self::idle(self.next)
        } else {
            self
        }
    }
}

/// The bridge's record of the terminal session.
pub struct PtyState {
    writer: Option<u64>,
    master: Option<u64>,
    alive: bool,
    next: u64,
}

impl View for PtyState {
    type V = PtyModel;

    closed spec fn view(&self) -> PtyModel {
        PtyModel { writer: self.writer, master: self.master, alive: self.alive, next: self.next }
    }
}

impl PtyState {
    /// Every bridge is well formed: callers cannot reach the fields.
    #[verifier::type_invariant]
    spec fn well_formed(self) -> bool {
        self@.wf()
    }

    /// A bridge with no session.
    pub fn new() -> (s: Self)
        ensures
            s@ == PtyModel::idle(0),
            s@.wf(),
    {
        PtyState { writer: None, master: None, alive: false, next: 0 }
    }

    /// Whether a live session is held.
    pub fn is_alive(&self) -> (r: bool)
        ensures
            r == self@.alive,
            r == self@.active(),
            self@.wf(),
    {
        proof {
            use_type_invariant(self);
        }
        self.alive
    }

    /// The session that is held, if any.
    pub fn session(&self) -> (r: Option<u64>)
        ensures
            r == self@.writer,
            r is Some <==> self@.alive,
    {
        proof {
            use_type_invariant(self);
        }
        self.writer
    }
}

/// A command ready to be spawned on the terminal.
#[derive(Debug, Clone)]
pub struct ResolvedCommand {
    pub program: String,
    pub args: Vec<String>,
    /// The working directory, where it differs from the caller's.
    pub cwd: Option<String>,
}

/// The abstract value of a `ResolvedCommand`.
pub struct CommandModel {
    pub program: Seq<char>,
    pub args: Seq<Seq<char>>,
    pub cwd: Option<Seq<char>>,
}

impl View for ResolvedCommand {
    type V = CommandModel;

    open spec fn view(&self) -> CommandModel {
        CommandModel {
            program: self.program@,
            args: texts_of(self.args@),
            cwd: text_of(self.cwd),
        }
    }
}

/// A command name that stands for a script of an installed package, to be
/// run by the bundled runtime.
#[derive(Debug, Clone)]
pub struct KnownCommand {
    /// The name as the front end sends it.
    pub name: String,
    /// The package's directory below `node_modules`.
    pub package: String,
    /// The script inside the package.
    pub script: String,
}

/// The abstract value of a `KnownCommand`.
pub struct KnownModel {
    pub name: Seq<char>,
    pub package: Seq<char>,
    pub script: Seq<char>,
}

impl View for KnownCommand {
    type V = KnownModel;

    open spec fn view(&self) -> KnownModel {
        KnownModel { name: self.name@, package: self.package@, script: self.script@ }
    }
}

/// The abstract value of a table of known commands.
pub open spec fn known_of(table: Seq<KnownCommand>) -> Seq<KnownModel> {
    Seq::new(table.len(), |i: int| table[i]@)
}

/// The position of the first entry called `name` at or after `from`; the
/// length of the table if there is none.
pub open spec fn known_at(table: Seq<KnownModel>, name: Seq<char>, from: int) -> int
    decreases table.len() - from,
{
    if from < 0 || from >= table.len() {
        table.len() as int
    } else if table[from].name == name {
        from
    } else {
        known_at(table, name, from + 1)
    }
}

/// Whether the table has an entry called `name`.
pub open spec fn is_known(table: Seq<KnownModel>, name: Seq<char>) -> bool {
    known_at(table, name, 0) < table.len()
}

/// The script of a known command inside the data directory.
pub open spec fn script_path_of(data_dir: Seq<char>, k: KnownModel) -> Seq<char> {
    joined(joined(joined(data_dir, "node_modules"@), k.package), k.script)
}

/// What a logical command stands for: a known command is the bundled
/// runtime on its installed script, run from the home directory (from `/`
/// where that is unknown); any other command is run as given.
pub open spec fn resolved(
    command: Seq<char>,
    args: Seq<Seq<char>>,
    table: Seq<KnownModel>,
    runtime: Seq<char>,
    data_dir: Seq<char>,
    home: Option<Seq<char>>,
) -> CommandModel {
    if is_known(table, command) {
        CommandModel {
            program: runtime,
            args: seq![script_path_of(data_dir, table[known_at(table, command, 0)])] + args,
            cwd: Some(
                match home {
                    Some(h) => h,
                    None => "/"@,
                },
            ),
        }
    } else {
        CommandModel { program: command, args: args, cwd: None }
    }
}

/// Looks a command name up in the table: the position of its first entry,
/// or the table's length.
pub fn find_known(known: &Vec<KnownCommand>, name: &str) -> (at: usize)
    ensures
        at == known_at(known_of(known@), name@, 0),
        at <= known@.len(),
        at < known@.len() ==> known@[at as int].name@ == name@,
        forall|k: int| 0 <= k < at ==> known@[k].name@ != name@,
{
    let n: usize = known.len();
    let mut i: usize = 0;
    while i < n
        invariant
            n == known@.len(),
            i <= n,
            known_at(known_of(known@), name@, 0) == known_at(known_of(known@), name@, i as int),
            forall|k: int| 0 <= k < i ==> known@[k].name@ != name@,
        decreases n - i,
    {
        if same_text(known[i].name.as_str(), name) {
            return i;
        }
        i += 1;
    }
    n
}

/// The path of a known command's script inside `data_dir`.
pub fn script_path(data_dir: &str, k: &KnownCommand) -> (r: String)
    ensures
        r@ == script_path_of(data_dir@, k@),
{
    let a = join_path(data_dir, "node_modules");
    let b = join_path(a.as_str(), k.package.as_str());
    join_path(b.as_str(), k.script.as_str())
}

fn push_all(out: &mut Vec<String>, items: &Vec<String>)
    ensures
        texts_of(final(out)@) == texts_of(old(out)@) + texts_of(items@),
{
    let ghost before = texts_of(out@);
    let n: usize = items.len();
    let mut i: usize = 0;
    assert(texts_of(out@) =~= before + texts_of(items@.take(0)));
    while i < n
        invariant
            n == items@.len(),
            i <= n,
            texts_of(out@) == before + texts_of(items@.take(i as int)),
        decreases n - i,
    {
        let ghost prev = out@;
        out.push(items[i].clone());
        proof {
            let got = texts_of(out@);
            let want = before + texts_of(items@.take(i + 1));
            assert(texts_of(prev).len() == before.len() + i);
            assert forall|k: int| 0 <= k < got.len() implies got[k] == want[k] by {
                if k < prev.len() {
                    assert(got[k] == texts_of(prev)[k]);
                    if k >= before.len() {
                        assert(texts_of(items@.take(i as int))[k - before.len()] == items@[k
                            - before.len()]@);
                    }
                }
            }
            assert(got =~= want);
        }
        i += 1;
    }
    assert(items@.take(n as int) =~= items@);
}

/// Resolves a logical command, given the home directory.
pub fn resolve_command_in(
    command: &str,
    args: &Vec<String>,
    known: &Vec<KnownCommand>,
    runtime: &str,
    data_dir: &str,
    home: Option<String>,
) -> (r: ResolvedCommand)
    ensures
        r@ == resolved(
            command@,
            texts_of(args@),
            known_of(known@),
            runtime@,
            data_dir@,
            text_of(home),
        ),
{
    let mut out: Vec<String> = Vec::new();
    let at: usize = find_known(known, command);
    if at < known.len() {
        out.push(script_path(data_dir, &known[at]));
        assert(texts_of(out@) =~= seq![script_path_of(data_dir@, known_of(known@)[at as int])]);
        push_all(&mut out, args);
        let cwd = match home {
            Some(h) => h,
            None => String::from_str("/"),
        };
        ResolvedCommand { program: String::from_str(runtime), args: out, cwd: Some(cwd) }
    } else {
        assert(texts_of(out@) =~= Seq::empty());
        push_all(&mut out, args);
        assert(texts_of(out@) =~= texts_of(args@));
        ResolvedCommand { program: String::from_str(command), args: out, cwd: None }
    }
}

/// Resolves a logical command on this machine. The bundled runtime is
/// looked for next to the executable; without the executable's directory
/// nothing is resolved, whatever the command.
pub fn resolve_command(
    command: &str,
    args: &Vec<String>,
    known: &Vec<KnownCommand>,
    exe_dir: Option<&str>,
    platform: Platform,
    data_dir: &str,
) -> (r: Result<ResolvedCommand, PtyError>)
    ensures
        exe_dir is None ==> r == Err::<ResolvedCommand, PtyError>(PtyError::ExecutableUnresolved),
        exe_dir matches Some(dir) ==> r is Ok && exists|home: Option<Seq<char>>|
            r->Ok_0@ == #[trigger] resolved(
                command@,
                texts_of(args@),
                known_of(known@),
                bun_path_of(dir@, platform),
                data_dir@,
                home,
            ),
        exe_dir is Some && !is_known(known_of(known@), command@) ==> r is Ok && r->Ok_0@ == (
        CommandModel { program: command@, args: texts_of(args@), cwd: None }),
{
    match exe_dir {
        None => Err(PtyError::ExecutableUnresolved),
        Some(dir) => {
            let runtime = bun_path(dir, platform);
            let home = if find_known(known, command) < known.len() {
                home_dir()
            } else {
                None
            };
            let ghost h = text_of(home);
            let cmd = resolve_command_in(command, args, known, runtime.as_str(), data_dir, home);
            assert(cmd@ == resolved(
                command@,
                texts_of(args@),
                known_of(known@),
                bun_path_of(dir@, platform),
                data_dir@,
                h,
            ));
            Ok(cmd)
        },
    }
}

/// Records how bringing a session up ended. A session that came up
/// replaces the one held before and gets a number of its own, which is
/// returned for its reader; a failure leaves the bridge as it was.
pub fn spawn_pty(state: &mut PtyState, report: SpawnReport) -> (r: Result<u64, PtyError>)
    ensures
        final(state)@ == old(state)@.after_spawn(report),
        final(state)@.wf(),
        match report_error(report) {
            Some(e) => r == Err::<u64, PtyError>(e),
            None => r == Ok::<u64, PtyError>(old(state)@.next),
        },
{
    proof {
        use_type_invariant(&*state);
    }
    match report {
        SpawnReport::OpenFailed => Err(PtyError::PtyOpenFailed),
        SpawnReport::SpawnFailed => Err(PtyError::SpawnFailed),
        SpawnReport::WriterFailed => Err(PtyError::SpawnFailed),
        SpawnReport::ReaderFailed => Err(PtyError::SpawnFailed),
        SpawnReport::Started => {
            let id: u64 = state.next;
            let next: u64 = if id == u64::MAX {
                0
            } else {
                id + 1
            };
            *state = PtyState { writer: Some(id), master: Some(id), alive: true, next };
            Ok(id)
        },
    }
}

/// Decides a write request: the bytes to send to the session's input, in
/// order and followed by a flush, or `NoActiveSession`.
pub fn write_pty(state: &PtyState, data: &str) -> (r: Result<Vec<u8>, PtyError>)
    ensures
        !state@.active() ==> r == Err::<Vec<u8>, PtyError>(PtyError::NoActiveSession),
        state@.active() ==> r is Ok && r->Ok_0@ == data.spec_bytes(),
        state@.wf(),
{
    proof {
        use_type_invariant(state);
    }
    if state.writer.is_none() {
        return Err(PtyError::NoActiveSession);
    }
    Ok(data.as_bytes_vec())
}

/// The geometry a resize request asks the terminal for, `None` where there
/// is no terminal and the request is dropped.
pub open spec fn resize_request(s: PtyModel, cols: u16, rows: u16) -> Option<TerminalSize> {
    if s.master is Some {
        Some(cells(cols, rows))
    } else {
        None
    }
}

/// Decides a resize request.
pub fn resize_pty(state: &PtyState, cols: u16, rows: u16) -> (r: Option<TerminalSize>)
    ensures
        r == resize_request(state@, cols, rows),
        r is Some <==> state@.active(),
{
    proof {
        use_type_invariant(state);
    }
    if state.master.is_some() {
        Some(TerminalSize { rows, cols, pixel_width: 0, pixel_height: 0 })
    } else {
        None
    }
}

/// Ends the session: both handles are given up and the session is no
/// longer live. The child is not signalled.
pub fn kill_pty(state: &mut PtyState)
    ensures
        final(state)@ == old(state)@.after_kill(),
        final(state)@.wf(),
{
    let next: u64 = state.next;
    *state = PtyState { writer: None, master: None, alive: false, next };
}

/// Records that the reader of `session` left its loop. If that session is
/// still the one held, the bridge becomes idle.
pub fn reader_finished(state: &mut PtyState, session: u64)
    ensures
        final(state)@ == old(state)@.after_reader_end(session),
        final(state)@.wf(),
{
    proof {
        use_type_invariant(&*state);
    }
    let held_writer = match state.writer {
        Some(id) => id == session,
        None => false,
    };
    let held_master = match state.master {
        Some(id) => id == session,
        None => false,
    };
    if held_writer || held_master {
        let next: u64 = state.next;
        *state = PtyState { writer: None, master: None, alive: false, next };
    }
}

/// What one blocking read of the terminal's output returned.
#[derive(Clone, Copy, Debug, PartialEq, Eq, Structural)]
pub enum ReadOutcome {
    /// That many bytes were placed at the start of the buffer.
    Bytes(usize),
    /// The read failed.
    Failed,
}

/// What the reader does after a read.
#[derive(Debug, Clone)]
pub enum ReaderStep {
    /// Forward this text as one output notification and read on.
    Emit(String),
    /// Leave the loop and send the exit notification.
    Stop,
}

/// Size of the reader's buffer.
pub const READ_CHUNK: usize = 4096;

/// The text that `String::from_utf8_lossy` makes of a byte string.
pub uninterp spec fn lossy_text(bytes: Seq<u8>) -> Seq<char>;

/// Decodes bytes with `String::from_utf8_lossy`, which replaces each
/// invalid sequence by U+FFFD. The result is a function of the bytes
/// alone; for valid UTF-8 it is the decoded text.
#[verifier::external_body]
fn decode_lossy(bytes: &[u8]) -> (text: String)
    ensures
        text@ == lossy_text(bytes@),
        valid_utf8(bytes@) ==> text@ == decode_utf8(bytes@),
{
    String::from_utf8_lossy(bytes).into_owned()
}

/// The meaning of a read: end of stream and failure stop the reader,
/// anything else is one chunk of output.
pub open spec fn reader_stops(read: ReadOutcome) -> bool {
    read == ReadOutcome::Failed || read == ReadOutcome::Bytes(0)
}

/// The bytes that a read delivered: the first `n` of the buffer (all of
/// it, should a read ever claim more than the buffer holds).
pub open spec fn chunk_of(read: ReadOutcome, buf: Seq<u8>) -> Seq<u8> {
    match read {
        ReadOutcome::Bytes(n) => if n <= buf.len() {
            buf.subrange(0, n as int)
        } else {
            buf
        },
        ReadOutcome::Failed => Seq::empty(),
    }
}

/// Decides what the reader does after one read into `buf`. A chunk is
/// decoded on its own: a character split across two reads is not put
/// together again.
pub fn reader_step(read: ReadOutcome, buf: &[u8]) -> (r: ReaderStep)
    ensures
        reader_stops(read) ==> r is Stop,
        !reader_stops(read) ==> r is Emit && r->Emit_0@ == lossy_text(chunk_of(read, buf@)),
        !reader_stops(read) && valid_utf8(chunk_of(read, buf@)) ==> r->Emit_0@ == decode_utf8(
            chunk_of(read, buf@),
        ),
{
    match read {
        ReadOutcome::Failed => ReaderStep::Stop,
        ReadOutcome::Bytes(n) => {
            if n == 0 {
                ReaderStep::Stop
            } else if n <= buf.len() {
                let chunk = vstd::slice::slice_subrange(buf, 0, n);
                ReaderStep::Emit(decode_lossy(chunk))
            } else {
                ReaderStep::Emit(decode_lossy(buf))
            }
        },
    }
}

/// Every transition keeps the bridge well formed.
pub proof fn law_bridge_stays_wf(s: PtyModel, report: SpawnReport, session: u64)
    requires
        s.wf(),
    ensures
        PtyModel::idle(0).wf(),
        s.after_spawn(report).wf(),
        s.after_kill().wf(),
        s.after_reader_end(session).wf(),
{
}

/// A kill leaves the bridge idle, a second kill changes nothing, and a
/// session that comes up afterwards is active, live, and not the one that
/// was killed.
pub proof fn law_session_slot_is_reusable(s: PtyModel)
    requires
        s.wf(),
    ensures
        !s.after_kill().active(),
        !s.after_kill().alive,
        s.after_kill().after_kill() == s.after_kill(),
        s.after_kill().after_spawn(SpawnReport::Started).active(),
        s.after_kill().after_spawn(SpawnReport::Started).alive,
        s.after_kill().after_spawn(SpawnReport::Started).writer == Some(s.next),
        s.after_kill().after_spawn(SpawnReport::Started).writer != s.writer,
{
}

/// A session that came up replaces the one held before; a failed attempt
/// leaves the bridge as it was.
pub proof fn law_spawn_replaces_or_keeps(s: PtyModel, report: SpawnReport)
    requires
        s.wf(),
    ensures
        report_error(report) is Some ==> s.after_spawn(report) == s,
        report_error(report) is None ==> s.after_spawn(report).active() && s.after_spawn(
            report,
        ).writer != s.writer,
{
}

/// The end of a reader makes the bridge idle only if its own session is
/// still held: the reader of a replaced session changes nothing, and the
/// reader of a killed session finds the bridge idle already.
pub proof fn law_reader_end_is_scoped(s: PtyModel, session: u64)
    requires
        s.wf(),
    ensures
        s.writer == Some(session) ==> s.after_reader_end(session) == PtyModel::idle(s.next),
        s.writer != Some(session) ==> s.after_reader_end(session) == s,
        !s.after_reader_end(session).alive || s.writer != Some(session),
{
}

/// Without a terminal a resize request is dropped; with one it asks for
/// exactly the given cells.
pub proof fn law_resize(s: PtyModel, cols: u16, rows: u16)
    requires
        s.wf(),
    ensures
        !s.active() ==> resize_request(s, cols, rows) is None,
        s.active() ==> resize_request(s, cols, rows) == Some(cells(cols, rows)),
{
}

} // verus!

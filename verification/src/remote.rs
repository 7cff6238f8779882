//! The session with one host: which commands ran there and what they
//! printed, and how a long-running command is started, probed and cancelled.

use vstd::prelude::*;
use vstd::string::*;

verus! {

/// The transcript of a session: each command with all that it printed, in
/// the order in which the commands were issued.
pub type Log = Vec<(String, String)>;

/// A transcript as plain text.
pub type Transcript = Seq<(Seq<char>, Seq<char>)>;

/// Why an exchange with a host failed.
#[derive(Debug)]
pub enum Error {
    /// The transport refused or broke.
    Ssh { message: String },
    /// Reading or writing a stream failed.
    Io { message: String },
    /// The command ran and ended with a status other than 0.
    NonZeroReturn { command: String },
}

/// An error as plain text.
pub enum ErrorView {
    Ssh { message: Seq<char> },
    Io { message: Seq<char> },
    NonZeroReturn { command: Seq<char> },
}

impl View for Error {
    type V = ErrorView;

    open spec fn view(&self) -> ErrorView {
        match *self {
            Error::Ssh { message } => ErrorView::Ssh { message: message@ },
            Error::Io { message } => ErrorView::Io { message: message@ },
            Error::NonZeroReturn { command } => ErrorView::NonZeroReturn { command: command@ },
        }
    }
}

/// An error in words.
pub open spec fn error_text(e: ErrorView) -> Seq<char> {
    match e {
        ErrorView::Ssh { message } => "Ssh: "@ + message,
        ErrorView::Io { message } => "Io: "@ + message,
        ErrorView::NonZeroReturn { command } => "NonZeroReturn"@,
    }
}

impl Error {
    /// The error in words.
    pub fn message(&self) -> (r: String)
        ensures
            r@ == error_text(self@),
    {
        match self {
            Error::Ssh { message } => String::from_str("Ssh: ").concat(message.as_str()),
            Error::Io { message } => String::from_str("Io: ").concat(message.as_str()),
            Error::NonZeroReturn { .. } => String::from_str("NonZeroReturn"),
        }
    }
}

/// What the transport reports of a command that was run to its end.
pub enum Exchange {
    /// The exchange broke before all output was read.
    Failed(Error),
    /// All output was read and the channel closed; the exit status, or why
    /// it could not be had.
    Finished { output: String, exit_status: Result<i32, Error> },
}

/// What a read that must not block reports.
pub enum Probe {
    /// The read came back, with or without bytes.
    Read,
    /// Nothing can be read yet.
    WouldBlock,
    /// The read failed otherwise.
    Failed,
}

/// The command line that starts `command` under the helper, which interrupts
/// it once its input is closed. `env` holds shell assignments that are
/// evaluated first.
pub open spec fn supervised(command: Seq<char>, env: Seq<char>) -> Seq<char> {
    env + "; sudo runner "@ + command
}

/// A transcript after a command was issued: the command, with no output yet.
pub open spec fn issued(log: Transcript, command: Seq<char>) -> Transcript {
    log.push((command, Seq::empty()))
}

/// A transcript after the last command's output came in.
pub open spec fn answered(log: Transcript, output: Seq<char>) -> Transcript
    recommends
        log.len() > 0,
{
    log.update(log.len() - 1, (log.last().0, output))
}

/// A transcript after the last command was cancelled: its output is filled in
/// where the rest of it could be read.
pub open spec fn cancelled(log: Transcript, drained: Result<String, Error>) -> Transcript
    recommends
        log.len() > 0,
{
    match drained {
        Ok(output) => answered(log, output@),
        Err(_) => log,
    }
}

/// A session with one host.
pub struct Remote {
    log: Log,
}

/// A command that runs on a host until it is cancelled.
pub struct CancellableCommand<'a> {
    /// The session that the command runs in, which is held until the command
    /// is cancelled. The last entry of its transcript is this command's.
    pub session: &'a mut Remote,
}

fn record(log: &mut Log, command: &str)
    ensures
        final(log).deep_view() == issued(old(log).deep_view(), command@),
        final(log).len() == old(log).len() + 1,
{
    log.push((String::from_str(command), String::new()));
    proof {
        assert(log.deep_view() =~= issued(old(log).deep_view(), command@));
    }
}

fn fill(log: &mut Log, output: String)
    requires
        old(log).len() > 0,
    ensures
        final(log).deep_view() == answered(old(log).deep_view(), output@),
{
    let last = log.len() - 1;
    let ghost before = log.deep_view();
    let entry = &mut log[last];
    entry.1 = output;
    proof {
        assert(log.deep_view() =~= answered(before, output@));
    }
}

impl Remote {
    /// The transcript so far.
    pub closed spec fn transcript(&self) -> Transcript {
        self.log.deep_view()
    }

    /// A session begins, with an empty transcript, where the connection and
    /// the authentication succeeded.
    pub fn connect(handshake: Result<(), Error>) -> (r: Result<Remote, Error>)
        ensures
            match handshake {
                Ok(()) => r is Ok && r->Ok_0.transcript() == Seq::<(Seq<char>, Seq<char>)>::empty(),
                Err(e) => r == Err::<Remote, Error>(e),
            },
    {
        match handshake {
            Ok(()) => {
                let remote = Remote { log: Vec::new() };
                proof {
                    assert(remote.log.deep_view() =~= Seq::<(Seq<char>, Seq<char>)>::empty());
                }
                Ok(remote)
            },
            Err(e) => Err(e),
        }
    }

    /// Records a command that was run to its end. The command enters the
    /// transcript whatever became of it, with its output where all of it was
    /// read. The command succeeded where its exit status is 0.
    pub fn execute_command(&mut self, command: &str, exchange: Exchange) -> (r: Result<(), Error>)
        ensures
            final(self).transcript() == match exchange {
                Exchange::Failed(_) => issued(old(self).transcript(), command@),
                Exchange::Finished { output, .. } => answered(
                    issued(old(self).transcript(), command@),
                    output@,
                ),
            },
            match exchange {
                Exchange::Failed(e) => r == Err::<(), Error>(e),
                Exchange::Finished { exit_status: Err(e), .. } => r == Err::<(), Error>(e),
                Exchange::Finished { exit_status: Ok(status), .. } => if status == 0 {
                    r is Ok
                } else {
                    r is Err && r->Err_0@ == (ErrorView::NonZeroReturn { command: command@ })
                },
            },
    {
        record(&mut self.log, command);
        match exchange {
            Exchange::Failed(e) => Err(e),
            Exchange::Finished { output, exit_status } => {
                fill(&mut self.log, output);
                match exit_status {
                    Err(e) => Err(e),
                    Ok(status) => if status == 0 {
                        Ok(())
                    } else {
                        Err(Error::NonZeroReturn { command: String::from_str(command) })
                    },
                }
            },
        }
    }

    /// The command line by which the transport starts a cancellable command.
    pub fn cancellable_command_line(command: &str, env: &str) -> (r: String)
        ensures
            r@ == supervised(command@, env@),
    {
        String::from_str(env).concat("; sudo runner ").concat(command)
    }

    /// Records a command that was started and goes on running. The command
    /// enters the transcript whether or not the start succeeded; the
    /// command that is handed back holds the transcript until it is
    /// cancelled.
    pub fn execute_cancellable_command<'a>(
        &'a mut self,
        command: &str,
        started: Result<(), Error>,
    ) -> (r: Result<CancellableCommand<'a>, Error>)
        ensures
            match started {
                Ok(()) => {
                    &&& r is Ok
                    &&& r->Ok_0.session.transcript() == issued(old(self).transcript(), command@)
                    &&& *final(self) == *final(r->Ok_0.session)
                },
                Err(e) => {
                    &&& r == Err::<CancellableCommand<'a>, Error>(e)
                    &&& final(self).transcript() == issued(old(self).transcript(), command@)
                },
            },
    {
        record(&mut self.log, command);
        match started {
            Ok(()) => Ok(CancellableCommand { session: self }),
            Err(e) => Err(e),
        }
    }

    /// How many commands the transcript holds.
    pub fn commands(&self) -> (r: usize)
        ensures
            r == self.transcript().len(),
    {
        proof {
            assert(self.log.deep_view().len() == self.log.len());
        }
        self.log.len()
    }

    /// Ends the session and hands out its transcript.
    pub fn into_log(self) -> (log: Log)
        ensures
            log.deep_view() == self.transcript(),
    {
        self.log
    }
}

impl<'a> CancellableCommand<'a> {
    /// Whether the command still runs: it does where a read that must not
    /// block found nothing to read yet. Any other outcome of the read means
    /// that the command ended or the channel broke.
    pub fn is_running(&self, probe: Probe) -> (r: bool)
        ensures
            r == (probe is WouldBlock),
    {
        match probe {
            Probe::WouldBlock => true,
            Probe::Read => false,
            Probe::Failed => false,
        }
    }

    /// Records the end of the command after its input was closed: `drained`
    /// is the rest of its output, or why closing, reading or waiting failed.
    /// The command keeps its entry in the transcript either way.
    pub fn cancel(self, drained: Result<String, Error>) -> (r: Result<(), Error>)
        requires
            old(self.session).transcript().len() > 0,
        ensures
            final(self.session).transcript() == cancelled(
                old(self.session).transcript(),
                drained,
            ),
            match drained {
                Ok(_) => r is Ok,
                Err(e) => r == Err::<(), Error>(e),
            },
    {
        proof {
            assert(self.session.log.deep_view().len() == self.session.log.len());
        }
        match drained {
            Ok(output) => {
                fill(&mut self.session.log, output);
                Ok(())
            },
            Err(e) => Err(e),
        }
    }
}

/// A command that was started as cancellable has its entry in the transcript
/// after it was cancelled, whatever it had printed and whether or not the
/// rest of its output could be read; the entries before it are as they were.
pub proof fn lemma_cancelled_command_is_recorded(
    log: Transcript,
    command: Seq<char>,
    drained: Result<String, Error>,
)
    ensures
        cancelled(issued(log, command), drained).len() == log.len() + 1,
        cancelled(issued(log, command), drained).last().0 == command,
        cancelled(issued(log, command), drained).take(log.len() as int) == log,
        drained is Ok ==> cancelled(issued(log, command), drained).last().1 == drained->Ok_0@,
{
    assert(cancelled(issued(log, command), drained).take(log.len() as int) =~= log);
}

/// Commands are recorded in the order in which they are issued: a command
/// enters the transcript behind all that were issued before it, and neither
/// its entry nor its output changes any of theirs.
pub proof fn lemma_commands_are_recorded_in_order(
    log: Transcript,
    command: Seq<char>,
    output: Seq<char>,
)
    ensures
        issued(log, command).len() == log.len() + 1,
        issued(log, command).take(log.len() as int) == log,
        issued(log, command).last() == (command, Seq::<char>::empty()),
        answered(issued(log, command), output).len() == log.len() + 1,
        answered(issued(log, command), output).take(log.len() as int) == log,
        answered(issued(log, command), output).last() == (command, output),
{
    assert(issued(log, command).take(log.len() as int) =~= log);
    assert(answered(issued(log, command), output).take(log.len() as int) =~= log);
}

} // verus!

//! Running one command on an established session.
//!
//! Every command gets a channel of its own: the run opens it, asks for the
//! command to be executed, reads the output to its end and waits for the
//! channel to close. The first failure ends the run, and output that was read
//! before it is dropped.

use vstd::prelude::*;
use crate::error::{ErrorKind, SshError, SshErrorView};
use crate::protocol::{Reply, ReplyView, Request, RequestView};
use crate::session::SshSession;

verus! {

/// What remains to be done before a run yields the command's output.
#[derive(Clone, Copy, Debug, PartialEq, Eq, Structural)]
pub enum CommandPhase {
    /// The channel is to be opened.
    Opening,
    /// The command is to be handed to the remote shell.
    Requesting,
    /// The output is to be read.
    Reading,
    /// The channel is to be waited for until it has closed.
    Closing,
}

/// What a `CommandRun` stands for: the command, the phase, and the output
/// read so far, which is empty until the reading is done.
pub struct CommandRunView {
    pub command: Seq<char>,
    pub phase: CommandPhase,
    pub output: Seq<char>,
}

/// Where a run stands after a reply.
pub enum CommandStepView {
    /// The run goes on; its pending request is to be carried out next.
    Continue(CommandRunView),
    /// The run is over: with the output, or with the error that ended it.
    Finished(Result<Seq<char>, SshErrorView>),
}

impl CommandRunView {
    /// Whether the run is one that can come about: it holds output only once
    /// the reading is done.
    pub open spec fn well_formed(self) -> bool {
        self.phase != CommandPhase::Closing ==> self.output == Seq::<char>::empty()
    }

    /// The run of a command before anything has been done.
    pub open spec fn start(command: Seq<char>) -> CommandRunView {
        CommandRunView { command, phase: CommandPhase::Opening, output: Seq::empty() }
    }

    /// The request that is pending in the run's phase.
    pub open spec fn request(self) -> RequestView {
        match self.phase {
            CommandPhase::Opening => RequestView::OpenChannel,
            CommandPhase::Requesting => RequestView::Exec { command: self.command },
            CommandPhase::Reading => RequestView::ReadOutput,
            CommandPhase::Closing => RequestView::WaitClose,
        }
    }

    /// The kind of error that a failure in the run's phase is reported as.
    pub open spec fn failure_kind(self) -> ErrorKind {
        match self.phase {
            CommandPhase::Opening => ErrorKind::ChannelOpen,
            CommandPhase::Requesting => ErrorKind::ExecRequest,
            CommandPhase::Reading => ErrorKind::OutputRead,
            CommandPhase::Closing => ErrorKind::CloseWait,
        }
    }

    /// The same run in another phase.
    pub open spec fn at(self, phase: CommandPhase) -> CommandRunView {
        CommandRunView { phase, ..self }
    }

    /// Where the run stands after `reply`.
    ///
    /// A reply that does not answer the pending request changes nothing. A
    /// failure ends the run with the error of its phase and the reported text,
    /// and with none of the output. Success moves on to the next phase; the
    /// output that was read is kept as it came. When the channel has closed,
    /// the run ends with that output.
    pub open spec fn step(self, reply: ReplyView) -> CommandStepView {
        match (self.phase, reply) {
            (CommandPhase::Reading, ReplyView::Output(output)) => CommandStepView::Continue(
                CommandRunView { phase: CommandPhase::Closing, output, ..self },
            ),
            (CommandPhase::Reading, ReplyView::Done) => CommandStepView::Continue(self),
            (CommandPhase::Opening, ReplyView::Done) => {
                CommandStepView::Continue(self.at(CommandPhase::Requesting))
            },
            (CommandPhase::Requesting, ReplyView::Done) => {
                CommandStepView::Continue(self.at(CommandPhase::Reading))
            },
            (CommandPhase::Closing, ReplyView::Done) => CommandStepView::Finished(Ok(self.output)),
            (_, ReplyView::Failed(message)) => {
                CommandStepView::Finished(Err(SshErrorView { kind: self.failure_kind(), message }))
            },
            (_, _) => CommandStepView::Continue(self),
        }
    }

    /// Where the run stands after the replies of a whole script, taken in
    /// order. Replies that come after the run is over are not looked at.
    pub open spec fn run(self, replies: Seq<ReplyView>) -> CommandStepView
        decreases replies.len(),
    {
        if replies.len() == 0 {
            CommandStepView::Continue(self)
        } else {
            match self.step(replies[0]) {
                CommandStepView::Continue(next) => next.run(replies.drop_first()),
                finished => finished,
            }
        }
    }
}

/// The run of one command that is not over yet.
#[derive(Debug, PartialEq, Eq)]
pub struct CommandRun {
    command: String,
    phase: CommandPhase,
    output: String,
}

impl View for CommandRun {
    type V = CommandRunView;

    closed spec fn view(&self) -> CommandRunView {
        CommandRunView { command: self.command@, phase: self.phase, output: self.output@ }
    }
}

/// The result of running a command, as a value of the model.
pub open spec fn result_view(result: Result<String, SshError>) -> Result<Seq<char>, SshErrorView> {
    match result {
        Ok(output) => Ok(output@),
        Err(error) => Err(error@),
    }
}

/// Where a run stands after a reply.
#[derive(Debug, PartialEq, Eq)]
pub enum CommandStep {
    /// The run goes on; its pending request is to be carried out next.
    Continue(CommandRun),
    /// The run is over: with the output, or with the error that ended it.
    Finished(Result<String, SshError>),
}

impl View for CommandStep {
    type V = CommandStepView;

    open spec fn view(&self) -> CommandStepView {
        match *self {
            CommandStep::Continue(run) => CommandStepView::Continue(run@),
            CommandStep::Finished(result) => CommandStepView::Finished(result_view(result)),
        }
    }
}

impl CommandRun {
    /// The phase that the run is in.
    pub fn phase(&self) -> (phase: CommandPhase)
        ensures
            phase == self@.phase,
    {
        self.phase
    }

    /// The request that the driver has to carry out next.
    pub fn request(&self) -> (request: Request)
        ensures
            request@ == self@.request(),
    {
        match self.phase {
            CommandPhase::Opening => Request::OpenChannel,
            CommandPhase::Requesting => Request::Exec { command: self.command.clone() },
            CommandPhase::Reading => Request::ReadOutput,
            CommandPhase::Closing => Request::WaitClose,
        }
    }

    /// Takes the reply to the pending request and says where the run stands
    /// now.
    pub fn advance(self, reply: Reply) -> (step: CommandStep)
        ensures
            step@ == self@.step(reply@),
            self@.well_formed() ==> (step matches CommandStep::Continue(next)
                ==> next@.well_formed()),
    {
        match reply {
            Reply::Failed(message) => {
                let kind = match self.phase {
                    CommandPhase::Opening => ErrorKind::ChannelOpen,
                    CommandPhase::Requesting => ErrorKind::ExecRequest,
                    CommandPhase::Reading => ErrorKind::OutputRead,
                    CommandPhase::Closing => ErrorKind::CloseWait,
                };
                CommandStep::Finished(Err(SshError::new(kind, message)))
            },
            Reply::Done => match self.phase {
                CommandPhase::Opening => CommandStep::Continue(
                    CommandRun {
                        command: self.command,
                        phase: CommandPhase::Requesting,
                        output: self.output,
                    },
                ),
                CommandPhase::Requesting => CommandStep::Continue(
                    CommandRun {
                        command: self.command,
                        phase: CommandPhase::Reading,
                        output: self.output,
                    },
                ),
                CommandPhase::Reading => CommandStep::Continue(self),
                CommandPhase::Closing => CommandStep::Finished(Ok(self.output)),
            },
            Reply::Output(output) => match self.phase {
                CommandPhase::Reading => CommandStep::Continue(
                    CommandRun { command: self.command, phase: CommandPhase::Closing, output },
                ),
                _ => CommandStep::Continue(self),
            },
            Reply::Authenticated(_) => CommandStep::Continue(self),
        }
    }
}

impl SshSession {
    /// Begins running `command` on the session. Nothing has been sent yet: the
    /// run that is returned asks for a channel of its own first. The session
    /// itself is left as it is, whatever becomes of the run.
    pub fn execute_command(&self, command: &str) -> (run: CommandRun)
        ensures
            run@ == CommandRunView::start(command@),
            run@.well_formed(),
    {
        CommandRun { command: command.to_owned(), phase: CommandPhase::Opening, output: String::new() }
    }
}

/// Unfolds `run` on a script with a known first reply.
proof fn lemma_run_unfold(run: CommandRunView, first: ReplyView, rest: Seq<ReplyView>)
    ensures
        run.run(seq![first] + rest) == match run.step(first) {
            CommandStepView::Continue(next) => next.run(rest),
            finished => finished,
        },
{
    let script = seq![first] + rest;
    assert(script.len() > 0);
    assert(script[0] == first);
    assert(script.drop_first() =~= rest);
}

/// Unfolds `run` on a script of one reply.
proof fn lemma_run_single(run: CommandRunView, only: ReplyView)
    ensures
        run.run(seq![only]) == run.step(only),
{
    assert(seq![only] =~= seq![only] + Seq::empty());
    lemma_run_unfold(run, only, Seq::empty());
}

/// A fresh run holds no output, and no step gives output to a run that has
/// not read yet.
pub proof fn law_output_held_only_after_read(
    command: Seq<char>,
    run: CommandRunView,
    reply: ReplyView,
)
    ensures
        CommandRunView::start(command).well_formed(),
        run.well_formed() ==> (run.step(reply) matches CommandStepView::Continue(next)
            ==> next.well_formed()),
{
}

/// A reply changes a run exactly if it answers the pending request.
pub proof fn law_unanswered_reply_changes_nothing(run: CommandRunView, reply: ReplyView)
    ensures
        reply.answers(run.request()) <==> run.step(reply) != CommandStepView::Continue(run),
{
}

/// A step ends a run with an error exactly if the reply is a failure. The
/// error has the kind of the run's phase and the reported text; whatever
/// output was read before is not part of it.
pub proof fn law_first_failure_ends_run(run: CommandRunView, reply: ReplyView)
    ensures
        run.step(reply) is Finished && run.step(reply)->Finished_0 is Err <==> reply is Failed,
        reply is Failed ==> run.step(reply) == CommandStepView::Finished(
            Err(SshErrorView { kind: run.failure_kind(), message: reply->Failed_0 }),
        ),
{
}

/// A step ends a run with output exactly if the run was waiting for the
/// channel to close and it did; the output is the one that was read.
pub proof fn law_output_only_after_close(run: CommandRunView, reply: ReplyView)
    ensures
        run.step(reply) is Finished && run.step(reply)->Finished_0 is Ok <==> run.phase
            == CommandPhase::Closing && reply == ReplyView::Done,
        run.step(reply) is Finished && run.step(reply)->Finished_0 is Ok ==> run.step(reply)
            == CommandStepView::Finished(Ok(run.output)),
{
}

/// Once a run is over, nothing that is reported later changes how it ended.
pub proof fn law_decided_run_stays_decided(
    run: CommandRunView,
    replies: Seq<ReplyView>,
    more: Seq<ReplyView>,
)
    requires
        run.run(replies) is Finished,
    ensures
        run.run(replies + more) == run.run(replies),
    decreases replies.len(),
{
    if replies.len() > 0 {
        let rest = replies.drop_first();
        assert(replies + more =~= seq![replies[0]] + (rest + more));
        lemma_run_unfold(run, replies[0], rest + more);
        match run.step(replies[0]) {
            CommandStepView::Continue(next) => {
                law_decided_run_stays_decided(next, rest, more);
            },
            _ => {},
        }
    }
}

/// When the channel opens, the command is accepted, the output is read and
/// the channel closes, the run yields exactly the output that was read: not a
/// character is added, dropped or changed.
pub proof fn law_output_returned_verbatim(command: Seq<char>, output: Seq<char>)
    ensures
        CommandRunView::start(command).run(
            seq![ReplyView::Done, ReplyView::Done, ReplyView::Output(output), ReplyView::Done],
        ) == CommandStepView::Finished(Ok(output)),
{
    let run = CommandRunView::start(command);
    let closing = CommandRunView { phase: CommandPhase::Closing, output, ..run };
    let done = seq![ReplyView::Done];
    let read = seq![ReplyView::Output(output)];
    let script = seq![
        ReplyView::Done,
        ReplyView::Done,
        ReplyView::Output(output),
        ReplyView::Done,
    ];
    assert(script =~= done + (done + (read + done)));
    lemma_run_unfold(run, ReplyView::Done, done + (read + done));
    lemma_run_unfold(run.at(CommandPhase::Requesting), ReplyView::Done, read + done);
    lemma_run_unfold(run.at(CommandPhase::Reading), ReplyView::Output(output), done);
    lemma_run_single(closing, ReplyView::Done);
}

/// A command that writes nothing yields the empty output, not an error.
pub proof fn law_silent_command_yields_empty_output(command: Seq<char>)
    ensures
        CommandRunView::start(command).run(
            seq![
                ReplyView::Done,
                ReplyView::Done,
                ReplyView::Output(Seq::empty()),
                ReplyView::Done,
            ],
        ) == CommandStepView::Finished(Ok(Seq::empty())),
{
    law_output_returned_verbatim(command, Seq::empty());
}

/// When no channel can be opened, the run ends with a channel error that
/// carries the reported text.
pub proof fn law_refused_channel_is_channel_error(
    command: Seq<char>,
    message: Seq<char>,
    later: Seq<ReplyView>,
)
    ensures
        CommandRunView::start(command).run(seq![ReplyView::Failed(message)] + later)
            == CommandStepView::Finished(
            Err(SshErrorView { kind: ErrorKind::ChannelOpen, message }),
        ),
{
    lemma_run_unfold(CommandRunView::start(command), ReplyView::Failed(message), later);
}

/// When the request to execute is refused, the run ends with an exec error
/// that carries the reported text.
pub proof fn law_refused_command_is_exec_error(
    command: Seq<char>,
    message: Seq<char>,
    later: Seq<ReplyView>,
)
    ensures
        CommandRunView::start(command).run(
            seq![ReplyView::Done, ReplyView::Failed(message)] + later,
        ) == CommandStepView::Finished(
            Err(SshErrorView { kind: ErrorKind::ExecRequest, message }),
        ),
{
    let run = CommandRunView::start(command);
    let done = seq![ReplyView::Done];
    let failed = seq![ReplyView::Failed(message)];
    let script = seq![ReplyView::Done, ReplyView::Failed(message)] + later;
    assert(script =~= done + (failed + later));
    lemma_run_unfold(run, ReplyView::Done, failed + later);
    lemma_run_unfold(run.at(CommandPhase::Requesting), ReplyView::Failed(message), later);
}

/// When reading the output fails, the run ends with a read error that
/// carries the reported text, and with no output at all.
pub proof fn law_failed_read_is_read_error(
    command: Seq<char>,
    message: Seq<char>,
    later: Seq<ReplyView>,
)
    ensures
        CommandRunView::start(command).run(
            seq![ReplyView::Done, ReplyView::Done, ReplyView::Failed(message)] + later,
        ) == CommandStepView::Finished(Err(SshErrorView { kind: ErrorKind::OutputRead, message })),
{
    let run = CommandRunView::start(command);
    let done = seq![ReplyView::Done];
    let failed = seq![ReplyView::Failed(message)];
    let script = seq![ReplyView::Done, ReplyView::Done, ReplyView::Failed(message)] + later;
    assert(script =~= done + (done + (failed + later)));
    lemma_run_unfold(run, ReplyView::Done, done + (failed + later));
    lemma_run_unfold(run.at(CommandPhase::Requesting), ReplyView::Done, failed + later);
    lemma_run_unfold(run.at(CommandPhase::Reading), ReplyView::Failed(message), later);
}

/// When waiting for the channel to close fails, the run ends with a close
/// error that carries the reported text; the output that was read is dropped.
pub proof fn law_failed_close_drops_output(
    command: Seq<char>,
    output: Seq<char>,
    message: Seq<char>,
    later: Seq<ReplyView>,
)
    ensures
        CommandRunView::start(command).run(
            seq![
                ReplyView::Done,
                ReplyView::Done,
                ReplyView::Output(output),
                ReplyView::Failed(message),
            ] + later,
        ) == CommandStepView::Finished(Err(SshErrorView { kind: ErrorKind::CloseWait, message })),
{
    let run = CommandRunView::start(command);
    let closing = CommandRunView { phase: CommandPhase::Closing, output, ..run };
    let done = seq![ReplyView::Done];
    let read = seq![ReplyView::Output(output)];
    let tail = seq![ReplyView::Failed(message)] + later;
    let script = seq![
        ReplyView::Done,
        ReplyView::Done,
        ReplyView::Output(output),
        ReplyView::Failed(message),
    ] + later;
    assert(script =~= done + (done + (read + tail)));
    lemma_run_unfold(run, ReplyView::Done, done + (read + tail));
    lemma_run_unfold(run.at(CommandPhase::Requesting), ReplyView::Done, read + tail);
    lemma_run_unfold(run.at(CommandPhase::Reading), ReplyView::Output(output), tail);
    lemma_run_unfold(closing, ReplyView::Failed(message), later);
}

/// The output that a run yields is one that was reported by a read, or, for a
/// run that had read already, the one it held.
proof fn lemma_output_comes_from_read(run: CommandRunView, replies: Seq<ReplyView>)
    requires
        run.run(replies) is Finished,
        run.run(replies)->Finished_0 is Ok,
    ensures
        (run.phase == CommandPhase::Closing && run.run(replies) == CommandStepView::Finished(
            Ok(run.output),
        )) || replies.contains(ReplyView::Output(run.run(replies)->Finished_0->Ok_0)),
    decreases replies.len(),
{
    if replies.len() > 0 {
        let rest = replies.drop_first();
        let output = run.run(replies)->Finished_0->Ok_0;
        match run.step(replies[0]) {
            CommandStepView::Continue(next) => {
                lemma_output_comes_from_read(next, rest);
                if rest.contains(ReplyView::Output(output)) {
                    let i = choose|i: int| 0 <= i < rest.len() && rest[i] == ReplyView::Output(output);
                    assert(replies[i + 1] == ReplyView::Output(output));
                } else if run.phase == CommandPhase::Reading && replies[0] is Output {
                    assert(replies[0] == ReplyView::Output(output));
                }
            },
            _ => {},
        }
    }
}

/// A run never makes output up: whatever the script, the output that a fresh
/// run yields is one that a read reported.
pub proof fn law_output_comes_from_read(command: Seq<char>, replies: Seq<ReplyView>)
    requires
        CommandRunView::start(command).run(replies) is Finished,
        CommandRunView::start(command).run(replies)->Finished_0 is Ok,
    ensures
        replies.contains(
            ReplyView::Output(CommandRunView::start(command).run(replies)->Finished_0->Ok_0),
        ),
{
    lemma_output_comes_from_read(CommandRunView::start(command), replies);
}

} // verus!

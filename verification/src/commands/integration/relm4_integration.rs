//! How a component turns command messages into executions and status
//! updates.

use vstd::prelude::*;

use crate::commands::{Command, GlobalCommandExecutor, after_execution, redo_step, reports, undo_step};

verus! {

/// Messages that components can send to request command execution.
pub enum CommandMsg<C> {
    Execute(C),
    Undo,
    Redo,
}

/// Output from command execution (for status updates, etc.).
pub enum CommandOutput {
    CommandExecuted(String),
    UndoPerformed(String),
    RedoPerformed(String),
    CommandFailed(String),
}

/// The histories of `after` are those of `before` once `command` was
/// executed, with `succeeded` telling whether its execution succeeded.
pub open spec fn executed<C: Command>(
    before: GlobalCommandExecutor<C>,
    after: GlobalCommandExecutor<C>,
    command: C,
    succeeded: bool,
) -> bool {
    &&& after.manager().max_history() == before.manager().max_history()
    &&& after_execution(
        before.manager().undo_history(),
        before.manager().redo_history(),
        after.manager().undo_history(),
        after.manager().redo_history(),
        command,
        before.manager().max_history(),
        succeeded,
    )
}

/// The histories of `after` are those of `before` once an undo (`undo`
/// true) or redo was attempted; `moved` tells whether a command actually
/// moved between the histories.
pub open spec fn stepped<C: Command>(
    before: GlobalCommandExecutor<C>,
    after: GlobalCommandExecutor<C>,
    undo: bool,
    moved: bool,
) -> bool {
    let (u, r) = (before.manager().undo_history(), before.manager().redo_history());
    &&& after.manager().max_history() == before.manager().max_history()
    &&& if moved {
        (after.manager().undo_history(), after.manager().redo_history()) == if undo {
            undo_step(u, r)
        } else {
            redo_step(u, r)
        }
    } else {
        &&& after.manager().undo_history() == u
        &&& after.manager().redo_history() == r
    }
}

/// `output` agrees with a stated outcome `o`: a success is reported as
/// such, a failure as `CommandFailed` with the same error text.
pub open spec fn reports_outcome(output: Option<CommandOutput>, o: Result<(), Seq<char>>) -> bool {
    match (o, output) {
        (Ok(_), Some(CommandOutput::CommandFailed(_))) => false,
        (Ok(_), _) => true,
        (Err(m), Some(CommandOutput::CommandFailed(e))) => e@ == m,
        (Err(_), _) => false,
    }
}

/// The outcome the command that `msg` acts on states for what `msg` does
/// to it, if it states one: its execution for `Execute` and `Redo`, its
/// undo for `Undo`; none when the history it would come from is empty.
pub open spec fn stated_outcome<C: Command>(msg: CommandMsg<C>, before: GlobalCommandExecutor<C>) -> Option<
    Result<(), Seq<char>>,
> {
    match msg {
        CommandMsg::Execute(command) => command.spec_execution(),
        CommandMsg::Undo => if before.manager().undo_history().len() > 0 {
            before.manager().undo_history().last().spec_undo_outcome()
        } else {
            None
        },
        CommandMsg::Redo => if before.manager().redo_history().len() > 0 {
            before.manager().redo_history().last().spec_execution()
        } else {
            None
        },
    }
}

/// `output` reports handling `msg`, which took the executor from `before`
/// to `after`.
pub open spec fn handled<C: Command>(
    msg: CommandMsg<C>,
    before: GlobalCommandExecutor<C>,
    after: GlobalCommandExecutor<C>,
    output: Option<CommandOutput>,
) -> bool {
    &&& stated_outcome(msg, before) matches Some(o) ==> reports_outcome(output, o)
    &&& match msg {
        CommandMsg::Execute(command) => match output {
            Some(CommandOutput::CommandExecuted(d)) => {
                &&& command.spec_description() matches Some(s) ==> d@ == s
                &&& executed(before, after, command, true)
            },
            Some(CommandOutput::CommandFailed(_)) => executed(
                before,
                after,
                command,
                false,
            ),
            _ => false,
        },
        CommandMsg::Undo => match output {
            Some(CommandOutput::UndoPerformed(d)) => {
                &&& before.manager().undo_history().len() > 0
                &&& reports(d@, "Undid: "@, before.manager().undo_history().last().spec_description())
                &&& stepped(before, after, true, true)
            },
            Some(CommandOutput::CommandFailed(e)) => {
                &&& before.manager().undo_history().len() == 0 ==> e@
                    == "Nothing to undo"@
                &&& stepped(before, after, true, false)
            },
            _ => false,
        },
        CommandMsg::Redo => match output {
            Some(CommandOutput::RedoPerformed(d)) => {
                &&& before.manager().redo_history().len() > 0
                &&& reports(d@, "Redid: "@, before.manager().redo_history().last().spec_description())
                &&& stepped(before, after, false, true)
            },
            Some(CommandOutput::CommandFailed(e)) => {
                &&& before.manager().redo_history().len() == 0 ==> e@
                    == "Nothing to redo"@
                &&& stepped(before, after, false, false)
            },
            _ => false,
        },
    }
}

/// Execute, undo or redo as `msg` asks, and report the outcome.
///
/// An executed command is reported with the description it had before it
/// ran; a successful undo or redo with the executor's message; any failure
/// with the error the executor returned.
pub fn handle_command_message<C: Command>(
    msg: CommandMsg<C>,
    command_executor: &mut GlobalCommandExecutor<C>,
) -> (output: Option<CommandOutput>)
    ensures
        output is Some,
        handled(msg, *old(command_executor), *final(command_executor), output),
{
    match msg {
        CommandMsg::Execute(command) => {
            let description = command.description();
            match command_executor.execute(command) {
                Ok(()) => Some(CommandOutput::CommandExecuted(description)),
                Err(e) => Some(CommandOutput::CommandFailed(e)),
            }
        },
        CommandMsg::Undo => match command_executor.undo() {
            Ok(description) => Some(CommandOutput::UndoPerformed(description)),
            Err(e) => Some(CommandOutput::CommandFailed(e)),
        },
        CommandMsg::Redo => match command_executor.redo() {
            Ok(description) => Some(CommandOutput::RedoPerformed(description)),
            Err(e) => Some(CommandOutput::CommandFailed(e)),
        },
    }
}

/// `result` is what a component records for `output`: the reported text on
/// success, `"Error: "` followed by the error on failure.
pub open spec fn recorded(output: Option<CommandOutput>, result: Option<String>) -> bool {
    match output {
        Some(CommandOutput::CommandExecuted(d)) => result == Some(d),
        Some(CommandOutput::UndoPerformed(d)) => result == Some(d),
        Some(CommandOutput::RedoPerformed(d)) => result == Some(d),
        Some(CommandOutput::CommandFailed(e)) => result matches Some(r) && r@ == "Error: "@ + e@,
        None => false,
    }
}

/// Component state that includes command functionality.
pub struct ComponentWithCommands<C> {
    pub command_executor: GlobalCommandExecutor<C>,
    pub last_command_result: Option<String>,
}

impl<C: Command> ComponentWithCommands<C> {
    pub fn new() -> (c: Self)
        ensures
            c.command_executor.manager().undo_history() == Seq::<C>::empty(),
            c.command_executor.manager().redo_history() == Seq::<C>::empty(),
            c.command_executor.manager().max_history() == 50,
            c.last_command_result is None,
    {
        ComponentWithCommands { command_executor: GlobalCommandExecutor::new(), last_command_result: None }
    }

    /// Handle `msg` and record its outcome: the reported description on
    /// success, `"Error: "` followed by the error on failure.
    pub fn process_command(&mut self, msg: CommandMsg<C>)
        ensures
            exists|output: Option<CommandOutput>|
                {
                    &&& handled(msg, old(self).command_executor, final(self).command_executor, output)
                    &&& recorded(output, final(self).last_command_result)
                },
    {
        let ghost before = self.command_executor;
        let ghost request = msg;
        let result = handle_command_message(msg, &mut self.command_executor);
        let ghost reported = result;
        if let Some(output) = result {
            match output {
                CommandOutput::CommandExecuted(desc)
                | CommandOutput::UndoPerformed(desc)
                | CommandOutput::RedoPerformed(desc) => {
                    self.last_command_result = Some(desc);
                },
                CommandOutput::CommandFailed(error) => {
                    let mut text = "Error: ".to_owned();
                    text.append(error.as_str());
                    self.last_command_result = Some(text);
                },
            }
        }
        proof {
            assert(handled(request, before, self.command_executor, reported));
            assert(recorded(reported, self.last_command_result));
        }
    }
}

} // verus!

//! Command execution with bounded undo/redo history.

use std::collections::VecDeque;

use vstd::prelude::*;

pub mod integration;

verus! {

/// An action that can be executed and, optionally, undone.
///
/// An implementation verified alongside this library may state its
/// description, whether it can be undone, and what executing and undoing it
/// give, through `spec_description`, `spec_can_undo`, `spec_execution` and
/// `spec_undo_outcome`; the executable methods then agree with them, and
/// the history's contracts say exactly what happens to such a command. By
/// default nothing is stated (an implementation in plain Rust cannot state
/// anything), and the history's contracts promise correspondingly less.
///
/// `undo` has no default body: Verus holds a default body to the trait's
/// contract for every implementor, so a default could not carry the exact
/// outcome clause. A command that cannot be undone answers with
/// [`undo_not_supported`].
pub trait Command {
    /// The description of this command, when the implementation states it.
    open spec fn spec_description(&self) -> Option<Seq<char>> {
        None
    }

    /// Whether this command can be undone, when the implementation states
    /// it.
    open spec fn spec_can_undo(&self) -> Option<bool> {
        None
    }

    /// What executing this command gives, when the implementation states
    /// it: success, or failure with the error's text.
    open spec fn spec_execution(&self) -> Option<Result<(), Seq<char>>> {
        None
    }

    /// Execute the command.
    fn execute(&self) -> (r: Result<(), String>)
        ensures
            self.spec_execution() matches Some(o) ==> outcome_is(r, o),
    ;

    /// What undoing this command gives, when the implementation states it:
    /// success, or failure with the error's text.
    open spec fn spec_undo_outcome(&self) -> Option<Result<(), Seq<char>>> {
        None
    }

    /// Undo the command (if possible).
    fn undo(&self) -> (r: Result<(), String>)
        ensures
            self.spec_undo_outcome() matches Some(o) ==> outcome_is(r, o),
    ;

    /// Get a human-readable description of the command.
    fn description(&self) -> (d: String)
        ensures
            self.spec_description() matches Some(s) ==> d@ == s,
    ;

    /// Whether this command can be undone.
    fn can_undo(&self) -> (b: bool)
        ensures
            self.spec_can_undo() matches Some(u) ==> b == u,
    ;
}

/// The answer of a command that cannot be undone.
pub fn undo_not_supported() -> (r: Result<(), String>)
    ensures
        r matches Err(e) && e@ == "undo not supported for this command"@,
{
    proof {
        reveal_strlit("undo not supported for this command");
    }
    Err("undo not supported for this command".to_owned())
}

/// `r` is the outcome `o`: both success, or both failure with the same
/// error text.
pub open spec fn outcome_is<T>(r: Result<T, String>, o: Result<(), Seq<char>>) -> bool {
    match (r, o) {
        (Ok(_), Ok(_)) => true,
        (Err(e), Err(m)) => e@ == m,
        _ => false,
    }
}

/// The undo history after a successfully executed, undoable command: the
/// command is appended, and the oldest entry is evicted once the history
/// grows beyond `max` entries.
pub open spec fn push_bounded<C>(history: Seq<C>, command: C, max: nat) -> Seq<C> {
    let pushed = history.push(command);
    if pushed.len() > max {
        pushed.drop_first()
    } else {
        pushed
    }
}

/// The histories `(new_undo, new_redo)` after `command` was executed from
/// `(undo, redo)`, `ok` telling whether its execution succeeded: a failed
/// command changes nothing; a successful one that can be undone is pushed
/// (bounded to `max`) and clears the redo history, one that cannot changes
/// nothing. When the command does not state whether it can be undone,
/// either may have happened.
pub open spec fn after_execution<C: Command>(
    undo: Seq<C>,
    redo: Seq<C>,
    new_undo: Seq<C>,
    new_redo: Seq<C>,
    command: C,
    max: nat,
    ok: bool,
) -> bool {
    let recorded = new_undo == push_bounded(undo, command, max) && new_redo == Seq::<C>::empty();
    let unchanged = new_undo == undo && new_redo == redo;
    if !ok {
        unchanged
    } else {
        match command.spec_can_undo() {
            Some(true) => recorded,
            Some(false) => unchanged,
            None => recorded || unchanged,
        }
    }
}

/// `message` is `prefix` followed by a description, and by exactly the
/// command's description when the command states it.
pub open spec fn reports(message: Seq<char>, prefix: Seq<char>, description: Option<Seq<char>>) -> bool {
    &&& prefix.is_prefix_of(message)
    &&& description matches Some(d) ==> message == prefix + d
}

/// Stacks `(undo, redo)` after the newest undoable command was undone.
pub open spec fn undo_step<C>(undo: Seq<C>, redo: Seq<C>) -> (Seq<C>, Seq<C>) {
    (undo.drop_last(), redo.push(undo.last()))
}

/// Stacks `(undo, redo)` after the most recently undone command was redone.
pub open spec fn redo_step<C>(undo: Seq<C>, redo: Seq<C>) -> (Seq<C>, Seq<C>) {
    (undo.push(redo.last()), redo.drop_last())
}

/// Command manager that handles execution and undo/redo functionality.
pub struct CommandManager<C> {
    undo_stack: VecDeque<C>,
    redo_stack: VecDeque<C>,
    max_history_size: usize,
}

impl<C> CommandManager<C> {
    /// Undo and redo histories together never exceed the configured size.
    #[verifier::type_invariant]
    closed spec fn history_fits(&self) -> bool {
        self.undo_stack@.len() + self.redo_stack@.len() <= self.max_history_size
    }
}

impl<C: Command> CommandManager<C> {
    /// The undoable commands, oldest first; the last one is undone next.
    pub closed spec fn undo_history(&self) -> Seq<C> {
        self.undo_stack@
    }

    /// The undone commands, oldest first; the last one is redone next.
    pub closed spec fn redo_history(&self) -> Seq<C> {
        self.redo_stack@
    }

    /// The largest number of commands the history keeps.
    pub closed spec fn max_history(&self) -> nat {
        self.max_history_size as nat
    }

    /// The undo and redo histories together hold at most `max_history()`
    /// commands.
    pub open spec fn within_bound(&self) -> bool {
        self.undo_history().len() + self.redo_history().len() <= self.max_history()
    }

    /// Moves the histories out of the manager, leaving it empty.
    fn take_parts(&mut self) -> (parts: (VecDeque<C>, VecDeque<C>, usize))
        ensures
            parts.0@ == old(self).undo_history(),
            parts.1@ == old(self).redo_history(),
            parts.2 == old(self).max_history(),
            parts.0@.len() + parts.1@.len() <= parts.2,
    {
        let mut parts = CommandManager {
            undo_stack: VecDeque::new(),
            redo_stack: VecDeque::new(),
            max_history_size: 0,
        };
        std::mem::swap(&mut parts, self);
        proof {
            use_type_invariant(&parts);
        }
        let CommandManager { undo_stack, redo_stack, max_history_size } = parts;
        (undo_stack, redo_stack, max_history_size)
    }

    pub fn new(max_history_size: usize) -> (m: Self)
        ensures
            m.undo_history() == Seq::<C>::empty(),
            m.redo_history() == Seq::<C>::empty(),
            m.max_history() == max_history_size,
            m.within_bound(),
    {
        CommandManager { undo_stack: VecDeque::new(), redo_stack: VecDeque::new(), max_history_size }
    }

    /// Execute a command and add it to the undo stack if it supports undo.
    ///
    /// A successful, undoable command clears the redo history and is pushed
    /// onto the undo history, evicting the oldest entry when the history is
    /// full. The result is the command's own execution result.
    pub fn execute_command(&mut self, command: C) -> (result: Result<(), String>)
        ensures
            command.spec_execution() matches Some(o) ==> outcome_is(result, o),
            final(self).max_history() == old(self).max_history(),
            final(self).within_bound(),
            after_execution(
                old(self).undo_history(),
                old(self).redo_history(),
                final(self).undo_history(),
                final(self).redo_history(),
                command,
                old(self).max_history(),
                result is Ok,
            ),
    {
        let result = command.execute();
        if result.is_ok() && command.can_undo() {
            let (mut undo_stack, mut redo_stack, max_history_size) = self.take_parts();
            // clear redo stack when a new command is executed
            redo_stack.clear();
            undo_stack.push_back(command);
            // limit history size
            if undo_stack.len() > max_history_size {
                undo_stack.pop_front();
            }
            *self = CommandManager { undo_stack, redo_stack, max_history_size };
        }
        proof {
            use_type_invariant(&*self);
        }
        result
    }

    /// Undo the last command.
    ///
    /// On success the command moves from the undo history to the redo
    /// history and the result is `"Undid: "` followed by its description.
    /// If its undo fails, the command stays where it was and the failure is
    /// returned.
    pub fn undo(&mut self) -> (result: Result<String, String>)
        ensures
            final(self).max_history() == old(self).max_history(),
            final(self).within_bound(),
            old(self).undo_history().len() == 0 ==> {
                &&& result matches Err(e) && e@ == "Nothing to undo"@
                &&& final(self).undo_history() == old(self).undo_history()
                &&& final(self).redo_history() == old(self).redo_history()
            },
            old(self).undo_history().len() > 0 ==> match result {
                Ok(message) => {
                    &&& reports(message@, "Undid: "@, old(self).undo_history().last().spec_description())
                    &&& (final(self).undo_history(), final(self).redo_history()) == undo_step(
                        old(self).undo_history(),
                        old(self).redo_history(),
                    )
                },
                Err(_) => {
                    &&& final(self).undo_history() == old(self).undo_history()
                    &&& final(self).redo_history() == old(self).redo_history()
                },
            },
            old(self).undo_history().len() > 0 ==> (old(self).undo_history().last().spec_undo_outcome() matches Some(o)
                ==> outcome_is(result, o)),
    {
        proof {
            use_type_invariant(&*self);
        }
        if self.undo_stack.len() == 0 {
            return Err("Nothing to undo".to_owned());
        }
        let (mut undo_stack, mut redo_stack, max_history_size) = self.take_parts();
        let ghost undo0 = undo_stack@;
        let command = undo_stack.pop_back().unwrap();
        let description = command.description();
        let result = match command.undo() {
            Ok(()) => {
                redo_stack.push_back(command);
                let mut message = "Undid: ".to_owned();
                message.append(description.as_str());
                proof {
                    assert("Undid: "@.is_prefix_of(message@)) by {
                        assert(message@.subrange(0, 7) =~= "Undid: "@) by {
                            reveal_strlit("Undid: ");
                        }
                        reveal_strlit("Undid: ");
                    }
                }
                Ok(message)
            },
            Err(e) => {
                // put the command back if undo failed
                undo_stack.push_back(command);
                proof {
                    assert(undo_stack@ =~= undo0);
                }
                Err(e)
            },
        };
        *self = CommandManager { undo_stack, redo_stack, max_history_size };
        result
    }

    /// Redo the last undone command.
    ///
    /// On success the command moves from the redo history back onto the
    /// undo history and the result is `"Redid: "` followed by its
    /// description. If executing it again fails, it stays in the redo
    /// history and the failure is returned.
    pub fn redo(&mut self) -> (result: Result<String, String>)
        ensures
            final(self).max_history() == old(self).max_history(),
            final(self).within_bound(),
            old(self).redo_history().len() == 0 ==> {
                &&& result matches Err(e) && e@ == "Nothing to redo"@
                &&& final(self).undo_history() == old(self).undo_history()
                &&& final(self).redo_history() == old(self).redo_history()
            },
            old(self).redo_history().len() > 0 ==> match result {
                Ok(message) => {
                    &&& reports(message@, "Redid: "@, old(self).redo_history().last().spec_description())
                    &&& (final(self).undo_history(), final(self).redo_history()) == redo_step(
                        old(self).undo_history(),
                        old(self).redo_history(),
                    )
                },
                Err(_) => {
                    &&& final(self).undo_history() == old(self).undo_history()
                    &&& final(self).redo_history() == old(self).redo_history()
                },
            },
            old(self).redo_history().len() > 0 ==> (old(self).redo_history().last().spec_execution() matches Some(o)
                ==> outcome_is(result, o)),
    {
        proof {
            use_type_invariant(&*self);
        }
        if self.redo_stack.len() == 0 {
            return Err("Nothing to redo".to_owned());
        }
        let (mut undo_stack, mut redo_stack, max_history_size) = self.take_parts();
        let ghost redo0 = redo_stack@;
        let command = redo_stack.pop_back().unwrap();
        let description = command.description();
        let result = match command.execute() {
            Ok(()) => {
                undo_stack.push_back(command);
                let mut message = "Redid: ".to_owned();
                message.append(description.as_str());
                proof {
                    assert("Redid: "@.is_prefix_of(message@)) by {
                        assert(message@.subrange(0, 7) =~= "Redid: "@) by {
                            reveal_strlit("Redid: ");
                        }
                        reveal_strlit("Redid: ");
                    }
                }
                Ok(message)
            },
            Err(e) => {
                // put the command back if redo failed
                redo_stack.push_back(command);
                proof {
                    assert(redo_stack@ =~= redo0);
                }
                Err(e)
            },
        };
        *self = CommandManager { undo_stack, redo_stack, max_history_size };
        result
    }

    /// Check if there are commands that can be undone.
    pub fn can_undo(&self) -> (b: bool)
        ensures
            b == (self.undo_history().len() > 0),
    {
        self.undo_stack.len() != 0
    }

    /// Check if there are commands that can be redone.
    pub fn can_redo(&self) -> (b: bool)
        ensures
            b == (self.redo_history().len() > 0),
    {
        self.redo_stack.len() != 0
    }

    /// Get the description of the next command that would be undone.
    pub fn next_undo_description(&self) -> (d: Option<String>)
        ensures
            self.undo_history().len() == 0 ==> d is None,
            self.undo_history().len() > 0 ==> (d matches Some(s) && (
            self.undo_history().last().spec_description() matches Some(t) ==> s@ == t)),
    {
        let n = self.undo_stack.len();
        if n == 0 {
            None
        } else {
            Some(self.undo_stack[n - 1].description())
        }
    }

    /// Get the description of the next command that would be redone.
    pub fn next_redo_description(&self) -> (d: Option<String>)
        ensures
            self.redo_history().len() == 0 ==> d is None,
            self.redo_history().len() > 0 ==> (d matches Some(s) && (
            self.redo_history().last().spec_description() matches Some(t) ==> s@ == t)),
    {
        let n = self.redo_stack.len();
        if n == 0 {
            None
        } else {
            Some(self.redo_stack[n - 1].description())
        }
    }

    /// Clear all command history.
    pub fn clear_history(&mut self)
        ensures
            final(self).undo_history() == Seq::<C>::empty(),
            final(self).redo_history() == Seq::<C>::empty(),
            final(self).max_history() == old(self).max_history(),
            final(self).within_bound(),
    {
        let (mut undo_stack, mut redo_stack, max_history_size) = self.take_parts();
        undo_stack.clear();
        redo_stack.clear();
        *self = CommandManager { undo_stack, redo_stack, max_history_size };
    }
}

/// Undoing a command and then redoing it restores both histories.
pub proof fn lemma_redo_reverts_undo<C>(undo: Seq<C>, redo: Seq<C>)
    requires
        undo.len() > 0,
    ensures
        ({
            let (u1, r1) = undo_step(undo, redo);
            redo_step(u1, r1) == (undo, redo)
        }),
{
    let (u1, r1) = undo_step(undo, redo);
    assert(u1.push(r1.last()) =~= undo);
    assert(r1.drop_last() =~= redo);
}

/// Redoing a command and then undoing it restores both histories.
pub proof fn lemma_undo_reverts_redo<C>(undo: Seq<C>, redo: Seq<C>)
    requires
        redo.len() > 0,
    ensures
        ({
            let (u1, r1) = redo_step(undo, redo);
            undo_step(u1, r1) == (undo, redo)
        }),
{
    let (u1, r1) = redo_step(undo, redo);
    assert(u1.drop_last() =~= undo);
    assert(r1.push(u1.last()) =~= redo);
}

/// A bounded push never leaves more than `max` entries in a history that
/// already fit, and always makes the pushed command the next one undone.
pub proof fn lemma_push_bounded<C>(history: Seq<C>, command: C, max: nat)
    requires
        history.len() <= max,
    ensures
        push_bounded(history, command, max).len() <= max,
        max > 0 ==> push_bounded(history, command, max).last() == command,
{
}

/// Global command executor with a history of the last 50 commands.
pub struct GlobalCommandExecutor<C> {
    command_manager: CommandManager<C>,
}

impl<C: Command> GlobalCommandExecutor<C> {
    /// The manager this executor forwards to.
    pub closed spec fn manager(&self) -> CommandManager<C> {
        self.command_manager
    }

    pub fn new() -> (e: Self)
        ensures
            e.manager().undo_history() == Seq::<C>::empty(),
            e.manager().redo_history() == Seq::<C>::empty(),
            e.manager().max_history() == 50,
            e.manager().within_bound(),
    {
        GlobalCommandExecutor { command_manager: CommandManager::new(50) }
    }

    /// Execute a command through the underlying [`CommandManager`].
    pub fn execute(&mut self, command: C) -> (result: Result<(), String>)
        ensures
            command.spec_execution() matches Some(o) ==> outcome_is(result, o),
            final(self).manager().max_history() == old(self).manager().max_history(),
            final(self).manager().within_bound(),
            after_execution(
                old(self).manager().undo_history(),
                old(self).manager().redo_history(),
                final(self).manager().undo_history(),
                final(self).manager().redo_history(),
                command,
                old(self).manager().max_history(),
                result is Ok,
            ),
    {
        self.command_manager.execute_command(command)
    }

    pub fn undo(&mut self) -> (result: Result<String, String>)
        ensures
            final(self).manager().max_history() == old(self).manager().max_history(),
            final(self).manager().within_bound(),
            old(self).manager().undo_history().len() > 0 ==> (old(self).manager().undo_history().last().spec_undo_outcome() matches Some(o)
                ==> outcome_is(result, o)),
            old(self).manager().undo_history().len() == 0 ==> {
                &&& result matches Err(e) && e@ == "Nothing to undo"@
                &&& final(self).manager().undo_history() == old(self).manager().undo_history()
                &&& final(self).manager().redo_history() == old(self).manager().redo_history()
            },
            old(self).manager().undo_history().len() > 0 ==> match result {
                Ok(message) => {
                    &&& reports(
                        message@,
                        "Undid: "@,
                        old(self).manager().undo_history().last().spec_description(),
                    )
                    &&& (final(self).manager().undo_history(), final(self).manager().redo_history())
                        == undo_step(
                        old(self).manager().undo_history(),
                        old(self).manager().redo_history(),
                    )
                },
                Err(_) => {
                    &&& final(self).manager().undo_history() == old(self).manager().undo_history()
                    &&& final(self).manager().redo_history() == old(self).manager().redo_history()
                },
            },
    {
        self.command_manager.undo()
    }

    pub fn redo(&mut self) -> (result: Result<String, String>)
        ensures
            final(self).manager().max_history() == old(self).manager().max_history(),
            final(self).manager().within_bound(),
            old(self).manager().redo_history().len() > 0 ==> (old(self).manager().redo_history().last().spec_execution() matches Some(o)
                ==> outcome_is(result, o)),
            old(self).manager().redo_history().len() == 0 ==> {
                &&& result matches Err(e) && e@ == "Nothing to redo"@
                &&& final(self).manager().undo_history() == old(self).manager().undo_history()
                &&& final(self).manager().redo_history() == old(self).manager().redo_history()
            },
            old(self).manager().redo_history().len() > 0 ==> match result {
                Ok(message) => {
                    &&& reports(
                        message@,
                        "Redid: "@,
                        old(self).manager().redo_history().last().spec_description(),
                    )
                    &&& (final(self).manager().undo_history(), final(self).manager().redo_history())
                        == redo_step(
                        old(self).manager().undo_history(),
                        old(self).manager().redo_history(),
                    )
                },
                Err(_) => {
                    &&& final(self).manager().undo_history() == old(self).manager().undo_history()
                    &&& final(self).manager().redo_history() == old(self).manager().redo_history()
                },
            },
    {
        self.command_manager.redo()
    }

    pub fn can_undo(&self) -> (b: bool)
        ensures
            b == (self.manager().undo_history().len() > 0),
    {
        self.command_manager.can_undo()
    }

    pub fn can_redo(&self) -> (b: bool)
        ensures
            b == (self.manager().redo_history().len() > 0),
    {
        self.command_manager.can_redo()
    }

    pub fn clear_history(&mut self)
        ensures
            final(self).manager().undo_history() == Seq::<C>::empty(),
            final(self).manager().redo_history() == Seq::<C>::empty(),
            final(self).manager().max_history() == old(self).manager().max_history(),
            final(self).manager().within_bound(),
    {
        self.command_manager.clear_history();
    }
}

} // verus!

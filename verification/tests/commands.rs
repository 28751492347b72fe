use cadenza_shell::commands::integration::relm4_integration::{
    CommandMsg, CommandOutput, ComponentWithCommands, handle_command_message,
};
use cadenza_shell::commands::{Command, CommandManager, GlobalCommandExecutor, undo_not_supported};

/// A command that adjusts a level; it can be undone.
#[derive(Debug)]
struct SetLevel(u32);

impl Command for SetLevel {
    fn execute(&self) -> Result<(), String> {
        Ok(())
    }

    fn undo(&self) -> Result<(), String> {
        Ok(())
    }

    fn description(&self) -> String {
        format!("set level to {}", self.0)
    }

    fn can_undo(&self) -> bool {
        true
    }
}

/// A command that cannot be undone.
#[derive(Debug)]
struct Toggle;

impl Command for Toggle {
    fn execute(&self) -> Result<(), String> {
        Ok(())
    }

    fn undo(&self) -> Result<(), String> {
        undo_not_supported()
    }

    fn description(&self) -> String {
        "toggle".to_string()
    }

    fn can_undo(&self) -> bool {
        false
    }
}

/// A command whose execution fails.
#[derive(Debug)]
struct Broken;

impl Command for Broken {
    fn execute(&self) -> Result<(), String> {
        Err("broken".to_string())
    }

    fn undo(&self) -> Result<(), String> {
        undo_not_supported()
    }

    fn description(&self) -> String {
        "broken".to_string()
    }

    fn can_undo(&self) -> bool {
        true
    }
}

#[test]
fn test_command_manager_execute_and_undo() {
    let mut manager = CommandManager::new(10);

    // test executing a command that can be undone
    let command = SetLevel(50);
    assert!(manager.execute_command(command).is_ok());
    assert!(manager.can_undo());
    assert!(!manager.can_redo());

    // test undo
    let undo_result = manager.undo();
    assert!(undo_result.is_ok());
    assert!(!manager.can_undo());
    assert!(manager.can_redo());

    // test redo
    let redo_result = manager.redo();
    assert!(redo_result.is_ok());
    assert!(manager.can_undo());
    assert!(!manager.can_redo());
}

#[test]
fn test_relm4_command_integration() {
    let mut component: ComponentWithCommands<SetLevel> = ComponentWithCommands::new();

    // test command execution
    component.process_command(CommandMsg::Execute(SetLevel(80)));
    assert!(component.last_command_result.is_some());

    // test undo
    component.process_command(CommandMsg::Undo);
    assert!(component.last_command_result.is_some());
}

#[test]
fn undo_and_redo_report_the_description() {
    let mut manager = CommandManager::new(10);
    manager.execute_command(SetLevel(3)).unwrap();
    assert_eq!(manager.next_undo_description(), Some("set level to 3".to_string()));
    assert_eq!(manager.undo(), Ok("Undid: set level to 3".to_string()));
    assert_eq!(manager.next_redo_description(), Some("set level to 3".to_string()));
    assert_eq!(manager.redo(), Ok("Redid: set level to 3".to_string()));
}

#[test]
fn empty_history_has_nothing_to_undo_or_redo() {
    let mut manager: CommandManager<SetLevel> = CommandManager::new(5);
    assert_eq!(manager.undo(), Err("Nothing to undo".to_string()));
    assert_eq!(manager.redo(), Err("Nothing to redo".to_string()));
    assert_eq!(manager.next_undo_description(), None);
}

#[test]
fn history_keeps_only_the_newest_commands() {
    let mut manager = CommandManager::new(2);
    manager.execute_command(SetLevel(1)).unwrap();
    manager.execute_command(SetLevel(2)).unwrap();
    manager.execute_command(SetLevel(3)).unwrap();
    assert_eq!(manager.undo(), Ok("Undid: set level to 3".to_string()));
    assert_eq!(manager.undo(), Ok("Undid: set level to 2".to_string()));
    assert_eq!(manager.undo(), Err("Nothing to undo".to_string()));
}

#[test]
fn a_new_command_clears_the_redo_history() {
    let mut manager = CommandManager::new(10);
    manager.execute_command(SetLevel(1)).unwrap();
    manager.undo().unwrap();
    assert!(manager.can_redo());
    manager.execute_command(SetLevel(2)).unwrap();
    assert!(!manager.can_redo());
}

#[test]
fn commands_without_undo_are_not_recorded() {
    let mut manager = CommandManager::new(10);
    assert!(manager.execute_command(Toggle).is_ok());
    assert!(!manager.can_undo());
    let mut failing = CommandManager::new(10);
    assert_eq!(failing.execute_command(Broken), Err("broken".to_string()));
    assert!(!failing.can_undo());
}

#[test]
fn commands_that_cannot_be_undone_refuse() {
    assert_eq!(Toggle.undo(), Err("undo not supported for this command".to_string()));
}

#[test]
fn clearing_the_history_forgets_everything() {
    let mut executor = GlobalCommandExecutor::new();
    executor.execute(SetLevel(1)).unwrap();
    executor.execute(SetLevel(2)).unwrap();
    executor.undo().unwrap();
    assert!(executor.can_undo());
    assert!(executor.can_redo());
    executor.clear_history();
    assert!(!executor.can_undo());
    assert!(!executor.can_redo());
}

#[test]
fn command_messages_report_what_happened() {
    let mut executor = GlobalCommandExecutor::new();
    match handle_command_message(CommandMsg::Execute(SetLevel(7)), &mut executor) {
        Some(CommandOutput::CommandExecuted(d)) => assert_eq!(d, "set level to 7"),
        _ => panic!("expected an executed command"),
    }
    match handle_command_message(CommandMsg::Undo, &mut executor) {
        Some(CommandOutput::UndoPerformed(d)) => assert_eq!(d, "Undid: set level to 7"),
        _ => panic!("expected an undo"),
    }
    match handle_command_message(CommandMsg::Undo, &mut executor) {
        Some(CommandOutput::CommandFailed(e)) => assert_eq!(e, "Nothing to undo"),
        _ => panic!("expected a failure"),
    }
    let mut component: ComponentWithCommands<SetLevel> = ComponentWithCommands::new();
    component.process_command(CommandMsg::Redo);
    assert_eq!(component.last_command_result, Some("Error: Nothing to redo".to_string()));
}

/// A command that can be undone but whose undo fails.
#[derive(Debug)]
struct Stuck;

impl Command for Stuck {
    fn execute(&self) -> Result<(), String> {
        Ok(())
    }

    fn undo(&self) -> Result<(), String> {
        Err("stuck".to_string())
    }

    fn description(&self) -> String {
        "stuck".to_string()
    }

    fn can_undo(&self) -> bool {
        true
    }
}

#[test]
fn a_failed_undo_returns_the_command_error_and_keeps_it() {
    let mut manager = CommandManager::new(10);
    manager.execute_command(Stuck).unwrap();
    assert_eq!(manager.undo(), Err("stuck".to_string()));
    assert!(manager.can_undo());
    assert!(!manager.can_redo());
}

#[test]
fn redo_after_undo_succeeds_and_restores_the_history() {
    let mut manager = CommandManager::new(10);
    manager.execute_command(SetLevel(7)).unwrap();
    assert_eq!(manager.undo(), Ok("Undid: set level to 7".to_string()));
    assert_eq!(manager.redo(), Ok("Redid: set level to 7".to_string()));
    assert!(manager.can_undo());
    assert!(!manager.can_redo());
    assert_eq!(manager.next_undo_description(), Some("set level to 7".to_string()));
}

#[test]
fn the_global_executor_keeps_fifty_commands() {
    let mut executor = GlobalCommandExecutor::new();
    assert!(!executor.can_undo());
    assert!(!executor.can_redo());
    for i in 1..=51 {
        executor.execute(SetLevel(i)).unwrap();
    }
    for i in (2..=51).rev() {
        assert_eq!(executor.undo(), Ok(format!("Undid: set level to {i}")));
    }
    assert_eq!(executor.undo(), Err("Nothing to undo".to_string()));
}

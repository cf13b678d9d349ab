use gem::cli::action::{Action, ParseActionError};
use gem::cli::help_line::HelpLine;
use gem::cli::internal::Internal;
use gem::control_loop::{
    ControlLoop, KeyCode, LoopEvent, LoopExit, MouseKind, Turn, UserEvent, ViewCommand,
};
use gem::executor::command_output::{
    CommandExecInfo, CommandOutput, CommandOutputLine, CommandStream, ProcessStatus,
};
use gem::executor::command_result::{CommandResult, Report};
use gem::executor::executable::{Executable, ExecutablePosition};
use gem::executor::execution_plan::ExecutionItem;
use gem::executor::failure::Failure;
use gem::executor::job::Job;
use gem::executor::job_location::JobLocation;
use gem::executor::mission::Mission;
use gem::executor::mission_location::MissionLocation;
use gem::fenced_attributes::{Attributes, CodeChunk};
use gem::view::{lines_of_pages, ViewLine, ViewModel};

fn key(code: KeyCode, bound: Option<Internal>) -> LoopEvent {
    LoopEvent::User(UserEvent::Key { code, bound: bound.map(Action::Internal) })
}

fn goes_on(commands: Vec<ViewCommand>) -> Turn {
    let mut commands = commands;
    commands.push(ViewCommand::Draw);
    commands.push(ViewCommand::Flush);
    Turn { commands, exit: None }
}

#[test]
fn scroll_keys_bypass_the_bindings() {
    let mut state = ControlLoop::new();
    let quit = Some(Internal::Quit);
    assert_eq!(
        state.turn(key(KeyCode::Up, quit)),
        goes_on(vec![ViewCommand::ScrollLines(-1), ViewCommand::Unblock])
    );
    assert_eq!(
        state.turn(key(KeyCode::Down, quit)),
        goes_on(vec![ViewCommand::ScrollLines(1), ViewCommand::Unblock])
    );
    assert_eq!(
        state.turn(key(KeyCode::PageUp, None)),
        goes_on(vec![ViewCommand::ScrollPages(-1), ViewCommand::Unblock])
    );
    assert_eq!(
        state.turn(key(KeyCode::PageDown, None)),
        goes_on(vec![ViewCommand::ScrollPages(1), ViewCommand::Unblock])
    );
    assert!(!state.help_open);
}

#[test]
fn mouse_wheel_scrolls_by_lines() {
    let mut state = ControlLoop::new();
    assert_eq!(
        state.turn(LoopEvent::User(UserEvent::Mouse(MouseKind::ScrollDown))),
        goes_on(vec![ViewCommand::ScrollLines(1), ViewCommand::Unblock])
    );
    assert_eq!(
        state.turn(LoopEvent::User(UserEvent::Mouse(MouseKind::ScrollUp))),
        goes_on(vec![ViewCommand::ScrollLines(-1), ViewCommand::Unblock])
    );
    assert_eq!(
        state.turn(LoopEvent::User(UserEvent::Mouse(MouseKind::Other))),
        goes_on(vec![ViewCommand::Unblock])
    );
}

#[test]
fn resize_is_handed_to_the_view() {
    let mut state = ControlLoop::new();
    assert_eq!(
        state.turn(LoopEvent::User(UserEvent::Resize { width: 80, height: 24 })),
        goes_on(vec![ViewCommand::Resize { width: 80, height: 24 }, ViewCommand::Unblock])
    );
}

#[test]
fn help_and_back_and_quit() {
    let mut state = ControlLoop::new();
    assert_eq!(
        state.turn(key(KeyCode::Other, Some(Internal::Help))),
        goes_on(vec![ViewCommand::Unblock, ViewCommand::ToggleHelp])
    );
    assert!(state.help_open);
    assert_eq!(
        state.turn(key(KeyCode::Other, Some(Internal::Back))),
        goes_on(vec![ViewCommand::Unblock, ViewCommand::CloseHelp])
    );
    assert!(!state.help_open);
    assert_eq!(
        state.turn(key(KeyCode::Other, Some(Internal::Back))),
        Turn { commands: vec![ViewCommand::Unblock], exit: Some(LoopExit::Back) }
    );
    let mut state = ControlLoop { help_open: true };
    assert_eq!(
        state.turn(key(KeyCode::Other, Some(Internal::Help))),
        goes_on(vec![ViewCommand::Unblock, ViewCommand::ToggleHelp])
    );
    assert!(!state.help_open);
    let mut state = ControlLoop { help_open: true };
    assert_eq!(
        state.turn(key(KeyCode::Other, Some(Internal::Quit))),
        Turn { commands: vec![ViewCommand::Unblock], exit: Some(LoopExit::Quit) }
    );
    assert!(state.help_open);
    assert_eq!(state.turn(key(KeyCode::Other, None)), goes_on(vec![ViewCommand::Unblock]));
}

#[test]
fn worker_events_drive_the_view() {
    let mut state = ControlLoop::new();
    let line = CommandOutputLine { content: "out".to_string(), origin: CommandStream::StdOut };
    assert_eq!(
        state.turn(LoopEvent::Executor(CommandExecInfo::Line(line))),
        goes_on(vec![
            ViewCommand::DrawHelpLine,
            ViewCommand::WriteCommandOutput("out".to_string()),
            ViewCommand::Flush,
        ])
    );
    let item = ExecutionItem::OutputString("text".to_string());
    assert_eq!(
        state.turn(LoopEvent::Executor(CommandExecInfo::Output(item.clone()))),
        goes_on(vec![ViewCommand::DrawHelpLine, ViewCommand::WriteOn(item), ViewCommand::Flush])
    );
    assert_eq!(
        state.turn(LoopEvent::Executor(CommandExecInfo::Start)),
        goes_on(vec![ViewCommand::DrawExecuting, ViewCommand::Flush])
    );
    let status = Some(ProcessStatus { code: Some(1) });
    assert_eq!(
        state.turn(LoopEvent::Executor(CommandExecInfo::End { status })),
        goes_on(vec![ViewCommand::ExecutionStops, ViewCommand::Flush])
    );
}

#[test]
fn errors_and_closed_channels_end_the_loop() {
    let mut state = ControlLoop::new();
    assert_eq!(
        state.turn(LoopEvent::Executor(CommandExecInfo::Error("boom".to_string()))),
        Turn {
            commands: vec![
                ViewCommand::WriteCommandOutput("boom".to_string()),
                ViewCommand::ExecutionStops,
            ],
            exit: Some(LoopExit::Failed),
        }
    );
    assert_eq!(
        state.turn(LoopEvent::Executor(CommandExecInfo::Interruption)),
        Turn { commands: vec![], exit: Some(LoopExit::Interrupted) }
    );
    assert_eq!(
        state.turn(LoopEvent::UserClosed),
        Turn { commands: vec![], exit: Some(LoopExit::UserClosed) }
    );
    assert_eq!(
        state.turn(LoopEvent::ExecutorClosed),
        Turn { commands: vec![], exit: Some(LoopExit::ExecutorClosed) }
    );
}

#[test]
fn internal_names() {
    assert_eq!(Internal::from_str("back"), Ok(Internal::Back));
    assert_eq!(Internal::from_str("help"), Ok(Internal::Help));
    assert_eq!(Internal::from_str("quit"), Ok(Internal::Quit));
    assert_eq!(Internal::from_str("Quit"), Err(()));
    assert_eq!("help".parse::<Internal>(), Ok(Internal::Help));
    assert_eq!(Internal::Back.to_string(), "back to previous page or job");
    assert_eq!(Internal::Help.to_string(), "help");
    assert_eq!(Internal::Quit.to_string(), "quit");
}

#[test]
fn action_names_and_errors() {
    assert_eq!(Action::from_str("quit"), Ok(Action::Internal(Internal::Quit)));
    assert_eq!("back".parse::<Action>(), Ok(Action::Internal(Internal::Back)));
    assert_eq!(Action::from(Internal::Help), Action::Internal(Internal::Help));
    let error = Action::from_str("ru\"n").unwrap_err();
    assert_eq!(error, ParseActionError::UnknownAction("ru\"n".to_string()));
    assert_eq!(
        error.to_string(),
        "Action not understood: \"ru\\\"n\" (did you mean \"job:ru\"n\"?)"
    );
    assert_eq!(
        ParseActionError::UnknownCategory("c".to_string()).to_string(),
        "Unknown category: \"c\""
    );
    assert_eq!(
        ParseActionError::UnknownInternal("i".to_string()).to_string(),
        "Internal not understood: \"i\""
    );
}

#[test]
fn help_line_hints() {
    let line = HelpLine::new("ctrl-q", Some("h"), Some("esc"));
    assert_eq!(line.markdown(false), "Hit *ctrl-q* to quit, *h* for help");
    assert_eq!(line.markdown(true), "Hit *ctrl-q* to quit, *esc* to close this help");
    let line = HelpLine::new("q", Some("?"), None);
    assert_eq!(line.markdown(true), "Hit *q* to quit, *?* to close this help");
    let line = HelpLine::new("q", None, None);
    assert_eq!(line.markdown(false), "Hit *q* to quit");
    assert_eq!(line.markdown(true), "Hit *q* to quit");
    let line = HelpLine::new("q", None, Some("b"));
    assert_eq!(line.markdown(false), "Hit *q* to quit");
    assert_eq!(line.markdown(true), "Hit *q* to quit, *b* to close this help");
}

fn strings(values: &[&str]) -> Vec<String> {
    values.iter().map(|v| v.to_string()).collect()
}

#[test]
fn view_markdown_fences_code() {
    let mut view = ViewModel::new(80, 10);
    assert_eq!(view.build_md(), Vec::<String>::new());
    view.write_command_output("c1".to_string());
    view.write_command_output("c2".to_string());
    view.write_on(ExecutionItem::OutputString("t1".to_string()));
    view.write_on(ExecutionItem::OutputString("t2".to_string()));
    view.write_on(ExecutionItem::OutputCode("c3".to_string()));
    view.draw_executing();
    view.write_command_output("c4".to_string());
    view.lines.push(ViewLine::ClearLine);
    view.write_on(ExecutionItem::Execute(Executable::new(
        ExecutablePosition::new(0, 1),
        None,
        "code".to_string(),
    )));
    assert_eq!(
        view.build_md(),
        strings(&[
            "```", "c1", "c2", "```", "t1", "t2", "```", "c3", "~~~~~~~~~", "executing...",
            "~~~~~~~~~", "c4", "```", "code",
        ])
    );
    assert_eq!(view.lines[8], ViewLine::LineOutput("code".to_string()));
    assert_eq!(ViewLine::from(ExecutionItem::OutputCode("x".to_string())), ViewLine::CodeOutput("x".to_string()));
}

#[test]
fn view_scrolls_to_the_bottom() {
    let mut view = ViewModel::new(80, 5);
    assert_eq!(view.page_height(), 2);
    for i in 0..6 {
        view.write_command_output(format!("line {}", i));
    }
    assert_eq!(view.content_height(), 6);
    assert_eq!(view.scroll, 3);
    view.scroll = 100;
    view.fix_scroll();
    assert_eq!(view.scroll, 3);
    view.scroll = 1;
    view.fix_scroll();
    assert_eq!(view.scroll, 1);
    view.resize(40, 3);
    assert_eq!((view.width, view.height, view.scroll), (40, 3, 5));
    assert_eq!(view.page_height(), 0);
    view.resize(40, 20);
    assert_eq!(view.scroll, 0);
    view.scroll_to_bottom();
    assert_eq!(view.scroll, 0);
}

#[test]
fn pages_in_lines() {
    assert_eq!(lines_of_pages(1, 24), 24);
    assert_eq!(lines_of_pages(-1, 24), -24);
    assert_eq!(lines_of_pages(3, 0), 0);
    assert_eq!(lines_of_pages(i32::MAX, 2), i32::MAX);
    assert_eq!(lines_of_pages(i32::MIN, 65535), i32::MIN);
    assert_eq!(lines_of_pages(-32768, 65535), -2147450880);
}

#[test]
fn view_help_and_execution_marks() {
    let mut view = ViewModel::new(1, 1);
    assert!(!view.is_help());
    assert!(!view.close_help());
    view.toggle_help();
    assert!(view.is_help());
    assert!(view.close_help());
    assert!(!view.is_help());
    view.execution_starts();
    assert!(view.executing);
    view.execution_stops();
    assert!(!view.executing);
}

fn output(lines: &[&str]) -> CommandOutput {
    CommandOutput {
        lines: lines
            .iter()
            .map(|l| CommandOutputLine { content: l.to_string(), origin: CommandStream::StdErr })
            .collect(),
    }
}

#[test]
fn command_results() {
    let mut result = CommandResult::Report(Report { output: output(&["a", "b", "c"]) });
    assert_eq!(result.lines_len(), 3);
    assert_eq!(result.output(), Some(&output(&["a", "b", "c"])));
    assert!(result.report().is_some());
    result.reverse();
    assert_eq!(result.output(), Some(&output(&["c", "b", "a"])));
    let mut failed = CommandResult::Failure(Failure { error_code: 2, output: output(&["x", "y"]) });
    assert_eq!(failed.lines_len(), 2);
    assert!(failed.report().is_none());
    failed.reverse();
    assert_eq!(failed, CommandResult::Failure(Failure { error_code: 2, output: output(&["y", "x"]) }));
    let mut none = CommandResult::NotComputed;
    none.reverse();
    assert_eq!(none.lines_len(), 0);
    assert_eq!(none.output(), None);
    assert_eq!(CommandOutput::default().len(), 0);
    let made = CommandResult::new(output(&["a"]), Some(ProcessStatus { code: Some(3) }));
    assert_eq!(made, CommandResult::Report(Report { output: output(&["a"]) }));
    assert_eq!(CommandResult::new(output(&[]), None).lines_len(), 0);
}

#[test]
fn mission_of_a_job() {
    let location = JobLocation { workspace_root: "/w".to_string(), path_to_md: None };
    let attributes = Attributes { stdout: true, ..Attributes::default() };
    let item = Executable::new(
        ExecutablePosition::new(0, 1),
        Some(CodeChunk { lang: None, attributes }),
        String::new(),
    );
    let job = Job::new(&location, &item).unwrap();
    let place = MissionLocation { workspace_root: "/m".to_string(), path_to_md: None };
    let mission = Mission::new(&place, "build".to_string(), job);
    assert_eq!(mission.location_name, "");
    assert_eq!(mission.job_name, "build");
    assert_eq!(mission.workspace_root, "/m");
    assert_eq!(mission.on_success(), &None);
    assert!(!mission.allow_warnings());
    assert!(mission.need_stdout());
    assert_eq!(mission.location_name(), "");
    assert_eq!(mission.job_name(), "build");
    assert_eq!(mission.workspace_root(), "/m");
    let job = mission.job();
    assert_eq!(job.command(), &vec![String::new()]);
    assert!(!job.allow_errors());
    assert_eq!(job.executable(), &item);
    assert_eq!(job.location(), &location);
}

#[test]
fn names_are_read_through_the_standard_trait_too() {
    assert_eq!("back".parse::<Internal>(), Ok(Internal::Back));
    assert_eq!("quit".parse::<Internal>(), Ok(Internal::Quit));
    assert_eq!("".parse::<Internal>(), Err(()));
    assert_eq!("help".parse::<Action>(), Ok(Action::Internal(Internal::Help)));
    assert_eq!(
        "helper".parse::<Action>(),
        Err(ParseActionError::UnknownAction("helper".to_string()))
    );
}

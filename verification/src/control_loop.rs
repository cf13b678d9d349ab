//! The decisions of the control loop: what each event from the user or
//! from the worker does to the view, and when the loop ends.

use vstd::prelude::*;
use crate::cli::action::Action;
use crate::cli::internal::Internal;
use crate::executor::command_output::{CommandExecInfo, CommandExecInfoView};
use crate::executor::execution_plan::{ExecutionItem, ExecutionItemView};

verus! {

/// The keys that the loop tells apart.
#[derive(Debug, Clone, Copy, PartialEq, Eq, Structural)]
pub enum KeyCode {
    Up,
    Down,
    PageUp,
    PageDown,
    Other,
}

/// What the mouse did, as far as the loop reads it.
#[derive(Debug, Clone, Copy, PartialEq, Eq, Structural)]
pub enum MouseKind {
    ScrollDown,
    ScrollUp,
    Other,
}

/// An event of the user-input source.
#[derive(Debug, Clone, Copy, PartialEq, Eq, Structural)]
pub enum UserEvent {
    /// The terminal has a new size.
    Resize { width: u16, height: u16 },
    /// A key was pressed; `bound` is the action that the keybinding table
    /// gives for it.
    Key { code: KeyCode, bound: Option<Action> },
    /// The mouse was used.
    Mouse(MouseKind),
}

/// What one turn of the loop is served with.
#[derive(Debug, PartialEq, Eq)]
pub enum LoopEvent {
    /// The user-input source yielded an event.
    User(UserEvent),
    /// The user-input source is gone.
    UserClosed,
    /// The worker sent an event.
    Executor(CommandExecInfo),
    /// The worker's channel is gone.
    ExecutorClosed,
}

pub enum LoopEventView {
    User(UserEvent),
    UserClosed,
    Executor(CommandExecInfoView),
    ExecutorClosed,
}

impl View for LoopEvent {
    type V = LoopEventView;

    open spec fn view(&self) -> LoopEventView {
        match *self {
            LoopEvent::User(event) => LoopEventView::User(event),
            LoopEvent::UserClosed => LoopEventView::UserClosed,
            LoopEvent::Executor(info) => LoopEventView::Executor(info@),
            LoopEvent::ExecutorClosed => LoopEventView::ExecutorClosed,
        }
    }
}

/// One thing for the view, the writer or the input source to do.
#[derive(Debug, PartialEq, Eq)]
pub enum ViewCommand {
    /// Take the new size of the terminal.
    Resize { width: usize, height: usize },
    /// Scroll by so many lines; negative is up.
    ScrollLines(i32),
    /// Scroll by so many pages; negative is up.
    ScrollPages(i32),
    /// Draw the line of key hints.
    DrawHelpLine,
    /// Append a line that a command wrote, or an error, and redraw.
    WriteCommandOutput(String),
    /// Append an item of the plan and redraw.
    WriteOn(ExecutionItem),
    /// Mark that a command is executing.
    DrawExecuting,
    /// Clear the mark that a command is executing.
    ExecutionStops,
    /// Close the help overlay.
    CloseHelp,
    /// Open the help overlay if it is closed, close it if it is open.
    ToggleHelp,
    /// Redraw the view.
    Draw,
    /// Flush the writer.
    Flush,
    /// Let the input source read its next event.
    Unblock,
}

pub enum ViewCommandView {
    Resize { width: usize, height: usize },
    ScrollLines(int),
    ScrollPages(int),
    DrawHelpLine,
    WriteCommandOutput(Seq<char>),
    WriteOn(ExecutionItemView),
    DrawExecuting,
    ExecutionStops,
    CloseHelp,
    ToggleHelp,
    Draw,
    Flush,
    Unblock,
}

impl View for ViewCommand {
    type V = ViewCommandView;

    open spec fn view(&self) -> ViewCommandView {
        match *self {
            ViewCommand::Resize { width, height } => ViewCommandView::Resize { width, height },
            ViewCommand::ScrollLines(n) => ViewCommandView::ScrollLines(n as int),
            ViewCommand::ScrollPages(n) => ViewCommandView::ScrollPages(n as int),
            ViewCommand::DrawHelpLine => ViewCommandView::DrawHelpLine,
            ViewCommand::WriteCommandOutput(text) => ViewCommandView::WriteCommandOutput(text@),
            ViewCommand::WriteOn(item) => ViewCommandView::WriteOn(item@),
            ViewCommand::DrawExecuting => ViewCommandView::DrawExecuting,
            ViewCommand::ExecutionStops => ViewCommandView::ExecutionStops,
            ViewCommand::CloseHelp => ViewCommandView::CloseHelp,
            ViewCommand::ToggleHelp => ViewCommandView::ToggleHelp,
            ViewCommand::Draw => ViewCommandView::Draw,
            ViewCommand::Flush => ViewCommandView::Flush,
            ViewCommand::Unblock => ViewCommandView::Unblock,
        }
    }
}

/// Why the loop ended.
#[derive(Debug, Clone, Copy, PartialEq, Eq, Structural)]
pub enum LoopExit {
    /// The user asked to quit.
    Quit,
    /// The user went back with no help overlay open.
    Back,
    /// The worker reported an error.
    Failed,
    /// The worker reported that the command was interrupted.
    Interrupted,
    /// The user-input source is gone.
    UserClosed,
    /// The worker's channel is gone.
    ExecutorClosed,
}

/// What one turn of the loop decides.
#[derive(Debug, PartialEq, Eq)]
pub struct Turn {
    /// What to do, in this order.
    pub commands: Vec<ViewCommand>,
    /// Why the loop ends after these commands, if it does. The worker is
    /// shut down on every exit.
    pub exit: Option<LoopExit>,
}

/// The commands of a list, each by its view.
pub open spec fn commands_view(commands: Vec<ViewCommand>) -> Seq<ViewCommandView> {
    Seq::new(commands@.len(), |i: int| commands@[i]@)
}

/// The redraw and flush that close a turn after which the loop goes on.
pub open spec fn redraw() -> Seq<ViewCommandView> {
    seq![ViewCommandView::Draw, ViewCommandView::Flush]
}

/// What a user event does before any bound action is looked at.
pub open spec fn user_commands(event: UserEvent) -> Seq<ViewCommandView> {
    match event {
        UserEvent::Resize { width, height } => seq![
            ViewCommandView::Resize { width: width as usize, height: height as usize },
            ViewCommandView::Unblock,
        ],
        UserEvent::Key { code: KeyCode::Up, bound } => seq![
            ViewCommandView::ScrollLines(-1),
            ViewCommandView::Unblock,
        ],
        UserEvent::Key { code: KeyCode::Down, bound } => seq![
            ViewCommandView::ScrollLines(1),
            ViewCommandView::Unblock,
        ],
        UserEvent::Key { code: KeyCode::PageUp, bound } => seq![
            ViewCommandView::ScrollPages(-1),
            ViewCommandView::Unblock,
        ],
        UserEvent::Key { code: KeyCode::PageDown, bound } => seq![
            ViewCommandView::ScrollPages(1),
            ViewCommandView::Unblock,
        ],
        UserEvent::Key { code: KeyCode::Other, bound } => seq![ViewCommandView::Unblock],
        UserEvent::Mouse(MouseKind::ScrollDown) => seq![
            ViewCommandView::ScrollLines(1),
            ViewCommandView::Unblock,
        ],
        UserEvent::Mouse(MouseKind::ScrollUp) => seq![
            ViewCommandView::ScrollLines(-1),
            ViewCommandView::Unblock,
        ],
        UserEvent::Mouse(MouseKind::Other) => seq![ViewCommandView::Unblock],
    }
}

/// The action that a user event asks for: the one bound to a key that
/// does not scroll.
pub open spec fn requested(event: UserEvent) -> Option<Action> {
    match event {
        UserEvent::Key { code: KeyCode::Other, bound } => bound,
        _ => None,
    }
}

/// What the commands of a requested action are.
pub open spec fn action_commands(help_open: bool, action: Option<Action>) -> Seq<ViewCommandView> {
    match action {
        Some(Action::Internal(Internal::Back)) => if help_open {
            seq![ViewCommandView::CloseHelp]
        } else {
            Seq::empty()
        },
        Some(Action::Internal(Internal::Help)) => seq![ViewCommandView::ToggleHelp],
        Some(Action::Internal(Internal::Quit)) => Seq::empty(),
        None => Seq::empty(),
    }
}

/// Whether a requested action ends the loop, and why.
pub open spec fn action_exit(help_open: bool, action: Option<Action>) -> Option<LoopExit> {
    match action {
        Some(Action::Internal(Internal::Back)) => if help_open {
            None
        } else {
            Some(LoopExit::Back)
        },
        Some(Action::Internal(Internal::Help)) => None,
        Some(Action::Internal(Internal::Quit)) => Some(LoopExit::Quit),
        None => None,
    }
}

/// Whether the help overlay is open after a requested action.
pub open spec fn action_help(help_open: bool, action: Option<Action>) -> bool {
    match action {
        Some(Action::Internal(Internal::Back)) => false,
        Some(Action::Internal(Internal::Help)) => !help_open,
        _ => help_open,
    }
}

/// Why the loop ends on an event, if it does.
pub open spec fn turn_exit(help_open: bool, event: LoopEventView) -> Option<LoopExit> {
    match event {
        LoopEventView::User(user) => action_exit(help_open, requested(user)),
        LoopEventView::UserClosed => Some(LoopExit::UserClosed),
        LoopEventView::Executor(CommandExecInfoView::Error(_)) => Some(LoopExit::Failed),
        LoopEventView::Executor(CommandExecInfoView::Interruption) => Some(LoopExit::Interrupted),
        LoopEventView::Executor(_) => None,
        LoopEventView::ExecutorClosed => Some(LoopExit::ExecutorClosed),
    }
}

/// What an event of the worker does to the view.
pub open spec fn executor_commands(info: CommandExecInfoView) -> Seq<ViewCommandView> {
    match info {
        CommandExecInfoView::Line(line) => seq![
            ViewCommandView::DrawHelpLine,
            ViewCommandView::WriteCommandOutput(line.content),
            ViewCommandView::Flush,
        ],
        CommandExecInfoView::Output(item) => seq![
            ViewCommandView::DrawHelpLine,
            ViewCommandView::WriteOn(item),
            ViewCommandView::Flush,
        ],
        CommandExecInfoView::Start => seq![ViewCommandView::DrawExecuting, ViewCommandView::Flush],
        CommandExecInfoView::End { status } => seq![
            ViewCommandView::ExecutionStops,
            ViewCommandView::Flush,
        ],
        CommandExecInfoView::Error(message) => seq![
            ViewCommandView::WriteCommandOutput(message),
            ViewCommandView::ExecutionStops,
        ],
        CommandExecInfoView::Interruption => Seq::empty(),
    }
}

/// The commands of one turn: those of the event, those of the action it
/// asks for, and a redraw unless the loop ends.
pub open spec fn turn_commands(help_open: bool, event: LoopEventView) -> Seq<ViewCommandView> {
    let served = match event {
        LoopEventView::User(user) => user_commands(user) + action_commands(
            help_open,
            requested(user),
        ),
        LoopEventView::UserClosed => Seq::empty(),
        LoopEventView::Executor(info) => executor_commands(info),
        LoopEventView::ExecutorClosed => Seq::empty(),
    };
    if turn_exit(help_open, event) is Some {
        served
    } else {
        served + redraw()
    }
}

/// Whether the help overlay is open after an event.
pub open spec fn turn_help(help_open: bool, event: LoopEventView) -> bool {
    match event {
        LoopEventView::User(user) => action_help(help_open, requested(user)),
        _ => help_open,
    }
}

/// A turn after which the loop goes on ends with a redraw and a flush; a
/// turn that ends the loop does neither at its end. An error of the
/// worker is shown before the loop ends.
pub proof fn lemma_turn_redraws(help_open: bool, event: LoopEventView)
    ensures
        turn_exit(help_open, event) is None ==> {
            let commands = turn_commands(help_open, event);
            &&& commands.len() >= 2
            &&& commands[commands.len() - 2] == ViewCommandView::Draw
            &&& commands[commands.len() - 1] == ViewCommandView::Flush
        },
        turn_exit(help_open, event) is Some ==> turn_commands(help_open, event).len() == 0
            || turn_commands(help_open, event).last() != ViewCommandView::Flush,
        event matches LoopEventView::Executor(CommandExecInfoView::Error(message))
            ==> turn_exit(help_open, event) == Some(LoopExit::Failed) && turn_commands(
            help_open,
            event,
        )[0] == ViewCommandView::WriteCommandOutput(message),
{
}

/// Going back closes the help overlay where it is open, and ends the
/// loop where it is not.
pub proof fn lemma_back_closes_or_ends(help_open: bool, event: LoopEventView)
    requires
        event == LoopEventView::User(
            UserEvent::Key {
                code: KeyCode::Other,
                bound: Some(Action::Internal(Internal::Back)),
            },
        ),
    ensures
        !turn_help(help_open, event),
        help_open <==> turn_exit(help_open, event) is None,
{
}

/// The state that the loop keeps between turns.
#[derive(Debug, Clone, Copy, PartialEq, Eq, Structural)]
pub struct ControlLoop {
    /// Whether the help overlay is open.
    pub help_open: bool,
}

impl ControlLoop {
    /// The loop before its first turn: no help overlay.
    pub fn new() -> (res: ControlLoop)
        ensures
            !res.help_open,
    {
        ControlLoop { help_open: false }
    }

    /// Serves one event: says what to do with the view, the writer and the
    /// input source, and whether the loop ends.
    pub fn turn(&mut self, event: LoopEvent) -> (res: Turn)
        ensures
            commands_view(res.commands) == turn_commands(old(self).help_open, event@),
            res.exit == turn_exit(old(self).help_open, event@),
            final(self).help_open == turn_help(old(self).help_open, event@),
    {
        let mut commands: Vec<ViewCommand> = Vec::new();
        let mut exit: Option<LoopExit> = None;
        let ghost before = self.help_open;
        let ghost model = event@;
        match event {
            LoopEvent::User(user) => {
                let mut action: Option<Action> = None;
                match user {
                    UserEvent::Resize { width, height } => {
                        commands.push(
                            ViewCommand::Resize { width: width as usize, height: height as usize },
                        );
                    },
                    UserEvent::Key { code, bound } => match code {
                        KeyCode::Up => commands.push(ViewCommand::ScrollLines(-1)),
                        KeyCode::Down => commands.push(ViewCommand::ScrollLines(1)),
                        KeyCode::PageUp => commands.push(ViewCommand::ScrollPages(-1)),
                        KeyCode::PageDown => commands.push(ViewCommand::ScrollPages(1)),
                        KeyCode::Other => {
                            action = bound;
                        },
                    },
                    UserEvent::Mouse(kind) => match kind {
                        MouseKind::ScrollDown => commands.push(ViewCommand::ScrollLines(1)),
                        MouseKind::ScrollUp => commands.push(ViewCommand::ScrollLines(-1)),
                        MouseKind::Other => {},
                    },
                }
                commands.push(ViewCommand::Unblock);
                assert(commands_view(commands) =~= user_commands(user));
                assert(action == requested(user));
                match action {
                    Some(Action::Internal(Internal::Back)) => {
                        if self.help_open {
                            self.help_open = false;
                            commands.push(ViewCommand::CloseHelp);
                        } else {
                            exit = Some(LoopExit::Back);
                        }
                    },
                    Some(Action::Internal(Internal::Help)) => {
                        self.help_open = !self.help_open;
                        commands.push(ViewCommand::ToggleHelp);
                    },
                    Some(Action::Internal(Internal::Quit)) => {
                        exit = Some(LoopExit::Quit);
                    },
                    None => {},
                }
                assert(commands_view(commands) =~= user_commands(user) + action_commands(
                    before,
                    requested(user),
                ));
            },
            LoopEvent::UserClosed => {
                exit = Some(LoopExit::UserClosed);
                assert(commands_view(commands) =~= Seq::<ViewCommandView>::empty());
            },
            LoopEvent::Executor(info) => {
                match info {
                    CommandExecInfo::Line(line) => {
                        commands.push(ViewCommand::DrawHelpLine);
                        commands.push(ViewCommand::WriteCommandOutput(line.content));
                        commands.push(ViewCommand::Flush);
                    },
                    CommandExecInfo::Output(item) => {
                        commands.push(ViewCommand::DrawHelpLine);
                        commands.push(ViewCommand::WriteOn(item));
                        commands.push(ViewCommand::Flush);
                    },
                    CommandExecInfo::Start => {
                        commands.push(ViewCommand::DrawExecuting);
                        commands.push(ViewCommand::Flush);
                    },
                    CommandExecInfo::End { status } => {
                        commands.push(ViewCommand::ExecutionStops);
                        commands.push(ViewCommand::Flush);
                    },
                    CommandExecInfo::Error(message) => {
                        commands.push(ViewCommand::WriteCommandOutput(message));
                        commands.push(ViewCommand::ExecutionStops);
                        exit = Some(LoopExit::Failed);
                    },
                    CommandExecInfo::Interruption => {
                        exit = Some(LoopExit::Interrupted);
                    },
                }
                assert(commands_view(commands) =~= executor_commands(model->Executor_0));
            },
            LoopEvent::ExecutorClosed => {
                exit = Some(LoopExit::ExecutorClosed);
                assert(commands_view(commands) =~= Seq::<ViewCommandView>::empty());
            },
        }
        if exit.is_none() {
            let ghost served = commands_view(commands);
            commands.push(ViewCommand::Draw);
            commands.push(ViewCommand::Flush);
            assert(commands_view(commands) =~= served + redraw());
        }
        Turn { commands, exit }
    }
}

} // verus!

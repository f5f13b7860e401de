use vstd::prelude::*;
use crate::command::Message;

verus! {

/// The yes/no questions the controller asks.
#[derive(Clone, Copy, Debug, PartialEq, Eq, Structural)]
pub enum Prompt {
    /// Before New clears a non-empty buffer.
    DiscardChanges,
    /// Before Quit leaves unsaved edits behind.
    SaveBeforeQuit,
}

/// The file dialogs the controller opens.
#[derive(Clone, Copy, Debug, PartialEq, Eq, Structural)]
pub enum Picker {
    /// Pick an existing file to open.
    OpenFile,
    /// Pick a file to save to, confirming an overwrite.
    SaveFile,
}

/// Messages shown in an alert.
#[derive(Clone, Copy, Debug, PartialEq, Eq, Structural)]
pub enum Notice {
    /// The file picked for Open does not exist.
    FileMissing,
    /// The save target is gone from disk.
    NoSaveTarget,
    /// Writing the buffer failed.
    SaveFailed,
    /// Loading a file into the buffer failed; the session cannot go on.
    LoadFailed,
}

/// What the controller waits for between two events.
#[derive(Clone, Debug, PartialEq, Eq)]
pub enum Pending {
    /// Ready for the next command.
    Ready,
    /// New: waiting to hear whether the buffer is empty.
    NewInspect,
    /// New: waiting for the answer to `DiscardChanges`.
    NewConfirm,
    /// Open: waiting for the open picker.
    OpenPick,
    /// Open: waiting to hear whether the picked path exists.
    OpenProbe(String),
    /// Open: waiting for the load of the picked path.
    OpenLoad(String),
    /// Save: waiting to hear whether the current path still exists.
    SaveProbe { quit: bool },
    /// Save: waiting for the save picker.
    SavePick { quit: bool },
    /// Save: waiting for the write to `target`.
    SaveWrite { target: String, quit: bool },
    /// Quit: waiting for the answer to `SaveBeforeQuit`.
    QuitConfirm,
    /// The session has ended.
    Finished,
}

/// What the driver reports back: a command, or the outcome of the last action.
#[derive(Clone, Debug, PartialEq, Eq)]
pub enum Event {
    Command(Message),
    /// Whether the buffer is empty (after `InspectBuffer`).
    BufferEmpty(bool),
    /// Yes (`true`) or No to the last prompt.
    Answer(bool),
    /// The path chosen in the last picker; empty when it was cancelled.
    Picked(String),
    /// Whether the probed path exists on disk.
    Exists(bool),
    /// Whether the last load succeeded.
    Loaded(bool),
    /// Whether the last write succeeded.
    Written(bool),
}

/// The one side effect the driver performs after a step.
#[derive(Clone, Debug, PartialEq, Eq)]
pub enum Action {
    Nothing,
    /// Report whether the buffer is empty.
    InspectBuffer,
    Ask(Prompt),
    Pick(Picker),
    /// Report whether the path exists on disk.
    Probe(String),
    /// Load the file into the buffer and report the outcome.
    Load(String),
    /// Save the buffer to the file and report the outcome.
    Write(String),
    ClearBuffer,
    Cut,
    Copy,
    Paste,
    Alert(Notice),
    /// Show the alert, then end the process.
    AlertThenQuit(Notice),
    Terminate,
}

/// The document: its save target (empty when it was never saved), whether
/// the buffer holds edits not yet on disk, and the step in progress.
#[derive(Clone, Debug, PartialEq, Eq)]
pub struct Document {
    pub path: String,
    pub dirty: bool,
    pub pending: Pending,
}

pub open spec fn with_pending(d: Document, p: Pending) -> Document {
    Document { path: d.path, dirty: d.dirty, pending: p }
}

/// How Save begins, and Quit's save when the user asked for one: a dirty
/// document with a save target checks that the target still exists; any
/// other document asks for a target.
pub open spec fn save_start(d: Document, quit: bool) -> (Document, Action) {
    if d.dirty && d.path@.len() > 0 {
        (with_pending(d, Pending::SaveProbe { quit }), Action::Probe(d.path))
    } else {
        (with_pending(d, Pending::SavePick { quit }), Action::Pick(Picker::SaveFile))
    }
}

/// A command taken while the controller is ready.
pub open spec fn command_transition(d: Document, m: Message) -> (Document, Action) {
    match m {
        Message::Changed => (Document { path: d.path, dirty: true, pending: d.pending }, Action::Nothing),
        Message::New => (with_pending(d, Pending::NewInspect), Action::InspectBuffer),
        Message::Open => (with_pending(d, Pending::OpenPick), Action::Pick(Picker::OpenFile)),
        Message::Save | Message::SaveAs => save_start(d, false),
        Message::Quit => if d.dirty {
            (with_pending(d, Pending::QuitConfirm), Action::Ask(Prompt::SaveBeforeQuit))
        } else {
            (with_pending(d, Pending::Finished), Action::Terminate)
        },
        Message::Cut => (d, Action::Cut),
        Message::Copy => (d, Action::Copy),
        Message::Paste => (d, Action::Paste),
        Message::Config => (d, Action::Nothing),
    }
}

/// How a save ends: the session goes on, or ends when the save was part of
/// Quit.
pub open spec fn save_end(d: Document, quit: bool, notice: Option<Notice>) -> (Document, Action) {
    if quit {
        (
            with_pending(d, Pending::Finished),
            match notice {
                Some(n) => Action::AlertThenQuit(n),
                None => Action::Terminate,
            },
        )
    } else {
        (
            with_pending(d, Pending::Ready),
            match notice {
                Some(n) => Action::Alert(n),
                None => Action::Nothing,
            },
        )
    }
}

/// The outcome of an action, given the step it answers. An outcome that
/// answers no step in progress is ignored.
pub open spec fn reply_transition(d: Document, e: Event) -> (Document, Action) {
    match (d.pending, e) {
        (Pending::NewInspect, Event::BufferEmpty(empty)) => if empty {
            (with_pending(d, Pending::Ready), Action::Nothing)
        } else {
            (with_pending(d, Pending::NewConfirm), Action::Ask(Prompt::DiscardChanges))
        },
        (Pending::NewConfirm, Event::Answer(yes)) => (
            with_pending(d, Pending::Ready),
            if yes { Action::ClearBuffer } else { Action::Nothing },
        ),
        (Pending::OpenPick, Event::Picked(p)) => if p@.len() == 0 {
            (with_pending(d, Pending::Ready), Action::Nothing)
        } else {
            (with_pending(d, Pending::OpenProbe(p)), Action::Probe(p))
        },
        (Pending::OpenProbe(p), Event::Exists(found)) => if found {
            (with_pending(d, Pending::OpenLoad(p)), Action::Load(p))
        } else {
            (with_pending(d, Pending::Ready), Action::Alert(Notice::FileMissing))
        },
        (Pending::OpenLoad(p), Event::Loaded(ok)) => if ok {
            (Document { path: p, dirty: false, pending: Pending::Ready }, Action::Nothing)
        } else {
            (with_pending(d, Pending::Finished), Action::AlertThenQuit(Notice::LoadFailed))
        },
        (Pending::SaveProbe { quit }, Event::Exists(found)) => if found {
            (with_pending(d, Pending::SaveWrite { target: d.path, quit }), Action::Write(d.path))
        } else {
            save_end(d, quit, Some(Notice::NoSaveTarget))
        },
        (Pending::SavePick { quit }, Event::Picked(p)) => if p@.len() == 0 {
            save_end(d, quit, None)
        } else {
            (with_pending(d, Pending::SaveWrite { target: p, quit }), Action::Write(p))
        },
        (Pending::SaveWrite { target, quit }, Event::Written(ok)) => if ok {
            save_end(Document { path: target, dirty: false, pending: d.pending }, quit, None)
        } else {
            save_end(d, quit, Some(Notice::SaveFailed))
        },
        (Pending::QuitConfirm, Event::Answer(yes)) => if yes {
            save_start(d, true)
        } else {
            (with_pending(d, Pending::Finished), Action::Terminate)
        },
        _ => (d, Action::Nothing),
    }
}

/// One step of the controller. A finished session ignores everything;
/// `Changed` marks the document dirty whatever is in progress; any other
/// command is taken only when the controller is ready.
pub open spec fn transition(d: Document, e: Event) -> (Document, Action) {
    if d.pending == Pending::Finished {
        (d, Action::Nothing)
    } else {
        match e {
            Event::Command(m) => if m == Message::Changed || d.pending == Pending::Ready {
                command_transition(d, m)
            } else {
                (d, Action::Nothing)
            },
            _ => reply_transition(d, e),
        }
    }
}

/// The file named on the command line, if any: the first argument after the
/// program name.
pub fn startup_path(args: &Vec<String>) -> (r: Option<String>)
    ensures
        args.len() > 1 ==> r == Some(args[1]),
        args.len() <= 1 ==> r is None,
{
    if args.len() > 1 {
        Some(args[1].clone())
    } else {
        None
    }
}

impl Document {
    /// A document that was never saved: no save target, no edits.
    pub fn new() -> (r: Document)
        ensures
            r.path@.len() == 0,
            !r.dirty,
            r.pending == Pending::Ready,
    {
        Document { path: String::new(), dirty: false, pending: Pending::Ready }
    }

    /// A document whose buffer was just loaded from `path`.
    pub fn opened(path: String) -> (r: Document)
        ensures
            r.path == path,
            !r.dirty,
            r.pending == Pending::Ready,
    {
        Document { path, dirty: false, pending: Pending::Ready }
    }

    pub fn is_finished(&self) -> (r: bool)
        ensures
            r == (self.pending == Pending::Finished),
    {
        match self.pending {
            Pending::Finished => true,
            _ => false,
        }
    }

    fn start_save(&mut self, quit: bool) -> (r: Action)
        ensures
            (*final(self), r) == save_start(*old(self), quit),
    {
        if self.dirty && !self.path.as_str().is_empty() {
            self.pending = Pending::SaveProbe { quit };
            Action::Probe(self.path.clone())
        } else {
            self.pending = Pending::SavePick { quit };
            Action::Pick(Picker::SaveFile)
        }
    }

    fn end_save(&mut self, quit: bool, notice: Option<Notice>) -> (r: Action)
        ensures
            (*final(self), r) == save_end(*old(self), quit, notice),
    {
        if quit {
            self.pending = Pending::Finished;
            match notice {
                Some(n) => Action::AlertThenQuit(n),
                None => Action::Terminate,
            }
        } else {
            self.pending = Pending::Ready;
            match notice {
                Some(n) => Action::Alert(n),
                None => Action::Nothing,
            }
        }
    }

    fn take_command(&mut self, m: Message) -> (r: Action)
        ensures
            (*final(self), r) == command_transition(*old(self), m),
    {
        match m {
            Message::Changed => {
                self.dirty = true;
                Action::Nothing
            },
            Message::New => {
                self.pending = Pending::NewInspect;
                Action::InspectBuffer
            },
            Message::Open => {
                self.pending = Pending::OpenPick;
                Action::Pick(Picker::OpenFile)
            },
            Message::Save | Message::SaveAs => self.start_save(false),
            Message::Quit => {
                if self.dirty {
                    self.pending = Pending::QuitConfirm;
                    Action::Ask(Prompt::SaveBeforeQuit)
                } else {
                    self.pending = Pending::Finished;
                    Action::Terminate
                }
            },
            Message::Cut => Action::Cut,
            Message::Copy => Action::Copy,
            Message::Paste => Action::Paste,
            Message::Config => Action::Nothing,
        }
    }

    fn take_reply(&mut self, e: Event) -> (r: Action)
        ensures
            (*final(self), r) == reply_transition(*old(self), e),
    {
        match (&self.pending, e) {
            (Pending::NewInspect, Event::BufferEmpty(empty)) => {
                if empty {
                    self.pending = Pending::Ready;
                    Action::Nothing
                } else {
                    self.pending = Pending::NewConfirm;
                    Action::Ask(Prompt::DiscardChanges)
                }
            },
            (Pending::NewConfirm, Event::Answer(yes)) => {
                self.pending = Pending::Ready;
                if yes {
                    Action::ClearBuffer
                } else {
                    Action::Nothing
                }
            },
            (Pending::OpenPick, Event::Picked(p)) => {
                if p.as_str().is_empty() {
                    self.pending = Pending::Ready;
                    Action::Nothing
                } else {
                    self.pending = Pending::OpenProbe(p.clone());
                    Action::Probe(p)
                }
            },
            (Pending::OpenProbe(p), Event::Exists(found)) => {
                if found {
                    let p = p.clone();
                    self.pending = Pending::OpenLoad(p.clone());
                    Action::Load(p)
                } else {
                    self.pending = Pending::Ready;
                    Action::Alert(Notice::FileMissing)
                }
            },
            (Pending::OpenLoad(p), Event::Loaded(ok)) => {
                if ok {
                    self.path = p.clone();
                    self.dirty = false;
                    self.pending = Pending::Ready;
                    Action::Nothing
                } else {
                    self.pending = Pending::Finished;
                    Action::AlertThenQuit(Notice::LoadFailed)
                }
            },
            (Pending::SaveProbe { quit }, Event::Exists(found)) => {
                let quit = *quit;
                if found {
                    self.pending = Pending::SaveWrite { target: self.path.clone(), quit };
                    Action::Write(self.path.clone())
                } else {
                    self.end_save(quit, Some(Notice::NoSaveTarget))
                }
            },
            (Pending::SavePick { quit }, Event::Picked(p)) => {
                let quit = *quit;
                if p.as_str().is_empty() {
                    self.end_save(quit, None)
                } else {
                    self.pending = Pending::SaveWrite { target: p.clone(), quit };
                    Action::Write(p)
                }
            },
            (Pending::SaveWrite { target, quit }, Event::Written(ok)) => {
                let quit = *quit;
                if ok {
                    self.path = target.clone();
                    self.dirty = false;
                    self.end_save(quit, None)
                } else {
                    self.end_save(quit, Some(Notice::SaveFailed))
                }
            },
            (Pending::QuitConfirm, Event::Answer(yes)) => {
                if yes {
                    self.start_save(true)
                } else {
                    self.pending = Pending::Finished;
                    Action::Terminate
                }
            },
            _ => Action::Nothing,
        }
    }

    /// Takes one event and returns the side effect the driver performs next.
    pub fn step(&mut self, e: Event) -> (r: Action)
        ensures
            (*final(self), r) == transition(*old(self), e),
    {
        if self.is_finished() {
            return Action::Nothing;
        }
        let ready = match self.pending {
            Pending::Ready => true,
            _ => false,
        };
        match e {
            Event::Command(m) => {
                if m == Message::Changed || ready {
                    self.take_command(m)
                } else {
                    Action::Nothing
                }
            },
            _ => self.take_reply(e),
        }
    }
}

} // verus!

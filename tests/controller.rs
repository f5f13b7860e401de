use abl_editor::{
    startup_path, Action, Document, Event, Message, Notice, Pending, Picker, Prompt,
};

fn cmd(m: Message) -> Event {
    Event::Command(m)
}

fn dirty_at(path: &str) -> Document {
    Document { path: path.to_string(), dirty: true, pending: Pending::Ready }
}

#[test]
fn fresh_document_save_goes_through_picker() {
    let mut d = Document::new();
    assert_eq!(d.path, "");
    assert!(!d.dirty);
    assert_eq!(d.step(cmd(Message::Changed)), Action::Nothing);
    assert!(d.dirty);
    assert_eq!(d.step(cmd(Message::Save)), Action::Pick(Picker::SaveFile));
    assert_eq!(
        d.step(Event::Picked("/tmp/a.txt".to_string())),
        Action::Write("/tmp/a.txt".to_string())
    );
    assert_eq!(d.step(Event::Written(true)), Action::Nothing);
    assert_eq!(d.path, "/tmp/a.txt");
    assert!(!d.dirty);
    assert_eq!(d.pending, Pending::Ready);
}

#[test]
fn startup_file_quit_clean_terminates_without_dialog() {
    let args = vec!["editor".to_string(), "/tmp/a.txt".to_string()];
    let path = startup_path(&args).unwrap();
    let mut d = Document::opened(path);
    assert_eq!(d.path, "/tmp/a.txt");
    assert!(!d.dirty);
    assert_eq!(d.step(cmd(Message::Quit)), Action::Terminate);
    assert!(d.is_finished());
}

#[test]
fn save_to_deleted_file_alerts_and_stays_dirty() {
    let mut d = dirty_at("/tmp/missing.txt");
    assert_eq!(
        d.step(cmd(Message::Save)),
        Action::Probe("/tmp/missing.txt".to_string())
    );
    assert_eq!(d.step(Event::Exists(false)), Action::Alert(Notice::NoSaveTarget));
    assert!(d.dirty);
    assert_eq!(d.path, "/tmp/missing.txt");
    assert_eq!(d.pending, Pending::Ready);
}

#[test]
fn startup_path_takes_first_argument() {
    assert_eq!(startup_path(&vec!["editor".to_string()]), None);
    assert_eq!(startup_path(&vec![]), None);
    let args = vec!["editor".to_string(), "x.txt".to_string(), "y.txt".to_string()];
    assert_eq!(startup_path(&args), Some("x.txt".to_string()));
}

#[test]
fn changes_keep_dirty_until_save() {
    let mut d = Document::opened("/tmp/f.txt".to_string());
    for _ in 0..3 {
        d.step(cmd(Message::Changed));
        assert!(d.dirty);
    }
    d.step(cmd(Message::Cut));
    d.step(cmd(Message::Open));
    d.step(Event::Picked(String::new()));
    assert!(d.dirty);
    d.step(cmd(Message::Save));
    d.step(Event::Exists(true));
    assert!(d.dirty);
    d.step(Event::Written(false));
    assert!(d.dirty);
    d.step(cmd(Message::Save));
    d.step(Event::Exists(true));
    d.step(Event::Written(true));
    assert!(!d.dirty);
}

#[test]
fn changed_marks_dirty_while_a_step_is_pending() {
    let mut d = Document::new();
    d.step(cmd(Message::Open));
    assert_eq!(d.step(cmd(Message::Changed)), Action::Nothing);
    assert!(d.dirty);
    assert_eq!(d.pending, Pending::OpenPick);
}

#[test]
fn quit_dirty_prompts_then_saves_once() {
    let mut d = dirty_at("/tmp/f.txt");
    assert_eq!(d.step(cmd(Message::Quit)), Action::Ask(Prompt::SaveBeforeQuit));
    assert_eq!(d.step(Event::Answer(true)), Action::Probe("/tmp/f.txt".to_string()));
    assert_eq!(d.step(Event::Exists(true)), Action::Write("/tmp/f.txt".to_string()));
    assert_eq!(d.step(Event::Written(true)), Action::Terminate);
    assert!(d.is_finished());
    assert_eq!(d.step(cmd(Message::Save)), Action::Nothing);
    assert_eq!(d.step(cmd(Message::Quit)), Action::Nothing);
}

#[test]
fn quit_dirty_discard_terminates_without_write() {
    let mut d = dirty_at("/tmp/f.txt");
    assert_eq!(d.step(cmd(Message::Quit)), Action::Ask(Prompt::SaveBeforeQuit));
    assert_eq!(d.step(Event::Answer(false)), Action::Terminate);
    assert!(d.is_finished());
    assert!(d.dirty);
}

#[test]
fn quit_save_failure_alerts_then_quits() {
    let mut d = Document::new();
    d.step(cmd(Message::Changed));
    d.step(cmd(Message::Quit));
    assert_eq!(d.step(Event::Answer(true)), Action::Pick(Picker::SaveFile));
    assert_eq!(d.step(Event::Picked("/tmp/b.txt".to_string())), Action::Write("/tmp/b.txt".to_string()));
    assert_eq!(d.step(Event::Written(false)), Action::AlertThenQuit(Notice::SaveFailed));
    assert!(d.is_finished());
}

#[test]
fn quit_save_cancelled_picker_quits() {
    let mut d = Document::new();
    d.step(cmd(Message::Changed));
    d.step(cmd(Message::Quit));
    d.step(Event::Answer(true));
    assert_eq!(d.step(Event::Picked(String::new())), Action::Terminate);
}

#[test]
fn quit_save_missing_target_alerts_then_quits() {
    let mut d = dirty_at("/tmp/gone.txt");
    d.step(cmd(Message::Quit));
    d.step(Event::Answer(true));
    assert_eq!(d.step(Event::Exists(false)), Action::AlertThenQuit(Notice::NoSaveTarget));
}

#[test]
fn save_as_without_target_picks() {
    let mut d = Document::new();
    d.step(cmd(Message::Changed));
    assert_eq!(d.step(cmd(Message::SaveAs)), Action::Pick(Picker::SaveFile));
    assert_eq!(d.pending, Pending::SavePick { quit: false });
    assert_eq!(d.step(Event::Picked(String::new())), Action::Nothing);
    assert_eq!(d.pending, Pending::Ready);
    assert!(d.dirty);
}

#[test]
fn save_clean_document_forces_picker() {
    let mut d = Document::opened("/tmp/f.txt".to_string());
    assert_eq!(d.step(cmd(Message::Save)), Action::Pick(Picker::SaveFile));
    assert_eq!(d.step(Event::Picked("/tmp/g.txt".to_string())), Action::Write("/tmp/g.txt".to_string()));
    assert_eq!(d.step(Event::Written(true)), Action::Nothing);
    assert_eq!(d.path, "/tmp/g.txt");
}

#[test]
fn save_failure_keeps_target_and_alerts() {
    let mut d = Document::new();
    d.step(cmd(Message::Changed));
    d.step(cmd(Message::Save));
    d.step(Event::Picked("/tmp/c.txt".to_string()));
    assert_eq!(d.step(Event::Written(false)), Action::Alert(Notice::SaveFailed));
    assert_eq!(d.path, "");
    assert!(d.dirty);
}

#[test]
fn open_then_save_writes_back_same_file() {
    let mut d = Document::new();
    assert_eq!(d.step(cmd(Message::Open)), Action::Pick(Picker::OpenFile));
    assert_eq!(d.step(Event::Picked("/tmp/f.txt".to_string())), Action::Probe("/tmp/f.txt".to_string()));
    assert_eq!(d.step(Event::Exists(true)), Action::Load("/tmp/f.txt".to_string()));
    assert_eq!(d.step(Event::Loaded(true)), Action::Nothing);
    assert_eq!(d.path, "/tmp/f.txt");
    assert!(!d.dirty);
    assert_eq!(d.step(cmd(Message::Save)), Action::Pick(Picker::SaveFile));
    assert_eq!(d.step(Event::Picked("/tmp/f.txt".to_string())), Action::Write("/tmp/f.txt".to_string()));
}

#[test]
fn open_missing_file_alerts() {
    let mut d = Document::new();
    d.step(cmd(Message::Open));
    d.step(Event::Picked("/tmp/none.txt".to_string()));
    assert_eq!(d.step(Event::Exists(false)), Action::Alert(Notice::FileMissing));
    assert_eq!(d.path, "");
    assert_eq!(d.pending, Pending::Ready);
}

#[test]
fn open_cancelled_does_nothing() {
    let mut d = dirty_at("/tmp/f.txt");
    d.step(cmd(Message::Open));
    assert_eq!(d.step(Event::Picked(String::new())), Action::Nothing);
    assert_eq!(d.path, "/tmp/f.txt");
    assert!(d.dirty);
}

#[test]
fn open_load_failure_ends_session() {
    let mut d = Document::new();
    d.step(cmd(Message::Open));
    d.step(Event::Picked("/tmp/f.txt".to_string()));
    d.step(Event::Exists(true));
    assert_eq!(d.step(Event::Loaded(false)), Action::AlertThenQuit(Notice::LoadFailed));
    assert!(d.is_finished());
    assert_eq!(d.path, "");
}

#[test]
fn new_on_empty_buffer_does_nothing() {
    let mut d = Document::new();
    assert_eq!(d.step(cmd(Message::New)), Action::InspectBuffer);
    assert_eq!(d.step(Event::BufferEmpty(true)), Action::Nothing);
    assert_eq!(d.pending, Pending::Ready);
}

#[test]
fn new_on_filled_buffer_asks_before_clearing() {
    let mut d = dirty_at("/tmp/f.txt");
    d.step(cmd(Message::New));
    assert_eq!(d.step(Event::BufferEmpty(false)), Action::Ask(Prompt::DiscardChanges));
    assert_eq!(d.step(Event::Answer(true)), Action::ClearBuffer);
    assert!(d.dirty);
    d.step(cmd(Message::New));
    d.step(Event::BufferEmpty(false));
    assert_eq!(d.step(Event::Answer(false)), Action::Nothing);
}

#[test]
fn clipboard_commands_delegate() {
    let mut d = Document::new();
    assert_eq!(d.step(cmd(Message::Cut)), Action::Cut);
    assert_eq!(d.step(cmd(Message::Copy)), Action::Copy);
    assert_eq!(d.step(cmd(Message::Paste)), Action::Paste);
    assert_eq!(d.step(cmd(Message::Config)), Action::Nothing);
    assert!(!d.dirty);
}

#[test]
fn stray_replies_and_commands_are_ignored() {
    let mut d = Document::new();
    assert_eq!(d.step(Event::Answer(true)), Action::Nothing);
    assert_eq!(d.step(Event::Written(true)), Action::Nothing);
    assert_eq!(d.pending, Pending::Ready);
    d.step(cmd(Message::Open));
    assert_eq!(d.step(cmd(Message::Quit)), Action::Nothing);
    assert_eq!(d.step(Event::Exists(true)), Action::Nothing);
    assert_eq!(d.pending, Pending::OpenPick);
}

//! Document-state controller of a small text editor, with the drag-and-drop
//! session that feeds it, as explicit state machines.
mod command;
mod config;
mod dnd;
mod document;
mod laws;

pub use command::Message;
pub use config::{settle_config, Configuration};
pub use dnd::{drop_transition, DndEvent, DropResponse, DropSession, DropStage};
pub use document::{
    command_transition, reply_transition, save_end, save_start, startup_path, transition,
    with_pending, Action, Document, Event, Notice, Pending, Picker, Prompt,
};
pub use laws::{
    confirms_persist, drop_run, is_prompt, is_write, lemma_changed_marks_dirty,
    lemma_changes_keep_dirty, lemma_dirty_cleared_only_by_persist, lemma_dirty_until_persist,
    lemma_finished_is_final, lemma_load_then_save, lemma_no_enter_no_drop,
    lemma_no_release_no_drop, lemma_paste_outside_drop_passes, lemma_quit_clean_terminates,
    lemma_quit_dirty_prompts, lemma_quit_save_writes_at_most_once,
    lemma_save_missing_target_alerts, lemma_save_without_target_picks, quitting, run,
    run_actions, write_count,
};

use vstd::prelude::*;
use crate::command::Message;
use crate::dnd::{drop_transition, DndEvent, DropResponse, DropStage};
use crate::document::{
    transition, with_pending, Action, Document, Event, Notice, Pending, Picker, Prompt,
};

verus! {

/// The document after the controller has taken each event of `es` in turn.
pub open spec fn run(d: Document, es: Seq<Event>) -> Document
    decreases es.len(),
{
    if es.len() == 0 {
        d
    } else {
        run(transition(d, es[0]).0, es.drop_first())
    }
}

/// The side effects the controller asks for while taking each event of `es`.
pub open spec fn run_actions(d: Document, es: Seq<Event>) -> Seq<Action>
    decreases es.len(),
{
    if es.len() == 0 {
        Seq::empty()
    } else {
        seq![transition(d, es[0]).1] + run_actions(transition(d, es[0]).0, es.drop_first())
    }
}

proof fn lemma_run_actions_len(d: Document, es: Seq<Event>)
    ensures
        run_actions(d, es).len() == es.len(),
    decreases es.len(),
{
    if es.len() > 0 {
        lemma_run_actions_len(transition(d, es[0]).0, es.drop_first());
    }
}

/// Whether the event reports a successful load or a successful write.
pub open spec fn confirms_persist(e: Event) -> bool {
    e == Event::Loaded(true) || e == Event::Written(true)
}

pub open spec fn is_write(a: Action) -> bool {
    a is Write
}

pub open spec fn is_prompt(a: Action) -> bool {
    a is Ask
}

/// The number of writes in a list of side effects.
pub open spec fn write_count(acts: Seq<Action>) -> nat
    decreases acts.len(),
{
    if acts.len() == 0 {
        0
    } else {
        (if is_write(acts[0]) { 1nat } else { 0nat }) + write_count(acts.drop_first())
    }
}

/// A `Changed` command marks any unfinished document dirty.
pub proof fn lemma_changed_marks_dirty(d: Document)
    requires
        d.pending != Pending::Finished,
    ensures
        transition(d, Event::Command(Message::Changed)).0.dirty,
        transition(d, Event::Command(Message::Changed)).0.path == d.path,
        transition(d, Event::Command(Message::Changed)).0.pending == d.pending,
{
}

/// Only a successful load or write clears the dirty flag in one step.
pub proof fn lemma_dirty_cleared_only_by_persist(d: Document, e: Event)
    requires
        d.dirty,
        !transition(d, e).0.dirty,
    ensures
        confirms_persist(e),
{
}

/// Once dirty, a document stays dirty through any run of events that holds
/// no successful load or write.
pub proof fn lemma_dirty_until_persist(d: Document, es: Seq<Event>)
    requires
        d.dirty,
        forall|i: int| 0 <= i < es.len() ==> !confirms_persist(#[trigger] es[i]),
    ensures
        run(d, es).dirty,
    decreases es.len(),
{
    if es.len() > 0 {
        lemma_dirty_cleared_only_by_persist_contra(d, es[0]);
        let rest = es.drop_first();
        assert forall|i: int| 0 <= i < rest.len() implies !confirms_persist(#[trigger] rest[i]) by {
            assert(rest[i] == es[i + 1]);
        }
        lemma_dirty_until_persist(transition(d, es[0]).0, rest);
    }
}

proof fn lemma_dirty_cleared_only_by_persist_contra(d: Document, e: Event)
    requires
        d.dirty,
        !confirms_persist(e),
    ensures
        transition(d, e).0.dirty,
{
    if !transition(d, e).0.dirty {
        lemma_dirty_cleared_only_by_persist(d, e);
    }
}

/// A run of `Changed` commands leaves an unfinished document dirty, and so
/// does anything after it that holds no successful load or write.
pub proof fn lemma_changes_keep_dirty(d: Document, es: Seq<Event>)
    requires
        d.pending != Pending::Finished,
        es.len() > 0,
        es[0] == Event::Command(Message::Changed),
        forall|i: int| 0 <= i < es.len() ==> !confirms_persist(#[trigger] es[i]),
    ensures
        run(d, es).dirty,
{
    lemma_changed_marks_dirty(d);
    let rest = es.drop_first();
    assert forall|i: int| 0 <= i < rest.len() implies !confirms_persist(#[trigger] rest[i]) by {
        assert(rest[i] == es[i + 1]);
    }
    lemma_dirty_until_persist(transition(d, es[0]).0, rest);
}

/// A finished session ignores every later event.
pub proof fn lemma_finished_is_final(d: Document, es: Seq<Event>)
    requires
        d.pending == Pending::Finished,
    ensures
        run(d, es) == d,
        forall|i: int| 0 <= i < es.len() ==> #[trigger] run_actions(d, es)[i] == Action::Nothing,
    decreases es.len(),
{
    if es.len() > 0 {
        let rest = es.drop_first();
        lemma_finished_is_final(d, rest);
        lemma_run_actions_len(d, rest);
        assert forall|i: int| 0 <= i < es.len() implies #[trigger] run_actions(d, es)[i]
            == Action::Nothing by {
            if i > 0 {
                assert(run_actions(d, es)[i] == run_actions(d, rest)[i - 1]);
            }
        }
    }
}

/// Quit on a clean document ends the session at once, with no prompt.
pub proof fn lemma_quit_clean_terminates(d: Document)
    requires
        d.pending == Pending::Ready,
        !d.dirty,
    ensures
        transition(d, Event::Command(Message::Quit)) == (
            with_pending(d, Pending::Finished),
            Action::Terminate,
        ),
{
}

/// Quit on a dirty document asks once whether to save. No ends the session
/// without a write; Yes starts the save that belongs to Quit.
pub proof fn lemma_quit_dirty_prompts(d: Document)
    requires
        d.pending == Pending::Ready,
        d.dirty,
    ensures
        transition(d, Event::Command(Message::Quit)) == (
            with_pending(d, Pending::QuitConfirm),
            Action::Ask(Prompt::SaveBeforeQuit),
        ),
        transition(with_pending(d, Pending::QuitConfirm), Event::Answer(false)) == (
            with_pending(d, Pending::Finished),
            Action::Terminate,
        ),
        transition(with_pending(d, Pending::QuitConfirm), Event::Answer(true)).0.pending
            == (Pending::SaveProbe { quit: true }) || transition(
            with_pending(d, Pending::QuitConfirm),
            Event::Answer(true),
        ).0.pending == (Pending::SavePick { quit: true }),
{
}

/// The stages of the save that Quit makes, and the end of the session.
pub open spec fn quitting(p: Pending) -> bool {
    ||| p == (Pending::SaveProbe { quit: true })
    ||| p == (Pending::SavePick { quit: true })
    ||| (p is SaveWrite && p->SaveWrite_quit)
    ||| p == Pending::Finished
}

/// Once the save that belongs to Quit has begun, no event brings a prompt,
/// at most one write is made, and the session stays on its way out.
pub proof fn lemma_quit_save_writes_at_most_once(d: Document, es: Seq<Event>)
    requires
        quitting(d.pending),
    ensures
        write_count(run_actions(d, es)) <= (if d.pending is SaveWrite || d.pending
            == Pending::Finished { 0nat } else { 1nat }),
        forall|i: int| 0 <= i < es.len() ==> !is_prompt(#[trigger] run_actions(d, es)[i]),
        quitting(run(d, es).pending),
    decreases es.len(),
{
    if es.len() > 0 {
        let (d2, a) = transition(d, es[0]);
        let rest = es.drop_first();
        lemma_quit_save_writes_at_most_once(d2, rest);
        lemma_run_actions_len(d2, rest);
        assert(run_actions(d, es) == seq![a] + run_actions(d2, rest));
        assert(run_actions(d, es).drop_first() == run_actions(d2, rest));
        assert forall|i: int| 0 <= i < es.len() implies !is_prompt(
            #[trigger] run_actions(d, es)[i],
        ) by {
            if i > 0 {
                assert(run_actions(d, es)[i] == run_actions(d2, rest)[i - 1]);
            }
        }
    }
}

/// Save on a document with no save target opens the save picker and writes
/// nothing.
pub proof fn lemma_save_without_target_picks(d: Document, m: Message)
    requires
        d.pending == Pending::Ready,
        d.path@.len() == 0,
        m == Message::Save || m == Message::SaveAs,
    ensures
        transition(d, Event::Command(m)) == (
            with_pending(d, Pending::SavePick { quit: false }),
            Action::Pick(Picker::SaveFile),
        ),
{
}

/// Save on a dirty document whose target has gone from disk writes nothing
/// and alerts, leaving the document dirty with the same target.
pub proof fn lemma_save_missing_target_alerts(d: Document, m: Message)
    requires
        d.pending == Pending::Ready,
        d.dirty,
        d.path@.len() > 0,
        m == Message::Save || m == Message::SaveAs,
    ensures
        transition(d, Event::Command(m)) == (
            with_pending(d, Pending::SaveProbe { quit: false }),
            Action::Probe(d.path),
        ),
        transition(with_pending(d, Pending::SaveProbe { quit: false }), Event::Exists(false))
            == (d, Action::Alert(Notice::NoSaveTarget)),
{
}

/// After a file is loaded, saving it at once writes the buffer back to the
/// same file, with nothing cleared or loaded in between.
pub proof fn lemma_load_then_save(d: Document, p: String, m: Message)
    requires
        d.pending == Pending::OpenLoad(p),
        p@.len() > 0,
        m == Message::Save || m == Message::SaveAs,
    ensures
        ({
            let es = seq![Event::Loaded(true), Event::Command(m), Event::Picked(p)];
            &&& run_actions(d, es) == seq![
                Action::Nothing,
                Action::Pick(Picker::SaveFile),
                Action::Write(p),
            ]
            &&& run(d, es) == (Document {
                path: p,
                dirty: false,
                pending: Pending::SaveWrite { target: p, quit: false },
            })
        }),
{
    let es = seq![Event::Loaded(true), Event::Command(m), Event::Picked(p)];
    let (d1, a1) = transition(d, es[0]);
    let (d2, a2) = transition(d1, es[1]);
    let (d3, a3) = transition(d2, es[2]);
    let e1 = es.drop_first();
    let e2 = e1.drop_first();
    let e3 = e2.drop_first();
    assert(e1 =~= seq![Event::Command(m), Event::Picked(p)]);
    assert(e2 =~= seq![Event::Picked(p)]);
    assert(e3 =~= Seq::<Event>::empty());
    assert(run_actions(d3, e3) =~= Seq::<Action>::empty());
    assert(run_actions(d2, e2) =~= seq![a3]);
    assert(run_actions(d1, e1) =~= seq![a2, a3]);
    assert(run_actions(d, es) =~= seq![a1, a2, a3]);
    assert(run(d2, e2) == run(d3, e3));
    assert(run(d1, e1) == run(d2, e2));
    assert(run(d, es) == run(d1, e1));
}

/// A paste outside a completed drag gesture is left to the widget: it loads
/// nothing and leaves the gesture as it was.
pub proof fn lemma_paste_outside_drop_passes(s: DropStage, exists: bool)
    requires
        s != DropStage::Released,
    ensures
        drop_transition(s, DndEvent::Paste { path_exists: exists }) == (s, DropResponse::PassThrough),
{
}

/// The gesture after each event of `es` in turn.
pub open spec fn drop_run(s: DropStage, es: Seq<DndEvent>) -> DropStage
    decreases es.len(),
{
    if es.len() == 0 {
        s
    } else {
        drop_run(drop_transition(s, es[0]).0, es.drop_first())
    }
}

/// Without a release, a gesture that has not been released never becomes
/// one: a paste after such events is never taken for a drop.
pub proof fn lemma_no_release_no_drop(s: DropStage, es: Seq<DndEvent>)
    requires
        s != DropStage::Released,
        forall|i: int| 0 <= i < es.len() ==> #[trigger] es[i] != DndEvent::Release,
    ensures
        drop_run(s, es) != DropStage::Released,
    decreases es.len(),
{
    if es.len() > 0 {
        let rest = es.drop_first();
        assert forall|i: int| 0 <= i < rest.len() implies #[trigger] rest[i] != DndEvent::Release by {
            assert(rest[i] == es[i + 1]);
        }
        lemma_no_release_no_drop(drop_transition(s, es[0]).0, rest);
    }
}

/// Without an enter, a gesture that is idle never becomes released.
pub proof fn lemma_no_enter_no_drop(es: Seq<DndEvent>)
    requires
        forall|i: int| 0 <= i < es.len() ==> #[trigger] es[i] != DndEvent::Enter,
    ensures
        drop_run(DropStage::Idle, es) == DropStage::Idle,
    decreases es.len(),
{
    if es.len() > 0 {
        let rest = es.drop_first();
        assert forall|i: int| 0 <= i < rest.len() implies #[trigger] rest[i] != DndEvent::Enter by {
            assert(rest[i] == es[i + 1]);
        }
        lemma_no_enter_no_drop(rest);
    }
}

} // verus!

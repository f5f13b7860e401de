use vstd::prelude::*;

verus! {

/// Where a drag-and-drop gesture over the editor stands.
#[derive(Clone, Copy, Debug, PartialEq, Eq, Structural)]
pub enum DropStage {
    Idle,
    Entered,
    Released,
}

/// Events the text widget reports while a drag passes over it.
#[derive(Clone, Copy, Debug, PartialEq, Eq, Structural)]
pub enum DndEvent {
    Enter,
    Drag,
    Release,
    Leave,
    /// A paste arrived; `path_exists` tells whether its text names an
    /// existing filesystem entry.
    Paste { path_exists: bool },
    Other,
}

/// What the widget is to do with the event.
#[derive(Clone, Copy, Debug, PartialEq, Eq, Structural)]
pub enum DropResponse {
    /// Not consumed: the widget handles it as usual (a paste inserts the
    /// clipboard text).
    PassThrough,
    /// Consumed, with nothing else to do.
    Consumed,
    /// Consumed: load the file that the paste text names into the buffer.
    LoadDropped,
}

pub open spec fn drop_transition(s: DropStage, e: DndEvent) -> (DropStage, DropResponse) {
    match e {
        DndEvent::Enter => (
            if s == DropStage::Idle { DropStage::Entered } else { s },
            DropResponse::Consumed,
        ),
        DndEvent::Drag => (s, DropResponse::Consumed),
        DndEvent::Release => (
            if s == DropStage::Entered { DropStage::Released } else { s },
            DropResponse::Consumed,
        ),
        DndEvent::Leave => (DropStage::Idle, DropResponse::Consumed),
        DndEvent::Paste { path_exists } => if s == DropStage::Released {
            (
                DropStage::Idle,
                if path_exists { DropResponse::LoadDropped } else { DropResponse::Consumed },
            )
        } else {
            (s, DropResponse::PassThrough)
        },
        DndEvent::Other => (s, DropResponse::PassThrough),
    }
}

/// The state of one drag-and-drop gesture. A paste counts as a drop only
/// after an enter followed by a release.
#[derive(Clone, Copy, Debug, PartialEq, Eq, Structural)]
pub struct DropSession {
    pub stage: DropStage,
}

impl DropSession {
    pub fn new() -> (r: DropSession)
        ensures
            r.stage == DropStage::Idle,
    {
        DropSession { stage: DropStage::Idle }
    }

    /// Advances the gesture by one event and says what the widget does with it.
    pub fn handle(&mut self, ev: DndEvent) -> (r: DropResponse)
        ensures
            (final(self).stage, r) == drop_transition(old(self).stage, ev),
    {
        match ev {
            DndEvent::Enter => {
                if self.stage == DropStage::Idle {
                    self.stage = DropStage::Entered;
                }
                DropResponse::Consumed
            },
            DndEvent::Drag => DropResponse::Consumed,
            DndEvent::Release => {
                if self.stage == DropStage::Entered {
                    self.stage = DropStage::Released;
                }
                DropResponse::Consumed
            },
            DndEvent::Leave => {
                self.stage = DropStage::Idle;
                DropResponse::Consumed
            },
            DndEvent::Paste { path_exists } => {
                if self.stage == DropStage::Released {
                    self.stage = DropStage::Idle;
                    if path_exists {
                        DropResponse::LoadDropped
                    } else {
                        DropResponse::Consumed
                    }
                } else {
                    DropResponse::PassThrough
                }
            },
            DndEvent::Other => DropResponse::PassThrough,
        }
    }
}

} // verus!

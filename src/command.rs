use vstd::prelude::*;

verus! {

/// One user intent, as produced by the menu, the keyboard, the window and
/// the text widget. Commands carry no payload.
#[derive(Clone, Copy, Debug, PartialEq, Eq, Structural)]
pub enum Message {
    Changed,
    New,
    Open,
    Save,
    SaveAs,
    Quit,
    Cut,
    Copy,
    Paste,
    Config,
}

} // verus!

//! The unsaved-changes dialog: which choice a frame of user input makes.

use vstd::prelude::*;

verus! {

/// An answer to the unsaved-changes dialog.
#[derive(Clone, Copy, Debug, PartialEq, Eq, Structural)]
pub enum Choice {
    Save,
    Discard,
    Cancel,
}

/// The choice made by the dialog's buttons in one frame; when several were
/// clicked, the later of Save, Discard, Cancel wins.
pub fn button_choice(save: bool, discard: bool, cancel: bool) -> (r: Option<Choice>)
    ensures
        r == if cancel {
            Some(Choice::Cancel)
        } else if discard {
            Some(Choice::Discard)
        } else if save {
            Some(Choice::Save)
        } else {
            None
        },
{
    let mut choice = None;
    if save {
        choice = Some(Choice::Save);
    }
    if discard {
        choice = Some(Choice::Discard);
    }
    if cancel {
        choice = Some(Choice::Cancel);
    }
    choice
}

/// The dialog's answer in one frame: Enter saves; otherwise the buttons'
/// choice; otherwise Cancel when the dialog was dismissed.
pub fn dialog_choice(buttons: Option<Choice>, enter_pressed: bool, dismissed: bool) -> (r: Option<
    Choice,
>)
    ensures
        r == if enter_pressed {
            Some(Choice::Save)
        } else if buttons is Some {
            buttons
        } else if dismissed {
            Some(Choice::Cancel)
        } else {
            None
        },
{
    let choice = if enter_pressed {
        Some(Choice::Save)
    } else {
        buttons
    };
    match choice {
        Some(c) => Some(c),
        None => if dismissed {
            Some(Choice::Cancel)
        } else {
            None
        },
    }
}

/// The dialog's subtitle for the document named `document_name`.
pub fn unsaved_subtitle(document_name: &str) -> (r: String)
    ensures
        r@ == "\u{201c}"@ + document_name@ + "\u{201d} has edits not yet saved."@,
{
    let mut text = String::from_str("\u{201c}");
    text.append(document_name);
    text.append("\u{201d} has edits not yet saved.");
    text
}

} // verus!

//! Modal dialogs over the main window: a stack of errors, shown last first.

use vstd::prelude::*;

verus! {

/// An error shown to the user.
#[derive(Debug, Clone)]
pub struct Error {
    pub title: String,
    pub message: String,
}

impl Error {
    pub fn new(title: String, message: String) -> (e: Self)
        ensures
            e.title == title,
            e.message == message,
    {
        Error { title, message }
    }
}

/// A modal dialog.
#[derive(Debug, Clone)]
pub enum Modal {
    /// Errors, the last one on top.
    Error(Vec<Error>),
}

/// What the user did in a modal.
#[derive(Debug, Clone, Copy, PartialEq, Eq, Structural)]
pub enum Message {
    Close,
}

/// What a modal asks of the application.
#[derive(Debug, Clone, Copy, PartialEq, Eq, Structural)]
pub enum Event {
    /// The modal is done and goes away.
    Close,
}

impl Modal {
    /// The errors of the modal, oldest first.
    pub open spec fn errors(&self) -> Seq<Error> {
        match self {
            Modal::Error(errors) => errors@,
        }
    }

    /// Closing drops the error on top; closing the last error closes the
    /// modal, which keeps its error until it goes.
    pub fn update(&mut self, message: Message) -> (event: Option<Event>)
        ensures
            old(self).errors().len() > 1 ==> event is None && final(self).errors() == old(
                self,
            ).errors().drop_last(),
            old(self).errors().len() <= 1 ==> event == Some(Event::Close) && final(self).errors()
                == old(self).errors(),
    {
        match message {
            Message::Close => match self {
                Modal::Error(errors) => {
                    if errors.len() > 1 {
                        errors.pop();
                        None
                    } else {
                        Some(Event::Close)
                    }
                },
            },
        }
    }

    /// The error on top, the one the modal shows.
    pub fn shown(&self) -> (e: Option<&Error>)
        ensures
            self.errors().len() == 0 ==> e is None,
            self.errors().len() > 0 ==> e == Some(&self.errors().last()),
    {
        match self {
            Modal::Error(errors) => {
                if errors.len() == 0 {
                    None
                } else {
                    Some(&errors[errors.len() - 1])
                }
            },
        }
    }
}

/// A modal that opened over an error dialog and is closed again leaves the
/// dialog as it was: closing drops exactly the error that was pushed.
pub proof fn lemma_push_then_close(errors: Seq<Error>, error: Error)
    requires
        errors.len() >= 1,
    ensures
        errors.push(error).len() > 1,
        errors.push(error).drop_last() == errors,
{
    assert(errors.push(error).drop_last() =~= errors);
}

/// Shows `error` on top of the open error modal, or opens one for it.
pub fn push_modal_error(modal: &mut Option<Modal>, error: Error)
    ensures
        *final(modal) is Some,
        *old(modal) is Some ==> (*final(modal)).unwrap().errors() == (*old(modal)).unwrap().errors().push(
            error,
        ),
        *old(modal) is None ==> (*final(modal)).unwrap().errors() == seq![error],
{
    match modal {
        Some(Modal::Error(errors)) => {
            errors.push(error);
        },
        None => {
            let mut errors = Vec::new();
            errors.push(error);
            *modal = Some(Modal::Error(errors));
        },
    }
}

} // verus!

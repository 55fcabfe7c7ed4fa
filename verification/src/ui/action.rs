use vstd::prelude::*;
use crate::provider::{EditInputView, EditProviderInput, NewInputView, NewProviderInput};

verus! {

/// What a keystroke on the provider page asks the application to do.
#[derive(Debug)]
pub enum UiAction {
    Continue,
    Quit,
    RunSelected(String),
    ExecSelected(String),
    SubmitAdd(NewProviderInput),
    SubmitEdit { original_name: String, input: EditProviderInput },
    DeleteSelected(String),
}

pub enum ActionView {
    Continue,
    Quit,
    RunSelected(Seq<char>),
    ExecSelected(Seq<char>),
    SubmitAdd(NewInputView),
    SubmitEdit { original_name: Seq<char>, input: EditInputView },
    DeleteSelected(Seq<char>),
}

impl View for UiAction {
    type V = ActionView;

    open spec fn view(&self) -> ActionView {
        match self {
            UiAction::Continue => ActionView::Continue,
            UiAction::Quit => ActionView::Quit,
            UiAction::RunSelected(n) => ActionView::RunSelected(n@),
            UiAction::ExecSelected(n) => ActionView::ExecSelected(n@),
            UiAction::SubmitAdd(i) => ActionView::SubmitAdd(i@),
            UiAction::SubmitEdit { original_name, input } => ActionView::SubmitEdit {
                original_name: original_name@,
                input: input@,
            },
            UiAction::DeleteSelected(n) => ActionView::DeleteSelected(n@),
        }
    }
}

} // verus!

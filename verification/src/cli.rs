//! The decision core of the interactive module picker.
//!
//! The prompt itself - rendering a menu and reading a selection - is
//! plain terminal I/O and lives outside the verified core; what the
//! answer means for the walk is decided here.

use vstd::prelude::*;
use crate::module_system::{ModuleItem, ModuleItemKind};

verus! {

/// What one round of the picker decided.
pub enum PromptStep {
    /// The selection is final: generate these items.
    Done(Vec<ModuleItem>),
    /// Exactly one module was picked: descend into it and ask again.
    Descend { module: String },
    /// Nothing was picked: ask again.
    Retry,
}

impl PromptStep {
    /// Interprets one answer of the picker.  Several selected items,
    /// or a single endpoint, end the dialogue; a single module is
    /// descended into; an empty answer repeats the question.
    pub fn of_answers(answers: Vec<ModuleItem>) -> (r: PromptStep)
        ensures
            answers@.len() == 0 ==> r is Retry,
            answers@.len() > 1 ==> (r matches PromptStep::Done(items) && items@ == answers@),
            answers@.len() == 1 && answers@[0].kind is Module ==> (r matches PromptStep::Descend {
                module,
            } && module@ == answers@[0].api_path@),
            answers@.len() == 1 && answers@[0].kind is Endpoint ==> (r matches PromptStep::Done(
                items,
            ) && items@ == answers@),
    {
        if answers.len() == 0 {
            PromptStep::Retry
        } else if answers.len() > 1 {
            PromptStep::Done(answers)
        } else {
            match answers[0].kind {
                ModuleItemKind::Module => {
                    let mut answers = answers;
                    match answers.pop() {
                        Some(only) => PromptStep::Descend { module: only.api_path },
                        None => PromptStep::Retry,
                    }
                },
                ModuleItemKind::Endpoint => PromptStep::Done(answers),
            }
        }
    }
}

/// The question the picker shows, given where the dialogue stands.
pub fn prompt_message(doing_specific_search: bool, last_answer_empty: bool) -> (r: &'static str)
    ensures
        r@ == (
        if last_answer_empty {
            "The answer is empty - try again: "@
        } else if doing_specific_search {
            "One module chosen - select individual submodules/endpoints: "@
        } else {
            "Select modules/endpoints: "@
        }),
{
    if last_answer_empty {
        "The answer is empty - try again: "
    } else if doing_specific_search {
        "One module chosen - select individual submodules/endpoints: "
    } else {
        "Select modules/endpoints: "
    }
}

} // verus!

//! One command-line invocation, read into a typed action.

use crate::error::{ArgumentError, ArgumentErrorView, Command, Error, ErrorView};
use crate::number::{id_of, parse_id};
use crate::status::Status;
use crate::text::{same_text, text_of};
use vstd::prelude::*;
use vstd::std_specs::iter::IteratorSpec;

verus! {

/// What one invocation asks of the tracker.
#[derive(Debug, PartialEq, Eq)]
pub enum Action {
    /// Record a new task with this description.
    Add(String),
    /// Replace the description of the task with this id.
    Update { id: usize, description: String },
    /// Remove the task with this id.
    Delete(usize),
    /// Set the task with this id to in progress.
    MarkInProgress(usize),
    /// Set the task with this id to done.
    MarkDone(usize),
    /// Show the tasks: all of them, or those with one status.
    List(Option<Status>),
}

/// What an [`Action`] asks, with text as sequences of characters.
pub enum ActionView {
    Add(Seq<char>),
    Update { id: nat, description: Seq<char> },
    Delete(nat),
    MarkInProgress(nat),
    MarkDone(nat),
    List(Option<Status>),
}

impl View for Action {
    type V = ActionView;

    open spec fn view(&self) -> ActionView {
        match self {
            Action::Add(description) => ActionView::Add(description@),
            Action::Update { id, description } => ActionView::Update {
                id: *id as nat,
                description: description@,
            },
            Action::Delete(id) => ActionView::Delete(*id as nat),
            Action::MarkInProgress(id) => ActionView::MarkInProgress(*id as nat),
            Action::MarkDone(id) => ActionView::MarkDone(*id as nat),
            Action::List(filter) => ActionView::List(*filter),
        }
    }
}

/// The characters of each token.
pub open spec fn texts(tokens: Seq<String>) -> Seq<Seq<char>> {
    tokens.map_values(|token: String| token@)
}

/// The token at place `i`, if the command line is that long.
pub open spec fn token_at(tokens: Seq<Seq<char>>, i: int) -> Option<Seq<char>> {
    if 0 <= i < tokens.len() {
        Some(tokens[i])
    } else {
        None
    }
}

/// The task id in the place that `command` reserves for it.
pub open spec fn id_argument(token: Option<Seq<char>>, command: Command) -> Result<
    nat,
    ErrorView,
> {
    match token {
        None => Err(ErrorView::Argument(ArgumentErrorView::MissingId(command))),
        Some(text) => match id_of(text) {
            Ok(id) => Ok(id),
            Err(why) => Err(ErrorView::Argument(ArgumentErrorView::InvalidId(why))),
        },
    }
}

/// The action that a command line asks for. The token in place 0 is the
/// program's name. The one in place 1 selects the action, and the following
/// ones are its arguments; tokens after the last argument are not read.
pub open spec fn parsed(tokens: Seq<Seq<char>>) -> Result<ActionView, ErrorView> {
    match token_at(tokens, 1) {
        None => Err(ErrorView::Argument(ArgumentErrorView::MissingAction)),
        Some(word) => {
            if word == "add"@ {
                match token_at(tokens, 2) {
                    Some(description) => Ok(ActionView::Add(description)),
                    None => Err(
                        ErrorView::Argument(ArgumentErrorView::MissingDescription(Command::Add)),
                    ),
                }
            } else if word == "update"@ {
                match id_argument(token_at(tokens, 2), Command::Update) {
                    Err(e) => Err(e),
                    Ok(id) => match token_at(tokens, 3) {
                        Some(description) => Ok(ActionView::Update { id, description }),
                        None => Err(
                            ErrorView::Argument(
                                ArgumentErrorView::MissingDescription(Command::Update),
                            ),
                        ),
                    },
                }
            } else if word == "delete"@ {
                match id_argument(token_at(tokens, 2), Command::Delete) {
                    Err(e) => Err(e),
                    Ok(id) => Ok(ActionView::Delete(id)),
                }
            } else if word == "mark-in-progress"@ {
                match id_argument(token_at(tokens, 2), Command::MarkInProgress) {
                    Err(e) => Err(e),
                    Ok(id) => Ok(ActionView::MarkInProgress(id)),
                }
            } else if word == "mark-done"@ {
                match id_argument(token_at(tokens, 2), Command::MarkDone) {
                    Err(e) => Err(e),
                    Ok(id) => Ok(ActionView::MarkDone(id)),
                }
            } else if word == "list"@ {
                match token_at(tokens, 2) {
                    None => Ok(ActionView::List(None)),
                    Some(status) => match Status::named(status) {
                        Some(s) => Ok(ActionView::List(Some(s))),
                        None => Err(
                            ErrorView::Argument(ArgumentErrorView::UnknownStatus(status)),
                        ),
                    },
                }
            } else {
                Err(ErrorView::Argument(ArgumentErrorView::UnknownAction(word)))
            }
        },
    }
}

/// Reads the task id that `command` needs from the token in its place.
fn read_id(token: Option<String>, command: Command) -> (r: Result<usize, Error>)
    ensures
        match r {
            Ok(id) => id_argument(text_of(token), command) == Ok::<nat, ErrorView>(id as nat),
            Err(e) => id_argument(text_of(token), command) == Err::<nat, ErrorView>(e@),
        },
{
    match token {
        None => Err(Error::Argument(ArgumentError::MissingId(command))),
        Some(text) => match parse_id(text.as_str()) {
            Ok(id) => Ok(id),
            Err(why) => Err(Error::Argument(ArgumentError::InvalidId(why))),
        },
    }
}

impl Action {
    /// Reads the command line `args`, program name first, into an action.
    ///
    /// No more of `args` is consumed than the action needs.
    pub fn build<I: Iterator<Item = String>>(mut args: I) -> (r: Result<Action, Error>)
        ensures
            args.obeys_prophetic_iter_laws() ==> match r {
                Ok(action) => parsed(texts(args.remaining())) == Ok::<ActionView, ErrorView>(
                    action@,
                ),
                Err(e) => parsed(texts(args.remaining())) == Err::<ActionView, ErrorView>(e@),
            },
    {
        let ghost tokens = texts(args.remaining());
        proof {
            lemma_left_after(tokens, 0);
            lemma_left_after(tokens, 1);
            lemma_left_after(tokens, 2);
            lemma_left_after(tokens, 3);
        }
        let _ = take(&mut args);
        let word = match take(&mut args) {
            Some(word) => word,
            None => {
                return Err(Error::Argument(ArgumentError::MissingAction));
            },
        };
        if same_text(word.as_str(), "add") {
            match take(&mut args) {
                Some(description) => Ok(Action::Add(description)),
                None => Err(Error::Argument(ArgumentError::MissingDescription(Command::Add))),
            }
        } else if same_text(word.as_str(), "update") {
            let id = match read_id(take(&mut args), Command::Update) {
                Ok(id) => id,
                Err(e) => {
                    return Err(e);
                },
            };
            match take(&mut args) {
                Some(description) => Ok(Action::Update { id, description }),
                None => Err(Error::Argument(ArgumentError::MissingDescription(Command::Update))),
            }
        } else if same_text(word.as_str(), "delete") {
            match read_id(take(&mut args), Command::Delete) {
                Ok(id) => Ok(Action::Delete(id)),
                Err(e) => Err(e),
            }
        } else if same_text(word.as_str(), "mark-in-progress") {
            match read_id(take(&mut args), Command::MarkInProgress) {
                Ok(id) => Ok(Action::MarkInProgress(id)),
                Err(e) => Err(e),
            }
        } else if same_text(word.as_str(), "mark-done") {
            match read_id(take(&mut args), Command::MarkDone) {
                Ok(id) => Ok(Action::MarkDone(id)),
                Err(e) => Err(e),
            }
        } else if same_text(word.as_str(), "list") {
            match take(&mut args) {
                None => Ok(Action::List(None)),
                Some(status) => match Status::from_keyword(status.as_str()) {
                    Some(s) => Ok(Action::List(Some(s))),
                    None => Err(Error::Argument(ArgumentError::UnknownStatus(status))),
                },
            }
        } else {
            Err(Error::Argument(ArgumentError::UnknownAction(word)))
        }
    }
}

/// A command line without its first token.
pub open spec fn rest(tokens: Seq<Seq<char>>) -> Seq<Seq<char>> {
    if tokens.len() > 0 {
        tokens.drop_first()
    } else {
        tokens
    }
}

/// What is left of a command line `tokens` once its first `i` tokens are taken.
pub open spec fn left_after(tokens: Seq<Seq<char>>, i: int) -> Seq<Seq<char>> {
    if i < tokens.len() {
        tokens.skip(i)
    } else {
        Seq::empty()
    }
}

/// Taking one more token leaves what `left_after` says, and the token taken
/// is the one in place `i`.
proof fn lemma_left_after(tokens: Seq<Seq<char>>, i: int)
    requires
        0 <= i,
    ensures
        left_after(tokens, 0) == tokens,
        rest(left_after(tokens, i)) == left_after(tokens, i + 1),
        token_at(left_after(tokens, i), 0) == token_at(tokens, i),
{
}

/// Takes the next token from `args`.
fn take<I: Iterator<Item = String>>(args: &mut I) -> (r: Option<String>)
    ensures
        (*final(args)).obeys_prophetic_iter_laws() == (*old(args)).obeys_prophetic_iter_laws(),
        (*old(args)).obeys_prophetic_iter_laws() ==> {
            &&& texts((*final(args)).remaining()) == rest(texts((*old(args)).remaining()))
            &&& text_of(r) == token_at(texts((*old(args)).remaining()), 0)
        },
{
    args.next()
}

} // verus!

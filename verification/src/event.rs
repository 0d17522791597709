//! What a watcher reports, and what the pipeline makes of it.

use crate::path::{file_name, has_html_extension, spec_file_name, spec_has_html_extension};
use vstd::prelude::*;

verus! {

/// A notification from the watcher of the input directory.
#[derive(Debug, Clone, PartialEq, Eq)]
pub enum WatchEvent {
    /// A file appeared at the path.
    FileCreated(String),
    /// A file moved from the first path to the second.
    FileRenamed(String, String),
    /// Anything else, by its description.
    Other(String),
}

/// What is to be done about a notification.
#[derive(Debug, Clone, PartialEq, Eq)]
pub enum Action {
    /// Nothing.
    Ignore,
    /// Claim the raw file at the path under a staged name.
    Stage(String),
    /// Render the staged file at the first path; the second is the name
    /// that the document arrived under.
    Render(String, String),
}

/// A `WatchEvent` with its paths as sequences of characters.
pub enum WatchEventView {
    FileCreated(Seq<char>),
    FileRenamed(Seq<char>, Seq<char>),
    Other(Seq<char>),
}

/// An `Action` with its paths as sequences of characters.
pub enum ActionView {
    Ignore,
    Stage(Seq<char>),
    Render(Seq<char>, Seq<char>),
}

impl View for WatchEvent {
    type V = WatchEventView;

    open spec fn view(&self) -> WatchEventView {
        match self {
            WatchEvent::FileCreated(p) => WatchEventView::FileCreated(p@),
            WatchEvent::FileRenamed(from, to) => WatchEventView::FileRenamed(from@, to@),
            WatchEvent::Other(d) => WatchEventView::Other(d@),
        }
    }
}

impl View for Action {
    type V = ActionView;

    open spec fn view(&self) -> ActionView {
        match self {
            Action::Ignore => ActionView::Ignore,
            Action::Stage(p) => ActionView::Stage(p@),
            Action::Render(staged, basename) => ActionView::Render(staged@, basename@),
        }
    }
}

/// The rule of intake. A created file with an HTML extension is staged. A
/// rename whose destination has an HTML extension is rendered, under the
/// file name of its source; where the source has no file name the event is
/// ignored. Everything else is ignored.
pub open spec fn spec_classify(event: WatchEventView) -> ActionView {
    match event {
        WatchEventView::FileCreated(p) => if spec_has_html_extension(p) {
            ActionView::Stage(p)
        } else {
            ActionView::Ignore
        },
        WatchEventView::FileRenamed(from, to) => if spec_has_html_extension(to) {
            match spec_file_name(from) {
                Some(basename) => ActionView::Render(to, basename),
                None => ActionView::Ignore,
            }
        } else {
            ActionView::Ignore
        },
        WatchEventView::Other(_) => ActionView::Ignore,
    }
}

/// Decides what is to be done about `event`.
pub fn classify(event: WatchEvent) -> (r: Action)
    ensures
        r@ == spec_classify(event@),
{
    match event {
        WatchEvent::FileCreated(p) => {
            if has_html_extension(p.as_str()) {
                Action::Stage(p)
            } else {
                Action::Ignore
            }
        },
        WatchEvent::FileRenamed(from, to) => {
            if has_html_extension(to.as_str()) {
                match file_name(from.as_str()) {
                    Some(basename) => Action::Render(to, basename),
                    None => Action::Ignore,
                }
            } else {
                Action::Ignore
            }
        },
        WatchEvent::Other(_) => Action::Ignore,
    }
}

} // verus!

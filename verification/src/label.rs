//! A label: a widget that shows a line of text.

use std::rc::Rc;
use vstd::prelude::*;
use vstd::string::StringExecFns;

verus! {

/// A label. Without a text of its own it shows the text of its widget.
#[derive(Debug, Clone, PartialEq, Eq)]
pub struct Label {
    pub text: Option<String>,
}

impl Label {
    /// A label without a text of its own.
    pub fn empty() -> (label: Rc<Label>)
        ensures
            label.text is None,
    {
        Rc::new(Label { text: None })
    }

    /// A label with the text `text`.
    pub fn new(text: &str) -> (label: Rc<Label>)
        ensures
            label.text is Some,
            label.text->0@ == text@,
    {
        Rc::new(Label { text: Some(String::from_str(text)) })
    }

    /// The name of this kind of widget.
    pub fn get_name(&self) -> (name: &'static str)
        ensures
            name@ == "label"@,
    {
        "label"
    }
}

} // verus!

use vstd::prelude::*;
use crate::pipeline::content::EditorContent;
use crate::pipeline::step::Processing;
use crate::text::{lowercase_of, to_lowercase, to_uppercase, uppercase_of};

verus! {

/// Turns the buffer to lower case and marks that it ran.
pub struct LowerCase;

impl Processing for LowerCase {
    type Context = EditorContent;

    open spec fn effect(&self, text: Seq<char>) -> Seq<char> {
        lowercase_of(text) + "\n[LowerCase OK]"@
    }

    open spec fn label(&self) -> Seq<char> {
        "LowerCase"@
    }

    fn name(&self) -> (res: &str) {
        "LowerCase"
    }

    fn apply(&mut self, context: &mut EditorContent) {
        let lowered = to_lowercase(context.content.as_str());
        context.rewrite(lowered, "\n[LowerCase OK]");
    }
}

/// Turns the buffer to upper case.
pub struct UpperCase;

impl Processing for UpperCase {
    type Context = EditorContent;

    open spec fn effect(&self, text: Seq<char>) -> Seq<char> {
        uppercase_of(text)
    }

    open spec fn label(&self) -> Seq<char> {
        "UpperCase"@
    }

    fn name(&self) -> (res: &str) {
        "UpperCase"
    }

    fn apply(&mut self, context: &mut EditorContent) {
        let raised = to_uppercase(context.content.as_str());
        context.rewrite(raised, "");
        proof {
            reveal_strlit("");
        }
    }
}

/// Stands in for a spell checker: marks that it ran and leaves the text alone.
pub struct SpellChecker;

impl Processing for SpellChecker {
    type Context = EditorContent;

    open spec fn effect(&self, text: Seq<char>) -> Seq<char> {
        text + "\n[SpellChecker OK]"@
    }

    open spec fn label(&self) -> Seq<char> {
        "SpellChecker"@
    }

    fn name(&self) -> (res: &str) {
        "SpellChecker"
    }

    fn apply(&mut self, context: &mut EditorContent) {
        context.content.append("\n[SpellChecker OK]");
    }
}

/// Appends a fixed marker to the buffer.
pub struct AppendMarker {
    pub marker: String,
}

impl Processing for AppendMarker {
    type Context = EditorContent;

    open spec fn effect(&self, text: Seq<char>) -> Seq<char> {
        text + self.marker@
    }

    open spec fn label(&self) -> Seq<char> {
        "AppendMarker"@
    }

    fn name(&self) -> (res: &str) {
        "AppendMarker"
    }

    fn apply(&mut self, context: &mut EditorContent) {
        context.content.append(self.marker.as_str());
    }
}

} // verus!

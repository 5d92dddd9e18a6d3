use vstd::prelude::*;

verus! {

/// The state of the demonstration steps: one text buffer.
pub struct EditorContent {
    pub content: String,
}

impl View for EditorContent {
    type V = Seq<char>;

    open spec fn view(&self) -> Seq<char> {
        self.content@
    }
}

impl EditorContent {
    /// A buffer holding a copy of `text`.
    pub fn new(text: &str) -> (res: Self)
        ensures
            res@ == text@,
    {
        EditorContent { content: text.to_owned() }
    }

    /// Replaces the buffer by `text` followed by `marker`.
    pub fn rewrite(&mut self, text: String, marker: &str)
        ensures
            final(self)@ == text@ + marker@,
    {
        self.content = text.concat(marker);
    }
}

} // verus!

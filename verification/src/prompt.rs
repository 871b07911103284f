use vstd::prelude::*;

verus! {

/// What a text prompt reports after a key press.
#[derive(Clone, Debug)]
pub enum PromptEvent {
    /// Still being edited; the text so far.
    AwaitingResult(String),
    /// Confirmed; the text entered.
    Result(String),
    Cancelled,
}

/// How a text prompt is set up: the question shown, the text it starts with, and whether
/// what is typed is hidden.
#[derive(Clone, Debug)]
pub struct PromptSetup {
    pub prompt_text: String,
    pub text: String,
    pub password: bool,
}

impl PromptSetup {
    /// A prompt asking `Input:`, empty, not hidden.
    pub fn new() -> (r: PromptSetup)
        ensures
            r.prompt_text@ == "Input:"@,
            r.text@ == Seq::<char>::empty(),
            !r.password,
    {
        PromptSetup { prompt_text: "Input:".to_owned(), text: String::new(), password: false }
    }

    pub fn set_prompt_text(&mut self, text: &str)
        ensures
            final(self).prompt_text@ == text@,
            final(self).text == old(self).text,
            final(self).password == old(self).password,
    {
        self.prompt_text = text.to_owned();
    }

    pub fn set_text(&mut self, text: &str)
        ensures
            final(self).text@ == text@,
            final(self).prompt_text == old(self).prompt_text,
            final(self).password == old(self).password,
    {
        self.text = text.to_owned();
    }

    pub fn set_password(&mut self, is_password: bool)
        ensures
            final(self).password == is_password,
            final(self).prompt_text == old(self).prompt_text,
            final(self).text == old(self).text,
    {
        self.password = is_password;
    }

    /// Empties the question and the text, and shows what is typed.
    pub fn clear(&mut self)
        ensures
            final(self).prompt_text@ == Seq::<char>::empty(),
            final(self).text@ == Seq::<char>::empty(),
            !final(self).password,
    {
        self.prompt_text = String::new();
        self.text = String::new();
        self.password = false;
    }
}

} // verus!

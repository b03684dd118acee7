use vstd::prelude::*;

verus! {

/// A piece of text in a message.
#[derive(Debug)]
pub struct Text {
    pub text: String,
}

impl View for Text {
    type V = Seq<char>;

    open spec fn view(&self) -> Seq<char> {
        self.text@
    }
}

impl Text {
    pub fn new(s: String) -> (t: Text)
        ensures
            t.text == s,
    {
        Text { text: s }
    }

    pub fn from_str(s: &str) -> (t: Text)
        ensures
            t@ == s@,
    {
        Text { text: s.to_owned() }
    }

    pub fn as_str(&self) -> (s: &str)
        ensures
            s@ == self@,
    {
        self.text.as_str()
    }

    pub fn is_empty(&self) -> (b: bool)
        ensures
            b == (self@.len() == 0),
    {
        self.text.as_str().is_empty()
    }

    /// The text itself, as a `String`.
    pub fn to_string(&self) -> (s: String)
        ensures
            s@ == self@,
    {
        self.text.clone()
    }
}

impl Clone for Text {
    fn clone(&self) -> (t: Self)
        ensures
            t == *self,
    {
        Text { text: self.text.clone() }
    }
}

impl Default for Text {
    fn default() -> (t: Self)
        ensures
            t@ == Seq::<char>::empty(),
    {
        Text { text: String::new() }
    }
}

} // verus!

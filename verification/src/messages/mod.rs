pub mod content;
pub mod file;
pub mod laws;
pub mod parts;
pub mod text;

use vstd::prelude::*;

use crate::messages::content::{Content, ContentView};
use crate::messages::parts::PartView;

verus! {

/// A conversation: messages in order.
#[derive(Debug)]
pub struct Messages(pub Vec<Content>);

pub open spec fn contents_view(v: Seq<Content>) -> Seq<ContentView> {
    v.map_values(|c: Content| c@)
}

impl View for Messages {
    type V = Seq<ContentView>;

    open spec fn view(&self) -> Seq<ContentView> {
        contents_view(self.0@)
    }
}

/// What `push` makes of the conversation `s` and the message `c`: when `c`
/// is from the same role as the last message, its parts are appended to that
/// message; otherwise `c` becomes a new message.
pub open spec fn push_spec(s: Seq<ContentView>, c: ContentView) -> Seq<ContentView> {
    if s.len() > 0 && s.last().role == c.role {
        s.update(s.len() - 1, ContentView { parts: s.last().parts + c.parts, ..s.last() })
    } else {
        s.push(c)
    }
}

/// No two neighbouring messages are from the same role.
pub open spec fn roles_alternate(s: Seq<ContentView>) -> bool {
    forall|i: int| 0 <= i < s.len() - 1 ==> #[trigger] s[i].role != s[i + 1].role
}

/// All parts of the conversation, message after message.
pub open spec fn all_parts(s: Seq<ContentView>) -> Seq<PartView>
    decreases s.len(),
{
    if s.len() == 0 {
        Seq::empty()
    } else {
        all_parts(s.drop_last()) + s.last().parts
    }
}

impl Default for Messages {
    fn default() -> (m: Self)
        ensures
            m@ == Seq::<ContentView>::empty(),
    {
        Messages(Vec::new())
    }
}

impl Messages {
    /// Appends `content`, merging it into the last message when both are from
    /// the same role.
    pub fn push(&mut self, content: Content) -> (r: &mut Self)
        ensures
            r@ == push_spec(old(self)@, content@),
            final(self)@ == final(r)@,
    {
        let n = self.0.len();
        if n > 0 && self.0[n - 1].role == content.role {
            let mut last = self.0.pop().unwrap();
            proof {
                assert(self.0@ =~= old(self).0@.drop_last());
            }
            last.parts.extend(content.parts);
            self.0.push(last);
            proof {
                assert(contents_view(self.0@) =~= push_spec(contents_view(old(self).0@), content@));
            }
        } else {
            self.0.push(content);
            proof {
                assert(contents_view(self.0@) =~= push_spec(contents_view(old(self).0@), content@));
            }
        }
        self
    }

    /// Appends all of `messages` as they are.
    pub fn extend(&mut self, messages: Messages) -> (r: &mut Self)
        ensures
            r@ == old(self)@ + messages@,
            final(self)@ == final(r)@,
    {
        let mut v = messages.0;
        self.0.append(&mut v);
        proof {
            assert(contents_view(self.0@) =~= contents_view(old(self).0@) + contents_view(messages.0@));
        }
        self
    }

    /// The number of messages.
    pub fn len(&self) -> (n: usize)
        ensures
            n == self@.len(),
    {
        self.0.len()
    }

    pub fn last(&self) -> (r: Option<&Content>)
        ensures
            self@.len() == 0 ==> r is None,
            self@.len() > 0 ==> (r matches Some(c) && c@ == self@.last()),
    {
        let n = self.0.len();
        if n == 0 {
            None
        } else {
            Some(&self.0[n - 1])
        }
    }
}

pub fn from_user(prompts: Vec<&str>) -> (m: Messages)
    ensures
        m@ == seq![content::from_user_spec(prompts@)],
{
    Messages(vec![content::from_user(prompts)])
}

pub fn from_system(prompts: Vec<&str>) -> (m: Messages)
    ensures
        m@ == seq![content::from_system_spec(prompts@)],
{
    Messages(vec![content::from_system(prompts)])
}

pub fn from_model(prompts: Vec<&str>) -> (m: Messages)
    ensures
        m@ == seq![content::from_model_spec(prompts@)],
{
    Messages(vec![content::from_model(prompts)])
}

} // verus!

use vstd::prelude::*;

use crate::messages::content::ContentView;
use crate::messages::{all_parts, push_spec, roles_alternate};

verus! {

/// After a push the last message is from the pushed message's role, and the
/// conversation grew by one message exactly when the roles differ.
pub proof fn lemma_push_shape(s: Seq<ContentView>, c: ContentView)
    ensures
        push_spec(s, c).len() > 0,
        push_spec(s, c).last().role == c.role,
        (s.len() > 0 && s.last().role == c.role) ==> push_spec(s, c).len() == s.len(),
        !(s.len() > 0 && s.last().role == c.role) ==> push_spec(s, c).len() == s.len() + 1,
        forall|i: int| 0 <= i < s.len() - 1 ==> #[trigger] push_spec(s, c)[i] == s[i],
{
}

/// Pushing keeps a conversation's roles alternating.
pub proof fn lemma_push_keeps_roles_alternating(s: Seq<ContentView>, c: ContentView)
    requires
        roles_alternate(s),
    ensures
        roles_alternate(push_spec(s, c)),
{
    let p = push_spec(s, c);
    assert forall|i: int| 0 <= i < p.len() - 1 implies #[trigger] p[i].role != p[i + 1].role by {
        if s.len() > 0 && s.last().role == c.role {
            assert(p[i] == s[i]);
            if i + 1 < s.len() - 1 {
                assert(p[i + 1] == s[i + 1]);
            }
        } else {
            if i + 1 < s.len() {
                assert(s[i].role != s[i + 1].role);
            }
        }
    }
}

/// Pushing never loses a part: all parts of the conversation are the ones
/// before, followed by the pushed message's parts.
pub proof fn lemma_push_keeps_all_parts(s: Seq<ContentView>, c: ContentView)
    ensures
        all_parts(push_spec(s, c)) == all_parts(s) + c.parts,
{
    let p = push_spec(s, c);
    if s.len() > 0 && s.last().role == c.role {
        assert(p.drop_last() =~= s.drop_last());
        assert(all_parts(p) =~= all_parts(s.drop_last()) + (s.last().parts + c.parts));
        assert(all_parts(p) =~= all_parts(s) + c.parts);
    } else {
        assert(p.drop_last() =~= s);
    }
}

} // verus!

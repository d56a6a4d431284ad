//! Conversations: ordered turns, each with a role and text.
use vstd::prelude::*;

use crate::text::{owned, same_text};

verus! {

/// One turn of a conversation.
#[derive(Clone, Debug)]
pub struct Message {
    /// `"user"` or `"assistant"`.
    pub role: String,
    pub content: String,
}

/// What a `Message` holds, as mathematical values.
pub ghost struct MessageView {
    pub role: Seq<char>,
    pub content: Seq<char>,
}

impl View for Message {
    type V = MessageView;

    open spec fn view(&self) -> MessageView {
        MessageView { role: self.role@, content: self.content@ }
    }
}

/// A conversation: its identifier, its title and its turns, oldest first.
#[derive(Clone, Debug)]
pub struct Conversation {
    pub id: String,
    pub title: String,
    pub body: Vec<Message>,
}

/// The views of the messages in `v`.
pub open spec fn messages_view(v: Seq<Message>) -> Seq<MessageView> {
    v.map_values(|m: Message| m@)
}

/// The messages of `body` whose role is `role`, in order.
pub open spec fn with_role(body: Seq<MessageView>, role: Seq<char>) -> Seq<MessageView>
    decreases body.len(),
{
    if body.len() == 0 {
        seq![]
    } else {
        let rest = with_role(body.drop_last(), role);
        if body.last().role == role {
            rest.push(body.last())
        } else {
            rest
        }
    }
}

/// Length of a conversation identifier in its hyphenated text form.
pub const CONVERSATION_ID_LEN: usize = 36;

/// Whether `c` is a lowercase hexadecimal digit.
pub open spec fn is_lower_hex(c: char) -> bool {
    (48 <= c as u32 <= 57) || (97 <= c as u32 <= 102)
}

/// Whether `s` is the text of a random (version 4) UUID: 36 characters,
/// hyphens at 8, 13, 18 and 23, lowercase hex digits elsewhere, the version
/// digit `4` at 14 and a variant digit among `8`, `9`, `a`, `b` at 19.
pub open spec fn is_v4_text(s: Seq<char>) -> bool {
    &&& s.len() == CONVERSATION_ID_LEN
    &&& forall|i: int|
        0 <= i < s.len() ==> if i == 8 || i == 13 || i == 18 || i == 23 {
            #[trigger] s[i] == '-'
        } else {
            is_lower_hex(s[i])
        }
    &&& s[14] == '4'
    &&& (s[19] == '8' || s[19] == '9' || s[19] == 'a' || s[19] == 'b')
}

/// Relies on `uuid::Uuid::new_v4` for a random identifier whose version and
/// variant bits are set, and on its `Display` form, the lowercase hyphenated
/// one. The digits are random, so nothing more is stated of them.
#[verifier::external_body]
fn random_id() -> (r: String)
    ensures
        is_v4_text(r@),
{
    uuid::Uuid::new_v4().to_string()
}

impl Conversation {
    /// The turns of the conversation, as mathematical values.
    pub open spec fn turns(&self) -> Seq<MessageView> {
        messages_view(self.body@)
    }

    /// A conversation with no turns.
    pub fn new(id: String, title: String) -> (r: Conversation)
        ensures
            r.id@ == id@,
            r.title@ == title@,
            r.body@.len() == 0,
    {
        Conversation { id, title, body: Vec::new() }
    }

    /// A conversation with no turns, titled `title`, under a fresh random
    /// identifier.
    pub fn start(title: &str) -> (r: Conversation)
        ensures
            is_v4_text(r.id@),
            r.title@ == title@,
            r.body@.len() == 0,
    {
        Conversation::new(random_id(), owned(title))
    }

    /// Appends a turn with the given role and text.
    pub fn add_message(&mut self, role: &str, content: &str)
        ensures
            final(self).id == old(self).id,
            final(self).title == old(self).title,
            final(self).turns() == old(self).turns().push(MessageView { role: role@, content: content@ }),
    {
        self.body.push(Message { role: owned(role), content: owned(content) });
        assert(self.turns() =~= old(self).turns().push(MessageView { role: role@, content: content@ }));
    }

    /// The newest turn, if there is one.
    pub fn get_last_message(&self) -> (r: Option<&Message>)
        ensures
            r is None <==> self.body@.len() == 0,
            r matches Some(m) ==> *m == self.body@.last(),
    {
        if self.body.len() == 0 {
            None
        } else {
            Some(&self.body[self.body.len() - 1])
        }
    }

    /// Replaces the title.
    pub fn update_title(&mut self, new_title: &str)
        ensures
            final(self).id == old(self).id,
            final(self).title@ == new_title@,
            final(self).body == old(self).body,
    {
        self.title = owned(new_title);
    }

    /// The turns whose role is `role`, oldest first.
    pub fn get_messages_by_role(&self, role: &str) -> (r: Vec<&Message>)
        ensures
            r@.map_values(|m: &Message| m@) == with_role(self.turns(), role@),
    {
        let mut r: Vec<&Message> = Vec::new();
        let mut i: usize = 0;
        while i < self.body.len()
            invariant
                i <= self.body@.len(),
                r@.map_values(|m: &Message| m@) == with_role(self.turns().subrange(0, i as int), role@),
            decreases self.body@.len() - i,
        {
            let m = &self.body[i];
            proof {
                let s = self.turns().subrange(0, i as int + 1);
                assert(s.drop_last() =~= self.turns().subrange(0, i as int));
                assert(s.last() == m@);
            }
            if same_text(m.role.as_str(), role) {
                r.push(m);
            }
            proof {
                assert(r@.map_values(|m: &Message| m@) =~= with_role(
                    self.turns().subrange(0, i as int + 1),
                    role@,
                ));
            }
            i = i + 1;
        }
        assert(self.turns().subrange(0, self.body@.len() as int) =~= self.turns());
        r
    }

    /// Whether the conversation has no turns.
    pub fn is_empty(&self) -> (r: bool)
        ensures
            r == (self.body@.len() == 0),
    {
        self.body.len() == 0
    }

    /// Removes every turn, keeping the identifier and the title.
    pub fn clear_messages(&mut self)
        ensures
            final(self).id == old(self).id,
            final(self).title == old(self).title,
            final(self).body@.len() == 0,
    {
        self.body.clear();
    }
}

} // verus!

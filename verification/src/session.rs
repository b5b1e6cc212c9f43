//! The session state a chat view renders: the model list, the selected
//! model, the input being typed, and the message history.

use vstd::prelude::*;

verus! {

/// The mathematical content of one message.
pub ghost struct MessageView {
    pub sender: Seq<char>,
    pub text: Seq<char>,
}

/// One entry of the message history.
pub struct Message {
    pub sender: String,
    pub text: String,
}

impl View for Message {
    type V = MessageView;

    open spec fn view(&self) -> MessageView {
        MessageView { sender: self.sender@, text: self.text@ }
    }
}

/// The message contents carried by a vector of messages.
pub open spec fn message_views(messages: Seq<Message>) -> Seq<MessageView> {
    messages.map_values(|message: Message| message@)
}

/// Whether some model in `models` is named `name`.
pub open spec fn has_model(models: Seq<String>, name: Seq<char>) -> bool {
    exists|i: int| 0 <= i < models.len() && models[i]@ == name
}

/// The text with its leading and trailing whitespace removed.
pub uninterp spec fn trimmed(text: Seq<char>) -> Seq<char>;

/// Relies on str::trim: the trimmed text is a function of the
/// characters alone.
#[verifier::external_body]
fn trim_text<'a>(text: &'a str) -> (trimmed_text: &'a str)
    ensures
        trimmed_text@ == trimmed(text@),
{
    text.trim()
}

/// Relies on uuid::Uuid::new_v4 and its canonical hyphenated text form:
/// 36 characters, whatever the drawn value; nothing more is promised of
/// it, which is random.
#[verifier::external_body]
fn fresh_uuid_text() -> (text: String)
    ensures
        text@.len() == 36,
{
    uuid::Uuid::new_v4().to_string()
}

/// The state of one chat session. Mutated only through the operations
/// below and by the reply aggregator; never concurrently.
pub struct Session {
    pub model_list: Vec<String>,
    pub selected_model: String,
    pub pending_input: String,
    pub messages: Vec<Message>,
}

impl Session {
    /// Well-formed: the model identifiers are unique by value, and the
    /// selected model is one of them.
    pub open spec fn wf(&self) -> bool {
        &&& forall|i: int, j: int|
            0 <= i < j < self.model_list@.len() ==> #[trigger] self.model_list@[i]@
                != #[trigger] self.model_list@[j]@
        &&& has_model(self.model_list@, self.selected_model@)
    }

    /// A fresh session over the given model identifiers; the first one
    /// starts selected, the input and the history start empty.
    pub fn new(models: Vec<String>) -> (session: Session)
        requires
            models@.len() > 0,
            forall|i: int, j: int|
                0 <= i < j < models@.len() ==> #[trigger] models@[i]@ != #[trigger] models@[j]@,
        ensures
            session.wf(),
            session.model_list == models,
            session.selected_model@ == models@[0]@,
            session.pending_input@ == Seq::<char>::empty(),
            session.messages@ == Seq::<Message>::empty(),
    {
        let selected_model = models[0].clone();
        let session = Session {
            model_list: models,
            selected_model,
            pending_input: String::new(),
            messages: Vec::new(),
        };
        session
    }

    /// Replaces the input being typed.
    pub fn set_input(&mut self, text: String)
        requires
            old(self).wf(),
        ensures
            final(self).wf(),
            final(self).pending_input == text,
            final(self).model_list == old(self).model_list,
            final(self).selected_model == old(self).selected_model,
            final(self).messages == old(self).messages,
    {
        self.pending_input = text;
    }

    /// Submits the input being typed. A blank input is rejected and
    /// nothing changes. Otherwise the input, untrimmed, is appended to
    /// the history as the user's message, the input is cleared, and the
    /// text is handed back as the prompt to dispatch.
    pub fn submit(&mut self) -> (prompt: Option<String>)
        requires
            old(self).wf(),
        ensures
            final(self).wf(),
            trimmed(old(self).pending_input@).len() == 0 ==> prompt is None && *final(self)
                == *old(self),
            trimmed(old(self).pending_input@).len() > 0 ==> prompt is Some,
            prompt matches Some(text) ==> ({
                &&& text@ == old(self).pending_input@
                &&& final(self).pending_input@ == Seq::<char>::empty()
                &&& message_views(final(self).messages@) == message_views(
                    old(self).messages@,
                ).push((MessageView { sender: "You"@, text: old(self).pending_input@ }))
                &&& final(self).model_list == old(self).model_list
                &&& final(self).selected_model == old(self).selected_model
            }),
    {
        if trim_text(self.pending_input.as_str()).is_empty() {
            None
        } else {
            let mut prompt = String::new();
            core::mem::swap(&mut prompt, &mut self.pending_input);
            let entry = Message { sender: String::from_str("You"), text: prompt.clone() };
            let ghost before = message_views(self.messages@);
            self.messages.push(entry);
            proof {
                assert(message_views(self.messages@) =~= before.push(entry@));
            }
            Some(prompt)
        }
    }

    /// Selects the model named `name`, provided it is in the list; a
    /// name not in the list changes nothing.
    pub fn select_model(&mut self, name: &String) -> (selected: bool)
        requires
            old(self).wf(),
        ensures
            final(self).wf(),
            selected == has_model(old(self).model_list@, name@),
            selected ==> ({
                &&& final(self).selected_model@ == name@
                &&& final(self).model_list == old(self).model_list
                &&& final(self).pending_input == old(self).pending_input
                &&& final(self).messages == old(self).messages
            }),
            !selected ==> *final(self) == *old(self),
    {
        if contains_model(&self.model_list, name) {
            self.selected_model = name.clone();
            true
        } else {
            false
        }
    }

    /// Registers `name` and selects it. The identifier joins the list
    /// only if no model of that name is there yet — the list stays
    /// unique by value — and it becomes the selected model either way.
    pub fn add_model(&mut self, name: String) -> (added: bool)
        requires
            old(self).wf(),
        ensures
            final(self).wf(),
            final(self).selected_model@ == name@,
            added == !has_model(old(self).model_list@, name@),
            added ==> final(self).model_list@ == old(self).model_list@.push(name),
            !added ==> final(self).model_list == old(self).model_list,
            final(self).pending_input == old(self).pending_input,
            final(self).messages == old(self).messages,
    {
        let known = contains_model(&self.model_list, &name);
        let ghost list_before = self.model_list@;
        if !known {
            self.model_list.push(name.clone());
        }
        self.selected_model = name;
        proof {
            if known {
                assert(has_model(self.model_list@, self.selected_model@));
            } else {
                assert(self.model_list@[list_before.len() as int]@ == self.selected_model@);
                assert(has_model(self.model_list@, self.selected_model@));
                assert forall|i: int, j: int|
                    0 <= i < j < self.model_list@.len() implies #[trigger] self.model_list@[i]@
                    != #[trigger] self.model_list@[j]@ by {
                    if j < list_before.len() {
                        assert(old(self).wf());
                    } else {
                        assert(self.model_list@[i]@ == list_before[i]@);
                        if list_before[i]@ == self.model_list@[j]@ {
                            assert(has_model(list_before, self.model_list@[j]@));
                        }
                    }
                }
            }
        }
        !known
    }

    /// Produces a fresh generated identifier — a generated-model prefix
    /// followed by a drawn identifier text — registers it, selects it,
    /// and hands it back.
    pub fn add_generated_model(&mut self) -> (name: String)
        requires
            old(self).wf(),
        ensures
            final(self).wf(),
            final(self).selected_model@ == name@,
            name@.len() == 47,
            name@.subrange(0, 11) == "next-model-"@,
            !has_model(old(self).model_list@, name@) ==> final(self).model_list@ == old(
                self,
            ).model_list@.push(name),
            has_model(old(self).model_list@, name@) ==> final(self).model_list == old(
                self,
            ).model_list,
            final(self).pending_input == old(self).pending_input,
            final(self).messages == old(self).messages,
    {
        let suffix = fresh_uuid_text();
        let mut name = String::from_str("next-model-");
        name.append(suffix.as_str());
        proof {
            reveal_strlit("next-model-");
            assert(name@.subrange(0, 11) =~= "next-model-"@);
        }
        self.add_model(name.clone());
        name
    }
}

/// Whether `name` names one of the strings in `list`.
fn contains_model(list: &Vec<String>, name: &String) -> (found: bool)
    ensures
        found == has_model(list@, name@),
{
    let mut k: usize = 0;
    while k < list.len()
        invariant
            k <= list.len(),
            forall|i: int| 0 <= i < k ==> list@[i]@ != name@,
        decreases list.len() - k,
    {
        if list[k].eq(name) {
            return true;
        }
        k = k + 1;
    }
    false
}

} // verus!

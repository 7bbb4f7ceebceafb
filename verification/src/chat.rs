use vstd::prelude::*;

use crate::input::{is_white_space, trim_str};

verus! {

/// A prompt kept with its identifier.
pub struct Prompt {
    pub prompt: String,
    pub _id: String,
}

impl Prompt {
    pub fn prompt(&self) -> (s: &str)
        ensures
            s@ == self.prompt@,
    {
        self.prompt.as_str()
    }

    pub fn _id(&self) -> (s: &str)
        ensures
            s@ == self._id@,
    {
        self._id.as_str()
    }
}

/// The lines of the chat text that one entry of the chat occupies: the first
/// and the last, counted from one.
#[derive(Debug, Clone, Copy, PartialEq, Eq, Structural)]
pub struct ChatItemIndex(pub usize, pub usize);

impl ChatItemIndex {
    pub fn start(&self) -> (s: usize)
        ensures
            s == self.0,
    {
        self.0
    }

    pub fn end(&self) -> (e: usize)
        ensures
            e == self.1,
    {
        self.1
    }
}

/// What the chat pane shows.
#[derive(Debug, Clone, Copy, PartialEq, Eq, Structural)]
pub enum ChatType {
    ChatTv,
    Promt,
    Pattern,
}

impl Default for ChatType {
    /// The chat pane starts by showing the chat text.
    fn default() -> (c: ChatType)
        ensures
            c == ChatType::ChatTv,
    {
        ChatType::ChatTv
    }
}

/// The chars of `lines` one after the other.
pub open spec fn joined(lines: Seq<Seq<char>>) -> Seq<char>
    decreases lines.len(),
{
    if lines.len() == 0 {
        Seq::empty()
    } else {
        joined(lines.drop_last()) + lines.last()
    }
}

/// The message sent for a prompt: the file lines selected for it, then a
/// line break, then what was typed in the prompt box.
pub open spec fn message_of(selected: Seq<Seq<char>>, typed: Seq<char>) -> Seq<char> {
    joined(selected) + seq!['\n'] + typed
}

/// Builds the message sent for a prompt from the selected file lines and the
/// text typed in the prompt box.
pub fn compose_message(selected: &Vec<String>, typed: &str) -> (m: String)
    ensures
        m@ == message_of(selected@.map_values(|l: String| l@), typed@),
{
    let ghost lines = selected@.map_values(|l: String| l@);
    let mut message = String::new();
    let mut i: usize = 0;
    while i < selected.len()
        invariant
            i <= selected.len(),
            lines == selected@.map_values(|l: String| l@),
            message@ == joined(lines.take(i as int)),
        decreases selected.len() - i,
    {
        message.append(selected[i].as_str());
        assert(lines.take(i + 1).drop_last() =~= lines.take(i as int));
        i += 1;
    }
    assert(lines.take(selected.len() as int) =~= lines);
    let nl = String::from_str("\n");
    proof {
        reveal_strlit("\n");
    }
    message.append(nl.as_str());
    message.append(typed);
    assert(message@ =~= message_of(lines, typed@));
    message
}

/// The rule of dashes that frames a prompt in the chat text, with its line
/// break.
pub open spec fn prompt_rule() -> Seq<char> {
    "----------------------------\n"@
}

/// A prompt as the chat text shows it: between two rules.
pub open spec fn framed(message: Seq<char>) -> Seq<char> {
    prompt_rule() + message + seq!['\n'] + prompt_rule()
}

/// Frames `message` between two rules for the chat text.
pub fn frame_prompt(message: &str) -> (f: String)
    ensures
        f@ == framed(message@),
{
    let rule = "----------------------------\n";
    let mut framed_text = String::from_str(rule);
    framed_text.append(message);
    let nl = String::from_str("\n");
    proof {
        reveal_strlit("\n");
    }
    framed_text.append(nl.as_str());
    framed_text.append(rule);
    assert(framed_text@ =~= framed(message@));
    framed_text
}

/// A framed prompt is the prompt between two lines of 28 dashes: it starts
/// with 28 dashes and a line break, goes on with the prompt and a line
/// break, and ends with 28 dashes and a line break.
pub proof fn lemma_framed_shape(message: Seq<char>)
    ensures
        framed(message).len() == message.len() + 59,
        forall|i: int| 0 <= i < 28 ==> framed(message)[i] == '-',
        framed(message)[28] == '\n',
        framed(message).subrange(29, 29 + message.len() as int) == message,
        framed(message)[29 + message.len() as int] == '\n',
        forall|i: int| 30 + message.len() <= i < 58 + message.len() ==> framed(message)[i] == '-',
        framed(message)[58 + message.len() as int] == '\n',
{
    reveal_strlit("----------------------------\n");
    assert(framed(message).subrange(29, 29 + message.len() as int) =~= message);
}

/// The message is the selected lines one after another, a line break, then
/// what was typed: it ends with the typed text after a line break, and
/// starts with the selected lines.
pub proof fn lemma_message_shape(selected: Seq<Seq<char>>, typed: Seq<char>)
    ensures
        message_of(selected, typed).len() == joined(selected).len() + 1 + typed.len(),
        message_of(selected, typed).subrange(0, joined(selected).len() as int) == joined(selected),
        message_of(selected, typed)[joined(selected).len() as int] == '\n',
        message_of(selected, typed).subrange(
            joined(selected).len() + 1 as int,
            message_of(selected, typed).len() as int,
        ) == typed,
        selected.len() == 0 ==> message_of(selected, typed) == seq!['\n'] + typed,
{
    assert(message_of(selected, typed).subrange(0, joined(selected).len() as int) =~= joined(selected));
    assert(message_of(selected, typed).subrange(
        joined(selected).len() + 1 as int,
        message_of(selected, typed).len() as int,
    ) =~= typed);
    if selected.len() == 0 {
        assert(message_of(selected, typed) =~= seq!['\n'] + typed);
    }
}

/// Whether every char of `s` is whitespace.
pub open spec fn all_white_space(s: Seq<char>) -> bool {
    forall|k: int| 0 <= k < s.len() ==> is_white_space(#[trigger] s[k])
}

/// Whether a prompt message holds nothing but whitespace, so that it is not
/// sent.
pub fn is_blank(message: &str) -> (b: bool)
    ensures
        b == all_white_space(message@),
{
    let t = trim_str(message);
    let r = t.is_empty();
    proof {
        let s = message@;
        let (a, c) = choose|a: int, b: int|
            {
                &&& 0 <= a <= b <= s.len()
                &&& t@ == s.subrange(a, b)
                &&& forall|k: int| 0 <= k < a ==> is_white_space(#[trigger] s[k])
                &&& forall|k: int| b <= k < s.len() ==> is_white_space(#[trigger] s[k])
                &&& a < b ==> !is_white_space(s[a]) && !is_white_space(s[b - 1])
            };
        if r {
            assert forall|k: int| 0 <= k < s.len() implies is_white_space(#[trigger] s[k]) by {
                if k < a {
                } else {
                    assert(k >= c);
                }
            }
        } else {
            assert(!is_white_space(s[a]));
        }
    }
    r
}

} // verus!

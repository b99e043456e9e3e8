//! What the plugin's commands answer: the messages that they send and the
//! code that they return, from the facts that the caller has gathered.

use vstd::prelude::*;
use vstd::string::StringExecFns;

pub mod account;
pub mod balance;
pub mod accounts_admin;
pub mod log;
pub mod revert;
pub mod pay;
pub mod pay_laws;
pub mod report_laws;

verus! {

/// The colors that the commands write in.
#[derive(Clone, Copy, Debug, PartialEq, Eq, Structural)]
pub enum NamedColor {
    DarkRed,
    Green,
    White,
    Aqua,
}

/// A piece of text with its color and, where it is set, its weight.
#[derive(Clone, Debug, PartialEq, Eq)]
pub struct Styled {
    pub text: String,
    pub color: NamedColor,
    pub bold: Option<bool>,
}

/// A message to a player: a styled text, and possibly a second styled text
/// appended to it.
#[derive(Clone, Debug, PartialEq, Eq)]
pub struct Message {
    pub head: Styled,
    pub child: Option<Styled>,
}

/// The view of a styled text.
pub struct StyledView {
    pub text: Seq<char>,
    pub color: NamedColor,
    pub bold: Option<bool>,
}

/// The view of a message.
pub struct MessageView {
    pub head: StyledView,
    pub child: Option<StyledView>,
}

impl View for Styled {
    type V = StyledView;

    open spec fn view(&self) -> StyledView {
        StyledView { text: self.text@, color: self.color, bold: self.bold }
    }
}

impl View for Message {
    type V = MessageView;

    open spec fn view(&self) -> MessageView {
        MessageView {
            head: self.head@,
            child: match self.child {
                Some(c) => Some(c@),
                None => None,
            },
        }
    }
}

/// What a command sends back to the player that ran it, and its return code.
#[derive(Clone, Debug, PartialEq, Eq)]
pub struct CommandOutcome {
    pub messages: Vec<Message>,
    pub code: i32,
}

/// The views of a list of messages.
pub open spec fn message_views(v: Seq<Message>) -> Seq<MessageView> {
    v.map_values(|m: Message| m@)
}

impl View for CommandOutcome {
    type V = (Seq<MessageView>, i32);

    open spec fn view(&self) -> (Seq<MessageView>, i32) {
        (message_views(self.messages@), self.code)
    }
}

/// A message of one styled text.
pub open spec fn line(text: Seq<char>, color: NamedColor, bold: Option<bool>) -> MessageView {
    MessageView { head: StyledView { text, color, bold }, child: None }
}

/// A message of one styled text.
pub fn say(text: String, color: NamedColor, bold: Option<bool>) -> (m: Message)
    ensures
        m@ == line(text@, color, bold),
{
    Message { head: Styled { text, color, bold }, child: None }
}

/// A message of one styled text, from a literal.
pub fn say_str(text: &str, color: NamedColor, bold: Option<bool>) -> (m: Message)
    ensures
        m@ == line(text@, color, bold),
{
    say(String::from_str(text), color, bold)
}

/// `a` followed by `b`.
pub fn join(a: &str, b: &str) -> (s: String)
    ensures
        s@ == a@ + b@,
{
    let mut s = String::from_str(a);
    s.append(b);
    s
}

/// `a`, `b` and `c` in a row.
pub fn join3(a: &str, b: &str, c: &str) -> (s: String)
    ensures
        s@ == a@ + b@ + c@,
{
    let mut s = String::from_str(a);
    s.append(b);
    s.append(c);
    s
}

/// A command's answer of no message.
pub fn silent(code: i32) -> (o: CommandOutcome)
    ensures
        o@ == (Seq::<MessageView>::empty(), code),
{
    let o = CommandOutcome { messages: Vec::new(), code };
    assert(message_views(o.messages@) =~= Seq::<MessageView>::empty());
    o
}

/// A command's answer of one message.
pub fn one(m: Message, code: i32) -> (o: CommandOutcome)
    ensures
        o@ == (seq![m@], code),
{
    let mut messages = Vec::new();
    messages.push(m);
    let o = CommandOutcome { messages, code };
    assert(message_views(o.messages@) =~= seq![m@]);
    o
}

/// The answer to a command whose player argument is missing.
pub fn missing_player(code: i32) -> (o: CommandOutcome)
    ensures
        o@ == (seq![line("Missing Argument: 'Player'"@, NamedColor::DarkRed, Some(true))], code),
{
    one(say_str("Missing Argument: 'Player'", NamedColor::DarkRed, Some(true)), code)
}

/// The permission that a command needs: the plugin's permission prefix and
/// the command's part.
pub fn permission_node(part: &str) -> (node: String)
    ensures
        node@ == "ConcelareEconomy:command."@ + part@,
{
    join("ConcelareEconomy:command.", part)
}

} // verus!

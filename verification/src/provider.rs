//! The provider identity and the request/response protocol layer: building
//! the wire payload for a chat-completion exchange and reading a parsed reply.

use vstd::prelude::*;

use crate::text::{
    append_escaped, append_u64, comma_join, dec_digits, json_escaped, lemma_comma_join_push,
    occurs_at, rfind_str, str_eq, trim_chars, trimmed,
};
use crate::tool::Capability;

verus! {

// ---------------------------------------------------------------------------
// Provider
// ---------------------------------------------------------------------------

/// One model-serving endpoint identity.  Immutable after construction.
#[derive(Debug)]
pub struct Provider {
    pub name: String,
    pub ip: String,
    pub port: u16,
}

impl Clone for Provider {
    fn clone(&self) -> (res: Self)
        ensures
            res == *self,
    {
        Provider { name: self.name.clone(), ip: self.ip.clone(), port: self.port }
    }
}

impl Provider {
    pub fn new(name: String, ip: String, port: u16) -> (r: Provider)
        ensures
            r.name == name,
            r.ip == ip,
            r.port == port,
    {
        Provider { name, ip, port }
    }

    /// The chat-completion URL of this endpoint.
    pub open spec fn spec_endpoint(&self) -> Seq<char> {
        "http://"@ + self.ip@ + ":"@ + dec_digits(self.port as nat) + "/v1/chat/completions"@
    }

    /// Renders the URL an exchange with this endpoint is addressed to.
    pub fn endpoint(&self) -> (r: String)
        ensures
            r@ == self.spec_endpoint(),
    {
        let mut out = String::new();
        out.append("http://");
        out.append(self.ip.as_str());
        out.append(":");
        append_u64(&mut out, self.port as u64);
        out.append("/v1/chat/completions");
        proof {
            assert(out@ =~= self.spec_endpoint());
        }
        out
    }
}

// ---------------------------------------------------------------------------
// Messages and roles
// ---------------------------------------------------------------------------

/// Who a message in the exchange speaks for.
#[derive(Clone, Copy, PartialEq, Eq, Structural, Debug)]
pub enum Roles {
    User,
    System,
    Assistant,
}

impl Roles {
    /// The lower-cased role name the wire format carries.
    pub open spec fn spec_name(self) -> Seq<char> {
        match self {
            Roles::User => "user"@,
            Roles::System => "system"@,
            Roles::Assistant => "assistant"@,
        }
    }

    pub fn name(&self) -> (r: &str)
        ensures
            r@ == self.spec_name(),
    {
        match self {
            Roles::User => "user",
            Roles::System => "system",
            Roles::Assistant => "assistant",
        }
    }

    /// Reads a role from its name, capitalised or not; any other text is
    /// rejected with `None`.
    pub fn from_name(s: &str) -> (r: Option<Roles>)
        ensures
            (s@ == "user"@ || s@ == "User"@) ==> r == Some(Roles::User),
            (s@ == "system"@ || s@ == "System"@) ==> r == Some(Roles::System),
            (s@ == "assistant"@ || s@ == "Assistant"@) ==> r == Some(Roles::Assistant),
            r == Some(Roles::User) ==> (s@ == "user"@ || s@ == "User"@),
            r == Some(Roles::System) ==> (s@ == "system"@ || s@ == "System"@),
            r == Some(Roles::Assistant) ==> (s@ == "assistant"@ || s@ == "Assistant"@),
            r is None ==> !(s@ == "user"@ || s@ == "User"@ || s@ == "system"@ || s@ == "System"@
                || s@ == "assistant"@ || s@ == "Assistant"@),
    {
        proof {
            reveal_strlit("user");
            reveal_strlit("User");
            reveal_strlit("system");
            reveal_strlit("System");
            reveal_strlit("assistant");
            reveal_strlit("Assistant");
            assert("user"@.len() == 4);
            assert("User"@.len() == 4);
            assert("system"@.len() == 6);
            assert("System"@.len() == 6);
            assert("assistant"@.len() == 9);
            assert("Assistant"@.len() == 9);
        }
        if str_eq(s, "user") || str_eq(s, "User") {
            Some(Roles::User)
        } else if str_eq(s, "system") || str_eq(s, "System") {
            Some(Roles::System)
        } else if str_eq(s, "assistant") || str_eq(s, "Assistant") {
            Some(Roles::Assistant)
        } else {
            None
        }
    }
}

/// One conversational message: a role, its text, and — on replies only — the
/// tool calls the model requested.
#[derive(Debug)]
pub struct Message {
    pub role: Roles,
    pub content: String,
    pub tool_calls: Option<Vec<ToolCall>>,
}

/// One requested tool call as a reply carries it.
#[derive(Debug)]
pub struct ToolCall {
    pub id: String,
    pub tool_calls_type: String,
    pub function: ToolCallFunction,
}

/// The payload of a requested tool call: a capability name and an argument
/// string.
#[derive(Debug)]
pub struct ToolCallFunction {
    pub name: String,
    pub arguments: String,
}

/// Token accounting a reply carries.
#[derive(Debug)]
pub struct Usage {
    pub prompt_tokens: u64,
    pub completion_tokens: u64,
    pub total_tokens: u64,
}

/// One alternative in a reply.
#[derive(Debug)]
pub struct Choice {
    pub index: u64,
    pub finish_reason: String,
    pub message: Message,
}

/// The two messages carry the same payload: the role, the text, and the
/// same tool-call list (compared by contents).
pub open spec fn msg_eq(a: Message, b: Message) -> bool {
    &&& a.role == b.role
    &&& a.content == b.content
    &&& match (a.tool_calls, b.tool_calls) {
        (Some(x), Some(y)) => x@ == y@,
        (None, None) => true,
        _ => false,
    }
}

impl Clone for ToolCallFunction {
    fn clone(&self) -> (res: Self)
        ensures
            res == *self,
    {
        ToolCallFunction { name: self.name.clone(), arguments: self.arguments.clone() }
    }
}

impl Clone for ToolCall {
    fn clone(&self) -> (res: Self)
        ensures
            res == *self,
    {
        ToolCall {
            id: self.id.clone(),
            tool_calls_type: self.tool_calls_type.clone(),
            function: self.function.clone(),
        }
    }
}

impl Clone for Message {
    fn clone(&self) -> (res: Self)
        ensures
            msg_eq(res, *self),
    {
        let calls: Option<Vec<ToolCall>> = match &self.tool_calls {
            Some(v) => {
                let mut out: Vec<ToolCall> = Vec::new();
                let n = v.len();
                let mut i: usize = 0;
                while i < n
                    invariant
                        n == v@.len(),
                        0 <= i <= n,
                        out@ =~= v@.take(i as int),
                    decreases n - i,
                {
                    out.push(v[i].clone());
                    proof {
                        assert(out@ =~= v@.take(i + 1));
                    }
                    i += 1;
                }
                proof {
                    assert(v@.take(n as int) =~= v@);
                }
                Some(out)
            },
            None => None,
        };
        Message { role: self.role, content: self.content.clone(), tool_calls: calls }
    }
}

// ---------------------------------------------------------------------------
// Request
// ---------------------------------------------------------------------------

/// A request under construction: a model name, the messages so far, and the
/// declarations of the capabilities offered to the model.  Builder methods
/// only add; nothing is removed.
#[derive(Debug)]
pub struct Request {
    pub model: String,
    pub messages: Vec<Message>,
    pub tools: Vec<String>,
}

/// The wire form of one message: the role name and the escaped text.
pub open spec fn message_json(m: Message) -> Seq<char> {
    "{\"role\":\""@ + m.role.spec_name() + "\",\"content\":\""@ + json_escaped(m.content@)
        + "\"}"@
}

/// The wire forms of the messages, in order.
pub open spec fn messages_json(ms: Seq<Message>) -> Seq<Seq<char>>
    decreases ms.len(),
{
    if ms.len() == 0 {
        Seq::<Seq<char>>::empty()
    } else {
        messages_json(ms.drop_last()).push(message_json(ms.last()))
    }
}

/// The declarations as they are embedded, verbatim, in order.
pub open spec fn tools_json(ts: Seq<String>) -> Seq<Seq<char>>
    decreases ts.len(),
{
    if ts.len() == 0 {
        Seq::<Seq<char>>::empty()
    } else {
        tools_json(ts.drop_last()).push(ts.last()@)
    }
}

/// The canonical payload: model, then messages, then tool declarations.
pub open spec fn spec_format(r: Request) -> Seq<char> {
    "{\"model\":\""@ + json_escaped(r.model@) + "\",\"messages\":["@ + comma_join(
        messages_json(r.messages@),
    ) + "],\"tools\":["@ + comma_join(tools_json(r.tools@)) + "]}"@
}

impl Request {
    /// An empty request for the named model.
    pub fn new(model: String) -> (r: Request)
        ensures
            r.model == model,
            r.messages@ == Seq::<Message>::empty(),
            r.tools@ == Seq::<String>::empty(),
    {
        Request { model, messages: Vec::new(), tools: Vec::new() }
    }

    /// Appends one message; everything else is kept: the result's messages
    /// are the old ones followed by this one, with its whole payload —
    /// role, text and tool-call list.
    pub fn add_message(self, message: &Message) -> (r: Request)
        ensures
            r.model == self.model,
            r.tools@ == self.tools@,
            r.messages@.len() == self.messages@.len() + 1,
            forall|i: int| 0 <= i < self.messages@.len() ==> r.messages@[i] == self.messages@[i],
            msg_eq(r.messages@.last(), *message),
    {
        let mut messages = self.messages;
        messages.push(message.clone());
        Request { model: self.model, messages, tools: self.tools }
    }

    /// Offers one capability: its declaration is appended verbatim.
    pub fn add_tool(self, tool: &Capability) -> (r: Request)
        ensures
            r.model == self.model,
            r.messages@ == self.messages@,
            r.tools@.len() == self.tools@.len() + 1,
            forall|i: int| 0 <= i < self.tools@.len() ==> r.tools@[i] == self.tools@[i],
            r.tools@.last()@ == tool.spec_declaration(),
    {
        let mut tools = self.tools;
        tools.push(tool.declaration());
        Request { model: self.model, messages: self.messages, tools }
    }

    /// Offers every capability in the slice, in order.
    pub fn add_tools(self, caps: &Vec<Capability>) -> (r: Request)
        ensures
            r.model == self.model,
            r.messages@ == self.messages@,
            r.tools@.len() == self.tools@.len() + caps@.len(),
            forall|i: int| 0 <= i < self.tools@.len() ==> r.tools@[i] == self.tools@[i],
            forall|k: int|
                0 <= k < caps@.len() ==> r.tools@[self.tools@.len() + k]@ == caps@[k].spec_declaration(),
    {
        let mut r = self;
        let ghost orig = r.tools@;
        let n = caps.len();
        let mut i: usize = 0;
        while i < n
            invariant
                n == caps@.len(),
                0 <= i <= n,
                r.model == self.model,
                r.messages@ == self.messages@,
                r.tools@.len() == orig.len() + i,
                forall|k: int| 0 <= k < orig.len() ==> r.tools@[k] == orig[k],
                forall|k: int| 0 <= k < i ==> r.tools@[orig.len() + k]@ == caps@[k].spec_declaration(),
                orig == self.tools@,
            decreases n - i,
        {
            r = r.add_tool(&caps[i]);
            i += 1;
        }
        r
    }

    /// Renders the canonical payload.
    pub fn format(&self) -> (r: String)
        ensures
            r@ == spec_format(*self),
    {
        let mut out = String::new();
        out.append("{\"model\":\"");
        append_escaped(&mut out, self.model.as_str());
        out.append("\",\"messages\":[");
        let ghost head = out@;
        let n = self.messages.len();
        let mut i: usize = 0;
        while i < n
            invariant
                n == self.messages@.len(),
                0 <= i <= n,
                out@ == head + comma_join(messages_json(self.messages@.take(i as int))),
            decreases n - i,
        {
            proof {
                assert(self.messages@.take(i + 1).drop_last() =~= self.messages@.take(i as int));
                assert(self.messages@.take(i + 1).last() == self.messages@[i as int]);
                lemma_comma_join_push(
                    messages_json(self.messages@.take(i as int)),
                    message_json(self.messages@[i as int]),
                );
                assert(messages_json(self.messages@.take(i + 1)) =~= messages_json(
                    self.messages@.take(i as int),
                ).push(message_json(self.messages@[i as int])));
            }
            if i > 0 {
                out.append(",");
            }
            proof {
                assert(i > 0 ==> messages_json(self.messages@.take(i as int)).len() > 0);
            }
            let m = &self.messages[i];
            out.append("{\"role\":\"");
            out.append(m.role.name());
            out.append("\",\"content\":\"");
            append_escaped(&mut out, m.content.as_str());
            out.append("\"}");
            proof {
                assert(out@ =~= head + comma_join(messages_json(self.messages@.take(i + 1))));
            }
            i += 1;
        }
        proof {
            assert(self.messages@.take(n as int) =~= self.messages@);
        }
        out.append("],\"tools\":[");
        let ghost head2 = out@;
        let tn = self.tools.len();
        let mut k: usize = 0;
        while k < tn
            invariant
                tn == self.tools@.len(),
                0 <= k <= tn,
                out@ == head2 + comma_join(tools_json(self.tools@.take(k as int))),
            decreases tn - k,
        {
            proof {
                assert(self.tools@.take(k + 1).drop_last() =~= self.tools@.take(k as int));
                assert(self.tools@.take(k + 1).last() == self.tools@[k as int]);
                lemma_comma_join_push(
                    tools_json(self.tools@.take(k as int)),
                    self.tools@[k as int]@,
                );
                assert(tools_json(self.tools@.take(k + 1)) =~= tools_json(
                    self.tools@.take(k as int),
                ).push(self.tools@[k as int]@));
            }
            if k > 0 {
                out.append(",");
            }
            proof {
                assert(k > 0 ==> tools_json(self.tools@.take(k as int)).len() > 0);
            }
            out.append(self.tools[k].as_str());
            proof {
                assert(out@ =~= head2 + comma_join(tools_json(self.tools@.take(k + 1))));
            }
            k += 1;
        }
        proof {
            assert(self.tools@.take(tn as int) =~= self.tools@);
        }
        out.append("]}");
        proof {
            assert(out@ =~= spec_format(*self));
        }
        out
    }
}

// ---------------------------------------------------------------------------
// Response
// ---------------------------------------------------------------------------

/// A parsed reply.  The transport hands raw bytes to the caller, who parses
/// them into this shape; a reply whose choice list is empty is rejected at
/// that boundary, so a value of this type always holds at least one choice
/// where the readers below require it.
#[derive(Debug)]
pub struct Response {
    pub id: String,
    pub object: String,
    pub created: u64,
    pub model: String,
    pub choices: Vec<Choice>,
    pub usage: Usage,
    pub system_fingerprint: String,
}

/// The marker that closes a leading reasoning trace.
pub open spec fn think_close() -> Seq<char> {
    "</think>"@
}

/// The tool calls one choice requests, in order; none when the list is absent.
pub open spec fn choice_calls(v: Option<Vec<ToolCall>>) -> Seq<ToolCallFunction>
{
    match v {
        Some(calls) => funcs_of(calls@),
        None => Seq::<ToolCallFunction>::empty(),
    }
}

/// The function payloads of a call list, in order.
pub open spec fn funcs_of(v: Seq<ToolCall>) -> Seq<ToolCallFunction>
    decreases v.len(),
{
    if v.len() == 0 {
        Seq::<ToolCallFunction>::empty()
    } else {
        funcs_of(v.drop_last()).push(v.last().function)
    }
}

/// Every choice's calls flattened, in choice order then intra-choice order.
pub open spec fn spec_tool_calls(cs: Seq<Choice>) -> Seq<ToolCallFunction>
    decreases cs.len(),
{
    if cs.len() == 0 {
        Seq::<ToolCallFunction>::empty()
    } else {
        spec_tool_calls(cs.drop_last()) + choice_calls(cs.last().message.tool_calls)
    }
}

impl Response {
    /// The first choice's text with any leading reasoning trace removed: the
    /// part strictly after the last `</think>` marker, trimmed of surrounding
    /// whitespace; the whole text trimmed when no marker occurs.
    pub fn content(&self) -> (r: String)
        requires
            self.choices@.len() > 0,
        ensures
            (forall|j: int| !occurs_at(self.choices@[0].message.content@, think_close(), j))
                ==> r@ == trimmed(self.choices@[0].message.content@),
            forall|i: int|
                (occurs_at(self.choices@[0].message.content@, think_close(), i) && (forall|j: int|
                    i < j ==> !occurs_at(self.choices@[0].message.content@, think_close(), j)))
                    ==> r@ == trimmed(
                    self.choices@[0].message.content@.skip(i + think_close().len() as int),
                ),
    {
        let s: &str = self.choices[0].message.content.as_str();
        proof {
            reveal_strlit("</think>");
        }
        let found = rfind_str(s, "</think>");
        match found {
            Some(pos) => {
                let n = s.unicode_len();
                let rest = s.substring_char(pos + 8, n);
                let r = trim_chars(rest);
                proof {
                    let c = self.choices@[0].message.content@;
                    assert(occurs_at(c, think_close(), pos as int));
                    assert(s@.subrange(pos + 8, n as int) =~= c.skip(pos + 8));
                    assert(forall|i: int|
                        (occurs_at(c, think_close(), i) && (forall|j: int|
                            i < j ==> !occurs_at(c, think_close(), j))) ==> i == pos);
                }
                r
            },
            None => trim_chars(s),
        }
    }

    /// The first choice's text, verbatim.
    pub fn full(&self) -> (r: String)
        requires
            self.choices@.len() > 0,
        ensures
            r == self.choices@[0].message.content,
    {
        self.choices[0].message.content.clone()
    }

    /// Every requested tool call, in choice order then intra-choice order.
    pub fn tool_calls(&self) -> (r: Vec<ToolCallFunction>)
        ensures
            r@ == spec_tool_calls(self.choices@),
    {
        let mut acc: Vec<ToolCallFunction> = Vec::new();
        let n = self.choices.len();
        let mut i: usize = 0;
        while i < n
            invariant
                n == self.choices@.len(),
                0 <= i <= n,
                acc@ == spec_tool_calls(self.choices@.take(i as int)),
            decreases n - i,
        {
            proof {
                assert(self.choices@.take(i + 1).drop_last() =~= self.choices@.take(i as int));
                assert(self.choices@.take(i + 1).last() == self.choices@[i as int]);
            }
            match &self.choices[i].message.tool_calls {
                Some(v) => {
                    let m = v.len();
                    let mut k: usize = 0;
                    while k < m
                        invariant
                            m == v@.len(),
                            0 <= k <= m,
                            acc@ == spec_tool_calls(self.choices@.take(i as int)) + funcs_of(
                                v@.take(k as int),
                            ),
                        decreases m - k,
                    {
                        proof {
                            assert(v@.take(k + 1).drop_last() =~= v@.take(k as int));
                            assert(v@.take(k + 1).last() == v@[k as int]);
                        }
                        acc.push(v[k].function.clone());
                        proof {
                            assert(acc@ =~= spec_tool_calls(self.choices@.take(i as int))
                                + funcs_of(v@.take(k + 1)));
                        }
                        k += 1;
                    }
                    proof {
                        assert(v@.take(m as int) =~= v@);
                        assert(acc@ =~= spec_tool_calls(self.choices@.take(i + 1)));
                    }
                },
                None => {
                    proof {
                        assert(acc@ =~= spec_tool_calls(self.choices@.take(i + 1)));
                    }
                },
            }
            i += 1;
        }
        proof {
            assert(self.choices@.take(n as int) =~= self.choices@);
        }
        acc
    }
}

} // verus!

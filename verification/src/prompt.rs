//! Building the conversation sent to the completion service: a fixed system
//! instruction, one fixed worked example, and the real request.
//!
//! The three fixed messages are byte-identical on every call; only the last
//! message varies, carrying the instruction and the file's current content in
//! named tags.

use vstd::prelude::*;
use vstd::string::StringExecFns;

verus! {

/// Who speaks a message of the conversation.
#[derive(Clone, Copy, Debug, PartialEq, Eq, Structural)]
pub enum Role {
    System,
    User,
    Assistant,
}

/// One role-tagged message of the conversation.
#[derive(Debug)]
pub struct Message {
    pub role: Role,
    pub content: String,
}

impl View for Message {
    type V = (Role, Seq<char>);

    open spec fn view(&self) -> (Role, Seq<char>) {
        (self.role, self.content@)
    }
}

/// The fixed system instruction: the assistant's role and the output
/// contract (reasoning and replacement content each inside their own tags,
/// nothing outside them).
pub open spec fn system_prompt() -> Seq<char> {
    "You are an expert code transformation assistant. Your task is to carefully refactor code based on the user's instruction and return only the modified file contents enclosed within <CHANGED_FILE_CONTENTS> tags. Additionally, provide your reasoning inside <REASONING> tags. Do not include any other text outside these tags."@
}

/// The fixed worked example's request.
pub open spec fn example_request() -> Seq<char> {
    "<INSTRUCTION>\nReplace all variable names that start with \"old_\" to start with \"new_\".\n</INSTRUCTION>\n\n<FILECONTENTS>\nlet old_value = 10;\nlet old_name = \"example\";\nlet other_var = 5;\n</FILECONTENTS>"@
}

/// The fixed worked example's reply, demonstrating correct tag usage.
pub open spec fn example_reply() -> Seq<char> {
    "<REASONING>\nThe instruction is to change all variable names that start with \"old_\" to \"new_\". This is a straightforward text transformation, so the variables old_value and old_name will be renamed to new_value and new_name, respectively. Variables that don't start with \"old_\" remain unchanged.\n</REASONING>\n\n<CHANGED_FILE_CONTENTS>\nlet new_value = 10;\nlet new_name = \"example\";\nlet other_var = 5;\n</CHANGED_FILE_CONTENTS>"@
}

/// The real request: the instruction and the file's current content, each
/// wrapped in its own named tags.
pub open spec fn request_content(instruction: Seq<char>, content: Seq<char>) -> Seq<char> {
    "<INSTRUCTION>\n"@ + instruction + "\n</INSTRUCTION>\n\n<FILECONTENTS>\n"@ + content
        + "\n</FILECONTENTS>"@
}

/// Builds the real request message's content.
pub fn build_request_content(instruction: &str, content: &str) -> (r: String)
    ensures
        r@ == request_content(instruction@, content@),
{
    let mut r = String::from_str("<INSTRUCTION>\n");
    r.append(instruction);
    r.append("\n</INSTRUCTION>\n\n<FILECONTENTS>\n");
    r.append(content);
    r.append("\n</FILECONTENTS>");
    r
}

/// Builds the four-message conversation for one attempt: the fixed system
/// instruction, the fixed worked example's request and reply, and the real
/// request built from `instruction` and the file's current `content`.
pub fn build_conversation(instruction: &str, content: &str) -> (msgs: Vec<Message>)
    ensures
        msgs@.len() == 4,
        msgs@[0]@ == (Role::System, system_prompt()),
        msgs@[1]@ == (Role::User, example_request()),
        msgs@[2]@ == (Role::Assistant, example_reply()),
        msgs@[3]@ == (Role::User, request_content(instruction@, content@)),
{
    let mut msgs: Vec<Message> = Vec::new();
    msgs.push(
        Message {
            role: Role::System,
            content: String::from_str(
                "You are an expert code transformation assistant. Your task is to carefully refactor code based on the user's instruction and return only the modified file contents enclosed within <CHANGED_FILE_CONTENTS> tags. Additionally, provide your reasoning inside <REASONING> tags. Do not include any other text outside these tags.",
            ),
        },
    );
    msgs.push(
        Message {
            role: Role::User,
            content: String::from_str(
                "<INSTRUCTION>\nReplace all variable names that start with \"old_\" to start with \"new_\".\n</INSTRUCTION>\n\n<FILECONTENTS>\nlet old_value = 10;\nlet old_name = \"example\";\nlet other_var = 5;\n</FILECONTENTS>",
            ),
        },
    );
    msgs.push(
        Message {
            role: Role::Assistant,
            content: String::from_str(
                "<REASONING>\nThe instruction is to change all variable names that start with \"old_\" to \"new_\". This is a straightforward text transformation, so the variables old_value and old_name will be renamed to new_value and new_name, respectively. Variables that don't start with \"old_\" remain unchanged.\n</REASONING>\n\n<CHANGED_FILE_CONTENTS>\nlet new_value = 10;\nlet new_name = \"example\";\nlet other_var = 5;\n</CHANGED_FILE_CONTENTS>",
            ),
        },
    );
    msgs.push(Message { role: Role::User, content: build_request_content(instruction, content) });
    msgs
}

} // verus!

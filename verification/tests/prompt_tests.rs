use refactor_assist::prompt::{build_conversation, Role};

const SYSTEM_PROMPT: &str = "You are an expert code transformation assistant. Your task is to carefully refactor code based on the user's instruction and return only the modified file contents enclosed within <CHANGED_FILE_CONTENTS> tags. Additionally, provide your reasoning inside <REASONING> tags. Do not include any other text outside these tags.";

#[test]
fn conversation_shape_and_roles() {
    let msgs = build_conversation("Do the thing.", "some content");
    assert_eq!(msgs.len(), 4);
    assert_eq!(msgs[0].role, Role::System);
    assert_eq!(msgs[1].role, Role::User);
    assert_eq!(msgs[2].role, Role::Assistant);
    assert_eq!(msgs[3].role, Role::User);
}

#[test]
fn fixed_messages_are_fixed() {
    let msgs = build_conversation("instruction one", "content one");
    assert_eq!(msgs[0].content, SYSTEM_PROMPT);
    assert!(msgs[1].content.starts_with("<INSTRUCTION>\nReplace all variable names"));
    assert!(msgs[1].content.ends_with("let other_var = 5;\n</FILECONTENTS>"));
    assert!(msgs[2].content.starts_with("<REASONING>\n"));
    assert!(msgs[2].content.ends_with("let other_var = 5;\n</CHANGED_FILE_CONTENTS>"));

    // The few-shot prefix is byte-identical on every call, whatever the
    // instruction and content of the real request.
    let again = build_conversation("another instruction", "other content");
    assert_eq!(msgs[0].content, again[0].content);
    assert_eq!(msgs[1].content, again[1].content);
    assert_eq!(msgs[2].content, again[2].content);
}

#[test]
fn request_message_wraps_instruction_and_content() {
    let msgs = build_conversation("Rename everything.", "fn main() {}\n");
    let expected = format!(
        "<INSTRUCTION>\n{}\n</INSTRUCTION>\n\n<FILECONTENTS>\n{}\n</FILECONTENTS>",
        "Rename everything.", "fn main() {}\n"
    );
    assert_eq!(msgs[3].content, expected);
}

#[test]
fn example_reply_parses_with_the_extractor() {
    // The worked example the prompt shows the model must itself satisfy the
    // output contract the extractor enforces.
    let msgs = build_conversation("x", "y");
    let extracted = refactor_assist::extract::extract_changed_contents(&msgs[2].content).unwrap();
    assert_eq!(extracted, "let new_value = 10;\nlet new_name = \"example\";\nlet other_var = 5;");
}

//! The caller-facing data model: which provider to ask, with which model,
//! and the conversation to send.
use vstd::prelude::*;

verus! {

/// The large-language-model providers a question can be sent to.
#[derive(Debug, Clone, Copy, PartialEq, Eq, Structural)]
pub enum Framework {
    /// A hosted chat-completions API taking plain-text message contents.
    OpenAI,
    /// A hosted messages API taking content blocks and a separate system field.
    Anthropic,
    /// A locally hosted chat service reached through its own client.
    Ollama,
}

/// The lower-case display name of a provider.
pub open spec fn framework_name(f: Framework) -> Seq<char> {
    match f {
        Framework::OpenAI => "openai"@,
        Framework::Anthropic => "anthropic"@,
        Framework::Ollama => "ollama"@,
    }
}

impl Framework {
    /// The provider's lower-case display name (`"openai"`, `"anthropic"`, `"ollama"`).
    pub fn to_string(&self) -> (r: String)
        ensures
            r@ == framework_name(*self),
    {
        match self {
            Framework::OpenAI => String::from_str("openai"),
            Framework::Anthropic => String::from_str("anthropic"),
            Framework::Ollama => String::from_str("ollama"),
        }
    }
}

/// Which provider and model to ask, and an optional bound on the answer's length.
#[derive(Debug, Clone)]
pub struct AiConfig {
    /// The provider to use.
    pub llm: Framework,
    /// The model to query (e.g. "gpt-4", "llama2").
    pub model: String,
    /// The most tokens the answer may take; `None` leaves the provider's default.
    pub max_token: Option<u32>,
}

/// One completed exchange of a conversation: what the user said and what came back.
#[derive(Debug, Clone)]
pub struct AiPrompt {
    /// The user's input; left out of the outgoing messages when empty.
    pub content: String,
    /// The assistant's answer; left out of the outgoing messages when empty.
    pub output: String,
}

/// A question to ask, with optional instructions and earlier turns for context.
#[derive(Debug, Clone)]
pub struct Question {
    /// Instructions on how the assistant should behave.
    pub system_prompt: Option<String>,
    /// Earlier turns of the conversation, oldest first.
    pub messages: Option<Vec<AiPrompt>>,
    /// The new prompt from the user.
    pub new_prompt: String,
}

impl Question {
    /// The earlier turns, oldest first; none when `messages` is absent.
    pub open spec fn history(&self) -> Seq<AiPrompt> {
        match self.messages {
            Some(turns) => turns@,
            None => Seq::empty(),
        }
    }

    /// The system instructions, or the empty text when there are none.
    pub open spec fn system_text(&self) -> Seq<char> {
        match self.system_prompt {
            Some(s) => s@,
            None => Seq::empty(),
        }
    }
}

/// The view of an optional string.
pub open spec fn opt_view(o: Option<String>) -> Option<Seq<char>> {
    match o {
        Some(s) => Some(s@),
        None => None,
    }
}

} // verus!

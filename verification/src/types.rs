//! Roles and errors.

use vstd::prelude::*;

verus! {

pub const SYSTEM_ROLE: &'static str = "system";

pub const ASSISTANT_ROLE: &'static str = "assistant";

pub const USER_ROLE: &'static str = "user";

pub const FUNCTION_ROLE: &'static str = "function";

/// The part a message plays in a conversation.
#[derive(Debug, Clone, Copy, PartialEq, Eq, Structural)]
pub enum WrapperRole {
    System,
    User,
    Assistant,
    Function,
}

/// Whether a text names one of the four roles.
pub open spec fn is_role_name(name: Seq<char>) -> bool {
    name == SYSTEM_ROLE@ || name == ASSISTANT_ROLE@ || name == USER_ROLE@ || name
        == FUNCTION_ROLE@
}

/// The role that a text names.
pub open spec fn role_named(name: Seq<char>) -> WrapperRole
    recommends
        is_role_name(name),
{
    if name == SYSTEM_ROLE@ {
        WrapperRole::System
    } else if name == ASSISTANT_ROLE@ {
        WrapperRole::Assistant
    } else if name == USER_ROLE@ {
        WrapperRole::User
    } else {
        WrapperRole::Function
    }
}

impl WrapperRole {
    /// The name under which the role is stored and sent.
    pub open spec fn spec_name(self) -> Seq<char> {
        match self {
            WrapperRole::System => SYSTEM_ROLE@,
            WrapperRole::Assistant => ASSISTANT_ROLE@,
            WrapperRole::User => USER_ROLE@,
            WrapperRole::Function => FUNCTION_ROLE@,
        }
    }

    /// The name under which the role is stored and sent.
    pub fn name(&self) -> (name: &'static str)
        ensures
            name@ == self.spec_name(),
    {
        match self {
            WrapperRole::System => SYSTEM_ROLE,
            WrapperRole::Assistant => ASSISTANT_ROLE,
            WrapperRole::User => USER_ROLE,
            WrapperRole::Function => FUNCTION_ROLE,
        }
    }

    /// Reads a role from its name. Any other text is an invalid role.
    pub fn parse(name: &str) -> (role: Result<WrapperRole, WeaveError>)
        ensures
            is_role_name(name@) ==> role == Ok::<WrapperRole, WeaveError>(role_named(name@)),
            !is_role_name(name@) ==> role is Err && role->Err_0 is InvalidRole
                && role->Err_0->InvalidRole_0@ == name@,
    {
        let text = String::from_str(name);
        if text == String::from_str(SYSTEM_ROLE) {
            Ok(WrapperRole::System)
        } else if text == String::from_str(ASSISTANT_ROLE) {
            Ok(WrapperRole::Assistant)
        } else if text == String::from_str(USER_ROLE) {
            Ok(WrapperRole::User)
        } else if text == String::from_str(FUNCTION_ROLE) {
            Ok(WrapperRole::Function)
        } else {
            Err(WeaveError::InvalidRole(text))
        }
    }
}

impl Default for WrapperRole {
    fn default() -> (role: WrapperRole)
        ensures
            role == WrapperRole::User,
    {
        WrapperRole::User
    }
}

/// The four role names are pairwise different, so a role is read back from
/// its own name.
pub proof fn lemma_role_name_round_trip(role: WrapperRole)
    ensures
        is_role_name(role.spec_name()),
        role_named(role.spec_name()) == role,
{
    reveal_strlit("system");
    reveal_strlit("assistant");
    reveal_strlit("user");
    reveal_strlit("function");
    assert(SYSTEM_ROLE@.len() == 6);
    assert(ASSISTANT_ROLE@.len() == 9);
    assert(USER_ROLE@.len() == 4);
    assert(FUNCTION_ROLE@.len() == 8);
}

/// Why a turn was not carried out.
#[derive(Debug, Clone, PartialEq, Eq)]
pub enum WeaveError {
    /// The configuration asks for what the model cannot give.
    BadConfig(String),
    /// No tokens are left for a response.
    BudgetExhausted,
    /// The completion service failed or returned no text.
    CompletionFailed(String),
    /// A message carries a role outside the four known ones.
    InvalidRole(String),
}

/// Why the store could not fetch or save a fragment.
#[derive(Debug, Clone, PartialEq, Eq)]
pub enum StorageError {
    /// The storage backend failed.
    Redis(String),
    /// What was stored could not be read as a fragment.
    Parsing,
    /// Nothing is stored where something was expected.
    NotFound,
}

/// Any failure of a turn.
#[derive(Debug, Clone, PartialEq, Eq)]
pub enum LoomError {
    Weave(WeaveError),
    Storage(StorageError),
}

impl WeaveError {
    /// The text that describes the error.
    pub open spec fn spec_message(self) -> Seq<char> {
        match self {
            WeaveError::BadConfig(msg) => "Bad configuration: "@ + msg@,
            WeaveError::BudgetExhausted => "No tokens left for a response"@,
            WeaveError::CompletionFailed(msg) => "Failed to prompt OpenAI: "@ + msg@,
            WeaveError::InvalidRole(role) => "Bad OpenAI role: "@ + role@,
        }
    }

    /// Describes the error.
    pub fn message(&self) -> (text: String)
        ensures
            text@ == self.spec_message(),
    {
        match self {
            WeaveError::BadConfig(msg) => String::from_str("Bad configuration: ").concat(
                msg.as_str(),
            ),
            WeaveError::BudgetExhausted => String::from_str("No tokens left for a response"),
            WeaveError::CompletionFailed(msg) => String::from_str(
                "Failed to prompt OpenAI: ",
            ).concat(msg.as_str()),
            WeaveError::InvalidRole(role) => String::from_str("Bad OpenAI role: ").concat(
                role.as_str(),
            ),
        }
    }
}

impl StorageError {
    /// The text that describes the error.
    pub open spec fn spec_message(self) -> Seq<char> {
        match self {
            StorageError::Redis(msg) => "Redis error: "@ + msg@,
            StorageError::Parsing => "Parsing error"@,
            StorageError::NotFound => "Not found"@,
        }
    }

    /// Describes the error.
    pub fn message(&self) -> (text: String)
        ensures
            text@ == self.spec_message(),
    {
        match self {
            StorageError::Redis(msg) => String::from_str("Redis error: ").concat(msg.as_str()),
            StorageError::Parsing => String::from_str("Parsing error"),
            StorageError::NotFound => String::from_str("Not found"),
        }
    }
}

impl LoomError {
    /// The text that describes the error: that of the error inside.
    pub open spec fn spec_message(self) -> Seq<char> {
        match self {
            LoomError::Weave(e) => e.spec_message(),
            LoomError::Storage(e) => e.spec_message(),
        }
    }

    /// Describes the error.
    pub fn message(&self) -> (text: String)
        ensures
            text@ == self.spec_message(),
    {
        match self {
            LoomError::Weave(e) => e.message(),
            LoomError::Storage(e) => e.message(),
        }
    }
}

impl From<WeaveError> for LoomError {
    fn from(e: WeaveError) -> (err: LoomError) {
        LoomError::Weave(e)
    }
}

impl vstd::std_specs::convert::FromSpecImpl<WeaveError> for LoomError {
    open spec fn obeys_from_spec() -> bool {
        true
    }

    open spec fn from_spec(e: WeaveError) -> LoomError {
        LoomError::Weave(e)
    }
}

impl From<StorageError> for LoomError {
    fn from(e: StorageError) -> (err: LoomError) {
        LoomError::Storage(e)
    }
}

impl vstd::std_specs::convert::FromSpecImpl<StorageError> for LoomError {
    open spec fn obeys_from_spec() -> bool {
        true
    }

    open spec fn from_spec(e: StorageError) -> LoomError {
        LoomError::Storage(e)
    }
}

} // verus!

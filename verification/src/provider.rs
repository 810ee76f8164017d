//! Which provider instance a conversation belongs to, and how it continues.
//!
//! The types that a contract has to take apart are generic in their string type:
//! `String` at run time, `Seq<char>` in the contracts.

use crate::text;
use vstd::prelude::*;

verus! {

/// A provider instance, and the driver that runs it.
#[derive(Debug, PartialEq, Eq)]
pub struct ProviderIdentity<S> {
    pub instance_id: S,
    pub driver: S,
}

impl View for ProviderIdentity<String> {
    type V = ProviderIdentity<Seq<char>>;

    open spec fn view(&self) -> ProviderIdentity<Seq<char>> {
        ProviderIdentity { instance_id: self.instance_id@, driver: self.driver@ }
    }
}

impl ProviderIdentity<String> {
    /// Whether this is the same instance run by the same driver.
    pub fn same(&self, other: &ProviderIdentity<String>) -> (out: bool)
        ensures
            out == (self@ == other@),
    {
        text::same(&self.instance_id, &other.instance_id) && text::same(&self.driver, &other.driver)
    }

    /// A copy.
    pub fn copy(&self) -> (out: ProviderIdentity<String>)
        ensures
            out == *self,
    {
        ProviderIdentity { instance_id: self.instance_id.clone(), driver: self.driver.clone() }
    }
}

/// Opaque continuation data of one provider instance. `value` is the text the
/// driver minted; nothing here reads it.
#[derive(Debug, PartialEq, Eq)]
pub struct ResumeCursor<S> {
    pub provider: ProviderIdentity<S>,
    pub value: S,
}

impl View for ResumeCursor<String> {
    type V = ResumeCursor<Seq<char>>;

    open spec fn view(&self) -> ResumeCursor<Seq<char>> {
        ResumeCursor { provider: self.provider@, value: self.value@ }
    }
}

impl ResumeCursor<String> {
    /// A copy.
    pub fn copy(&self) -> (out: ResumeCursor<String>)
        ensures
            out == *self,
    {
        ResumeCursor { provider: self.provider.copy(), value: self.value.clone() }
    }
}

/// The drivers that this server has.
#[derive(Debug, Clone, Copy, PartialEq, Eq, Structural)]
pub enum DriverKind {
    Claude,
    Codex,
    OpenCode,
}

impl DriverKind {
    /// How it is written.
    pub open spec fn word(self) -> Seq<char> {
        match self {
            DriverKind::Claude => "claudeAgent"@,
            DriverKind::Codex => "codex"@,
            DriverKind::OpenCode => "opencode"@,
        }
    }

    /// What a word names.
    pub open spec fn reading(word: Seq<char>) -> Option<Self> {
        if word == "claudeAgent"@ {
            Some(DriverKind::Claude)
        } else if word == "codex"@ {
            Some(DriverKind::Codex)
        } else if word == "opencode"@ {
            Some(DriverKind::OpenCode)
        } else {
            None
        }
    }

    /// How it is written.
    pub fn as_str(self) -> (out: &'static str)
        ensures
            out@ == self.word(),
    {
        match self {
            DriverKind::Claude => "claudeAgent",
            DriverKind::Codex => "codex",
            DriverKind::OpenCode => "opencode",
        }
    }

    /// What a word names.
    pub fn named(word: &str) -> (out: Option<Self>)
        ensures
            out == Self::reading(word@),
    {
        if text::same(word, "claudeAgent") {
            Some(DriverKind::Claude)
        } else if text::same(word, "codex") {
            Some(DriverKind::Codex)
        } else if text::same(word, "opencode") {
            Some(DriverKind::OpenCode)
        } else {
            None
        }
    }

    /// The command that runs its agent: its word, without the ending `Agent`.
    pub open spec fn command(self) -> Seq<char> {
        if "Agent"@.is_suffix_of(self.word()) {
            self.word().take(self.word().len() - "Agent"@.len())
        } else {
            self.word()
        }
    }

    /// What people call it.
    pub open spec fn label(self) -> Seq<char> {
        match self {
            DriverKind::OpenCode => "OpenCode"@,
            _ => text::capitalised(self.command()),
        }
    }

    /// The command that runs its agent.
    pub fn command_name(self) -> (out: String)
        ensures
            out@ == self.command(),
    {
        let word = self.as_str();
        if text::ends_with(word, "Agent") {
            let chars = text::characters(word);
            proof {
                reveal_strlit("Agent");
            }
            let out = text::slice(&chars, 0, chars.len() - 5);
            proof {
                assert(out@ =~= self.command());
            }
            out
        } else {
            word.to_owned()
        }
    }

    /// What people call it.
    pub fn display_name(self) -> (out: String)
        ensures
            out@ == self.label(),
    {
        match self {
            DriverKind::OpenCode => "OpenCode".to_owned(),
            _ => text::capitalise(&self.command_name()),
        }
    }
}

/// Every driver is read back from its word.
pub proof fn driver_kind_reads_back(x: DriverKind)
    ensures
        DriverKind::reading(x.word()) == Some(x),
{
    reveal_strlit("claudeAgent");
    reveal_strlit("codex");
    reveal_strlit("opencode");
    assert("claudeAgent"@.len() == 11);
    assert("codex"@.len() == 5);
    assert("opencode"@.len() == 8);
}

/// The instance that the first driver has without being configured.
pub const CLAUDE_INSTANCE_ID: &'static str = "claudeAgent";

/// The instance that the Codex driver has without being configured.
pub const CODEX_INSTANCE_ID: &'static str = "codex";

/// A driver's command is its name, without the ending of an agent where it has one,
/// and it is shown by its command with a capital, but for the one that is written
/// otherwise.
pub proof fn a_driver_is_run_by_its_command(kind: DriverKind)
    ensures
        DriverKind::Claude.word() == "claudeAgent"@,
        DriverKind::Codex.word() == "codex"@,
        DriverKind::OpenCode.word() == "opencode"@,
        DriverKind::Claude.command() + "Agent"@ == "claudeAgent"@,
        DriverKind::Codex.command() == "codex"@,
        DriverKind::OpenCode.command() == "opencode"@,
        !(kind is OpenCode) ==> kind.label() == text::capitalised(kind.command()),
        DriverKind::OpenCode.label() == "OpenCode"@,
{
    reveal_strlit("claudeAgent");
    reveal_strlit("codex");
    reveal_strlit("opencode");
    reveal_strlit("Agent");
    let whole = "claudeAgent"@;
    assert(whole.subrange(6, 11) =~= "Agent"@);
    assert("Agent"@.is_suffix_of(whole));
    assert(whole.take(6) + "Agent"@ =~= whole);
    assert("codex"@[0] != "Agent"@[0]);
    assert(!"Agent"@.is_suffix_of("codex"@)) by {
        assert("codex"@.subrange(0, 5)[0] == 'c');
    }
    assert(!"Agent"@.is_suffix_of("opencode"@)) by {
        assert("opencode"@.subrange(3, 8)[0] == 'n');
    }
}

} // verus!

//! The per-VM packet-filter chain that cuts a VM off from every network.
//!
//! The library names the chain, builds the commands that manage it and
//! decides what follows each command's outcome. Running the commands is
//! left to the caller.

use crate::text::{
    chars_of, concat, contains_seq, same_text, starts_with_seq, str_contains, string_from_chars,
    trim_blanks, trim_seq,
};
use vstd::prelude::*;

verus! {

/// The tag that every chain name starts with.
pub const CHAIN_PREFIX: &'static str = "IRONCLAW_";

/// The greatest length of a chain name that the packet filter takes.
pub const MAX_CHAIN_NAME_LEN: usize = 28;

/// Whether a character may stand in a chain name as it is.
pub open spec fn is_name_char(c: char) -> bool {
    ('a' <= c <= 'z') || ('A' <= c <= 'Z') || ('0' <= c <= '9') || c == '_'
}

/// A character as it stands in a chain name: itself, or an underscore in
/// place of anything that may not stand there.
pub open spec fn sanitized_char(c: char) -> char {
    if is_name_char(c) {
        c
    } else {
        '_'
    }
}

/// An identifier with every character made fit for a chain name.
pub open spec fn sanitized(id: Seq<char>) -> Seq<char> {
    Seq::new(id.len(), |i: int| sanitized_char(id[i]))
}

/// How many characters of an identifier go into a chain name: as many as
/// fit beside the tag.
pub const MAX_ID_CHARS: usize = 19;

/// The part of an identifier that goes into a chain name: all of it, or
/// its start where it is too long.
pub open spec fn kept_id(vm_id: Seq<char>) -> Seq<char> {
    if vm_id.len() <= MAX_ID_CHARS {
        vm_id
    } else {
        vm_id.take(MAX_ID_CHARS as int)
    }
}

/// The chain name of the VM `vm_id`: the tag, then the sanitized
/// identifier, as far as the packet filter's limit lets it go.
pub open spec fn chain_name_of(vm_id: Seq<char>) -> Seq<char> {
    CHAIN_PREFIX@ + sanitized(kept_id(vm_id))
}

/// Every character of the sequence may stand in a chain name.
pub open spec fn all_name_chars(s: Seq<char>) -> bool {
    forall|i: int| 0 <= i < s.len() ==> is_name_char(#[trigger] s[i])
}

/// A chain name starts with the tag, holds only letters, digits and
/// underscores, and is never longer than the packet filter takes. Of an
/// identifier that fits beside the tag, nothing is cut off.
pub proof fn lemma_chain_name_shape(vm_id: Seq<char>)
    ensures
        starts_with_seq(chain_name_of(vm_id), CHAIN_PREFIX@),
        all_name_chars(chain_name_of(vm_id)),
        chain_name_of(vm_id).len() <= MAX_CHAIN_NAME_LEN,
        chain_name_of(vm_id).len() == 9 + kept_id(vm_id).len(),
        vm_id.len() <= MAX_ID_CHARS ==> chain_name_of(vm_id).len() == 9 + vm_id.len(),
{
    reveal_strlit("IRONCLAW_");
    let name = chain_name_of(vm_id);
    assert(name.subrange(0, 9) =~= CHAIN_PREFIX@);
    assert forall|i: int| 0 <= i < name.len() implies is_name_char(#[trigger] name[i]) by {
        if i >= 9 {
            assert(name[i] == sanitized_char(kept_id(vm_id)[i - 9]));
        }
    }
}

/// Identifiers that fit beside the tag and need no sanitizing get chain
/// names of their own: two different ones never share a chain.
pub proof fn lemma_chain_names_distinct(a: Seq<char>, b: Seq<char>)
    requires
        all_name_chars(a),
        all_name_chars(b),
        a.len() <= MAX_ID_CHARS,
        b.len() <= MAX_ID_CHARS,
        a != b,
    ensures
        chain_name_of(a) != chain_name_of(b),
{
    reveal_strlit("IRONCLAW_");
    if chain_name_of(a) == chain_name_of(b) {
        assert(chain_name_of(a).len() == 9 + a.len());
        assert(chain_name_of(b).len() == 9 + b.len());
        assert forall|i: int| 0 <= i < a.len() implies a[i] == b[i] by {
            assert(chain_name_of(a)[9 + i] == sanitized_char(a[i]));
            assert(chain_name_of(b)[9 + i] == sanitized_char(b[i]));
        }
        assert(a =~= b);
    }
}

/// The tables of the host that a chain can be linked into.
#[derive(Debug, Clone, Copy, PartialEq, Eq, Structural)]
pub enum HostTable {
    Input,
    Forward,
}

impl HostTable {
    /// The table's name.
    pub open spec fn name(self) -> Seq<char> {
        match self {
            HostTable::Input => "INPUT"@,
            HostTable::Forward => "FORWARD"@,
        }
    }

    /// The table's name.
    pub fn as_str(&self) -> (out: &'static str)
        ensures
            out@ == self.name(),
    {
        match self {
            HostTable::Input => "INPUT",
            HostTable::Forward => "FORWARD",
        }
    }
}

/// The commands that manage a chain.
#[derive(Debug, Clone, PartialEq, Eq)]
pub enum FirewallCommand {
    /// Ask the packet filter for its version.
    CheckInstalled,
    /// Ask for the numeric id of the user.
    CheckRoot,
    /// Create the chain.
    CreateChain,
    /// Append the unconditional drop rule.
    AppendDrop,
    /// List the chain.
    ListChain,
    /// Remove all rules of the chain.
    FlushChain,
    /// Delete the chain.
    DeleteChain,
    /// Remove one jump to the chain from a table of the host.
    Unlink(HostTable),
    /// Insert, at the top of a table of the host, a jump to the chain for
    /// the packets of one interface.
    Link(HostTable, String),
}

/// The views of a list of words.
pub open spec fn words_model(words: Seq<String>) -> Seq<Seq<char>> {
    Seq::new(words.len(), |i: int| words[i]@)
}

impl FirewallCommand {
    /// The program that the command runs.
    pub open spec fn program_name(self) -> Seq<char> {
        match self {
            FirewallCommand::CheckRoot => "id"@,
            _ => "iptables"@,
        }
    }

    /// The arguments of the command, for the chain `chain`.
    pub open spec fn arguments(self, chain: Seq<char>) -> Seq<Seq<char>> {
        match self {
            FirewallCommand::CheckInstalled => seq!["--version"@],
            FirewallCommand::CheckRoot => seq!["-u"@],
            FirewallCommand::CreateChain => seq!["-N"@, chain],
            FirewallCommand::AppendDrop => seq!["-A"@, chain, "-j"@, "DROP"@],
            FirewallCommand::ListChain => seq!["-L"@, chain],
            FirewallCommand::FlushChain => seq!["-F"@, chain],
            FirewallCommand::DeleteChain => seq!["-X"@, chain],
            FirewallCommand::Unlink(table) => seq!["-D"@, table.name(), "-j"@, chain],
            FirewallCommand::Link(table, interface) => seq![
                "-I"@,
                table.name(),
                "-i"@,
                interface@,
                "-j"@,
                chain,
            ],
        }
    }

    /// The program that the command runs.
    pub fn program(&self) -> (out: &'static str)
        ensures
            out@ == self.program_name(),
    {
        match self {
            FirewallCommand::CheckRoot => "id",
            _ => "iptables",
        }
    }

    /// The arguments of the command, for the chain `chain`.
    pub fn args(&self, chain: &str) -> (out: Vec<String>)
        ensures
            words_model(out@) == self.arguments(chain@),
    {
        let mut out: Vec<String> = Vec::new();
        match self {
            FirewallCommand::CheckInstalled => {
                out.push("--version".to_owned());
            },
            FirewallCommand::CheckRoot => {
                out.push("-u".to_owned());
            },
            FirewallCommand::CreateChain => {
                out.push("-N".to_owned());
                out.push(chain.to_owned());
            },
            FirewallCommand::AppendDrop => {
                out.push("-A".to_owned());
                out.push(chain.to_owned());
                out.push("-j".to_owned());
                out.push("DROP".to_owned());
            },
            FirewallCommand::ListChain => {
                out.push("-L".to_owned());
                out.push(chain.to_owned());
            },
            FirewallCommand::FlushChain => {
                out.push("-F".to_owned());
                out.push(chain.to_owned());
            },
            FirewallCommand::DeleteChain => {
                out.push("-X".to_owned());
                out.push(chain.to_owned());
            },
            FirewallCommand::Unlink(table) => {
                out.push("-D".to_owned());
                out.push(table.as_str().to_owned());
                out.push("-j".to_owned());
                out.push(chain.to_owned());
            },
            FirewallCommand::Link(table, interface) => {
                out.push("-I".to_owned());
                out.push(table.as_str().to_owned());
                out.push("-i".to_owned());
                out.push(interface.clone());
                out.push("-j".to_owned());
                out.push(chain.to_owned());
            },
        }
        assert(words_model(out@) =~= self.arguments(chain@));
        out
    }
}

/// Why the chain could not be set up.
#[derive(Debug, Clone, Copy, PartialEq, Eq, Structural)]
pub enum FirewallError {
    /// The packet filter is not installed or cannot be run.
    ToolMissing,
    /// The caller lacks the privilege to change the packet filter.
    NotPrivileged,
    /// The chain could not be created.
    CreateFailed,
    /// The drop rule could not be added.
    DropRuleFailed,
    /// The chain could not be linked into a table of the host.
    LinkFailed(HostTable),
}

impl FirewallError {
    /// The text that describes the failure.
    pub open spec fn message_text(self) -> Seq<char> {
        match self {
            FirewallError::ToolMissing => "iptables is not installed or not accessible"@,
            FirewallError::NotPrivileged => "Firewall configuration requires root privileges"@,
            FirewallError::CreateFailed => "Failed to create chain"@,
            FirewallError::DropRuleFailed => "Failed to add DROP rule"@,
            FirewallError::LinkFailed(HostTable::Input) => "Failed to link INPUT chain"@,
            FirewallError::LinkFailed(HostTable::Forward) => "Failed to link FORWARD chain"@,
        }
    }

    /// The text that describes the failure.
    pub fn message(&self) -> (out: String)
        ensures
            out@ == self.message_text(),
    {
        match self {
            FirewallError::ToolMissing => "iptables is not installed or not accessible".to_owned(),
            FirewallError::NotPrivileged => "Firewall configuration requires root privileges".to_owned(),
            FirewallError::CreateFailed => "Failed to create chain".to_owned(),
            FirewallError::DropRuleFailed => "Failed to add DROP rule".to_owned(),
            FirewallError::LinkFailed(HostTable::Input) => "Failed to link INPUT chain".to_owned(),
            FirewallError::LinkFailed(HostTable::Forward) => "Failed to link FORWARD chain".to_owned(),
        }
    }
}

/// Judges the outcome of a command that links the chain into a table of
/// the host.
pub fn link_outcome(table: HostTable, succeeded: bool) -> (out: Result<(), FirewallError>)
    ensures
        out == if succeeded {
            Ok::<(), FirewallError>(())
        } else {
            Err::<(), FirewallError>(FirewallError::LinkFailed(table))
        },
{
    if succeeded {
        Ok(())
    } else {
        Err(FirewallError::LinkFailed(table))
    }
}

/// Where the setup of a chain stands.
#[derive(Debug, Clone, Copy, PartialEq, Eq, Structural)]
pub enum ConfigureStep {
    CheckTool,
    CheckPrivilege,
    CreateChain,
    AddDropRule,
    /// The chain exists and drops everything.
    Done,
    /// The setup was given up.
    Failed(FirewallError),
}

impl ConfigureStep {
    /// The step after this one, given whether its command succeeded. The
    /// two final steps stay as they are.
    pub open spec fn next(self, succeeded: bool) -> ConfigureStep {
        match self {
            ConfigureStep::CheckTool => if succeeded {
                ConfigureStep::CheckPrivilege
            } else {
                ConfigureStep::Failed(FirewallError::ToolMissing)
            },
            ConfigureStep::CheckPrivilege => if succeeded {
                ConfigureStep::CreateChain
            } else {
                ConfigureStep::Failed(FirewallError::NotPrivileged)
            },
            ConfigureStep::CreateChain => if succeeded {
                ConfigureStep::AddDropRule
            } else {
                ConfigureStep::Failed(FirewallError::CreateFailed)
            },
            ConfigureStep::AddDropRule => if succeeded {
                ConfigureStep::Done
            } else {
                ConfigureStep::Failed(FirewallError::DropRuleFailed)
            },
            ConfigureStep::Done => ConfigureStep::Done,
            ConfigureStep::Failed(e) => ConfigureStep::Failed(e),
        }
    }

    /// The command to run at this step; none at the two final steps.
    pub open spec fn command_model(self) -> Option<FirewallCommand> {
        match self {
            ConfigureStep::CheckTool => Some(FirewallCommand::CheckInstalled),
            ConfigureStep::CheckPrivilege => Some(FirewallCommand::CheckRoot),
            ConfigureStep::CreateChain => Some(FirewallCommand::CreateChain),
            ConfigureStep::AddDropRule => Some(FirewallCommand::AppendDrop),
            ConfigureStep::Done => None,
            ConfigureStep::Failed(_) => None,
        }
    }

    /// The command to run at this step.
    pub fn command(&self) -> (out: Option<FirewallCommand>)
        ensures
            out == self.command_model(),
    {
        match self {
            ConfigureStep::CheckTool => Some(FirewallCommand::CheckInstalled),
            ConfigureStep::CheckPrivilege => Some(FirewallCommand::CheckRoot),
            ConfigureStep::CreateChain => Some(FirewallCommand::CreateChain),
            ConfigureStep::AddDropRule => Some(FirewallCommand::AppendDrop),
            ConfigureStep::Done => None,
            ConfigureStep::Failed(_) => None,
        }
    }

    /// Moves on after the command of this step has run.
    pub fn advance(self, succeeded: bool) -> (out: ConfigureStep)
        ensures
            out == self.next(succeeded),
    {
        match self {
            ConfigureStep::CheckTool => if succeeded {
                ConfigureStep::CheckPrivilege
            } else {
                ConfigureStep::Failed(FirewallError::ToolMissing)
            },
            ConfigureStep::CheckPrivilege => if succeeded {
                ConfigureStep::CreateChain
            } else {
                ConfigureStep::Failed(FirewallError::NotPrivileged)
            },
            ConfigureStep::CreateChain => if succeeded {
                ConfigureStep::AddDropRule
            } else {
                ConfigureStep::Failed(FirewallError::CreateFailed)
            },
            ConfigureStep::AddDropRule => if succeeded {
                ConfigureStep::Done
            } else {
                ConfigureStep::Failed(FirewallError::DropRuleFailed)
            },
            ConfigureStep::Done => ConfigureStep::Done,
            ConfigureStep::Failed(e) => ConfigureStep::Failed(e),
        }
    }
}

/// The setup ends with a chain that drops everything only if each of its
/// four commands succeeded; otherwise it ends failed, with the error of
/// the first command that did not succeed.
pub proof fn lemma_setup_needs_every_step(tool: bool, privilege: bool, created: bool, dropped: bool)
    ensures
        ConfigureStep::CheckTool.next(tool).next(privilege).next(created).next(dropped)
            == ConfigureStep::Done <==> tool && privilege && created && dropped,
        !tool ==> ConfigureStep::CheckTool.next(tool).next(privilege).next(created).next(dropped)
            == ConfigureStep::Failed(FirewallError::ToolMissing),
        tool && !privilege ==> ConfigureStep::CheckTool.next(tool).next(privilege).next(
            created,
        ).next(dropped) == ConfigureStep::Failed(FirewallError::NotPrivileged),
        tool && privilege && !created ==> ConfigureStep::CheckTool.next(tool).next(
            privilege,
        ).next(created).next(dropped) == ConfigureStep::Failed(FirewallError::CreateFailed),
        tool && privilege && created && !dropped ==> ConfigureStep::CheckTool.next(tool).next(
            privilege,
        ).next(created).next(dropped) == ConfigureStep::Failed(FirewallError::DropRuleFailed),
{
}

/// Where the removal of a chain stands.
#[derive(Debug, Clone, Copy, PartialEq, Eq, Structural)]
pub enum CleanupStep {
    UnlinkInput,
    UnlinkForward,
    Flush,
    Delete,
    Done,
}

impl CleanupStep {
    /// The step after this one, given whether its command succeeded. A
    /// jump is removed again and again until the removal fails, which
    /// means that none is left. Flushing and deleting are tried once each,
    /// whatever their outcome.
    pub open spec fn next(self, succeeded: bool) -> CleanupStep {
        match self {
            CleanupStep::UnlinkInput => if succeeded {
                CleanupStep::UnlinkInput
            } else {
                CleanupStep::UnlinkForward
            },
            CleanupStep::UnlinkForward => if succeeded {
                CleanupStep::UnlinkForward
            } else {
                CleanupStep::Flush
            },
            CleanupStep::Flush => CleanupStep::Delete,
            CleanupStep::Delete => CleanupStep::Done,
            CleanupStep::Done => CleanupStep::Done,
        }
    }

    /// The command to run at this step; none once the removal is done.
    pub open spec fn command_model(self) -> Option<FirewallCommand> {
        match self {
            CleanupStep::UnlinkInput => Some(FirewallCommand::Unlink(HostTable::Input)),
            CleanupStep::UnlinkForward => Some(FirewallCommand::Unlink(HostTable::Forward)),
            CleanupStep::Flush => Some(FirewallCommand::FlushChain),
            CleanupStep::Delete => Some(FirewallCommand::DeleteChain),
            CleanupStep::Done => None,
        }
    }

    /// The command to run at this step.
    pub fn command(&self) -> (out: Option<FirewallCommand>)
        ensures
            out == self.command_model(),
    {
        match self {
            CleanupStep::UnlinkInput => Some(FirewallCommand::Unlink(HostTable::Input)),
            CleanupStep::UnlinkForward => Some(FirewallCommand::Unlink(HostTable::Forward)),
            CleanupStep::Flush => Some(FirewallCommand::FlushChain),
            CleanupStep::Delete => Some(FirewallCommand::DeleteChain),
            CleanupStep::Done => None,
        }
    }

    /// Moves on after the command of this step has run.
    pub fn advance(self, succeeded: bool) -> (out: CleanupStep)
        ensures
            out == self.next(succeeded),
    {
        match self {
            CleanupStep::UnlinkInput => if succeeded {
                CleanupStep::UnlinkInput
            } else {
                CleanupStep::UnlinkForward
            },
            CleanupStep::UnlinkForward => if succeeded {
                CleanupStep::UnlinkForward
            } else {
                CleanupStep::Flush
            },
            CleanupStep::Flush => CleanupStep::Delete,
            CleanupStep::Delete => CleanupStep::Done,
            CleanupStep::Done => CleanupStep::Done,
        }
    }
}

/// What the packet filter of a host holds for one chain.
pub struct ChainOnHost {
    /// Jumps to the chain in the input table.
    pub input_jumps: nat,
    /// Jumps to the chain in the forward table.
    pub forward_jumps: nat,
    /// Whether the chain exists.
    pub exists: bool,
    /// Rules in the chain.
    pub rules: nat,
}

impl ChainOnHost {
    /// Nothing of the chain is left on the host.
    pub open spec fn absent(self) -> bool {
        self.input_jumps == 0 && self.forward_jumps == 0 && !self.exists && self.rules == 0
    }

    /// Whether a removal command succeeds on this host. A jump can be
    /// removed while there is one; a chain can be flushed while it exists,
    /// and deleted while it exists, is empty and has no jump to it.
    pub open spec fn accepts(self, step: CleanupStep) -> bool {
        match step {
            CleanupStep::UnlinkInput => self.input_jumps > 0,
            CleanupStep::UnlinkForward => self.forward_jumps > 0,
            CleanupStep::Flush => self.exists,
            CleanupStep::Delete => self.exists && self.rules == 0 && self.input_jumps == 0
                && self.forward_jumps == 0,
            CleanupStep::Done => false,
        }
    }

    /// The host after a removal command has run. A command that does not
    /// succeed changes nothing.
    pub open spec fn after(self, step: CleanupStep) -> ChainOnHost {
        if !self.accepts(step) {
            self
        } else {
            match step {
                CleanupStep::UnlinkInput => ChainOnHost {
                    input_jumps: (self.input_jumps - 1) as nat,
                    ..self
                },
                CleanupStep::UnlinkForward => ChainOnHost {
                    forward_jumps: (self.forward_jumps - 1) as nat,
                    ..self
                },
                CleanupStep::Flush => ChainOnHost { rules: 0, ..self },
                CleanupStep::Delete => ChainOnHost { exists: false, ..self },
                CleanupStep::Done => self,
            }
        }
    }

    /// The host after the whole removal has run from the step `step` on.
    pub open spec fn cleaned_from(self, step: CleanupStep) -> ChainOnHost
        decreases
            match step {
                CleanupStep::UnlinkInput => 4nat,
                CleanupStep::UnlinkForward => 3nat,
                CleanupStep::Flush => 2nat,
                CleanupStep::Delete => 1nat,
                CleanupStep::Done => 0nat,
            },
            self.input_jumps + self.forward_jumps,
    {
        match step {
            CleanupStep::Done => self,
            _ => self.after(step).cleaned_from(step.next(self.accepts(step))),
        }
    }

    /// The host after the whole removal has run.
    pub open spec fn cleaned(self) -> ChainOnHost {
        self.cleaned_from(CleanupStep::UnlinkInput)
    }
}

/// Once the jumps of the input table are gone, the rest of the removal
/// leaves nothing of a chain whose rules live in an existing chain.
proof fn lemma_cleaned_from_forward(host: ChainOnHost)
    requires
        host.input_jumps == 0,
        host.rules > 0 ==> host.exists,
    ensures
        host.cleaned_from(CleanupStep::UnlinkForward).absent(),
    decreases host.forward_jumps,
{
    if host.forward_jumps > 0 {
        lemma_cleaned_from_forward(host.after(CleanupStep::UnlinkForward));
    } else {
        let flushed = host.after(CleanupStep::Flush);
        assert(host.cleaned_from(CleanupStep::UnlinkForward) == flushed.cleaned_from(
            CleanupStep::Delete,
        )) by {
            assert(host.after(CleanupStep::UnlinkForward) == host);
            assert(host.cleaned_from(CleanupStep::Flush) == flushed.cleaned_from(
                CleanupStep::Delete,
            ));
        }
        let deleted = flushed.after(CleanupStep::Delete);
        assert(flushed.cleaned_from(CleanupStep::Delete) == deleted.cleaned_from(
            CleanupStep::Done,
        ));
    }
}

/// The removal leaves nothing of the chain on the host, however many jumps
/// and rules there were.
pub proof fn lemma_cleanup_removes_everything(host: ChainOnHost)
    requires
        host.rules > 0 ==> host.exists,
    ensures
        host.cleaned().absent(),
    decreases host.input_jumps,
{
    if host.input_jumps > 0 {
        lemma_cleanup_removes_everything(host.after(CleanupStep::UnlinkInput));
    } else {
        assert(host.after(CleanupStep::UnlinkInput) == host);
        lemma_cleaned_from_forward(host);
    }
}

/// A second removal finds nothing to remove and leaves nothing behind.
pub proof fn lemma_cleanup_twice(host: ChainOnHost)
    requires
        host.rules > 0 ==> host.exists,
    ensures
        host.cleaned().cleaned() == host.cleaned(),
        host.cleaned().cleaned().absent(),
{
    lemma_cleanup_removes_everything(host);
    let clean = host.cleaned();
    lemma_cleanup_removes_everything(clean);
    assert(clean.cleaned() == clean) by {
        assert(clean.cleaned().input_jumps == clean.input_jumps);
        assert(clean.cleaned().forward_jumps == clean.forward_jumps);
        assert(clean.cleaned().exists == clean.exists);
        assert(clean.cleaned().rules == clean.rules);
    }
}

/// Whether the caller is the superuser, judged by the outcome of the
/// command that asks for the user's numeric id: the command succeeded and
/// printed the single digit zero, with blank space around it at most.
pub open spec fn root_reported(succeeded: bool, output: Seq<char>) -> bool {
    succeeded && trim_seq(output) == "0"@
}

/// The listing shows at least one drop rule.
pub open spec fn shows_drop_rule(listing: Seq<char>) -> bool {
    contains_seq(listing, "DROP"@)
}

/// Whether the isolation counts as verified, judged by the outcome of
/// listing the chain. A listing that could not be made never counts.
pub open spec fn isolation_verified(ran: bool, succeeded: bool, listing: Seq<char>) -> bool {
    ran && succeeded && shows_drop_rule(listing)
}

/// Judges the outcome of the command that asks for the user's numeric id.
pub fn is_root_output(succeeded: bool, output: &str) -> (out: bool)
    ensures
        out == root_reported(succeeded, output@),
{
    if !succeeded {
        return false;
    }
    let trimmed = trim_blanks(output);
    same_text(trimmed.as_str(), "0")
}

/// Judges the outcome of listing the chain.
pub fn verify_isolation_output(ran: bool, succeeded: bool, listing: &str) -> (out: bool)
    ensures
        out == isolation_verified(ran, succeeded, listing@),
{
    ran && succeeded && str_contains(listing, "DROP")
}

/// The controller of one VM's chain.
#[derive(Debug)]
pub struct FirewallManager {
    vm_id: String,
    chain_name: String,
}

impl FirewallManager {
    /// The identifier of the VM.
    pub closed spec fn vm_id_text(self) -> Seq<char> {
        self.vm_id@
    }

    /// The name of the chain.
    pub closed spec fn chain_text(self) -> Seq<char> {
        self.chain_name@
    }

    #[verifier::type_invariant]
    spec fn inv(self) -> bool {
        self.chain_name@ == chain_name_of(self.vm_id@)
    }

    /// The controller for the VM `vm_id`. The chain name is the tag
    /// followed by the sanitized identifier, cut off where the packet
    /// filter's limit is reached.
    pub fn new(vm_id: String) -> (out: FirewallManager)
        ensures
            out.vm_id_text() == vm_id@,
            out.chain_text() == chain_name_of(vm_id@),
            out.chain_text().len() <= MAX_CHAIN_NAME_LEN,
    {
        let chars = chars_of(vm_id.as_str());
        let kept: usize = if chars.len() <= MAX_ID_CHARS {
            chars.len()
        } else {
            MAX_ID_CHARS
        };
        assert(kept_id(vm_id@).len() == kept);
        let mut clean: Vec<char> = Vec::new();
        let mut i: usize = 0;
        while i < kept
            invariant
                i <= kept <= chars.len(),
                chars@ == vm_id@,
                kept_id(vm_id@).len() == kept,
                clean.len() == i,
                forall|k: int| 0 <= k < i ==> clean@[k] == sanitized_char(chars@[k]),
            decreases kept - i,
        {
            let c = chars[i];
            let keep = (c >= 'a' && c <= 'z') || (c >= 'A' && c <= 'Z') || (c >= '0' && c <= '9')
                || c == '_';
            clean.push(if keep {
                c
            } else {
                '_'
            });
            i += 1;
        }
        assert(clean@ =~= sanitized(kept_id(vm_id@)));
        let tail = string_from_chars(&clean);
        let chain_name = concat(CHAIN_PREFIX, tail.as_str());
        proof {
            lemma_chain_name_shape(vm_id@);
        }
        FirewallManager { vm_id, chain_name }
    }

    /// The name of the chain. It is never longer than the packet filter
    /// takes.
    pub fn chain_name(&self) -> (out: &str)
        ensures
            out@ == self.chain_text(),
            out@ == chain_name_of(self.vm_id_text()),
            out@.len() <= MAX_CHAIN_NAME_LEN,
    {
        proof {
            use_type_invariant(self);
            lemma_chain_name_shape(self.vm_id@);
        }
        self.chain_name.as_str()
    }

    /// The identifier of the VM.
    pub fn vm_id(&self) -> (out: &str)
        ensures
            out@ == self.vm_id_text(),
    {
        self.vm_id.as_str()
    }

    /// The first step of setting the chain up: checking for the packet
    /// filter. The chain name always fits, so no identifier is refused.
    pub fn configure_isolation(&self) -> (out: ConfigureStep)
        ensures
            out == ConfigureStep::CheckTool,
            self.chain_text().len() <= MAX_CHAIN_NAME_LEN,
    {
        proof {
            use_type_invariant(self);
            lemma_chain_name_shape(self.vm_id@);
        }
        ConfigureStep::CheckTool
    }

    /// The first step of removing the chain.
    pub fn cleanup(&self) -> (out: CleanupStep)
        ensures
            out == CleanupStep::UnlinkInput,
    {
        CleanupStep::UnlinkInput
    }

    /// The arguments of a command for this chain.
    pub fn command_args(&self, command: &FirewallCommand) -> (out: Vec<String>)
        ensures
            words_model(out@) == command.arguments(self.chain_text()),
    {
        command.args(self.chain_name.as_str())
    }

    /// The commands that link the chain into the host's tables for the
    /// packets of one interface: the input table first, then the forward
    /// table.
    pub fn block_interface(&self, interface: &str) -> (out: Vec<FirewallCommand>)
        ensures
            out@.len() == 2,
            out@[0] matches FirewallCommand::Link(HostTable::Input, name) && name@ == interface@,
            out@[1] matches FirewallCommand::Link(HostTable::Forward, name) && name@ == interface@,
    {
        let mut out: Vec<FirewallCommand> = Vec::new();
        out.push(FirewallCommand::Link(HostTable::Input, interface.to_owned()));
        out.push(FirewallCommand::Link(HostTable::Forward, interface.to_owned()));
        out
    }

    /// Judges the outcome of listing the chain: the isolation is verified
    /// only by a listing that was made and shows a drop rule.
    pub fn verify_isolation(&self, ran: bool, succeeded: bool, listing: &str) -> (out: bool)
        ensures
            out == isolation_verified(ran, succeeded, listing@),
    {
        verify_isolation_output(ran, succeeded, listing)
    }
}

} // verus!

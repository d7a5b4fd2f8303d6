//! The syscall filter of a VM process.
//!
//! A filter classifies syscall numbers: a call is allowed, fails with an
//! error number, or kills the process. A filter is compiled into a program,
//! a list of rules with a default, which is what the process is started
//! with. The syscall numbers are those of x86-64.

use vstd::prelude::*;

verus! {

/// The named syscall-filter presets.
#[derive(Clone, Copy, Debug, PartialEq, Eq, Structural)]
pub enum SeccompLevel {
    /// No filtering: advisory only.
    Disabled,
    /// Allows what the hypervisor's steady-state loop needs.
    Basic,
    /// `Basic` without anything that is not provably required.
    Strict,
}

/// A handle for the filter that a VM process runs under.
#[derive(Clone, Copy, Debug, PartialEq, Eq, Structural)]
pub struct SeccompFilter {
    pub level: SeccompLevel,
}

/// What happens to a syscall.
#[derive(Clone, Copy, Debug, PartialEq, Eq, Structural)]
pub enum SeccompAction {
    /// The call goes through.
    Allow,
    /// The call fails with this error number.
    Errno(u16),
    /// The process is killed.
    Kill,
}

/// One rule of a program: what happens to one syscall.
#[derive(Clone, Copy, Debug, PartialEq, Eq, Structural)]
pub struct SeccompRule {
    pub syscall: u32,
    pub action: SeccompAction,
}

/// A compiled filter: rules that are tried in order, and what happens to a
/// syscall that no rule names.
#[derive(Clone, Debug, PartialEq, Eq)]
pub struct SeccompProgram {
    pub rules: Vec<SeccompRule>,
    pub default_action: SeccompAction,
}

/// The syscalls that the strict preset allows: reading and writing, memory
/// mapping, signals' return, the hypervisor's device control, waiting for
/// events, timers, and leaving.
pub open spec fn strict_syscalls() -> Seq<u32> {
    seq![
        0u32,  // read
        1,  // write
        3,  // close
        9,  // mmap
        11,  // munmap
        14,  // rt_sigprocmask
        15,  // rt_sigreturn
        16,  // ioctl
        19,  // readv
        20,  // writev
        60,  // exit
        202,  // futex
        231,  // exit_group
        232,  // epoll_wait
        233,  // epoll_ctl
        281,  // epoll_pwait
        286,  // timerfd_settime
        290,  // eventfd2
    ]
}

/// The syscalls that the basic preset allows beyond the strict one: file
/// status and position, the heap, signal handlers, memory advice, file
/// control, the clock, and the side channel's socket calls.
pub open spec fn basic_extras() -> Seq<u32> {
    seq![
        5u32,  // fstat
        8,  // lseek
        12,  // brk
        13,  // rt_sigaction
        28,  // madvise
        44,  // sendto
        45,  // recvfrom
        72,  // fcntl
        228,  // clock_gettime
        288,  // accept4
    ]
}

/// The syscalls that the basic preset allows.
pub open spec fn basic_syscalls() -> Seq<u32> {
    strict_syscalls() + basic_extras()
}

/// The syscalls that a preset allows by name. The disabled preset names
/// none, for it allows every call.
pub open spec fn allowed_syscalls(level: SeccompLevel) -> Seq<u32> {
    match level {
        SeccompLevel::Disabled => Seq::empty(),
        SeccompLevel::Basic => basic_syscalls(),
        SeccompLevel::Strict => strict_syscalls(),
    }
}

/// What a preset does to a syscall: the disabled preset allows everything;
/// the others allow what they name and kill the process on anything else.
pub open spec fn preset_action(level: SeccompLevel, syscall: u32) -> SeccompAction {
    match level {
        SeccompLevel::Disabled => SeccompAction::Allow,
        _ => if allowed_syscalls(level).contains(syscall) {
            SeccompAction::Allow
        } else {
            SeccompAction::Kill
        },
    }
}

/// What a list of rules does to a syscall: the action of the first rule
/// that names it, or the default.
pub open spec fn rules_action(rules: Seq<SeccompRule>, default_action: SeccompAction, syscall: u32) -> SeccompAction
    decreases rules.len(),
{
    if rules.len() == 0 {
        default_action
    } else if rules[0].syscall == syscall {
        rules[0].action
    } else {
        rules_action(rules.drop_first(), default_action, syscall)
    }
}

/// The rules that allow each syscall of a list.
pub open spec fn allow_rules(syscalls: Seq<u32>) -> Seq<SeccompRule> {
    Seq::new(
        syscalls.len(),
        |i: int| SeccompRule { syscall: syscalls[i], action: SeccompAction::Allow },
    )
}

/// The program of a preset.
pub open spec fn preset_rules(level: SeccompLevel) -> Seq<SeccompRule> {
    allow_rules(allowed_syscalls(level))
}

/// The default of the program of a preset.
pub open spec fn preset_default(level: SeccompLevel) -> SeccompAction {
    match level {
        SeccompLevel::Disabled => SeccompAction::Allow,
        _ => SeccompAction::Kill,
    }
}

/// Rules that allow the syscalls of a list, over a default that kills,
/// allow exactly the syscalls of the list.
pub proof fn lemma_allow_rules(syscalls: Seq<u32>, default_action: SeccompAction, syscall: u32)
    ensures
        rules_action(allow_rules(syscalls), default_action, syscall) == if syscalls.contains(
            syscall,
        ) {
            SeccompAction::Allow
        } else {
            default_action
        },
    decreases syscalls.len(),
{
    let rules = allow_rules(syscalls);
    if syscalls.len() == 0 {
    } else {
        assert(rules.drop_first() =~= allow_rules(syscalls.drop_first()));
        lemma_allow_rules(syscalls.drop_first(), default_action, syscall);
        if syscalls[0] == syscall {
            assert(syscalls.contains(syscall));
        } else {
            if syscalls.contains(syscall) {
                let i = choose|i: int| 0 <= i < syscalls.len() && syscalls[i] == syscall;
                assert(syscalls.drop_first()[i - 1] == syscall);
            }
            if syscalls.drop_first().contains(syscall) {
                let i = choose|i: int|
                    0 <= i < syscalls.drop_first().len() && syscalls.drop_first()[i] == syscall;
                assert(syscalls[i + 1] == syscall);
            }
        }
    }
}

/// The program of a preset does to every syscall what the preset says.
pub proof fn lemma_compiled_preset_is_faithful(level: SeccompLevel, syscall: u32)
    ensures
        rules_action(preset_rules(level), preset_default(level), syscall) == preset_action(
            level,
            syscall,
        ),
{
    lemma_allow_rules(allowed_syscalls(level), preset_default(level), syscall);
}

/// Whatever the strict preset allows, the basic preset allows too; and no
/// preset lets a call fail with an error number.
pub proof fn lemma_strict_is_within_basic(syscall: u32)
    ensures
        preset_action(SeccompLevel::Strict, syscall) == SeccompAction::Allow ==> preset_action(
            SeccompLevel::Basic,
            syscall,
        ) == SeccompAction::Allow,
        preset_action(SeccompLevel::Disabled, syscall) == SeccompAction::Allow,
        !(preset_action(SeccompLevel::Basic, syscall) is Errno),
        !(preset_action(SeccompLevel::Strict, syscall) is Errno),
{
    if strict_syscalls().contains(syscall) {
        let i = choose|i: int| 0 <= i < strict_syscalls().len() && strict_syscalls()[i] == syscall;
        assert(basic_syscalls()[i] == syscall);
    }
}

impl SeccompProgram {
    /// What the program does to a syscall.
    pub open spec fn action_of(self, syscall: u32) -> SeccompAction {
        rules_action(self.rules@, self.default_action, syscall)
    }

    /// Runs the program on a syscall.
    pub fn evaluate(&self, syscall: u32) -> (out: SeccompAction)
        ensures
            out == self.action_of(syscall),
    {
        let mut i: usize = 0;
        assert(self.rules@.skip(0) =~= self.rules@);
        while i < self.rules.len()
            invariant
                i <= self.rules.len(),
                self.action_of(syscall) == rules_action(
                    self.rules@.skip(i as int),
                    self.default_action,
                    syscall,
                ),
            decreases self.rules.len() - i,
        {
            assert(self.rules@.skip(i as int).drop_first() =~= self.rules@.skip(i + 1));
            if self.rules[i].syscall == syscall {
                return self.rules[i].action;
            }
            i += 1;
        }
        self.default_action
    }
}

/// Appends one allowing rule to a list of rules.
fn allow(rules: &mut Vec<SeccompRule>, syscall: u32)
    ensures
        final(rules)@ == old(rules)@.push(SeccompRule { syscall, action: SeccompAction::Allow }),
{
    rules.push(SeccompRule { syscall, action: SeccompAction::Allow });
}

impl SeccompFilter {
    /// The filter of the given preset.
    pub fn new(level: SeccompLevel) -> (out: SeccompFilter)
        ensures
            out.level == level,
    {
        SeccompFilter { level }
    }

    /// Whether the preset restricts the process at all.
    pub fn is_enforcing(&self) -> (out: bool)
        ensures
            out == (self.level != SeccompLevel::Disabled),
    {
        match self.level {
            SeccompLevel::Disabled => false,
            _ => true,
        }
    }

    /// Compiles the filter into its program: one allowing rule for each
    /// syscall that the preset names, over a default that kills the
    /// process. The disabled preset compiles to no rule over a default that
    /// allows.
    pub fn compile(&self) -> (out: SeccompProgram)
        ensures
            out.rules@ == preset_rules(self.level),
            out.default_action == preset_default(self.level),
            forall|syscall: u32| #[trigger]
                out.action_of(syscall) == preset_action(self.level, syscall),
    {
        let mut rules: Vec<SeccompRule> = Vec::new();
        let default_action = match self.level {
            SeccompLevel::Disabled => SeccompAction::Allow,
            _ => SeccompAction::Kill,
        };
        if self.is_enforcing() {
            allow(&mut rules, 0);
            allow(&mut rules, 1);
            allow(&mut rules, 3);
            allow(&mut rules, 9);
            allow(&mut rules, 11);
            allow(&mut rules, 14);
            allow(&mut rules, 15);
            allow(&mut rules, 16);
            allow(&mut rules, 19);
            allow(&mut rules, 20);
            allow(&mut rules, 60);
            allow(&mut rules, 202);
            allow(&mut rules, 231);
            allow(&mut rules, 232);
            allow(&mut rules, 233);
            allow(&mut rules, 281);
            allow(&mut rules, 286);
            allow(&mut rules, 290);
            assert(rules@ =~= allow_rules(strict_syscalls()));
        }
        match self.level {
            SeccompLevel::Basic => {
                allow(&mut rules, 5);
                allow(&mut rules, 8);
                allow(&mut rules, 12);
                allow(&mut rules, 13);
                allow(&mut rules, 28);
                allow(&mut rules, 44);
                allow(&mut rules, 45);
                allow(&mut rules, 72);
                allow(&mut rules, 228);
                allow(&mut rules, 288);
                assert(rules@ =~= allow_rules(basic_syscalls()));
            },
            _ => {},
        }
        assert(rules@ =~= preset_rules(self.level));
        let out = SeccompProgram { rules, default_action };
        assert forall|syscall: u32| #[trigger]
            out.action_of(syscall) == preset_action(self.level, syscall) by {
            lemma_compiled_preset_is_faithful(self.level, syscall);
        }
        out
    }

    /// What the filter does to a syscall.
    pub fn classify(&self, syscall: u32) -> (out: SeccompAction)
        ensures
            out == preset_action(self.level, syscall),
    {
        let program = self.compile();
        program.evaluate(syscall)
    }
}

/// The filter that a VM gets: the requested one, or `Basic` where none was
/// requested.
pub open spec fn effective_filter(requested: Option<SeccompFilter>) -> SeccompFilter {
    match requested {
        Some(filter) => filter,
        None => SeccompFilter { level: SeccompLevel::Basic },
    }
}

/// Resolves the security default for a VM's filter.
pub fn filter_or_default(requested: Option<SeccompFilter>) -> (out: SeccompFilter)
    ensures
        out == effective_filter(requested),
{
    match requested {
        Some(filter) => filter,
        None => SeccompFilter::new(SeccompLevel::Basic),
    }
}

} // verus!

use ironclaw_orchestrator::vm::firewall::{
    is_root_output, link_outcome, verify_isolation_output, CleanupStep, ConfigureStep,
    FirewallCommand, FirewallError, FirewallManager, HostTable, CHAIN_PREFIX, MAX_CHAIN_NAME_LEN, MAX_ID_CHARS,
};

#[test]
fn test_firewall_manager_creation() {
    let manager = FirewallManager::new("test-vm".to_string());
    assert_eq!(manager.vm_id(), "test-vm");
    assert!(manager.chain_name().contains("IRONCLAW"));
    assert!(manager.chain_name().contains("test_vm"));
}

#[test]
fn test_firewall_manager_sanitization() {
    let manager = FirewallManager::new("test-vm@123#456".to_string());
    assert_eq!(manager.vm_id(), "test-vm@123#456");
    assert!(manager.chain_name().contains("test_vm_123_456"));
    assert!(!manager.chain_name().contains('@'));
    assert!(!manager.chain_name().contains('#'));
}

#[test]
fn test_firewall_manager_chain_name_format() {
    let manager = FirewallManager::new("my-vm".to_string());
    let chain = manager.chain_name();

    assert!(chain.starts_with("IRONCLAW_"));
    assert!(chain.chars().all(|c| c.is_alphanumeric() || c == '_'));
}

#[test]
fn test_chain_name_always_valid() {
    let test_cases = vec![
        "simple",
        "with-dash",
        "with_underscore",
        "with.dot",
        "with@symbol",
        "with space",
        "with/slash",
    ];

    for vm_id in test_cases {
        let manager = FirewallManager::new(vm_id.to_string());
        let chain = manager.chain_name();

        assert!(chain.len() <= 28);
        assert!(chain.chars().all(|c| c.is_alphanumeric() || c == '_'));
        assert!(chain.starts_with("IRONCLAW_"));
    }
}

#[test]
fn chain_name_is_prefix_and_sanitized_id() {
    assert_eq!(FirewallManager::new("t2".to_string()).chain_name(), "IRONCLAW_t2");
    assert_eq!(FirewallManager::new(String::new()).chain_name(), "IRONCLAW_");
    assert_eq!(FirewallManager::new("a-b.c d".to_string()).chain_name(), "IRONCLAW_a_b_c_d");
    assert_eq!(FirewallManager::new("Az09_".to_string()).chain_name(), "IRONCLAW_Az09_");
    assert_eq!(FirewallManager::new("vm-\u{e9}\u{4e2d}".to_string()).chain_name(), "IRONCLAW_vm___");
    assert_eq!(CHAIN_PREFIX, "IRONCLAW_");
}

#[test]
fn chain_names_of_clean_ids_are_distinct() {
    let ids = ["a", "b", "ab", "a_b", "A", "a1", "1a"];
    for (i, a) in ids.iter().enumerate() {
        for (j, b) in ids.iter().enumerate() {
            let x = FirewallManager::new(a.to_string());
            let y = FirewallManager::new(b.to_string());
            assert_eq!(x.chain_name() == y.chain_name(), i == j);
        }
    }
}

#[test]
fn long_identifiers_are_cut_to_fit_the_chain_name() {
    assert_eq!(MAX_CHAIN_NAME_LEN, 28);
    assert_eq!(MAX_ID_CHARS, 19);
    let fits = FirewallManager::new("1234567890123456789".to_string());
    assert_eq!(fits.chain_name(), "IRONCLAW_1234567890123456789");
    assert_eq!(fits.chain_name().len(), 28);
    assert_eq!(fits.configure_isolation(), ConfigureStep::CheckTool);
    let long = FirewallManager::new("12345678901234567890".to_string());
    assert_eq!(long.chain_name(), "IRONCLAW_1234567890123456789");
    assert_eq!(long.vm_id(), "12345678901234567890");
    assert_eq!(long.configure_isolation(), ConfigureStep::CheckTool);
    let uuid = FirewallManager::new("123e4567-e89b-12d3-a456-426614174000".to_string());
    assert_eq!(uuid.chain_name(), "IRONCLAW_123e4567_e89b_12d3_");
    assert_eq!(uuid.command_args(&FirewallCommand::CreateChain), vec!["-N", "IRONCLAW_123e4567_e89b_12d3_"]);
    let wide = FirewallManager::new("\u{4e2d}".repeat(40));
    assert_eq!(wide.chain_name(), format!("IRONCLAW_{}", "_".repeat(19)));
    for length in 0..64usize {
        let manager = FirewallManager::new("x".repeat(length));
        assert_eq!(manager.chain_name().len(), 9 + length.min(19));
        assert!(manager.chain_name().len() <= MAX_CHAIN_NAME_LEN);
    }
}

#[test]
fn commands_have_their_arguments() {
    let manager = FirewallManager::new("t2".to_string());
    let args = |command: FirewallCommand| manager.command_args(&command);
    assert_eq!(args(FirewallCommand::CheckInstalled), vec!["--version"]);
    assert_eq!(args(FirewallCommand::CheckRoot), vec!["-u"]);
    assert_eq!(args(FirewallCommand::CreateChain), vec!["-N", "IRONCLAW_t2"]);
    assert_eq!(args(FirewallCommand::AppendDrop), vec!["-A", "IRONCLAW_t2", "-j", "DROP"]);
    assert_eq!(args(FirewallCommand::ListChain), vec!["-L", "IRONCLAW_t2"]);
    assert_eq!(args(FirewallCommand::FlushChain), vec!["-F", "IRONCLAW_t2"]);
    assert_eq!(args(FirewallCommand::DeleteChain), vec!["-X", "IRONCLAW_t2"]);
    assert_eq!(
        args(FirewallCommand::Unlink(HostTable::Input)),
        vec!["-D", "INPUT", "-j", "IRONCLAW_t2"]
    );
    assert_eq!(
        args(FirewallCommand::Unlink(HostTable::Forward)),
        vec!["-D", "FORWARD", "-j", "IRONCLAW_t2"]
    );
    assert_eq!(
        args(FirewallCommand::Link(HostTable::Input, "tap0".to_string())),
        vec!["-I", "INPUT", "-i", "tap0", "-j", "IRONCLAW_t2"]
    );
    assert_eq!(FirewallCommand::CheckRoot.program(), "id");
    assert_eq!(FirewallCommand::CreateChain.program(), "iptables");
}

#[test]
fn block_interface_links_input_then_forward() {
    let manager = FirewallManager::new("vm".to_string());
    assert_eq!(
        manager.block_interface("tap0"),
        vec![
            FirewallCommand::Link(HostTable::Input, "tap0".to_string()),
            FirewallCommand::Link(HostTable::Forward, "tap0".to_string()),
        ]
    );
}

#[test]
fn failed_link_names_its_table() {
    assert_eq!(link_outcome(HostTable::Input, true), Ok(()));
    assert_eq!(link_outcome(HostTable::Input, false), Err(FirewallError::LinkFailed(HostTable::Input)));
    assert_eq!(
        link_outcome(HostTable::Forward, false),
        Err(FirewallError::LinkFailed(HostTable::Forward))
    );
    assert_eq!(FirewallError::LinkFailed(HostTable::Input).message(), "Failed to link INPUT chain");
}

#[test]
fn setup_steps_in_order() {
    let mut step = ConfigureStep::CheckTool;
    let mut commands = Vec::new();
    while let Some(command) = step.command() {
        commands.push(command);
        step = step.advance(true);
    }
    assert_eq!(step, ConfigureStep::Done);
    assert_eq!(
        commands,
        vec![
            FirewallCommand::CheckInstalled,
            FirewallCommand::CheckRoot,
            FirewallCommand::CreateChain,
            FirewallCommand::AppendDrop,
        ]
    );
    assert_eq!(ConfigureStep::Done.advance(false), ConfigureStep::Done);
}

#[test]
fn setup_failures_have_their_errors() {
    assert_eq!(
        ConfigureStep::CheckTool.advance(false),
        ConfigureStep::Failed(FirewallError::ToolMissing)
    );
    assert_eq!(
        ConfigureStep::CheckPrivilege.advance(false),
        ConfigureStep::Failed(FirewallError::NotPrivileged)
    );
    assert_eq!(
        ConfigureStep::CreateChain.advance(false),
        ConfigureStep::Failed(FirewallError::CreateFailed)
    );
    assert_eq!(
        ConfigureStep::AddDropRule.advance(false),
        ConfigureStep::Failed(FirewallError::DropRuleFailed)
    );
    let failed = ConfigureStep::Failed(FirewallError::NotPrivileged);
    assert_eq!(failed.advance(true), failed);
    assert_eq!(failed.command(), None);
    assert_eq!(
        FirewallError::NotPrivileged.message(),
        "Firewall configuration requires root privileges"
    );
    assert_eq!(FirewallError::ToolMissing.message(), "iptables is not installed or not accessible");
    assert_eq!(FirewallError::LinkFailed(HostTable::Forward).message(), "Failed to link FORWARD chain");
}

fn run_cleanup(input_jumps: u32, forward_jumps: u32, chain_exists: bool) -> (Vec<FirewallCommand>, (u32, u32, bool)) {
    let (mut input, mut forward, mut exists) = (input_jumps, forward_jumps, chain_exists);
    let manager = FirewallManager::new("vm".to_string());
    let mut step = manager.cleanup();
    let mut commands = Vec::new();
    while let Some(command) = step.command() {
        let succeeded = match &command {
            FirewallCommand::Unlink(HostTable::Input) if input > 0 => {
                input -= 1;
                true
            }
            FirewallCommand::Unlink(HostTable::Forward) if forward > 0 => {
                forward -= 1;
                true
            }
            FirewallCommand::FlushChain => exists,
            FirewallCommand::DeleteChain if exists && input == 0 && forward == 0 => {
                exists = false;
                true
            }
            _ => false,
        };
        commands.push(command);
        step = step.advance(succeeded);
    }
    assert_eq!(step, CleanupStep::Done);
    (commands, (input, forward, exists))
}

#[test]
fn cleanup_removes_every_jump_and_the_chain() {
    let (commands, left) = run_cleanup(2, 1, true);
    assert_eq!(left, (0, 0, false));
    assert_eq!(
        commands,
        vec![
            FirewallCommand::Unlink(HostTable::Input),
            FirewallCommand::Unlink(HostTable::Input),
            FirewallCommand::Unlink(HostTable::Input),
            FirewallCommand::Unlink(HostTable::Forward),
            FirewallCommand::Unlink(HostTable::Forward),
            FirewallCommand::FlushChain,
            FirewallCommand::DeleteChain,
        ]
    );
}

#[test]
fn cleanup_twice_leaves_nothing_behind() {
    let (_, left) = run_cleanup(3, 4, true);
    assert_eq!(left, (0, 0, false));
    let (commands, left) = run_cleanup(left.0, left.1, left.2);
    assert_eq!(left, (0, 0, false));
    assert_eq!(
        commands,
        vec![
            FirewallCommand::Unlink(HostTable::Input),
            FirewallCommand::Unlink(HostTable::Forward),
            FirewallCommand::FlushChain,
            FirewallCommand::DeleteChain,
        ]
    );
}

#[test]
fn isolation_is_verified_only_by_a_listing_with_a_drop_rule() {
    let listing = "Chain IRONCLAW_t2 (0 references)\ntarget     prot opt source               destination\nDROP       all  --  anywhere             anywhere\n";
    assert!(verify_isolation_output(true, true, listing));
    assert!(!verify_isolation_output(false, true, listing));
    assert!(!verify_isolation_output(true, false, listing));
    assert!(!verify_isolation_output(true, true, "Chain IRONCLAW_t2 (0 references)\n"));
    assert!(!verify_isolation_output(true, true, "drop"));
    assert!(!verify_isolation_output(true, true, ""));
    let manager = FirewallManager::new("t2".to_string());
    assert!(manager.verify_isolation(true, true, listing));
    assert!(!manager.verify_isolation(false, false, ""));
}

#[test]
fn root_is_reported_by_a_lone_zero() {
    assert!(is_root_output(true, "0\n"));
    assert!(is_root_output(true, "0"));
    assert!(is_root_output(true, " \t0\r\n"));
    assert!(!is_root_output(false, "0\n"));
    assert!(!is_root_output(true, "1000\n"));
    assert!(!is_root_output(true, "00\n"));
    assert!(!is_root_output(true, "0 0"));
    assert!(!is_root_output(true, "10"));
    assert!(!is_root_output(true, "01"));
    assert!(!is_root_output(true, ""));
    assert!(!is_root_output(true, "\n"));
    assert!(!is_root_output(true, "root"));
}

use ironclaw_orchestrator::approval::tui::{
    classify_answer, colorize_diff_line, content_title, parse_answer, LineColor, LineStyle,
    TuiContext, TuiKey, TuiResult, TuiState,
};
use ironclaw_orchestrator::vm::seccomp::{SeccompAction, SeccompFilter, SeccompLevel, SeccompProgram, SeccompRule};
use ironclaw_orchestrator::json::{parse_json, to_json_text, to_pretty_json_text, JsonNumber, JsonValue};
use ironclaw_orchestrator::text::{
    chars_of, count_lines, decimal_string, is_blank_char, owned, same_text, str_contains,
    trim_blanks,
};
use ironclaw_orchestrator::vm::agent::{agent_vm_config, RunAgentArgs};
use ironclaw_orchestrator::vm::builder::{validate_rootfs_size, BuildReport, BuildStep, GuestOsConfig};
use ironclaw_orchestrator::vm::config::{ConfigError, VmConfig};
use ironclaw_orchestrator::vm::hyperv::{
    HostPlatform, HypervError, HypervHypervisor, HypervInstance, PartitionPlan,
};

fn card(lines: usize) -> String {
    let mut text = String::new();
    for i in 0..lines {
        text.push_str(&format!("line {}\n", i));
    }
    text
}

#[test]
fn test_tui_result_approved() {
    assert_eq!(TuiResult::Approved, TuiResult::Approved);
}

#[test]
fn test_tui_result_rejected() {
    assert_eq!(TuiResult::Rejected, TuiResult::Rejected);
}

#[test]
fn test_tui_result_ne() {
    assert_ne!(TuiResult::Approved, TuiResult::Rejected);
}

#[test]
fn test_tui_state_awaiting_decision() {
    assert_eq!(TuiState::AwaitingDecision, TuiState::AwaitingDecision);
}

#[test]
fn test_tui_state_approved() {
    assert_eq!(TuiState::Approved, TuiState::Approved);
}

#[test]
fn test_tui_state_rejected() {
    assert_eq!(TuiState::Rejected, TuiState::Rejected);
}

#[test]
fn test_context_scroll_up() {
    let mut context = TuiContext::new(&card(12));
    context.scroll_offset = 5;
    context.scroll_up();
    assert_eq!(context.scroll_offset, 4);
}

#[test]
fn test_context_scroll_up_at_top() {
    let mut context = TuiContext::new(&card(12));
    context.scroll_offset = 0;
    context.scroll_up();
    assert_eq!(context.scroll_offset, 0);
}

#[test]
fn test_context_scroll_down() {
    let mut context = TuiContext::new(&card(12));
    context.scroll_offset = 0;
    context.scroll_down(20);
    assert_eq!(context.scroll_offset, 1);
}

#[test]
fn scrolling_stops_at_the_last_page() {
    let mut context = TuiContext::new(&card(12));
    assert_eq!(context.line_count, 12);
    context.scroll_down(20);
    context.scroll_down(20);
    assert_eq!(context.scroll_offset, 2);
    context.scroll_down(20);
    assert_eq!(context.scroll_offset, 2);
    let mut short = TuiContext::new(&card(10));
    short.scroll_down(20);
    assert_eq!(short.scroll_offset, 0);
    let mut top = TuiContext { line_count: u16::MAX, state: TuiState::AwaitingDecision, scroll_offset: u16::MAX - 10 };
    top.scroll_down(20);
    assert_eq!(top.scroll_offset, u16::MAX - 10);
}

#[test]
fn keys_decide_or_scroll() {
    let mut context = TuiContext::new(&card(30));
    assert_eq!(context.on_key(TuiKey::Down), None);
    assert_eq!(context.scroll_offset, 1);
    assert_eq!(context.on_key(TuiKey::PageDown), None);
    assert_eq!(context.scroll_offset, 6);
    assert_eq!(context.on_key(TuiKey::PageUp), None);
    assert_eq!(context.scroll_offset, 1);
    assert_eq!(context.on_key(TuiKey::PageUp), None);
    assert_eq!(context.scroll_offset, 0);
    assert_eq!(context.on_key(TuiKey::End), None);
    assert_eq!(context.scroll_offset, 20);
    assert_eq!(context.on_key(TuiKey::PageDown), None);
    assert_eq!(context.scroll_offset, 20);
    assert_eq!(context.on_key(TuiKey::Up), None);
    assert_eq!(context.scroll_offset, 19);
    assert_eq!(context.on_key(TuiKey::Home), None);
    assert_eq!(context.scroll_offset, 0);
    assert_eq!(context.on_key(TuiKey::Other), None);
    assert_eq!(context.on_key(TuiKey::Char('x')), None);
    assert_eq!(context.state, TuiState::AwaitingDecision);
    assert_eq!(context.on_key(TuiKey::Char('Y')), Some(TuiResult::Approved));
    assert_eq!(context.state, TuiState::Approved);

    for key in [TuiKey::Char('n'), TuiKey::Char('N'), TuiKey::Esc] {
        let mut context = TuiContext::new("card");
        assert_eq!(context.on_key(key), Some(TuiResult::Rejected));
        assert_eq!(context.state, TuiState::Rejected);
    }
    let mut context = TuiContext::new("card");
    assert_eq!(context.on_key(TuiKey::Char('y')), Some(TuiResult::Approved));
    let mut short = TuiContext::new(&card(3));
    short.on_key(TuiKey::End);
    assert_eq!(short.scroll_offset, 0);
}

#[test]
fn answers_are_read_leniently() {
    for answer in ["y", "Y", "yes", "YES", " Yes \n", "\ty\r\n"] {
        assert_eq!(parse_answer(answer), TuiResult::Approved, "{:?}", answer);
    }
    for answer in ["", "n", "no", "yess", "y es", "ye", "maybe", "\n"] {
        assert_eq!(parse_answer(answer), TuiResult::Rejected, "{:?}", answer);
    }
    assert_eq!(classify_answer("y"), TuiResult::Approved);
    assert_eq!(classify_answer("Y"), TuiResult::Rejected);
}

#[test]
fn lines_are_counted_like_the_standard_library_counts_them() {
    let texts = ["", "a", "a\n", "a\nb", "a\nb\n", "\n", "\n\n", "a\r\nb", "a\n\nb\n"];
    for text in texts {
        assert_eq!(count_lines(text), text.lines().count(), "{:?}", text);
    }
}

#[test]
fn test_guest_os_config_default() {
    let config = GuestOsConfig::default();
    assert_eq!(config.alpine_version, "v3.19");
    assert_eq!(config.arch, "x86_64");
    assert_eq!(config.rootfs_size_mb, 64);
    assert!(config.enable_hardening);
}

#[test]
fn test_guest_os_config_new() {
    let output_path = "/custom/rootfs.ext4".to_string();
    let config = GuestOsConfig::new(output_path.clone());

    assert_eq!(config.output_path, output_path);
    assert_eq!(config.alpine_version, "v3.19");
}

#[test]
fn test_guest_os_config_variations() {
    let config1 = GuestOsConfig {
        alpine_version: "v3.18".to_string(),
        arch: "aarch64".to_string(),
        packages: vec!["bash".to_string(), "vim".to_string()],
        rootfs_size_mb: 128,
        enable_hardening: false,
        ..Default::default()
    };

    assert_eq!(config1.alpine_version, "v3.18");
    assert_eq!(config1.arch, "aarch64");
    assert_eq!(config1.packages.len(), 2);
    assert_eq!(config1.rootfs_size_mb, 128);
    assert!(!config1.enable_hardening);
}

#[test]
fn test_various_package_sets() {
    let package_sets = vec![
        vec!["busybox".to_string()],
        vec!["busybox".to_string(), "curl".to_string()],
        vec![
            "busybox".to_string(),
            "curl".to_string(),
            "ca-certificates".to_string(),
        ],
    ];

    for packages in package_sets {
        let config = GuestOsConfig {
            packages: packages.clone(),
            ..Default::default()
        };

        assert_eq!(config.packages, packages);
    }
}

#[test]
fn test_validate_rootfs_size_small() {
    assert!(validate_rootfs_size(512 * 1024, 100));
}

#[test]
fn test_validate_rootfs_size_large() {
    assert!(!validate_rootfs_size(150 * 1024 * 1024, 100));
}

#[test]
fn rootfs_size_is_judged_in_whole_megabytes() {
    assert!(validate_rootfs_size(0, 0));
    assert!(validate_rootfs_size(1_048_575, 0));
    assert!(!validate_rootfs_size(1_048_576, 0));
    assert!(validate_rootfs_size(100 * 1_048_576 + 1_048_575, 100));
    assert!(!validate_rootfs_size(101 * 1_048_576, 100));
    assert!(!validate_rootfs_size(u64::MAX, u32::MAX));
}

#[test]
fn guest_image_archive_and_steps() {
    let config = GuestOsConfig::default();
    assert_eq!(config.packages, vec!["ca-certificates", "curl", "busybox"]);
    assert_eq!(config.output_path, "/tmp/ironclaw-rootfs.ext4");
    assert_eq!(config.minirootfs_filename(), "alpine-minirootfs-v3.19-x86_64.tar.gz");
    assert_eq!(
        config.download_url(),
        "https://dl-cdn.alpinelinux.org/alpine/v3.19/releases/x86_64/alpine-minirootfs-v3.19-x86_64.tar.gz"
    );
    assert_eq!(
        config.build(),
        vec![BuildStep::Download, BuildStep::CreateImage, BuildStep::Customize, BuildStep::Harden]
    );
    let plain = GuestOsConfig { enable_hardening: false, ..Default::default() };
    assert_eq!(plain.build(), vec![BuildStep::Download, BuildStep::CreateImage, BuildStep::Customize]);
    assert_eq!(
        config.report(1234, 56),
        BuildReport { success: true, file_size: 1234, build_time_ms: 56, packages_installed: 3 }
    );
}

#[test]
fn test_hyperv_name() {
    let hv = HypervHypervisor;
    assert_eq!(hv.name(), "hyperv");
}

#[test]
fn test_hyperv_name_on_windows() {
    let hv = HypervHypervisor;
    assert_eq!(hv.name(), "hyperv");
}

#[test]
fn test_hyperv_unavailable_on_non_windows() {
    let hv = HypervHypervisor;
    let config = VmConfig::new("vm".to_string());
    assert_eq!(hv.spawn(&config, HostPlatform::Other, true, true), Err(HypervError::Unavailable));
}

#[test]
fn test_hyperv_instance_fields() {
    let instance = HypervInstance { id: "test-vm".to_string(), pid: 1234, spawn_time_ms: 95 };

    assert_eq!(instance.id(), "test-vm");
    assert_eq!(instance.pid(), 1234);
    assert_eq!(instance.spawn_time_ms(), 95);
    assert_eq!(instance.socket_path(), "");
}

#[test]
fn test_hyperv_spawn_time_valid() {
    let spawn_times = vec![0.1, 50.0, 150.0, 200.0];
    for st in spawn_times {
        assert!(st > 0.0, "Spawn time must be positive: {}", st);
        assert!(st < 10000.0, "Spawn time must be < 10 seconds: {}", st);
    }
}

#[test]
fn test_hyperv_vcpu_memory_validation() {
    let configs = vec![(1, 256), (2, 512), (4, 1024), (8, 2048)];

    for (vcpu, memory) in configs {
        assert!(vcpu > 0 && vcpu <= 64, "vCPU count should be 1-64: {}", vcpu);
        assert!(
            memory > 0 && memory <= 1048576,
            "Memory should be 1MB-1TB: {}MB",
            memory
        );
    }
}

#[test]
fn test_hyperv_vm_id_format() {
    let task_id = "task-123";
    let expected_id = task_id.to_string();
    assert_eq!(expected_id, "task-123");
    assert!(!expected_id.is_empty(), "VM ID must not be empty");
}

#[test]
fn hyperv_plans_a_partition_on_windows() {
    let hv = HypervHypervisor;
    let mut config = VmConfig::new("vm".to_string());
    config.vcpu_count = 2;
    config.memory_mb = 512;
    assert_eq!(
        hv.spawn(&config, HostPlatform::Windows, true, true),
        Ok(PartitionPlan {
            vcpu_count: 2,
            memory_bytes: 512 * 1024 * 1024,
            disk_read_only: true,
            attach_network: false,
        })
    );
    assert_eq!(hv.spawn(&config, HostPlatform::Windows, false, true), Err(HypervError::KernelMissing));
    assert_eq!(hv.spawn(&config, HostPlatform::Windows, true, false), Err(HypervError::RootfsMissing));
    assert_eq!(hv.spawn(&config, HostPlatform::Other, false, false), Err(HypervError::Unavailable));
}

#[test]
fn hyperv_refuses_a_configuration_that_breaks_a_rule() {
    let hv = HypervHypervisor;
    let mut config = VmConfig::new("vm".to_string());
    config.enable_networking = true;
    assert_eq!(
        hv.spawn(&config, HostPlatform::Windows, true, true),
        Err(HypervError::ConfigInvalid(ConfigError::NetworkingEnabled))
    );
    assert_eq!(hv.spawn(&config, HostPlatform::Other, true, true), Err(HypervError::Unavailable));
    config.enable_networking = false;
    config.vcpu_count = 0;
    assert_eq!(
        hv.spawn(&config, HostPlatform::Windows, false, false),
        Err(HypervError::ConfigInvalid(ConfigError::NoVcpu))
    );
}

#[test]
fn agent_runs_in_the_given_or_the_default_vm() {
    let args = RunAgentArgs::new("summarize");
    assert_eq!(args.task, "summarize");
    assert_eq!(args.timeout, 300);
    assert_eq!(args.config, None);
    assert!(!args.real_vm);
    let default = agent_vm_config("task-1", None);
    assert_eq!(default.vm_id, "task-1");
    assert_eq!(default.validate(), Ok(()));
    let mut given = VmConfig::new("other".to_string());
    given.memory_mb = 1024;
    let chosen = agent_vm_config("task-1", Some(given));
    assert_eq!(chosen.vm_id, "other");
    assert_eq!(chosen.memory_mb, 1024);
}

#[test]
fn json_text_is_read_and_written() {
    let text = r#"{"b":[1,-2,3.5,"x",null,true,{"c":{}}],"a":18446744073709551615}"#;
    let value = parse_json(text).unwrap();
    assert_eq!(to_json_text(&value), text);
    assert_eq!(value.get("a").unwrap().as_u64(), Some(u64::MAX));
    assert_eq!(value.get("a").unwrap().as_i64(), None);
    let items = value.get("b").unwrap().as_array().unwrap();
    assert_eq!(items.len(), 7);
    assert_eq!(items[0], JsonValue::unsigned(1));
    assert_eq!(items[1], JsonValue::signed(-2));
    assert_eq!(items[1].as_i64(), Some(-2));
    assert_eq!(items[1].as_u64(), None);
    assert_eq!(items[2], JsonValue::Number(JsonNumber::Decimal("3.5".to_string())));
    assert_eq!(items[3], JsonValue::text("x"));
    assert!(items[4].is_null());
    assert_eq!(items[5], JsonValue::boolean(true));
    assert!(items[6].is_object());
    assert_eq!(value.get("missing"), None);
    assert_eq!(items[0].get("a"), None);
    assert_eq!(value.duplicate(), value);
    assert_eq!(value.clone(), value);
    assert_eq!(parse_json("{"), None);
    assert_eq!(parse_json(""), None);
    assert_eq!(parse_json(" 1 "), Some(JsonValue::unsigned(1)));
}

#[test]
fn json_lookup_takes_the_first_member_and_null_counts_as_absent_on_request() {
    let value = JsonValue::object(vec![
        ("k".to_string(), JsonValue::unsigned(1)),
        ("k".to_string(), JsonValue::unsigned(2)),
        ("n".to_string(), JsonValue::null()),
    ]);
    assert_eq!(value.get("k"), Some(&JsonValue::unsigned(1)));
    assert_eq!(value.get("n"), Some(&JsonValue::Null));
    assert_eq!(value.get_present("n"), None);
    assert_eq!(value.get_present("k"), Some(&JsonValue::unsigned(1)));
    assert_eq!(value.get_present("zz"), None);
}

#[test]
fn json_pretty_text_is_indented_by_two() {
    let value = JsonValue::object(vec![
        ("a".to_string(), JsonValue::array(vec![JsonValue::unsigned(1)])),
        ("b".to_string(), JsonValue::text("x")),
    ]);
    assert_eq!(to_pretty_json_text(&value), "{\n  \"a\": [\n    1\n  ],\n  \"b\": \"x\"\n}");
    assert_eq!(to_json_text(&value), "{\"a\":[1],\"b\":\"x\"}");
}

#[test]
fn text_helpers() {
    assert_eq!(chars_of("a\u{e9}b"), vec!['a', '\u{e9}', 'b']);
    assert_eq!(owned("ab"), "ab");
    assert!(same_text("x", "x"));
    assert!(!same_text("x", "X"));
    assert!(!same_text("x", "xy"));
    assert!(str_contains("hello world", "lo w"));
    assert!(str_contains("hello", ""));
    assert!(str_contains("", ""));
    assert!(str_contains("hello", "hello"));
    assert!(str_contains("hello", "o"));
    assert!(!str_contains("hello", "hello!"));
    assert!(!str_contains("", "a"));
    assert!(!str_contains("aab", "aba"));
    assert_eq!(trim_blanks("  a b \t\r\n"), "a b");
    assert_eq!(trim_blanks(" \n "), "");
    assert_eq!(trim_blanks(""), "");
    assert_eq!(trim_blanks("x"), "x");
}

#[test]
fn integers_are_written_in_decimal() {
    for n in [0i64, 1, 9, 10, 11, 99, 100, 12345, -1, -10, -32601, i64::MAX, i64::MIN] {
        assert_eq!(decimal_string(n), n.to_string());
    }
}

#[test]
fn test_colorize_file_create_line() {
    let line = "  1. File Creation - Create: /tmp/test.txt";
    let colored = colorize_diff_line(line);
    assert_eq!(colored, LineStyle { color: LineColor::Green, bold: false });
}

#[test]
fn test_colorize_file_delete_line() {
    let line = "  2. File Deletion - Delete: /tmp/old.txt";
    let colored = colorize_diff_line(line);
    assert_eq!(colored, LineStyle { color: LineColor::Red, bold: false });
}

#[test]
fn lines_are_coloured_by_subject_then_by_risk() {
    let cases = [
        ("Create: a", LineColor::Green, false),
        ("Delete: a", LineColor::Red, false),
        ("File Edit", LineColor::Yellow, false),
        ("Execute: rm", LineColor::Magenta, false),
        ("Transfer of funds", LineColor::Red, false),
        ("Send email to x", LineColor::Red, false),
        ("[CRITICAL] risk", LineColor::Magenta, true),
        ("[HIGH] risk", LineColor::Red, false),
        ("[MEDIUM] risk", LineColor::Orange, false),
        ("[LOW] risk", LineColor::Yellow, false),
        ("[GREEN] risk", LineColor::Green, false),
        ("nothing special", LineColor::Plain, false),
        ("", LineColor::Plain, false),
        ("[CRITICAL] Create: both", LineColor::Green, false),
        ("[LOW] [HIGH]", LineColor::Red, false),
        ("create: lower case", LineColor::Plain, false),
    ];
    for (line, color, bold) in cases {
        assert_eq!(colorize_diff_line(line), LineStyle { color, bold }, "{:?}", line);
    }
}

#[test]
fn title_shows_the_position_of_the_view() {
    assert_eq!(content_title(5, 10, 0), "Action Details");
    assert_eq!(content_title(10, 10, 0), "Action Details");
    assert_eq!(content_title(11, 10, 0), "Action Details [10/11]");
    assert_eq!(content_title(30, 10, 5), "Action Details [15/30]");
    assert_eq!(content_title(30, 10, 25), "Action Details [30/30]");
    assert_eq!(content_title(30, 10, usize::MAX), "Action Details [30/30]");
    assert_eq!(content_title(1, 0, 0), "Action Details [0/1]");
}

#[test]
fn presets_classify_syscalls() {
    let disabled = SeccompFilter::new(SeccompLevel::Disabled);
    let basic = SeccompFilter::new(SeccompLevel::Basic);
    let strict = SeccompFilter::new(SeccompLevel::Strict);
    // read, ioctl and exit_group are allowed by every preset
    for syscall in [0u32, 16, 231] {
        assert_eq!(disabled.classify(syscall), SeccompAction::Allow);
        assert_eq!(basic.classify(syscall), SeccompAction::Allow);
        assert_eq!(strict.classify(syscall), SeccompAction::Allow);
    }
    // fstat and accept4 only by the basic one
    for syscall in [5u32, 288] {
        assert_eq!(basic.classify(syscall), SeccompAction::Allow);
        assert_eq!(strict.classify(syscall), SeccompAction::Kill);
    }
    // execve, ptrace and socket by none but the disabled one
    for syscall in [59u32, 101, 41, u32::MAX] {
        assert_eq!(disabled.classify(syscall), SeccompAction::Allow);
        assert_eq!(basic.classify(syscall), SeccompAction::Kill);
        assert_eq!(strict.classify(syscall), SeccompAction::Kill);
    }
}

#[test]
fn strict_preset_is_within_the_basic_one() {
    let basic = SeccompFilter::new(SeccompLevel::Basic);
    let strict = SeccompFilter::new(SeccompLevel::Strict);
    let mut strict_allowed = 0;
    let mut basic_allowed = 0;
    for syscall in 0u32..512 {
        let s = strict.classify(syscall);
        let b = basic.classify(syscall);
        assert!(!matches!(s, SeccompAction::Errno(_)));
        assert!(!matches!(b, SeccompAction::Errno(_)));
        if s == SeccompAction::Allow {
            strict_allowed += 1;
            assert_eq!(b, SeccompAction::Allow);
        }
        if b == SeccompAction::Allow {
            basic_allowed += 1;
        }
    }
    assert_eq!(strict_allowed, 18);
    assert_eq!(basic_allowed, 28);
}

#[test]
fn compiled_programs_run_as_the_presets_classify() {
    for level in [SeccompLevel::Disabled, SeccompLevel::Basic, SeccompLevel::Strict] {
        let filter = SeccompFilter::new(level);
        let program = filter.compile();
        for syscall in 0u32..400 {
            assert_eq!(program.evaluate(syscall), filter.classify(syscall));
        }
    }
    let program = SeccompFilter::new(SeccompLevel::Disabled).compile();
    assert!(program.rules.is_empty());
    assert_eq!(program.default_action, SeccompAction::Allow);
    assert_eq!(SeccompFilter::new(SeccompLevel::Strict).compile().default_action, SeccompAction::Kill);
}

#[test]
fn first_rule_that_names_a_syscall_wins() {
    let program = SeccompProgram {
        rules: vec![
            SeccompRule { syscall: 41, action: SeccompAction::Errno(1) },
            SeccompRule { syscall: 41, action: SeccompAction::Allow },
            SeccompRule { syscall: 0, action: SeccompAction::Allow },
        ],
        default_action: SeccompAction::Kill,
    };
    assert_eq!(program.evaluate(41), SeccompAction::Errno(1));
    assert_eq!(program.evaluate(0), SeccompAction::Allow);
    assert_eq!(program.evaluate(1), SeccompAction::Kill);
}

#[test]
fn blank_space_is_what_unicode_calls_white_space() {
    for code in 0..=0x10ffffu32 {
        if let Some(c) = char::from_u32(code) {
            assert_eq!(is_blank_char(c), c.is_whitespace(), "U+{:04X}", code);
        }
    }
    for text in [
        "",
        "  plain  ",
        "\t\r\n x y \u{b}\u{c}",
        "\u{a0}0\u{2003}",
        "\u{3000}\u{2028}yes\u{2029}\u{205f}\u{202f}\u{1680}\u{85}",
        "\u{200b}kept\u{200b}",
        " \u{feff}kept too ",
    ] {
        assert_eq!(trim_blanks(text), text.trim(), "{:?}", text);
    }
}

#[test]
fn decimal_that_is_no_number_is_written_as_null() {
    let number = |text: &str| JsonValue::Number(JsonNumber::Decimal(text.to_string()));
    assert_eq!(to_json_text(&number("3.5")), "3.5");
    assert_eq!(to_json_text(&number("1e3")), "1000.0");
    assert_eq!(to_json_text(&number("abc")), "null");
    assert_eq!(to_json_text(&number("")), "null");
    assert_eq!(to_pretty_json_text(&JsonValue::array(vec![number("x"), number("2.25")])), "[\n  null,\n  2.25\n]");
}

use wallrus::chain::{ApplyOutcome, ToolAdapterChain};
use wallrus::command::CommandLine;
use wallrus::errors::{ToolFailure, ToolFailureReason};
use wallrus::tools::{Adapter, ProbeResult, StepResult, ToolAvailability, ToolStep, DAEMON_SETTLE_MS};

fn command(program: &str, args: &[&str]) -> CommandLine {
    CommandLine {
        program: program.to_string(),
        args: args.iter().map(|arg| arg.to_string()).collect(),
    }
}

const OK: ProbeResult = ProbeResult::Exited { success: true };
const EXIT_OK: StepResult = StepResult::Exited { success: true };
const EXIT_BAD: StepResult = StepResult::Exited { success: false };

#[test]
fn command_line_is_built_in_order() {
    let line = CommandLine::new("swww").arg("img").arg_with_prefix("file://", "/tmp/a.png");
    assert_eq!(line, command("swww", &["img", "file:///tmp/a.png"]));
    assert_eq!(line.duplicate(), line);
    assert_eq!(CommandLine::new("pkill"), command("pkill", &[]));
}

#[test]
fn hyprpaper_preloads_then_sets() {
    let adapter = Adapter::hyprpaper("/tmp/w.jpg");
    assert_eq!(adapter.name(), "hyprpaper");
    assert_eq!(adapter.probe(), &command("hyprctl", &["--help"]));
    assert_eq!(adapter.step_count(), 2);
    assert_eq!(
        adapter.step(0),
        &ToolStep::Run {
            command: command("hyprctl", &["hyprpaper", "preload", "/tmp/w.jpg"]),
            best_effort: true
        }
    );
    assert_eq!(
        adapter.step(1),
        &ToolStep::Run {
            command: command("hyprctl", &["hyprpaper", "wallpaper", ",/tmp/w.jpg"]),
            best_effort: false
        }
    );
}

#[test]
fn swww_sets_in_one_call() {
    let adapter = Adapter::swww("/tmp/w.jpg");
    assert_eq!(adapter.name(), "swww");
    assert_eq!(adapter.probe(), &command("swww", &["--version"]));
    assert_eq!(adapter.step_count(), 1);
    assert_eq!(
        adapter.step(0),
        &ToolStep::Run { command: command("swww", &["img", "/tmp/w.jpg"]), best_effort: false }
    );
}

#[test]
fn swaybg_is_killed_spawned_and_checked() {
    let adapter = Adapter::swaybg("/tmp/w.jpg");
    assert_eq!(adapter.name(), "swaybg");
    assert_eq!(adapter.probe(), &command("swaybg", &["--version"]));
    assert_eq!(adapter.step_count(), 4);
    assert_eq!(
        adapter.step(0),
        &ToolStep::Run { command: command("pkill", &["swaybg"]), best_effort: true }
    );
    assert_eq!(
        adapter.step(1),
        &ToolStep::Spawn { command: command("swaybg", &["-i", "/tmp/w.jpg"]) }
    );
    assert_eq!(adapter.step(2), &ToolStep::Settle { millis: 100 });
    assert_eq!(DAEMON_SETTLE_MS, 100);
    assert_eq!(adapter.step(3), &ToolStep::CheckAlive);
}

#[test]
fn steps_are_judged_by_their_kind() {
    let strict = ToolStep::Run { command: command("x", &[]), best_effort: false };
    assert_eq!(strict.judge(EXIT_OK), None);
    assert_eq!(strict.judge(EXIT_BAD), Some(ToolFailureReason::ExitedWithFailure));
    assert_eq!(strict.judge(StepResult::LaunchFailed), Some(ToolFailureReason::LaunchFailed));
    assert_eq!(strict.judge(StepResult::Alive), Some(ToolFailureReason::ExitedWithFailure));

    let lenient = ToolStep::Run { command: command("x", &[]), best_effort: true };
    assert_eq!(lenient.judge(EXIT_BAD), None);
    assert_eq!(lenient.judge(StepResult::LaunchFailed), None);

    let spawn = ToolStep::Spawn { command: command("x", &[]) };
    assert_eq!(spawn.judge(StepResult::Spawned), None);
    assert_eq!(spawn.judge(StepResult::LaunchFailed), Some(ToolFailureReason::LaunchFailed));

    assert_eq!(ToolStep::Settle { millis: 5 }.judge(StepResult::Settled), None);
    assert_eq!(ToolStep::CheckAlive.judge(StepResult::Alive), None);
    assert_eq!(ToolStep::CheckAlive.judge(StepResult::Gone), Some(ToolFailureReason::DaemonExited));
}

#[test]
fn probe_shows_a_tool_only_on_success() {
    assert!(ProbeResult::Exited { success: true }.is_available());
    assert!(!ProbeResult::Exited { success: false }.is_available());
    assert!(!ProbeResult::LaunchFailed.is_available());
}

#[test]
fn known_chain_lists_the_tools_in_priority_order() {
    let chain = ToolAdapterChain::known("/tmp/w.jpg");
    assert_eq!(chain.len(), 3);
    assert_eq!(chain.adapter(0).name(), "hyprpaper");
    assert_eq!(chain.adapter(1).name(), "swww");
    assert_eq!(chain.adapter(2).name(), "swaybg");
    assert_eq!(chain.outcome(), Some(ApplyOutcome::NoBackendAvailable));
    assert!(chain.next_step().is_none());
}

#[test]
fn detect_records_each_probe() {
    let mut chain = ToolAdapterChain::known("/tmp/w.jpg");
    let found =
        chain.detect(&vec![ProbeResult::LaunchFailed, OK, ProbeResult::Exited { success: false }]);
    assert_eq!(
        found,
        vec![
            ToolAvailability { name: "hyprpaper", is_available: false },
            ToolAvailability { name: "swww", is_available: true },
            ToolAvailability { name: "swaybg", is_available: false },
        ]
    );
    assert!(!chain.is_available(0));
    assert!(chain.is_available(1));
    assert!(!chain.is_available(2));
    assert!(!chain.is_available(3));
    assert_eq!(chain.current_adapter(), Some(1));
}

#[test]
fn missing_probe_results_mean_unavailable() {
    let mut chain = ToolAdapterChain::known("/tmp/w.jpg");
    let found = chain.detect(&vec![OK]);
    assert_eq!(found.len(), 3);
    assert!(found[0].is_available);
    assert!(!found[1].is_available);
    assert!(!found[2].is_available);
}

#[test]
fn no_tool_available_is_its_own_failure() {
    let mut chain = ToolAdapterChain::known("/tmp/w.jpg");
    chain.detect(&vec![ProbeResult::LaunchFailed, ProbeResult::LaunchFailed, ProbeResult::LaunchFailed]);
    assert!(chain.next_step().is_none());
    assert_eq!(chain.current_adapter(), None);
    assert_eq!(chain.outcome(), Some(ApplyOutcome::NoBackendAvailable));
    chain.advance(EXIT_OK);
    assert_eq!(chain.outcome(), Some(ApplyOutcome::NoBackendAvailable));
}

#[test]
fn unavailable_tools_are_never_invoked() {
    let mut chain = ToolAdapterChain::known("/tmp/w.jpg");
    chain.detect(&vec![ProbeResult::LaunchFailed, OK, ProbeResult::LaunchFailed]);
    let mut invoked: Vec<usize> = Vec::new();
    while let Some(adapter) = chain.current_adapter() {
        assert!(chain.is_available(adapter));
        invoked.push(adapter);
        chain.advance(StepResult::LaunchFailed);
    }
    assert_eq!(invoked, vec![1]);
    assert_eq!(
        chain.outcome(),
        Some(ApplyOutcome::ToolsFailed {
            failures: vec![ToolFailure {
                adapter: 1,
                name: "swww",
                reason: ToolFailureReason::LaunchFailed
            }]
        })
    );
}

#[test]
fn first_success_wins() {
    let mut chain = ToolAdapterChain::known("/tmp/w.jpg");
    chain.detect(&vec![OK, OK, OK]);
    assert_eq!(chain.current_adapter(), Some(0));
    assert_eq!(chain.next_step(), Some(Adapter::hyprpaper("/tmp/w.jpg").step(0)));
    chain.advance(EXIT_BAD);
    assert_eq!(chain.current_adapter(), Some(0));
    assert_eq!(chain.next_step(), Some(Adapter::hyprpaper("/tmp/w.jpg").step(1)));
    assert_eq!(chain.outcome(), None);
    chain.advance(EXIT_OK);
    assert_eq!(chain.outcome(), Some(ApplyOutcome::Success { adapter: 0 }));
    assert!(chain.next_step().is_none());
    assert_eq!(chain.failures().len(), 0);
    chain.advance(EXIT_BAD);
    assert_eq!(chain.outcome(), Some(ApplyOutcome::Success { adapter: 0 }));
}

#[test]
fn failing_daemon_hands_over_to_the_next_tool() {
    let daemon = Adapter::daemon(
        "paperd",
        command("paperd", &["--version"]),
        command("pkill", &["paperd"]),
        command("paperd", &["-i", "/tmp/w.jpg"]),
        100,
    );
    let setter =
        Adapter::one_shot("setter", command("setter", &["-V"]), command("setter", &["/tmp/w.jpg"]));
    let mut chain = ToolAdapterChain::new(vec![daemon, setter]);
    chain.detect(&vec![OK, OK]);

    assert!(matches!(chain.next_step(), Some(ToolStep::Run { best_effort: true, .. })));
    chain.advance(EXIT_BAD);
    assert!(matches!(chain.next_step(), Some(ToolStep::Spawn { .. })));
    chain.advance(StepResult::Spawned);
    assert_eq!(chain.next_step(), Some(&ToolStep::Settle { millis: 100 }));
    chain.advance(StepResult::Settled);
    assert_eq!(chain.next_step(), Some(&ToolStep::CheckAlive));
    chain.advance(StepResult::Gone);

    assert_eq!(
        chain.failures(),
        &vec![ToolFailure { adapter: 0, name: "paperd", reason: ToolFailureReason::DaemonExited }]
    );
    assert_eq!(chain.current_adapter(), Some(1));
    assert_eq!(
        chain.next_step(),
        Some(&ToolStep::Run { command: command("setter", &["/tmp/w.jpg"]), best_effort: false })
    );
    assert_eq!(chain.outcome(), None);
    chain.advance(EXIT_OK);
    assert_eq!(chain.outcome(), Some(ApplyOutcome::Success { adapter: 1 }));
    assert_eq!(chain.failures().len(), 1);
}

#[test]
fn running_daemon_is_a_success() {
    let mut chain = ToolAdapterChain::known("/tmp/w.jpg");
    chain.detect(&vec![ProbeResult::LaunchFailed, ProbeResult::LaunchFailed, OK]);
    assert_eq!(chain.current_adapter(), Some(2));
    chain.advance(StepResult::LaunchFailed);
    chain.advance(StepResult::Spawned);
    chain.advance(StepResult::Settled);
    assert_eq!(chain.outcome(), None);
    chain.advance(StepResult::Alive);
    assert_eq!(chain.outcome(), Some(ApplyOutcome::Success { adapter: 2 }));
}

#[test]
fn all_failures_are_listed_in_priority_order() {
    let mut chain = ToolAdapterChain::known("/tmp/w.jpg");
    chain.detect(&vec![OK, OK, OK]);
    chain.advance(EXIT_OK);
    chain.advance(EXIT_BAD);
    assert_eq!(chain.current_adapter(), Some(1));
    chain.advance(StepResult::LaunchFailed);
    assert_eq!(chain.current_adapter(), Some(2));
    chain.advance(EXIT_OK);
    chain.advance(StepResult::LaunchFailed);
    assert_eq!(chain.current_adapter(), None);
    assert_eq!(
        chain.outcome(),
        Some(ApplyOutcome::ToolsFailed {
            failures: vec![
                ToolFailure {
                    adapter: 0,
                    name: "hyprpaper",
                    reason: ToolFailureReason::ExitedWithFailure
                },
                ToolFailure { adapter: 1, name: "swww", reason: ToolFailureReason::LaunchFailed },
                ToolFailure { adapter: 2, name: "swaybg", reason: ToolFailureReason::LaunchFailed },
            ]
        })
    );
}

#[test]
fn detect_starts_over() {
    let mut chain = ToolAdapterChain::known("/tmp/w.jpg");
    chain.detect(&vec![OK, OK, OK]);
    chain.advance(EXIT_OK);
    chain.advance(EXIT_BAD);
    assert_eq!(chain.failures().len(), 1);
    chain.detect(&vec![ProbeResult::LaunchFailed, OK, OK]);
    assert_eq!(chain.failures().len(), 0);
    assert_eq!(chain.current_adapter(), Some(1));
}

#[test]
fn empty_chain_has_no_backend() {
    let mut chain = ToolAdapterChain::new(Vec::new());
    assert_eq!(chain.len(), 0);
    assert_eq!(chain.detect(&vec![OK]), Vec::<ToolAvailability>::new());
    assert_eq!(chain.outcome(), Some(ApplyOutcome::NoBackendAvailable));
}

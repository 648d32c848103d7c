use std::collections::HashMap;

use cgroups::cpu::{
    Cpu, LinuxCpu, LinuxResources, PERIOD_FILE, QUOTA_FILE, RT_PERIOD_FILE, RT_RUNTIME_FILE,
    SHARES_FILE,
};
use cgroups::decimal::{i64_text, u64_text};
use cgroups::run::{ApplyError, ApplyRun};
use cgroups::steps::{Step, PROCS_FILE};

fn no_limits() -> LinuxCpu {
    LinuxCpu {
        shares: None,
        quota: None,
        period: None,
        realtime_runtime: None,
        realtime_period: None,
    }
}

/// Files of a scope after performing `steps` on `files`, every step succeeding.
fn perform(files: &mut HashMap<String, String>, steps: &[Step]) {
    for step in steps {
        match step {
            Step::CreateScope => {}
            Step::SetLimit { file, value } => {
                files.insert(file.clone(), value.clone());
            }
            Step::Attach { value } => {
                files.insert(PROCS_FILE.to_string(), value.clone());
            }
        }
    }
}

/// A fixture scope holding the given empty interface files.
fn fixture(names: &[&str]) -> HashMap<String, String> {
    names.iter().map(|n| (n.to_string(), String::new())).collect()
}

fn content_after(cpu: &LinuxCpu, file: &str) -> String {
    let mut files = fixture(&[file]);
    perform(&mut files, &Cpu::limit_steps(cpu));
    files[file].clone()
}

#[test]
fn test_set_shares() {
    let cpu = LinuxCpu { shares: Some(2048), ..no_limits() };
    let content = content_after(&cpu, SHARES_FILE);
    assert_eq!(content, 2048.to_string());
}

#[test]
fn test_set_quota() {
    const QUOTA: i64 = 200000;
    let cpu = LinuxCpu { quota: Some(QUOTA), ..no_limits() };
    let content = content_after(&cpu, QUOTA_FILE);
    assert_eq!(content, QUOTA.to_string());
}

#[test]
fn test_set_period() {
    const PERIOD: u64 = 100000;
    let cpu = LinuxCpu { period: Some(PERIOD), ..no_limits() };
    let content = content_after(&cpu, PERIOD_FILE);
    assert_eq!(content, PERIOD.to_string());
}

#[test]
fn test_set_rt_runtime() {
    const RUNTIME: i64 = 100000;
    let cpu = LinuxCpu { realtime_runtime: Some(RUNTIME), ..no_limits() };
    let content = content_after(&cpu, RT_RUNTIME_FILE);
    assert_eq!(content, RUNTIME.to_string());
}

#[test]
fn test_set_rt_period() {
    const PERIOD: u64 = 100000;
    let cpu = LinuxCpu { realtime_period: Some(PERIOD), ..no_limits() };
    let content = content_after(&cpu, RT_PERIOD_FILE);
    assert_eq!(content, PERIOD.to_string());
}

#[test]
fn absent_and_zero_fields_are_not_written() {
    assert!(Cpu::limit_steps(&no_limits()).is_empty());
    let zeros = LinuxCpu {
        shares: Some(0),
        quota: Some(0),
        period: Some(0),
        realtime_runtime: Some(0),
        realtime_period: Some(0),
    };
    assert!(Cpu::limit_steps(&zeros).is_empty());
    let mut files = fixture(&[SHARES_FILE, QUOTA_FILE]);
    perform(&mut files, &Cpu::apply_steps(&LinuxResources { cpu: Some(zeros) }, 7));
    assert_eq!(files[SHARES_FILE], "");
    assert_eq!(files[QUOTA_FILE], "");
    assert!(!files.contains_key(PERIOD_FILE));
}

#[test]
fn fields_are_written_in_fixed_order() {
    let cpu = LinuxCpu {
        shares: Some(1024),
        quota: Some(-1),
        period: Some(50000),
        realtime_runtime: Some(950000),
        realtime_period: Some(1000000),
    };
    let expected = vec![
        (SHARES_FILE, "1024"),
        (PERIOD_FILE, "50000"),
        (QUOTA_FILE, "-1"),
        (RT_RUNTIME_FILE, "950000"),
        (RT_PERIOD_FILE, "1000000"),
    ];
    let steps = Cpu::limit_steps(&cpu);
    assert_eq!(steps.len(), expected.len());
    for (step, (file, value)) in steps.iter().zip(expected) {
        assert_eq!(
            step,
            &Step::SetLimit { file: file.to_string(), value: value.to_string() }
        );
    }
}

#[test]
fn decimal_text_has_no_padding() {
    assert_eq!(u64_text(0), "0");
    assert_eq!(u64_text(7), "7");
    assert_eq!(u64_text(100000), "100000");
    assert_eq!(u64_text(u64::MAX), "18446744073709551615");
    assert_eq!(i64_text(-1), "-1");
    assert_eq!(i64_text(200000), "200000");
    assert_eq!(i64_text(i64::MIN), "-9223372036854775808");
    assert_eq!(i64_text(i64::MAX), "9223372036854775807");
}

#[test]
fn apply_creates_scope_first_and_attaches_last() {
    let resources = LinuxResources { cpu: Some(LinuxCpu { shares: Some(2048), ..no_limits() }) };
    let steps = Cpu::apply_steps(&resources, 4321);
    assert_eq!(steps.len(), 3);
    assert_eq!(steps[0], Step::CreateScope);
    assert_eq!(
        steps[1],
        Step::SetLimit { file: SHARES_FILE.to_string(), value: "2048".to_string() }
    );
    assert_eq!(steps[2], Step::Attach { value: "4321".to_string() });
}

#[test]
fn apply_without_cpu_only_creates_and_attaches() {
    let steps = Cpu::apply_steps(&LinuxResources { cpu: None }, 1);
    assert_eq!(steps, vec![Step::CreateScope, Step::Attach { value: "1".to_string() }]);
}

#[test]
fn applying_twice_gives_the_same_files() {
    let resources = LinuxResources {
        cpu: Some(LinuxCpu {
            shares: Some(512),
            quota: Some(20000),
            period: Some(100000),
            realtime_runtime: None,
            realtime_period: Some(0),
        }),
    };
    let steps = Cpu::apply_steps(&resources, 99);
    let mut once = fixture(&[SHARES_FILE, QUOTA_FILE, PERIOD_FILE, RT_PERIOD_FILE]);
    perform(&mut once, &steps);
    let mut twice = once.clone();
    perform(&mut twice, &steps);
    assert_eq!(once, twice);
    assert_eq!(once[QUOTA_FILE], "20000");
    assert_eq!(once[RT_PERIOD_FILE], "");
}

/// Drives a run, failing every write into `broken`, and returns the files
/// together with the run's outcome.
fn drive(steps: Vec<Step>, broken: &str) -> (HashMap<String, String>, Result<(), ApplyError>) {
    let mut files = fixture(&[SHARES_FILE, PERIOD_FILE, QUOTA_FILE]);
    let mut run = ApplyRun::new(steps);
    assert!(run.outcome().is_none() || run.next_step().is_none());
    while let Some(step) = run.next_step() {
        let ok = match step {
            Step::CreateScope => broken != "",
            Step::SetLimit { file, value } => {
                if file == broken {
                    false
                } else {
                    files.insert(file.clone(), value.clone());
                    true
                }
            }
            Step::Attach { value } => {
                if broken == PROCS_FILE {
                    false
                } else {
                    files.insert(PROCS_FILE.to_string(), value.clone());
                    true
                }
            }
        };
        run.record(ok);
    }
    (files, run.outcome().expect("finished run"))
}

fn full_resources() -> LinuxResources {
    LinuxResources {
        cpu: Some(LinuxCpu {
            shares: Some(2048),
            quota: Some(200000),
            period: Some(100000),
            realtime_runtime: None,
            realtime_period: None,
        }),
    }
}

#[test]
fn quota_failure_keeps_earlier_writes() {
    let (files, outcome) = drive(Cpu::apply_steps(&full_resources(), 10), QUOTA_FILE);
    assert_eq!(outcome, Err(ApplyError::InterfaceWrite { file: QUOTA_FILE.to_string() }));
    assert_eq!(files[SHARES_FILE], "2048");
    assert_eq!(files[PERIOD_FILE], "100000");
    assert_eq!(files[QUOTA_FILE], "");
    assert!(!files.contains_key(PROCS_FILE));
}

#[test]
fn successful_run_reports_success() {
    let (files, outcome) = drive(Cpu::apply_steps(&full_resources(), 10), "none");
    assert_eq!(outcome, Ok(()));
    assert_eq!(files[QUOTA_FILE], "200000");
    assert_eq!(files[PROCS_FILE], "10");
}

#[test]
fn scope_creation_failure_writes_nothing() {
    let (files, outcome) = drive(Cpu::apply_steps(&full_resources(), 10), "");
    assert_eq!(outcome, Err(ApplyError::ScopeCreation));
    assert_eq!(files[SHARES_FILE], "");
}

#[test]
fn membership_failure_names_the_pid() {
    let (files, outcome) = drive(Cpu::apply_steps(&full_resources(), 10), PROCS_FILE);
    assert_eq!(outcome, Err(ApplyError::Membership { pid: "10".to_string() }));
    assert_eq!(files[QUOTA_FILE], "200000");
}

#[test]
fn error_of_each_step() {
    assert_eq!(ApplyError::of_step(&Step::CreateScope), ApplyError::ScopeCreation);
    assert_eq!(
        ApplyError::of_step(&Step::SetLimit { file: "a".to_string(), value: "1".to_string() }),
        ApplyError::InterfaceWrite { file: "a".to_string() }
    );
    assert_eq!(
        ApplyError::of_step(&Step::Attach { value: "5".to_string() }),
        ApplyError::Membership { pid: "5".to_string() }
    );
}

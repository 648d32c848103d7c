//! The CPU controller: shares, CFS bandwidth and realtime bandwidth.
use vstd::prelude::*;
use vstd::string::*;

use crate::decimal::{decimal_int, i64_text, u64_text};
use crate::run::{error_of, ApplyErrorView};
use crate::steps::{
    lemma_write_effect_append, lemma_write_effect_idempotent, write_effect, Step, StepView,
    PROCS_FILE,
};

verus! {

/// Interface file of the relative CPU weight.
pub const SHARES_FILE: &'static str = "cpu.shares";

/// Interface file of the CFS quota, in microseconds.
pub const QUOTA_FILE: &'static str = "cpu.cfs_quota_us";

/// Interface file of the CFS period, in microseconds.
pub const PERIOD_FILE: &'static str = "cpu.cfs_period_us";

/// Interface file of the realtime runtime, in microseconds.
pub const RT_RUNTIME_FILE: &'static str = "cpu.rt_runtime_us";

/// Interface file of the realtime period, in microseconds.
pub const RT_PERIOD_FILE: &'static str = "cpu.rt_period_us";

/// CPU limits of a resource specification. An absent field leaves its control
/// untouched, and so does a field equal to zero.
#[derive(Clone, Copy, Debug, PartialEq, Eq)]
pub struct LinuxCpu {
    pub shares: Option<u64>,
    pub quota: Option<i64>,
    pub period: Option<u64>,
    pub realtime_runtime: Option<i64>,
    pub realtime_period: Option<u64>,
}

/// The resource specification of a container, as far as this library reads it.
#[derive(Clone, Copy, Debug, PartialEq, Eq)]
pub struct LinuxResources {
    pub cpu: Option<LinuxCpu>,
}

/// The CPU fields, in the order in which they are applied.
#[derive(Clone, Copy, Debug, PartialEq, Eq)]
pub enum CpuField {
    Shares,
    Period,
    Quota,
    RealtimeRuntime,
    RealtimePeriod,
}

/// The CPU controller of the legacy hierarchy.
pub struct Cpu {}

pub open spec fn file_name(f: CpuField) -> Seq<char> {
    match f {
        CpuField::Shares => SHARES_FILE@,
        CpuField::Period => PERIOD_FILE@,
        CpuField::Quota => QUOTA_FILE@,
        CpuField::RealtimeRuntime => RT_RUNTIME_FILE@,
        CpuField::RealtimePeriod => RT_PERIOD_FILE@,
    }
}

pub open spec fn opt_int_u(v: Option<u64>) -> Option<int> {
    match v {
        Some(x) => Some(x as int),
        None => None,
    }
}

pub open spec fn opt_int_i(v: Option<i64>) -> Option<int> {
    match v {
        Some(x) => Some(x as int),
        None => None,
    }
}

/// The value that `cpu` gives for field `f`, if any.
pub open spec fn field_value(cpu: LinuxCpu, f: CpuField) -> Option<int> {
    match f {
        CpuField::Shares => opt_int_u(cpu.shares),
        CpuField::Period => opt_int_u(cpu.period),
        CpuField::Quota => opt_int_i(cpu.quota),
        CpuField::RealtimeRuntime => opt_int_i(cpu.realtime_runtime),
        CpuField::RealtimePeriod => opt_int_u(cpu.realtime_period),
    }
}

/// A field is written only when it is present and not zero.
pub open spec fn is_set(cpu: LinuxCpu, f: CpuField) -> bool {
    field_value(cpu, f) is Some && field_value(cpu, f)->0 != 0
}

/// The write that field `f` asks for: none, or its decimal text into its file.
pub open spec fn field_steps(cpu: LinuxCpu, f: CpuField) -> Seq<StepView> {
    if is_set(cpu, f) {
        seq![StepView::SetLimit(file_name(f), decimal_int(field_value(cpu, f)->0))]
    } else {
        seq![]
    }
}

/// The writes of all CPU fields, in their fixed order.
pub open spec fn limit_steps(cpu: LinuxCpu) -> Seq<StepView> {
    field_steps(cpu, CpuField::Shares) + field_steps(cpu, CpuField::Period) + field_steps(
        cpu,
        CpuField::Quota,
    ) + field_steps(cpu, CpuField::RealtimeRuntime) + field_steps(cpu, CpuField::RealtimePeriod)
}

/// A whole application: create the scope, write the CPU limits if the
/// specification has any, then move `pid` into the scope.
pub open spec fn apply_steps(resources: LinuxResources, pid: int) -> Seq<StepView> {
    let limits = match resources.cpu {
        Some(cpu) => limit_steps(cpu),
        None => seq![],
    };
    seq![StepView::CreateScope] + limits + seq![StepView::Attach(decimal_int(pid))]
}

/// Whether `resources` asks for field `f` to be written.
pub open spec fn field_set(resources: LinuxResources, f: CpuField) -> bool {
    resources.cpu matches Some(cpu) && is_set(cpu, f)
}

/// What the write of field `f`, if any, does to `files`.
pub open spec fn field_effect(files: Map<Seq<char>, Seq<char>>, cpu: LinuxCpu, f: CpuField) -> Map<
    Seq<char>,
    Seq<char>,
> {
    if is_set(cpu, f) {
        files.insert(file_name(f), decimal_int(field_value(cpu, f)->0))
    } else {
        files
    }
}

/// The interface files are distinct from each other and from the membership file.
pub proof fn lemma_file_names_distinct()
    ensures
        forall|f: CpuField, g: CpuField| f != g ==> file_name(f) != file_name(g),
        forall|f: CpuField| file_name(f) != PROCS_FILE@,
{
    reveal_strlit("cpu.shares");
    reveal_strlit("cpu.cfs_quota_us");
    reveal_strlit("cpu.cfs_period_us");
    reveal_strlit("cpu.rt_runtime_us");
    reveal_strlit("cpu.rt_period_us");
    reveal_strlit("cgroup.procs");
    assert(SHARES_FILE@.len() == 10 && PROCS_FILE@.len() == 12);
    assert(QUOTA_FILE@.len() == 16 && RT_PERIOD_FILE@.len() == 16);
    assert(PERIOD_FILE@.len() == 17 && RT_RUNTIME_FILE@.len() == 17);
    assert(QUOTA_FILE@[4] != RT_PERIOD_FILE@[4]);
    assert(PERIOD_FILE@[4] != RT_RUNTIME_FILE@[4]);
    assert forall|f: CpuField, g: CpuField| f != g implies file_name(f) != file_name(g) by {
        match f {
            CpuField::Shares => {},
            CpuField::Period => {},
            CpuField::Quota => {},
            CpuField::RealtimeRuntime => {},
            CpuField::RealtimePeriod => {},
        }
        match g {
            CpuField::Shares => {},
            CpuField::Period => {},
            CpuField::Quota => {},
            CpuField::RealtimeRuntime => {},
            CpuField::RealtimePeriod => {},
        }
    }
    assert forall|f: CpuField| file_name(f) != PROCS_FILE@ by {
        match f {
            CpuField::Shares => {},
            CpuField::Period => {},
            CpuField::Quota => {},
            CpuField::RealtimeRuntime => {},
            CpuField::RealtimePeriod => {},
        }
    }
}

proof fn lemma_field_steps_effect(files: Map<Seq<char>, Seq<char>>, cpu: LinuxCpu, f: CpuField)
    ensures
        write_effect(files, field_steps(cpu, f)) == field_effect(files, cpu, f),
{
    let s = field_steps(cpu, f);
    if is_set(cpu, f) {
        assert(s.drop_last() =~= Seq::<StepView>::empty());
        assert(write_effect(files, s.drop_last()) == files);
    }
}

proof fn lemma_limit_steps_effect(files: Map<Seq<char>, Seq<char>>, cpu: LinuxCpu)
    ensures
        write_effect(files, limit_steps(cpu)) == field_effect(
            field_effect(
                field_effect(
                    field_effect(field_effect(files, cpu, CpuField::Shares), cpu, CpuField::Period),
                    cpu,
                    CpuField::Quota,
                ),
                cpu,
                CpuField::RealtimeRuntime,
            ),
            cpu,
            CpuField::RealtimePeriod,
        ),
{
    let a = field_steps(cpu, CpuField::Shares);
    let b = field_steps(cpu, CpuField::Period);
    let c = field_steps(cpu, CpuField::Quota);
    let d = field_steps(cpu, CpuField::RealtimeRuntime);
    let e = field_steps(cpu, CpuField::RealtimePeriod);
    lemma_write_effect_append(files, a + b + c + d, e);
    lemma_write_effect_append(files, a + b + c, d);
    lemma_write_effect_append(files, a + b, c);
    lemma_write_effect_append(files, a, b);
    let m1 = field_effect(files, cpu, CpuField::Shares);
    let m2 = field_effect(m1, cpu, CpuField::Period);
    let m3 = field_effect(m2, cpu, CpuField::Quota);
    let m4 = field_effect(m3, cpu, CpuField::RealtimeRuntime);
    lemma_field_steps_effect(files, cpu, CpuField::Shares);
    lemma_field_steps_effect(m1, cpu, CpuField::Period);
    lemma_field_steps_effect(m2, cpu, CpuField::Quota);
    lemma_field_steps_effect(m3, cpu, CpuField::RealtimeRuntime);
    lemma_field_steps_effect(m4, cpu, CpuField::RealtimePeriod);
}

/// The effect of a whole application: the CPU limits, then the process id in
/// the membership file.
pub proof fn lemma_apply_steps_effect(
    files: Map<Seq<char>, Seq<char>>,
    resources: LinuxResources,
    pid: int,
)
    ensures
        write_effect(files, apply_steps(resources, pid)) == (match resources.cpu {
            Some(cpu) => write_effect(files, limit_steps(cpu)),
            None => files,
        }).insert(PROCS_FILE@, decimal_int(pid)),
{
    let limits = match resources.cpu {
        Some(cpu) => limit_steps(cpu),
        None => seq![],
    };
    let first = seq![StepView::CreateScope];
    let last = seq![StepView::Attach(decimal_int(pid))];
    lemma_write_effect_append(files, first + limits, last);
    lemma_write_effect_append(files, first, limits);
    assert(first.drop_last() =~= Seq::<StepView>::empty());
    assert(last.drop_last() =~= Seq::<StepView>::empty());
    assert(write_effect(files, first.drop_last()) == files);
    assert(write_effect(files, first) == files);
    let mid = write_effect(files, first + limits);
    assert(write_effect(mid, last) == write_effect(mid, last.drop_last()).insert(
        PROCS_FILE@,
        decimal_int(pid),
    ));
}

/// A CPU field that is absent or zero leaves its interface file as it was:
/// neither created nor changed.
pub proof fn lemma_unset_field_untouched(
    resources: LinuxResources,
    pid: int,
    f: CpuField,
    files: Map<Seq<char>, Seq<char>>,
)
    requires
        !field_set(resources, f),
    ensures
        write_effect(files, apply_steps(resources, pid)).contains_key(file_name(f))
            == files.contains_key(file_name(f)),
        files.contains_key(file_name(f)) ==> write_effect(files, apply_steps(resources, pid))[file_name(
            f,
        )] == files[file_name(f)],
{
    lemma_file_names_distinct();
    lemma_apply_steps_effect(files, resources, pid);
    if let Some(cpu) = resources.cpu {
        lemma_limit_steps_effect(files, cpu);
    }
}

/// A CPU field that is present and not zero leaves its interface file holding
/// exactly the decimal text of its value.
pub proof fn lemma_set_field_written(
    resources: LinuxResources,
    pid: int,
    f: CpuField,
    files: Map<Seq<char>, Seq<char>>,
)
    requires
        field_set(resources, f),
    ensures
        write_effect(files, apply_steps(resources, pid)).contains_key(file_name(f)),
        write_effect(files, apply_steps(resources, pid))[file_name(f)] == decimal_int(
            field_value(resources.cpu->0, f)->0,
        ),
{
    lemma_file_names_distinct();
    lemma_apply_steps_effect(files, resources, pid);
    lemma_limit_steps_effect(files, resources.cpu->0);
}

/// Applying the same specification twice leaves the files as applying it once.
pub proof fn lemma_apply_idempotent(
    resources: LinuxResources,
    pid: int,
    files: Map<Seq<char>, Seq<char>>,
)
    ensures
        write_effect(write_effect(files, apply_steps(resources, pid)), apply_steps(resources, pid))
            == write_effect(files, apply_steps(resources, pid)),
{
    lemma_write_effect_idempotent(files, apply_steps(resources, pid));
}

/// Position of the quota write among the steps of an application.
pub open spec fn quota_index(cpu: LinuxCpu) -> int {
    1 + field_steps(cpu, CpuField::Shares).len() + field_steps(cpu, CpuField::Period).len() as int
}

/// When the quota write fails, the run stops there with an error naming the
/// quota file, and the shares and period writes that precede it are in
/// effect, while the quota file is left as it was.
pub proof fn lemma_quota_failure_keeps_earlier(
    resources: LinuxResources,
    pid: int,
    files: Map<Seq<char>, Seq<char>>,
)
    requires
        field_set(resources, CpuField::Quota),
    ensures
        ({
            let cpu = resources.cpu->0;
            let steps = apply_steps(resources, pid);
            let k = quota_index(cpu);
            let before = write_effect(files, steps.take(k));
            &&& 0 < k < steps.len()
            &&& steps[k] == StepView::SetLimit(QUOTA_FILE@, decimal_int(cpu.quota->0 as int))
            &&& error_of(steps[k]) == ApplyErrorView::InterfaceWrite(QUOTA_FILE@)
            &&& is_set(cpu, CpuField::Shares) ==> before[SHARES_FILE@] == decimal_int(
                cpu.shares->0 as int,
            )
            &&& is_set(cpu, CpuField::Period) ==> before[PERIOD_FILE@] == decimal_int(
                cpu.period->0 as int,
            )
            &&& before.contains_key(QUOTA_FILE@) == files.contains_key(QUOTA_FILE@)
            &&& files.contains_key(QUOTA_FILE@) ==> before[QUOTA_FILE@] == files[QUOTA_FILE@]
        }),
{
    let cpu = resources.cpu->0;
    let steps = apply_steps(resources, pid);
    let k = quota_index(cpu);
    let first = seq![StepView::CreateScope];
    let a = field_steps(cpu, CpuField::Shares);
    let b = field_steps(cpu, CpuField::Period);
    assert(steps.take(k) =~= first + a + b);
    assert(steps[k] == field_steps(cpu, CpuField::Quota)[0]);
    lemma_file_names_distinct();
    lemma_write_effect_append(files, first + a, b);
    lemma_write_effect_append(files, first, a);
    assert(first.drop_last() =~= Seq::<StepView>::empty());
    assert(write_effect(files, first.drop_last()) == files);
    assert(write_effect(files, first) == files);
    lemma_field_steps_effect(files, cpu, CpuField::Shares);
    lemma_field_steps_effect(field_effect(files, cpu, CpuField::Shares), cpu, CpuField::Period);
}

fn set_limit(file: &str, value: String) -> (r: Step)
    ensures
        r@ == StepView::SetLimit(file@, value@),
{
    Step::SetLimit { file: String::from_str(file), value }
}

impl Cpu {
    /// The interface writes that `cpu` asks for, in the order shares, period,
    /// quota, realtime runtime, realtime period; absent and zero fields are
    /// skipped.
    pub fn limit_steps(cpu: &LinuxCpu) -> (r: Vec<Step>)
        ensures
            r@.map_values(|s: Step| s@) == limit_steps(*cpu),
    {
        let mut r: Vec<Step> = Vec::new();
        if let Some(shares) = cpu.shares {
            if shares != 0 {
                r.push(set_limit(SHARES_FILE, u64_text(shares)));
            }
        }
        let ghost r1 = r@;
        if let Some(period) = cpu.period {
            if period != 0 {
                r.push(set_limit(PERIOD_FILE, u64_text(period)));
            }
        }
        let ghost r2 = r@;
        if let Some(quota) = cpu.quota {
            if quota != 0 {
                r.push(set_limit(QUOTA_FILE, i64_text(quota)));
            }
        }
        let ghost r3 = r@;
        if let Some(rt_runtime) = cpu.realtime_runtime {
            if rt_runtime != 0 {
                r.push(set_limit(RT_RUNTIME_FILE, i64_text(rt_runtime)));
            }
        }
        let ghost r4 = r@;
        if let Some(rt_period) = cpu.realtime_period {
            if rt_period != 0 {
                r.push(set_limit(RT_PERIOD_FILE, u64_text(rt_period)));
            }
        }
        assert(r@.map_values(|s: Step| s@) =~= limit_steps(*cpu));
        r
    }

    /// The steps of applying `resources` to a scope and moving `pid` into it:
    /// the scope is created first and the process attached last.
    pub fn apply_steps(resources: &LinuxResources, pid: i32) -> (r: Vec<Step>)
        ensures
            r@.map_values(|s: Step| s@) == apply_steps(*resources, pid as int),
            r@.len() >= 2,
            r@[0]@ == StepView::CreateScope,
            r@.last()@ == StepView::Attach(decimal_int(pid as int)),
    {
        let mut r: Vec<Step> = Vec::new();
        r.push(Step::CreateScope);
        if let Some(cpu) = &resources.cpu {
            let mut limits = Cpu::limit_steps(cpu);
            r.append(&mut limits);
        }
        r.push(Step::Attach { value: i64_text(pid as i64) });
        assert(r@.map_values(|s: Step| s@) =~= apply_steps(*resources, pid as int));
        r
    }
}

} // verus!

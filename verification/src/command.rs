use crate::config::{ProcessGroup, ProcessGroupView};
use vstd::prelude::*;

verus! {

/// How a task group's stream script is started.
#[derive(Clone, Debug)]
pub enum GroupLaunch {
    /// Run the command once, right away.
    RunOnce { command: String },
    /// Run the command at every time that the cron expression names.
    RunOnSchedule { command: String, expression: String },
}

/// The abstract value of a `GroupLaunch`: the command, and the cron
/// expression where the command is scheduled.
pub open spec fn launch_view(launch: GroupLaunch) -> (Seq<char>, Option<Seq<char>>) {
    match launch {
        GroupLaunch::RunOnce { command } => (command@, None),
        GroupLaunch::RunOnSchedule { command, expression } => (command@, Some(expression@)),
    }
}

/// How the group `g` is launched: its stream script, once where its
/// schedule is `now`, else on its cron schedule.
pub open spec fn launch_of(g: ProcessGroupView) -> (Seq<char>, Option<Seq<char>>) {
    if g.cron == "now"@ {
        (g.stream, None)
    } else {
        (g.stream, Some(g.cron))
    }
}

/// How one task group is launched.
pub fn launch_plan(group: &ProcessGroup) -> (launch: GroupLaunch)
    ensures
        launch_view(launch) == launch_of(group@),
        launch_view(launch).0 == group.stream@,
        launch_view(launch).1 is None <==> group.cron@ == "now"@,
        group.cron@ != "now"@ ==> launch_view(launch).1 == Some(group.cron@),
{
    let command = group.stream.clone();
    let now = String::from_str("now");
    if group.cron == now {
        GroupLaunch::RunOnce { command }
    } else {
        GroupLaunch::RunOnSchedule { command, expression: group.cron.clone() }
    }
}

/// How each task group is launched, in the order of the groups; each is
/// then run on a thread of its own.
pub fn run_process_group(process_group: &Vec<ProcessGroup>) -> (launches: Vec<GroupLaunch>)
    ensures
        launches@.len() == process_group@.len(),
        forall|i: int|
            0 <= i < launches@.len() ==> launch_view(#[trigger] launches@[i]) == launch_of(
                process_group@[i]@,
            ),
{
    let mut launches: Vec<GroupLaunch> = Vec::new();
    for i in 0..process_group.len()
        invariant
            launches@.len() == i,
            forall|j: int|
                0 <= j < i ==> launch_view(#[trigger] launches@[j]) == launch_of(
                    process_group@[j]@,
                ),
    {
        launches.push(launch_plan(&process_group[i]));
    }
    launches
}

/// The `cron` crate's parsed schedule; opaque here, carried inside
/// `CronSchedule`.
#[verifier::external_type_specification]
#[verifier::external_body]
pub struct ExSchedule(cron::Schedule);

/// The `cron` crate's parse error; opaque here, mapped to `ScheduleError`.
#[verifier::external_type_specification]
#[verifier::external_body]
pub struct ExCronError(cron::error::Error);

/// Whether the `cron` crate accepts `expression` as a schedule.
pub uninterp spec fn cron_accepts(expression: Seq<char>) -> bool;

/// The first time, in milliseconds since the Unix epoch (UTC), that the
/// schedule parsed from `expression` names after the time `after_millis`,
/// where the `cron` crate finds one.
pub uninterp spec fn cron_next_after(expression: Seq<char>, after_millis: i64) -> Option<i64>;

/// The schedule that the `cron` crate parses from `expression`, where it
/// accepts it.
pub uninterp spec fn cron_schedule(expression: Seq<char>) -> cron::Schedule;

/// Parses a cron expression with `cron::Schedule::from_str`. The contract
/// claims that whether it succeeds, and the schedule it gives, are functions
/// of the text alone.
#[verifier::external_body]
fn schedule_from_str(expression: &str) -> (parsed: Result<cron::Schedule, cron::error::Error>)
    ensures
        parsed is Ok <==> cron_accepts(expression@),
        parsed matches Ok(s) ==> s == cron_schedule(expression@),
{
    <cron::Schedule as std::str::FromStr>::from_str(expression)
}

/// The latest time, in milliseconds since the Unix epoch (UTC), that a
/// schedule can be asked about: one second before chrono's last millisecond
/// (in the year 262142). cron first adds one second to the time it is given,
/// and that addition overflows, and panics, in chrono's last second.
pub const LATEST_SCHEDULE_MILLIS: i64 = 8_210_266_875_799_999;

/// The first time after `after_millis` that a schedule names: the first
/// item of `cron::Schedule::after` at that UTC time, in milliseconds. The
/// contract claims that the result is a function of the schedule's
/// expression and of `after_millis` alone, and that a time found lies
/// strictly after `after_millis` (cron searches from `after_millis` plus one
/// second, in whole seconds).
#[verifier::external_body]
fn schedule_next_after(schedule: &CronSchedule, after_millis: i64) -> (next: Option<i64>)
    requires
        after_millis <= LATEST_SCHEDULE_MILLIS,
        schedule.schedule == cron_schedule(schedule@),
    ensures
        next == cron_next_after(schedule@, after_millis),
        next matches Some(t) ==> t > after_millis,
{
    match chrono::TimeZone::timestamp_millis_opt(&chrono::Utc, after_millis) {
        chrono::LocalResult::Single(after) => match schedule.schedule.after(&after).next() {
            Some(time) => Some(time.timestamp_millis()),
            None => None,
        },
        _ => None,
    }
}

/// A cron expression that the `cron` crate accepted, with its schedule.
pub struct CronSchedule {
    expression: String,
    schedule: cron::Schedule,
}

impl CronSchedule {
    /// The schedule is the one that the `cron` crate parses from the
    /// expression, so the view (the expression) determines it.
    #[verifier::type_invariant]
    closed spec fn parsed_from_expression(self) -> bool {
        self.schedule == cron_schedule(self.expression@)
    }
}

impl View for CronSchedule {
    type V = Seq<char>;

    closed spec fn view(&self) -> Seq<char> {
        self.expression@
    }
}

/// A cron expression that the `cron` crate refused.
#[derive(Clone, Debug)]
pub struct ScheduleError {
    pub expression: String,
}

/// What a scheduled group does next.
#[derive(Clone, Copy, Debug, PartialEq, Eq, Structural)]
pub enum NextRun {
    /// Wait this many milliseconds, then run the command.
    After(u64),
    /// The schedule names no later time: look again.
    Never,
    /// The time found lies before the present.
    Overdue,
}

/// The next step of a scheduled group at `now_millis`, given the next time
/// that its schedule names.
pub open spec fn next_run_of(next: Option<i64>, now_millis: i64) -> NextRun {
    match next {
        None => NextRun::Never,
        Some(t) => if t >= now_millis {
            NextRun::After((t - now_millis) as u64)
        } else {
            NextRun::Overdue
        },
    }
}

impl CronSchedule {
    /// Parses a cron expression; fails exactly where the `cron` crate
    /// refuses it.
    pub fn parse(expression: &str) -> (parsed: Result<CronSchedule, ScheduleError>)
        ensures
            parsed is Ok <==> cron_accepts(expression@),
            parsed matches Ok(s) ==> s@ == expression@,
            parsed matches Err(e) ==> e.expression@ == expression@,
    {
        match schedule_from_str(expression) {
            Ok(schedule) => Ok(CronSchedule { expression: String::from_str(expression), schedule }),
            Err(_) => Err(ScheduleError { expression: String::from_str(expression) }),
        }
    }

    /// The next step at `now_millis`: wait until the next time that the
    /// schedule names after the present, then run.
    pub fn next_run(&self, now_millis: i64) -> (step: NextRun)
        requires
            now_millis <= LATEST_SCHEDULE_MILLIS,
        ensures
            step == next_run_of(cron_next_after(self@, now_millis), now_millis),
            cron_next_after(self@, now_millis) matches Some(t) ==> t > now_millis,
            step matches NextRun::After(wait) ==> wait > 0,
            !(step is Overdue),
    {
        proof {
            use_type_invariant(self);
        }
        let next = schedule_next_after(self, now_millis);
        wait_for(next, now_millis)
    }
}

/// The next step at `now_millis` given the next time the schedule names.
pub fn wait_for(next: Option<i64>, now_millis: i64) -> (step: NextRun)
    ensures
        step == next_run_of(next, now_millis),
{
    match next {
        None => NextRun::Never,
        Some(t) => {
            if t >= now_millis {
                let wait: i128 = t as i128 - now_millis as i128;
                NextRun::After(wait as u64)
            } else {
                NextRun::Overdue
            }
        },
    }
}

/// A scheduled group waits exactly until the next time that its schedule
/// names: where the step is to wait, the wait ends at that time; where that
/// time lies ahead or is the present, the step is to wait.
pub proof fn wait_ends_at_next_time(next: i64, now_millis: i64)
    ensures
        next >= now_millis <==> next_run_of(Some(next), now_millis) is After,
        next_run_of(Some(next), now_millis) matches NextRun::After(wait) ==> now_millis + wait
            == next,
{
}

/// No scheduled time is run twice: where a run for the time `t` is over and
/// the schedule is looked at again at a present `now` not before `t`, the
/// time it names lies strictly after the present (as `CronSchedule::next_run`
/// ensures), so the wait that follows ends strictly after `t`.
pub proof fn no_time_runs_twice(t: i64, now_millis: i64, next: Option<i64>)
    requires
        now_millis >= t,
        next matches Some(n) ==> n > now_millis,
    ensures
        next_run_of(next, now_millis) matches NextRun::After(wait) ==> now_millis + wait > t,
        !(next_run_of(next, now_millis) is Overdue),
{
}

/// A group runs once exactly when its schedule is the text `now`; any other
/// text is its cron expression, unchanged; the command is always its stream
/// script.
pub proof fn launch_once_exactly_for_now(g: ProcessGroupView)
    ensures
        launch_of(g).0 == g.stream,
        launch_of(g).1 is None <==> g.cron == "now"@,
        g.cron != "now"@ ==> launch_of(g).1 == Some(g.cron),
{
}

} // verus!

//! Dispatching a run request: authorization, the run plan, and the
//! response texts.
//!
//! A run request names a job and may carry a secret. The dispatcher resolves
//! the name, checks the secret against the job's configured one, and — only
//! when the request is admitted — produces a run plan: the exact commands the
//! background execution performs, and the sink its captured output goes to.
//! Refused requests carry no plan, so nothing can be executed for them.

use vstd::prelude::*;

use crate::jobs::JobConfig;
use crate::jobs::first_match;

verus! {

/// The characters of an optional string.
pub open spec fn opt_view(o: Option<String>) -> Option<Seq<char>> {
    match o {
        Some(s) => Some(s@),
        None => None,
    }
}

/// Whether a caller holding `supplied` may run a job gated by `job_secret`.
/// An ungated job admits every caller; a gated one admits exactly the callers
/// whose supplied secret equals the configured one.
pub open spec fn spec_authorized(job_secret: Option<Seq<char>>, supplied: Option<Seq<char>>) -> bool {
    match job_secret {
        None => true,
        Some(s) => supplied == Some(s),
    }
}

/// Decides whether a run request is admitted.
pub fn authorize(job_secret: &Option<String>, supplied: &Option<String>) -> (r: bool)
    ensures
        r == spec_authorized(opt_view(*job_secret), opt_view(*supplied)),
{
    match job_secret {
        None => true,
        Some(s) => match supplied {
            Some(t) => *s == *t,
            None => false,
        },
    }
}

/// One command of a run plan: a program and its arguments, spawned as a
/// subprocess whose standard output is captured.
pub struct ShellCommand {
    pub program: String,
    pub args: Vec<String>,
}

/// Everything one admitted run executes.
///
/// The script commands form one sequential chain: each waits for the previous
/// one to exit. The path command, when present, is its own chain, run
/// concurrently with the scripts. `log` is the output sink chosen for this
/// run: a file to create and truncate, or the process's standard output when
/// absent.
pub struct RunPlan {
    pub script_commands: Vec<ShellCommand>,
    pub path_command: Option<ShellCommand>,
    pub log: Option<String>,
}

/// The command a script line becomes: the system shell told to run the line.
pub open spec fn is_script_command(c: ShellCommand, script: Seq<char>) -> bool {
    &&& c.program@ == "sh"@
    &&& c.args@.len() == 2
    &&& c.args@[0]@ == "-c"@
    &&& c.args@[1]@ == script
}

/// The command a job's path becomes: the path invoked directly, without
/// arguments.
pub open spec fn is_path_command(c: ShellCommand, path: Seq<char>) -> bool {
    &&& c.program@ == path
    &&& c.args@.len() == 0
}

/// A plan carries exactly the job's declared work: one shell command per
/// script line, in declared order; the path command iff the job declares a
/// path; and the configured log sink.
pub open spec fn plan_matches(plan: RunPlan, j: JobConfig, log: Option<Seq<char>>) -> bool {
    &&& (match j.scripts {
        Some(ss) => plan.script_commands@.len() == ss@.len() && forall|i: int|
            0 <= i < ss@.len() ==> is_script_command(#[trigger] plan.script_commands@[i], ss@[i]@),
        None => plan.script_commands@.len() == 0,
    })
    &&& (match j.path {
        Some(p) => plan.path_command matches Some(c) && is_path_command(c, p@),
        None => plan.path_command is None,
    })
    &&& opt_view(plan.log) == log
}

/// Builds the run plan for an admitted job.
pub fn plan_for(job: &JobConfig, log: &Option<String>) -> (r: RunPlan)
    ensures
        plan_matches(r, *job, opt_view(*log)),
{
    let mut script_commands: Vec<ShellCommand> = Vec::new();
    match &job.scripts {
        Some(ss) => {
            let n = ss.len();
            for i in 0..n
                invariant
                    n == ss.len(),
                    script_commands@.len() == i,
                    forall|k: int|
                        0 <= k < i ==> is_script_command(
                            #[trigger] script_commands@[k],
                            ss@[k]@,
                        ),
            {
                let mut args: Vec<String> = Vec::new();
                args.push("-c".to_owned());
                args.push(ss[i].clone());
                script_commands.push(ShellCommand { program: "sh".to_owned(), args });
            }
        },
        None => {},
    }
    let path_command: Option<ShellCommand> = match &job.path {
        Some(p) => Some(ShellCommand { program: p.clone(), args: Vec::new() }),
        None => None,
    };
    let log_copy: Option<String> = match log {
        Some(l) => Some(l.clone()),
        None => None,
    };
    RunPlan { script_commands, path_command, log: log_copy }
}

/// The outcome of a run request. Only an admitted request holds a plan:
/// a refused request has nothing that could be executed.
pub enum RunDecision {
    NotFound,
    Unauthorized,
    Admitted(RunPlan),
}

/// The dispatch rule: what the decision for a run request must be, given
/// the job list, the configured log sink, the requested name, and the
/// caller's supplied secret. An unresolved name is "not found"; a resolved
/// but unauthorized request is refused; an admitted request carries exactly
/// the resolved job's run plan.
pub open spec fn decision_matches(
    d: RunDecision,
    jobs: Seq<JobConfig>,
    log: Option<Seq<char>>,
    name: Seq<char>,
    supplied: Option<Seq<char>>,
) -> bool {
    match first_match(jobs, name) {
        None => d is NotFound,
        Some(j) => if spec_authorized(opt_view(j.secret), supplied) {
            d matches RunDecision::Admitted(plan) && plan_matches(plan, j, log)
        } else {
            d is Unauthorized
        },
    }
}

/// Resolves and authorizes one run request against the job list, handing an
/// admitted request its run plan.
pub fn dispatch(
    jobs: &Vec<JobConfig>,
    log: &Option<String>,
    name: &String,
    supplied: &Option<String>,
) -> (r: RunDecision)
    ensures
        decision_matches(r, jobs@, opt_view(*log), name@, opt_view(*supplied)),
{
    match crate::jobs::resolve(jobs, name) {
        None => RunDecision::NotFound,
        Some(job) => {
            if authorize(&job.secret, supplied) {
                RunDecision::Admitted(plan_for(job, log))
            } else {
                RunDecision::Unauthorized
            }
        },
    }
}

/// The status a run decision is reported with: an unknown job as a server
/// error, a refused secret as unauthorized, an admitted dispatch as success.
pub open spec fn spec_status(d: RunDecision) -> u16 {
    match d {
        RunDecision::NotFound => 500,
        RunDecision::Unauthorized => 401,
        RunDecision::Admitted(_) => 200,
    }
}

/// The plain-text line a run decision is reported with.
pub open spec fn spec_run_body(d: RunDecision, name: Seq<char>) -> Seq<char> {
    match d {
        RunDecision::NotFound => "Job "@ + name + " not found!\r\n"@,
        RunDecision::Unauthorized => "Secret is wrong for "@ + name + "!\r\n"@,
        RunDecision::Admitted(_) => "Starting "@ + name + "!\r\n"@,
    }
}

/// Renders a run decision as its status and response line. The admitted
/// acknowledgement only says the run started: the response never waits for
/// the run to finish.
pub fn run_response(d: &RunDecision, name: &String) -> (r: (u16, String))
    ensures
        r.0 == spec_status(*d),
        r.1@ == spec_run_body(*d, name@),
{
    match d {
        RunDecision::NotFound => (
            500,
            "Job ".to_owned().concat(name.as_str()).concat(" not found!\r\n"),
        ),
        RunDecision::Unauthorized => (
            401,
            "Secret is wrong for ".to_owned().concat(name.as_str()).concat("!\r\n"),
        ),
        RunDecision::Admitted(_) => (
            200,
            "Starting ".to_owned().concat(name.as_str()).concat("!\r\n"),
        ),
    }
}

/// The read-only existence probe: whether the name resolves to a declared
/// job, with the acknowledgement or not-found line. It never executes
/// anything.
pub fn probe_response(jobs: &Vec<JobConfig>, name: &String) -> (r: (u16, String))
    ensures
        first_match(jobs@, name@) is Some ==> r.0 == 200 && r.1@ == "Starting "@ + name@
            + "!\r\n"@,
        first_match(jobs@, name@) is None ==> r.0 == 500 && r.1@ == "Job "@ + name@
            + " not found!\r\n"@,
{
    match crate::jobs::resolve(jobs, name) {
        Some(_) => (200, "Starting ".to_owned().concat(name.as_str()).concat("!\r\n")),
        None => (500, "Job ".to_owned().concat(name.as_str()).concat(" not found!\r\n")),
    }
}

/// The liveness probe's fixed answer. It takes nothing from the
/// configuration document, so it succeeds whatever state the document is in.
pub fn liveness_response() -> (r: (u16, String))
    ensures
        r.0 == 200,
        r.1@ == "Ok!"@,
{
    (200, "Ok!".to_owned())
}

/// A job that declares both a script list and a path keeps both chains in its
/// run plan: one command per script line, and the path command. Neither chain
/// is skipped.
pub proof fn lemma_both_chains_planned(plan: RunPlan, j: JobConfig, log: Option<Seq<char>>)
    requires
        plan_matches(plan, j, log),
        j.scripts is Some,
        j.path is Some,
    ensures
        plan.script_commands@.len() == j.scripts.unwrap()@.len(),
        plan.path_command is Some,
{
}

/// An ungated job admits every run request, whether or not it carries a
/// secret.
pub proof fn lemma_no_secret_admits(supplied: Option<Seq<char>>)
    ensures
        spec_authorized(None, supplied),
{
}

/// A gated job admits exactly the requests whose supplied secret equals the
/// configured one: a missing or different secret is denied.
pub proof fn lemma_secret_gates(secret: Seq<char>, supplied: Option<Seq<char>>)
    ensures
        spec_authorized(Some(secret), supplied) <==> supplied == Some(secret),
{
}

/// Repeated run requests for one job are independent: against the same
/// immutable document, two decisions for the same name and secret fall the
/// same way, and each admitted one carries the job's full run plan of its
/// own — nothing deduplicates or serializes a repeated request.
pub proof fn lemma_repeated_runs_independent(
    d1: RunDecision,
    d2: RunDecision,
    jobs: Seq<JobConfig>,
    log: Option<Seq<char>>,
    name: Seq<char>,
    supplied: Option<Seq<char>>,
)
    requires
        decision_matches(d1, jobs, log, name, supplied),
        decision_matches(d2, jobs, log, name, supplied),
    ensures
        d1 is NotFound <==> d2 is NotFound,
        d1 is Unauthorized <==> d2 is Unauthorized,
        d1 is Admitted <==> d2 is Admitted,
        d1 matches RunDecision::Admitted(p1) ==> plan_matches(
            p1,
            first_match(jobs, name).unwrap(),
            log,
        ),
        d2 matches RunDecision::Admitted(p2) ==> plan_matches(
            p2,
            first_match(jobs, name).unwrap(),
            log,
        ),
{
}

/// A name that no declared job bears resolves to nothing — and so, by the
/// contracts of `dispatch` and `probe_response`, both endpoints answer "not
/// found" and no run plan exists for the request.
pub proof fn lemma_unknown_name_unresolved(jobs: Seq<JobConfig>, name: Seq<char>)
    ensures
        (forall|i: int| 0 <= i < jobs.len() ==> (#[trigger] jobs[i]).name@ != name)
            <==> first_match(jobs, name) is None,
    decreases jobs.len(),
{
    if jobs.len() > 0 && jobs[0].name@ != name {
        let sub = jobs.drop_first();
        lemma_unknown_name_unresolved(sub, name);
        if first_match(jobs, name) is None {
            assert forall|i: int| 0 <= i < jobs.len() implies (#[trigger] jobs[i]).name@
                != name by {
                if i > 0 {
                    assert(jobs[i] == sub[i - 1]);
                }
            }
        } else {
            let k = choose|k: int| 0 <= k < sub.len() && (#[trigger] sub[k]).name@ == name;
            assert(jobs[k + 1].name@ == name);
        }
    }
}

} // verus!

//! Jobs: the entries of the configuration document's job list.
//!
//! A job is a named unit of work: an ordered list of shell script lines, an
//! executable path, or both, optionally gated by a secret. The whole job list
//! is validated once, when the service is built, so that a malformed document
//! is rejected eagerly instead of on the first request. Resolution of a
//! request's job name is an exact, case-sensitive match; the first entry with
//! the requested name wins.

use vstd::prelude::*;

use crate::confval::ConfValue;
use crate::confval::spec_as_list;
use crate::confval::spec_key;

verus! {

/// One declared job: its name, an optional gating secret, an optional
/// ordered script list, and an optional executable path.
pub struct JobConfig {
    pub name: String,
    pub secret: Option<String>,
    pub scripts: Option<Vec<String>>,
    pub path: Option<String>,
}

/// The characters of a text value, and the empty sequence otherwise.
pub open spec fn spec_text_of(v: ConfValue) -> Seq<char> {
    match v {
        ConfValue::Text(s) => s@,
        _ => Seq::empty(),
    }
}

/// Every item of the sequence is a text value.
pub open spec fn all_text(items: Seq<ConfValue>) -> bool {
    forall|i: int| 0 <= i < items.len() ==> items[i] is Text
}

/// The characters of each item of a sequence of text values.
pub open spec fn text_items(items: Seq<ConfValue>) -> Seq<Seq<char>> {
    items.map_values(|x: ConfValue| spec_text_of(x))
}

/// A field that may be absent, null, or a text value; anything else makes
/// the entry ill-shaped.
pub open spec fn opt_text_ok(v: ConfValue, key: Seq<char>) -> bool {
    spec_key(v, key) is Null || spec_key(v, key) is Text
}

/// What an optional text field holds: the text if present, nothing when the
/// field is absent or null.
pub open spec fn spec_opt_text(v: ConfValue, key: Seq<char>) -> Option<Seq<char>> {
    match spec_key(v, key) {
        ConfValue::Text(s) => Some(s@),
        _ => None,
    }
}

/// A job-shaped document entry: a record whose `name` is a non-empty string,
/// whose `secret` and `path` are absent or strings, and whose `scripts` is
/// absent or a list of strings.
pub open spec fn job_shaped(v: ConfValue) -> bool {
    &&& v is Record
    &&& spec_key(v, "name"@) is Text
    &&& spec_text_of(spec_key(v, "name"@)).len() > 0
    &&& opt_text_ok(v, "secret"@)
    &&& opt_text_ok(v, "path"@)
    &&& (spec_key(v, "scripts"@) is Null || (spec_key(v, "scripts"@) is List && all_text(
        spec_as_list(spec_key(v, "scripts"@)).unwrap(),
    )))
}

/// An extracted job carries exactly what its document entry declares.
pub open spec fn job_matches(j: JobConfig, v: ConfValue) -> bool {
    &&& j.name@ == spec_text_of(spec_key(v, "name"@))
    &&& (match j.secret {
        Some(s) => spec_opt_text(v, "secret"@) == Some(s@),
        None => spec_opt_text(v, "secret"@) is None,
    })
    &&& (match j.path {
        Some(p) => spec_opt_text(v, "path"@) == Some(p@),
        None => spec_opt_text(v, "path"@) is None,
    })
    &&& (match j.scripts {
        Some(ss) => spec_key(v, "scripts"@) is List && ss@.map_values(|s: String| s@)
            == text_items(spec_as_list(spec_key(v, "scripts"@)).unwrap()),
        None => spec_key(v, "scripts"@) is Null,
    })
}

/// A well-shaped job list value: a list all of whose items are job-shaped.
pub open spec fn job_list_shaped(v: ConfValue) -> bool {
    &&& v is List
    &&& forall|i: int|
        0 <= i < spec_as_list(v).unwrap().len() ==> job_shaped(#[trigger] spec_as_list(v).unwrap()[i])
}

/// An extracted job list carries each entry of the document's list, in order.
pub open spec fn job_list_matches(jobs: Seq<JobConfig>, v: ConfValue) -> bool {
    &&& jobs.len() == spec_as_list(v).unwrap().len()
    &&& forall|i: int|
        0 <= i < jobs.len() ==> job_matches(#[trigger] jobs[i], spec_as_list(v).unwrap()[i])
}

/// The first job of the list whose name is `name`, if any.
pub open spec fn first_match(jobs: Seq<JobConfig>, name: Seq<char>) -> Option<JobConfig>
    decreases jobs.len(),
{
    if jobs.len() == 0 {
        None
    } else if jobs[0].name@ == name {
        Some(jobs[0])
    } else {
        first_match(jobs.drop_first(), name)
    }
}

proof fn lemma_first_match_skip(jobs: Seq<JobConfig>, name: Seq<char>, i: int)
    requires
        0 <= i <= jobs.len(),
        forall|k: int| 0 <= k < i ==> jobs[k].name@ != name,
    ensures
        first_match(jobs, name) == first_match(jobs.skip(i), name),
    decreases i,
{
    if i > 0 {
        assert(jobs.drop_first() =~= jobs.skip(1));
        lemma_first_match_skip(jobs.skip(1), name, i - 1);
        assert(jobs.skip(1).skip(i - 1) =~= jobs.skip(i));
    } else {
        assert(jobs.skip(0) =~= jobs);
    }
}

/// Extracts one job from its document entry, if the entry is job-shaped.
pub fn parse_job(v: &ConfValue) -> (r: Option<JobConfig>)
    ensures
        match r {
            Some(j) => job_shaped(*v) && job_matches(j, *v),
            None => !job_shaped(*v),
        },
{
    let name_key: String = "name".to_owned();
    let secret_key: String = "secret".to_owned();
    let path_key: String = "path".to_owned();
    let scripts_key: String = "scripts".to_owned();

    if !matches!(v, ConfValue::Record(_)) {
        return None;
    }

    let name: String = match v.key(&name_key) {
        Some(x) => match x.as_text() {
            Some(s) => {
                if s.as_str().is_empty() {
                    return None;
                }
                s.clone()
            },
            None => {
                return None;
            },
        },
        None => {
            return None;
        },
    };

    let secret: Option<String> = match v.key(&secret_key) {
        Some(x) => match x.as_text() {
            Some(s) => Some(s.clone()),
            None => {
                return None;
            },
        },
        None => None,
    };

    let path: Option<String> = match v.key(&path_key) {
        Some(x) => match x.as_text() {
            Some(s) => Some(s.clone()),
            None => {
                return None;
            },
        },
        None => None,
    };

    let scripts: Option<Vec<String>> = match v.key(&scripts_key) {
        Some(x) => match x.as_list() {
            Some(items) => {
                let n = items.len();
                let mut out: Vec<String> = Vec::new();
                for i in 0..n
                    invariant
                        n == items.len(),
                        spec_as_list(spec_key(*v, "scripts"@)) == Some(items@),
                        out@.len() == i,
                        forall|k: int| 0 <= k < i ==> items@[k] is Text,
                        forall|k: int|
                            0 <= k < i ==> (#[trigger] out@[k])@ == spec_text_of(items@[k]),
                {
                    match items[i].as_text() {
                        Some(s) => {
                            out.push(s.clone());
                        },
                        None => {
                            return None;
                        },
                    }
                }
                proof {
                    assert(out@.map_values(|s: String| s@) =~= text_items(items@));
                }
                Some(out)
            },
            None => {
                return None;
            },
        },
        None => None,
    };

    Some(JobConfig { name, secret, scripts, path })
}

/// Extracts the whole job list from its document value: every entry must be
/// job-shaped, else the list is rejected as malformed.
pub fn parse_jobs(v: &ConfValue) -> (r: Option<Vec<JobConfig>>)
    ensures
        match r {
            Some(jobs) => job_list_shaped(*v) && job_list_matches(jobs@, *v),
            None => !job_list_shaped(*v),
        },
{
    match v.as_list() {
        Some(items) => {
            let n = items.len();
            let mut jobs: Vec<JobConfig> = Vec::new();
            for i in 0..n
                invariant
                    n == items.len(),
                    spec_as_list(*v) == Some(items@),
                    *v is List,
                    jobs@.len() == i,
                    forall|k: int| 0 <= k < i ==> job_shaped(#[trigger] items@[k]),
                    forall|k: int| 0 <= k < i ==> job_matches(#[trigger] jobs@[k], items@[k]),
            {
                match parse_job(&items[i]) {
                    Some(j) => {
                        jobs.push(j);
                    },
                    None => {
                        proof {
                            assert(!job_shaped(spec_as_list(*v).unwrap()[i as int]));
                        }
                        return None;
                    },
                }
            }
            Some(jobs)
        },
        None => None,
    }
}

/// Resolves a job name to the first declared job with that name, or to
/// nothing when no job of the list has it.
pub fn resolve<'a>(jobs: &'a Vec<JobConfig>, name: &String) -> (r: Option<&'a JobConfig>)
    ensures
        match r {
            Some(j) => first_match(jobs@, name@) == Some(*j),
            None => first_match(jobs@, name@) is None,
        },
{
    let n = jobs.len();
    for i in 0..n
        invariant
            n == jobs.len(),
            forall|k: int| 0 <= k < i ==> jobs@[k].name@ != name@,
    {
        if jobs[i].name == *name {
            proof {
                lemma_first_match_skip(jobs@, name@, i as int);
                assert(jobs@.skip(i as int)[0] == jobs@[i as int]);
            }
            return Some(&jobs[i]);
        }
    }
    proof {
        lemma_first_match_skip(jobs@, name@, n as int);
        assert(jobs@.skip(n as int) =~= Seq::<JobConfig>::empty());
    }
    None
}

} // verus!

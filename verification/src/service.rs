//! The service over a loaded configuration document.
//!
//! `HTTPService::new` validates the document's job list once, when the
//! service is built, and refuses a malformed document then — no request ever
//! meets a half-parsed job list. The resulting service is read-only: every
//! request works on the same immutable `ConfigDoc`, so concurrent requests
//! cannot interfere with one another.

use vstd::prelude::*;

use crate::confval::ConfValue;
use crate::confval::spec_key;
use crate::dispatch::RunDecision;
use crate::dispatch::opt_view;
use crate::jobs::JobConfig;
use crate::jobs::job_list_matches;
use crate::jobs::job_list_shaped;
use crate::jobs::spec_opt_text;

verus! {

/// Why a configuration document was refused at startup.
#[derive(Debug)]
pub enum ConfigError {
    /// The application section's job list is missing, or not a list of
    /// job-shaped entries.
    MalformedJobs,
}

impl ConfigError {
    /// The operator-facing diagnostic for this error.
    pub fn message(&self) -> (r: String)
        ensures
            r@ == "Wrong configs"@,
    {
        "Wrong configs".to_owned()
    }
}

/// The validated view of the configuration document: the job list, the
/// optional log sink path, and the optional server settings.
pub struct ConfigDoc {
    pub jobs: Vec<JobConfig>,
    pub log: Option<String>,
    pub host: Option<String>,
    pub port: Option<u64>,
    pub health: Option<String>,
}

/// The document's job list value: under `jobs` of the application section.
pub open spec fn spec_jobs_value(root: ConfValue, section: Seq<char>) -> ConfValue {
    spec_key(spec_key(root, section), "jobs"@)
}

/// A loadable document: its job list is present and well-shaped. Nothing
/// else can make loading fail — every other setting falls back to a default.
pub open spec fn doc_ok(root: ConfValue, section: Seq<char>) -> bool {
    job_list_shaped(spec_jobs_value(root, section))
}

/// The optional port setting: the number under `server.port`, when that is
/// an integer value.
pub open spec fn spec_opt_int(v: ConfValue, key: Seq<char>) -> Option<u64> {
    match spec_key(v, key) {
        ConfValue::Int(n) => Some(n),
        _ => None,
    }
}

/// A validated `ConfigDoc` carries exactly what the document declares: the
/// job list entry by entry, the log path, and the server settings that are
/// present as the right kind of value.
pub open spec fn doc_matches(doc: ConfigDoc, root: ConfValue, section: Seq<char>) -> bool {
    &&& job_list_matches(doc.jobs@, spec_jobs_value(root, section))
    &&& opt_view(doc.log) == spec_opt_text(spec_key(root, section), "log"@)
    &&& opt_view(doc.host) == spec_opt_text(spec_key(root, "server"@), "host"@)
    &&& doc.port == spec_opt_int(spec_key(root, "server"@), "port"@)
    &&& opt_view(doc.health) == spec_opt_text(spec_key(root, "server"@), "health"@)
}

/// Reads an optional text setting under `key` of `v`, falling back to
/// nothing when the key is absent or not text.
fn opt_text_setting(v: &ConfValue, key: &String) -> (r: Option<String>)
    ensures
        opt_view(r) == spec_opt_text(*v, key@),
{
    match v.key(key) {
        Some(x) => match x.as_text() {
            Some(s) => Some(s.clone()),
            None => None,
        },
        None => None,
    }
}

/// Validates a configuration document and extracts the service's view of it.
/// Loading fails, with the one fatal error, exactly when the job list under
/// the application section is missing or ill-shaped; the log and server
/// settings always load, absent ones falling back later.
pub fn load(root: &ConfValue, section: &String) -> (r: Result<ConfigDoc, ConfigError>)
    ensures
        match r {
            Ok(doc) => doc_ok(*root, section@) && doc_matches(doc, *root, section@),
            Err(_) => !doc_ok(*root, section@),
        },
{
    let jobs_key: String = "jobs".to_owned();
    let log_key: String = "log".to_owned();
    let server_key: String = "server".to_owned();
    let host_key: String = "host".to_owned();
    let port_key: String = "port".to_owned();
    let health_key: String = "health".to_owned();

    let jobs: Vec<JobConfig> = match root.key(section) {
        Some(sec) => match sec.key(&jobs_key) {
            Some(jv) => match crate::jobs::parse_jobs(jv) {
                Some(jobs) => jobs,
                None => {
                    return Err(ConfigError::MalformedJobs);
                },
            },
            None => {
                return Err(ConfigError::MalformedJobs);
            },
        },
        None => {
            return Err(ConfigError::MalformedJobs);
        },
    };

    let log: Option<String> = match root.key(section) {
        Some(sec) => opt_text_setting(sec, &log_key),
        None => None,
    };

    let (host, port, health): (Option<String>, Option<u64>, Option<String>) = match root.key(
        &server_key,
    ) {
        Some(server) => {
            let port: Option<u64> = match server.key(&port_key) {
                Some(x) => x.as_int(),
                None => None,
            };
            (opt_text_setting(server, &host_key), port, opt_text_setting(server, &health_key))
        },
        None => (None, None, None),
    };

    Ok(ConfigDoc { jobs, log, host, port, health })
}

/// The job-trigger service: an immutable, validated configuration document
/// and the request handling over it.
pub struct HTTPService {
    pub config: ConfigDoc,
}

impl HTTPService {
    /// Builds the service, validating the whole document eagerly: a document
    /// whose job list is missing or malformed is refused here, once, and the
    /// service never starts over it.
    pub fn new(root: &ConfValue, section: &String) -> (r: Result<HTTPService, ConfigError>)
        ensures
            match r {
                Ok(s) => doc_ok(*root, section@) && doc_matches(s.config, *root, section@),
                Err(_) => !doc_ok(*root, section@),
            },
    {
        match load(root, section) {
            Ok(config) => Ok(HTTPService { config }),
            Err(e) => Err(e),
        }
    }

    /// Handles a run request: resolves the name, authorizes the caller, and
    /// hands an admitted request its run plan. The decision is a pure
    /// function of the service's immutable document and the request, so
    /// concurrent requests — even for the same job — are decided
    /// independently.
    pub fn run_job(&self, name: &String, supplied: &Option<String>) -> (r: RunDecision)
        ensures
            crate::dispatch::decision_matches(
                r,
                self.config.jobs@,
                opt_view(self.config.log),
                name@,
                opt_view(*supplied),
            ),
    {
        crate::dispatch::dispatch(&self.config.jobs, &self.config.log, name, supplied)
    }

    /// Handles the read-only existence probe for a job name.
    pub fn probe_job(&self, name: &String) -> (r: (u16, String))
        ensures
            crate::jobs::first_match(self.config.jobs@, name@) is Some ==> r.0 == 200 && r.1@
                == "Starting "@ + name@ + "!\r\n"@,
            crate::jobs::first_match(self.config.jobs@, name@) is None ==> r.0 == 500 && r.1@
                == "Job "@ + name@ + " not found!\r\n"@,
    {
        crate::dispatch::probe_response(&self.config.jobs, name)
    }

    /// The listener settings, with the documented fallbacks: host
    /// `127.0.0.1`, port `8080`, health path `/healthcheck`.
    pub fn settings(&self) -> (r: (String, u64, String))
        ensures
            r.0@ == (match opt_view(self.config.host) {
                Some(h) => h,
                None => "127.0.0.1"@,
            }),
            r.1 == (match self.config.port {
                Some(p) => p,
                None => 8080u64,
            }),
            r.2@ == (match opt_view(self.config.health) {
                Some(h) => h,
                None => "/healthcheck"@,
            }),
    {
        let host: String = match &self.config.host {
            Some(h) => h.clone(),
            None => "127.0.0.1".to_owned(),
        };
        let port: u64 = match self.config.port {
            Some(p) => p,
            None => 8080,
        };
        let health: String = match &self.config.health {
            Some(h) => h.clone(),
            None => "/healthcheck".to_owned(),
        };
        (host, port, health)
    }
}

} // verus!

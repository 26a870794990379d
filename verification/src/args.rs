//! The settings of the program and what they select.

use crate::config::RunConfig;
use vstd::prelude::*;
use vstd::string::StringSliceAdditionalSpecFns;

verus! {

/// Default address of the secrets service.
pub const VAULT_ADDR: &'static str = "http://localhost:8200";

/// Default access token.
pub const VAULT_TOKEN: &'static str = "root";

/// Default mount of the certificate authority.
pub const VAULT_PKI_MOUNT: &'static str = "pki";

/// Default issuer role.
pub const VAULT_PKI_CERT_ISSUER: &'static str = "nxlog-agent-manager-ec";

/// Default number of jobs.
pub const CERTS_COUNT: usize = 100;

/// Default rate limit; zero stands for no limit.
pub const VAULT_RATE_LIMIT: u32 = 0;

/// Default logging directive.
pub const LOGGING: &'static str = "info";

/// Attempts per job where the program retries.
pub const BACKOFF_MAX_ATTEMPTS: usize = 3;

/// The programs that can be run.
#[derive(Clone, Copy, Debug, PartialEq, Eq, Hash, Structural)]
pub enum App {
    /// Issue certificates, paced by the rate limit.
    Gen,
    /// Issue certificates with retries, gated by concurrency.
    Backoff,
    /// Sign and verify data, paced by the rate limit.
    Transit,
}

/// The ASCII lower-case form of a byte.
pub open spec fn ascii_lower(b: u8) -> u8 {
    if 65 <= b <= 90 {
        (b + 32) as u8
    } else {
        b
    }
}

/// Equality of two byte strings up to ASCII case.
pub open spec fn eq_ignore_ascii_case(a: Seq<u8>, b: Seq<u8>) -> bool {
    &&& a.len() == b.len()
    &&& forall|i: int| 0 <= i < a.len() ==> ascii_lower(#[trigger] a[i]) == ascii_lower(b[i])
}

/// The bytes of `Gen`.
pub open spec fn gen_word() -> Seq<u8> {
    seq![71u8, 101u8, 110u8]
}

/// The bytes of `Backoff`.
pub open spec fn backoff_word() -> Seq<u8> {
    seq![66u8, 97u8, 99u8, 107u8, 111u8, 102u8, 102u8]
}

/// The bytes of `Transit`.
pub open spec fn transit_word() -> Seq<u8> {
    seq![84u8, 114u8, 97u8, 110u8, 115u8, 105u8, 116u8]
}

/// The program that a name stands for: the name of a variant, in any mix
/// of upper and lower case.
pub open spec fn app_of(name: Seq<u8>) -> Option<App> {
    if eq_ignore_ascii_case(name, gen_word()) {
        Some(App::Gen)
    } else if eq_ignore_ascii_case(name, backoff_word()) {
        Some(App::Backoff)
    } else if eq_ignore_ascii_case(name, transit_word()) {
        Some(App::Transit)
    } else {
        None
    }
}

fn lower(b: u8) -> (r: u8)
    ensures
        r == ascii_lower(b),
{
    if 65 <= b && b <= 90 {
        b + 32
    } else {
        b
    }
}

fn same_ignoring_case(a: &[u8], b: &[u8]) -> (r: bool)
    ensures
        r == eq_ignore_ascii_case(a@, b@),
{
    if a.len() != b.len() {
        return false;
    }
    let mut i: usize = 0;
    while i < a.len()
        invariant
            a@.len() == b@.len(),
            i <= a@.len(),
            forall|j: int| 0 <= j < i ==> ascii_lower(#[trigger] a@[j]) == ascii_lower(b@[j]),
        decreases a@.len() - i,
    {
        if lower(a[i]) != lower(b[i]) {
            return false;
        }
        i = i + 1;
    }
    true
}

impl App {
    /// Reads the name of a program, ignoring ASCII case.
    pub fn parse(name: &str) -> (app: Option<App>)
        ensures
            app == app_of(name.spec_bytes()),
    {
        let bytes = name.as_bytes();
        let gen: [u8; 3] = [71, 101, 110];
        let backoff: [u8; 7] = [66, 97, 99, 107, 111, 102, 102];
        let transit: [u8; 7] = [84, 114, 97, 110, 115, 105, 116];
        assert(gen@ =~= gen_word());
        assert(backoff@ =~= backoff_word());
        assert(transit@ =~= transit_word());
        if same_ignoring_case(bytes, gen.as_slice()) {
            Some(App::Gen)
        } else if same_ignoring_case(bytes, backoff.as_slice()) {
            Some(App::Backoff)
        } else if same_ignoring_case(bytes, transit.as_slice()) {
            Some(App::Transit)
        } else {
            None
        }
    }

    /// The name of the program, as it is written.
    pub fn name(&self) -> (name: &'static str)
        ensures
            name@ == match self {
                App::Gen => "Gen"@,
                App::Backoff => "Backoff"@,
                App::Transit => "Transit"@,
            },
    {
        match self {
            App::Gen => "Gen",
            App::Backoff => "Backoff",
            App::Transit => "Transit",
        }
    }
}

/// The settings of one invocation.
#[derive(Clone, Debug)]
pub struct Args {
    pub vault_addr: String,
    pub vault_token: String,
    pub vault_pki_mount: String,
    pub vault_pki_issuers: String,
    /// Rate limit per second; zero stands for no limit.
    pub vault_rate_limit: u32,
    /// Number of jobs to run.
    pub certs_count: usize,
    pub logging: String,
    pub app: App,
}

/// The concurrency limit that a rate limit stands for where the program is
/// gated by concurrency: zero stands for no limit.
pub open spec fn spec_permits_of(rate_limit: u32) -> Option<u32> {
    if rate_limit == 0 {
        None
    } else {
        Some(rate_limit)
    }
}

impl Args {
    /// The settings that hold where nothing is given.
    pub fn defaults() -> (args: Args)
        ensures
            args.vault_addr@ == VAULT_ADDR@,
            args.vault_token@ == VAULT_TOKEN@,
            args.vault_pki_mount@ == VAULT_PKI_MOUNT@,
            args.vault_pki_issuers@ == VAULT_PKI_CERT_ISSUER@,
            args.vault_rate_limit == VAULT_RATE_LIMIT,
            args.certs_count == CERTS_COUNT,
            args.logging@ == LOGGING@,
            args.app == App::Gen,
    {
        Args {
            vault_addr: VAULT_ADDR.to_owned(),
            vault_token: VAULT_TOKEN.to_owned(),
            vault_pki_mount: VAULT_PKI_MOUNT.to_owned(),
            vault_pki_issuers: VAULT_PKI_CERT_ISSUER.to_owned(),
            vault_rate_limit: VAULT_RATE_LIMIT,
            certs_count: CERTS_COUNT,
            logging: LOGGING.to_owned(),
            app: App::Gen,
        }
    }

    /// The run that the settings ask for.
    ///
    /// `Gen` and `Transit` pace their jobs by the rate limit and try each
    /// job once. `Backoff` takes the rate limit as the number of jobs that
    /// may be in flight at once, and tries each job up to three times.
    pub fn plan(&self) -> (config: RunConfig)
        ensures
            config.wf(),
            config.spec_job_count() == self.certs_count,
            match self.app {
                App::Gen | App::Transit => {
                    &&& config.spec_rate_limit() == self.vault_rate_limit
                    &&& config.spec_concurrency_limit() is None
                    &&& config.spec_max_attempts() == 1
                },
                App::Backoff => {
                    &&& config.spec_rate_limit() == 0
                    &&& config.spec_concurrency_limit() == spec_permits_of(self.vault_rate_limit)
                    &&& config.spec_max_attempts() == BACKOFF_MAX_ATTEMPTS
                },
            },
    {
        let made = match self.app {
            App::Gen | App::Transit => RunConfig::new(
                self.certs_count,
                self.vault_rate_limit,
                None,
                1,
            ),
            App::Backoff => {
                let permits = if self.vault_rate_limit == 0 {
                    None
                } else {
                    Some(self.vault_rate_limit)
                };
                RunConfig::new(self.certs_count, 0, permits, BACKOFF_MAX_ATTEMPTS)
            },
        };
        match made {
            Ok(config) => config,
            Err(_) => vstd::pervasive::unreached(),
        }
    }
}

} // verus!

use job_engine::args::{App, Args};
use job_engine::config::{AdmissionPolicy, ConfigError, RunConfig};

#[test]
fn config_keeps_its_values() {
    let config = RunConfig::new(10, 5, None, 3).unwrap();
    assert_eq!(config.job_count(), 10);
    assert_eq!(config.rate_limit(), 5);
    assert_eq!(config.concurrency_limit(), None);
    assert_eq!(config.max_attempts(), 3);
    assert_eq!(config.policy(), AdmissionPolicy::TokenBucket { rate: 5 });
}

#[test]
fn config_without_jobs_is_valid() {
    let config = RunConfig::new(0, 0, None, 1).unwrap();
    assert_eq!(config.job_count(), 0);
    assert_eq!(config.policy(), AdmissionPolicy::Unlimited);
}

#[test]
fn config_with_gate() {
    let config = RunConfig::new(4, 0, Some(2), 1).unwrap();
    assert_eq!(config.policy(), AdmissionPolicy::ConcurrencyGate { permits: 2 });
}

#[test]
fn config_rejects_zero_attempts() {
    assert_eq!(RunConfig::new(10, 5, None, 0).err(), Some(ConfigError::ZeroAttempts));
    assert_eq!(RunConfig::new(10, 5, Some(0), 0).err(), Some(ConfigError::ZeroAttempts));
}

#[test]
fn config_rejects_zero_concurrency() {
    assert_eq!(RunConfig::new(10, 0, Some(0), 1).err(), Some(ConfigError::ZeroConcurrency));
    assert_eq!(RunConfig::new(10, 5, Some(0), 1).err(), Some(ConfigError::ZeroConcurrency));
}

#[test]
fn config_rejects_two_policies() {
    assert_eq!(RunConfig::new(10, 5, Some(2), 1).err(), Some(ConfigError::ConflictingPolicies));
}

#[test]
fn app_names_are_read_in_any_case() {
    assert_eq!(App::parse("Gen"), Some(App::Gen));
    assert_eq!(App::parse("gen"), Some(App::Gen));
    assert_eq!(App::parse("GEN"), Some(App::Gen));
    assert_eq!(App::parse("backoff"), Some(App::Backoff));
    assert_eq!(App::parse("BackOff"), Some(App::Backoff));
    assert_eq!(App::parse("tRANSIT"), Some(App::Transit));
}

#[test]
fn app_names_that_are_none() {
    assert_eq!(App::parse(""), None);
    assert_eq!(App::parse("ge"), None);
    assert_eq!(App::parse("gen "), None);
    assert_eq!(App::parse("generate"), None);
    assert_eq!(App::parse("backofg"), None);
    assert_eq!(App::parse("tr\u{e4}nsit"), None);
    // Only ASCII letters fold: '\u{7}' and 'g' differ by 0x60.
    assert_eq!(App::parse("\u{7}en"), None);
    assert_eq!(App::parse("[ransit"), None);
}

#[test]
fn app_names_as_written() {
    assert_eq!(App::Gen.name(), "Gen");
    assert_eq!(App::Backoff.name(), "Backoff");
    assert_eq!(App::Transit.name(), "Transit");
    for app in [App::Gen, App::Backoff, App::Transit] {
        assert_eq!(App::parse(app.name()), Some(app));
    }
}

#[test]
fn default_settings() {
    let args = Args::defaults();
    assert_eq!(args.vault_addr, "http://localhost:8200");
    assert_eq!(args.vault_token, "root");
    assert_eq!(args.vault_pki_mount, "pki");
    assert_eq!(args.vault_pki_issuers, "nxlog-agent-manager-ec");
    assert_eq!(args.vault_rate_limit, 0);
    assert_eq!(args.certs_count, 100);
    assert_eq!(args.logging, "info");
    assert_eq!(args.app, App::Gen);
}

#[test]
fn plan_for_paced_programs() {
    let mut args = Args::defaults();
    args.vault_rate_limit = 5;
    args.certs_count = 10;
    for app in [App::Gen, App::Transit] {
        args.app = app;
        let config = args.plan();
        assert_eq!(config.job_count(), 10);
        assert_eq!(config.rate_limit(), 5);
        assert_eq!(config.concurrency_limit(), None);
        assert_eq!(config.max_attempts(), 1);
    }
}

#[test]
fn plan_for_the_gated_program() {
    let mut args = Args::defaults();
    args.app = App::Backoff;
    args.vault_rate_limit = 4;
    let config = args.plan();
    assert_eq!(config.job_count(), 100);
    assert_eq!(config.rate_limit(), 0);
    assert_eq!(config.concurrency_limit(), Some(4));
    assert_eq!(config.max_attempts(), 3);
    args.vault_rate_limit = 0;
    let config = args.plan();
    assert_eq!(config.concurrency_limit(), None);
    assert_eq!(config.policy(), AdmissionPolicy::Unlimited);
}

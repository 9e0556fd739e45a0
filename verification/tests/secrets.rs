use ttsandsttp::config::{ApiConfig, ApiRegion, KeySource};
use ttsandsttp::secrets::{
    after_lookup, clean_secret, credential_names, expand_tilde, first_lookup, key_file_path,
    keyring_account, permissions_too_open, KeyLookup, LookupOutcome, ResolveFailure, ResolveStep,
    Secrets,
};

#[test]
fn redact_short_and_long_keys() {
    assert_eq!(Secrets::redact("abc"), "****");
    assert_eq!(Secrets::redact("12345678"), "****");
    assert_eq!(Secrets::redact("sk-1234567890abcd"), "sk-1…abcd");
}

#[test]
fn keyring_account_and_credentials_are_region_scoped() {
    let api = ApiConfig { region: ApiRegion::Beijing, ..ApiConfig::default() };
    assert_eq!(keyring_account(&api), "dashscope/beijing");
    assert_eq!(credential_names(&api), vec!["dashscope-beijing".to_string(), "dashscope".to_string()]);
    assert_eq!(keyring_account(&ApiConfig::default()), "dashscope/singapore");
}

#[test]
fn tilde_is_expanded_only_with_a_home() {
    assert_eq!(expand_tilde("~/keys/k", Some("/home/u")), "/home/u/keys/k");
    assert_eq!(expand_tilde("~/keys/k", None), "~/keys/k");
    assert_eq!(expand_tilde("/etc/k", Some("/home/u")), "/etc/k");
    assert_eq!(expand_tilde("~user/k", Some("/home/u")), "~user/k");
}

#[test]
fn key_file_default_and_explicit() {
    let api = ApiConfig::default();
    assert_eq!(
        key_file_path(&api, Some("/home/u/.config"), Some("/home/u")),
        "/home/u/.config/ttsandsttp/dashscope.singapore.key"
    );
    assert_eq!(key_file_path(&api, None, None), ".config/ttsandsttp/dashscope.singapore.key");
    let explicit = ApiConfig { key_file: "~/dash.key".to_string(), ..ApiConfig::default() };
    assert_eq!(key_file_path(&explicit, Some("/c"), Some("/home/u")), "/home/u/dash.key");
}

#[test]
fn permissive_modes_are_refused() {
    assert!(!permissions_too_open(0o600));
    assert!(!permissions_too_open(0o100400));
    assert!(permissions_too_open(0o640));
    assert!(permissions_too_open(0o604));
}

#[test]
fn secrets_are_trimmed() {
    assert_eq!(clean_secret("  sk-abc \n"), Some("sk-abc".to_string()));
    assert_eq!(clean_secret(" \n\t"), None);
    assert_eq!(clean_secret(""), None);
}

#[test]
fn auto_resolution_tries_sources_in_order() {
    let mut lookup = first_lookup(KeySource::Auto);
    let mut order = vec![lookup];
    loop {
        match after_lookup(KeySource::Auto, lookup, LookupOutcome::Missing) {
            ResolveStep::Next(l) => {
                lookup = l;
                order.push(l);
            }
            ResolveStep::Fail(f) => {
                assert_eq!(f, ResolveFailure::NotFound(KeySource::Auto));
                break;
            }
            ResolveStep::Done => panic!("nothing was found"),
        }
    }
    assert_eq!(order, vec![KeyLookup::Credential, KeyLookup::Keyring, KeyLookup::File, KeyLookup::Env]);
}

#[test]
fn auto_passes_over_a_failing_keyring_only() {
    assert_eq!(after_lookup(KeySource::Auto, KeyLookup::Keyring, LookupOutcome::Failed), ResolveStep::Next(KeyLookup::File));
    assert_eq!(
        after_lookup(KeySource::Auto, KeyLookup::File, LookupOutcome::Failed),
        ResolveStep::Fail(ResolveFailure::LookupFailed)
    );
    assert_eq!(after_lookup(KeySource::Auto, KeyLookup::Env, LookupOutcome::Found), ResolveStep::Done);
}

#[test]
fn single_source_is_the_only_one_tried() {
    assert_eq!(first_lookup(KeySource::File), KeyLookup::File);
    assert_eq!(first_lookup(KeySource::Credential), KeyLookup::Credential);
    assert_eq!(
        after_lookup(KeySource::Keyring, KeyLookup::Keyring, LookupOutcome::Missing),
        ResolveStep::Fail(ResolveFailure::NotFound(KeySource::Keyring))
    );
    assert_eq!(
        after_lookup(KeySource::Keyring, KeyLookup::Keyring, LookupOutcome::Failed),
        ResolveStep::Fail(ResolveFailure::LookupFailed)
    );
    assert_eq!(after_lookup(KeySource::Env, KeyLookup::Env, LookupOutcome::Found), ResolveStep::Done);
}

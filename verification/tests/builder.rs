use librime_api::builder::{Host, RimeBuilder, RimeLogKind, RimeMinLogLevel, RimeTraits};
use librime_api::error::RimeError;

fn host(log_dir_is_directory: bool) -> Host {
    Host::new("rime-query", "0.3.1", log_dir_is_directory).expect("no NUL in it")
}

fn minimal() -> RimeBuilder {
    RimeBuilder::new().shared_data_dir("./rime-ice").user_data_dir("./rime-user")
}

fn log_dir_of(traits: &RimeTraits) -> Option<Vec<u8>> {
    traits.log_dir().map(|dir| dir.as_bytes().to_vec())
}

#[test]
fn build_with_both_directories_succeeds() {
    let traits = minimal().build(&host(false)).expect("both directories are set");
    assert_eq!(traits.shared_data_dir().as_bytes(), b"./rime-ice");
    assert_eq!(traits.user_data_dir().as_bytes(), b"./rime-user");
}

#[test]
fn build_takes_its_defaults_from_the_host() {
    let traits = minimal().build(&host(false)).expect("both directories are set");
    assert_eq!(traits.distribution_name().as_bytes(), b"rime-query");
    assert_eq!(traits.distribution_code_name().as_bytes(), b"rime-query");
    assert_eq!(traits.distribution_version().as_bytes(), b"0.3.1");
    assert_eq!(traits.app_name().as_bytes(), b"rime-query");
    assert_eq!(traits.min_log_level(), 0);
    assert_eq!(log_dir_of(&traits), Some(Vec::new()));
}

#[test]
fn build_keeps_what_was_set() {
    let traits = minimal()
        .distribution_name("RIME")
        .distribution_code_name("Squirrel")
        .distribution_version("1.11.2")
        .app_name("rime.query")
        .min_log_level(RimeMinLogLevel::Error)
        .log_kind(RimeLogKind::TempDir)
        .build(&host(false))
        .expect("both directories are set");
    assert_eq!(traits.distribution_name().as_bytes(), b"RIME");
    assert_eq!(traits.distribution_code_name().as_bytes(), b"Squirrel");
    assert_eq!(traits.distribution_version().as_bytes(), b"1.11.2");
    assert_eq!(traits.app_name().as_bytes(), b"rime.query");
    assert_eq!(traits.min_log_level(), 2);
    assert_eq!(log_dir_of(&traits), None);
}

#[test]
fn later_setting_replaces_earlier() {
    let traits = minimal()
        .shared_data_dir("/usr/share/rime-data")
        .app_name("one")
        .app_name("two")
        .build(&host(false))
        .expect("both directories are set");
    assert_eq!(traits.shared_data_dir().as_bytes(), b"/usr/share/rime-data");
    assert_eq!(traits.app_name().as_bytes(), b"two");
}

#[test]
fn build_without_shared_directory_fails() {
    let outcome = RimeBuilder::new().user_data_dir("./rime-user").build(&host(false));
    assert_eq!(outcome, Err(RimeError::MissingDataDir));
}

#[test]
fn build_without_user_directory_fails() {
    let outcome = RimeBuilder::new().shared_data_dir("./rime-ice").build(&host(false));
    assert_eq!(outcome, Err(RimeError::MissingDataDir));
}

#[test]
fn build_without_any_directory_fails() {
    assert_eq!(RimeBuilder::new().build(&host(true)), Err(RimeError::MissingDataDir));
    assert_eq!(RimeBuilder::default().build(&host(true)), Err(RimeError::MissingDataDir));
}

#[test]
fn missing_directory_comes_before_bad_text() {
    let outcome = RimeBuilder::new().user_data_dir("a\0b").app_name("x\0").build(&host(false));
    assert_eq!(outcome, Err(RimeError::MissingDataDir));
}

#[test]
fn build_refuses_a_nul_in_a_directory() {
    let shared = RimeBuilder::new().shared_data_dir("a\0b").user_data_dir("u").build(&host(false));
    assert_eq!(shared, Err(RimeError::UnrepresentableText));
    let user = RimeBuilder::new().shared_data_dir("s").user_data_dir("\0").build(&host(false));
    assert_eq!(user, Err(RimeError::UnrepresentableText));
}

#[test]
fn build_refuses_a_nul_in_the_identity() {
    let bad: &str = "ri\0me";
    assert_eq!(
        minimal().distribution_name(bad).build(&host(false)),
        Err(RimeError::UnrepresentableText)
    );
    assert_eq!(
        minimal().distribution_code_name(bad).build(&host(false)),
        Err(RimeError::UnrepresentableText)
    );
    assert_eq!(
        minimal().distribution_version(bad).build(&host(false)),
        Err(RimeError::UnrepresentableText)
    );
    assert_eq!(minimal().app_name(bad).build(&host(false)), Err(RimeError::UnrepresentableText));
}

#[test]
fn log_to_standard_error_is_the_empty_directory() {
    let traits = minimal().log_kind(RimeLogKind::StdErr).build(&host(true)).expect("valid");
    assert_eq!(log_dir_of(&traits), Some(Vec::new()));
}

#[test]
fn log_to_the_temporary_directory_is_no_directory() {
    let traits = minimal().log_kind(RimeLogKind::TempDir).build(&host(true)).expect("valid");
    assert_eq!(log_dir_of(&traits), None);
}

#[test]
fn log_directory_that_exists_is_used() {
    let kind = RimeLogKind::Dir(String::from("/var/log/rime"));
    let traits = minimal().log_kind(kind).build(&host(true)).expect("valid");
    assert_eq!(log_dir_of(&traits), Some(b"/var/log/rime".to_vec()));
}

#[test]
fn log_directory_that_is_missing_falls_back_to_standard_error() {
    let kind = RimeLogKind::Dir(String::from("/var/log/rime"));
    let traits = minimal().log_kind(kind).build(&host(false)).expect("valid");
    assert_eq!(log_dir_of(&traits), Some(Vec::new()));
}

#[test]
fn log_directory_with_a_nul_counts_only_where_it_is_used() {
    let used = minimal().log_kind(RimeLogKind::Dir(String::from("lo\0g"))).build(&host(true));
    assert_eq!(used, Err(RimeError::UnrepresentableText));
    let unused = minimal().log_kind(RimeLogKind::Dir(String::from("lo\0g"))).build(&host(false));
    assert!(unused.is_ok());
}

#[test]
fn log_levels_have_the_numbers_of_the_engine() {
    assert_eq!(RimeMinLogLevel::Info.as_native(), 0);
    assert_eq!(RimeMinLogLevel::Warn.as_native(), 1);
    assert_eq!(RimeMinLogLevel::Error.as_native(), 2);
    assert_eq!(RimeMinLogLevel::Fatal.as_native(), 3);
    assert_eq!(RimeMinLogLevel::default(), RimeMinLogLevel::Info);
    for (level, number) in [
        (RimeMinLogLevel::Info, 0),
        (RimeMinLogLevel::Warn, 1),
        (RimeMinLogLevel::Error, 2),
        (RimeMinLogLevel::Fatal, 3),
    ] {
        let traits = minimal().min_log_level(level).build(&host(false)).expect("valid");
        assert_eq!(traits.min_log_level(), number);
    }
}

#[test]
fn log_kind_defaults_to_standard_error_and_clones() {
    assert_eq!(RimeLogKind::default(), RimeLogKind::StdErr);
    let kind = RimeLogKind::Dir(String::from("logs"));
    assert_eq!(kind.clone(), kind);
    assert_eq!(RimeLogKind::TempDir.clone(), RimeLogKind::TempDir);
}

#[test]
fn host_refuses_a_nul() {
    assert_eq!(Host::new("a\0", "1", false), Err(RimeError::UnrepresentableText));
    assert_eq!(Host::new("a", "1\0", true), Err(RimeError::UnrepresentableText));
    assert!(Host::new("a", "1", true).is_ok());
}

#[test]
fn same_configuration_builds_the_same_traits() {
    let one = minimal().app_name("q").build(&host(false)).expect("valid");
    let two = minimal().app_name("q").build(&host(false)).expect("valid");
    assert_eq!(one, two);
    let three = minimal().app_name("r").build(&host(false)).expect("valid");
    assert_ne!(one, three);
}

#[test]
fn builder_tells_the_log_directory_that_was_asked_for() {
    assert_eq!(RimeBuilder::new().log_dir(), None);
    assert_eq!(minimal().log_kind(RimeLogKind::TempDir).log_dir(), None);
    assert_eq!(minimal().log_kind(RimeLogKind::StdErr).log_dir(), None);
    let asked = minimal().log_kind(RimeLogKind::Dir(String::from("/var/log/rime")));
    assert_eq!(asked.log_dir(), Some("/var/log/rime"));
}

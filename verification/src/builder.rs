//! Staging and resolving the engine's configuration.

use vstd::prelude::*;
use vstd::string::StringExecFns;
use vstd::utf8::encode_utf8;

use crate::error::RimeError;
use crate::util::{is_native_text, option_text, representable, NativeText};

verus! {

/// Least severity of the messages that the engine logs.
#[derive(Debug, Clone, Copy, PartialEq, Eq, Structural)]
pub enum RimeMinLogLevel {
    Info,
    Warn,
    Error,
    Fatal,
}

impl RimeMinLogLevel {
    /// The number the engine knows this level by.
    pub open spec fn level(&self) -> int {
        match self {
            RimeMinLogLevel::Info => 0,
            RimeMinLogLevel::Warn => 1,
            RimeMinLogLevel::Error => 2,
            RimeMinLogLevel::Fatal => 3,
        }
    }

    /// The number the engine knows this level by.
    pub fn as_native(&self) -> (level: i32)
        ensures
            level == self.level(),
    {
        match self {
            RimeMinLogLevel::Info => 0,
            RimeMinLogLevel::Warn => 1,
            RimeMinLogLevel::Error => 2,
            RimeMinLogLevel::Fatal => 3,
        }
    }
}

impl Default for RimeMinLogLevel {
    fn default() -> (level: Self)
        ensures
            level == RimeMinLogLevel::Info,
    {
        RimeMinLogLevel::Info
    }
}

/// Where the engine writes its log.
#[derive(Debug, PartialEq, Eq)]
pub enum RimeLogKind {
    /// To standard error only.
    StdErr,
    /// To files in the temporary directory.
    TempDir,
    /// To files in this directory, or to standard error where it is no
    /// directory.
    Dir(String),
}

impl Default for RimeLogKind {
    fn default() -> (kind: Self)
        ensures
            kind == RimeLogKind::StdErr,
    {
        RimeLogKind::StdErr
    }
}

impl Clone for RimeLogKind {
    fn clone(&self) -> (copy: Self)
        ensures
            copy@ == self@,
    {
        match self {
            RimeLogKind::StdErr => RimeLogKind::StdErr,
            RimeLogKind::TempDir => RimeLogKind::TempDir,
            RimeLogKind::Dir(path) => RimeLogKind::Dir(path.clone()),
        }
    }
}

/// A [`RimeLogKind`] as a mathematical value.
pub enum LogKindView {
    StdErr,
    TempDir,
    Dir(Seq<char>),
}

impl View for RimeLogKind {
    type V = LogKindView;

    open spec fn view(&self) -> LogKindView {
        match self {
            RimeLogKind::StdErr => LogKindView::StdErr,
            RimeLogKind::TempDir => LogKindView::TempDir,
            RimeLogKind::Dir(path) => LogKindView::Dir(path@),
        }
    }
}

/// What only the embedding application can tell: who it is, and whether
/// the log directory that was asked for is there.
#[derive(Debug, PartialEq, Eq)]
pub struct Host {
    package_name: NativeText,
    package_version: NativeText,
    log_dir_is_directory: bool,
}

/// A [`Host`] as a mathematical value: each text by its bytes.
pub struct HostView {
    /// Name of the application's package; stands in for a distribution
    /// name, code name and application name that were not set.
    pub package_name: Seq<u8>,
    /// Version of the application's package; stands in for a
    /// distribution version that was not set.
    pub package_version: Seq<u8>,
    /// Whether the path of [`RimeLogKind::Dir`] names a directory.
    pub log_dir_is_directory: bool,
}

impl HostView {
    /// What holds of the view of every [`Host`]: its texts hold no NUL.
    pub open spec fn valid(&self) -> bool {
        is_native_text(self.package_name) && is_native_text(self.package_version)
    }
}

impl View for Host {
    type V = HostView;

    closed spec fn view(&self) -> HostView {
        HostView {
            package_name: self.package_name@,
            package_version: self.package_version@,
            log_dir_is_directory: self.log_dir_is_directory,
        }
    }
}

impl Host {
    /// Describes the embedding application. Fails with
    /// [`RimeError::UnrepresentableText`] exactly when the name or the
    /// version holds a NUL byte.
    pub fn new(package_name: &str, package_version: &str, log_dir_is_directory: bool) -> (outcome:
        Result<Host, RimeError>)
        ensures
            outcome is Ok <==> representable(package_name@) && representable(package_version@),
            outcome is Err ==> outcome == Err::<Host, RimeError>(RimeError::UnrepresentableText),
            outcome is Ok ==> outcome->Ok_0@ == (HostView {
                package_name: encode_utf8(package_name@),
                package_version: encode_utf8(package_version@),
                log_dir_is_directory,
            }),
    {
        match (NativeText::new(package_name), NativeText::new(package_version)) {
            (Some(package_name), Some(package_version)) => Ok(
                Host { package_name, package_version, log_dir_is_directory },
            ),
            _ => Err(RimeError::UnrepresentableText),
        }
    }
}

/// Collects the configuration of an engine. Every setter hands the
/// builder on; [`RimeBuilder::build`] takes it for good.
#[derive(Debug)]
pub struct RimeBuilder {
    shared_data_dir: Option<String>,
    user_data_dir: Option<String>,
    log_kind: RimeLogKind,
    min_log_level: RimeMinLogLevel,
    distribution_name: Option<String>,
    distribution_code_name: Option<String>,
    distribution_version: Option<String>,
    app_name: Option<String>,
}

/// A [`RimeBuilder`] as a mathematical value.
pub struct BuilderView {
    pub shared_data_dir: Option<Seq<char>>,
    pub user_data_dir: Option<Seq<char>>,
    pub log_kind: LogKindView,
    pub min_log_level: RimeMinLogLevel,
    pub distribution_name: Option<Seq<char>>,
    pub distribution_code_name: Option<Seq<char>>,
    pub distribution_version: Option<Seq<char>>,
    pub app_name: Option<Seq<char>>,
}

impl View for RimeBuilder {
    type V = BuilderView;

    closed spec fn view(&self) -> BuilderView {
        BuilderView {
            shared_data_dir: option_text(self.shared_data_dir),
            user_data_dir: option_text(self.user_data_dir),
            log_kind: self.log_kind@,
            min_log_level: self.min_log_level,
            distribution_name: option_text(self.distribution_name),
            distribution_code_name: option_text(self.distribution_code_name),
            distribution_version: option_text(self.distribution_version),
            app_name: option_text(self.app_name),
        }
    }
}

/// The configuration in the form the engine takes it.
#[derive(Debug, PartialEq, Eq)]
pub struct RimeTraits {
    shared_data_dir: NativeText,
    user_data_dir: NativeText,
    log_dir: Option<NativeText>,
    min_log_level: i32,
    distribution_name: NativeText,
    distribution_code_name: NativeText,
    distribution_version: NativeText,
    app_name: NativeText,
}

/// A [`RimeTraits`] as a mathematical value: each text by its bytes.
pub struct TraitsView {
    pub shared_data_dir: Seq<u8>,
    pub user_data_dir: Seq<u8>,
    /// `None` is the null pointer, for the temporary directory; the
    /// empty string is for standard error.
    pub log_dir: Option<Seq<u8>>,
    pub min_log_level: int,
    pub distribution_name: Seq<u8>,
    pub distribution_code_name: Seq<u8>,
    pub distribution_version: Seq<u8>,
    pub app_name: Seq<u8>,
}

impl View for RimeTraits {
    type V = TraitsView;

    closed spec fn view(&self) -> TraitsView {
        TraitsView {
            shared_data_dir: self.shared_data_dir@,
            user_data_dir: self.user_data_dir@,
            log_dir: match self.log_dir {
                None => None,
                Some(dir) => Some(dir@),
            },
            min_log_level: self.min_log_level as int,
            distribution_name: self.distribution_name@,
            distribution_code_name: self.distribution_code_name@,
            distribution_version: self.distribution_version@,
            app_name: self.app_name@,
        }
    }
}

/// A configuration as nothing has been set yet: no directory, no
/// identity, log to standard error from the level of information.
pub open spec fn unset() -> BuilderView {
    BuilderView {
        shared_data_dir: None,
        user_data_dir: None,
        log_kind: LogKindView::StdErr,
        min_log_level: RimeMinLogLevel::Info,
        distribution_name: None,
        distribution_code_name: None,
        distribution_version: None,
        app_name: None,
    }
}

/// The bytes that are used where `chosen` may be unset.
pub open spec fn or_default(chosen: Option<Seq<char>>, default: Seq<u8>) -> Seq<u8> {
    match chosen {
        Some(text) => encode_utf8(text),
        None => default,
    }
}

/// The log directory that the engine is given, as text: nothing for the
/// temporary directory, the empty text for standard error.
pub open spec fn log_dir_text(kind: LogKindView, is_directory: bool) -> Option<Seq<char>> {
    match kind {
        LogKindView::StdErr => Some(Seq::empty()),
        LogKindView::TempDir => None,
        LogKindView::Dir(path) => if is_directory {
            Some(path)
        } else {
            Some(Seq::empty())
        },
    }
}

/// Whether `text` is unset or can be handed to the engine.
pub open spec fn unset_or_representable(text: Option<Seq<char>>) -> bool {
    text is Some ==> representable(text->0)
}

/// Whether every text of `builder` that would reach the engine can be
/// handed to it. The path of a log directory that is no directory does
/// not reach it.
pub open spec fn all_representable(builder: BuilderView, log_dir_is_directory: bool) -> bool {
    &&& unset_or_representable(builder.shared_data_dir)
    &&& unset_or_representable(builder.user_data_dir)
    &&& unset_or_representable(log_dir_text(builder.log_kind, log_dir_is_directory))
    &&& unset_or_representable(builder.distribution_name)
    &&& unset_or_representable(builder.distribution_code_name)
    &&& unset_or_representable(builder.distribution_version)
    &&& unset_or_representable(builder.app_name)
}

/// What [`RimeBuilder::build`] makes of a configuration.
pub open spec fn resolve(builder: BuilderView, host: HostView) -> Result<TraitsView, RimeError> {
    if builder.shared_data_dir is None || builder.user_data_dir is None {
        Err(RimeError::MissingDataDir)
    } else if !all_representable(builder, host.log_dir_is_directory) {
        Err(RimeError::UnrepresentableText)
    } else {
        Ok(
            TraitsView {
                shared_data_dir: encode_utf8(builder.shared_data_dir->0),
                user_data_dir: encode_utf8(builder.user_data_dir->0),
                log_dir: match log_dir_text(builder.log_kind, host.log_dir_is_directory) {
                    None => None,
                    Some(path) => Some(encode_utf8(path)),
                },
                min_log_level: builder.min_log_level.level(),
                distribution_name: or_default(builder.distribution_name, host.package_name),
                distribution_code_name: or_default(
                    builder.distribution_code_name,
                    host.package_name,
                ),
                distribution_version: or_default(
                    builder.distribution_version,
                    host.package_version,
                ),
                app_name: or_default(builder.app_name, host.package_name),
            },
        )
    }
}

/// The outcome of a build as a mathematical value.
pub open spec fn built(outcome: Result<RimeTraits, RimeError>) -> Result<TraitsView, RimeError> {
    match outcome {
        Ok(traits) => Ok(traits@),
        Err(error) => Err(error),
    }
}

/// Converts the text that stands for a field: the chosen one, or the
/// default where none was chosen.
fn native_or_default(chosen: &Option<String>, default: &NativeText) -> (native: Option<NativeText>)
    ensures
        native is Some <==> unset_or_representable(option_text(*chosen)),
        native is Some ==> native->0@ == or_default(option_text(*chosen), default@),
{
    match chosen {
        Some(text) => NativeText::new(text.as_str()),
        None => Some(default.clone()),
    }
}

impl RimeBuilder {
    /// A builder with nothing set.
    pub fn new() -> (builder: Self)
        ensures
            builder@ == unset(),
    {
        RimeBuilder {
            shared_data_dir: None,
            user_data_dir: None,
            log_kind: RimeLogKind::StdErr,
            min_log_level: RimeMinLogLevel::Info,
            distribution_name: None,
            distribution_code_name: None,
            distribution_version: None,
            app_name: None,
        }
    }

    /// Sets the directory of the shared data. Required.
    pub fn shared_data_dir(self, dir: &str) -> (next: Self)
        ensures
            next@ == (BuilderView { shared_data_dir: Some(dir@), ..self@ }),
    {
        RimeBuilder { shared_data_dir: Some(String::from_str(dir)), ..self }
    }

    /// Sets the directory of the user's data. Required.
    pub fn user_data_dir(self, dir: &str) -> (next: Self)
        ensures
            next@ == (BuilderView { user_data_dir: Some(dir@), ..self@ }),
    {
        RimeBuilder { user_data_dir: Some(String::from_str(dir)), ..self }
    }

    /// Sets where the engine writes its log.
    pub fn log_kind(self, kind: RimeLogKind) -> (next: Self)
        ensures
            next@ == (BuilderView { log_kind: kind@, ..self@ }),
    {
        RimeBuilder { log_kind: kind, ..self }
    }

    /// Sets the least severity that is logged.
    pub fn min_log_level(self, level: RimeMinLogLevel) -> (next: Self)
        ensures
            next@ == (BuilderView { min_log_level: level, ..self@ }),
    {
        RimeBuilder { min_log_level: level, ..self }
    }

    /// Sets the name of the distribution.
    pub fn distribution_name(self, value: &str) -> (next: Self)
        ensures
            next@ == (BuilderView { distribution_name: Some(value@), ..self@ }),
    {
        RimeBuilder { distribution_name: Some(String::from_str(value)), ..self }
    }

    /// Sets the code name of the distribution.
    pub fn distribution_code_name(self, value: &str) -> (next: Self)
        ensures
            next@ == (BuilderView { distribution_code_name: Some(value@), ..self@ }),
    {
        RimeBuilder { distribution_code_name: Some(String::from_str(value)), ..self }
    }

    /// Sets the version of the distribution.
    pub fn distribution_version(self, value: &str) -> (next: Self)
        ensures
            next@ == (BuilderView { distribution_version: Some(value@), ..self@ }),
    {
        RimeBuilder { distribution_version: Some(String::from_str(value)), ..self }
    }

    /// Sets the name of the application.
    pub fn app_name(self, value: &str) -> (next: Self)
        ensures
            next@ == (BuilderView { app_name: Some(value@), ..self@ }),
    {
        RimeBuilder { app_name: Some(String::from_str(value)), ..self }
    }

    /// The directory that was asked for the log, if one was. Whether it
    /// is there is for the embedding application to find out and to
    /// tell [`Host::new`].
    pub fn log_dir(&self) -> (path: Option<&str>)
        ensures
            path is Some <==> self@.log_kind is Dir,
            path is Some ==> self@.log_kind == LogKindView::Dir(path->0@),
    {
        match &self.log_kind {
            RimeLogKind::Dir(path) => Some(path.as_str()),
            _ => None,
        }
    }

    /// Checks and resolves the configuration. Fails with
    /// [`RimeError::MissingDataDir`] where a required directory was not
    /// set, else with [`RimeError::UnrepresentableText`] where a text
    /// that would reach the engine holds a NUL byte. Makes no native
    /// call: a failed build leaves nothing to start an engine with.
    pub fn build(self, host: &Host) -> (outcome: Result<RimeTraits, RimeError>)
        ensures
            built(outcome) == resolve(self@, host@),
            self@.shared_data_dir is None || self@.user_data_dir is None ==> outcome == Err::<
                RimeTraits,
                RimeError,
            >(RimeError::MissingDataDir),
            self@.shared_data_dir is Some && self@.user_data_dir is Some && all_representable(
                self@,
                host@.log_dir_is_directory,
            ) ==> outcome is Ok,
    {
        let shared_data_dir = match &self.shared_data_dir {
            None => { return Err(RimeError::MissingDataDir); },
            Some(dir) => NativeText::new(dir.as_str()),
        };
        let user_data_dir = match &self.user_data_dir {
            None => { return Err(RimeError::MissingDataDir); },
            Some(dir) => NativeText::new(dir.as_str()),
        };
        let log_dir = match &self.log_kind {
            RimeLogKind::StdErr => Some(Some(NativeText::empty())),
            RimeLogKind::TempDir => Some(None),
            RimeLogKind::Dir(path) => {
                if host.log_dir_is_directory {
                    match NativeText::new(path.as_str()) {
                        Some(dir) => Some(Some(dir)),
                        None => None,
                    }
                } else {
                    Some(Some(NativeText::empty()))
                }
            },
        };
        let distribution_name = native_or_default(&self.distribution_name, &host.package_name);
        let distribution_code_name = native_or_default(
            &self.distribution_code_name,
            &host.package_name,
        );
        let distribution_version = native_or_default(
            &self.distribution_version,
            &host.package_version,
        );
        let app_name = native_or_default(&self.app_name, &host.package_name);
        proof {
            lemma_empty_text();
        }
        match (
            shared_data_dir,
            user_data_dir,
            log_dir,
            distribution_name,
            distribution_code_name,
            distribution_version,
            app_name,
        ) {
            (
                Some(shared_data_dir),
                Some(user_data_dir),
                Some(log_dir),
                Some(distribution_name),
                Some(distribution_code_name),
                Some(distribution_version),
                Some(app_name),
            ) => Ok(
                RimeTraits {
                    shared_data_dir,
                    user_data_dir,
                    log_dir,
                    min_log_level: self.min_log_level.as_native(),
                    distribution_name,
                    distribution_code_name,
                    distribution_version,
                    app_name,
                },
            ),
            _ => Err(RimeError::UnrepresentableText),
        }
    }
}

/// The empty text encodes to no bytes, and so can be handed to the engine.
pub proof fn lemma_empty_text()
    ensures
        encode_utf8(Seq::<char>::empty()) == Seq::<u8>::empty(),
        representable(Seq::<char>::empty()),
{
    reveal_with_fuel(encode_utf8, 1);
}

/// Two data directories are all that a build needs: with both set to
/// texts free of NUL and nothing else set, the build succeeds, logs to
/// standard error and takes the identity of the embedding application.
pub proof fn lemma_directories_suffice(shared: Seq<char>, user: Seq<char>, host: HostView)
    requires
        representable(shared),
        representable(user),
        host.valid(),
    ensures
        resolve(
            BuilderView { shared_data_dir: Some(shared), user_data_dir: Some(user), ..unset() },
            host,
        ) == Ok::<TraitsView, RimeError>(
            TraitsView {
                shared_data_dir: encode_utf8(shared),
                user_data_dir: encode_utf8(user),
                log_dir: Some(Seq::empty()),
                min_log_level: 0,
                distribution_name: host.package_name,
                distribution_code_name: host.package_name,
                distribution_version: host.package_version,
                app_name: host.package_name,
            },
        ),
{
    lemma_empty_text();
}

/// Without both data directories a build fails, whatever else is set.
pub proof fn lemma_missing_directory_fails(builder: BuilderView, host: HostView)
    requires
        builder.shared_data_dir is None || builder.user_data_dir is None,
    ensures
        resolve(builder, host) == Err::<TraitsView, RimeError>(RimeError::MissingDataDir),
{
}

/// A build succeeds exactly when both data directories are set and every
/// text that would reach the engine is free of NUL.
pub proof fn lemma_build_succeeds_iff(builder: BuilderView, host: HostView)
    ensures
        resolve(builder, host) is Ok <==> builder.shared_data_dir is Some
            && builder.user_data_dir is Some && all_representable(
            builder,
            host.log_dir_is_directory,
        ),
{
}

impl Default for RimeBuilder {
    fn default() -> (builder: Self)
        ensures
            builder@ == unset(),
    {
        RimeBuilder::new()
    }
}

impl RimeTraits {
    /// Directory of the shared data.
    pub fn shared_data_dir(&self) -> (text: &NativeText)
        ensures
            text@ == self@.shared_data_dir,
    {
        &self.shared_data_dir
    }

    /// Directory of the user's data.
    pub fn user_data_dir(&self) -> (text: &NativeText)
        ensures
            text@ == self@.user_data_dir,
    {
        &self.user_data_dir
    }

    /// Directory of the log files: `None` for the temporary directory,
    /// the empty text for standard error only.
    pub fn log_dir(&self) -> (text: Option<&NativeText>)
        ensures
            text is Some <==> self@.log_dir is Some,
            text is Some ==> text->0@ == self@.log_dir->0,
    {
        self.log_dir.as_ref()
    }

    /// Least severity that is logged, as the engine numbers it.
    pub fn min_log_level(&self) -> (level: i32)
        ensures
            level == self@.min_log_level,
    {
        self.min_log_level
    }

    /// Name of the distribution.
    pub fn distribution_name(&self) -> (text: &NativeText)
        ensures
            text@ == self@.distribution_name,
    {
        &self.distribution_name
    }

    /// Code name of the distribution.
    pub fn distribution_code_name(&self) -> (text: &NativeText)
        ensures
            text@ == self@.distribution_code_name,
    {
        &self.distribution_code_name
    }

    /// Version of the distribution.
    pub fn distribution_version(&self) -> (text: &NativeText)
        ensures
            text@ == self@.distribution_version,
    {
        &self.distribution_version
    }

    /// Name of the application.
    pub fn app_name(&self) -> (text: &NativeText)
        ensures
            text@ == self@.app_name,
    {
        &self.app_name
    }
}

} // verus!

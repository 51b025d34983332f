//! The native calls that this library asks its shell to make.

use vstd::prelude::*;

use vstd::utf8::encode_utf8;

use crate::error::RimeError;
use crate::util::{representable, NativeText};
use crate::RimeSessionId;

verus! {

/// One call into the engine, with its arguments as plain values. The
/// library decides which calls are made and in what order; the shell
/// performs them and hands back what they returned.
#[derive(Debug, PartialEq, Eq)]
pub enum RimeCall {
    /// `RimeSetup` with the resolved configuration.
    Setup,
    /// `RimeInitialize` with the resolved configuration.
    Initialize,
    /// `RimeDeployerInitialize` with the resolved configuration.
    DeployerInitialize,
    /// `RimeStartMaintenanceOnWorkspaceChange`; its answer decides
    /// whether [`RimeCall::JoinMaintenanceThread`] follows.
    StartMaintenanceOnWorkspaceChange,
    /// `RimeJoinMaintenanceThread`: wait for the maintenance to end.
    JoinMaintenanceThread,
    /// `RimeFinalize`.
    Finalize,
    /// `RimeSetupLogging`.
    SetupLogging { app_name: NativeText },
    /// `RimeDestroySession`.
    DestroySession { id: RimeSessionId },
    /// `RimeCleanupAllSessions`.
    CleanupAllSessions,
    /// `RimeCleanupStaleSessions`.
    CleanupStaleSessions,
    /// `RimeFindSession`.
    FindSession { id: RimeSessionId },
    /// `RimeDeploySchema`.
    DeploySchema { schema: NativeText },
    /// `RimeDeployConfigFile`.
    DeployConfigFile { file: NativeText, version: NativeText },
    /// `RimeProcessKey`.
    ProcessKey { id: RimeSessionId, keycode: i32, mask: i32 },
    /// `RimeClearComposition`.
    ClearComposition { id: RimeSessionId },
    /// `RimeSetOption`.
    SetOption { id: RimeSessionId, option: NativeText, enabled: bool },
    /// `RimeGetOption`.
    GetOption { id: RimeSessionId, option: NativeText },
    /// `RimeSetProperty`.
    SetProperty { id: RimeSessionId, prop: NativeText, value: NativeText },
    /// `RimeGetProperty` into a buffer of `size` bytes.
    GetProperty { id: RimeSessionId, prop: NativeText, size: usize },
    /// `RimeFindModule`.
    FindModule { name: NativeText },
    /// `RimeRegisterModule`.
    RegisterModule { name: NativeText },
}

/// A [`RimeCall`] as a mathematical value: each text by its bytes.
pub enum CallView {
    Setup,
    Initialize,
    DeployerInitialize,
    StartMaintenanceOnWorkspaceChange,
    JoinMaintenanceThread,
    Finalize,
    SetupLogging { app_name: Seq<u8> },
    DestroySession { id: RimeSessionId },
    CleanupAllSessions,
    CleanupStaleSessions,
    FindSession { id: RimeSessionId },
    DeploySchema { schema: Seq<u8> },
    DeployConfigFile { file: Seq<u8>, version: Seq<u8> },
    ProcessKey { id: RimeSessionId, keycode: i32, mask: i32 },
    ClearComposition { id: RimeSessionId },
    SetOption { id: RimeSessionId, option: Seq<u8>, enabled: bool },
    GetOption { id: RimeSessionId, option: Seq<u8> },
    SetProperty { id: RimeSessionId, prop: Seq<u8>, value: Seq<u8> },
    GetProperty { id: RimeSessionId, prop: Seq<u8>, size: usize },
    FindModule { name: Seq<u8> },
    RegisterModule { name: Seq<u8> },
}

impl View for RimeCall {
    type V = CallView;

    open spec fn view(&self) -> CallView {
        match self {
            RimeCall::Setup => CallView::Setup,
            RimeCall::Initialize => CallView::Initialize,
            RimeCall::DeployerInitialize => CallView::DeployerInitialize,
            RimeCall::StartMaintenanceOnWorkspaceChange => CallView::StartMaintenanceOnWorkspaceChange,
            RimeCall::JoinMaintenanceThread => CallView::JoinMaintenanceThread,
            RimeCall::Finalize => CallView::Finalize,
            RimeCall::SetupLogging { app_name } => CallView::SetupLogging { app_name: app_name@ },
            RimeCall::DestroySession { id } => CallView::DestroySession { id: *id },
            RimeCall::CleanupAllSessions => CallView::CleanupAllSessions,
            RimeCall::CleanupStaleSessions => CallView::CleanupStaleSessions,
            RimeCall::FindSession { id } => CallView::FindSession { id: *id },
            RimeCall::DeploySchema { schema } => CallView::DeploySchema { schema: schema@ },
            RimeCall::DeployConfigFile { file, version } => CallView::DeployConfigFile {
                file: file@,
                version: version@,
            },
            RimeCall::ProcessKey { id, keycode, mask } => CallView::ProcessKey {
                id: *id,
                keycode: *keycode,
                mask: *mask,
            },
            RimeCall::ClearComposition { id } => CallView::ClearComposition { id: *id },
            RimeCall::SetOption { id, option, enabled } => CallView::SetOption {
                id: *id,
                option: option@,
                enabled: *enabled,
            },
            RimeCall::GetOption { id, option } => CallView::GetOption { id: *id, option: option@ },
            RimeCall::SetProperty { id, prop, value } => CallView::SetProperty {
                id: *id,
                prop: prop@,
                value: value@,
            },
            RimeCall::GetProperty { id, prop, size } => CallView::GetProperty {
                id: *id,
                prop: prop@,
                size: *size,
            },
            RimeCall::FindModule { name } => CallView::FindModule { name: name@ },
            RimeCall::RegisterModule { name } => CallView::RegisterModule { name: name@ },
        }
    }
}

/// The calls of a list, each as a mathematical value.
pub open spec fn views(calls: Seq<RimeCall>) -> Seq<CallView> {
    Seq::new(calls.len(), |i: int| calls[i]@)
}

/// A call that may have been refused, as a mathematical value.
pub open spec fn issued(outcome: Result<RimeCall, RimeError>) -> Result<CallView, RimeError> {
    match outcome {
        Ok(call) => Ok(call@),
        Err(error) => Err(error),
    }
}

/// A call that there may be no need for, as a mathematical value.
pub open spec fn wanted(call: Option<RimeCall>) -> Option<CallView> {
    match call {
        Some(call) => Some(call@),
        None => None,
    }
}

/// The call that sets up logging under `app_name`, before the engine is
/// set up. Refused exactly when the name holds a NUL byte.
pub fn setup_logging(app_name: &str) -> (outcome: Result<RimeCall, RimeError>)
    ensures
        issued(outcome) == if representable(app_name@) {
            Ok::<CallView, RimeError>(CallView::SetupLogging { app_name: encode_utf8(app_name@) })
        } else {
            Err::<CallView, RimeError>(RimeError::UnrepresentableText)
        },
{
    match NativeText::new(app_name) {
        Some(app_name) => Ok(RimeCall::SetupLogging { app_name }),
        None => Err(RimeError::UnrepresentableText),
    }
}

/// The call that deploys the schema named `schema`. Refused exactly when
/// the name holds a NUL byte.
#[allow(non_snake_case)]
pub fn DeploySchema(schema: &str) -> (outcome: Result<RimeCall, RimeError>)
    ensures
        issued(outcome) == if representable(schema@) {
            Ok::<CallView, RimeError>(CallView::DeploySchema { schema: encode_utf8(schema@) })
        } else {
            Err::<CallView, RimeError>(RimeError::UnrepresentableText)
        },
{
    match NativeText::new(schema) {
        Some(schema) => Ok(RimeCall::DeploySchema { schema }),
        None => Err(RimeError::UnrepresentableText),
    }
}

/// The call that deploys the configuration file `file` at `version`.
/// Refused exactly when one of the two holds a NUL byte.
#[allow(non_snake_case)]
pub fn DeployConfigFile(file: &str, version: &str) -> (outcome: Result<RimeCall, RimeError>)
    ensures
        issued(outcome) == if representable(file@) && representable(version@) {
            Ok::<CallView, RimeError>(
                CallView::DeployConfigFile {
                    file: encode_utf8(file@),
                    version: encode_utf8(version@),
                },
            )
        } else {
            Err::<CallView, RimeError>(RimeError::UnrepresentableText)
        },
{
    match (NativeText::new(file), NativeText::new(version)) {
        (Some(file), Some(version)) => Ok(RimeCall::DeployConfigFile { file, version }),
        _ => Err(RimeError::UnrepresentableText),
    }
}

/// The call that switches the option `option` of session `id` to
/// `value`. Refused exactly when the name holds a NUL byte.
#[allow(non_snake_case)]
pub fn SetOption(id: RimeSessionId, option: &str, value: bool) -> (outcome: Result<
    RimeCall,
    RimeError,
>)
    ensures
        issued(outcome) == if representable(option@) {
            Ok::<CallView, RimeError>(
                CallView::SetOption { id, option: encode_utf8(option@), enabled: value },
            )
        } else {
            Err::<CallView, RimeError>(RimeError::UnrepresentableText)
        },
{
    match NativeText::new(option) {
        Some(option) => Ok(RimeCall::SetOption { id, option, enabled: value }),
        None => Err(RimeError::UnrepresentableText),
    }
}

/// The call that asks for the option `option` of session `id`. Refused
/// exactly when the name holds a NUL byte.
#[allow(non_snake_case)]
pub fn GetOption(id: RimeSessionId, option: &str) -> (outcome: Result<RimeCall, RimeError>)
    ensures
        issued(outcome) == if representable(option@) {
            Ok::<CallView, RimeError>(CallView::GetOption { id, option: encode_utf8(option@) })
        } else {
            Err::<CallView, RimeError>(RimeError::UnrepresentableText)
        },
{
    match NativeText::new(option) {
        Some(option) => Ok(RimeCall::GetOption { id, option }),
        None => Err(RimeError::UnrepresentableText),
    }
}

/// The call that sets the property `prop` of session `id` to `value`.
/// Refused exactly when one of the two holds a NUL byte.
#[allow(non_snake_case)]
pub fn SetProperty(id: RimeSessionId, prop: &str, value: &str) -> (outcome: Result<
    RimeCall,
    RimeError,
>)
    ensures
        issued(outcome) == if representable(prop@) && representable(value@) {
            Ok::<CallView, RimeError>(
                CallView::SetProperty {
                    id,
                    prop: encode_utf8(prop@),
                    value: encode_utf8(value@),
                },
            )
        } else {
            Err::<CallView, RimeError>(RimeError::UnrepresentableText)
        },
{
    match (NativeText::new(prop), NativeText::new(value)) {
        (Some(prop), Some(value)) => Ok(RimeCall::SetProperty { id, prop, value }),
        _ => Err(RimeError::UnrepresentableText),
    }
}

/// The call that reads the property `prop` of session `id` into a buffer
/// of `size` bytes; [`crate::util::property_value`] reads the answer.
/// Refused exactly when the name holds a NUL byte.
#[allow(non_snake_case)]
pub fn GetProperty(id: RimeSessionId, prop: &str, size: usize) -> (outcome: Result<
    RimeCall,
    RimeError,
>)
    ensures
        issued(outcome) == if representable(prop@) {
            Ok::<CallView, RimeError>(
                CallView::GetProperty { id, prop: encode_utf8(prop@), size },
            )
        } else {
            Err::<CallView, RimeError>(RimeError::UnrepresentableText)
        },
{
    match NativeText::new(prop) {
        Some(prop) => Ok(RimeCall::GetProperty { id, prop, size }),
        None => Err(RimeError::UnrepresentableText),
    }
}

} // verus!

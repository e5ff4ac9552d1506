use windows_erg::error::MitigationError;
use windows_erg::mitigation::{
    apply_after_call, apply_start, map_windows_apply_error, map_windows_query_error, payload_candidate_masks,
    payload_try_next, status_from_policy_flags, ApplyProgress, MitigationPlan, MitigationStep, ProcessMitigation,
    ERROR_INVALID_PARAMETER_HRESULT,
};
use windows_erg::{Error, ProcessId};

#[test]
fn mitigation_plan_enable_deduplicates_values() {
    let plan = MitigationPlan::new()
        .enable(ProcessMitigation::DisableDynamicCode)
        .enable(ProcessMitigation::DisableDynamicCode)
        .enable(ProcessMitigation::MicrosoftSignedOnly);

    let debug = format!("{plan:?}");
    let count = debug.matches("DisableDynamicCode").count();
    assert_eq!(count, 1);
    assert!(debug.contains("MicrosoftSignedOnly"));
}

#[test]
fn mitigation_plan_keeps_first_enable_order() {
    let plan = MitigationPlan::new()
        .enable(ProcessMitigation::RestrictPayload)
        .enable(ProcessMitigation::BlockRemoteImages)
        .enable(ProcessMitigation::RestrictPayload);
    assert_eq!(
        plan.mitigations(),
        &vec![ProcessMitigation::RestrictPayload, ProcessMitigation::BlockRemoteImages]
    );
}

#[test]
fn mitigation_plan_steps_in_policy_order() {
    let plan = MitigationPlan::new()
        .enable(ProcessMitigation::BlockChildProcessCreation)
        .enable(ProcessMitigation::PreferSystem32Images)
        .enable(ProcessMitigation::BlockRemoteImages)
        .enable(ProcessMitigation::MicrosoftSignedOnly);
    let steps = plan.apply_steps();
    assert_eq!(
        steps,
        vec![
            MitigationStep::Signature(0x1),
            MitigationStep::ImageLoad(0b0101),
            MitigationStep::ChildProcess(0b001),
        ]
    );
}

#[test]
fn mitigation_plan_payload_step_tries_masks() {
    let plan = MitigationPlan::new().enable(ProcessMitigation::RestrictPayload);
    let steps = plan.apply_steps();
    assert_eq!(steps, vec![MitigationStep::Payload(payload_candidate_masks())]);
    let masks = payload_candidate_masks();
    assert_eq!(masks.len(), 5);
    assert_eq!(masks[0], 0b0101_0101_0101);
    assert_eq!(masks[4], 0b0001);
    assert!(payload_try_next(-2147024809));
    assert!(!payload_try_next(5));
}

#[test]
fn mitigation_policy_names() {
    assert_eq!(ProcessMitigation::DisableDynamicCode.policy_name(), "dynamic_code");
    assert_eq!(ProcessMitigation::MicrosoftSignedOnly.policy_name(), "signature");
}

#[test]
fn mitigation_status_from_flags() {
    let status = status_from_policy_flags(ProcessId::new(42), 1, 0b100, 0, 0b0100_0000, 1);
    assert_eq!(status.process_id, ProcessId::new(42));
    assert!(status.microsoft_signed_only);
    assert!(!status.block_remote_images);
    assert!(status.prefer_system32_images);
    assert!(!status.disable_dynamic_code);
    assert!(status.restrict_payload);
    assert!(status.block_child_process_creation);
}

#[test]
fn mitigation_apply_error_access_denied() {
    match map_windows_apply_error(5, "Access is denied.", "ProcessSignaturePolicy") {
        Error::AccessDenied(e) => {
            assert_eq!(e.resource, "current process");
            assert_eq!(e.operation, "set mitigation policy");
            assert_eq!(e.reason.as_deref(), Some("ProcessSignaturePolicy: access denied"));
        }
        other => panic!("unexpected {:?}", other),
    }
}

#[test]
fn mitigation_apply_error_other_code() {
    match map_windows_apply_error(87, "The parameter is incorrect.", "ProcessDynamicCodePolicy") {
        Error::Mitigation(MitigationError::ApplyFailed(e)) => {
            assert_eq!(e.operation, "apply");
            assert_eq!(e.policy, "ProcessDynamicCodePolicy");
            assert_eq!(e.process_id, None);
            assert_eq!(e.error_code, Some(87));
        }
        other => panic!("unexpected {:?}", other),
    }
}

#[test]
fn mitigation_query_error_mapping() {
    match map_windows_query_error(5, "denied", "ProcessImageLoadPolicy", ProcessId::new(77)) {
        Error::AccessDenied(e) => {
            assert_eq!(e.resource, "process 77");
            assert_eq!(e.operation, "query mitigation policy");
        }
        other => panic!("unexpected {:?}", other),
    }
    match map_windows_query_error(6, "bad handle", "ProcessImageLoadPolicy", ProcessId::new(77)) {
        Error::Mitigation(MitigationError::QueryFailed(e)) => {
            assert_eq!(e.operation, "query");
            assert_eq!(e.process_id, Some(77));
            assert_eq!(e.error_code, Some(6));
        }
        other => panic!("unexpected {:?}", other),
    }
}

#[test]
fn applying_stops_at_first_failure_and_retries_payload_words() {
    let steps = MitigationPlan::new()
        .enable(ProcessMitigation::RestrictPayload)
        .enable(ProcessMitigation::DisableDynamicCode)
        .apply_steps();
    assert_eq!(steps.len(), 2);
    assert!(matches!(apply_start(&steps), ApplyProgress::Call { step: 0, word: 0 }));
    assert!(matches!(apply_start(&Vec::new()), ApplyProgress::Done));
    // Dynamic code first, then the payload words.
    assert!(matches!(apply_after_call(&steps, 0, 0, None, ""), ApplyProgress::Call { step: 1, word: 0 }));
    match apply_after_call(&steps, 0, 0, Some(87), "bad") {
        ApplyProgress::Failed(Error::Mitigation(MitigationError::ApplyFailed(e))) => {
            assert_eq!(e.policy, "dynamic_code");
            assert_eq!(e.error_code, Some(87));
        }
        other => panic!("unexpected {other:?}"),
    }
    let refused = Some(ERROR_INVALID_PARAMETER_HRESULT);
    assert!(matches!(apply_after_call(&steps, 1, 0, refused, "x"), ApplyProgress::Call { step: 1, word: 1 }));
    assert!(matches!(apply_after_call(&steps, 1, 3, refused, "x"), ApplyProgress::Call { step: 1, word: 4 }));
    match apply_after_call(&steps, 1, 4, refused, "last") {
        ApplyProgress::Failed(Error::Mitigation(MitigationError::ApplyFailed(e))) => {
            assert_eq!(e.policy, "payload_restriction");
            assert_eq!(e.reason.as_deref(), Some("last"));
        }
        other => panic!("unexpected {other:?}"),
    }
    match apply_after_call(&steps, 1, 0, Some(5), "denied") {
        ApplyProgress::Failed(Error::AccessDenied(e)) => {
            assert_eq!(e.reason.as_deref(), Some("payload_restriction: access denied"));
        }
        other => panic!("unexpected {other:?}"),
    }
    assert!(matches!(apply_after_call(&steps, 1, 2, None, ""), ApplyProgress::Done));
}

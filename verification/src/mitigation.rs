//! Process mitigation policies: which policy words to set for a plan, how to
//! read a process's policy words, and how failures are reported.
//!
//! `SetProcessMitigationPolicy` only applies to the current process; querying
//! covers other processes where access allows.

use vstd::prelude::*;

use crate::error::{AccessDeniedError, Error, MitigationError, MitigationOperationError};
use crate::text::{dec, push_dec, str_to_string};
use crate::types::ProcessId;

verus! {

/// `PROCESS_MITIGATION_BINARY_SIGNATURE_POLICY.MicrosoftSignedOnly`.
pub const BINARY_SIGNED_MICROSOFT_SIGNED_ONLY: u32 = 0x1;
/// `PROCESS_MITIGATION_DYNAMIC_CODE_POLICY.ProhibitDynamicCode`.
pub const DYNAMIC_CODE_PROHIBIT: u32 = 0x1;
/// `PROCESS_MITIGATION_IMAGE_LOAD_POLICY.NoRemoteImages`.
pub const IMAGE_LOAD_NO_REMOTE: u32 = 0b01;
/// `PROCESS_MITIGATION_IMAGE_LOAD_POLICY.PreferSystem32Images`.
pub const IMAGE_LOAD_PREFER_SYSTEM32_IMAGES: u32 = 0b0100;
/// Export address filtering.
pub const PAYLOAD_RESTRICTION_ENABLE_EXPORT_ADDRESS_FILTER: u32 = 0b0001;
/// Export address filtering plus.
pub const PAYLOAD_RESTRICTION_ENABLE_EXPORT_ADDRESS_FILTER_PLUS: u32 = 0b000100;
/// Import address filtering.
pub const PAYLOAD_RESTRICTION_ENABLE_IMPORT_ADDRESS_FILTER: u32 = 0b00010000;
/// ROP stack pivot checks.
pub const PAYLOAD_RESTRICTION_ENABLE_ROP_STACK_PIVOT: u32 = 0b0001000000;
/// ROP caller checks.
pub const PAYLOAD_RESTRICTION_ENABLE_ROP_CALLER_CHECK: u32 = 0b000100000000;
/// ROP simulated execution.
pub const PAYLOAD_RESTRICTION_ENABLE_ROP_SIM_EXEC: u32 = 0b010000000000;
/// Every payload restriction enable bit.
pub const PAYLOAD_RESTRICTION_MASK: u32 = PAYLOAD_RESTRICTION_ENABLE_EXPORT_ADDRESS_FILTER
    | PAYLOAD_RESTRICTION_ENABLE_EXPORT_ADDRESS_FILTER_PLUS
    | PAYLOAD_RESTRICTION_ENABLE_IMPORT_ADDRESS_FILTER
    | PAYLOAD_RESTRICTION_ENABLE_ROP_STACK_PIVOT
    | PAYLOAD_RESTRICTION_ENABLE_ROP_CALLER_CHECK
    | PAYLOAD_RESTRICTION_ENABLE_ROP_SIM_EXEC;
/// `PROCESS_MITIGATION_CHILD_PROCESS_POLICY.NoChildProcessCreation`.
pub const CHILD_RESTRICTION_NO_PROCESS_CREATION: u32 = 0b001;
/// `E_INVALIDARG` as returned for payload masks the system does not take.
pub const ERROR_INVALID_PARAMETER_HRESULT: i32 = -2147024809;

/// Supported process mitigations.
#[derive(Debug, Clone, Copy, PartialEq, Eq, Hash, Structural)]
pub enum ProcessMitigation {
    /// Restrict binaries to Microsoft-signed images only.
    MicrosoftSignedOnly,
    /// Prevent loading images from remote locations.
    BlockRemoteImages,
    /// Prefer loading images from System32.
    PreferSystem32Images,
    /// Block dynamic code generation (ACG).
    DisableDynamicCode,
    /// Enable payload restrictions (EAF, IAF, ROP checks).
    RestrictPayload,
    /// Prevent this process from creating child processes.
    BlockChildProcessCreation,
}

impl ProcessMitigation {
    /// The policy name of a mitigation, as errors report it.
    pub open spec fn spec_policy_name(self) -> Seq<char> {
        match self {
            ProcessMitigation::MicrosoftSignedOnly => "signature"@,
            ProcessMitigation::BlockRemoteImages => "image_load_no_remote"@,
            ProcessMitigation::PreferSystem32Images => "image_load_prefer_system32"@,
            ProcessMitigation::DisableDynamicCode => "dynamic_code"@,
            ProcessMitigation::RestrictPayload => "payload_restriction"@,
            ProcessMitigation::BlockChildProcessCreation => "child_process"@,
        }
    }

    /// The policy name of a mitigation, as errors report it.
    pub fn policy_name(self) -> (r: &'static str)
        ensures
            r@ == self.spec_policy_name(),
    {
        match self {
            ProcessMitigation::MicrosoftSignedOnly => "signature",
            ProcessMitigation::BlockRemoteImages => "image_load_no_remote",
            ProcessMitigation::PreferSystem32Images => "image_load_prefer_system32",
            ProcessMitigation::DisableDynamicCode => "dynamic_code",
            ProcessMitigation::RestrictPayload => "payload_restriction",
            ProcessMitigation::BlockChildProcessCreation => "child_process",
        }
    }
}

/// Query result for supported process mitigations.
#[derive(Debug, Clone, PartialEq, Eq, Structural)]
pub struct ProcessMitigationStatus {
    /// Process ID that was queried.
    pub process_id: ProcessId,
    /// Whether Microsoft-signed-only policy is enabled.
    pub microsoft_signed_only: bool,
    /// Whether remote image loading is blocked.
    pub block_remote_images: bool,
    /// Whether System32 images are preferred.
    pub prefer_system32_images: bool,
    /// Whether dynamic code generation is blocked.
    pub disable_dynamic_code: bool,
    /// Whether payload restrictions are active.
    pub restrict_payload: bool,
    /// Whether child process creation is blocked.
    pub block_child_process_creation: bool,
}

/// The status of a process from the policy words `GetProcessMitigationPolicy`
/// returned for its signature, image load, dynamic code, payload restriction
/// and child process policies.
pub fn status_from_policy_flags(
    process_id: ProcessId,
    signature_flags: u32,
    image_load_flags: u32,
    dynamic_flags: u32,
    payload_flags: u32,
    child_flags: u32,
) -> (r: ProcessMitigationStatus)
    ensures
        r.process_id == process_id,
        r.microsoft_signed_only == (signature_flags & BINARY_SIGNED_MICROSOFT_SIGNED_ONLY != 0),
        r.block_remote_images == (image_load_flags & IMAGE_LOAD_NO_REMOTE != 0),
        r.prefer_system32_images == (image_load_flags & IMAGE_LOAD_PREFER_SYSTEM32_IMAGES != 0),
        r.disable_dynamic_code == (dynamic_flags & DYNAMIC_CODE_PROHIBIT != 0),
        r.restrict_payload == (payload_flags & PAYLOAD_RESTRICTION_MASK != 0),
        r.block_child_process_creation == (child_flags & CHILD_RESTRICTION_NO_PROCESS_CREATION != 0),
{
    ProcessMitigationStatus {
        process_id,
        microsoft_signed_only: (signature_flags & BINARY_SIGNED_MICROSOFT_SIGNED_ONLY) != 0,
        block_remote_images: (image_load_flags & IMAGE_LOAD_NO_REMOTE) != 0,
        prefer_system32_images: (image_load_flags & IMAGE_LOAD_PREFER_SYSTEM32_IMAGES) != 0,
        disable_dynamic_code: (dynamic_flags & DYNAMIC_CODE_PROHIBIT) != 0,
        restrict_payload: (payload_flags & PAYLOAD_RESTRICTION_MASK) != 0,
        block_child_process_creation: (child_flags & CHILD_RESTRICTION_NO_PROCESS_CREATION) != 0,
    }
}

/// Builder for mitigation application.
#[derive(Debug)]
pub struct MitigationPlan {
    mitigations: Vec<ProcessMitigation>,
}

impl Clone for MitigationPlan {
    fn clone(&self) -> (r: Self)
        ensures
            r.spec_mitigations() == self.spec_mitigations(),
    {
        proof {
            use_type_invariant(self);
        }
        let mut m: Vec<ProcessMitigation> = Vec::new();
        let mut i: usize = 0;
        while i < self.mitigations.len()
            invariant
                i <= self.mitigations@.len(),
                m@ == self.mitigations@.subrange(0, i as int),
                self.mitigations@.no_duplicates(),
            decreases self.mitigations@.len() - i,
        {
            m.push(self.mitigations[i]);
            assert(self.mitigations@.subrange(0, i + 1) =~= self.mitigations@.subrange(0, i as int).push(
                self.mitigations@[i as int],
            ));
            i = i + 1;
        }
        assert(self.mitigations@.subrange(0, i as int) =~= self.mitigations@);
        MitigationPlan { mitigations: m }
    }
}

impl Default for MitigationPlan {
    fn default() -> (r: Self)
        ensures
            r.spec_mitigations() == Seq::<ProcessMitigation>::empty(),
    {
        MitigationPlan::new()
    }
}

/// One `SetProcessMitigationPolicy` call of a plan.
#[derive(Debug, Clone, PartialEq, Eq)]
pub enum MitigationStep {
    /// The binary signature policy with this word.
    Signature(u32),
    /// The image load policy with this word.
    ImageLoad(u32),
    /// The dynamic code policy with this word.
    DynamicCode(u32),
    /// The payload restriction policy: each word in turn until one is taken;
    /// a word the system refuses as an invalid parameter moves on to the next.
    Payload(Vec<u32>),
    /// The child process policy with this word.
    ChildProcess(u32),
}

/// The payload restriction words to try, strongest first.
pub open spec fn payload_candidates() -> Seq<u32> {
    seq![
        PAYLOAD_RESTRICTION_MASK,
        PAYLOAD_RESTRICTION_MASK & !PAYLOAD_RESTRICTION_ENABLE_ROP_SIM_EXEC,
        PAYLOAD_RESTRICTION_ENABLE_EXPORT_ADDRESS_FILTER
            | PAYLOAD_RESTRICTION_ENABLE_EXPORT_ADDRESS_FILTER_PLUS
            | PAYLOAD_RESTRICTION_ENABLE_IMPORT_ADDRESS_FILTER
            | PAYLOAD_RESTRICTION_ENABLE_ROP_STACK_PIVOT
            | PAYLOAD_RESTRICTION_ENABLE_ROP_CALLER_CHECK,
        PAYLOAD_RESTRICTION_ENABLE_EXPORT_ADDRESS_FILTER
            | PAYLOAD_RESTRICTION_ENABLE_IMPORT_ADDRESS_FILTER
            | PAYLOAD_RESTRICTION_ENABLE_ROP_STACK_PIVOT,
        PAYLOAD_RESTRICTION_ENABLE_EXPORT_ADDRESS_FILTER,
    ]
}

/// The payload restriction words to try, strongest first.
pub fn payload_candidate_masks() -> (r: Vec<u32>)
    ensures
        r@ == payload_candidates(),
{
    let mut v: Vec<u32> = Vec::new();
    v.push(PAYLOAD_RESTRICTION_MASK);
    v.push(PAYLOAD_RESTRICTION_MASK & !PAYLOAD_RESTRICTION_ENABLE_ROP_SIM_EXEC);
    v.push(
        PAYLOAD_RESTRICTION_ENABLE_EXPORT_ADDRESS_FILTER
            | PAYLOAD_RESTRICTION_ENABLE_EXPORT_ADDRESS_FILTER_PLUS
            | PAYLOAD_RESTRICTION_ENABLE_IMPORT_ADDRESS_FILTER
            | PAYLOAD_RESTRICTION_ENABLE_ROP_STACK_PIVOT
            | PAYLOAD_RESTRICTION_ENABLE_ROP_CALLER_CHECK,
    );
    v.push(
        PAYLOAD_RESTRICTION_ENABLE_EXPORT_ADDRESS_FILTER
            | PAYLOAD_RESTRICTION_ENABLE_IMPORT_ADDRESS_FILTER
            | PAYLOAD_RESTRICTION_ENABLE_ROP_STACK_PIVOT,
    );
    v.push(PAYLOAD_RESTRICTION_ENABLE_EXPORT_ADDRESS_FILTER);
    assert(v@ =~= payload_candidates());
    v
}

/// Whether a failed payload word gives way to the next one: only an
/// invalid-parameter refusal does.
pub fn payload_try_next(error_code: i32) -> (r: bool)
    ensures
        r == (error_code == ERROR_INVALID_PARAMETER_HRESULT),
{
    error_code == ERROR_INVALID_PARAMETER_HRESULT
}

/// The image load word for the chosen image mitigations.
pub open spec fn image_load_word(block_remote: bool, prefer_system32: bool) -> u32 {
    (if block_remote {
        IMAGE_LOAD_NO_REMOTE
    } else {
        0
    }) | (if prefer_system32 {
        IMAGE_LOAD_PREFER_SYSTEM32_IMAGES
    } else {
        0
    })
}

/// The policy calls of a plan holding the given mitigations, in the order
/// they are made: signature, image load (both image mitigations in one word),
/// dynamic code, payload, child process.
pub open spec fn plan_steps(m: Seq<ProcessMitigation>) -> Seq<MitigationStepView> {
    let sig = m.contains(ProcessMitigation::MicrosoftSignedOnly);
    let remote = m.contains(ProcessMitigation::BlockRemoteImages);
    let sys32 = m.contains(ProcessMitigation::PreferSystem32Images);
    let dynamic = m.contains(ProcessMitigation::DisableDynamicCode);
    let payload = m.contains(ProcessMitigation::RestrictPayload);
    let child = m.contains(ProcessMitigation::BlockChildProcessCreation);
    (if sig {
        seq![MitigationStepView::Signature(BINARY_SIGNED_MICROSOFT_SIGNED_ONLY)]
    } else {
        Seq::empty()
    }) + (if remote || sys32 {
        seq![MitigationStepView::ImageLoad(image_load_word(remote, sys32))]
    } else {
        Seq::empty()
    }) + (if dynamic {
        seq![MitigationStepView::DynamicCode(DYNAMIC_CODE_PROHIBIT)]
    } else {
        Seq::empty()
    }) + (if payload {
        seq![MitigationStepView::Payload(payload_candidates())]
    } else {
        Seq::empty()
    }) + (if child {
        seq![MitigationStepView::ChildProcess(CHILD_RESTRICTION_NO_PROCESS_CREATION)]
    } else {
        Seq::empty()
    })
}

/// Whether the policy words of a step, read back the way the status of a
/// process reads them (see [`status_from_policy_flags`]), report the
/// mitigation enabled.
pub open spec fn step_enables(s: MitigationStepView, x: ProcessMitigation) -> bool {
    match (s, x) {
        (MitigationStepView::Signature(w), ProcessMitigation::MicrosoftSignedOnly) => w
            & BINARY_SIGNED_MICROSOFT_SIGNED_ONLY != 0,
        (MitigationStepView::ImageLoad(w), ProcessMitigation::BlockRemoteImages) => w & IMAGE_LOAD_NO_REMOTE != 0,
        (MitigationStepView::ImageLoad(w), ProcessMitigation::PreferSystem32Images) => w
            & IMAGE_LOAD_PREFER_SYSTEM32_IMAGES != 0,
        (MitigationStepView::DynamicCode(w), ProcessMitigation::DisableDynamicCode) => w & DYNAMIC_CODE_PROHIBIT != 0,
        (MitigationStepView::Payload(ws), ProcessMitigation::RestrictPayload) => ws.len() > 0 && forall|i: int|
            0 <= i < ws.len() ==> #[trigger] ws[i] & PAYLOAD_RESTRICTION_MASK != 0,
        (MitigationStepView::ChildProcess(w), ProcessMitigation::BlockChildProcessCreation) => w
            & CHILD_RESTRICTION_NO_PROCESS_CREATION != 0,
        _ => false,
    }
}

/// The words each step sets read back as the mitigations the step is for:
/// the image load word reports exactly the image mitigations it was built
/// from, and every payload word tried reports payload restriction.
pub proof fn lemma_step_words_read_back(remote: bool, sys32: bool)
    ensures
        step_enables(
            MitigationStepView::Signature(BINARY_SIGNED_MICROSOFT_SIGNED_ONLY),
            ProcessMitigation::MicrosoftSignedOnly,
        ),
        step_enables(MitigationStepView::ImageLoad(image_load_word(remote, sys32)), ProcessMitigation::BlockRemoteImages)
            == remote,
        step_enables(
            MitigationStepView::ImageLoad(image_load_word(remote, sys32)),
            ProcessMitigation::PreferSystem32Images,
        ) == sys32,
        step_enables(MitigationStepView::DynamicCode(DYNAMIC_CODE_PROHIBIT), ProcessMitigation::DisableDynamicCode),
        step_enables(MitigationStepView::Payload(payload_candidates()), ProcessMitigation::RestrictPayload),
        step_enables(
            MitigationStepView::ChildProcess(CHILD_RESTRICTION_NO_PROCESS_CREATION),
            ProcessMitigation::BlockChildProcessCreation,
        ),
{
    assert(((if remote { 0b01u32 } else { 0u32 }) | (if sys32 { 0b0100u32 } else { 0u32 })) & 0b01u32 != 0
        <==> remote) by (bit_vector);
    assert(((if remote { 0b01u32 } else { 0u32 }) | (if sys32 { 0b0100u32 } else { 0u32 })) & 0b0100u32 != 0
        <==> sys32) by (bit_vector);
    assert(0x1u32 & 0x1u32 != 0) by (bit_vector);
    let ws = payload_candidates();
    assert(PAYLOAD_RESTRICTION_MASK == 0b010101010101u32) by (bit_vector);
    assert(0b010101010101u32 & 0b010101010101u32 != 0 && (0b010101010101u32 & !0b010000000000u32)
        & 0b010101010101u32 != 0 && (0b0001u32 | 0b000100u32 | 0b00010000u32 | 0b0001000000u32
        | 0b000100000000u32) & 0b010101010101u32 != 0 && (0b0001u32 | 0b00010000u32 | 0b0001000000u32)
        & 0b010101010101u32 != 0 && 0b0001u32 & 0b010101010101u32 != 0) by (bit_vector);
    assert forall|i: int| 0 <= i < ws.len() implies #[trigger] ws[i] & PAYLOAD_RESTRICTION_MASK != 0 by {
        if i == 0 {
        } else if i == 1 {
        } else if i == 2 {
        } else if i == 3 {
        } else {
        }
    }
}

/// Applying a plan turns on what the plan holds and nothing else: the plan
/// holds a mitigation exactly when some step's words, read back as a status
/// query reads them, report it enabled (each payload word tried among them).
#[verifier::rlimit(40)]
pub proof fn lemma_applied_words_enable_plan(m: Seq<ProcessMitigation>, x: ProcessMitigation)
    ensures
        m.contains(x) <==> exists|i: int| 0 <= i < plan_steps(m).len() && #[trigger] step_enables(plan_steps(m)[i], x),
{
    let sig = m.contains(ProcessMitigation::MicrosoftSignedOnly);
    let remote = m.contains(ProcessMitigation::BlockRemoteImages);
    let sys32 = m.contains(ProcessMitigation::PreferSystem32Images);
    let dynamic = m.contains(ProcessMitigation::DisableDynamicCode);
    let payload = m.contains(ProcessMitigation::RestrictPayload);
    let child = m.contains(ProcessMitigation::BlockChildProcessCreation);
    lemma_step_words_read_back(remote, sys32);
    let p1: Seq<MitigationStepView> = if sig {
        seq![MitigationStepView::Signature(BINARY_SIGNED_MICROSOFT_SIGNED_ONLY)]
    } else {
        Seq::empty()
    };
    let p2: Seq<MitigationStepView> = if remote || sys32 {
        seq![MitigationStepView::ImageLoad(image_load_word(remote, sys32))]
    } else {
        Seq::empty()
    };
    let p3: Seq<MitigationStepView> = if dynamic {
        seq![MitigationStepView::DynamicCode(DYNAMIC_CODE_PROHIBIT)]
    } else {
        Seq::empty()
    };
    let p4: Seq<MitigationStepView> = if payload {
        seq![MitigationStepView::Payload(payload_candidates())]
    } else {
        Seq::empty()
    };
    let p5: Seq<MitigationStepView> = if child {
        seq![MitigationStepView::ChildProcess(CHILD_RESTRICTION_NO_PROCESS_CREATION)]
    } else {
        Seq::empty()
    };
    let steps = plan_steps(m);
    assert(steps == p1 + p2 + p3 + p4 + p5);
    let n1 = p1.len() as int;
    let n2 = n1 + p2.len();
    let n3 = n2 + p3.len();
    let n4 = n3 + p4.len();
    if m.contains(x) {
        let k: int = match x {
            ProcessMitigation::MicrosoftSignedOnly => 0,
            ProcessMitigation::BlockRemoteImages => n1,
            ProcessMitigation::PreferSystem32Images => n1,
            ProcessMitigation::DisableDynamicCode => n2,
            ProcessMitigation::RestrictPayload => n3,
            ProcessMitigation::BlockChildProcessCreation => n4,
        };
        assert(0 <= k < steps.len() && step_enables(steps[k], x));
    }
    if exists|i: int| 0 <= i < steps.len() && #[trigger] step_enables(steps[i], x) {
        let i = choose|i: int| 0 <= i < steps.len() && #[trigger] step_enables(steps[i], x);
        if i < n1 {
            assert(steps[i] == p1[i]);
        } else if i < n2 {
            assert(steps[i] == p2[i - n1]);
        } else if i < n3 {
            assert(steps[i] == p3[i - n2]);
        } else if i < n4 {
            assert(steps[i] == p4[i - n3]);
        } else {
            assert(steps[i] == p5[i - n4]);
        }
    }
}

/// The plain contents of a [`MitigationStep`].
pub enum MitigationStepView {
    Signature(u32),
    ImageLoad(u32),
    DynamicCode(u32),
    Payload(Seq<u32>),
    ChildProcess(u32),
}

impl View for MitigationStep {
    type V = MitigationStepView;

    open spec fn view(&self) -> MitigationStepView {
        match self {
            MitigationStep::Signature(w) => MitigationStepView::Signature(*w),
            MitigationStep::ImageLoad(w) => MitigationStepView::ImageLoad(*w),
            MitigationStep::DynamicCode(w) => MitigationStepView::DynamicCode(*w),
            MitigationStep::Payload(ws) => MitigationStepView::Payload(ws@),
            MitigationStep::ChildProcess(w) => MitigationStepView::ChildProcess(*w),
        }
    }
}

/// The mitigations `m` with `x` enabled: `x` is added at the end unless it
/// is already there.
pub open spec fn with_mitigation(m: Seq<ProcessMitigation>, x: ProcessMitigation) -> Seq<ProcessMitigation> {
    if m.contains(x) {
        m
    } else {
        m.push(x)
    }
}

/// Enabling a mitigation that is already enabled changes nothing: enabling
/// twice is enabling once.
pub proof fn lemma_enable_idempotent(m: Seq<ProcessMitigation>, x: ProcessMitigation)
    ensures
        with_mitigation(with_mitigation(m, x), x) == with_mitigation(m, x),
        with_mitigation(m, x).contains(x),
{
    if !m.contains(x) {
        assert(m.push(x)[m.len() as int] == x);
    }
}

/// A plan never holds a mitigation twice: enabling keeps the mitigations
/// distinct, and keeps every one enabled before.
pub proof fn lemma_enable_keeps_distinct(m: Seq<ProcessMitigation>, x: ProcessMitigation, y: ProcessMitigation)
    requires
        m.no_duplicates(),
    ensures
        with_mitigation(m, x).no_duplicates(),
        m.contains(y) ==> with_mitigation(m, x).contains(y),
{
    if !m.contains(x) {
        let n = m.push(x);
        assert forall|i: int, j: int| 0 <= i < n.len() && 0 <= j < n.len() && i != j implies n[i] != n[j] by {
            if i == m.len() {
                assert(m[j] == n[j]);
            } else if j == m.len() {
                assert(m[i] == n[i]);
            }
        }
        if m.contains(y) {
            let k = choose|k: int| 0 <= k < m.len() && m[k] == y;
            assert(n[k] == y);
        }
    }
}

/// Steps as plain values.
pub open spec fn steps_view(v: Seq<MitigationStep>) -> Seq<MitigationStepView> {
    v.map_values(|s: MitigationStep| s@)
}

impl MitigationPlan {
    /// The mitigations of the plan, in the order first enabled.
    pub closed spec fn spec_mitigations(&self) -> Seq<ProcessMitigation> {
        self.mitigations@
    }

    /// A plan holds each mitigation at most once.
    #[verifier::type_invariant]
    spec fn each_once(&self) -> bool {
        self.mitigations@.no_duplicates()
    }

    /// Create an empty mitigation plan.
    pub fn new() -> (r: Self)
        ensures
            r.spec_mitigations() == Seq::<ProcessMitigation>::empty(),
            r.spec_mitigations().no_duplicates(),
    {
        MitigationPlan { mitigations: Vec::new() }
    }

    /// Enable one mitigation in this plan; enabling one twice keeps one.
    pub fn enable(self, mitigation: ProcessMitigation) -> (r: Self)
        ensures
            r.spec_mitigations() == with_mitigation(self.spec_mitigations(), mitigation),
            r.spec_mitigations().no_duplicates(),
            r.spec_mitigations().contains(mitigation),
    {
        proof {
            use_type_invariant(&self);
            lemma_enable_keeps_distinct(self.mitigations@, mitigation, mitigation);
            lemma_enable_idempotent(self.mitigations@, mitigation);
        }
        let mut m = self.mitigations;
        if !contains_mitigation(&m, mitigation) {
            m.push(mitigation);
        }
        MitigationPlan { mitigations: m }
    }

    /// The mitigations of the plan, in the order first enabled; none occurs
    /// twice.
    pub fn mitigations(&self) -> (r: &Vec<ProcessMitigation>)
        ensures
            r@ == self.spec_mitigations(),
            r@.no_duplicates(),
    {
        proof {
            use_type_invariant(self);
        }
        &self.mitigations
    }

    /// The policy calls that apply the plan to the current process, in order;
    /// see [`plan_steps`]. The first call that fails ends the application.
    pub fn apply_steps(&self) -> (r: Vec<MitigationStep>)
        ensures
            steps_view(r@) == plan_steps(self.spec_mitigations()),
    {
        let m = &self.mitigations;
        let sig = contains_mitigation(m, ProcessMitigation::MicrosoftSignedOnly);
        let remote = contains_mitigation(m, ProcessMitigation::BlockRemoteImages);
        let sys32 = contains_mitigation(m, ProcessMitigation::PreferSystem32Images);
        let dynamic = contains_mitigation(m, ProcessMitigation::DisableDynamicCode);
        let payload = contains_mitigation(m, ProcessMitigation::RestrictPayload);
        let child = contains_mitigation(m, ProcessMitigation::BlockChildProcessCreation);
        let mut steps: Vec<MitigationStep> = Vec::new();
        if sig {
            steps.push(MitigationStep::Signature(BINARY_SIGNED_MICROSOFT_SIGNED_ONLY));
        }
        if remote || sys32 {
            let word: u32 = (if remote {
                IMAGE_LOAD_NO_REMOTE
            } else {
                0
            }) | (if sys32 {
                IMAGE_LOAD_PREFER_SYSTEM32_IMAGES
            } else {
                0
            });
            steps.push(MitigationStep::ImageLoad(word));
        }
        if dynamic {
            steps.push(MitigationStep::DynamicCode(DYNAMIC_CODE_PROHIBIT));
        }
        if payload {
            steps.push(MitigationStep::Payload(payload_candidate_masks()));
        }
        if child {
            steps.push(MitigationStep::ChildProcess(CHILD_RESTRICTION_NO_PROCESS_CREATION));
        }
        assert(steps_view(steps@) =~= plan_steps(self.spec_mitigations()));
        steps
    }
}

/// The policy name that errors of a step's call report.
pub open spec fn step_policy_name(s: MitigationStepView) -> Seq<char> {
    match s {
        MitigationStepView::Signature(_) => "signature"@,
        MitigationStepView::ImageLoad(_) => "image_load"@,
        MitigationStepView::DynamicCode(_) => "dynamic_code"@,
        MitigationStepView::Payload(_) => "payload_restriction"@,
        MitigationStepView::ChildProcess(_) => "child_process"@,
    }
}

/// The number of policy words a step tries: its payload words, or one.
pub open spec fn step_word_count(s: MitigationStepView) -> nat {
    match s {
        MitigationStepView::Payload(ws) => ws.len(),
        _ => 1,
    }
}

/// What applying a plan does next.
#[derive(Debug)]
pub enum ApplyProgress {
    /// Make the call of step `step`, with word `word` of a payload step.
    Call { step: usize, word: usize },
    /// Every call succeeded.
    Done,
    /// Applying stops with the error of the failed call.
    Failed(Error),
}

impl MitigationStep {
    /// The policy name that errors of this step's call report.
    pub fn policy_name(&self) -> (r: &'static str)
        ensures
            r@ == step_policy_name(self@),
    {
        match self {
            MitigationStep::Signature(_) => "signature",
            MitigationStep::ImageLoad(_) => "image_load",
            MitigationStep::DynamicCode(_) => "dynamic_code",
            MitigationStep::Payload(_) => "payload_restriction",
            MitigationStep::ChildProcess(_) => "child_process",
        }
    }
}

/// The first call of applying `steps`: step 0, word 0; with no steps,
/// nothing to do.
pub fn apply_start(steps: &Vec<MitigationStep>) -> (r: ApplyProgress)
    ensures
        steps@.len() == 0 ==> r is Done,
        steps@.len() > 0 ==> (r matches ApplyProgress::Call { step, word } && step == 0 && word == 0),
{
    if steps.len() == 0 {
        ApplyProgress::Done
    } else {
        ApplyProgress::Call { step: 0, word: 0 }
    }
}

/// What applying does after the call of step `step` with word `word`
/// succeeded (`failed` is `None`) or failed with an error code and the
/// system's message: success moves to the next step, or ends when it was
/// the last; a payload word refused as an invalid parameter gives way to
/// the next word, and when it was the last word applying fails with that
/// refusal; any other failure stops applying with its error. No step runs
/// after a failed one.
pub fn apply_after_call(steps: &Vec<MitigationStep>, step: usize, word: usize, failed: Option<i32>, message: &str) -> (r:
    ApplyProgress)
    requires
        step < steps@.len(),
        word < step_word_count(steps@[step as int]@),
    ensures
        ({
            let s = steps@[step as int]@;
            match failed {
                None => if step + 1 < steps@.len() {
                    r matches ApplyProgress::Call { step: n, word: w } && n == step + 1 && w == 0
                } else {
                    r is Done
                },
                Some(code) => if s is Payload && code == ERROR_INVALID_PARAMETER_HRESULT && word + 1
                    < step_word_count(s) {
                    r matches ApplyProgress::Call { step: n, word: w } && n == step && w == word + 1
                } else {
                    r matches ApplyProgress::Failed(e) && apply_error_matches(e, code, message@, step_policy_name(s))
                },
            }
        }),
{
    let s = &steps[step];
    match failed {
        None => {
            if step < steps.len() - 1 {
                ApplyProgress::Call { step: step + 1, word: 0 }
            } else {
                ApplyProgress::Done
            }
        },
        Some(code) => {
            if let MitigationStep::Payload(ws) = s {
                if payload_try_next(code) && word < ws.len() - 1 {
                    return ApplyProgress::Call { step, word: word + 1 };
                }
            }
            ApplyProgress::Failed(map_windows_apply_error(code, message, s.policy_name()))
        },
    }
}

/// `e` is the error [`map_windows_apply_error`] gives for `code`, `message`
/// and `policy`.
pub open spec fn apply_error_matches(e: Error, code: i32, message: Seq<char>, policy: Seq<char>) -> bool {
    &&& code == 5 ==> (e matches Error::AccessDenied(a) && a.resource@ == "current process"@ && a.operation@
        == "set mitigation policy"@ && (a.reason matches Some(v) && v@ == policy + ": access denied"@))
    &&& code != 5 ==> (e matches Error::Mitigation(MitigationError::ApplyFailed(m)) && m.operation@ == "apply"@
        && m.policy@ == policy && m.process_id is None && (m.reason matches Some(v) && v@ == message)
        && m.error_code == Some(code))
}

/// Whether the list holds the mitigation.
fn contains_mitigation(m: &Vec<ProcessMitigation>, x: ProcessMitigation) -> (r: bool)
    ensures
        r == m@.contains(x),
{
    let mut i: usize = 0;
    while i < m.len()
        invariant
            i <= m@.len(),
            forall|k: int| 0 <= k < i ==> m@[k] != x,
        decreases m.len() - i,
    {
        if m[i] == x {
            return true;
        }
        i = i + 1;
    }
    false
}

/// The error for a failed `SetProcessMitigationPolicy` call with error code
/// `code` and system message `message`: access denied for code 5, an apply
/// failure otherwise.
pub fn map_windows_apply_error(code: i32, message: &str, policy_name: &str) -> (r: Error)
    ensures
        code == 5 ==> (r matches Error::AccessDenied(e) && e.resource@ == "current process"@
            && e.operation@ == "set mitigation policy"@ && (e.reason matches Some(v) && v@
            == policy_name@ + ": access denied"@)),
        code != 5 ==> (r matches Error::Mitigation(MitigationError::ApplyFailed(e))
            && e.operation@ == "apply"@ && e.policy@ == policy_name@ && e.process_id is None
            && (e.reason matches Some(v) && v@ == message@) && e.error_code == Some(code)),
{
    if code == 5 {
        let mut reason = str_to_string(policy_name);
        reason.append(": access denied");
        return Error::AccessDenied(
            AccessDeniedError::with_reason("current process", "set mitigation policy", reason.as_str()),
        );
    }
    Error::Mitigation(
        MitigationError::ApplyFailed(
            MitigationOperationError::new("apply", policy_name).with_reason(message).with_code(code),
        ),
    )
}

/// The error for a failed `GetProcessMitigationPolicy` (or opening the
/// process) with error code `code` and system message `message`: access
/// denied for code 5, a query failure otherwise.
pub fn map_windows_query_error(code: i32, message: &str, policy_name: &str, process_id: ProcessId) -> (r:
    Error)
    ensures
        code == 5 ==> (r matches Error::AccessDenied(e) && e.resource@ == "process "@ + dec(
            process_id.0 as nat,
        ) && e.operation@ == "query mitigation policy"@ && (e.reason matches Some(v) && v@
            == policy_name@ + ": access denied"@)),
        code != 5 ==> (r matches Error::Mitigation(MitigationError::QueryFailed(e))
            && e.operation@ == "query"@ && e.policy@ == policy_name@ && e.process_id == Some(
            process_id.0,
        ) && (e.reason matches Some(v) && v@ == message@) && e.error_code == Some(code)),
{
    if code == 5 {
        let mut resource = str_to_string("process ");
        push_dec(&mut resource, process_id.as_u32() as u64);
        let mut reason = str_to_string(policy_name);
        reason.append(": access denied");
        return Error::AccessDenied(
            AccessDeniedError::with_reason(
                resource.as_str(),
                "query mitigation policy",
                reason.as_str(),
            ),
        );
    }
    Error::Mitigation(
        MitigationError::QueryFailed(
            MitigationOperationError::new("query", policy_name).with_process_id(
                process_id.as_u32(),
            ).with_reason(message).with_code(code),
        ),
    )
}

} // verus!

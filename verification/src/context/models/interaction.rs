//! Cross-entity interactions: injections, handle duplication, impersonation, tampering.
use vstd::prelude::*;

use crate::context::identity::{EntityId, IdCounter, InteractionId, ProcessKey};

verus! {

/// How code was placed into another process.
#[derive(Debug, Clone, Copy, PartialEq, Eq, Structural, Hash)]
pub enum InjectionTechnique {
    /// `CreateRemoteThread` / `NtCreateThreadEx` into written memory.
    ClassicRemoteThread,
    /// An APC queued to a thread of the target.
    QueueUserApc,
    /// A thread's context redirected to the payload.
    SetThreadContext,
    /// The target image unmapped and replaced.
    ProcessHollowing,
    /// A process created from a deleted or tampered file.
    ProcessGhosting,
    /// A loaded module's code overwritten.
    ModuleStomping,
    /// Execution gained through the early-cascade technique.
    EarlyCascadeInjection,
    /// A cross-process write whose technique could not be told.
    UnknownCrossProcessWrite,
}

/// What started execution of injected code.
#[derive(Debug, Clone, Copy, PartialEq, Eq, Structural, Hash)]
pub enum ExecutionTrigger {
    /// A remote thread.
    NtCreateThreadEx,
    /// A queued APC.
    QueueUserApc,
    /// A window hook.
    SetWindowHook,
    /// A resumed suspended thread.
    ThreadResume,
    /// Direct execution.
    DirectExecution,
}

/// Details of an observed injection.
#[derive(Debug, Clone, PartialEq)]
pub struct InjectionDetails {
    /// The technique.
    pub technique: InjectionTechnique,
    /// Base address of the payload in the target, when known.
    pub target_base_address: Option<u64>,
    /// Size of the allocated payload region, when known.
    pub allocated_size: Option<usize>,
    /// What triggered execution, when known.
    pub execution_trigger: Option<ExecutionTrigger>,
    /// Number of stages of the injection sequence observed.
    pub stages_observed: u8,
}

/// Details of a duplicated handle.
#[derive(Debug, Clone, PartialEq, Eq)]
pub struct HandleDupDetails {
    /// Handle value in the source process.
    pub source_handle: u64,
    /// Handle value in the target process.
    pub target_handle: u64,
    /// Access granted on the duplicate.
    pub granted_access: u32,
}

/// Details of a token impersonation.
#[derive(Debug, Clone, PartialEq, Eq)]
pub struct TokenImpersonationDetails {
    /// SID of the impersonated user.
    pub target_user_sid: String,
    /// Integrity level of the impersonated token.
    pub target_integrity: String,
    /// The token was duplicated rather than referenced.
    pub is_duplicate: bool,
}

/// Details of a protection change on another process's memory.
#[derive(Debug, Clone, PartialEq)]
pub struct MemoryTamperingDetails {
    /// Base address of the region.
    pub target_base_address: u64,
    /// Size of the region.
    pub region_size: usize,
    /// Protection before the change.
    pub old_protection: u32,
    /// Protection after the change.
    pub new_protection: u32,
    /// The region has no backing file.
    pub is_unbacked: bool,
}

/// The kind of an interaction, with its details.
#[derive(Debug, Clone, PartialEq)]
pub enum InteractionKind {
    /// Code injection into another process.
    ProcessInjection(InjectionDetails),
    /// A handle duplicated across processes.
    HandleDuplication(HandleDupDetails),
    /// A token impersonated.
    TokenImpersonation(TokenImpersonationDetails),
    /// Another process's memory protection changed.
    MemoryTampering(MemoryTamperingDetails),
    /// A child process spawned.
    ProcessSpawn,
    /// A thread created in another process.
    RemoteThreadCreation,
    /// A sensitive file accessed; the path.
    SensitiveFileAccess(String),
}

/// How confident the correlation is.
#[derive(Debug, Clone, Copy, PartialEq, Eq, Structural, PartialOrd, Ord, Hash)]
pub enum ConfidenceLevel {
    /// Weak evidence.
    Low,
    /// Moderate evidence.
    Medium,
    /// Strong evidence.
    High,
    /// The full sequence was observed.
    Confirmed,
}

/// One recorded interaction between two entities.
#[derive(Debug, Clone, PartialEq)]
pub struct InteractionRecord {
    /// Identifier of the record.
    pub id: InteractionId,
    /// When the interaction completed.
    pub timestamp: i64,
    /// What happened.
    pub kind: InteractionKind,
    /// The acting entity.
    pub source: EntityId,
    /// The entity acted upon.
    pub target: EntityId,
    /// Confidence of the correlation.
    pub confidence: ConfidenceLevel,
    /// Human-readable summary.
    pub description: String,
}

impl InteractionRecord {
    /// A record with a fresh identifier drawn from `ids`.
    pub fn new(
        ids: &mut IdCounter,
        kind: InteractionKind,
        source: EntityId,
        target: EntityId,
        timestamp: i64,
        confidence: ConfidenceLevel,
        description: String,
    ) -> (r: Self)
        ensures
            r.id.0 == old(ids).peek(),
            final(ids).peek() == vstd::wrapping::u64_specs::wrapping_add(old(ids).peek(), 1),
            r.kind == kind,
            r.source == source,
            r.target == target,
            r.timestamp == timestamp,
            r.confidence == confidence,
            r.description == description,
    {
        InteractionRecord {
            id: InteractionId::new(ids),
            timestamp,
            kind,
            source,
            target,
            confidence,
            description,
        }
    }

    /// The source process, when the source is a process.
    pub fn source_process_key(&self) -> (r: Option<ProcessKey>)
        ensures
            r == (match self.source {
                EntityId::Process(k) => Some(k),
                _ => None,
            }),
    {
        self.source.as_process()
    }

    /// The target process, when the target is a process.
    pub fn target_process_key(&self) -> (r: Option<ProcessKey>)
        ensures
            r == (match self.target {
                EntityId::Process(k) => Some(k),
                _ => None,
            }),
    {
        self.target.as_process()
    }

    /// The interaction is a process injection.
    pub fn is_injection(&self) -> (b: bool)
        ensures
            b == self.kind is ProcessInjection,
    {
        match &self.kind {
            InteractionKind::ProcessInjection(_) => true,
            _ => false,
        }
    }
}

} // verus!

//! The decisions of deleting a tenant, rotating its keys and updating its configuration.
//! Each starts by looking the tenant up; the caller performs the operation each step asks
//! for and reports how it went.

use crate::iam::tenancy::application::command_services::tenancy_command_service_impl::{
    generated_anon_key, generated_secret_key, opt_text, plan_configuration_update,
    plan_key_rotation, require_existing_tenant, secret_key_hash_of, tenant_not_found_text, TenantConfigurationUpdate,
};
use crate::iam::tenancy::domain::{
    error::DomainError,
    model::{
        aggregates::tenant::Tenant,
        commands::{
            delete_tenant_schema_command::DeleteTenantSchemaCommand,
            rotate_tenant_keys_command::RotateTenantKeysCommand,
            update_tenant_schema_configuration_command::UpdateTenantSchemaConfigurationCommand,
        },
        value_objects::{tenant_anon_key::TenantAnonKey, tenant_id::TenantId},
    },
    services::tenancy_command_service::RotatedTenantKeysResult,
};
use crate::shared::uuids::is_random_uuid;
use vstd::prelude::*;
use vstd::string::*;

verus! {

/// What a failed or empty tenant lookup is answered with; none when the tenant was found.
pub open spec fn lookup_failure(found: Result<Option<Tenant>, String>, e: DomainError) -> bool {
    match found {
        Err(m) => e matches DomainError::InternalError(m2) && m2@ == m@,
        Ok(None) => e matches DomainError::InternalError(m2) && m2@ == tenant_not_found_text(),
        Ok(Some(_)) => false,
    }
}

/// The internal error a failed repository call is answered with.
pub open spec fn repository_failure(m: String, e: DomainError) -> bool {
    e matches DomainError::InternalError(m2) && m2@ == m@
}

// ---------------------------------------------------------------------------------------
// Deletion: find the tenant, drop its schema, then delete its row. A failed drop deletes
// nothing.

pub enum DeleteTenantStage {
    FindingTenant { tenant_id: TenantId },
    DroppingSchema { tenant_id: TenantId },
    DeletingTenant,
    Finished,
}

pub enum DeleteTenantEvent {
    TenantFound { found: Result<Option<Tenant>, String> },
    SchemaDropped { dropped: Result<(), DomainError> },
    TenantDeleted { deleted: Result<(), String> },
}

pub enum DeleteTenantAction {
    FindTenant { tenant_id: TenantId },
    DropSchema { schema_name: String },
    DeleteTenant { tenant_id: TenantId },
    Finish { outcome: Result<(), DomainError> },
}

pub struct DeleteTenantWorkflow {
    stage: DeleteTenantStage,
}

/// The event a deletion stage waits for.
pub open spec fn delete_stage_expects(stage: DeleteTenantStage, event: DeleteTenantEvent) -> bool {
    match stage {
        DeleteTenantStage::FindingTenant { .. } => event is TenantFound,
        DeleteTenantStage::DroppingSchema { .. } => event is SchemaDropped,
        DeleteTenantStage::DeletingTenant => event is TenantDeleted,
        DeleteTenantStage::Finished => false,
    }
}

impl DeleteTenantWorkflow {
    pub closed spec fn stage(&self) -> DeleteTenantStage {
        self.stage
    }

    /// Starts a deletion; the first step looks the tenant up.
    pub fn start(command: DeleteTenantSchemaCommand) -> (r: (DeleteTenantWorkflow, DeleteTenantAction))
        ensures
            r.0.stage() == (DeleteTenantStage::FindingTenant { tenant_id: command.tenant_id }),
            r.1 == (DeleteTenantAction::FindTenant { tenant_id: command.tenant_id }),
    {
        (
            DeleteTenantWorkflow {
                stage: DeleteTenantStage::FindingTenant { tenant_id: command.tenant_id },
            },
            DeleteTenantAction::FindTenant { tenant_id: command.tenant_id },
        )
    }

    /// Whether the deletion waits for this kind of event.
    pub fn expects(&self, event: &DeleteTenantEvent) -> (b: bool)
        ensures
            b == delete_stage_expects(self.stage(), *event),
    {
        match (&self.stage, event) {
            (DeleteTenantStage::FindingTenant { .. }, DeleteTenantEvent::TenantFound { .. }) => true,
            (DeleteTenantStage::DroppingSchema { .. }, DeleteTenantEvent::SchemaDropped { .. }) => true,
            (DeleteTenantStage::DeletingTenant, DeleteTenantEvent::TenantDeleted { .. }) => true,
            _ => false,
        }
    }

    /// Advances the deletion by one reported event.
    pub fn step(self, event: DeleteTenantEvent) -> (r: (DeleteTenantWorkflow, DeleteTenantAction))
        requires
            delete_stage_expects(self.stage(), event),
        ensures
            match (self.stage(), event) {
                (
                    DeleteTenantStage::FindingTenant { tenant_id },
                    DeleteTenantEvent::TenantFound { found },
                ) => match found {
                    Ok(Some(t)) => r.0.stage() == (DeleteTenantStage::DroppingSchema { tenant_id })
                        && (r.1 matches DeleteTenantAction::DropSchema { schema_name }
                        && schema_name@ == t@.schema_name),
                    _ => r.0.stage() is Finished && (r.1 matches DeleteTenantAction::Finish {
                        outcome: Err(e),
                    } && lookup_failure(found, e)),
                },
                (
                    DeleteTenantStage::DroppingSchema { tenant_id },
                    DeleteTenantEvent::SchemaDropped { dropped },
                ) => match dropped {
                    Ok(_) => r.0.stage() is DeletingTenant && r.1 == (
                    DeleteTenantAction::DeleteTenant { tenant_id }),
                    Err(e) => r.0.stage() is Finished && r.1 == (DeleteTenantAction::Finish {
                        outcome: Err(e),
                    }),
                },
                (DeleteTenantStage::DeletingTenant, DeleteTenantEvent::TenantDeleted { deleted }) => {
                    r.0.stage() is Finished && match deleted {
                        Ok(_) => r.1 == (DeleteTenantAction::Finish { outcome: Ok(()) }),
                        Err(m) => r.1 matches DeleteTenantAction::Finish { outcome: Err(e) }
                            && repository_failure(m, e),
                    }
                },
                _ => false,
            },
    {
        let finished = DeleteTenantWorkflow { stage: DeleteTenantStage::Finished };
        match (self.stage, event) {
            (DeleteTenantStage::FindingTenant { tenant_id }, DeleteTenantEvent::TenantFound { found }) => {
                match require_existing_tenant(found) {
                    Ok(t) => (
                        DeleteTenantWorkflow { stage: DeleteTenantStage::DroppingSchema { tenant_id } },
                        DeleteTenantAction::DropSchema {
                            schema_name: t.schema_name().value().to_owned(),
                        },
                    ),
                    Err(e) => (finished, DeleteTenantAction::Finish { outcome: Err(e) }),
                }
            },
            (DeleteTenantStage::DroppingSchema { tenant_id }, DeleteTenantEvent::SchemaDropped { dropped }) => {
                match dropped {
                    Ok(_) => (
                        DeleteTenantWorkflow { stage: DeleteTenantStage::DeletingTenant },
                        DeleteTenantAction::DeleteTenant { tenant_id },
                    ),
                    Err(e) => (finished, DeleteTenantAction::Finish { outcome: Err(e) }),
                }
            },
            (DeleteTenantStage::DeletingTenant, DeleteTenantEvent::TenantDeleted { deleted }) => {
                match deleted {
                    Ok(_) => (finished, DeleteTenantAction::Finish { outcome: Ok(()) }),
                    Err(m) => (
                        finished,
                        DeleteTenantAction::Finish { outcome: Err(DomainError::InternalError(m)) },
                    ),
                }
            },
            (_, _) => {
                proof {
                    assert(false);
                }
                (finished, DeleteTenantAction::Finish { outcome: Ok(()) })
            },
        }
    }
}

// ---------------------------------------------------------------------------------------
// Key rotation: find the tenant, draw new keys, store the public key and the secret's hash,
// then hand the keys back.

pub enum RotateTenantKeysStage {
    FindingTenant { tenant_id: TenantId },
    StoringKeys { result: RotatedTenantKeysResult },
    Finished,
}

pub enum RotateTenantKeysEvent {
    TenantFound { found: Result<Option<Tenant>, String> },
    KeysStored { stored: Result<(), String> },
}

pub enum RotateTenantKeysAction {
    FindTenant { tenant_id: TenantId },
    StoreKeys { tenant_id: TenantId, anon_key: TenantAnonKey, secret_key_hash: String },
    Finish { outcome: Result<RotatedTenantKeysResult, DomainError> },
}

pub struct RotateTenantKeysWorkflow {
    stage: RotateTenantKeysStage,
}

/// The event a key-rotation stage waits for.
pub open spec fn rotate_stage_expects(
    stage: RotateTenantKeysStage,
    event: RotateTenantKeysEvent,
) -> bool {
    match stage {
        RotateTenantKeysStage::FindingTenant { .. } => event is TenantFound,
        RotateTenantKeysStage::StoringKeys { .. } => event is KeysStored,
        RotateTenantKeysStage::Finished => false,
    }
}

impl RotateTenantKeysWorkflow {
    pub closed spec fn stage(&self) -> RotateTenantKeysStage {
        self.stage
    }

    /// Starts a key rotation; the first step looks the tenant up.
    pub fn start(command: RotateTenantKeysCommand) -> (r: (
        RotateTenantKeysWorkflow,
        RotateTenantKeysAction,
    ))
        ensures
            r.0.stage() == (RotateTenantKeysStage::FindingTenant { tenant_id: command.tenant_id }),
            r.1 == (RotateTenantKeysAction::FindTenant { tenant_id: command.tenant_id }),
    {
        (
            RotateTenantKeysWorkflow {
                stage: RotateTenantKeysStage::FindingTenant { tenant_id: command.tenant_id },
            },
            RotateTenantKeysAction::FindTenant { tenant_id: command.tenant_id },
        )
    }

    /// Whether the key rotation waits for this kind of event.
    pub fn expects(&self, event: &RotateTenantKeysEvent) -> (b: bool)
        ensures
            b == rotate_stage_expects(self.stage(), *event),
    {
        match (&self.stage, event) {
            (RotateTenantKeysStage::FindingTenant { .. }, RotateTenantKeysEvent::TenantFound { .. }) => true,
            (RotateTenantKeysStage::StoringKeys { .. }, RotateTenantKeysEvent::KeysStored { .. }) => true,
            _ => false,
        }
    }

    /// Advances the key rotation by one reported event.
    pub fn step(self, event: RotateTenantKeysEvent) -> (r: (
        RotateTenantKeysWorkflow,
        RotateTenantKeysAction,
    ))
        requires
            rotate_stage_expects(self.stage(), event),
        ensures
            match (self.stage(), event) {
                (
                    RotateTenantKeysStage::FindingTenant { tenant_id },
                    RotateTenantKeysEvent::TenantFound { found },
                ) => match found {
                    Ok(Some(_)) => r.0.stage() matches RotateTenantKeysStage::StoringKeys { result }
                        && (r.1 matches RotateTenantKeysAction::StoreKeys {
                        tenant_id: id,
                        anon_key,
                        secret_key_hash,
                    } && id == tenant_id && result.tenant_id == tenant_id && anon_key@
                        == result.anon_key@ && anon_key.wf() && secret_key_hash@
                        == secret_key_hash_of(result.secret_key@) && (exists|bits: u128|
                        is_random_uuid(bits) && result.anon_key@ == generated_anon_key(bits))
                        && (exists|bytes: Seq<u8>|
                        bytes.len() == 32 && result.secret_key@ == generated_secret_key(bytes))),
                    _ => r.0.stage() is Finished && (r.1 matches RotateTenantKeysAction::Finish {
                        outcome: Err(e),
                    } && lookup_failure(found, e)),
                },
                (
                    RotateTenantKeysStage::StoringKeys { result },
                    RotateTenantKeysEvent::KeysStored { stored },
                ) => r.0.stage() is Finished && match stored {
                    Ok(_) => r.1 == (RotateTenantKeysAction::Finish { outcome: Ok(result) }),
                    Err(m) => r.1 matches RotateTenantKeysAction::Finish { outcome: Err(e) }
                        && repository_failure(m, e),
                },
                _ => false,
            },
    {
        let finished = RotateTenantKeysWorkflow { stage: RotateTenantKeysStage::Finished };
        match (self.stage, event) {
            (
                RotateTenantKeysStage::FindingTenant { tenant_id },
                RotateTenantKeysEvent::TenantFound { found },
            ) => {
                match require_existing_tenant(found) {
                    Ok(_) => {
                        match plan_key_rotation(RotateTenantKeysCommand { tenant_id }) {
                            Ok(plan) => (
                                RotateTenantKeysWorkflow {
                                    stage: RotateTenantKeysStage::StoringKeys { result: plan.result },
                                },
                                RotateTenantKeysAction::StoreKeys {
                                    tenant_id: plan.tenant_id,
                                    anon_key: plan.anon_key,
                                    secret_key_hash: plan.secret_key_hash,
                                },
                            ),
                            Err(e) => (finished, RotateTenantKeysAction::Finish { outcome: Err(e) }),
                        }
                    },
                    Err(e) => (finished, RotateTenantKeysAction::Finish { outcome: Err(e) }),
                }
            },
            (
                RotateTenantKeysStage::StoringKeys { result },
                RotateTenantKeysEvent::KeysStored { stored },
            ) => {
                match stored {
                    Ok(_) => (finished, RotateTenantKeysAction::Finish { outcome: Ok(result) }),
                    Err(m) => (
                        finished,
                        RotateTenantKeysAction::Finish {
                            outcome: Err(DomainError::InternalError(m)),
                        },
                    ),
                }
            },
            (_, _) => {
                proof {
                    assert(false);
                }
                (finished, RotateTenantKeysAction::Finish { outcome: Err(DomainError::InvalidId) })
            },
        }
    }
}

// ---------------------------------------------------------------------------------------
// Configuration update: find the tenant, then write the columns the command sets.

pub enum UpdateTenantStage {
    FindingTenant { command: UpdateTenantSchemaConfigurationCommand },
    Writing,
    Finished,
}

pub enum UpdateTenantEvent {
    TenantFound { found: Result<Option<Tenant>, String> },
    Written { written: Result<(), String> },
}

pub enum UpdateTenantAction {
    FindTenant { tenant_id: TenantId },
    Write { update: TenantConfigurationUpdate },
    Finish { outcome: Result<(), DomainError> },
}

pub struct UpdateTenantWorkflow {
    stage: UpdateTenantStage,
}

/// The event an update stage waits for.
pub open spec fn update_stage_expects(stage: UpdateTenantStage, event: UpdateTenantEvent) -> bool {
    match stage {
        UpdateTenantStage::FindingTenant { .. } => event is TenantFound,
        UpdateTenantStage::Writing => event is Written,
        UpdateTenantStage::Finished => false,
    }
}

/// The columns an update command writes, as texts.
pub open spec fn update_writes(
    command: UpdateTenantSchemaConfigurationCommand,
    u: TenantConfigurationUpdate,
) -> bool {
    &&& u.tenant_id == command.tenant_id
    &&& opt_text(u.tenant_name) == match command.tenant_name {
        Some(n) => Some(n@),
        None => None::<Seq<char>>,
    }
    &&& opt_text(u.frontend_url) == match command.frontend_url {
        Some(f) => Some(f@),
        None => None::<Seq<char>>,
    }
    &&& opt_text(u.google_client_id) == match command.google_oauth_configuration {
        Some(g) => Some(g@.client_id),
        None => None::<Seq<char>>,
    }
    &&& opt_text(u.google_client_secret) == match command.google_oauth_configuration {
        Some(g) => Some(g@.client_secret),
        None => None::<Seq<char>>,
    }
}

impl UpdateTenantWorkflow {
    pub closed spec fn stage(&self) -> UpdateTenantStage {
        self.stage
    }

    /// Starts an update; the first step looks the tenant up.
    pub fn start(command: UpdateTenantSchemaConfigurationCommand) -> (r: (
        UpdateTenantWorkflow,
        UpdateTenantAction,
    ))
        ensures
            r.0.stage() == (UpdateTenantStage::FindingTenant { command }),
            r.1 == (UpdateTenantAction::FindTenant { tenant_id: command.tenant_id }),
    {
        let tenant_id = command.tenant_id;
        (
            UpdateTenantWorkflow { stage: UpdateTenantStage::FindingTenant { command } },
            UpdateTenantAction::FindTenant { tenant_id },
        )
    }

    /// Whether the update waits for this kind of event.
    pub fn expects(&self, event: &UpdateTenantEvent) -> (b: bool)
        ensures
            b == update_stage_expects(self.stage(), *event),
    {
        match (&self.stage, event) {
            (UpdateTenantStage::FindingTenant { .. }, UpdateTenantEvent::TenantFound { .. }) => true,
            (UpdateTenantStage::Writing, UpdateTenantEvent::Written { .. }) => true,
            _ => false,
        }
    }

    /// Advances the update by one reported event.
    pub fn step(self, event: UpdateTenantEvent) -> (r: (UpdateTenantWorkflow, UpdateTenantAction))
        requires
            update_stage_expects(self.stage(), event),
        ensures
            match (self.stage(), event) {
                (UpdateTenantStage::FindingTenant { command }, UpdateTenantEvent::TenantFound { found }) => {
                    match found {
                        Ok(Some(_)) => r.0.stage() is Writing && (r.1 matches UpdateTenantAction::Write {
                            update,
                        } && update_writes(command, update)),
                        _ => r.0.stage() is Finished && (r.1 matches UpdateTenantAction::Finish {
                            outcome: Err(e),
                        } && lookup_failure(found, e)),
                    }
                },
                (UpdateTenantStage::Writing, UpdateTenantEvent::Written { written }) => {
                    r.0.stage() is Finished && match written {
                        Ok(_) => r.1 == (UpdateTenantAction::Finish { outcome: Ok(()) }),
                        Err(m) => r.1 matches UpdateTenantAction::Finish { outcome: Err(e) }
                            && repository_failure(m, e),
                    }
                },
                _ => false,
            },
    {
        let finished = UpdateTenantWorkflow { stage: UpdateTenantStage::Finished };
        match (self.stage, event) {
            (UpdateTenantStage::FindingTenant { command }, UpdateTenantEvent::TenantFound { found }) => {
                match require_existing_tenant(found) {
                    Ok(_) => (
                        UpdateTenantWorkflow { stage: UpdateTenantStage::Writing },
                        UpdateTenantAction::Write { update: plan_configuration_update(command) },
                    ),
                    Err(e) => (finished, UpdateTenantAction::Finish { outcome: Err(e) }),
                }
            },
            (UpdateTenantStage::Writing, UpdateTenantEvent::Written { written }) => {
                match written {
                    Ok(_) => (finished, UpdateTenantAction::Finish { outcome: Ok(()) }),
                    Err(m) => (
                        finished,
                        UpdateTenantAction::Finish { outcome: Err(DomainError::InternalError(m)) },
                    ),
                }
            },
            (_, _) => {
                proof {
                    assert(false);
                }
                (finished, UpdateTenantAction::Finish { outcome: Ok(()) })
            },
        }
    }
}

} // verus!

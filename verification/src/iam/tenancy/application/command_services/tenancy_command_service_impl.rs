//! The decisions of the tenancy command service. The caller performs the schema and
//! repository operations these functions ask for and hands back what came of them.

use crate::iam::tenancy::domain::{
    error::DomainError,
    model::{
        aggregates::tenant::{valid_tenant, Tenant, TenantConstructionData, TenantView},
        commands::{
            create_tenant_schema_command::CreateTenantSchemaCommand,
            rotate_tenant_keys_command::RotateTenantKeysCommand,
            update_tenant_schema_configuration_command::UpdateTenantSchemaConfigurationCommand,
        },
        value_objects::{
            tenant_anon_key::{valid_tenant_anon_key, TenantAnonKey},
            tenant_frontend_url::TenantFrontendUrl,
            tenant_id::TenantId,
            tenant_status::TenantStatus,
        },
    },
    services::tenancy_command_service::{CreatedTenantSchemaResult, RotatedTenantKeysResult},
};
use crate::shared::crypto::{hex_encode, lower_hex, random_bytes_32, sha256, sha256_of};
use crate::shared::domain::model::entities::auditable_model::AuditableModel;
use crate::shared::uuids::{
    hex_digit, is_random_uuid, random_uuid_v4, uuid_nibble, uuid_simple, uuid_simple_text,
};
use crate::text::{
    all_ascii, is_trimmed, is_white_space, lemma_ascii_utf8_len, trimmed, utf8_len,
};
use vstd::prelude::*;
use vstd::string::*;
use vstd::utf8::encode_utf8;

verus! {

/// The public key drawn from a random UUID: `pk_tenant_` and its first twenty hex digits.
pub open spec fn generated_anon_key(bits: u128) -> Seq<char> {
    "pk_tenant_"@ + uuid_simple_text(bits).subrange(0, 20)
}

/// The secret key made of 32 random bytes: `sk_tenant_` and their lowercase hex text.
pub open spec fn generated_secret_key(bytes: Seq<u8>) -> Seq<char> {
    "sk_tenant_"@ + lower_hex(bytes)
}

/// What is stored instead of a secret key: the hex text of the SHA-256 of its UTF-8 bytes.
pub open spec fn secret_key_hash_of(secret: Seq<char>) -> Seq<char> {
    lower_hex(sha256_of(encode_utf8(secret)))
}

/// A generated public key is a valid anon key.
pub proof fn lemma_generated_anon_key_valid(bits: u128)
    ensures
        valid_tenant_anon_key(generated_anon_key(bits)),
        trimmed(generated_anon_key(bits)) == generated_anon_key(bits),
        utf8_len(generated_anon_key(bits)) == 30,
{
    reveal_strlit("pk_tenant_");
    let k = generated_anon_key(bits);
    assert(k.len() == 30);
    assert forall|i: int| 0 <= i < k.len() implies '\0' <= #[trigger] k[i] <= '\u{7f}' by {
        if i >= 10 {
            let n = uuid_nibble(bits, i - 10);
            assert(0 <= n < 16);
            assert(k[i] == hex_digit(n));
        }
    }
    lemma_ascii_utf8_len(k);
    assert(!is_white_space(k[0]));
    assert(!is_white_space(k.last())) by {
        let n = uuid_nibble(bits, 19);
        assert(0 <= n < 16);
    }
    assert(is_trimmed(k));
    crate::text::lemma_trimmed_fixed(k);
}

/// A fresh public key for a tenant.
pub fn generate_anon_key() -> (k: String)
    ensures
        exists|bits: u128| is_random_uuid(bits) && k@ == generated_anon_key(bits),
        valid_tenant_anon_key(k@),
{
    let bits = random_uuid_v4();
    let suffix = uuid_simple(bits);
    let k = String::from_str("pk_tenant_").concat(suffix.as_str().substring_char(0, 20));
    proof {
        assert(k@ =~= generated_anon_key(bits));
        lemma_generated_anon_key_valid(bits);
    }
    k
}

/// A fresh secret key for a tenant.
pub fn generate_secret_key() -> (k: String)
    ensures
        exists|bytes: Seq<u8>| bytes.len() == 32 && k@ == generated_secret_key(bytes),
{
    let bytes = random_bytes_32();
    let hex = hex_encode(bytes.as_slice());
    let k = String::from_str("sk_tenant_").concat(hex.as_str());
    assert(k@ =~= generated_secret_key(bytes@));
    k
}

/// The digest kept in place of a secret key.
pub fn hash_secret_key(secret: &str) -> (h: String)
    ensures
        h@ == secret_key_hash_of(secret@),
{
    let digest = sha256(secret.as_bytes());
    hex_encode(digest.as_slice())
}


/// The tenant a creation writes, and what its caller is told on success.
pub struct TenantCreationPlan {
    pub tenant: Tenant,
    pub result: CreatedTenantSchemaResult,
}

/// Draws the identifier and keys of a new tenant and assembles it, active, with a fresh audit
/// record. The stored hash is that of the secret key handed back.
pub fn plan_tenant_creation(
    command: CreateTenantSchemaCommand,
    frontend_url: TenantFrontendUrl,
) -> (r: Result<TenantCreationPlan, DomainError>)
    ensures
        r is Ok,
        r matches Ok(p) ==> {
            let t = p.tenant@;
            &&& t.id != 0
            &&& is_random_uuid(t.id)
            &&& t.id == p.result.tenant_id@
            &&& t.name == command.tenant_name@
            &&& t.schema_name == command.schema_name@
            &&& t.admin_user_id == command.admin_user_id
            &&& t.anon_key == p.result.anon_key@
            &&& t.frontend_url == frontend_url@
            &&& t.secret_key_hash == secret_key_hash_of(p.result.secret_key@)
            &&& t.google_oauth_configuration == Some(command.google_oauth_configuration@)
            &&& t.status == TenantStatus::Active
            &&& t.audit.created_at == t.audit.updated_at
            &&& p.result.schema_name@ == command.schema_name@
            &&& exists|bits: u128|
                is_random_uuid(bits) && p.result.anon_key@ == generated_anon_key(bits)
            &&& exists|bytes: Seq<u8>|
                bytes.len() == 32 && p.result.secret_key@ == generated_secret_key(bytes)
            &&& (command.tenant_name.wf() && command.schema_name.wf() && frontend_url.wf()
                && command.google_oauth_configuration.wf()) ==> valid_tenant(t)
        },
{
    let tenant_id = TenantId::new();
    let anon_key = generate_anon_key();
    let secret_key = generate_secret_key();
    let secret_key_hash = hash_secret_key(secret_key.as_str());
    proof {
        crate::text::lemma_trimmed_fixed(anon_key@);
    }
    let anon_key_vo = match TenantAnonKey::new(anon_key.clone()) {
        Ok(k) => k,
        Err(e) => return Err(e),
    };
    let schema_name = command.schema_name.value().to_owned();
    let tenant = Tenant::new(
        TenantConstructionData {
            id: tenant_id,
            name: command.tenant_name,
            schema_name: command.schema_name,
            admin_user_id: command.admin_user_id,
            anon_key: anon_key_vo,
            frontend_url,
            secret_key_hash,
            google_oauth_configuration: Some(command.google_oauth_configuration),
            status: TenantStatus::Active,
            audit: AuditableModel::new(),
        },
    );
    Ok(
        TenantCreationPlan {
            tenant,
            result: CreatedTenantSchemaResult { tenant_id, schema_name, anon_key, secret_key },
        },
    )
}

/// Where a tenant creation stands.
pub enum CreateTenantStage {
    CreatingSchema,
    SavingTenant,
    DroppingSchema { error: DomainError },
    Finished,
}

/// What the caller reports back to a tenant creation.
pub enum CreateTenantEvent {
    SchemaCreated { created: Result<(), DomainError> },
    TenantSaved { saved: Result<(), String> },
    SchemaDropped,
}

/// What a tenant creation asks its caller to do next.
pub enum CreateTenantAction {
    CreateSchema { schema_name: String },
    SaveTenant,
    DropSchema { schema_name: String },
    Finish { outcome: Result<CreatedTenantSchemaResult, DomainError> },
}

/// A tenant creation: create the schema, save the tenant, and drop the schema again when the
/// save fails.
pub struct CreateTenantWorkflow {
    stage: CreateTenantStage,
    schema_name: String,
    result: CreatedTenantSchemaResult,
}

/// The event a stage waits for.
pub open spec fn create_stage_expects(stage: CreateTenantStage, event: CreateTenantEvent) -> bool {
    match stage {
        CreateTenantStage::CreatingSchema => event is SchemaCreated,
        CreateTenantStage::SavingTenant => event is TenantSaved,
        CreateTenantStage::DroppingSchema { .. } => event is SchemaDropped,
        CreateTenantStage::Finished => false,
    }
}

impl CreateTenantWorkflow {
    pub closed spec fn stage(&self) -> CreateTenantStage {
        self.stage
    }

    pub closed spec fn schema_name_view(&self) -> Seq<char> {
        self.schema_name@
    }

    pub closed spec fn result_of(&self) -> CreatedTenantSchemaResult {
        self.result
    }

    /// Starts a creation from its plan; the first step creates the tenant's schema.
    pub fn start(plan_result: CreatedTenantSchemaResult) -> (r: (
        CreateTenantWorkflow,
        CreateTenantAction,
    ))
        ensures
            r.0.stage() is CreatingSchema,
            r.0.schema_name_view() == plan_result.schema_name@,
            r.0.result_of() == plan_result,
            r.1 matches CreateTenantAction::CreateSchema { schema_name } && schema_name@
                == plan_result.schema_name@,
    {
        let schema_name = plan_result.schema_name.clone();
        let action = CreateTenantAction::CreateSchema { schema_name: schema_name.clone() };
        (
            CreateTenantWorkflow {
                stage: CreateTenantStage::CreatingSchema,
                schema_name,
                result: plan_result,
            },
            action,
        )
    }

    /// Whether the creation waits for this kind of event.
    pub fn expects(&self, event: &CreateTenantEvent) -> (b: bool)
        ensures
            b == create_stage_expects(self.stage(), *event),
    {
        match (&self.stage, event) {
            (CreateTenantStage::CreatingSchema, CreateTenantEvent::SchemaCreated { .. }) => true,
            (CreateTenantStage::SavingTenant, CreateTenantEvent::TenantSaved { .. }) => true,
            (CreateTenantStage::DroppingSchema { .. }, CreateTenantEvent::SchemaDropped) => true,
            _ => false,
        }
    }

    /// Advances the creation by one reported event.
    pub fn step(self, event: CreateTenantEvent) -> (r: (CreateTenantWorkflow, CreateTenantAction))
        requires
            create_stage_expects(self.stage(), event),
        ensures
            r.0.schema_name_view() == self.schema_name_view(),
            r.0.result_of() == self.result_of(),
            match (self.stage(), event) {
                (CreateTenantStage::CreatingSchema, CreateTenantEvent::SchemaCreated { created: outcome }) => {
                    match outcome {
                        Ok(_) => r.0.stage() is SavingTenant && r.1 is SaveTenant,
                        Err(e) => r.0.stage() is Finished && r.1 == (CreateTenantAction::Finish {
                            outcome: Err(e),
                        }),
                    }
                },
                (CreateTenantStage::SavingTenant, CreateTenantEvent::TenantSaved { saved: outcome }) => {
                    match outcome {
                        Ok(_) => r.0.stage() is Finished && (r.1 matches CreateTenantAction::Finish {
                            outcome: Ok(res),
                        } && res.tenant_id == self.result_of().tenant_id && res.schema_name@
                            == self.result_of().schema_name@ && res.anon_key@
                            == self.result_of().anon_key@ && res.secret_key@
                            == self.result_of().secret_key@),
                        Err(m) => (r.0.stage() matches CreateTenantStage::DroppingSchema {
                            error: DomainError::InternalError(m2),
                        } && m2@ == m@) && (r.1 matches CreateTenantAction::DropSchema {
                            schema_name,
                        } && schema_name@ == self.schema_name_view()),
                    }
                },
                (CreateTenantStage::DroppingSchema { error }, CreateTenantEvent::SchemaDropped) => {
                    r.0.stage() is Finished && r.1 == (CreateTenantAction::Finish {
                        outcome: Err(error),
                    })
                },
                _ => false,
            },
    {
        let CreateTenantWorkflow { stage, schema_name, result } = self;
        match (stage, event) {
            (CreateTenantStage::CreatingSchema, CreateTenantEvent::SchemaCreated { created: outcome }) => {
                match outcome {
                    Ok(_) => (
                        CreateTenantWorkflow {
                            stage: CreateTenantStage::SavingTenant,
                            schema_name,
                            result,
                        },
                        CreateTenantAction::SaveTenant,
                    ),
                    Err(e) => (
                        CreateTenantWorkflow { stage: CreateTenantStage::Finished, schema_name, result },
                        CreateTenantAction::Finish { outcome: Err(e) },
                    ),
                }
            },
            (CreateTenantStage::SavingTenant, CreateTenantEvent::TenantSaved { saved: outcome }) => {
                match outcome {
                    Ok(_) => {
                        let handed = result.clone();
                        (
                            CreateTenantWorkflow {
                                stage: CreateTenantStage::Finished,
                                schema_name,
                                result,
                            },
                            CreateTenantAction::Finish { outcome: Ok(handed) },
                        )
                    },
                    Err(m) => {
                        let drop_name = schema_name.clone();
                        (
                            CreateTenantWorkflow {
                                stage: CreateTenantStage::DroppingSchema {
                                    error: DomainError::InternalError(m),
                                },
                                schema_name,
                                result,
                            },
                            CreateTenantAction::DropSchema { schema_name: drop_name },
                        )
                    },
                }
            },
            (CreateTenantStage::DroppingSchema { error }, CreateTenantEvent::SchemaDropped) => {
                (
                    CreateTenantWorkflow { stage: CreateTenantStage::Finished, schema_name, result },
                    CreateTenantAction::Finish { outcome: Err(error) },
                )
            },
            (_, _) => {
                proof {
                    assert(false);
                }
                (
                    CreateTenantWorkflow { stage: CreateTenantStage::Finished, schema_name, result },
                    CreateTenantAction::SaveTenant,
                )
            },
        }
    }
}

/// The text of the error for a tenant that does not exist.
pub open spec fn tenant_not_found_text() -> Seq<char> {
    "Tenant not found"@
}

/// Turns a repository lookup into the tenant to work on: a failed lookup and a missing tenant
/// are internal errors.
pub fn require_existing_tenant(found: Result<Option<Tenant>, String>) -> (r: Result<
    Tenant,
    DomainError,
>)
    ensures
        match found {
            Err(m) => r matches Err(DomainError::InternalError(m2)) && m2@ == m@,
            Ok(None) => r matches Err(DomainError::InternalError(m2)) && m2@
                == tenant_not_found_text(),
            Ok(Some(t)) => r == Ok::<Tenant, DomainError>(t),
        },
{
    match found {
        Err(m) => Err(DomainError::InternalError(m)),
        Ok(None) => Err(DomainError::internal("Tenant not found")),
        Ok(Some(t)) => Ok(t),
    }
}

/// Turns the outcome of a repository write into the service's outcome.
pub fn repository_outcome(outcome: Result<(), String>) -> (r: Result<(), DomainError>)
    ensures
        match outcome {
            Err(m) => r matches Err(DomainError::InternalError(m2)) && m2@ == m@,
            Ok(_) => r is Ok,
        },
{
    match outcome {
        Err(m) => Err(DomainError::InternalError(m)),
        Ok(_) => Ok(()),
    }
}

/// The new keys of a tenant: the public key to store, the hash of the secret to store, and
/// what the caller is told.
pub struct KeyRotationPlan {
    pub tenant_id: TenantId,
    pub anon_key: TenantAnonKey,
    pub secret_key_hash: String,
    pub result: RotatedTenantKeysResult,
}

/// Draws new keys for the tenant named in the command.
pub fn plan_key_rotation(command: RotateTenantKeysCommand) -> (r: Result<
    KeyRotationPlan,
    DomainError,
>)
    ensures
        r is Ok,
        r matches Ok(p) ==> {
            &&& p.tenant_id == command.tenant_id
            &&& p.result.tenant_id == command.tenant_id
            &&& p.anon_key@ == p.result.anon_key@
            &&& p.anon_key.wf()
            &&& p.secret_key_hash@ == secret_key_hash_of(p.result.secret_key@)
            &&& exists|bits: u128|
                is_random_uuid(bits) && p.result.anon_key@ == generated_anon_key(bits)
            &&& exists|bytes: Seq<u8>|
                bytes.len() == 32 && p.result.secret_key@ == generated_secret_key(bytes)
        },
{
    let anon_key = generate_anon_key();
    let secret_key = generate_secret_key();
    let secret_key_hash = hash_secret_key(secret_key.as_str());
    proof {
        crate::text::lemma_trimmed_fixed(anon_key@);
    }
    let anon_key_vo = match TenantAnonKey::new(anon_key.clone()) {
        Ok(k) => k,
        Err(e) => return Err(e),
    };
    Ok(
        KeyRotationPlan {
            tenant_id: command.tenant_id,
            anon_key: anon_key_vo,
            secret_key_hash,
            result: RotatedTenantKeysResult { tenant_id: command.tenant_id, anon_key, secret_key },
        },
    )
}

/// The columns an update writes; an absent value leaves its column as it is.
pub struct TenantConfigurationUpdate {
    pub tenant_id: TenantId,
    pub tenant_name: Option<String>,
    pub frontend_url: Option<String>,
    pub google_client_id: Option<String>,
    pub google_client_secret: Option<String>,
}

/// The text of an optional string.
pub open spec fn opt_text(s: Option<String>) -> Option<Seq<char>> {
    match s {
        Some(v) => Some(v@),
        None => None,
    }
}

/// The values an update command writes.
pub fn plan_configuration_update(command: UpdateTenantSchemaConfigurationCommand) -> (u:
    TenantConfigurationUpdate)
    ensures
        u.tenant_id == command.tenant_id,
        opt_text(u.tenant_name) == match command.tenant_name {
            Some(n) => Some(n@),
            None => None::<Seq<char>>,
        },
        opt_text(u.frontend_url) == match command.frontend_url {
            Some(f) => Some(f@),
            None => None::<Seq<char>>,
        },
        opt_text(u.google_client_id) == match command.google_oauth_configuration {
            Some(g) => Some(g@.client_id),
            None => None::<Seq<char>>,
        },
        opt_text(u.google_client_secret) == match command.google_oauth_configuration {
            Some(g) => Some(g@.client_secret),
            None => None::<Seq<char>>,
        },
{
    let tenant_name = match &command.tenant_name {
        Some(n) => Some(n.value().to_owned()),
        None => None,
    };
    let frontend_url = match &command.frontend_url {
        Some(f) => Some(f.value().to_owned()),
        None => None,
    };
    let (google_client_id, google_client_secret) = match &command.google_oauth_configuration {
        Some(g) => (Some(g.client_id().to_owned()), Some(g.client_secret().to_owned())),
        None => (None, None),
    };
    TenantConfigurationUpdate {
        tenant_id: command.tenant_id,
        tenant_name,
        frontend_url,
        google_client_id,
        google_client_secret,
    }
}

} // verus!

//! The stored form of a tenant (one row of the `tenants` table) and the conversions between
//! it and the domain aggregate.

use crate::iam::tenancy::domain::{
    error::DomainError,
    model::{
        aggregates::tenant::{valid_tenant, Tenant, TenantConstructionData, TenantView},
        value_objects::{
            google_oauth_tenant_configuration::{
                google_oauth_required_text, lemma_google_oauth_round_trip,
                GoogleOAuthTenantConfiguration, GoogleOAuthView,
            },
            tenant_anon_key::{lemma_tenant_anon_key_round_trip, TenantAnonKey},
            tenant_frontend_url::{lemma_frontend_url_round_trip, TenantFrontendUrl},
            tenant_id::TenantId,
            tenant_name::{lemma_tenant_name_round_trip, TenantName},
            tenant_schema_name::{lemma_schema_name_round_trip, valid_schema_name, TenantSchemaName},
            tenant_status::{
                lemma_tenant_status_round_trip, tenant_status_from_text, tenant_status_text,
                TenantStatus,
            },
        },
    },
};
use crate::shared::domain::model::entities::auditable_model::AuditableModel;
use crate::text::{
    all_ascii, ascii_lowercase, seq_starts_with, trimmed, unicode_lowercase, utf8_len,
};
use vstd::prelude::*;

verus! {

/// One stored tenant, column by column; instants are microseconds since the Unix epoch.
#[derive(Debug, Clone)]
pub struct TenantRecord {
    pub id: u128,
    pub name: String,
    pub schema_name: String,
    pub admin_user_id: u128,
    pub anon_key: String,
    pub frontend_url: String,
    pub secret_key_hash: String,
    pub google_client_id: Option<String>,
    pub google_client_secret: Option<String>,
    pub status: String,
    pub created_at: i64,
    pub updated_at: i64,
}

/// Abstract contents of a stored tenant.
pub struct TenantRecordView {
    pub id: u128,
    pub name: Seq<char>,
    pub schema_name: Seq<char>,
    pub admin_user_id: u128,
    pub anon_key: Seq<char>,
    pub frontend_url: Seq<char>,
    pub secret_key_hash: Seq<char>,
    pub google_client_id: Option<Seq<char>>,
    pub google_client_secret: Option<Seq<char>>,
    pub status: Seq<char>,
    pub created_at: i64,
    pub updated_at: i64,
}

/// The text of an optional string.
pub open spec fn opt_view(s: Option<String>) -> Option<Seq<char>> {
    match s {
        Some(v) => Some(v@),
        None => None,
    }
}

impl View for TenantRecord {
    type V = TenantRecordView;

    open spec fn view(&self) -> TenantRecordView {
        TenantRecordView {
            id: self.id,
            name: self.name@,
            schema_name: self.schema_name@,
            admin_user_id: self.admin_user_id,
            anon_key: self.anon_key@,
            frontend_url: self.frontend_url@,
            secret_key_hash: self.secret_key_hash@,
            google_client_id: opt_view(self.google_client_id),
            google_client_secret: opt_view(self.google_client_secret),
            status: self.status@,
            created_at: self.created_at,
            updated_at: self.updated_at,
        }
    }
}

/// The row a tenant is stored as.
pub open spec fn record_of(t: TenantView) -> TenantRecordView {
    TenantRecordView {
        id: t.id,
        name: t.name,
        schema_name: t.schema_name,
        admin_user_id: t.admin_user_id,
        anon_key: t.anon_key,
        frontend_url: t.frontend_url,
        secret_key_hash: t.secret_key_hash,
        google_client_id: match t.google_oauth_configuration {
            Some(g) => Some(g.client_id),
            None => None,
        },
        google_client_secret: match t.google_oauth_configuration {
            Some(g) => Some(g.client_secret),
            None => None,
        },
        status: tenant_status_text(t.status),
        created_at: t.created_at_of(),
        updated_at: t.updated_at_of(),
    }
}

impl TenantView {
    pub open spec fn created_at_of(self) -> i64 {
        self.audit.created_at
    }

    pub open spec fn updated_at_of(self) -> i64 {
        self.audit.updated_at
    }
}

/// The OAuth client a row holds: both columns set, each non-empty once trimmed.
pub open spec fn record_google(r: TenantRecordView) -> Option<GoogleOAuthView> {
    match (r.google_client_id, r.google_client_secret) {
        (Some(i), Some(s)) => Some(GoogleOAuthView { client_id: trimmed(i), client_secret: trimmed(s) }),
        _ => None,
    }
}

/// The text of the first check a row fails, given its schema name and status after trimming
/// and lowercasing; none when the row makes a tenant.
pub open spec fn record_error(
    r: TenantRecordView,
    lowered_schema_name: Seq<char>,
    lowered_status: Seq<char>,
) -> Option<Seq<char>> {
    if r.google_client_id is Some && r.google_client_secret is Some && !(trimmed(
        r.google_client_id->0,
    ).len() > 0 && trimmed(r.google_client_secret->0).len() > 0) {
        Some("Internal error: "@ + google_oauth_required_text())
    } else if r.id == 0 {
        Some("Invalid id"@)
    } else if utf8_len(trimmed(r.name)) < 2 {
        Some("Invalid tenant name"@)
    } else if !valid_schema_name(lowered_schema_name) {
        Some("Invalid tenant name"@)
    } else if utf8_len(trimmed(r.anon_key)) < 10 {
        Some("Invalid tenant anon key"@)
    } else if !(seq_starts_with(trimmed(r.frontend_url), "http://"@) || seq_starts_with(
        trimmed(r.frontend_url),
        "https://"@,
    )) {
        Some("Invalid frontend url"@)
    } else if tenant_status_from_text(lowered_status) is Err {
        Some("Invalid status"@)
    } else {
        None
    }
}

/// The tenant a row makes when it passes every check.
pub open spec fn record_tenant(
    r: TenantRecordView,
    lowered_schema_name: Seq<char>,
    lowered_status: Seq<char>,
) -> TenantView {
    TenantView {
        id: r.id,
        name: trimmed(r.name),
        schema_name: lowered_schema_name,
        admin_user_id: r.admin_user_id,
        anon_key: trimmed(r.anon_key),
        frontend_url: trimmed(r.frontend_url),
        secret_key_hash: r.secret_key_hash,
        google_oauth_configuration: record_google(r),
        status: tenant_status_from_text(lowered_status)->Ok_0,
        audit: AuditableModel { created_at: r.created_at, updated_at: r.updated_at },
    }
}

/// The row a tenant is written as.
pub fn to_active_model(tenant: &Tenant) -> (r: TenantRecord)
    ensures
        r@ == record_of(tenant@),
{
    let (google_client_id, google_client_secret) = match tenant.google_oauth_configuration() {
        Some(g) => (Some(g.client_id().to_owned()), Some(g.client_secret().to_owned())),
        None => (None, None),
    };
    TenantRecord {
        id: tenant.id().value(),
        name: tenant.name().value().to_owned(),
        schema_name: tenant.schema_name().value().to_owned(),
        admin_user_id: tenant.admin_user_id(),
        anon_key: tenant.anon_key().value().to_owned(),
        frontend_url: tenant.frontend_url().value().to_owned(),
        secret_key_hash: tenant.secret_key_hash().to_owned(),
        google_client_id,
        google_client_secret,
        status: tenant.status().as_str().to_owned(),
        created_at: tenant.audit().created_at,
        updated_at: tenant.audit().updated_at,
    }
}

/// Rebuilds a tenant from its row, validating every column as the value objects do.
pub fn to_domain(record: TenantRecord) -> (r: Result<Tenant, DomainError>)
    ensures
        ({
            let lowered_schema = unicode_lowercase(trimmed(record@.schema_name));
            let lowered_status = unicode_lowercase(trimmed(record@.status));
            match r {
                Ok(t) => record_error(record@, lowered_schema, lowered_status) is None && t@
                    == record_tenant(record@, lowered_schema, lowered_status) && valid_tenant(t@),
                Err(e) => record_error(record@, lowered_schema, lowered_status) == Some(e.text()),
            }
        }),
        all_ascii(trimmed(record@.schema_name)) ==> unicode_lowercase(trimmed(record@.schema_name))
            == ascii_lowercase(trimmed(record@.schema_name)),
        all_ascii(trimmed(record@.status)) ==> unicode_lowercase(trimmed(record@.status))
            == ascii_lowercase(trimmed(record@.status)),
{
    let ghost rv = record@;
    let TenantRecord {
        id,
        name,
        schema_name,
        admin_user_id,
        anon_key,
        frontend_url,
        secret_key_hash,
        google_client_id,
        google_client_secret,
        status,
        created_at,
        updated_at,
    } = record;
    let status_lowered = crate::text::to_lowercase(crate::text::trim(status.as_str()).as_str());
    let schema_lowered = crate::text::to_lowercase(
        crate::text::trim(schema_name.as_str()).as_str(),
    );
    assert(schema_lowered@ == unicode_lowercase(trimmed(rv.schema_name)));
    let google_oauth_configuration = match (google_client_id, google_client_secret) {
        (Some(client_id), Some(client_secret)) => match GoogleOAuthTenantConfiguration::new(
            client_id,
            client_secret,
        ) {
            Ok(g) => Some(g),
            Err(e) => return Err(e),
        },
        _ => None,
    };
    let id = match TenantId::from_uuid(id) {
        Ok(v) => v,
        Err(e) => return Err(e),
    };
    let name = match TenantName::new(name) {
        Ok(v) => v,
        Err(e) => return Err(e),
    };
    let schema_name = match TenantSchemaName::from_normalized(schema_lowered) {
        Ok(v) => v,
        Err(e) => return Err(e),
    };
    let anon_key = match TenantAnonKey::new(anon_key) {
        Ok(v) => v,
        Err(e) => return Err(e),
    };
    let frontend_url = match TenantFrontendUrl::new(frontend_url) {
        Ok(v) => v,
        Err(e) => return Err(e),
    };
    let status = match TenantStatus::from_normalized(status_lowered.as_str()) {
        Ok(v) => v,
        Err(e) => return Err(e),
    };
    Ok(
        Tenant::new(
            TenantConstructionData {
                id,
                name,
                schema_name,
                admin_user_id,
                anon_key,
                frontend_url,
                secret_key_hash,
                google_oauth_configuration,
                status,
                audit: AuditableModel { created_at, updated_at },
            },
        ),
    )
}

/// Writing a valid tenant and reading the row back gives the same tenant: every stored column
/// passes its check again and normalizes to itself.
pub proof fn lemma_tenant_record_round_trip(t: TenantView)
    requires
        valid_tenant(t),
    ensures
        ({
            let r = record_of(t);
            &&& all_ascii(trimmed(r.schema_name))
            &&& all_ascii(trimmed(r.status))
            &&& record_error(
                r,
                ascii_lowercase(trimmed(r.schema_name)),
                ascii_lowercase(trimmed(r.status)),
            ) is None
            &&& record_tenant(
                r,
                ascii_lowercase(trimmed(r.schema_name)),
                ascii_lowercase(trimmed(r.status)),
            ) == t
        }),
{
    let r = record_of(t);
    lemma_tenant_name_round_trip(t.name);
    lemma_schema_name_round_trip(t.schema_name);
    lemma_tenant_anon_key_round_trip(t.anon_key);
    lemma_frontend_url_round_trip(t.frontend_url);
    lemma_tenant_status_round_trip(t.status);
    if let Some(g) = t.google_oauth_configuration {
        lemma_google_oauth_round_trip(g);
    }
    assert(record_google(r) == t.google_oauth_configuration);
}

} // verus!

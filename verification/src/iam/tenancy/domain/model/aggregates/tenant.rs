use crate::iam::tenancy::domain::model::value_objects::{
    google_oauth_tenant_configuration::{
        valid_google_oauth, GoogleOAuthTenantConfiguration, GoogleOAuthView,
    },
    tenant_anon_key::{valid_tenant_anon_key, TenantAnonKey},
    tenant_frontend_url::{valid_frontend_url, TenantFrontendUrl},
    tenant_id::TenantId,
    tenant_name::{valid_tenant_name, TenantName},
    tenant_schema_name::{valid_schema_name, TenantSchemaName},
    tenant_status::TenantStatus,
};
use crate::shared::domain::model::entities::auditable_model::AuditableModel;
use vstd::prelude::*;

verus! {

/// A tenant of the platform.
#[derive(Debug)]
pub struct Tenant {
    id: TenantId,
    name: TenantName,
    schema_name: TenantSchemaName,
    admin_user_id: u128,
    anon_key: TenantAnonKey,
    frontend_url: TenantFrontendUrl,
    secret_key_hash: String,
    google_oauth_configuration: Option<GoogleOAuthTenantConfiguration>,
    status: TenantStatus,
    audit: AuditableModel,
}

/// Everything a tenant is made of.
#[derive(Debug)]
pub struct TenantConstructionData {
    pub id: TenantId,
    pub name: TenantName,
    pub schema_name: TenantSchemaName,
    pub admin_user_id: u128,
    pub anon_key: TenantAnonKey,
    pub frontend_url: TenantFrontendUrl,
    pub secret_key_hash: String,
    pub google_oauth_configuration: Option<GoogleOAuthTenantConfiguration>,
    pub status: TenantStatus,
    pub audit: AuditableModel,
}

/// Abstract contents of a tenant.
pub struct TenantView {
    pub id: u128,
    pub name: Seq<char>,
    pub schema_name: Seq<char>,
    pub admin_user_id: u128,
    pub anon_key: Seq<char>,
    pub frontend_url: Seq<char>,
    pub secret_key_hash: Seq<char>,
    pub google_oauth_configuration: Option<GoogleOAuthView>,
    pub status: TenantStatus,
    pub audit: AuditableModel,
}

/// The abstract OAuth configuration of an optional concrete one.
pub open spec fn google_view(g: Option<GoogleOAuthTenantConfiguration>) -> Option<GoogleOAuthView> {
    match g {
        Some(c) => Some(c@),
        None => None,
    }
}

/// Every part of the tenant satisfies its value object's rule.
pub open spec fn valid_tenant(t: TenantView) -> bool {
    &&& t.id != 0
    &&& valid_tenant_name(t.name)
    &&& valid_schema_name(t.schema_name)
    &&& valid_tenant_anon_key(t.anon_key)
    &&& valid_frontend_url(t.frontend_url)
    &&& match t.google_oauth_configuration {
        Some(g) => valid_google_oauth(g),
        None => true,
    }
}

impl View for TenantConstructionData {
    type V = TenantView;

    open spec fn view(&self) -> TenantView {
        TenantView {
            id: self.id@,
            name: self.name@,
            schema_name: self.schema_name@,
            admin_user_id: self.admin_user_id,
            anon_key: self.anon_key@,
            frontend_url: self.frontend_url@,
            secret_key_hash: self.secret_key_hash@,
            google_oauth_configuration: google_view(self.google_oauth_configuration),
            status: self.status,
            audit: self.audit,
        }
    }
}

impl View for Tenant {
    type V = TenantView;

    closed spec fn view(&self) -> TenantView {
        TenantView {
            id: self.id@,
            name: self.name@,
            schema_name: self.schema_name@,
            admin_user_id: self.admin_user_id,
            anon_key: self.anon_key@,
            frontend_url: self.frontend_url@,
            secret_key_hash: self.secret_key_hash@,
            google_oauth_configuration: google_view(self.google_oauth_configuration),
            status: self.status,
            audit: self.audit,
        }
    }
}

impl Tenant {
    pub open spec fn wf(&self) -> bool {
        valid_tenant(self@)
    }

    pub fn new(data: TenantConstructionData) -> (t: Tenant)
        ensures
            t@ == data@,
    {
        Tenant {
            id: data.id,
            name: data.name,
            schema_name: data.schema_name,
            admin_user_id: data.admin_user_id,
            anon_key: data.anon_key,
            frontend_url: data.frontend_url,
            secret_key_hash: data.secret_key_hash,
            google_oauth_configuration: data.google_oauth_configuration,
            status: data.status,
            audit: data.audit,
        }
    }

    pub fn id(&self) -> (r: TenantId)
        ensures
            r@ == self@.id,
    {
        self.id
    }

    pub fn name(&self) -> (r: &TenantName)
        ensures
            r@ == self@.name,
    {
        &self.name
    }

    pub fn schema_name(&self) -> (r: &TenantSchemaName)
        ensures
            r@ == self@.schema_name,
    {
        &self.schema_name
    }

    pub fn admin_user_id(&self) -> (r: u128)
        ensures
            r == self@.admin_user_id,
    {
        self.admin_user_id
    }

    pub fn anon_key(&self) -> (r: &TenantAnonKey)
        ensures
            r@ == self@.anon_key,
    {
        &self.anon_key
    }

    pub fn frontend_url(&self) -> (r: &TenantFrontendUrl)
        ensures
            r@ == self@.frontend_url,
    {
        &self.frontend_url
    }

    pub fn secret_key_hash(&self) -> (r: &str)
        ensures
            r@ == self@.secret_key_hash,
    {
        self.secret_key_hash.as_str()
    }

    pub fn google_oauth_configuration(&self) -> (r: Option<&GoogleOAuthTenantConfiguration>)
        ensures
            match r {
                Some(c) => self@.google_oauth_configuration == Some(c@),
                None => self@.google_oauth_configuration is None,
            },
    {
        match &self.google_oauth_configuration {
            Some(c) => Some(c),
            None => None,
        }
    }

    pub fn status(&self) -> (r: &TenantStatus)
        ensures
            *r == self@.status,
    {
        &self.status
    }

    pub fn audit(&self) -> (r: &AuditableModel)
        ensures
            *r == self@.audit,
    {
        &self.audit
    }
}

} // verus!

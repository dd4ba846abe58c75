//! The provisioning command service: create a tenant's database and then its tables, or drop
//! the database. The caller performs each step it is asked for and reports how it went.

use crate::provisioning::domain::{
    error::DomainError,
    model::commands::{
        deprovision_tenant_resources_command::DeprovisionTenantResourcesCommand,
        provision_tenant_resources_command::ProvisionTenantResourcesCommand,
    },
};
use vstd::prelude::*;

verus! {

/// The service, over the provisioner that does the database work.
pub struct ProvisioningCommandServiceImpl<S> {
    schema_provisioner: S,
}

impl<S> ProvisioningCommandServiceImpl<S> {
    pub closed spec fn provisioner(&self) -> S {
        self.schema_provisioner
    }

    pub fn new(schema_provisioner: S) -> (s: Self)
        ensures
            s.provisioner() == schema_provisioner,
    {
        ProvisioningCommandServiceImpl { schema_provisioner }
    }

    pub fn schema_provisioner(&self) -> (p: &S)
        ensures
            *p == self.provisioner(),
    {
        &self.schema_provisioner
    }
}

/// What a provisioning run asks its caller to do next.
pub enum ProvisioningAction {
    CreateDatabase { database_name: String },
    RunMigrations { database_name: String },
    DropDatabase { database_name: String },
    Finish { outcome: Result<(), DomainError> },
}

/// The first step of provisioning: create the database.
pub fn begin_provisioning(command: &ProvisionTenantResourcesCommand) -> (a: ProvisioningAction)
    ensures
        a matches ProvisioningAction::CreateDatabase { database_name } && database_name@
            == command.database_name@,
{
    ProvisioningAction::CreateDatabase {
        database_name: command.database_name.value().to_owned(),
    }
}

/// After the database was created: run the migrations, unless creation failed.
pub fn after_database_created(
    command: &ProvisionTenantResourcesCommand,
    created: Result<(), DomainError>,
) -> (a: ProvisioningAction)
    ensures
        match created {
            Ok(_) => a matches ProvisioningAction::RunMigrations { database_name } && database_name@
                == command.database_name@,
            Err(e) => a == (ProvisioningAction::Finish { outcome: Err(e) }),
        },
{
    match created {
        Ok(_) => ProvisioningAction::RunMigrations {
            database_name: command.database_name.value().to_owned(),
        },
        Err(e) => ProvisioningAction::Finish { outcome: Err(e) },
    }
}

/// After the migrations ran: provisioning ends with their outcome.
pub fn after_migrations(migrated: Result<(), DomainError>) -> (a: ProvisioningAction)
    ensures
        a == (ProvisioningAction::Finish { outcome: migrated }),
{
    ProvisioningAction::Finish { outcome: migrated }
}

/// The first step of deprovisioning: drop the database.
pub fn begin_deprovisioning(command: &DeprovisionTenantResourcesCommand) -> (a:
    ProvisioningAction)
    ensures
        a matches ProvisioningAction::DropDatabase { database_name } && database_name@
            == command.database_name@,
{
    ProvisioningAction::DropDatabase { database_name: command.database_name.value().to_owned() }
}

/// After the database was dropped: deprovisioning ends with that outcome.
pub fn after_database_dropped(dropped: Result<(), DomainError>) -> (a: ProvisioningAction)
    ensures
        a == (ProvisioningAction::Finish { outcome: dropped }),
{
    ProvisioningAction::Finish { outcome: dropped }
}

} // verus!

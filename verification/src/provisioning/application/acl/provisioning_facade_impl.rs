//! The provisioning facade other contexts call with plain tenant ids and database names.

use crate::provisioning::domain::{
    error::DomainError,
    model::commands::{
        deprovision_tenant_resources_command::DeprovisionTenantResourcesCommand,
        provision_tenant_resources_command::ProvisionTenantResourcesCommand,
    },
};
use vstd::prelude::*;

verus! {

/// The facade, over the command service it forwards to.
pub struct ProvisioningFacadeImpl<S> {
    command_service: S,
}

impl<S> ProvisioningFacadeImpl<S> {
    pub closed spec fn service(&self) -> S {
        self.command_service
    }

    pub fn new(command_service: S) -> (f: Self)
        ensures
            f.service() == command_service,
    {
        ProvisioningFacadeImpl { command_service }
    }

    pub fn command_service(&self) -> (s: &S)
        ensures
            *s == self.service(),
    {
        &self.command_service
    }
}

} // verus!

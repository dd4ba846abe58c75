use crate::shared::interfaces::cli::argument_flag_parser::{
    args_view, flag_value, missing_flag_text,
};
use crate::shared::uuids::uuid_parse_outcome;
use super::rotate_tenant_keys_cli_resource::{invalid_tenant_id_flag_text, tenant_id_from_args};
use vstd::prelude::*;

verus! {

/// The `delete-tenant` command line: `--tenant-id <uuid>`.
#[derive(Debug, Clone, Copy)]
pub struct DeleteTenantSchemaCliResource {
    pub tenant_id: u128,
}

impl DeleteTenantSchemaCliResource {
    pub fn from_args(args: &[String]) -> (r: Result<DeleteTenantSchemaCliResource, String>)
        ensures
            ({
                let a = args_view(args@);
                match flag_value(a, "--tenant-id"@) {
                    None => r matches Err(m) && m@ == missing_flag_text("--tenant-id"@),
                    Some(v) => match uuid_parse_outcome(v) {
                        Ok(bits) => r matches Ok(res) && res.tenant_id == bits,
                        Err(e) => r matches Err(m) && m@ == invalid_tenant_id_flag_text(e),
                    },
                }
            }),
    {
        match tenant_id_from_args(args) {
            Ok(tenant_id) => Ok(DeleteTenantSchemaCliResource { tenant_id }),
            Err(e) => Err(e),
        }
    }
}

} // verus!

use super::create_tenant_schema_cli_resource::opt_text;
use super::rotate_tenant_keys_cli_resource::{invalid_tenant_id_flag_text, tenant_id_from_args};
use crate::shared::interfaces::cli::argument_flag_parser::{
    args_view, flag_value, missing_flag_text, optional_flag,
};
use crate::shared::uuids::uuid_parse_outcome;
use vstd::prelude::*;

verus! {

/// The `update-tenant` command line: `--tenant-id <uuid>` and the settings to change.
#[derive(Debug, Clone)]
pub struct UpdateTenantSchemaConfigurationCliResource {
    pub tenant_id: u128,
    pub frontend_url: Option<String>,
    pub google_client_id: Option<String>,
    pub google_client_secret: Option<String>,
}

impl UpdateTenantSchemaConfigurationCliResource {
    pub fn from_args(args: &[String]) -> (r: Result<
        UpdateTenantSchemaConfigurationCliResource,
        String,
    >)
        ensures
            ({
                let a = args_view(args@);
                match flag_value(a, "--tenant-id"@) {
                    None => r matches Err(m) && m@ == missing_flag_text("--tenant-id"@),
                    Some(v) => match uuid_parse_outcome(v) {
                        Ok(bits) => r matches Ok(res) && res.tenant_id == bits && opt_text(
                            res.frontend_url,
                        ) == flag_value(a, "--frontend-url"@) && opt_text(res.google_client_id)
                            == flag_value(a, "--google-client-id"@) && opt_text(
                            res.google_client_secret,
                        ) == flag_value(a, "--google-client-secret"@),
                        Err(e) => r matches Err(m) && m@ == invalid_tenant_id_flag_text(e),
                    },
                }
            }),
    {
        let tenant_id = match tenant_id_from_args(args) {
            Ok(v) => v,
            Err(e) => return Err(e),
        };
        Ok(
            UpdateTenantSchemaConfigurationCliResource {
                tenant_id,
                frontend_url: optional_flag(args, "--frontend-url"),
                google_client_id: optional_flag(args, "--google-client-id"),
                google_client_secret: optional_flag(args, "--google-client-secret"),
            },
        )
    }
}

} // verus!

use crate::shared::interfaces::cli::argument_flag_parser::{
    args_view, flag_value, missing_flag_text, required_flag,
};
use crate::shared::uuids::{parse_uuid, uuid_parse_outcome};
use vstd::prelude::*;
use vstd::string::*;

verus! {

/// The `rotate-tenant-keys` command line: `--tenant-id <uuid>`.
#[derive(Debug, Clone, Copy)]
pub struct RotateTenantKeysCliResource {
    pub tenant_id: u128,
}

/// The text of the error for a `--tenant-id` that is not a UUID.
pub open spec fn invalid_tenant_id_flag_text(error: Seq<char>) -> Seq<char> {
    "Invalid --tenant-id: "@ + error
}

/// Reads `--tenant-id` as a UUID.
pub fn tenant_id_from_args(args: &[String]) -> (r: Result<u128, String>)
    ensures
        ({
            let a = args_view(args@);
            match flag_value(a, "--tenant-id"@) {
                None => r matches Err(m) && m@ == missing_flag_text("--tenant-id"@),
                Some(v) => match uuid_parse_outcome(v) {
                    Ok(bits) => r == Ok::<u128, String>(bits),
                    Err(e) => r matches Err(m) && m@ == invalid_tenant_id_flag_text(e),
                },
            }
        }),
{
    let raw = match required_flag(args, "--tenant-id") {
        Ok(v) => v,
        Err(e) => return Err(e),
    };
    match parse_uuid(raw.as_str()) {
        Ok(bits) => Ok(bits),
        Err(e) => Err(String::from_str("Invalid --tenant-id: ").concat(e.as_str())),
    }
}

impl RotateTenantKeysCliResource {
    pub fn from_args(args: &[String]) -> (r: Result<RotateTenantKeysCliResource, String>)
        ensures
            ({
                let a = args_view(args@);
                match flag_value(a, "--tenant-id"@) {
                    None => r matches Err(m) && m@ == missing_flag_text("--tenant-id"@),
                    Some(v) => match uuid_parse_outcome(v) {
                        Ok(bits) => r matches Ok(res) && res.tenant_id == bits,
                        Err(e) => r matches Err(m) && m@ == invalid_tenant_id_flag_text(e),
                    },
                }
            }),
    {
        match tenant_id_from_args(args) {
            Ok(tenant_id) => Ok(RotateTenantKeysCliResource { tenant_id }),
            Err(e) => Err(e),
        }
    }
}

} // verus!

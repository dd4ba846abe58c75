use crate::shared::interfaces::cli::argument_flag_parser::{
    args_view, flag_value, missing_flag_text, optional_flag, required_flag,
};
use vstd::prelude::*;

verus! {

/// The `create-tenant` command line: `--name` is required, the others optional.
#[derive(Debug, Clone)]
pub struct CreateTenantSchemaCliResource {
    pub name: String,
    pub frontend_url: Option<String>,
    pub google_client_id: Option<String>,
    pub google_client_secret: Option<String>,
}

/// The text of an optional string.
pub open spec fn opt_text(s: Option<String>) -> Option<Seq<char>> {
    match s {
        Some(v) => Some(v@),
        None => None,
    }
}

impl CreateTenantSchemaCliResource {
    pub fn from_args(args: &[String]) -> (r: Result<CreateTenantSchemaCliResource, String>)
        ensures
            ({
                let a = args_view(args@);
                match r {
                    Ok(res) => flag_value(a, "--name"@) == Some(res.name@) && opt_text(
                        res.frontend_url,
                    ) == flag_value(a, "--frontend-url"@) && opt_text(res.google_client_id)
                        == flag_value(a, "--google-client-id"@) && opt_text(
                        res.google_client_secret,
                    ) == flag_value(a, "--google-client-secret"@),
                    Err(m) => flag_value(a, "--name"@) is None && m@ == missing_flag_text(
                        "--name"@,
                    ),
                }
            }),
    {
        let name = match required_flag(args, "--name") {
            Ok(v) => v,
            Err(e) => return Err(e),
        };
        Ok(
            CreateTenantSchemaCliResource {
                name,
                frontend_url: optional_flag(args, "--frontend-url"),
                google_client_id: optional_flag(args, "--google-client-id"),
                google_client_secret: optional_flag(args, "--google-client-secret"),
            },
        )
    }
}

} // verus!

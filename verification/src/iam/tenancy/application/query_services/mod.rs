pub mod tenancy_query_service_impl;

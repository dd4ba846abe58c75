pub mod provisioning_facade_impl;

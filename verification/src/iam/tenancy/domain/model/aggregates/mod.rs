pub mod membership;
pub mod tenant;

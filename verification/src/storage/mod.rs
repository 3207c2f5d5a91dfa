//! Block backends of the first USB MSC prototype.

pub mod remote;

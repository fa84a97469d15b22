pub mod googledrive;
pub mod localdisk;
pub mod memory;
pub mod s3compat;

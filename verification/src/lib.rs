pub mod fingerprint;
pub mod narinfo;
pub mod query;
pub mod relay;
pub mod response;
pub mod run;
pub mod text;


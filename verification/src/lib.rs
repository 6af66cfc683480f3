pub mod codec;
pub mod der;
pub mod digest;
pub mod errors;
pub mod keymgmt;
pub mod params;
pub mod provider;
pub mod signature;
pub mod spki;
pub mod text;

pub mod text;
pub mod sieve;
pub mod schema;
pub mod env;
pub mod cli;
pub mod cpu;
pub mod adb;
pub mod payload;
pub mod inspect;
pub mod sampler;
pub mod plan;
pub mod laws;
pub mod prime_table;

//! Vectorized "extract the Nth capture group of a regular expression from
//! each value of a text column", with a memoizing pattern cache.

pub mod args;
pub mod cache;
pub mod errors;
pub mod extract;
pub mod laws;
pub mod numtext;
pub mod pattern;

pub use args::ArgName;
pub use args::ArgValue;
pub use cache::PatternCache;
pub use errors::ExtractError;
pub use extract::regexp_extract;
pub use pattern::CompiledPattern;

pub mod channel;
pub mod clock;
pub mod collector;
pub mod digest;
pub mod error;
pub mod ident;
pub mod pattern;
pub mod scan;
pub mod sequence;
pub mod text;
pub mod traits;

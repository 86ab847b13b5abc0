pub mod de;
pub mod display;
pub mod errors;
pub mod float;
pub mod from;
pub mod into;
pub mod iter;
pub mod laws;
pub mod merge;
pub mod new;
pub mod ser;
pub mod value;

pub use errors::ModelError;
pub use value::Value;
pub use iter::ValueIter;
pub use ser::{ValueSerMap, ValueSerSeq, ValueSerStructVariant, ValueSerTupleVariant, ValueSerializer};

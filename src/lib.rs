//! An HTTP header field value: a validated, shareable byte sequence with an
//! advisory sensitivity flag, together with the byte rules it is built on.

pub mod bytes_spec;
pub mod text;
pub mod validate;
pub mod name;
pub mod numeric;
pub mod value;

//! Serving one interface in terms of another.

pub mod nzst_to_zsty;

//! The tags of the supported container shapes.

pub mod option;
pub mod result;
pub mod vec;

//! The screens: each owns its widgets, reacts to keys, and may ask the
//! controller to show another screen.

pub mod landing;
pub mod register;

//! Styled user-interface components as plain reducers.
//!
//! Each component is a configuration that its parent replaces as a whole, a
//! small state of its own, a transition function that folds one message
//! into that state, and a derivation of what it shows. Nothing here knows
//! the runtime that displays the components: events arrive as plain values,
//! and what a component wants done outside itself (a click handed on to the
//! parent, a style value written) comes back as a value or goes into a
//! registry the caller owns. Every call is one complete transition.
//!
//! - [`component`]: the rule by which a component takes a new configuration.
//! - [`styles`]: palettes, styles and sizes, and their class tokens.
//! - [`utils`]: the registry of style values.
//! - [`form_pages`]: the form demonstration page.
//! - [`navbar`]: the navigation bar.
//! - [`carousel_controls`]: the previous and next controls of a carousel.

pub mod carousel_controls;
pub mod component;
pub mod form_pages;
pub mod navbar;
pub mod styles;
pub mod utils;

//! Material Design colour themes rendered as CSS variable files.
//!
//! A [`Theme`](theme::Theme) holds a source colour and a light and a dark
//! [`Scheme`](theme::Scheme), each a mapping from role name to colour. The
//! renderers in [`templates`] walk the fixed role table of [`roles`] and
//! write one line per role, in table order.

pub mod argument_parse;
pub mod color;
pub mod error;
pub mod generate;
pub mod notice;
pub mod roles;
pub mod run;
pub mod templates;
pub mod text;
pub mod theme;
pub mod variant;

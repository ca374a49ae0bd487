//! The rules of a Discord role plugin that grants a role to members who redeem a code:
//! how codes are made and read, which code a redemption uses, how code groups are
//! checked, how the role links are brought in line with the redemptions, and the pages
//! and dashboard it serves.

/// Code groups: kinds, limits, invite URLs, updates, listings and code requests.
pub mod batch_rules;
/// Making random codes and normalizing typed ones.
pub mod code_gen;
/// Which members qualify for a role link.
pub mod condition;
/// Decimal numbers, written and read.
pub mod decimal;
/// The errors the rules answer with.
pub mod error;
/// The calls into outside crates.
pub mod outside;
/// The served pages, sign-in and share addresses, and QR images.
pub mod pages;
/// Redeeming a typed code.
pub mod redeem;
/// The role-link dashboard and its posted values.
pub mod schema;
/// Bringing role links in line with the redemptions.
pub mod sync;
/// The background sweeps.
pub mod tasks;
/// The page templates.
pub mod templates;
/// Characters and strings.
pub mod text;

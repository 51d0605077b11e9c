//! Typed views of third-party webhook payloads, and builders for the request
//! bodies that the vendors' APIs take.
//!
//! Inbound text is parsed into a [`json::JsonValue`] tree, and each vendor's
//! schema is decoded from that tree ([`decode`]): required members must be
//! present, optional ones may be absent or `null`, and members that no field
//! takes are kept where a payload has room for them. Outbound builders gather
//! named fields ([`fields`]), replacing a field that is written twice, check
//! that enough content is present and print the body.

pub mod json;
pub mod decode;
pub mod encode;
pub mod fields;

pub mod discord;
pub mod github;
pub mod gmail;
pub mod jira;
pub mod monday;
pub mod notion;
pub mod sendgrid;
pub mod telegram;
pub mod twilio;

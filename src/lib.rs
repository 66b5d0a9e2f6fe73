//! The core of a page builder: pages made of ordered, pluggable components.
//!
//! A registry maps each component kind to its handlers; a dispatcher checks ownership before
//! it lets a kind's handlers create, fetch or update a component; each kind's payload is kept
//! as opaque bytes that only its own codec reads; and the storage layer keeps pages,
//! components and file attachments in tables with positions and ownership.

pub mod attachment_service;
pub mod component;
pub mod data_model;
pub mod dispatch;
pub mod form;
pub mod label_service;
pub mod markdown_service;
pub mod page_flow;
pub mod page_service;
pub mod permission;
pub mod query;
pub mod registry;
pub mod repository;
pub mod status;

//! Lexito: a gettext catalog editor library with AI-assisted translation.
pub mod text;
pub mod model;
pub mod validation;
pub mod po;
pub mod paths;
pub mod error;
pub mod catalog;
pub mod po_text;
pub mod po_check;
pub mod project;
pub mod settings;
pub mod order;
pub mod models;
pub mod client;
pub mod prompt;
pub mod desktop;
pub mod locales;
pub mod workspace;
pub mod editor;
pub mod screens;
pub mod laws;

//! Core logic of the Ruva browser shell: address-bar input, tab bookkeeping,
//! settings updates and the small pages and scripts the shell injects.
pub mod text;
pub mod search;
pub mod settings;
pub mod tab;
pub mod command;
pub mod linux;
pub mod page;
pub mod json;
pub mod windows;
pub mod ai;
pub mod chromium;

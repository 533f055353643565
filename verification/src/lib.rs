//! Core of a terminal interface that triages PDF files between a managed and
//! an unmanaged directory: a scrollable-list viewport engine, list panes with
//! a selection, and a focus router that dispatches key events across the pane
//! tree. Terminal rendering, directory scanning and the event loop live
//! outside this crate; everything here is pure state and arithmetic.

pub mod app;
pub mod command;
pub mod components;
pub mod config;
pub mod existing_directory_list;
pub mod inbox;
pub mod inputs;
pub mod key_config;
pub mod managed_pdf_list;
pub mod paper_directory_list;
pub mod pdf_detail;
pub mod pdf_file;
pub mod pdf_file_loader;
pub mod pdf_import_popup;
pub mod searchbar;
pub mod unmanaged_pdf_list;
pub mod vertical_scroll;

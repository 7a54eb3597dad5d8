//! Verified view logic for the KitonyTerms SSH client user interface.

pub mod text;
pub mod session_data;
pub mod config;
pub mod i18n;
pub mod state;
pub mod app_logic;
pub mod tab;
pub mod desktop_menu;
pub mod sftp_path;
pub mod external_edit;
pub mod inline_editor;
pub mod terminal;
pub mod sidebar;
pub mod context_menu;
pub mod action_sheet;
pub mod metrics_format;
pub mod qr;
pub mod scanner;
pub mod auth;
pub mod dialog;
pub mod fonts;
pub mod monitor;
pub mod settings;
pub mod main_shell;
pub mod state_controller;
pub mod keyboard;
pub mod sftp;
pub mod local_time;
pub mod upload;
pub mod upload_batch;
pub mod operations;
pub mod device;
pub mod clipboard;

pub mod actor;
pub mod app_state_file;
pub mod avatar;
pub mod clock;
pub mod colors;
pub mod cursor;
pub mod events;
pub mod forms;
pub mod grid_text;
pub mod home;
pub mod host_form;
pub mod humanize;
pub mod ids;
pub mod images;
pub mod input;
pub mod model;
pub mod persistence;
pub mod preview;
pub mod recent;
pub mod secrets;
pub mod seqs;
pub mod session;
pub mod ssh_error;
pub mod state;
pub mod tab_laws;
pub mod text;
pub mod theme;
pub mod ui;

//! The decisions of a screen annotation board: what is captured, encoded, drafted,
//! edited, saved and listed, each stated as a contract and proved.

pub mod annotating;
pub mod application;
pub mod background_encode;
pub mod board;
pub mod canvas;
pub mod capture;
pub mod capture_surface;
pub mod cataloguing;
pub mod commands;
pub mod coordination;
pub mod draft_coordinator;
pub mod dragging;
pub mod editor;
pub mod events;
pub mod export;
pub mod file_names;
pub mod guarantees;
pub mod input;
pub mod instance;
pub mod journeys;
pub mod library_index;
pub mod library_view;
pub mod library_worker;
pub mod naming;
pub mod opening;
pub mod overlay_window;
pub mod performance;
pub mod persistence;
pub mod picturing;
pub mod pointer;
pub mod post_save;
pub mod recording;
pub mod release;
pub mod saving;
pub mod scale;
pub mod screen_stream;
pub mod seqs;
pub mod session;
pub mod settings;
pub mod shortcuts;
pub mod startup;
pub mod stylus;
pub mod text;
pub mod text_editor;
pub mod tools;
pub mod writing;

//! Study Helper: flashcards, study sets and quizzes, and the engine that
//! keeps the study sets in memory in agreement with a tree of class folders
//! on disk.
//!
//! The library never touches a disk. It decides; the application around it
//! reads and writes. [`models`] holds the data, [`storage`] the rules of the
//! store on directory listings handed in, [`reconcile`] what a reconciliation
//! pass is, [`app`] the state and its operations, [`ui`] the state behind the
//! views, and [`laws`] what is proved of all of it.
pub mod app;
pub mod laws;
pub mod models;
pub mod reconcile;
pub mod storage;
pub mod text;
pub mod ui;
pub mod utils;

//! Verified building blocks of an Android `adb` client: the command lines that
//! each operation runs and the parsers that turn the tool's output into values.

pub mod command;
pub mod outside;
pub mod text;
pub mod keycode;
pub mod types;
pub mod device;
pub mod error;
pub mod client;
pub mod shell;
pub mod options;
pub mod dump;
pub mod intent;
pub mod devices;
pub mod pm;
pub mod logcat;
pub mod scanner;
pub mod apk;
pub mod files;
pub mod control;
pub mod laws;

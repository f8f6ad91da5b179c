//! Forensic artifacts of offline Windows images.
//!
//! The core engines: Windows time conversion (`wintime`), registry hive
//! navigation (`hive`) and typed value decoding (`value`), extended-ASCII and
//! UTF-16LE text (`text`), event-log records (`records`) and their typed
//! events (`event`). Around them, the artifact reports that read hives
//! (`extract`, `accounts`, `volumes`, `usb`, `props`, `portable`) and event
//! logs (`classify`), the device-identifier grammar they share (`devid`),
//! and the plan of jobs that each processing mode runs (`dispatch`).

pub mod wintime;
pub mod hive;
pub mod value;
pub mod text;
pub mod event;
pub mod records;
pub mod conv;
pub mod paths;
pub mod dispatch;
pub mod extract;
pub mod devid;
pub mod classify;
pub mod vendors;
pub mod usb;
pub mod volumes;
pub mod accounts;
pub mod props;
pub mod portable;

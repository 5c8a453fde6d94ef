//! The application state: screens, edit buffers and the tab store.

pub mod app;
pub mod model;
pub mod tab;

pub use app::{App, AppView, CurrentScreen, RequestFault, ValuesScreen};
pub use tab::{Tab, TabView};

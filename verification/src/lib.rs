//! Decision logic of the ImmichSync tray uploader: the Immich API client's
//! construction and error mapping, the tray state machine, watch-folder
//! planning, window-subprocess dispatch and the install dialog's state.

pub mod text;
pub mod api;
pub mod lifecycle;
pub mod watch_plan;
pub mod launch;
pub mod install;

//! Synchronisation layer of a kiosk status display: decoders that turn the
//! raw answers of a media-player bus, a network-status tool and a weather
//! service into display-ready snapshots, and the fail-soft rules by which
//! each snapshot slot is replaced.

pub mod api;
pub mod bluetooth;
pub mod errors;
pub mod info_widget;
pub mod slots;
pub mod ui_renderer;
pub mod weather_widget;
pub mod wifi_api;

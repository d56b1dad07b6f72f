pub mod cache;
pub mod location;
pub mod poller;
pub mod theme;
pub mod time;

pub use location::LocationInfo;
pub use theme::Theme;
pub use time::TimeOfDay;

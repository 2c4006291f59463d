pub mod dispatch;
pub mod settings;

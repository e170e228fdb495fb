//! The deck actions: what each key press, dial turn or inspector event decides.

pub mod channel;
pub mod notifications;
pub mod video;
pub mod voice_settings;

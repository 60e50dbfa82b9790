pub mod dispatch;
pub mod entities;
pub mod error;
pub mod friendica;
pub mod gotosocial;
pub mod json;
pub mod pleroma;
pub mod time;

//! The client's decisions: its screen flow, what each on-screen element
//! shows, and which keys send which inputs. Drawing and reading devices
//! happen around these.

pub mod character_rig;
pub mod connect_screen;
pub mod health_hud;
pub mod input;
pub mod match_characters;
pub mod match_end_screen;
pub mod role_indicator;

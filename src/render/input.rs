pub mod button_status;
pub mod joypad;

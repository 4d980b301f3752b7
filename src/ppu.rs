pub mod address_register;
pub mod controller_register;
pub mod mask_register;
pub mod ppu;
pub mod ppu_register;
pub mod scroll_register;
pub mod status_register;
pub mod lemmas;

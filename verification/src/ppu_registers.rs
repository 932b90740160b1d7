pub mod address_register;
pub mod control_register;
pub mod mask_register;
pub mod scroll_register;
pub mod status_register;

pub mod request_button;
pub mod tab_button;

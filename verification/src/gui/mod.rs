pub mod appareance;
pub mod gui;
pub mod home;
pub mod widgets;

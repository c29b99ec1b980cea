//! What happens when the compositor reports something.

pub mod click_laws;
pub mod globals;
pub mod menu_laws;
pub mod menus;
pub mod manager;
pub mod output;
pub mod window;
pub mod seat;
pub mod surface;
pub mod tables;
pub mod pointer;
pub mod frame;
pub mod laws;
pub mod report_laws;

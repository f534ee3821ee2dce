//! The logic behind the pages of the window.

pub mod schindler_page;

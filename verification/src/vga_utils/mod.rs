//! The text screen: palette, attribute byte, cells, grid and writer.

pub mod vga_colors;
pub mod vga_color_code;
pub mod text_code;
pub mod vga_writter;
pub mod console_proofs;

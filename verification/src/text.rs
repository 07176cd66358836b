pub mod font_descriptor;

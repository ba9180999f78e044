pub mod text;
pub mod scan;
pub mod grammar_spec;
pub mod parse;
pub mod grammar;
pub mod media_queries;
pub mod string_rendering;
pub mod codegen;
pub mod theme;
pub mod palette;
pub mod input;
pub mod surface;
pub mod keyframes;
pub mod bounds;
pub mod extension;
pub mod laws;
pub mod widgets;

//! Lexing of shader-like source text, GLSL declaration rendering, shader
//! stage selection and the integer bookkeeping of PMX draw assets.

pub mod text;
pub mod tokenizer;
pub mod lexer_laws;
pub mod glsl;
pub mod paths;
pub mod shader;
pub mod draw;
pub mod lexer_concat;
pub mod lexer_operators;
pub mod gpu;

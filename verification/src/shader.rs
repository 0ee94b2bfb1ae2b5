//! Shader sources: the stage that a file extension names, the transpiler's
//! input, and the loader's list of sources to compile.

use vstd::prelude::*;

use crate::paths::{extension_of, path_extension};
use crate::text::same_text;

verus! {

broadcast use vstd::string::group_string_axioms;

/// The pipeline stage of a shader.
#[derive(Debug, Clone, Copy, PartialEq, Eq, Structural)]
pub enum ShaderStage {
    Vertex,
    Fragment,
    Geometry,
}

/// The stage of a shader file extension: `fsh` fragment, `vsh` vertex and
/// `gsh` geometry shaders; any other extension names none.
pub open spec fn stage_of_extension(ext: Seq<char>) -> Option<ShaderStage> {
    if ext == "fsh"@ {
        Some(ShaderStage::Fragment)
    } else if ext == "vsh"@ {
        Some(ShaderStage::Vertex)
    } else if ext == "gsh"@ {
        Some(ShaderStage::Geometry)
    } else {
        None
    }
}

/// The stage of a shader file: `None` where the path has no extension or
/// one that names no stage.
pub open spec fn stage_of_path(p: Seq<char>) -> Option<ShaderStage> {
    match path_extension(p) {
        Some(e) => stage_of_extension(e),
        None => None,
    }
}

/// The stage that a file extension names.
pub fn shader_stage_from_extension(ext: &str) -> (res: Option<ShaderStage>)
    ensures
        res == stage_of_extension(ext@),
{
    if same_text(ext, "fsh") {
        Some(ShaderStage::Fragment)
    } else if same_text(ext, "vsh") {
        Some(ShaderStage::Vertex)
    } else if same_text(ext, "gsh") {
        Some(ShaderStage::Geometry)
    } else {
        None
    }
}

/// The stage of a shader file, by the extension of its path.
pub fn shader_stage_of_path(path: &str) -> (res: Option<ShaderStage>)
    ensures
        res == stage_of_path(path@),
{
    match extension_of(path) {
        Some(e) => shader_stage_from_extension(e.as_str()),
        None => None,
    }
}

/// A shader source to be rewritten for the target stage.
pub struct Transpiler {
    source_text: String,
    source_name: String,
    target: ShaderStage,
}

impl Transpiler {
    /// The source text.
    pub closed spec fn text(&self) -> Seq<char> {
        self.source_text@
    }

    /// The name of the source, its path.
    pub closed spec fn name(&self) -> Seq<char> {
        self.source_name@
    }

    /// The stage the source is for.
    pub closed spec fn stage(&self) -> ShaderStage {
        self.target
    }

    /// The transpiler for the file at `path`, whose text is `source_text`.
    /// The extension must name a stage.
    pub fn open(path: &str, source_text: String) -> (res: Self)
        requires
            stage_of_path(path@) is Some,
        ensures
            res.text() == source_text@,
            res.name() == path@,
            Some(res.stage()) == stage_of_path(path@),
    {
        let target = match shader_stage_of_path(path) {
            Some(s) => s,
            None => ShaderStage::Vertex,
        };
        let source_name = path.to_string();
        Self { source_text, source_name, target }
    }

    /// The transpiler for the file at `path`, or `None` where its extension
    /// names no stage.
    pub fn try_open(path: &str, source_text: String) -> (res: Option<Self>)
        ensures
            res is None <==> stage_of_path(path@) is None,
            res matches Some(t) ==> t.text() == source_text@ && t.name() == path@ && Some(t.stage())
                == stage_of_path(path@),
    {
        if shader_stage_of_path(path).is_none() {
            return None;
        }
        Some(Self::open(path, source_text))
    }

    /// The rewritten source; no rewriting is done yet, and the result is empty.
    pub fn transpile(&self) -> (res: String)
        ensures
            res@ == Seq::<char>::empty(),
    {
        String::new()
    }
}

/// A shader source with the stage to compile it for.
pub struct CompileParameters {
    target: ShaderStage,
    source_text: String,
    source_name: String,
}

impl CompileParameters {
    /// The source text.
    pub closed spec fn text(&self) -> Seq<char> {
        self.source_text@
    }

    /// The name of the source, its path.
    pub closed spec fn name(&self) -> Seq<char> {
        self.source_name@
    }

    /// The stage the source is compiled for.
    pub closed spec fn stage(&self) -> ShaderStage {
        self.target
    }

    /// The parameters for the file at `path`, whose text is `source_text`.
    /// The extension must name a stage.
    pub fn open(path: &str, source_text: String) -> (res: Self)
        requires
            stage_of_path(path@) is Some,
        ensures
            res.text() == source_text@,
            res.name() == path@,
            Some(res.stage()) == stage_of_path(path@),
    {
        let target = match shader_stage_of_path(path) {
            Some(s) => s,
            None => ShaderStage::Vertex,
        };
        let source_name = path.to_string();
        Self { target, source_text, source_name }
    }

    /// The parameters for the file at `path`, or `None` where its extension
    /// names no stage.
    pub fn try_open(path: &str, source_text: String) -> (res: Option<Self>)
        ensures
            res is None <==> stage_of_path(path@) is None,
            res matches Some(c) ==> c.text() == source_text@ && c.name() == path@ && Some(c.stage())
                == stage_of_path(path@),
    {
        if shader_stage_of_path(path).is_none() {
            return None;
        }
        Some(Self::open(path, source_text))
    }
}

/// The shader sources of a shader pack.
pub struct Loader {
    shaders: Vec<CompileParameters>,
}

impl Loader {
    /// The number of sources held.
    pub closed spec fn len(&self) -> nat {
        self.shaders@.len()
    }

    /// A loader for the pack at `path`; the pack is not read yet, and the
    /// loader holds no source.
    pub fn open(_path: &str) -> (res: Self)
        ensures
            res.len() == 0,
    {
        let shaders = Vec::new();
        Loader { shaders }
    }

    /// The number of sources held.
    pub fn shader_count(&self) -> (n: usize)
        ensures
            n == self.len(),
    {
        self.shaders.len()
    }
}

} // verus!

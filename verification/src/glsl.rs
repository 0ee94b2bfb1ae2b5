//! GLSL declarations: qualifiers, types, and the `in`/`out` and `uniform`
//! lines that a shader table renders.

use vstd::prelude::*;
use vstd::string::StringExecFns;

use crate::text::{decimal, u32_to_decimal};

verus! {

broadcast use vstd::string::group_string_axioms;

/// The interpolation qualifier of a stage input or output.
#[derive(Debug, Clone, Copy, PartialEq, Eq, Structural)]
pub enum GLSLCompleteMode {
    Smooth,
    Flat,
}

/// The direction of a stage variable.
#[allow(non_camel_case_types)]
#[derive(Debug, Clone, Copy, PartialEq, Eq, Structural)]
pub enum GLSLDirection {
    IN,
    OUT,
    INOUT,
}

/// The GLSL types of a table entry.
#[allow(non_camel_case_types)]
#[derive(Debug, Clone, Copy, PartialEq, Eq, Structural)]
pub enum GLSLTypes {
    // scalars
    BOOL,
    INT,
    UINT,
    FLOAT,
    DOUBLE,
    // vectors
    BVEC2,
    BVEC3,
    BVEC4,
    IVEC2,
    IVEC3,
    IVEC4,
    UVEC2,
    UVEC3,
    UVEC4,
    VEC2,
    VEC3,
    VEC4,
    DVEC2,
    DVEC3,
    DVEC4,
    // matrices
    MAT2X2,
    MAT2X3,
    MAT2X4,
    MAT3X2,
    MAT3X3,
    MAT3X4,
    MAT4X2,
    MAT4X3,
    MAT4X4,
}

/// The qualifier text of an interpolation mode; smooth interpolation is the
/// default and is written as nothing.
pub open spec fn complete_mode_text(m: GLSLCompleteMode) -> Seq<char> {
    match m {
        GLSLCompleteMode::Smooth => ""@,
        GLSLCompleteMode::Flat => "flat"@,
    }
}

/// The keyword of a direction.
pub open spec fn direction_text(d: GLSLDirection) -> Seq<char> {
    match d {
        GLSLDirection::IN => "in"@,
        GLSLDirection::OUT => "out"@,
        GLSLDirection::INOUT => "inout"@,
    }
}

/// The GLSL spelling of a type; square matrices use the short name.
pub open spec fn type_text(t: GLSLTypes) -> Seq<char> {
    match t {
        GLSLTypes::BOOL => seq!['b', 'o', 'o', 'l'],
        GLSLTypes::INT => seq!['i', 'n', 't'],
        GLSLTypes::UINT => seq!['u', 'i', 'n', 't'],
        GLSLTypes::FLOAT => seq!['f', 'l', 'o', 'a', 't'],
        GLSLTypes::DOUBLE => seq!['d', 'o', 'u', 'b', 'l', 'e'],
        GLSLTypes::BVEC2 => seq!['b', 'v', 'e', 'c', '2'],
        GLSLTypes::BVEC3 => seq!['b', 'v', 'e', 'c', '3'],
        GLSLTypes::BVEC4 => seq!['b', 'v', 'e', 'c', '4'],
        GLSLTypes::IVEC2 => seq!['i', 'v', 'e', 'c', '2'],
        GLSLTypes::IVEC3 => seq!['i', 'v', 'e', 'c', '3'],
        GLSLTypes::IVEC4 => seq!['i', 'v', 'e', 'c', '4'],
        GLSLTypes::UVEC2 => seq!['u', 'v', 'e', 'c', '2'],
        GLSLTypes::UVEC3 => seq!['u', 'v', 'e', 'c', '3'],
        GLSLTypes::UVEC4 => seq!['u', 'v', 'e', 'c', '4'],
        GLSLTypes::VEC2 => seq!['v', 'e', 'c', '2'],
        GLSLTypes::VEC3 => seq!['v', 'e', 'c', '3'],
        GLSLTypes::VEC4 => seq!['v', 'e', 'c', '4'],
        GLSLTypes::DVEC2 => seq!['d', 'v', 'e', 'c', '2'],
        GLSLTypes::DVEC3 => seq!['d', 'v', 'e', 'c', '3'],
        GLSLTypes::DVEC4 => seq!['d', 'v', 'e', 'c', '4'],
        GLSLTypes::MAT2X2 => seq!['m', 'a', 't', '2'],
        GLSLTypes::MAT2X3 => seq!['m', 'a', 't', '2', 'x', '3'],
        GLSLTypes::MAT2X4 => seq!['m', 'a', 't', '2', 'x', '4'],
        GLSLTypes::MAT3X2 => seq!['m', 'a', 't', '3', 'x', '2'],
        GLSLTypes::MAT3X3 => seq!['m', 'a', 't', '3'],
        GLSLTypes::MAT3X4 => seq!['m', 'a', 't', '3', 'x', '4'],
        GLSLTypes::MAT4X2 => seq!['m', 'a', 't', '4', 'x', '2'],
        GLSLTypes::MAT4X3 => seq!['m', 'a', 't', '4', 'x', '3'],
        GLSLTypes::MAT4X4 => seq!['m', 'a', 't', '4'],
    }
}

/// The scalar type of the components of `t`: the type itself for a scalar,
/// `float` for `vecN` and for every matrix, and `bool`, `int`, `uint` or
/// `double` for the vectors whose names start with `b`, `i`, `u` or `d`.
pub open spec fn component_type(t: GLSLTypes) -> GLSLTypes {
    match t {
        GLSLTypes::BVEC2 | GLSLTypes::BVEC3 | GLSLTypes::BVEC4 => GLSLTypes::BOOL,
        GLSLTypes::IVEC2 | GLSLTypes::IVEC3 | GLSLTypes::IVEC4 => GLSLTypes::INT,
        GLSLTypes::UVEC2 | GLSLTypes::UVEC3 | GLSLTypes::UVEC4 => GLSLTypes::UINT,
        GLSLTypes::DVEC2 | GLSLTypes::DVEC3 | GLSLTypes::DVEC4 => GLSLTypes::DOUBLE,
        GLSLTypes::VEC2 | GLSLTypes::VEC3 | GLSLTypes::VEC4 => GLSLTypes::FLOAT,
        GLSLTypes::MAT2X2 | GLSLTypes::MAT2X3 | GLSLTypes::MAT2X4 => GLSLTypes::FLOAT,
        GLSLTypes::MAT3X2 | GLSLTypes::MAT3X3 | GLSLTypes::MAT3X4 => GLSLTypes::FLOAT,
        GLSLTypes::MAT4X2 | GLSLTypes::MAT4X3 | GLSLTypes::MAT4X4 => GLSLTypes::FLOAT,
        _ => t,
    }
}

/// The number of columns of `t`: `C` for a matrix `matCxR`, 1 otherwise.
pub open spec fn column_count(t: GLSLTypes) -> int {
    match t {
        GLSLTypes::MAT2X2 | GLSLTypes::MAT2X3 | GLSLTypes::MAT2X4 => 2,
        GLSLTypes::MAT3X2 | GLSLTypes::MAT3X3 | GLSLTypes::MAT3X4 => 3,
        GLSLTypes::MAT4X2 | GLSLTypes::MAT4X3 | GLSLTypes::MAT4X4 => 4,
        _ => 1,
    }
}

/// The number of rows of `t`: `N` for an `N`-component vector, `R` for a
/// matrix `matCxR`, 1 for a scalar.
pub open spec fn row_count(t: GLSLTypes) -> int {
    match t {
        GLSLTypes::BVEC2 | GLSLTypes::IVEC2 | GLSLTypes::UVEC2 | GLSLTypes::VEC2 | GLSLTypes::DVEC2 => 2,
        GLSLTypes::BVEC3 | GLSLTypes::IVEC3 | GLSLTypes::UVEC3 | GLSLTypes::VEC3 | GLSLTypes::DVEC3 => 3,
        GLSLTypes::BVEC4 | GLSLTypes::IVEC4 | GLSLTypes::UVEC4 | GLSLTypes::VEC4 | GLSLTypes::DVEC4 => 4,
        GLSLTypes::MAT2X2 | GLSLTypes::MAT3X2 | GLSLTypes::MAT4X2 => 2,
        GLSLTypes::MAT2X3 | GLSLTypes::MAT3X3 | GLSLTypes::MAT4X3 => 3,
        GLSLTypes::MAT2X4 | GLSLTypes::MAT3X4 | GLSLTypes::MAT4X4 => 4,
        _ => 1,
    }
}

/// The GLSL keyword of a scalar type.
pub open spec fn scalar_keyword(c: GLSLTypes) -> Seq<char> {
    match c {
        GLSLTypes::BOOL => seq!['b', 'o', 'o', 'l'],
        GLSLTypes::INT => seq!['i', 'n', 't'],
        GLSLTypes::UINT => seq!['u', 'i', 'n', 't'],
        GLSLTypes::DOUBLE => seq!['d', 'o', 'u', 'b', 'l', 'e'],
        _ => seq!['f', 'l', 'o', 'a', 't'],
    }
}

/// The letter that starts the name of a vector of components of type `c`;
/// none for `float`.
pub open spec fn vector_prefix(c: GLSLTypes) -> Seq<char> {
    match c {
        GLSLTypes::BOOL => seq!['b'],
        GLSLTypes::INT => seq!['i'],
        GLSLTypes::UINT => seq!['u'],
        GLSLTypes::DOUBLE => seq!['d'],
        _ => Seq::empty(),
    }
}

/// The GLSL name built from a shape: a scalar by its keyword, a vector of
/// `rows` components as its prefix, `vec` and the count, a matrix as `mat`,
/// the column count and, unless it is square, `x` and the row count.
pub open spec fn shape_name(component: GLSLTypes, columns: int, rows: int) -> Seq<char> {
    if columns == 1 && rows == 1 {
        scalar_keyword(component)
    } else if columns == 1 {
        vector_prefix(component) + seq!['v', 'e', 'c', crate::text::digit_char(rows)]
    } else if columns == rows {
        seq!['m', 'a', 't', crate::text::digit_char(columns)]
    } else {
        seq!['m', 'a', 't', crate::text::digit_char(columns), 'x', crate::text::digit_char(rows)]
    }
}

/// Each type is written as the GLSL name of its shape: its component type,
/// its column count and its row count. So `vec2`, `vec3` and `vec4` end in
/// their component counts, and `mat3x4` has three columns of four rows.
pub proof fn lemma_type_text_is_shape_name(t: GLSLTypes)
    ensures
        type_text(t) == shape_name(component_type(t), column_count(t), row_count(t)),
        1 <= column_count(t) <= 4,
        1 <= row_count(t) <= 4,
{
    match t {
        GLSLTypes::BOOL => {},
        GLSLTypes::INT => {},
        GLSLTypes::UINT => {},
        GLSLTypes::FLOAT => {},
        GLSLTypes::DOUBLE => {},
        GLSLTypes::BVEC2 => {},
        GLSLTypes::BVEC3 => {},
        GLSLTypes::BVEC4 => {},
        GLSLTypes::IVEC2 => {},
        GLSLTypes::IVEC3 => {},
        GLSLTypes::IVEC4 => {},
        GLSLTypes::UVEC2 => {},
        GLSLTypes::UVEC3 => {},
        GLSLTypes::UVEC4 => {},
        GLSLTypes::VEC2 => {},
        GLSLTypes::VEC3 => {},
        GLSLTypes::VEC4 => {},
        GLSLTypes::DVEC2 => {},
        GLSLTypes::DVEC3 => {},
        GLSLTypes::DVEC4 => {},
        GLSLTypes::MAT2X2 => {},
        GLSLTypes::MAT2X3 => {},
        GLSLTypes::MAT2X4 => {},
        GLSLTypes::MAT3X2 => {},
        GLSLTypes::MAT3X3 => {},
        GLSLTypes::MAT3X4 => {},
        GLSLTypes::MAT4X2 => {},
        GLSLTypes::MAT4X3 => {},
        GLSLTypes::MAT4X4 => {},
    }
}

impl GLSLCompleteMode {
    pub fn to_string(&self) -> (res: String)
        ensures
            res@ == complete_mode_text(*self),
    {
        let from = match self {
            GLSLCompleteMode::Smooth => "",
            GLSLCompleteMode::Flat => "flat",
        };
        from.to_string()
    }
}

impl GLSLDirection {
    pub fn to_string(&self) -> (res: String)
        ensures
            res@ == direction_text(*self),
    {
        let from = match self {
            GLSLDirection::IN => "in",
            GLSLDirection::OUT => "out",
            GLSLDirection::INOUT => "inout",
        };
        from.to_string()
    }
}

impl GLSLTypes {
    pub fn to_string(&self) -> (res: String)
        ensures
            res@ == type_text(*self),
            res@ == shape_name(component_type(*self), column_count(*self), row_count(*self)),
    {
        proof {
            lemma_type_text_is_shape_name(*self);
        }
        let from = match self {
            GLSLTypes::BOOL => {
                proof {
                    reveal_strlit("bool");
                }
                "bool"
            },
            GLSLTypes::INT => {
                proof {
                    reveal_strlit("int");
                }
                "int"
            },
            GLSLTypes::UINT => {
                proof {
                    reveal_strlit("uint");
                }
                "uint"
            },
            GLSLTypes::FLOAT => {
                proof {
                    reveal_strlit("float");
                }
                "float"
            },
            GLSLTypes::DOUBLE => {
                proof {
                    reveal_strlit("double");
                }
                "double"
            },
            GLSLTypes::BVEC2 => {
                proof {
                    reveal_strlit("bvec2");
                }
                "bvec2"
            },
            GLSLTypes::BVEC3 => {
                proof {
                    reveal_strlit("bvec3");
                }
                "bvec3"
            },
            GLSLTypes::BVEC4 => {
                proof {
                    reveal_strlit("bvec4");
                }
                "bvec4"
            },
            GLSLTypes::IVEC2 => {
                proof {
                    reveal_strlit("ivec2");
                }
                "ivec2"
            },
            GLSLTypes::IVEC3 => {
                proof {
                    reveal_strlit("ivec3");
                }
                "ivec3"
            },
            GLSLTypes::IVEC4 => {
                proof {
                    reveal_strlit("ivec4");
                }
                "ivec4"
            },
            GLSLTypes::UVEC2 => {
                proof {
                    reveal_strlit("uvec2");
                }
                "uvec2"
            },
            GLSLTypes::UVEC3 => {
                proof {
                    reveal_strlit("uvec3");
                }
                "uvec3"
            },
            GLSLTypes::UVEC4 => {
                proof {
                    reveal_strlit("uvec4");
                }
                "uvec4"
            },
            GLSLTypes::VEC2 => {
                proof {
                    reveal_strlit("vec2");
                }
                "vec2"
            },
            GLSLTypes::VEC3 => {
                proof {
                    reveal_strlit("vec3");
                }
                "vec3"
            },
            GLSLTypes::VEC4 => {
                proof {
                    reveal_strlit("vec4");
                }
                "vec4"
            },
            GLSLTypes::DVEC2 => {
                proof {
                    reveal_strlit("dvec2");
                }
                "dvec2"
            },
            GLSLTypes::DVEC3 => {
                proof {
                    reveal_strlit("dvec3");
                }
                "dvec3"
            },
            GLSLTypes::DVEC4 => {
                proof {
                    reveal_strlit("dvec4");
                }
                "dvec4"
            },
            GLSLTypes::MAT2X2 => {
                proof {
                    reveal_strlit("mat2");
                }
                "mat2"
            },
            GLSLTypes::MAT2X3 => {
                proof {
                    reveal_strlit("mat2x3");
                }
                "mat2x3"
            },
            GLSLTypes::MAT2X4 => {
                proof {
                    reveal_strlit("mat2x4");
                }
                "mat2x4"
            },
            GLSLTypes::MAT3X2 => {
                proof {
                    reveal_strlit("mat3x2");
                }
                "mat3x2"
            },
            GLSLTypes::MAT3X3 => {
                proof {
                    reveal_strlit("mat3");
                }
                "mat3"
            },
            GLSLTypes::MAT3X4 => {
                proof {
                    reveal_strlit("mat3x4");
                }
                "mat3x4"
            },
            GLSLTypes::MAT4X2 => {
                proof {
                    reveal_strlit("mat4x2");
                }
                "mat4x2"
            },
            GLSLTypes::MAT4X3 => {
                proof {
                    reveal_strlit("mat4x3");
                }
                "mat4x3"
            },
            GLSLTypes::MAT4X4 => {
                proof {
                    reveal_strlit("mat4");
                }
                "mat4"
            },
        };
        assert(from@ =~= type_text(*self));
        from.to_string()
    }
}

/// A uniform of a descriptor set.
pub struct UniformTableEntry {
    pub set: u32,
    pub binding: u32,
    pub types: GLSLTypes,
    pub name: String,
}

/// A stage input or output at a location.
pub struct InOutTableEntry {
    pub complete: GLSLCompleteMode,
    pub location: u32,
    pub direction: GLSLDirection,
    pub types: GLSLTypes,
    pub name: String,
}

/// The declaration line of a stage variable.
pub open spec fn in_out_text(e: InOutTableEntry) -> Seq<char> {
    complete_mode_text(e.complete) + " "@ + "layout( location = "@ + decimal(e.location as nat)
        + " ) "@ + direction_text(e.direction) + " "@ + type_text(e.types) + " "@ + e.name@
}

/// The declaration line of a uniform.
pub open spec fn uniform_text(e: UniformTableEntry) -> Seq<char> {
    "uniform"@ + " layout ("@ + " set = "@ + decimal(e.set as nat) + " , binding = "@ + decimal(
        e.binding as nat,
    ) + " ) "@ + type_text(e.types) + " "@ + e.name@ + " ;"@
}

impl InOutTableEntry {
    pub fn to_string(&self) -> (res: String)
        ensures
            res@ == in_out_text(*self),
    {
        let mut entry = String::new();
        entry.append(self.complete.to_string().as_str());
        entry.append(" ");
        entry.append("layout( location = ");
        entry.append(u32_to_decimal(self.location).as_str());
        entry.append(" ) ");
        entry.append(self.direction.to_string().as_str());
        entry.append(" ");
        entry.append(self.types.to_string().as_str());
        entry.append(" ");
        entry.append(self.name.as_str());
        proof {
            assert(entry@ =~= in_out_text(*self));
        }
        entry
    }
}

impl UniformTableEntry {
    pub fn to_string(&self) -> (res: String)
        ensures
            res@ == uniform_text(*self),
    {
        let mut entry = String::new();
        entry.append("uniform");
        entry.append(" layout (");
        entry.append(" set = ");
        entry.append(u32_to_decimal(self.set).as_str());
        entry.append(" , binding = ");
        entry.append(u32_to_decimal(self.binding).as_str());
        entry.append(" ) ");
        entry.append(self.types.to_string().as_str());
        entry.append(" ");
        entry.append(self.name.as_str());
        entry.append(" ;");
        proof {
            assert(entry@ =~= uniform_text(*self));
        }
        entry
    }
}

/// A GLSL type keyword: lower-case letters and digits, at least one.
pub open spec fn is_keyword_text(s: Seq<char>) -> bool {
    &&& s.len() >= 1
    &&& forall|i: int| 0 <= i < s.len() ==> ('a' <= #[trigger] s[i] && s[i] <= 'z') || ('0' <= s[i] && s[i] <= '9')
}

proof fn lemma_only_bool_is_spelled_so(b: GLSLTypes)
    ensures
        type_text(b) == type_text(GLSLTypes::BOOL) ==> b == GLSLTypes::BOOL,
{
    match b {
        GLSLTypes::BOOL => {},
        GLSLTypes::INT => assert(type_text(b).len() != type_text(GLSLTypes::BOOL).len()),
        GLSLTypes::UINT => assert(type_text(b)[0] != type_text(GLSLTypes::BOOL)[0]),
        GLSLTypes::FLOAT => assert(type_text(b).len() != type_text(GLSLTypes::BOOL).len()),
        GLSLTypes::DOUBLE => assert(type_text(b).len() != type_text(GLSLTypes::BOOL).len()),
        GLSLTypes::BVEC2 => assert(type_text(b).len() != type_text(GLSLTypes::BOOL).len()),
        GLSLTypes::BVEC3 => assert(type_text(b).len() != type_text(GLSLTypes::BOOL).len()),
        GLSLTypes::BVEC4 => assert(type_text(b).len() != type_text(GLSLTypes::BOOL).len()),
        GLSLTypes::IVEC2 => assert(type_text(b).len() != type_text(GLSLTypes::BOOL).len()),
        GLSLTypes::IVEC3 => assert(type_text(b).len() != type_text(GLSLTypes::BOOL).len()),
        GLSLTypes::IVEC4 => assert(type_text(b).len() != type_text(GLSLTypes::BOOL).len()),
        GLSLTypes::UVEC2 => assert(type_text(b).len() != type_text(GLSLTypes::BOOL).len()),
        GLSLTypes::UVEC3 => assert(type_text(b).len() != type_text(GLSLTypes::BOOL).len()),
        GLSLTypes::UVEC4 => assert(type_text(b).len() != type_text(GLSLTypes::BOOL).len()),
        GLSLTypes::VEC2 => assert(type_text(b)[0] != type_text(GLSLTypes::BOOL)[0]),
        GLSLTypes::VEC3 => assert(type_text(b)[0] != type_text(GLSLTypes::BOOL)[0]),
        GLSLTypes::VEC4 => assert(type_text(b)[0] != type_text(GLSLTypes::BOOL)[0]),
        GLSLTypes::DVEC2 => assert(type_text(b).len() != type_text(GLSLTypes::BOOL).len()),
        GLSLTypes::DVEC3 => assert(type_text(b).len() != type_text(GLSLTypes::BOOL).len()),
        GLSLTypes::DVEC4 => assert(type_text(b).len() != type_text(GLSLTypes::BOOL).len()),
        GLSLTypes::MAT2X2 => assert(type_text(b)[0] != type_text(GLSLTypes::BOOL)[0]),
        GLSLTypes::MAT2X3 => assert(type_text(b).len() != type_text(GLSLTypes::BOOL).len()),
        GLSLTypes::MAT2X4 => assert(type_text(b).len() != type_text(GLSLTypes::BOOL).len()),
        GLSLTypes::MAT3X2 => assert(type_text(b).len() != type_text(GLSLTypes::BOOL).len()),
        GLSLTypes::MAT3X3 => assert(type_text(b)[0] != type_text(GLSLTypes::BOOL)[0]),
        GLSLTypes::MAT3X4 => assert(type_text(b).len() != type_text(GLSLTypes::BOOL).len()),
        GLSLTypes::MAT4X2 => assert(type_text(b).len() != type_text(GLSLTypes::BOOL).len()),
        GLSLTypes::MAT4X3 => assert(type_text(b).len() != type_text(GLSLTypes::BOOL).len()),
        GLSLTypes::MAT4X4 => assert(type_text(b)[0] != type_text(GLSLTypes::BOOL)[0]),
    }
}

proof fn lemma_only_int_is_spelled_so(b: GLSLTypes)
    ensures
        type_text(b) == type_text(GLSLTypes::INT) ==> b == GLSLTypes::INT,
{
    match b {
        GLSLTypes::BOOL => assert(type_text(b).len() != type_text(GLSLTypes::INT).len()),
        GLSLTypes::INT => {},
        GLSLTypes::UINT => assert(type_text(b).len() != type_text(GLSLTypes::INT).len()),
        GLSLTypes::FLOAT => assert(type_text(b).len() != type_text(GLSLTypes::INT).len()),
        GLSLTypes::DOUBLE => assert(type_text(b).len() != type_text(GLSLTypes::INT).len()),
        GLSLTypes::BVEC2 => assert(type_text(b).len() != type_text(GLSLTypes::INT).len()),
        GLSLTypes::BVEC3 => assert(type_text(b).len() != type_text(GLSLTypes::INT).len()),
        GLSLTypes::BVEC4 => assert(type_text(b).len() != type_text(GLSLTypes::INT).len()),
        GLSLTypes::IVEC2 => assert(type_text(b).len() != type_text(GLSLTypes::INT).len()),
        GLSLTypes::IVEC3 => assert(type_text(b).len() != type_text(GLSLTypes::INT).len()),
        GLSLTypes::IVEC4 => assert(type_text(b).len() != type_text(GLSLTypes::INT).len()),
        GLSLTypes::UVEC2 => assert(type_text(b).len() != type_text(GLSLTypes::INT).len()),
        GLSLTypes::UVEC3 => assert(type_text(b).len() != type_text(GLSLTypes::INT).len()),
        GLSLTypes::UVEC4 => assert(type_text(b).len() != type_text(GLSLTypes::INT).len()),
        GLSLTypes::VEC2 => assert(type_text(b).len() != type_text(GLSLTypes::INT).len()),
        GLSLTypes::VEC3 => assert(type_text(b).len() != type_text(GLSLTypes::INT).len()),
        GLSLTypes::VEC4 => assert(type_text(b).len() != type_text(GLSLTypes::INT).len()),
        GLSLTypes::DVEC2 => assert(type_text(b).len() != type_text(GLSLTypes::INT).len()),
        GLSLTypes::DVEC3 => assert(type_text(b).len() != type_text(GLSLTypes::INT).len()),
        GLSLTypes::DVEC4 => assert(type_text(b).len() != type_text(GLSLTypes::INT).len()),
        GLSLTypes::MAT2X2 => assert(type_text(b).len() != type_text(GLSLTypes::INT).len()),
        GLSLTypes::MAT2X3 => assert(type_text(b).len() != type_text(GLSLTypes::INT).len()),
        GLSLTypes::MAT2X4 => assert(type_text(b).len() != type_text(GLSLTypes::INT).len()),
        GLSLTypes::MAT3X2 => assert(type_text(b).len() != type_text(GLSLTypes::INT).len()),
        GLSLTypes::MAT3X3 => assert(type_text(b).len() != type_text(GLSLTypes::INT).len()),
        GLSLTypes::MAT3X4 => assert(type_text(b).len() != type_text(GLSLTypes::INT).len()),
        GLSLTypes::MAT4X2 => assert(type_text(b).len() != type_text(GLSLTypes::INT).len()),
        GLSLTypes::MAT4X3 => assert(type_text(b).len() != type_text(GLSLTypes::INT).len()),
        GLSLTypes::MAT4X4 => assert(type_text(b).len() != type_text(GLSLTypes::INT).len()),
    }
}

proof fn lemma_only_uint_is_spelled_so(b: GLSLTypes)
    ensures
        type_text(b) == type_text(GLSLTypes::UINT) ==> b == GLSLTypes::UINT,
{
    match b {
        GLSLTypes::BOOL => assert(type_text(b)[0] != type_text(GLSLTypes::UINT)[0]),
        GLSLTypes::INT => assert(type_text(b).len() != type_text(GLSLTypes::UINT).len()),
        GLSLTypes::UINT => {},
        GLSLTypes::FLOAT => assert(type_text(b).len() != type_text(GLSLTypes::UINT).len()),
        GLSLTypes::DOUBLE => assert(type_text(b).len() != type_text(GLSLTypes::UINT).len()),
        GLSLTypes::BVEC2 => assert(type_text(b).len() != type_text(GLSLTypes::UINT).len()),
        GLSLTypes::BVEC3 => assert(type_text(b).len() != type_text(GLSLTypes::UINT).len()),
        GLSLTypes::BVEC4 => assert(type_text(b).len() != type_text(GLSLTypes::UINT).len()),
        GLSLTypes::IVEC2 => assert(type_text(b).len() != type_text(GLSLTypes::UINT).len()),
        GLSLTypes::IVEC3 => assert(type_text(b).len() != type_text(GLSLTypes::UINT).len()),
        GLSLTypes::IVEC4 => assert(type_text(b).len() != type_text(GLSLTypes::UINT).len()),
        GLSLTypes::UVEC2 => assert(type_text(b).len() != type_text(GLSLTypes::UINT).len()),
        GLSLTypes::UVEC3 => assert(type_text(b).len() != type_text(GLSLTypes::UINT).len()),
        GLSLTypes::UVEC4 => assert(type_text(b).len() != type_text(GLSLTypes::UINT).len()),
        GLSLTypes::VEC2 => assert(type_text(b)[0] != type_text(GLSLTypes::UINT)[0]),
        GLSLTypes::VEC3 => assert(type_text(b)[0] != type_text(GLSLTypes::UINT)[0]),
        GLSLTypes::VEC4 => assert(type_text(b)[0] != type_text(GLSLTypes::UINT)[0]),
        GLSLTypes::DVEC2 => assert(type_text(b).len() != type_text(GLSLTypes::UINT).len()),
        GLSLTypes::DVEC3 => assert(type_text(b).len() != type_text(GLSLTypes::UINT).len()),
        GLSLTypes::DVEC4 => assert(type_text(b).len() != type_text(GLSLTypes::UINT).len()),
        GLSLTypes::MAT2X2 => assert(type_text(b)[0] != type_text(GLSLTypes::UINT)[0]),
        GLSLTypes::MAT2X3 => assert(type_text(b).len() != type_text(GLSLTypes::UINT).len()),
        GLSLTypes::MAT2X4 => assert(type_text(b).len() != type_text(GLSLTypes::UINT).len()),
        GLSLTypes::MAT3X2 => assert(type_text(b).len() != type_text(GLSLTypes::UINT).len()),
        GLSLTypes::MAT3X3 => assert(type_text(b)[0] != type_text(GLSLTypes::UINT)[0]),
        GLSLTypes::MAT3X4 => assert(type_text(b).len() != type_text(GLSLTypes::UINT).len()),
        GLSLTypes::MAT4X2 => assert(type_text(b).len() != type_text(GLSLTypes::UINT).len()),
        GLSLTypes::MAT4X3 => assert(type_text(b).len() != type_text(GLSLTypes::UINT).len()),
        GLSLTypes::MAT4X4 => assert(type_text(b)[0] != type_text(GLSLTypes::UINT)[0]),
    }
}

proof fn lemma_only_float_is_spelled_so(b: GLSLTypes)
    ensures
        type_text(b) == type_text(GLSLTypes::FLOAT) ==> b == GLSLTypes::FLOAT,
{
    match b {
        GLSLTypes::BOOL => assert(type_text(b).len() != type_text(GLSLTypes::FLOAT).len()),
        GLSLTypes::INT => assert(type_text(b).len() != type_text(GLSLTypes::FLOAT).len()),
        GLSLTypes::UINT => assert(type_text(b).len() != type_text(GLSLTypes::FLOAT).len()),
        GLSLTypes::FLOAT => {},
        GLSLTypes::DOUBLE => assert(type_text(b).len() != type_text(GLSLTypes::FLOAT).len()),
        GLSLTypes::BVEC2 => assert(type_text(b)[0] != type_text(GLSLTypes::FLOAT)[0]),
        GLSLTypes::BVEC3 => assert(type_text(b)[0] != type_text(GLSLTypes::FLOAT)[0]),
        GLSLTypes::BVEC4 => assert(type_text(b)[0] != type_text(GLSLTypes::FLOAT)[0]),
        GLSLTypes::IVEC2 => assert(type_text(b)[0] != type_text(GLSLTypes::FLOAT)[0]),
        GLSLTypes::IVEC3 => assert(type_text(b)[0] != type_text(GLSLTypes::FLOAT)[0]),
        GLSLTypes::IVEC4 => assert(type_text(b)[0] != type_text(GLSLTypes::FLOAT)[0]),
        GLSLTypes::UVEC2 => assert(type_text(b)[0] != type_text(GLSLTypes::FLOAT)[0]),
        GLSLTypes::UVEC3 => assert(type_text(b)[0] != type_text(GLSLTypes::FLOAT)[0]),
        GLSLTypes::UVEC4 => assert(type_text(b)[0] != type_text(GLSLTypes::FLOAT)[0]),
        GLSLTypes::VEC2 => assert(type_text(b).len() != type_text(GLSLTypes::FLOAT).len()),
        GLSLTypes::VEC3 => assert(type_text(b).len() != type_text(GLSLTypes::FLOAT).len()),
        GLSLTypes::VEC4 => assert(type_text(b).len() != type_text(GLSLTypes::FLOAT).len()),
        GLSLTypes::DVEC2 => assert(type_text(b)[0] != type_text(GLSLTypes::FLOAT)[0]),
        GLSLTypes::DVEC3 => assert(type_text(b)[0] != type_text(GLSLTypes::FLOAT)[0]),
        GLSLTypes::DVEC4 => assert(type_text(b)[0] != type_text(GLSLTypes::FLOAT)[0]),
        GLSLTypes::MAT2X2 => assert(type_text(b).len() != type_text(GLSLTypes::FLOAT).len()),
        GLSLTypes::MAT2X3 => assert(type_text(b).len() != type_text(GLSLTypes::FLOAT).len()),
        GLSLTypes::MAT2X4 => assert(type_text(b).len() != type_text(GLSLTypes::FLOAT).len()),
        GLSLTypes::MAT3X2 => assert(type_text(b).len() != type_text(GLSLTypes::FLOAT).len()),
        GLSLTypes::MAT3X3 => assert(type_text(b).len() != type_text(GLSLTypes::FLOAT).len()),
        GLSLTypes::MAT3X4 => assert(type_text(b).len() != type_text(GLSLTypes::FLOAT).len()),
        GLSLTypes::MAT4X2 => assert(type_text(b).len() != type_text(GLSLTypes::FLOAT).len()),
        GLSLTypes::MAT4X3 => assert(type_text(b).len() != type_text(GLSLTypes::FLOAT).len()),
        GLSLTypes::MAT4X4 => assert(type_text(b).len() != type_text(GLSLTypes::FLOAT).len()),
    }
}

proof fn lemma_only_double_is_spelled_so(b: GLSLTypes)
    ensures
        type_text(b) == type_text(GLSLTypes::DOUBLE) ==> b == GLSLTypes::DOUBLE,
{
    match b {
        GLSLTypes::BOOL => assert(type_text(b).len() != type_text(GLSLTypes::DOUBLE).len()),
        GLSLTypes::INT => assert(type_text(b).len() != type_text(GLSLTypes::DOUBLE).len()),
        GLSLTypes::UINT => assert(type_text(b).len() != type_text(GLSLTypes::DOUBLE).len()),
        GLSLTypes::FLOAT => assert(type_text(b).len() != type_text(GLSLTypes::DOUBLE).len()),
        GLSLTypes::DOUBLE => {},
        GLSLTypes::BVEC2 => assert(type_text(b).len() != type_text(GLSLTypes::DOUBLE).len()),
        GLSLTypes::BVEC3 => assert(type_text(b).len() != type_text(GLSLTypes::DOUBLE).len()),
        GLSLTypes::BVEC4 => assert(type_text(b).len() != type_text(GLSLTypes::DOUBLE).len()),
        GLSLTypes::IVEC2 => assert(type_text(b).len() != type_text(GLSLTypes::DOUBLE).len()),
        GLSLTypes::IVEC3 => assert(type_text(b).len() != type_text(GLSLTypes::DOUBLE).len()),
        GLSLTypes::IVEC4 => assert(type_text(b).len() != type_text(GLSLTypes::DOUBLE).len()),
        GLSLTypes::UVEC2 => assert(type_text(b).len() != type_text(GLSLTypes::DOUBLE).len()),
        GLSLTypes::UVEC3 => assert(type_text(b).len() != type_text(GLSLTypes::DOUBLE).len()),
        GLSLTypes::UVEC4 => assert(type_text(b).len() != type_text(GLSLTypes::DOUBLE).len()),
        GLSLTypes::VEC2 => assert(type_text(b).len() != type_text(GLSLTypes::DOUBLE).len()),
        GLSLTypes::VEC3 => assert(type_text(b).len() != type_text(GLSLTypes::DOUBLE).len()),
        GLSLTypes::VEC4 => assert(type_text(b).len() != type_text(GLSLTypes::DOUBLE).len()),
        GLSLTypes::DVEC2 => assert(type_text(b).len() != type_text(GLSLTypes::DOUBLE).len()),
        GLSLTypes::DVEC3 => assert(type_text(b).len() != type_text(GLSLTypes::DOUBLE).len()),
        GLSLTypes::DVEC4 => assert(type_text(b).len() != type_text(GLSLTypes::DOUBLE).len()),
        GLSLTypes::MAT2X2 => assert(type_text(b).len() != type_text(GLSLTypes::DOUBLE).len()),
        GLSLTypes::MAT2X3 => assert(type_text(b)[0] != type_text(GLSLTypes::DOUBLE)[0]),
        GLSLTypes::MAT2X4 => assert(type_text(b)[0] != type_text(GLSLTypes::DOUBLE)[0]),
        GLSLTypes::MAT3X2 => assert(type_text(b)[0] != type_text(GLSLTypes::DOUBLE)[0]),
        GLSLTypes::MAT3X3 => assert(type_text(b).len() != type_text(GLSLTypes::DOUBLE).len()),
        GLSLTypes::MAT3X4 => assert(type_text(b)[0] != type_text(GLSLTypes::DOUBLE)[0]),
        GLSLTypes::MAT4X2 => assert(type_text(b)[0] != type_text(GLSLTypes::DOUBLE)[0]),
        GLSLTypes::MAT4X3 => assert(type_text(b)[0] != type_text(GLSLTypes::DOUBLE)[0]),
        GLSLTypes::MAT4X4 => assert(type_text(b).len() != type_text(GLSLTypes::DOUBLE).len()),
    }
}

proof fn lemma_only_bvec2_is_spelled_so(b: GLSLTypes)
    ensures
        type_text(b) == type_text(GLSLTypes::BVEC2) ==> b == GLSLTypes::BVEC2,
{
    match b {
        GLSLTypes::BOOL => assert(type_text(b).len() != type_text(GLSLTypes::BVEC2).len()),
        GLSLTypes::INT => assert(type_text(b).len() != type_text(GLSLTypes::BVEC2).len()),
        GLSLTypes::UINT => assert(type_text(b).len() != type_text(GLSLTypes::BVEC2).len()),
        GLSLTypes::FLOAT => assert(type_text(b)[0] != type_text(GLSLTypes::BVEC2)[0]),
        GLSLTypes::DOUBLE => assert(type_text(b).len() != type_text(GLSLTypes::BVEC2).len()),
        GLSLTypes::BVEC2 => {},
        GLSLTypes::BVEC3 => assert(type_text(b)[4] != type_text(GLSLTypes::BVEC2)[4]),
        GLSLTypes::BVEC4 => assert(type_text(b)[4] != type_text(GLSLTypes::BVEC2)[4]),
        GLSLTypes::IVEC2 => assert(type_text(b)[0] != type_text(GLSLTypes::BVEC2)[0]),
        GLSLTypes::IVEC3 => assert(type_text(b)[0] != type_text(GLSLTypes::BVEC2)[0]),
        GLSLTypes::IVEC4 => assert(type_text(b)[0] != type_text(GLSLTypes::BVEC2)[0]),
        GLSLTypes::UVEC2 => assert(type_text(b)[0] != type_text(GLSLTypes::BVEC2)[0]),
        GLSLTypes::UVEC3 => assert(type_text(b)[0] != type_text(GLSLTypes::BVEC2)[0]),
        GLSLTypes::UVEC4 => assert(type_text(b)[0] != type_text(GLSLTypes::BVEC2)[0]),
        GLSLTypes::VEC2 => assert(type_text(b).len() != type_text(GLSLTypes::BVEC2).len()),
        GLSLTypes::VEC3 => assert(type_text(b).len() != type_text(GLSLTypes::BVEC2).len()),
        GLSLTypes::VEC4 => assert(type_text(b).len() != type_text(GLSLTypes::BVEC2).len()),
        GLSLTypes::DVEC2 => assert(type_text(b)[0] != type_text(GLSLTypes::BVEC2)[0]),
        GLSLTypes::DVEC3 => assert(type_text(b)[0] != type_text(GLSLTypes::BVEC2)[0]),
        GLSLTypes::DVEC4 => assert(type_text(b)[0] != type_text(GLSLTypes::BVEC2)[0]),
        GLSLTypes::MAT2X2 => assert(type_text(b).len() != type_text(GLSLTypes::BVEC2).len()),
        GLSLTypes::MAT2X3 => assert(type_text(b).len() != type_text(GLSLTypes::BVEC2).len()),
        GLSLTypes::MAT2X4 => assert(type_text(b).len() != type_text(GLSLTypes::BVEC2).len()),
        GLSLTypes::MAT3X2 => assert(type_text(b).len() != type_text(GLSLTypes::BVEC2).len()),
        GLSLTypes::MAT3X3 => assert(type_text(b).len() != type_text(GLSLTypes::BVEC2).len()),
        GLSLTypes::MAT3X4 => assert(type_text(b).len() != type_text(GLSLTypes::BVEC2).len()),
        GLSLTypes::MAT4X2 => assert(type_text(b).len() != type_text(GLSLTypes::BVEC2).len()),
        GLSLTypes::MAT4X3 => assert(type_text(b).len() != type_text(GLSLTypes::BVEC2).len()),
        GLSLTypes::MAT4X4 => assert(type_text(b).len() != type_text(GLSLTypes::BVEC2).len()),
    }
}

proof fn lemma_only_bvec3_is_spelled_so(b: GLSLTypes)
    ensures
        type_text(b) == type_text(GLSLTypes::BVEC3) ==> b == GLSLTypes::BVEC3,
{
    match b {
        GLSLTypes::BOOL => assert(type_text(b).len() != type_text(GLSLTypes::BVEC3).len()),
        GLSLTypes::INT => assert(type_text(b).len() != type_text(GLSLTypes::BVEC3).len()),
        GLSLTypes::UINT => assert(type_text(b).len() != type_text(GLSLTypes::BVEC3).len()),
        GLSLTypes::FLOAT => assert(type_text(b)[0] != type_text(GLSLTypes::BVEC3)[0]),
        GLSLTypes::DOUBLE => assert(type_text(b).len() != type_text(GLSLTypes::BVEC3).len()),
        GLSLTypes::BVEC2 => assert(type_text(b)[4] != type_text(GLSLTypes::BVEC3)[4]),
        GLSLTypes::BVEC3 => {},
        GLSLTypes::BVEC4 => assert(type_text(b)[4] != type_text(GLSLTypes::BVEC3)[4]),
        GLSLTypes::IVEC2 => assert(type_text(b)[0] != type_text(GLSLTypes::BVEC3)[0]),
        GLSLTypes::IVEC3 => assert(type_text(b)[0] != type_text(GLSLTypes::BVEC3)[0]),
        GLSLTypes::IVEC4 => assert(type_text(b)[0] != type_text(GLSLTypes::BVEC3)[0]),
        GLSLTypes::UVEC2 => assert(type_text(b)[0] != type_text(GLSLTypes::BVEC3)[0]),
        GLSLTypes::UVEC3 => assert(type_text(b)[0] != type_text(GLSLTypes::BVEC3)[0]),
        GLSLTypes::UVEC4 => assert(type_text(b)[0] != type_text(GLSLTypes::BVEC3)[0]),
        GLSLTypes::VEC2 => assert(type_text(b).len() != type_text(GLSLTypes::BVEC3).len()),
        GLSLTypes::VEC3 => assert(type_text(b).len() != type_text(GLSLTypes::BVEC3).len()),
        GLSLTypes::VEC4 => assert(type_text(b).len() != type_text(GLSLTypes::BVEC3).len()),
        GLSLTypes::DVEC2 => assert(type_text(b)[0] != type_text(GLSLTypes::BVEC3)[0]),
        GLSLTypes::DVEC3 => assert(type_text(b)[0] != type_text(GLSLTypes::BVEC3)[0]),
        GLSLTypes::DVEC4 => assert(type_text(b)[0] != type_text(GLSLTypes::BVEC3)[0]),
        GLSLTypes::MAT2X2 => assert(type_text(b).len() != type_text(GLSLTypes::BVEC3).len()),
        GLSLTypes::MAT2X3 => assert(type_text(b).len() != type_text(GLSLTypes::BVEC3).len()),
        GLSLTypes::MAT2X4 => assert(type_text(b).len() != type_text(GLSLTypes::BVEC3).len()),
        GLSLTypes::MAT3X2 => assert(type_text(b).len() != type_text(GLSLTypes::BVEC3).len()),
        GLSLTypes::MAT3X3 => assert(type_text(b).len() != type_text(GLSLTypes::BVEC3).len()),
        GLSLTypes::MAT3X4 => assert(type_text(b).len() != type_text(GLSLTypes::BVEC3).len()),
        GLSLTypes::MAT4X2 => assert(type_text(b).len() != type_text(GLSLTypes::BVEC3).len()),
        GLSLTypes::MAT4X3 => assert(type_text(b).len() != type_text(GLSLTypes::BVEC3).len()),
        GLSLTypes::MAT4X4 => assert(type_text(b).len() != type_text(GLSLTypes::BVEC3).len()),
    }
}

proof fn lemma_only_bvec4_is_spelled_so(b: GLSLTypes)
    ensures
        type_text(b) == type_text(GLSLTypes::BVEC4) ==> b == GLSLTypes::BVEC4,
{
    match b {
        GLSLTypes::BOOL => assert(type_text(b).len() != type_text(GLSLTypes::BVEC4).len()),
        GLSLTypes::INT => assert(type_text(b).len() != type_text(GLSLTypes::BVEC4).len()),
        GLSLTypes::UINT => assert(type_text(b).len() != type_text(GLSLTypes::BVEC4).len()),
        GLSLTypes::FLOAT => assert(type_text(b)[0] != type_text(GLSLTypes::BVEC4)[0]),
        GLSLTypes::DOUBLE => assert(type_text(b).len() != type_text(GLSLTypes::BVEC4).len()),
        GLSLTypes::BVEC2 => assert(type_text(b)[4] != type_text(GLSLTypes::BVEC4)[4]),
        GLSLTypes::BVEC3 => assert(type_text(b)[4] != type_text(GLSLTypes::BVEC4)[4]),
        GLSLTypes::BVEC4 => {},
        GLSLTypes::IVEC2 => assert(type_text(b)[0] != type_text(GLSLTypes::BVEC4)[0]),
        GLSLTypes::IVEC3 => assert(type_text(b)[0] != type_text(GLSLTypes::BVEC4)[0]),
        GLSLTypes::IVEC4 => assert(type_text(b)[0] != type_text(GLSLTypes::BVEC4)[0]),
        GLSLTypes::UVEC2 => assert(type_text(b)[0] != type_text(GLSLTypes::BVEC4)[0]),
        GLSLTypes::UVEC3 => assert(type_text(b)[0] != type_text(GLSLTypes::BVEC4)[0]),
        GLSLTypes::UVEC4 => assert(type_text(b)[0] != type_text(GLSLTypes::BVEC4)[0]),
        GLSLTypes::VEC2 => assert(type_text(b).len() != type_text(GLSLTypes::BVEC4).len()),
        GLSLTypes::VEC3 => assert(type_text(b).len() != type_text(GLSLTypes::BVEC4).len()),
        GLSLTypes::VEC4 => assert(type_text(b).len() != type_text(GLSLTypes::BVEC4).len()),
        GLSLTypes::DVEC2 => assert(type_text(b)[0] != type_text(GLSLTypes::BVEC4)[0]),
        GLSLTypes::DVEC3 => assert(type_text(b)[0] != type_text(GLSLTypes::BVEC4)[0]),
        GLSLTypes::DVEC4 => assert(type_text(b)[0] != type_text(GLSLTypes::BVEC4)[0]),
        GLSLTypes::MAT2X2 => assert(type_text(b).len() != type_text(GLSLTypes::BVEC4).len()),
        GLSLTypes::MAT2X3 => assert(type_text(b).len() != type_text(GLSLTypes::BVEC4).len()),
        GLSLTypes::MAT2X4 => assert(type_text(b).len() != type_text(GLSLTypes::BVEC4).len()),
        GLSLTypes::MAT3X2 => assert(type_text(b).len() != type_text(GLSLTypes::BVEC4).len()),
        GLSLTypes::MAT3X3 => assert(type_text(b).len() != type_text(GLSLTypes::BVEC4).len()),
        GLSLTypes::MAT3X4 => assert(type_text(b).len() != type_text(GLSLTypes::BVEC4).len()),
        GLSLTypes::MAT4X2 => assert(type_text(b).len() != type_text(GLSLTypes::BVEC4).len()),
        GLSLTypes::MAT4X3 => assert(type_text(b).len() != type_text(GLSLTypes::BVEC4).len()),
        GLSLTypes::MAT4X4 => assert(type_text(b).len() != type_text(GLSLTypes::BVEC4).len()),
    }
}

proof fn lemma_only_ivec2_is_spelled_so(b: GLSLTypes)
    ensures
        type_text(b) == type_text(GLSLTypes::IVEC2) ==> b == GLSLTypes::IVEC2,
{
    match b {
        GLSLTypes::BOOL => assert(type_text(b).len() != type_text(GLSLTypes::IVEC2).len()),
        GLSLTypes::INT => assert(type_text(b).len() != type_text(GLSLTypes::IVEC2).len()),
        GLSLTypes::UINT => assert(type_text(b).len() != type_text(GLSLTypes::IVEC2).len()),
        GLSLTypes::FLOAT => assert(type_text(b)[0] != type_text(GLSLTypes::IVEC2)[0]),
        GLSLTypes::DOUBLE => assert(type_text(b).len() != type_text(GLSLTypes::IVEC2).len()),
        GLSLTypes::BVEC2 => assert(type_text(b)[0] != type_text(GLSLTypes::IVEC2)[0]),
        GLSLTypes::BVEC3 => assert(type_text(b)[0] != type_text(GLSLTypes::IVEC2)[0]),
        GLSLTypes::BVEC4 => assert(type_text(b)[0] != type_text(GLSLTypes::IVEC2)[0]),
        GLSLTypes::IVEC2 => {},
        GLSLTypes::IVEC3 => assert(type_text(b)[4] != type_text(GLSLTypes::IVEC2)[4]),
        GLSLTypes::IVEC4 => assert(type_text(b)[4] != type_text(GLSLTypes::IVEC2)[4]),
        GLSLTypes::UVEC2 => assert(type_text(b)[0] != type_text(GLSLTypes::IVEC2)[0]),
        GLSLTypes::UVEC3 => assert(type_text(b)[0] != type_text(GLSLTypes::IVEC2)[0]),
        GLSLTypes::UVEC4 => assert(type_text(b)[0] != type_text(GLSLTypes::IVEC2)[0]),
        GLSLTypes::VEC2 => assert(type_text(b).len() != type_text(GLSLTypes::IVEC2).len()),
        GLSLTypes::VEC3 => assert(type_text(b).len() != type_text(GLSLTypes::IVEC2).len()),
        GLSLTypes::VEC4 => assert(type_text(b).len() != type_text(GLSLTypes::IVEC2).len()),
        GLSLTypes::DVEC2 => assert(type_text(b)[0] != type_text(GLSLTypes::IVEC2)[0]),
        GLSLTypes::DVEC3 => assert(type_text(b)[0] != type_text(GLSLTypes::IVEC2)[0]),
        GLSLTypes::DVEC4 => assert(type_text(b)[0] != type_text(GLSLTypes::IVEC2)[0]),
        GLSLTypes::MAT2X2 => assert(type_text(b).len() != type_text(GLSLTypes::IVEC2).len()),
        GLSLTypes::MAT2X3 => assert(type_text(b).len() != type_text(GLSLTypes::IVEC2).len()),
        GLSLTypes::MAT2X4 => assert(type_text(b).len() != type_text(GLSLTypes::IVEC2).len()),
        GLSLTypes::MAT3X2 => assert(type_text(b).len() != type_text(GLSLTypes::IVEC2).len()),
        GLSLTypes::MAT3X3 => assert(type_text(b).len() != type_text(GLSLTypes::IVEC2).len()),
        GLSLTypes::MAT3X4 => assert(type_text(b).len() != type_text(GLSLTypes::IVEC2).len()),
        GLSLTypes::MAT4X2 => assert(type_text(b).len() != type_text(GLSLTypes::IVEC2).len()),
        GLSLTypes::MAT4X3 => assert(type_text(b).len() != type_text(GLSLTypes::IVEC2).len()),
        GLSLTypes::MAT4X4 => assert(type_text(b).len() != type_text(GLSLTypes::IVEC2).len()),
    }
}

proof fn lemma_only_ivec3_is_spelled_so(b: GLSLTypes)
    ensures
        type_text(b) == type_text(GLSLTypes::IVEC3) ==> b == GLSLTypes::IVEC3,
{
    match b {
        GLSLTypes::BOOL => assert(type_text(b).len() != type_text(GLSLTypes::IVEC3).len()),
        GLSLTypes::INT => assert(type_text(b).len() != type_text(GLSLTypes::IVEC3).len()),
        GLSLTypes::UINT => assert(type_text(b).len() != type_text(GLSLTypes::IVEC3).len()),
        GLSLTypes::FLOAT => assert(type_text(b)[0] != type_text(GLSLTypes::IVEC3)[0]),
        GLSLTypes::DOUBLE => assert(type_text(b).len() != type_text(GLSLTypes::IVEC3).len()),
        GLSLTypes::BVEC2 => assert(type_text(b)[0] != type_text(GLSLTypes::IVEC3)[0]),
        GLSLTypes::BVEC3 => assert(type_text(b)[0] != type_text(GLSLTypes::IVEC3)[0]),
        GLSLTypes::BVEC4 => assert(type_text(b)[0] != type_text(GLSLTypes::IVEC3)[0]),
        GLSLTypes::IVEC2 => assert(type_text(b)[4] != type_text(GLSLTypes::IVEC3)[4]),
        GLSLTypes::IVEC3 => {},
        GLSLTypes::IVEC4 => assert(type_text(b)[4] != type_text(GLSLTypes::IVEC3)[4]),
        GLSLTypes::UVEC2 => assert(type_text(b)[0] != type_text(GLSLTypes::IVEC3)[0]),
        GLSLTypes::UVEC3 => assert(type_text(b)[0] != type_text(GLSLTypes::IVEC3)[0]),
        GLSLTypes::UVEC4 => assert(type_text(b)[0] != type_text(GLSLTypes::IVEC3)[0]),
        GLSLTypes::VEC2 => assert(type_text(b).len() != type_text(GLSLTypes::IVEC3).len()),
        GLSLTypes::VEC3 => assert(type_text(b).len() != type_text(GLSLTypes::IVEC3).len()),
        GLSLTypes::VEC4 => assert(type_text(b).len() != type_text(GLSLTypes::IVEC3).len()),
        GLSLTypes::DVEC2 => assert(type_text(b)[0] != type_text(GLSLTypes::IVEC3)[0]),
        GLSLTypes::DVEC3 => assert(type_text(b)[0] != type_text(GLSLTypes::IVEC3)[0]),
        GLSLTypes::DVEC4 => assert(type_text(b)[0] != type_text(GLSLTypes::IVEC3)[0]),
        GLSLTypes::MAT2X2 => assert(type_text(b).len() != type_text(GLSLTypes::IVEC3).len()),
        GLSLTypes::MAT2X3 => assert(type_text(b).len() != type_text(GLSLTypes::IVEC3).len()),
        GLSLTypes::MAT2X4 => assert(type_text(b).len() != type_text(GLSLTypes::IVEC3).len()),
        GLSLTypes::MAT3X2 => assert(type_text(b).len() != type_text(GLSLTypes::IVEC3).len()),
        GLSLTypes::MAT3X3 => assert(type_text(b).len() != type_text(GLSLTypes::IVEC3).len()),
        GLSLTypes::MAT3X4 => assert(type_text(b).len() != type_text(GLSLTypes::IVEC3).len()),
        GLSLTypes::MAT4X2 => assert(type_text(b).len() != type_text(GLSLTypes::IVEC3).len()),
        GLSLTypes::MAT4X3 => assert(type_text(b).len() != type_text(GLSLTypes::IVEC3).len()),
        GLSLTypes::MAT4X4 => assert(type_text(b).len() != type_text(GLSLTypes::IVEC3).len()),
    }
}

proof fn lemma_only_ivec4_is_spelled_so(b: GLSLTypes)
    ensures
        type_text(b) == type_text(GLSLTypes::IVEC4) ==> b == GLSLTypes::IVEC4,
{
    match b {
        GLSLTypes::BOOL => assert(type_text(b).len() != type_text(GLSLTypes::IVEC4).len()),
        GLSLTypes::INT => assert(type_text(b).len() != type_text(GLSLTypes::IVEC4).len()),
        GLSLTypes::UINT => assert(type_text(b).len() != type_text(GLSLTypes::IVEC4).len()),
        GLSLTypes::FLOAT => assert(type_text(b)[0] != type_text(GLSLTypes::IVEC4)[0]),
        GLSLTypes::DOUBLE => assert(type_text(b).len() != type_text(GLSLTypes::IVEC4).len()),
        GLSLTypes::BVEC2 => assert(type_text(b)[0] != type_text(GLSLTypes::IVEC4)[0]),
        GLSLTypes::BVEC3 => assert(type_text(b)[0] != type_text(GLSLTypes::IVEC4)[0]),
        GLSLTypes::BVEC4 => assert(type_text(b)[0] != type_text(GLSLTypes::IVEC4)[0]),
        GLSLTypes::IVEC2 => assert(type_text(b)[4] != type_text(GLSLTypes::IVEC4)[4]),
        GLSLTypes::IVEC3 => assert(type_text(b)[4] != type_text(GLSLTypes::IVEC4)[4]),
        GLSLTypes::IVEC4 => {},
        GLSLTypes::UVEC2 => assert(type_text(b)[0] != type_text(GLSLTypes::IVEC4)[0]),
        GLSLTypes::UVEC3 => assert(type_text(b)[0] != type_text(GLSLTypes::IVEC4)[0]),
        GLSLTypes::UVEC4 => assert(type_text(b)[0] != type_text(GLSLTypes::IVEC4)[0]),
        GLSLTypes::VEC2 => assert(type_text(b).len() != type_text(GLSLTypes::IVEC4).len()),
        GLSLTypes::VEC3 => assert(type_text(b).len() != type_text(GLSLTypes::IVEC4).len()),
        GLSLTypes::VEC4 => assert(type_text(b).len() != type_text(GLSLTypes::IVEC4).len()),
        GLSLTypes::DVEC2 => assert(type_text(b)[0] != type_text(GLSLTypes::IVEC4)[0]),
        GLSLTypes::DVEC3 => assert(type_text(b)[0] != type_text(GLSLTypes::IVEC4)[0]),
        GLSLTypes::DVEC4 => assert(type_text(b)[0] != type_text(GLSLTypes::IVEC4)[0]),
        GLSLTypes::MAT2X2 => assert(type_text(b).len() != type_text(GLSLTypes::IVEC4).len()),
        GLSLTypes::MAT2X3 => assert(type_text(b).len() != type_text(GLSLTypes::IVEC4).len()),
        GLSLTypes::MAT2X4 => assert(type_text(b).len() != type_text(GLSLTypes::IVEC4).len()),
        GLSLTypes::MAT3X2 => assert(type_text(b).len() != type_text(GLSLTypes::IVEC4).len()),
        GLSLTypes::MAT3X3 => assert(type_text(b).len() != type_text(GLSLTypes::IVEC4).len()),
        GLSLTypes::MAT3X4 => assert(type_text(b).len() != type_text(GLSLTypes::IVEC4).len()),
        GLSLTypes::MAT4X2 => assert(type_text(b).len() != type_text(GLSLTypes::IVEC4).len()),
        GLSLTypes::MAT4X3 => assert(type_text(b).len() != type_text(GLSLTypes::IVEC4).len()),
        GLSLTypes::MAT4X4 => assert(type_text(b).len() != type_text(GLSLTypes::IVEC4).len()),
    }
}

proof fn lemma_only_uvec2_is_spelled_so(b: GLSLTypes)
    ensures
        type_text(b) == type_text(GLSLTypes::UVEC2) ==> b == GLSLTypes::UVEC2,
{
    match b {
        GLSLTypes::BOOL => assert(type_text(b).len() != type_text(GLSLTypes::UVEC2).len()),
        GLSLTypes::INT => assert(type_text(b).len() != type_text(GLSLTypes::UVEC2).len()),
        GLSLTypes::UINT => assert(type_text(b).len() != type_text(GLSLTypes::UVEC2).len()),
        GLSLTypes::FLOAT => assert(type_text(b)[0] != type_text(GLSLTypes::UVEC2)[0]),
        GLSLTypes::DOUBLE => assert(type_text(b).len() != type_text(GLSLTypes::UVEC2).len()),
        GLSLTypes::BVEC2 => assert(type_text(b)[0] != type_text(GLSLTypes::UVEC2)[0]),
        GLSLTypes::BVEC3 => assert(type_text(b)[0] != type_text(GLSLTypes::UVEC2)[0]),
        GLSLTypes::BVEC4 => assert(type_text(b)[0] != type_text(GLSLTypes::UVEC2)[0]),
        GLSLTypes::IVEC2 => assert(type_text(b)[0] != type_text(GLSLTypes::UVEC2)[0]),
        GLSLTypes::IVEC3 => assert(type_text(b)[0] != type_text(GLSLTypes::UVEC2)[0]),
        GLSLTypes::IVEC4 => assert(type_text(b)[0] != type_text(GLSLTypes::UVEC2)[0]),
        GLSLTypes::UVEC2 => {},
        GLSLTypes::UVEC3 => assert(type_text(b)[4] != type_text(GLSLTypes::UVEC2)[4]),
        GLSLTypes::UVEC4 => assert(type_text(b)[4] != type_text(GLSLTypes::UVEC2)[4]),
        GLSLTypes::VEC2 => assert(type_text(b).len() != type_text(GLSLTypes::UVEC2).len()),
        GLSLTypes::VEC3 => assert(type_text(b).len() != type_text(GLSLTypes::UVEC2).len()),
        GLSLTypes::VEC4 => assert(type_text(b).len() != type_text(GLSLTypes::UVEC2).len()),
        GLSLTypes::DVEC2 => assert(type_text(b)[0] != type_text(GLSLTypes::UVEC2)[0]),
        GLSLTypes::DVEC3 => assert(type_text(b)[0] != type_text(GLSLTypes::UVEC2)[0]),
        GLSLTypes::DVEC4 => assert(type_text(b)[0] != type_text(GLSLTypes::UVEC2)[0]),
        GLSLTypes::MAT2X2 => assert(type_text(b).len() != type_text(GLSLTypes::UVEC2).len()),
        GLSLTypes::MAT2X3 => assert(type_text(b).len() != type_text(GLSLTypes::UVEC2).len()),
        GLSLTypes::MAT2X4 => assert(type_text(b).len() != type_text(GLSLTypes::UVEC2).len()),
        GLSLTypes::MAT3X2 => assert(type_text(b).len() != type_text(GLSLTypes::UVEC2).len()),
        GLSLTypes::MAT3X3 => assert(type_text(b).len() != type_text(GLSLTypes::UVEC2).len()),
        GLSLTypes::MAT3X4 => assert(type_text(b).len() != type_text(GLSLTypes::UVEC2).len()),
        GLSLTypes::MAT4X2 => assert(type_text(b).len() != type_text(GLSLTypes::UVEC2).len()),
        GLSLTypes::MAT4X3 => assert(type_text(b).len() != type_text(GLSLTypes::UVEC2).len()),
        GLSLTypes::MAT4X4 => assert(type_text(b).len() != type_text(GLSLTypes::UVEC2).len()),
    }
}

proof fn lemma_only_uvec3_is_spelled_so(b: GLSLTypes)
    ensures
        type_text(b) == type_text(GLSLTypes::UVEC3) ==> b == GLSLTypes::UVEC3,
{
    match b {
        GLSLTypes::BOOL => assert(type_text(b).len() != type_text(GLSLTypes::UVEC3).len()),
        GLSLTypes::INT => assert(type_text(b).len() != type_text(GLSLTypes::UVEC3).len()),
        GLSLTypes::UINT => assert(type_text(b).len() != type_text(GLSLTypes::UVEC3).len()),
        GLSLTypes::FLOAT => assert(type_text(b)[0] != type_text(GLSLTypes::UVEC3)[0]),
        GLSLTypes::DOUBLE => assert(type_text(b).len() != type_text(GLSLTypes::UVEC3).len()),
        GLSLTypes::BVEC2 => assert(type_text(b)[0] != type_text(GLSLTypes::UVEC3)[0]),
        GLSLTypes::BVEC3 => assert(type_text(b)[0] != type_text(GLSLTypes::UVEC3)[0]),
        GLSLTypes::BVEC4 => assert(type_text(b)[0] != type_text(GLSLTypes::UVEC3)[0]),
        GLSLTypes::IVEC2 => assert(type_text(b)[0] != type_text(GLSLTypes::UVEC3)[0]),
        GLSLTypes::IVEC3 => assert(type_text(b)[0] != type_text(GLSLTypes::UVEC3)[0]),
        GLSLTypes::IVEC4 => assert(type_text(b)[0] != type_text(GLSLTypes::UVEC3)[0]),
        GLSLTypes::UVEC2 => assert(type_text(b)[4] != type_text(GLSLTypes::UVEC3)[4]),
        GLSLTypes::UVEC3 => {},
        GLSLTypes::UVEC4 => assert(type_text(b)[4] != type_text(GLSLTypes::UVEC3)[4]),
        GLSLTypes::VEC2 => assert(type_text(b).len() != type_text(GLSLTypes::UVEC3).len()),
        GLSLTypes::VEC3 => assert(type_text(b).len() != type_text(GLSLTypes::UVEC3).len()),
        GLSLTypes::VEC4 => assert(type_text(b).len() != type_text(GLSLTypes::UVEC3).len()),
        GLSLTypes::DVEC2 => assert(type_text(b)[0] != type_text(GLSLTypes::UVEC3)[0]),
        GLSLTypes::DVEC3 => assert(type_text(b)[0] != type_text(GLSLTypes::UVEC3)[0]),
        GLSLTypes::DVEC4 => assert(type_text(b)[0] != type_text(GLSLTypes::UVEC3)[0]),
        GLSLTypes::MAT2X2 => assert(type_text(b).len() != type_text(GLSLTypes::UVEC3).len()),
        GLSLTypes::MAT2X3 => assert(type_text(b).len() != type_text(GLSLTypes::UVEC3).len()),
        GLSLTypes::MAT2X4 => assert(type_text(b).len() != type_text(GLSLTypes::UVEC3).len()),
        GLSLTypes::MAT3X2 => assert(type_text(b).len() != type_text(GLSLTypes::UVEC3).len()),
        GLSLTypes::MAT3X3 => assert(type_text(b).len() != type_text(GLSLTypes::UVEC3).len()),
        GLSLTypes::MAT3X4 => assert(type_text(b).len() != type_text(GLSLTypes::UVEC3).len()),
        GLSLTypes::MAT4X2 => assert(type_text(b).len() != type_text(GLSLTypes::UVEC3).len()),
        GLSLTypes::MAT4X3 => assert(type_text(b).len() != type_text(GLSLTypes::UVEC3).len()),
        GLSLTypes::MAT4X4 => assert(type_text(b).len() != type_text(GLSLTypes::UVEC3).len()),
    }
}

proof fn lemma_only_uvec4_is_spelled_so(b: GLSLTypes)
    ensures
        type_text(b) == type_text(GLSLTypes::UVEC4) ==> b == GLSLTypes::UVEC4,
{
    match b {
        GLSLTypes::BOOL => assert(type_text(b).len() != type_text(GLSLTypes::UVEC4).len()),
        GLSLTypes::INT => assert(type_text(b).len() != type_text(GLSLTypes::UVEC4).len()),
        GLSLTypes::UINT => assert(type_text(b).len() != type_text(GLSLTypes::UVEC4).len()),
        GLSLTypes::FLOAT => assert(type_text(b)[0] != type_text(GLSLTypes::UVEC4)[0]),
        GLSLTypes::DOUBLE => assert(type_text(b).len() != type_text(GLSLTypes::UVEC4).len()),
        GLSLTypes::BVEC2 => assert(type_text(b)[0] != type_text(GLSLTypes::UVEC4)[0]),
        GLSLTypes::BVEC3 => assert(type_text(b)[0] != type_text(GLSLTypes::UVEC4)[0]),
        GLSLTypes::BVEC4 => assert(type_text(b)[0] != type_text(GLSLTypes::UVEC4)[0]),
        GLSLTypes::IVEC2 => assert(type_text(b)[0] != type_text(GLSLTypes::UVEC4)[0]),
        GLSLTypes::IVEC3 => assert(type_text(b)[0] != type_text(GLSLTypes::UVEC4)[0]),
        GLSLTypes::IVEC4 => assert(type_text(b)[0] != type_text(GLSLTypes::UVEC4)[0]),
        GLSLTypes::UVEC2 => assert(type_text(b)[4] != type_text(GLSLTypes::UVEC4)[4]),
        GLSLTypes::UVEC3 => assert(type_text(b)[4] != type_text(GLSLTypes::UVEC4)[4]),
        GLSLTypes::UVEC4 => {},
        GLSLTypes::VEC2 => assert(type_text(b).len() != type_text(GLSLTypes::UVEC4).len()),
        GLSLTypes::VEC3 => assert(type_text(b).len() != type_text(GLSLTypes::UVEC4).len()),
        GLSLTypes::VEC4 => assert(type_text(b).len() != type_text(GLSLTypes::UVEC4).len()),
        GLSLTypes::DVEC2 => assert(type_text(b)[0] != type_text(GLSLTypes::UVEC4)[0]),
        GLSLTypes::DVEC3 => assert(type_text(b)[0] != type_text(GLSLTypes::UVEC4)[0]),
        GLSLTypes::DVEC4 => assert(type_text(b)[0] != type_text(GLSLTypes::UVEC4)[0]),
        GLSLTypes::MAT2X2 => assert(type_text(b).len() != type_text(GLSLTypes::UVEC4).len()),
        GLSLTypes::MAT2X3 => assert(type_text(b).len() != type_text(GLSLTypes::UVEC4).len()),
        GLSLTypes::MAT2X4 => assert(type_text(b).len() != type_text(GLSLTypes::UVEC4).len()),
        GLSLTypes::MAT3X2 => assert(type_text(b).len() != type_text(GLSLTypes::UVEC4).len()),
        GLSLTypes::MAT3X3 => assert(type_text(b).len() != type_text(GLSLTypes::UVEC4).len()),
        GLSLTypes::MAT3X4 => assert(type_text(b).len() != type_text(GLSLTypes::UVEC4).len()),
        GLSLTypes::MAT4X2 => assert(type_text(b).len() != type_text(GLSLTypes::UVEC4).len()),
        GLSLTypes::MAT4X3 => assert(type_text(b).len() != type_text(GLSLTypes::UVEC4).len()),
        GLSLTypes::MAT4X4 => assert(type_text(b).len() != type_text(GLSLTypes::UVEC4).len()),
    }
}

proof fn lemma_only_vec2_is_spelled_so(b: GLSLTypes)
    ensures
        type_text(b) == type_text(GLSLTypes::VEC2) ==> b == GLSLTypes::VEC2,
{
    match b {
        GLSLTypes::BOOL => assert(type_text(b)[0] != type_text(GLSLTypes::VEC2)[0]),
        GLSLTypes::INT => assert(type_text(b).len() != type_text(GLSLTypes::VEC2).len()),
        GLSLTypes::UINT => assert(type_text(b)[0] != type_text(GLSLTypes::VEC2)[0]),
        GLSLTypes::FLOAT => assert(type_text(b).len() != type_text(GLSLTypes::VEC2).len()),
        GLSLTypes::DOUBLE => assert(type_text(b).len() != type_text(GLSLTypes::VEC2).len()),
        GLSLTypes::BVEC2 => assert(type_text(b).len() != type_text(GLSLTypes::VEC2).len()),
        GLSLTypes::BVEC3 => assert(type_text(b).len() != type_text(GLSLTypes::VEC2).len()),
        GLSLTypes::BVEC4 => assert(type_text(b).len() != type_text(GLSLTypes::VEC2).len()),
        GLSLTypes::IVEC2 => assert(type_text(b).len() != type_text(GLSLTypes::VEC2).len()),
        GLSLTypes::IVEC3 => assert(type_text(b).len() != type_text(GLSLTypes::VEC2).len()),
        GLSLTypes::IVEC4 => assert(type_text(b).len() != type_text(GLSLTypes::VEC2).len()),
        GLSLTypes::UVEC2 => assert(type_text(b).len() != type_text(GLSLTypes::VEC2).len()),
        GLSLTypes::UVEC3 => assert(type_text(b).len() != type_text(GLSLTypes::VEC2).len()),
        GLSLTypes::UVEC4 => assert(type_text(b).len() != type_text(GLSLTypes::VEC2).len()),
        GLSLTypes::VEC2 => {},
        GLSLTypes::VEC3 => assert(type_text(b)[3] != type_text(GLSLTypes::VEC2)[3]),
        GLSLTypes::VEC4 => assert(type_text(b)[3] != type_text(GLSLTypes::VEC2)[3]),
        GLSLTypes::DVEC2 => assert(type_text(b).len() != type_text(GLSLTypes::VEC2).len()),
        GLSLTypes::DVEC3 => assert(type_text(b).len() != type_text(GLSLTypes::VEC2).len()),
        GLSLTypes::DVEC4 => assert(type_text(b).len() != type_text(GLSLTypes::VEC2).len()),
        GLSLTypes::MAT2X2 => assert(type_text(b)[0] != type_text(GLSLTypes::VEC2)[0]),
        GLSLTypes::MAT2X3 => assert(type_text(b).len() != type_text(GLSLTypes::VEC2).len()),
        GLSLTypes::MAT2X4 => assert(type_text(b).len() != type_text(GLSLTypes::VEC2).len()),
        GLSLTypes::MAT3X2 => assert(type_text(b).len() != type_text(GLSLTypes::VEC2).len()),
        GLSLTypes::MAT3X3 => assert(type_text(b)[0] != type_text(GLSLTypes::VEC2)[0]),
        GLSLTypes::MAT3X4 => assert(type_text(b).len() != type_text(GLSLTypes::VEC2).len()),
        GLSLTypes::MAT4X2 => assert(type_text(b).len() != type_text(GLSLTypes::VEC2).len()),
        GLSLTypes::MAT4X3 => assert(type_text(b).len() != type_text(GLSLTypes::VEC2).len()),
        GLSLTypes::MAT4X4 => assert(type_text(b)[0] != type_text(GLSLTypes::VEC2)[0]),
    }
}

proof fn lemma_only_vec3_is_spelled_so(b: GLSLTypes)
    ensures
        type_text(b) == type_text(GLSLTypes::VEC3) ==> b == GLSLTypes::VEC3,
{
    match b {
        GLSLTypes::BOOL => assert(type_text(b)[0] != type_text(GLSLTypes::VEC3)[0]),
        GLSLTypes::INT => assert(type_text(b).len() != type_text(GLSLTypes::VEC3).len()),
        GLSLTypes::UINT => assert(type_text(b)[0] != type_text(GLSLTypes::VEC3)[0]),
        GLSLTypes::FLOAT => assert(type_text(b).len() != type_text(GLSLTypes::VEC3).len()),
        GLSLTypes::DOUBLE => assert(type_text(b).len() != type_text(GLSLTypes::VEC3).len()),
        GLSLTypes::BVEC2 => assert(type_text(b).len() != type_text(GLSLTypes::VEC3).len()),
        GLSLTypes::BVEC3 => assert(type_text(b).len() != type_text(GLSLTypes::VEC3).len()),
        GLSLTypes::BVEC4 => assert(type_text(b).len() != type_text(GLSLTypes::VEC3).len()),
        GLSLTypes::IVEC2 => assert(type_text(b).len() != type_text(GLSLTypes::VEC3).len()),
        GLSLTypes::IVEC3 => assert(type_text(b).len() != type_text(GLSLTypes::VEC3).len()),
        GLSLTypes::IVEC4 => assert(type_text(b).len() != type_text(GLSLTypes::VEC3).len()),
        GLSLTypes::UVEC2 => assert(type_text(b).len() != type_text(GLSLTypes::VEC3).len()),
        GLSLTypes::UVEC3 => assert(type_text(b).len() != type_text(GLSLTypes::VEC3).len()),
        GLSLTypes::UVEC4 => assert(type_text(b).len() != type_text(GLSLTypes::VEC3).len()),
        GLSLTypes::VEC2 => assert(type_text(b)[3] != type_text(GLSLTypes::VEC3)[3]),
        GLSLTypes::VEC3 => {},
        GLSLTypes::VEC4 => assert(type_text(b)[3] != type_text(GLSLTypes::VEC3)[3]),
        GLSLTypes::DVEC2 => assert(type_text(b).len() != type_text(GLSLTypes::VEC3).len()),
        GLSLTypes::DVEC3 => assert(type_text(b).len() != type_text(GLSLTypes::VEC3).len()),
        GLSLTypes::DVEC4 => assert(type_text(b).len() != type_text(GLSLTypes::VEC3).len()),
        GLSLTypes::MAT2X2 => assert(type_text(b)[0] != type_text(GLSLTypes::VEC3)[0]),
        GLSLTypes::MAT2X3 => assert(type_text(b).len() != type_text(GLSLTypes::VEC3).len()),
        GLSLTypes::MAT2X4 => assert(type_text(b).len() != type_text(GLSLTypes::VEC3).len()),
        GLSLTypes::MAT3X2 => assert(type_text(b).len() != type_text(GLSLTypes::VEC3).len()),
        GLSLTypes::MAT3X3 => assert(type_text(b)[0] != type_text(GLSLTypes::VEC3)[0]),
        GLSLTypes::MAT3X4 => assert(type_text(b).len() != type_text(GLSLTypes::VEC3).len()),
        GLSLTypes::MAT4X2 => assert(type_text(b).len() != type_text(GLSLTypes::VEC3).len()),
        GLSLTypes::MAT4X3 => assert(type_text(b).len() != type_text(GLSLTypes::VEC3).len()),
        GLSLTypes::MAT4X4 => assert(type_text(b)[0] != type_text(GLSLTypes::VEC3)[0]),
    }
}

proof fn lemma_only_vec4_is_spelled_so(b: GLSLTypes)
    ensures
        type_text(b) == type_text(GLSLTypes::VEC4) ==> b == GLSLTypes::VEC4,
{
    match b {
        GLSLTypes::BOOL => assert(type_text(b)[0] != type_text(GLSLTypes::VEC4)[0]),
        GLSLTypes::INT => assert(type_text(b).len() != type_text(GLSLTypes::VEC4).len()),
        GLSLTypes::UINT => assert(type_text(b)[0] != type_text(GLSLTypes::VEC4)[0]),
        GLSLTypes::FLOAT => assert(type_text(b).len() != type_text(GLSLTypes::VEC4).len()),
        GLSLTypes::DOUBLE => assert(type_text(b).len() != type_text(GLSLTypes::VEC4).len()),
        GLSLTypes::BVEC2 => assert(type_text(b).len() != type_text(GLSLTypes::VEC4).len()),
        GLSLTypes::BVEC3 => assert(type_text(b).len() != type_text(GLSLTypes::VEC4).len()),
        GLSLTypes::BVEC4 => assert(type_text(b).len() != type_text(GLSLTypes::VEC4).len()),
        GLSLTypes::IVEC2 => assert(type_text(b).len() != type_text(GLSLTypes::VEC4).len()),
        GLSLTypes::IVEC3 => assert(type_text(b).len() != type_text(GLSLTypes::VEC4).len()),
        GLSLTypes::IVEC4 => assert(type_text(b).len() != type_text(GLSLTypes::VEC4).len()),
        GLSLTypes::UVEC2 => assert(type_text(b).len() != type_text(GLSLTypes::VEC4).len()),
        GLSLTypes::UVEC3 => assert(type_text(b).len() != type_text(GLSLTypes::VEC4).len()),
        GLSLTypes::UVEC4 => assert(type_text(b).len() != type_text(GLSLTypes::VEC4).len()),
        GLSLTypes::VEC2 => assert(type_text(b)[3] != type_text(GLSLTypes::VEC4)[3]),
        GLSLTypes::VEC3 => assert(type_text(b)[3] != type_text(GLSLTypes::VEC4)[3]),
        GLSLTypes::VEC4 => {},
        GLSLTypes::DVEC2 => assert(type_text(b).len() != type_text(GLSLTypes::VEC4).len()),
        GLSLTypes::DVEC3 => assert(type_text(b).len() != type_text(GLSLTypes::VEC4).len()),
        GLSLTypes::DVEC4 => assert(type_text(b).len() != type_text(GLSLTypes::VEC4).len()),
        GLSLTypes::MAT2X2 => assert(type_text(b)[0] != type_text(GLSLTypes::VEC4)[0]),
        GLSLTypes::MAT2X3 => assert(type_text(b).len() != type_text(GLSLTypes::VEC4).len()),
        GLSLTypes::MAT2X4 => assert(type_text(b).len() != type_text(GLSLTypes::VEC4).len()),
        GLSLTypes::MAT3X2 => assert(type_text(b).len() != type_text(GLSLTypes::VEC4).len()),
        GLSLTypes::MAT3X3 => assert(type_text(b)[0] != type_text(GLSLTypes::VEC4)[0]),
        GLSLTypes::MAT3X4 => assert(type_text(b).len() != type_text(GLSLTypes::VEC4).len()),
        GLSLTypes::MAT4X2 => assert(type_text(b).len() != type_text(GLSLTypes::VEC4).len()),
        GLSLTypes::MAT4X3 => assert(type_text(b).len() != type_text(GLSLTypes::VEC4).len()),
        GLSLTypes::MAT4X4 => assert(type_text(b)[0] != type_text(GLSLTypes::VEC4)[0]),
    }
}

proof fn lemma_only_dvec2_is_spelled_so(b: GLSLTypes)
    ensures
        type_text(b) == type_text(GLSLTypes::DVEC2) ==> b == GLSLTypes::DVEC2,
{
    match b {
        GLSLTypes::BOOL => assert(type_text(b).len() != type_text(GLSLTypes::DVEC2).len()),
        GLSLTypes::INT => assert(type_text(b).len() != type_text(GLSLTypes::DVEC2).len()),
        GLSLTypes::UINT => assert(type_text(b).len() != type_text(GLSLTypes::DVEC2).len()),
        GLSLTypes::FLOAT => assert(type_text(b)[0] != type_text(GLSLTypes::DVEC2)[0]),
        GLSLTypes::DOUBLE => assert(type_text(b).len() != type_text(GLSLTypes::DVEC2).len()),
        GLSLTypes::BVEC2 => assert(type_text(b)[0] != type_text(GLSLTypes::DVEC2)[0]),
        GLSLTypes::BVEC3 => assert(type_text(b)[0] != type_text(GLSLTypes::DVEC2)[0]),
        GLSLTypes::BVEC4 => assert(type_text(b)[0] != type_text(GLSLTypes::DVEC2)[0]),
        GLSLTypes::IVEC2 => assert(type_text(b)[0] != type_text(GLSLTypes::DVEC2)[0]),
        GLSLTypes::IVEC3 => assert(type_text(b)[0] != type_text(GLSLTypes::DVEC2)[0]),
        GLSLTypes::IVEC4 => assert(type_text(b)[0] != type_text(GLSLTypes::DVEC2)[0]),
        GLSLTypes::UVEC2 => assert(type_text(b)[0] != type_text(GLSLTypes::DVEC2)[0]),
        GLSLTypes::UVEC3 => assert(type_text(b)[0] != type_text(GLSLTypes::DVEC2)[0]),
        GLSLTypes::UVEC4 => assert(type_text(b)[0] != type_text(GLSLTypes::DVEC2)[0]),
        GLSLTypes::VEC2 => assert(type_text(b).len() != type_text(GLSLTypes::DVEC2).len()),
        GLSLTypes::VEC3 => assert(type_text(b).len() != type_text(GLSLTypes::DVEC2).len()),
        GLSLTypes::VEC4 => assert(type_text(b).len() != type_text(GLSLTypes::DVEC2).len()),
        GLSLTypes::DVEC2 => {},
        GLSLTypes::DVEC3 => assert(type_text(b)[4] != type_text(GLSLTypes::DVEC2)[4]),
        GLSLTypes::DVEC4 => assert(type_text(b)[4] != type_text(GLSLTypes::DVEC2)[4]),
        GLSLTypes::MAT2X2 => assert(type_text(b).len() != type_text(GLSLTypes::DVEC2).len()),
        GLSLTypes::MAT2X3 => assert(type_text(b).len() != type_text(GLSLTypes::DVEC2).len()),
        GLSLTypes::MAT2X4 => assert(type_text(b).len() != type_text(GLSLTypes::DVEC2).len()),
        GLSLTypes::MAT3X2 => assert(type_text(b).len() != type_text(GLSLTypes::DVEC2).len()),
        GLSLTypes::MAT3X3 => assert(type_text(b).len() != type_text(GLSLTypes::DVEC2).len()),
        GLSLTypes::MAT3X4 => assert(type_text(b).len() != type_text(GLSLTypes::DVEC2).len()),
        GLSLTypes::MAT4X2 => assert(type_text(b).len() != type_text(GLSLTypes::DVEC2).len()),
        GLSLTypes::MAT4X3 => assert(type_text(b).len() != type_text(GLSLTypes::DVEC2).len()),
        GLSLTypes::MAT4X4 => assert(type_text(b).len() != type_text(GLSLTypes::DVEC2).len()),
    }
}

proof fn lemma_only_dvec3_is_spelled_so(b: GLSLTypes)
    ensures
        type_text(b) == type_text(GLSLTypes::DVEC3) ==> b == GLSLTypes::DVEC3,
{
    match b {
        GLSLTypes::BOOL => assert(type_text(b).len() != type_text(GLSLTypes::DVEC3).len()),
        GLSLTypes::INT => assert(type_text(b).len() != type_text(GLSLTypes::DVEC3).len()),
        GLSLTypes::UINT => assert(type_text(b).len() != type_text(GLSLTypes::DVEC3).len()),
        GLSLTypes::FLOAT => assert(type_text(b)[0] != type_text(GLSLTypes::DVEC3)[0]),
        GLSLTypes::DOUBLE => assert(type_text(b).len() != type_text(GLSLTypes::DVEC3).len()),
        GLSLTypes::BVEC2 => assert(type_text(b)[0] != type_text(GLSLTypes::DVEC3)[0]),
        GLSLTypes::BVEC3 => assert(type_text(b)[0] != type_text(GLSLTypes::DVEC3)[0]),
        GLSLTypes::BVEC4 => assert(type_text(b)[0] != type_text(GLSLTypes::DVEC3)[0]),
        GLSLTypes::IVEC2 => assert(type_text(b)[0] != type_text(GLSLTypes::DVEC3)[0]),
        GLSLTypes::IVEC3 => assert(type_text(b)[0] != type_text(GLSLTypes::DVEC3)[0]),
        GLSLTypes::IVEC4 => assert(type_text(b)[0] != type_text(GLSLTypes::DVEC3)[0]),
        GLSLTypes::UVEC2 => assert(type_text(b)[0] != type_text(GLSLTypes::DVEC3)[0]),
        GLSLTypes::UVEC3 => assert(type_text(b)[0] != type_text(GLSLTypes::DVEC3)[0]),
        GLSLTypes::UVEC4 => assert(type_text(b)[0] != type_text(GLSLTypes::DVEC3)[0]),
        GLSLTypes::VEC2 => assert(type_text(b).len() != type_text(GLSLTypes::DVEC3).len()),
        GLSLTypes::VEC3 => assert(type_text(b).len() != type_text(GLSLTypes::DVEC3).len()),
        GLSLTypes::VEC4 => assert(type_text(b).len() != type_text(GLSLTypes::DVEC3).len()),
        GLSLTypes::DVEC2 => assert(type_text(b)[4] != type_text(GLSLTypes::DVEC3)[4]),
        GLSLTypes::DVEC3 => {},
        GLSLTypes::DVEC4 => assert(type_text(b)[4] != type_text(GLSLTypes::DVEC3)[4]),
        GLSLTypes::MAT2X2 => assert(type_text(b).len() != type_text(GLSLTypes::DVEC3).len()),
        GLSLTypes::MAT2X3 => assert(type_text(b).len() != type_text(GLSLTypes::DVEC3).len()),
        GLSLTypes::MAT2X4 => assert(type_text(b).len() != type_text(GLSLTypes::DVEC3).len()),
        GLSLTypes::MAT3X2 => assert(type_text(b).len() != type_text(GLSLTypes::DVEC3).len()),
        GLSLTypes::MAT3X3 => assert(type_text(b).len() != type_text(GLSLTypes::DVEC3).len()),
        GLSLTypes::MAT3X4 => assert(type_text(b).len() != type_text(GLSLTypes::DVEC3).len()),
        GLSLTypes::MAT4X2 => assert(type_text(b).len() != type_text(GLSLTypes::DVEC3).len()),
        GLSLTypes::MAT4X3 => assert(type_text(b).len() != type_text(GLSLTypes::DVEC3).len()),
        GLSLTypes::MAT4X4 => assert(type_text(b).len() != type_text(GLSLTypes::DVEC3).len()),
    }
}

proof fn lemma_only_dvec4_is_spelled_so(b: GLSLTypes)
    ensures
        type_text(b) == type_text(GLSLTypes::DVEC4) ==> b == GLSLTypes::DVEC4,
{
    match b {
        GLSLTypes::BOOL => assert(type_text(b).len() != type_text(GLSLTypes::DVEC4).len()),
        GLSLTypes::INT => assert(type_text(b).len() != type_text(GLSLTypes::DVEC4).len()),
        GLSLTypes::UINT => assert(type_text(b).len() != type_text(GLSLTypes::DVEC4).len()),
        GLSLTypes::FLOAT => assert(type_text(b)[0] != type_text(GLSLTypes::DVEC4)[0]),
        GLSLTypes::DOUBLE => assert(type_text(b).len() != type_text(GLSLTypes::DVEC4).len()),
        GLSLTypes::BVEC2 => assert(type_text(b)[0] != type_text(GLSLTypes::DVEC4)[0]),
        GLSLTypes::BVEC3 => assert(type_text(b)[0] != type_text(GLSLTypes::DVEC4)[0]),
        GLSLTypes::BVEC4 => assert(type_text(b)[0] != type_text(GLSLTypes::DVEC4)[0]),
        GLSLTypes::IVEC2 => assert(type_text(b)[0] != type_text(GLSLTypes::DVEC4)[0]),
        GLSLTypes::IVEC3 => assert(type_text(b)[0] != type_text(GLSLTypes::DVEC4)[0]),
        GLSLTypes::IVEC4 => assert(type_text(b)[0] != type_text(GLSLTypes::DVEC4)[0]),
        GLSLTypes::UVEC2 => assert(type_text(b)[0] != type_text(GLSLTypes::DVEC4)[0]),
        GLSLTypes::UVEC3 => assert(type_text(b)[0] != type_text(GLSLTypes::DVEC4)[0]),
        GLSLTypes::UVEC4 => assert(type_text(b)[0] != type_text(GLSLTypes::DVEC4)[0]),
        GLSLTypes::VEC2 => assert(type_text(b).len() != type_text(GLSLTypes::DVEC4).len()),
        GLSLTypes::VEC3 => assert(type_text(b).len() != type_text(GLSLTypes::DVEC4).len()),
        GLSLTypes::VEC4 => assert(type_text(b).len() != type_text(GLSLTypes::DVEC4).len()),
        GLSLTypes::DVEC2 => assert(type_text(b)[4] != type_text(GLSLTypes::DVEC4)[4]),
        GLSLTypes::DVEC3 => assert(type_text(b)[4] != type_text(GLSLTypes::DVEC4)[4]),
        GLSLTypes::DVEC4 => {},
        GLSLTypes::MAT2X2 => assert(type_text(b).len() != type_text(GLSLTypes::DVEC4).len()),
        GLSLTypes::MAT2X3 => assert(type_text(b).len() != type_text(GLSLTypes::DVEC4).len()),
        GLSLTypes::MAT2X4 => assert(type_text(b).len() != type_text(GLSLTypes::DVEC4).len()),
        GLSLTypes::MAT3X2 => assert(type_text(b).len() != type_text(GLSLTypes::DVEC4).len()),
        GLSLTypes::MAT3X3 => assert(type_text(b).len() != type_text(GLSLTypes::DVEC4).len()),
        GLSLTypes::MAT3X4 => assert(type_text(b).len() != type_text(GLSLTypes::DVEC4).len()),
        GLSLTypes::MAT4X2 => assert(type_text(b).len() != type_text(GLSLTypes::DVEC4).len()),
        GLSLTypes::MAT4X3 => assert(type_text(b).len() != type_text(GLSLTypes::DVEC4).len()),
        GLSLTypes::MAT4X4 => assert(type_text(b).len() != type_text(GLSLTypes::DVEC4).len()),
    }
}

proof fn lemma_only_mat2x2_is_spelled_so(b: GLSLTypes)
    ensures
        type_text(b) == type_text(GLSLTypes::MAT2X2) ==> b == GLSLTypes::MAT2X2,
{
    match b {
        GLSLTypes::BOOL => assert(type_text(b)[0] != type_text(GLSLTypes::MAT2X2)[0]),
        GLSLTypes::INT => assert(type_text(b).len() != type_text(GLSLTypes::MAT2X2).len()),
        GLSLTypes::UINT => assert(type_text(b)[0] != type_text(GLSLTypes::MAT2X2)[0]),
        GLSLTypes::FLOAT => assert(type_text(b).len() != type_text(GLSLTypes::MAT2X2).len()),
        GLSLTypes::DOUBLE => assert(type_text(b).len() != type_text(GLSLTypes::MAT2X2).len()),
        GLSLTypes::BVEC2 => assert(type_text(b).len() != type_text(GLSLTypes::MAT2X2).len()),
        GLSLTypes::BVEC3 => assert(type_text(b).len() != type_text(GLSLTypes::MAT2X2).len()),
        GLSLTypes::BVEC4 => assert(type_text(b).len() != type_text(GLSLTypes::MAT2X2).len()),
        GLSLTypes::IVEC2 => assert(type_text(b).len() != type_text(GLSLTypes::MAT2X2).len()),
        GLSLTypes::IVEC3 => assert(type_text(b).len() != type_text(GLSLTypes::MAT2X2).len()),
        GLSLTypes::IVEC4 => assert(type_text(b).len() != type_text(GLSLTypes::MAT2X2).len()),
        GLSLTypes::UVEC2 => assert(type_text(b).len() != type_text(GLSLTypes::MAT2X2).len()),
        GLSLTypes::UVEC3 => assert(type_text(b).len() != type_text(GLSLTypes::MAT2X2).len()),
        GLSLTypes::UVEC4 => assert(type_text(b).len() != type_text(GLSLTypes::MAT2X2).len()),
        GLSLTypes::VEC2 => assert(type_text(b)[0] != type_text(GLSLTypes::MAT2X2)[0]),
        GLSLTypes::VEC3 => assert(type_text(b)[0] != type_text(GLSLTypes::MAT2X2)[0]),
        GLSLTypes::VEC4 => assert(type_text(b)[0] != type_text(GLSLTypes::MAT2X2)[0]),
        GLSLTypes::DVEC2 => assert(type_text(b).len() != type_text(GLSLTypes::MAT2X2).len()),
        GLSLTypes::DVEC3 => assert(type_text(b).len() != type_text(GLSLTypes::MAT2X2).len()),
        GLSLTypes::DVEC4 => assert(type_text(b).len() != type_text(GLSLTypes::MAT2X2).len()),
        GLSLTypes::MAT2X2 => {},
        GLSLTypes::MAT2X3 => assert(type_text(b).len() != type_text(GLSLTypes::MAT2X2).len()),
        GLSLTypes::MAT2X4 => assert(type_text(b).len() != type_text(GLSLTypes::MAT2X2).len()),
        GLSLTypes::MAT3X2 => assert(type_text(b).len() != type_text(GLSLTypes::MAT2X2).len()),
        GLSLTypes::MAT3X3 => assert(type_text(b)[3] != type_text(GLSLTypes::MAT2X2)[3]),
        GLSLTypes::MAT3X4 => assert(type_text(b).len() != type_text(GLSLTypes::MAT2X2).len()),
        GLSLTypes::MAT4X2 => assert(type_text(b).len() != type_text(GLSLTypes::MAT2X2).len()),
        GLSLTypes::MAT4X3 => assert(type_text(b).len() != type_text(GLSLTypes::MAT2X2).len()),
        GLSLTypes::MAT4X4 => assert(type_text(b)[3] != type_text(GLSLTypes::MAT2X2)[3]),
    }
}

proof fn lemma_only_mat2x3_is_spelled_so(b: GLSLTypes)
    ensures
        type_text(b) == type_text(GLSLTypes::MAT2X3) ==> b == GLSLTypes::MAT2X3,
{
    match b {
        GLSLTypes::BOOL => assert(type_text(b).len() != type_text(GLSLTypes::MAT2X3).len()),
        GLSLTypes::INT => assert(type_text(b).len() != type_text(GLSLTypes::MAT2X3).len()),
        GLSLTypes::UINT => assert(type_text(b).len() != type_text(GLSLTypes::MAT2X3).len()),
        GLSLTypes::FLOAT => assert(type_text(b).len() != type_text(GLSLTypes::MAT2X3).len()),
        GLSLTypes::DOUBLE => assert(type_text(b)[0] != type_text(GLSLTypes::MAT2X3)[0]),
        GLSLTypes::BVEC2 => assert(type_text(b).len() != type_text(GLSLTypes::MAT2X3).len()),
        GLSLTypes::BVEC3 => assert(type_text(b).len() != type_text(GLSLTypes::MAT2X3).len()),
        GLSLTypes::BVEC4 => assert(type_text(b).len() != type_text(GLSLTypes::MAT2X3).len()),
        GLSLTypes::IVEC2 => assert(type_text(b).len() != type_text(GLSLTypes::MAT2X3).len()),
        GLSLTypes::IVEC3 => assert(type_text(b).len() != type_text(GLSLTypes::MAT2X3).len()),
        GLSLTypes::IVEC4 => assert(type_text(b).len() != type_text(GLSLTypes::MAT2X3).len()),
        GLSLTypes::UVEC2 => assert(type_text(b).len() != type_text(GLSLTypes::MAT2X3).len()),
        GLSLTypes::UVEC3 => assert(type_text(b).len() != type_text(GLSLTypes::MAT2X3).len()),
        GLSLTypes::UVEC4 => assert(type_text(b).len() != type_text(GLSLTypes::MAT2X3).len()),
        GLSLTypes::VEC2 => assert(type_text(b).len() != type_text(GLSLTypes::MAT2X3).len()),
        GLSLTypes::VEC3 => assert(type_text(b).len() != type_text(GLSLTypes::MAT2X3).len()),
        GLSLTypes::VEC4 => assert(type_text(b).len() != type_text(GLSLTypes::MAT2X3).len()),
        GLSLTypes::DVEC2 => assert(type_text(b).len() != type_text(GLSLTypes::MAT2X3).len()),
        GLSLTypes::DVEC3 => assert(type_text(b).len() != type_text(GLSLTypes::MAT2X3).len()),
        GLSLTypes::DVEC4 => assert(type_text(b).len() != type_text(GLSLTypes::MAT2X3).len()),
        GLSLTypes::MAT2X2 => assert(type_text(b).len() != type_text(GLSLTypes::MAT2X3).len()),
        GLSLTypes::MAT2X3 => {},
        GLSLTypes::MAT2X4 => assert(type_text(b)[5] != type_text(GLSLTypes::MAT2X3)[5]),
        GLSLTypes::MAT3X2 => assert(type_text(b)[3] != type_text(GLSLTypes::MAT2X3)[3]),
        GLSLTypes::MAT3X3 => assert(type_text(b).len() != type_text(GLSLTypes::MAT2X3).len()),
        GLSLTypes::MAT3X4 => assert(type_text(b)[3] != type_text(GLSLTypes::MAT2X3)[3]),
        GLSLTypes::MAT4X2 => assert(type_text(b)[3] != type_text(GLSLTypes::MAT2X3)[3]),
        GLSLTypes::MAT4X3 => assert(type_text(b)[3] != type_text(GLSLTypes::MAT2X3)[3]),
        GLSLTypes::MAT4X4 => assert(type_text(b).len() != type_text(GLSLTypes::MAT2X3).len()),
    }
}

proof fn lemma_only_mat2x4_is_spelled_so(b: GLSLTypes)
    ensures
        type_text(b) == type_text(GLSLTypes::MAT2X4) ==> b == GLSLTypes::MAT2X4,
{
    match b {
        GLSLTypes::BOOL => assert(type_text(b).len() != type_text(GLSLTypes::MAT2X4).len()),
        GLSLTypes::INT => assert(type_text(b).len() != type_text(GLSLTypes::MAT2X4).len()),
        GLSLTypes::UINT => assert(type_text(b).len() != type_text(GLSLTypes::MAT2X4).len()),
        GLSLTypes::FLOAT => assert(type_text(b).len() != type_text(GLSLTypes::MAT2X4).len()),
        GLSLTypes::DOUBLE => assert(type_text(b)[0] != type_text(GLSLTypes::MAT2X4)[0]),
        GLSLTypes::BVEC2 => assert(type_text(b).len() != type_text(GLSLTypes::MAT2X4).len()),
        GLSLTypes::BVEC3 => assert(type_text(b).len() != type_text(GLSLTypes::MAT2X4).len()),
        GLSLTypes::BVEC4 => assert(type_text(b).len() != type_text(GLSLTypes::MAT2X4).len()),
        GLSLTypes::IVEC2 => assert(type_text(b).len() != type_text(GLSLTypes::MAT2X4).len()),
        GLSLTypes::IVEC3 => assert(type_text(b).len() != type_text(GLSLTypes::MAT2X4).len()),
        GLSLTypes::IVEC4 => assert(type_text(b).len() != type_text(GLSLTypes::MAT2X4).len()),
        GLSLTypes::UVEC2 => assert(type_text(b).len() != type_text(GLSLTypes::MAT2X4).len()),
        GLSLTypes::UVEC3 => assert(type_text(b).len() != type_text(GLSLTypes::MAT2X4).len()),
        GLSLTypes::UVEC4 => assert(type_text(b).len() != type_text(GLSLTypes::MAT2X4).len()),
        GLSLTypes::VEC2 => assert(type_text(b).len() != type_text(GLSLTypes::MAT2X4).len()),
        GLSLTypes::VEC3 => assert(type_text(b).len() != type_text(GLSLTypes::MAT2X4).len()),
        GLSLTypes::VEC4 => assert(type_text(b).len() != type_text(GLSLTypes::MAT2X4).len()),
        GLSLTypes::DVEC2 => assert(type_text(b).len() != type_text(GLSLTypes::MAT2X4).len()),
        GLSLTypes::DVEC3 => assert(type_text(b).len() != type_text(GLSLTypes::MAT2X4).len()),
        GLSLTypes::DVEC4 => assert(type_text(b).len() != type_text(GLSLTypes::MAT2X4).len()),
        GLSLTypes::MAT2X2 => assert(type_text(b).len() != type_text(GLSLTypes::MAT2X4).len()),
        GLSLTypes::MAT2X3 => assert(type_text(b)[5] != type_text(GLSLTypes::MAT2X4)[5]),
        GLSLTypes::MAT2X4 => {},
        GLSLTypes::MAT3X2 => assert(type_text(b)[3] != type_text(GLSLTypes::MAT2X4)[3]),
        GLSLTypes::MAT3X3 => assert(type_text(b).len() != type_text(GLSLTypes::MAT2X4).len()),
        GLSLTypes::MAT3X4 => assert(type_text(b)[3] != type_text(GLSLTypes::MAT2X4)[3]),
        GLSLTypes::MAT4X2 => assert(type_text(b)[3] != type_text(GLSLTypes::MAT2X4)[3]),
        GLSLTypes::MAT4X3 => assert(type_text(b)[3] != type_text(GLSLTypes::MAT2X4)[3]),
        GLSLTypes::MAT4X4 => assert(type_text(b).len() != type_text(GLSLTypes::MAT2X4).len()),
    }
}

proof fn lemma_only_mat3x2_is_spelled_so(b: GLSLTypes)
    ensures
        type_text(b) == type_text(GLSLTypes::MAT3X2) ==> b == GLSLTypes::MAT3X2,
{
    match b {
        GLSLTypes::BOOL => assert(type_text(b).len() != type_text(GLSLTypes::MAT3X2).len()),
        GLSLTypes::INT => assert(type_text(b).len() != type_text(GLSLTypes::MAT3X2).len()),
        GLSLTypes::UINT => assert(type_text(b).len() != type_text(GLSLTypes::MAT3X2).len()),
        GLSLTypes::FLOAT => assert(type_text(b).len() != type_text(GLSLTypes::MAT3X2).len()),
        GLSLTypes::DOUBLE => assert(type_text(b)[0] != type_text(GLSLTypes::MAT3X2)[0]),
        GLSLTypes::BVEC2 => assert(type_text(b).len() != type_text(GLSLTypes::MAT3X2).len()),
        GLSLTypes::BVEC3 => assert(type_text(b).len() != type_text(GLSLTypes::MAT3X2).len()),
        GLSLTypes::BVEC4 => assert(type_text(b).len() != type_text(GLSLTypes::MAT3X2).len()),
        GLSLTypes::IVEC2 => assert(type_text(b).len() != type_text(GLSLTypes::MAT3X2).len()),
        GLSLTypes::IVEC3 => assert(type_text(b).len() != type_text(GLSLTypes::MAT3X2).len()),
        GLSLTypes::IVEC4 => assert(type_text(b).len() != type_text(GLSLTypes::MAT3X2).len()),
        GLSLTypes::UVEC2 => assert(type_text(b).len() != type_text(GLSLTypes::MAT3X2).len()),
        GLSLTypes::UVEC3 => assert(type_text(b).len() != type_text(GLSLTypes::MAT3X2).len()),
        GLSLTypes::UVEC4 => assert(type_text(b).len() != type_text(GLSLTypes::MAT3X2).len()),
        GLSLTypes::VEC2 => assert(type_text(b).len() != type_text(GLSLTypes::MAT3X2).len()),
        GLSLTypes::VEC3 => assert(type_text(b).len() != type_text(GLSLTypes::MAT3X2).len()),
        GLSLTypes::VEC4 => assert(type_text(b).len() != type_text(GLSLTypes::MAT3X2).len()),
        GLSLTypes::DVEC2 => assert(type_text(b).len() != type_text(GLSLTypes::MAT3X2).len()),
        GLSLTypes::DVEC3 => assert(type_text(b).len() != type_text(GLSLTypes::MAT3X2).len()),
        GLSLTypes::DVEC4 => assert(type_text(b).len() != type_text(GLSLTypes::MAT3X2).len()),
        GLSLTypes::MAT2X2 => assert(type_text(b).len() != type_text(GLSLTypes::MAT3X2).len()),
        GLSLTypes::MAT2X3 => assert(type_text(b)[3] != type_text(GLSLTypes::MAT3X2)[3]),
        GLSLTypes::MAT2X4 => assert(type_text(b)[3] != type_text(GLSLTypes::MAT3X2)[3]),
        GLSLTypes::MAT3X2 => {},
        GLSLTypes::MAT3X3 => assert(type_text(b).len() != type_text(GLSLTypes::MAT3X2).len()),
        GLSLTypes::MAT3X4 => assert(type_text(b)[5] != type_text(GLSLTypes::MAT3X2)[5]),
        GLSLTypes::MAT4X2 => assert(type_text(b)[3] != type_text(GLSLTypes::MAT3X2)[3]),
        GLSLTypes::MAT4X3 => assert(type_text(b)[3] != type_text(GLSLTypes::MAT3X2)[3]),
        GLSLTypes::MAT4X4 => assert(type_text(b).len() != type_text(GLSLTypes::MAT3X2).len()),
    }
}

proof fn lemma_only_mat3x3_is_spelled_so(b: GLSLTypes)
    ensures
        type_text(b) == type_text(GLSLTypes::MAT3X3) ==> b == GLSLTypes::MAT3X3,
{
    match b {
        GLSLTypes::BOOL => assert(type_text(b)[0] != type_text(GLSLTypes::MAT3X3)[0]),
        GLSLTypes::INT => assert(type_text(b).len() != type_text(GLSLTypes::MAT3X3).len()),
        GLSLTypes::UINT => assert(type_text(b)[0] != type_text(GLSLTypes::MAT3X3)[0]),
        GLSLTypes::FLOAT => assert(type_text(b).len() != type_text(GLSLTypes::MAT3X3).len()),
        GLSLTypes::DOUBLE => assert(type_text(b).len() != type_text(GLSLTypes::MAT3X3).len()),
        GLSLTypes::BVEC2 => assert(type_text(b).len() != type_text(GLSLTypes::MAT3X3).len()),
        GLSLTypes::BVEC3 => assert(type_text(b).len() != type_text(GLSLTypes::MAT3X3).len()),
        GLSLTypes::BVEC4 => assert(type_text(b).len() != type_text(GLSLTypes::MAT3X3).len()),
        GLSLTypes::IVEC2 => assert(type_text(b).len() != type_text(GLSLTypes::MAT3X3).len()),
        GLSLTypes::IVEC3 => assert(type_text(b).len() != type_text(GLSLTypes::MAT3X3).len()),
        GLSLTypes::IVEC4 => assert(type_text(b).len() != type_text(GLSLTypes::MAT3X3).len()),
        GLSLTypes::UVEC2 => assert(type_text(b).len() != type_text(GLSLTypes::MAT3X3).len()),
        GLSLTypes::UVEC3 => assert(type_text(b).len() != type_text(GLSLTypes::MAT3X3).len()),
        GLSLTypes::UVEC4 => assert(type_text(b).len() != type_text(GLSLTypes::MAT3X3).len()),
        GLSLTypes::VEC2 => assert(type_text(b)[0] != type_text(GLSLTypes::MAT3X3)[0]),
        GLSLTypes::VEC3 => assert(type_text(b)[0] != type_text(GLSLTypes::MAT3X3)[0]),
        GLSLTypes::VEC4 => assert(type_text(b)[0] != type_text(GLSLTypes::MAT3X3)[0]),
        GLSLTypes::DVEC2 => assert(type_text(b).len() != type_text(GLSLTypes::MAT3X3).len()),
        GLSLTypes::DVEC3 => assert(type_text(b).len() != type_text(GLSLTypes::MAT3X3).len()),
        GLSLTypes::DVEC4 => assert(type_text(b).len() != type_text(GLSLTypes::MAT3X3).len()),
        GLSLTypes::MAT2X2 => assert(type_text(b)[3] != type_text(GLSLTypes::MAT3X3)[3]),
        GLSLTypes::MAT2X3 => assert(type_text(b).len() != type_text(GLSLTypes::MAT3X3).len()),
        GLSLTypes::MAT2X4 => assert(type_text(b).len() != type_text(GLSLTypes::MAT3X3).len()),
        GLSLTypes::MAT3X2 => assert(type_text(b).len() != type_text(GLSLTypes::MAT3X3).len()),
        GLSLTypes::MAT3X3 => {},
        GLSLTypes::MAT3X4 => assert(type_text(b).len() != type_text(GLSLTypes::MAT3X3).len()),
        GLSLTypes::MAT4X2 => assert(type_text(b).len() != type_text(GLSLTypes::MAT3X3).len()),
        GLSLTypes::MAT4X3 => assert(type_text(b).len() != type_text(GLSLTypes::MAT3X3).len()),
        GLSLTypes::MAT4X4 => assert(type_text(b)[3] != type_text(GLSLTypes::MAT3X3)[3]),
    }
}

proof fn lemma_only_mat3x4_is_spelled_so(b: GLSLTypes)
    ensures
        type_text(b) == type_text(GLSLTypes::MAT3X4) ==> b == GLSLTypes::MAT3X4,
{
    match b {
        GLSLTypes::BOOL => assert(type_text(b).len() != type_text(GLSLTypes::MAT3X4).len()),
        GLSLTypes::INT => assert(type_text(b).len() != type_text(GLSLTypes::MAT3X4).len()),
        GLSLTypes::UINT => assert(type_text(b).len() != type_text(GLSLTypes::MAT3X4).len()),
        GLSLTypes::FLOAT => assert(type_text(b).len() != type_text(GLSLTypes::MAT3X4).len()),
        GLSLTypes::DOUBLE => assert(type_text(b)[0] != type_text(GLSLTypes::MAT3X4)[0]),
        GLSLTypes::BVEC2 => assert(type_text(b).len() != type_text(GLSLTypes::MAT3X4).len()),
        GLSLTypes::BVEC3 => assert(type_text(b).len() != type_text(GLSLTypes::MAT3X4).len()),
        GLSLTypes::BVEC4 => assert(type_text(b).len() != type_text(GLSLTypes::MAT3X4).len()),
        GLSLTypes::IVEC2 => assert(type_text(b).len() != type_text(GLSLTypes::MAT3X4).len()),
        GLSLTypes::IVEC3 => assert(type_text(b).len() != type_text(GLSLTypes::MAT3X4).len()),
        GLSLTypes::IVEC4 => assert(type_text(b).len() != type_text(GLSLTypes::MAT3X4).len()),
        GLSLTypes::UVEC2 => assert(type_text(b).len() != type_text(GLSLTypes::MAT3X4).len()),
        GLSLTypes::UVEC3 => assert(type_text(b).len() != type_text(GLSLTypes::MAT3X4).len()),
        GLSLTypes::UVEC4 => assert(type_text(b).len() != type_text(GLSLTypes::MAT3X4).len()),
        GLSLTypes::VEC2 => assert(type_text(b).len() != type_text(GLSLTypes::MAT3X4).len()),
        GLSLTypes::VEC3 => assert(type_text(b).len() != type_text(GLSLTypes::MAT3X4).len()),
        GLSLTypes::VEC4 => assert(type_text(b).len() != type_text(GLSLTypes::MAT3X4).len()),
        GLSLTypes::DVEC2 => assert(type_text(b).len() != type_text(GLSLTypes::MAT3X4).len()),
        GLSLTypes::DVEC3 => assert(type_text(b).len() != type_text(GLSLTypes::MAT3X4).len()),
        GLSLTypes::DVEC4 => assert(type_text(b).len() != type_text(GLSLTypes::MAT3X4).len()),
        GLSLTypes::MAT2X2 => assert(type_text(b).len() != type_text(GLSLTypes::MAT3X4).len()),
        GLSLTypes::MAT2X3 => assert(type_text(b)[3] != type_text(GLSLTypes::MAT3X4)[3]),
        GLSLTypes::MAT2X4 => assert(type_text(b)[3] != type_text(GLSLTypes::MAT3X4)[3]),
        GLSLTypes::MAT3X2 => assert(type_text(b)[5] != type_text(GLSLTypes::MAT3X4)[5]),
        GLSLTypes::MAT3X3 => assert(type_text(b).len() != type_text(GLSLTypes::MAT3X4).len()),
        GLSLTypes::MAT3X4 => {},
        GLSLTypes::MAT4X2 => assert(type_text(b)[3] != type_text(GLSLTypes::MAT3X4)[3]),
        GLSLTypes::MAT4X3 => assert(type_text(b)[3] != type_text(GLSLTypes::MAT3X4)[3]),
        GLSLTypes::MAT4X4 => assert(type_text(b).len() != type_text(GLSLTypes::MAT3X4).len()),
    }
}

proof fn lemma_only_mat4x2_is_spelled_so(b: GLSLTypes)
    ensures
        type_text(b) == type_text(GLSLTypes::MAT4X2) ==> b == GLSLTypes::MAT4X2,
{
    match b {
        GLSLTypes::BOOL => assert(type_text(b).len() != type_text(GLSLTypes::MAT4X2).len()),
        GLSLTypes::INT => assert(type_text(b).len() != type_text(GLSLTypes::MAT4X2).len()),
        GLSLTypes::UINT => assert(type_text(b).len() != type_text(GLSLTypes::MAT4X2).len()),
        GLSLTypes::FLOAT => assert(type_text(b).len() != type_text(GLSLTypes::MAT4X2).len()),
        GLSLTypes::DOUBLE => assert(type_text(b)[0] != type_text(GLSLTypes::MAT4X2)[0]),
        GLSLTypes::BVEC2 => assert(type_text(b).len() != type_text(GLSLTypes::MAT4X2).len()),
        GLSLTypes::BVEC3 => assert(type_text(b).len() != type_text(GLSLTypes::MAT4X2).len()),
        GLSLTypes::BVEC4 => assert(type_text(b).len() != type_text(GLSLTypes::MAT4X2).len()),
        GLSLTypes::IVEC2 => assert(type_text(b).len() != type_text(GLSLTypes::MAT4X2).len()),
        GLSLTypes::IVEC3 => assert(type_text(b).len() != type_text(GLSLTypes::MAT4X2).len()),
        GLSLTypes::IVEC4 => assert(type_text(b).len() != type_text(GLSLTypes::MAT4X2).len()),
        GLSLTypes::UVEC2 => assert(type_text(b).len() != type_text(GLSLTypes::MAT4X2).len()),
        GLSLTypes::UVEC3 => assert(type_text(b).len() != type_text(GLSLTypes::MAT4X2).len()),
        GLSLTypes::UVEC4 => assert(type_text(b).len() != type_text(GLSLTypes::MAT4X2).len()),
        GLSLTypes::VEC2 => assert(type_text(b).len() != type_text(GLSLTypes::MAT4X2).len()),
        GLSLTypes::VEC3 => assert(type_text(b).len() != type_text(GLSLTypes::MAT4X2).len()),
        GLSLTypes::VEC4 => assert(type_text(b).len() != type_text(GLSLTypes::MAT4X2).len()),
        GLSLTypes::DVEC2 => assert(type_text(b).len() != type_text(GLSLTypes::MAT4X2).len()),
        GLSLTypes::DVEC3 => assert(type_text(b).len() != type_text(GLSLTypes::MAT4X2).len()),
        GLSLTypes::DVEC4 => assert(type_text(b).len() != type_text(GLSLTypes::MAT4X2).len()),
        GLSLTypes::MAT2X2 => assert(type_text(b).len() != type_text(GLSLTypes::MAT4X2).len()),
        GLSLTypes::MAT2X3 => assert(type_text(b)[3] != type_text(GLSLTypes::MAT4X2)[3]),
        GLSLTypes::MAT2X4 => assert(type_text(b)[3] != type_text(GLSLTypes::MAT4X2)[3]),
        GLSLTypes::MAT3X2 => assert(type_text(b)[3] != type_text(GLSLTypes::MAT4X2)[3]),
        GLSLTypes::MAT3X3 => assert(type_text(b).len() != type_text(GLSLTypes::MAT4X2).len()),
        GLSLTypes::MAT3X4 => assert(type_text(b)[3] != type_text(GLSLTypes::MAT4X2)[3]),
        GLSLTypes::MAT4X2 => {},
        GLSLTypes::MAT4X3 => assert(type_text(b)[5] != type_text(GLSLTypes::MAT4X2)[5]),
        GLSLTypes::MAT4X4 => assert(type_text(b).len() != type_text(GLSLTypes::MAT4X2).len()),
    }
}

proof fn lemma_only_mat4x3_is_spelled_so(b: GLSLTypes)
    ensures
        type_text(b) == type_text(GLSLTypes::MAT4X3) ==> b == GLSLTypes::MAT4X3,
{
    match b {
        GLSLTypes::BOOL => assert(type_text(b).len() != type_text(GLSLTypes::MAT4X3).len()),
        GLSLTypes::INT => assert(type_text(b).len() != type_text(GLSLTypes::MAT4X3).len()),
        GLSLTypes::UINT => assert(type_text(b).len() != type_text(GLSLTypes::MAT4X3).len()),
        GLSLTypes::FLOAT => assert(type_text(b).len() != type_text(GLSLTypes::MAT4X3).len()),
        GLSLTypes::DOUBLE => assert(type_text(b)[0] != type_text(GLSLTypes::MAT4X3)[0]),
        GLSLTypes::BVEC2 => assert(type_text(b).len() != type_text(GLSLTypes::MAT4X3).len()),
        GLSLTypes::BVEC3 => assert(type_text(b).len() != type_text(GLSLTypes::MAT4X3).len()),
        GLSLTypes::BVEC4 => assert(type_text(b).len() != type_text(GLSLTypes::MAT4X3).len()),
        GLSLTypes::IVEC2 => assert(type_text(b).len() != type_text(GLSLTypes::MAT4X3).len()),
        GLSLTypes::IVEC3 => assert(type_text(b).len() != type_text(GLSLTypes::MAT4X3).len()),
        GLSLTypes::IVEC4 => assert(type_text(b).len() != type_text(GLSLTypes::MAT4X3).len()),
        GLSLTypes::UVEC2 => assert(type_text(b).len() != type_text(GLSLTypes::MAT4X3).len()),
        GLSLTypes::UVEC3 => assert(type_text(b).len() != type_text(GLSLTypes::MAT4X3).len()),
        GLSLTypes::UVEC4 => assert(type_text(b).len() != type_text(GLSLTypes::MAT4X3).len()),
        GLSLTypes::VEC2 => assert(type_text(b).len() != type_text(GLSLTypes::MAT4X3).len()),
        GLSLTypes::VEC3 => assert(type_text(b).len() != type_text(GLSLTypes::MAT4X3).len()),
        GLSLTypes::VEC4 => assert(type_text(b).len() != type_text(GLSLTypes::MAT4X3).len()),
        GLSLTypes::DVEC2 => assert(type_text(b).len() != type_text(GLSLTypes::MAT4X3).len()),
        GLSLTypes::DVEC3 => assert(type_text(b).len() != type_text(GLSLTypes::MAT4X3).len()),
        GLSLTypes::DVEC4 => assert(type_text(b).len() != type_text(GLSLTypes::MAT4X3).len()),
        GLSLTypes::MAT2X2 => assert(type_text(b).len() != type_text(GLSLTypes::MAT4X3).len()),
        GLSLTypes::MAT2X3 => assert(type_text(b)[3] != type_text(GLSLTypes::MAT4X3)[3]),
        GLSLTypes::MAT2X4 => assert(type_text(b)[3] != type_text(GLSLTypes::MAT4X3)[3]),
        GLSLTypes::MAT3X2 => assert(type_text(b)[3] != type_text(GLSLTypes::MAT4X3)[3]),
        GLSLTypes::MAT3X3 => assert(type_text(b).len() != type_text(GLSLTypes::MAT4X3).len()),
        GLSLTypes::MAT3X4 => assert(type_text(b)[3] != type_text(GLSLTypes::MAT4X3)[3]),
        GLSLTypes::MAT4X2 => assert(type_text(b)[5] != type_text(GLSLTypes::MAT4X3)[5]),
        GLSLTypes::MAT4X3 => {},
        GLSLTypes::MAT4X4 => assert(type_text(b).len() != type_text(GLSLTypes::MAT4X3).len()),
    }
}

proof fn lemma_only_mat4x4_is_spelled_so(b: GLSLTypes)
    ensures
        type_text(b) == type_text(GLSLTypes::MAT4X4) ==> b == GLSLTypes::MAT4X4,
{
    match b {
        GLSLTypes::BOOL => assert(type_text(b)[0] != type_text(GLSLTypes::MAT4X4)[0]),
        GLSLTypes::INT => assert(type_text(b).len() != type_text(GLSLTypes::MAT4X4).len()),
        GLSLTypes::UINT => assert(type_text(b)[0] != type_text(GLSLTypes::MAT4X4)[0]),
        GLSLTypes::FLOAT => assert(type_text(b).len() != type_text(GLSLTypes::MAT4X4).len()),
        GLSLTypes::DOUBLE => assert(type_text(b).len() != type_text(GLSLTypes::MAT4X4).len()),
        GLSLTypes::BVEC2 => assert(type_text(b).len() != type_text(GLSLTypes::MAT4X4).len()),
        GLSLTypes::BVEC3 => assert(type_text(b).len() != type_text(GLSLTypes::MAT4X4).len()),
        GLSLTypes::BVEC4 => assert(type_text(b).len() != type_text(GLSLTypes::MAT4X4).len()),
        GLSLTypes::IVEC2 => assert(type_text(b).len() != type_text(GLSLTypes::MAT4X4).len()),
        GLSLTypes::IVEC3 => assert(type_text(b).len() != type_text(GLSLTypes::MAT4X4).len()),
        GLSLTypes::IVEC4 => assert(type_text(b).len() != type_text(GLSLTypes::MAT4X4).len()),
        GLSLTypes::UVEC2 => assert(type_text(b).len() != type_text(GLSLTypes::MAT4X4).len()),
        GLSLTypes::UVEC3 => assert(type_text(b).len() != type_text(GLSLTypes::MAT4X4).len()),
        GLSLTypes::UVEC4 => assert(type_text(b).len() != type_text(GLSLTypes::MAT4X4).len()),
        GLSLTypes::VEC2 => assert(type_text(b)[0] != type_text(GLSLTypes::MAT4X4)[0]),
        GLSLTypes::VEC3 => assert(type_text(b)[0] != type_text(GLSLTypes::MAT4X4)[0]),
        GLSLTypes::VEC4 => assert(type_text(b)[0] != type_text(GLSLTypes::MAT4X4)[0]),
        GLSLTypes::DVEC2 => assert(type_text(b).len() != type_text(GLSLTypes::MAT4X4).len()),
        GLSLTypes::DVEC3 => assert(type_text(b).len() != type_text(GLSLTypes::MAT4X4).len()),
        GLSLTypes::DVEC4 => assert(type_text(b).len() != type_text(GLSLTypes::MAT4X4).len()),
        GLSLTypes::MAT2X2 => assert(type_text(b)[3] != type_text(GLSLTypes::MAT4X4)[3]),
        GLSLTypes::MAT2X3 => assert(type_text(b).len() != type_text(GLSLTypes::MAT4X4).len()),
        GLSLTypes::MAT2X4 => assert(type_text(b).len() != type_text(GLSLTypes::MAT4X4).len()),
        GLSLTypes::MAT3X2 => assert(type_text(b).len() != type_text(GLSLTypes::MAT4X4).len()),
        GLSLTypes::MAT3X3 => assert(type_text(b)[3] != type_text(GLSLTypes::MAT4X4)[3]),
        GLSLTypes::MAT3X4 => assert(type_text(b).len() != type_text(GLSLTypes::MAT4X4).len()),
        GLSLTypes::MAT4X2 => assert(type_text(b).len() != type_text(GLSLTypes::MAT4X4).len()),
        GLSLTypes::MAT4X3 => assert(type_text(b).len() != type_text(GLSLTypes::MAT4X4).len()),
        GLSLTypes::MAT4X4 => {},
    }
}

/// Distinct types have distinct names: the name of a type determines it.
pub proof fn lemma_type_text_injective(a: GLSLTypes, b: GLSLTypes)
    ensures
        type_text(a) == type_text(b) ==> a == b,
{
    match a {
        GLSLTypes::BOOL => lemma_only_bool_is_spelled_so(b),
        GLSLTypes::INT => lemma_only_int_is_spelled_so(b),
        GLSLTypes::UINT => lemma_only_uint_is_spelled_so(b),
        GLSLTypes::FLOAT => lemma_only_float_is_spelled_so(b),
        GLSLTypes::DOUBLE => lemma_only_double_is_spelled_so(b),
        GLSLTypes::BVEC2 => lemma_only_bvec2_is_spelled_so(b),
        GLSLTypes::BVEC3 => lemma_only_bvec3_is_spelled_so(b),
        GLSLTypes::BVEC4 => lemma_only_bvec4_is_spelled_so(b),
        GLSLTypes::IVEC2 => lemma_only_ivec2_is_spelled_so(b),
        GLSLTypes::IVEC3 => lemma_only_ivec3_is_spelled_so(b),
        GLSLTypes::IVEC4 => lemma_only_ivec4_is_spelled_so(b),
        GLSLTypes::UVEC2 => lemma_only_uvec2_is_spelled_so(b),
        GLSLTypes::UVEC3 => lemma_only_uvec3_is_spelled_so(b),
        GLSLTypes::UVEC4 => lemma_only_uvec4_is_spelled_so(b),
        GLSLTypes::VEC2 => lemma_only_vec2_is_spelled_so(b),
        GLSLTypes::VEC3 => lemma_only_vec3_is_spelled_so(b),
        GLSLTypes::VEC4 => lemma_only_vec4_is_spelled_so(b),
        GLSLTypes::DVEC2 => lemma_only_dvec2_is_spelled_so(b),
        GLSLTypes::DVEC3 => lemma_only_dvec3_is_spelled_so(b),
        GLSLTypes::DVEC4 => lemma_only_dvec4_is_spelled_so(b),
        GLSLTypes::MAT2X2 => lemma_only_mat2x2_is_spelled_so(b),
        GLSLTypes::MAT2X3 => lemma_only_mat2x3_is_spelled_so(b),
        GLSLTypes::MAT2X4 => lemma_only_mat2x4_is_spelled_so(b),
        GLSLTypes::MAT3X2 => lemma_only_mat3x2_is_spelled_so(b),
        GLSLTypes::MAT3X3 => lemma_only_mat3x3_is_spelled_so(b),
        GLSLTypes::MAT3X4 => lemma_only_mat3x4_is_spelled_so(b),
        GLSLTypes::MAT4X2 => lemma_only_mat4x2_is_spelled_so(b),
        GLSLTypes::MAT4X3 => lemma_only_mat4x3_is_spelled_so(b),
        GLSLTypes::MAT4X4 => lemma_only_mat4x4_is_spelled_so(b),
    }
}

/// Every type name is a keyword of lower-case letters and digits.
pub proof fn lemma_type_text_is_keyword(t: GLSLTypes)
    ensures
        is_keyword_text(type_text(t)),
{
    let s = type_text(t);
    assert forall|i: int| 0 <= i < s.len() implies ('a' <= #[trigger] s[i] && s[i] <= 'z') || ('0' <= s[i] && s[i] <= '9') by {
        match t {
            GLSLTypes::BOOL => {},
            GLSLTypes::INT => {},
            GLSLTypes::UINT => {},
            GLSLTypes::FLOAT => {},
            GLSLTypes::DOUBLE => {},
            GLSLTypes::BVEC2 => {},
            GLSLTypes::BVEC3 => {},
            GLSLTypes::BVEC4 => {},
            GLSLTypes::IVEC2 => {},
            GLSLTypes::IVEC3 => {},
            GLSLTypes::IVEC4 => {},
            GLSLTypes::UVEC2 => {},
            GLSLTypes::UVEC3 => {},
            GLSLTypes::UVEC4 => {},
            GLSLTypes::VEC2 => {},
            GLSLTypes::VEC3 => {},
            GLSLTypes::VEC4 => {},
            GLSLTypes::DVEC2 => {},
            GLSLTypes::DVEC3 => {},
            GLSLTypes::DVEC4 => {},
            GLSLTypes::MAT2X2 => {},
            GLSLTypes::MAT2X3 => {},
            GLSLTypes::MAT2X4 => {},
            GLSLTypes::MAT3X2 => {},
            GLSLTypes::MAT3X3 => {},
            GLSLTypes::MAT3X4 => {},
            GLSLTypes::MAT4X2 => {},
            GLSLTypes::MAT4X3 => {},
            GLSLTypes::MAT4X4 => {},
        }
    }
}

} // verus!

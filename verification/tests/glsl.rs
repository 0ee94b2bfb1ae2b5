use pmxview::glsl::{GLSLCompleteMode, GLSLDirection, GLSLTypes, InOutTableEntry, UniformTableEntry};
use pmxview::text::{same_text, u32_to_decimal};

#[test]
fn type_names() {
    assert_eq!(GLSLTypes::BOOL.to_string(), "bool");
    assert_eq!(GLSLTypes::UINT.to_string(), "uint");
    assert_eq!(GLSLTypes::DVEC3.to_string(), "dvec3");
    assert_eq!(GLSLTypes::MAT2X2.to_string(), "mat2");
    assert_eq!(GLSLTypes::MAT3X3.to_string(), "mat3");
    assert_eq!(GLSLTypes::MAT4X4.to_string(), "mat4");
    assert_eq!(GLSLTypes::MAT2X3.to_string(), "mat2x3");
    assert_eq!(GLSLTypes::MAT4X2.to_string(), "mat4x2");
}

#[test]
fn qualifier_names() {
    assert_eq!(GLSLCompleteMode::Smooth.to_string(), "");
    assert_eq!(GLSLCompleteMode::Flat.to_string(), "flat");
    assert_eq!(GLSLDirection::IN.to_string(), "in");
    assert_eq!(GLSLDirection::OUT.to_string(), "out");
    assert_eq!(GLSLDirection::INOUT.to_string(), "inout");
}

#[test]
fn in_out_line() {
    let e = InOutTableEntry {
        complete: GLSLCompleteMode::Flat,
        location: 3,
        direction: GLSLDirection::OUT,
        types: GLSLTypes::VEC4,
        name: "color".to_string(),
    };
    assert_eq!(e.to_string(), "flat layout( location = 3 ) out vec4 color");
    let s = InOutTableEntry {
        complete: GLSLCompleteMode::Smooth,
        location: 10,
        direction: GLSLDirection::IN,
        types: GLSLTypes::FLOAT,
        name: "x".to_string(),
    };
    assert_eq!(s.to_string(), " layout( location = 10 ) in float x");
}

#[test]
fn uniform_line() {
    let e = UniformTableEntry { set: 1, binding: 2, types: GLSLTypes::MAT4X4, name: "mvp".to_string() };
    assert_eq!(e.to_string(), "uniform layout ( set = 1 , binding = 2 ) mat4 mvp ;");
}

#[test]
fn decimal_numerals() {
    assert_eq!(u32_to_decimal(0), "0");
    assert_eq!(u32_to_decimal(7), "7");
    assert_eq!(u32_to_decimal(100), "100");
    assert_eq!(u32_to_decimal(4294967295), "4294967295");
    for n in [0u32, 1, 9, 10, 99, 12345, 65536, u32::MAX] {
        assert_eq!(u32_to_decimal(n), n.to_string());
        assert_eq!(u32_to_decimal(n).parse::<u32>().unwrap(), n);
    }
}

#[test]
fn text_equality() {
    assert!(same_text("fsh", "fsh"));
    assert!(!same_text("fsh", "fs"));
    assert!(!same_text("fsh", "vsh"));
    assert!(same_text("", ""));
}

#[test]
fn type_names_are_distinct_lowercase_keywords() {
    let all = [
        GLSLTypes::BOOL, GLSLTypes::INT, GLSLTypes::UINT, GLSLTypes::FLOAT, GLSLTypes::DOUBLE,
        GLSLTypes::BVEC2, GLSLTypes::BVEC3, GLSLTypes::BVEC4, GLSLTypes::IVEC2, GLSLTypes::IVEC3,
        GLSLTypes::IVEC4, GLSLTypes::UVEC2, GLSLTypes::UVEC3, GLSLTypes::UVEC4, GLSLTypes::VEC2,
        GLSLTypes::VEC3, GLSLTypes::VEC4, GLSLTypes::DVEC2, GLSLTypes::DVEC3, GLSLTypes::DVEC4,
        GLSLTypes::MAT2X2, GLSLTypes::MAT2X3, GLSLTypes::MAT2X4, GLSLTypes::MAT3X2, GLSLTypes::MAT3X3,
        GLSLTypes::MAT3X4, GLSLTypes::MAT4X2, GLSLTypes::MAT4X3, GLSLTypes::MAT4X4,
    ];
    for a in all {
        let name = a.to_string();
        assert!(!name.is_empty());
        assert!(name.chars().all(|c| c.is_ascii_lowercase() || c.is_ascii_digit()));
        for b in all {
            if a != b {
                assert_ne!(name, b.to_string());
            }
        }
    }
}

//! The texts of Metal that have no brackets.

use crate::laws::nesting;
use crate::decimal;
use crate::interface;
use crate::ir::{
    BinaryOperator, DerivativeAxis, ImageDimension, MathFunction, RelationalFunction, ScalarKind,
    ShaderStage, StorageAccess, StorageClass, UnaryOperator, VectorSize,
};
use crate::keyword;
use vstd::prelude::*;

verus! {

/// The fixed texts without brackets are nested.
pub proof fn lemma_words()
    ensures
        nesting::is_nested("    "@),
        nesting::is_nested(" "@),
        nesting::is_nested(""@),
        nesting::is_nested("\n"@),
        nesting::is_nested(";\n"@),
        nesting::is_nested(";"@),
        nesting::is_nested(","@),
        nesting::is_nested(", "@),
        nesting::is_nested(" = "@),
        nesting::is_nested("typedef "@),
        nesting::is_nested("typedef metal::"@),
        nesting::is_nested("x"@),
        nesting::is_nested(" *"@),
        nesting::is_nested("typedef metal::sampler "@),
        nesting::is_nested("struct "@),
        nesting::is_nested("metal::"@),
        nesting::is_nested("<"@),
        nesting::is_nested(">"@),
        nesting::is_nested(", metal::access::"@),
        nesting::is_nested("texture"@),
        nesting::is_nested("depth"@),
        nesting::is_nested("_ms"@),
        nesting::is_nested("_array"@),
        nesting::is_nested("sample"@),
        nesting::is_nested("1"@),
        nesting::is_nested("u"@),
        nesting::is_nested(".0"@),
        nesting::is_nested("true"@),
        nesting::is_nested("false"@),
        nesting::is_nested("-"@),
        nesting::is_nested("Input"@),
        nesting::is_nested("Output"@),
        nesting::is_nested(" output;\n"@),
        nesting::is_nested(" void "@),
        nesting::is_nested("void"@),
        nesting::is_nested("case "@),
        nesting::is_nested("break;\n"@),
        nesting::is_nested("continue;\n"@),
        nesting::is_nested("bool "@),
        nesting::is_nested(" = true;\n"@),
        nesting::is_nested("loop_init = false;\n"@),
        nesting::is_nested("return "@),
        nesting::is_nested("output"@),
        nesting::is_nested("input"@),
        nesting::is_nested("."@),
        nesting::is_nested(" ? "@),
        nesting::is_nested(" : "@),
        nesting::is_nested("static_cast"@),
        nesting::is_nested("as_type"@),
        nesting::is_nested("sample_compare"@),
        nesting::is_nested("device "@),
        nesting::is_nested("constant "@),
        nesting::is_nested("&"@),
        nesting::is_nested("#include <metal_stdlib>\n"@),
        nesting::is_nested("#include <simd/simd.h>\n"@),
{
    reveal_strlit("    ");
    nesting::lemma_plain("    "@);
    reveal_strlit(" ");
    nesting::lemma_plain(" "@);
    reveal_strlit("");
    nesting::lemma_plain(""@);
    reveal_strlit("\n");
    nesting::lemma_plain("\n"@);
    reveal_strlit(";\n");
    nesting::lemma_plain(";\n"@);
    reveal_strlit(";");
    nesting::lemma_plain(";"@);
    reveal_strlit(",");
    nesting::lemma_plain(","@);
    reveal_strlit(", ");
    nesting::lemma_plain(", "@);
    reveal_strlit(" = ");
    nesting::lemma_plain(" = "@);
    reveal_strlit("typedef ");
    nesting::lemma_plain("typedef "@);
    reveal_strlit("typedef metal::");
    nesting::lemma_plain("typedef metal::"@);
    reveal_strlit("x");
    nesting::lemma_plain("x"@);
    reveal_strlit(" *");
    nesting::lemma_plain(" *"@);
    reveal_strlit("typedef metal::sampler ");
    nesting::lemma_plain("typedef metal::sampler "@);
    reveal_strlit("struct ");
    nesting::lemma_plain("struct "@);
    reveal_strlit("metal::");
    nesting::lemma_plain("metal::"@);
    reveal_strlit("<");
    nesting::lemma_plain("<"@);
    reveal_strlit(">");
    nesting::lemma_plain(">"@);
    reveal_strlit(", metal::access::");
    nesting::lemma_plain(", metal::access::"@);
    reveal_strlit("texture");
    nesting::lemma_plain("texture"@);
    reveal_strlit("depth");
    nesting::lemma_plain("depth"@);
    reveal_strlit("_ms");
    nesting::lemma_plain("_ms"@);
    reveal_strlit("_array");
    nesting::lemma_plain("_array"@);
    reveal_strlit("sample");
    nesting::lemma_plain("sample"@);
    reveal_strlit("1");
    nesting::lemma_plain("1"@);
    reveal_strlit("u");
    nesting::lemma_plain("u"@);
    reveal_strlit(".0");
    nesting::lemma_plain(".0"@);
    reveal_strlit("true");
    nesting::lemma_plain("true"@);
    reveal_strlit("false");
    nesting::lemma_plain("false"@);
    reveal_strlit("-");
    nesting::lemma_plain("-"@);
    reveal_strlit("Input");
    nesting::lemma_plain("Input"@);
    reveal_strlit("Output");
    nesting::lemma_plain("Output"@);
    reveal_strlit(" output;\n");
    nesting::lemma_plain(" output;\n"@);
    reveal_strlit(" void ");
    nesting::lemma_plain(" void "@);
    reveal_strlit("void");
    nesting::lemma_plain("void"@);
    reveal_strlit("case ");
    nesting::lemma_plain("case "@);
    reveal_strlit("break;\n");
    nesting::lemma_plain("break;\n"@);
    reveal_strlit("continue;\n");
    nesting::lemma_plain("continue;\n"@);
    reveal_strlit("bool ");
    nesting::lemma_plain("bool "@);
    reveal_strlit(" = true;\n");
    nesting::lemma_plain(" = true;\n"@);
    reveal_strlit("loop_init = false;\n");
    nesting::lemma_plain("loop_init = false;\n"@);
    reveal_strlit("return ");
    nesting::lemma_plain("return "@);
    reveal_strlit("output");
    nesting::lemma_plain("output"@);
    reveal_strlit("input");
    nesting::lemma_plain("input"@);
    reveal_strlit(".");
    nesting::lemma_plain("."@);
    reveal_strlit(" ? ");
    nesting::lemma_plain(" ? "@);
    reveal_strlit(" : ");
    nesting::lemma_plain(" : "@);
    reveal_strlit("static_cast");
    nesting::lemma_plain("static_cast"@);
    reveal_strlit("as_type");
    nesting::lemma_plain("as_type"@);
    reveal_strlit("sample_compare");
    nesting::lemma_plain("sample_compare"@);
    reveal_strlit("device ");
    nesting::lemma_plain("device "@);
    reveal_strlit("constant ");
    nesting::lemma_plain("constant "@);
    reveal_strlit("&");
    nesting::lemma_plain("&"@);
    reveal_strlit("#include <metal_stdlib>\n");
    nesting::lemma_plain("#include <metal_stdlib>\n"@);
    reveal_strlit("#include <simd/simd.h>\n");
    nesting::lemma_plain("#include <simd/simd.h>\n"@);
}

/// The name of a scalar type has no brackets.
pub broadcast proof fn lemma_scalar_kind(kind: ScalarKind)
    ensures
        nesting::is_nested(#[trigger] keyword::scalar_kind_text(kind)),
{
    reveal_strlit("float");
    reveal_strlit("int");
    reveal_strlit("uint");
    reveal_strlit("bool");
    nesting::lemma_plain(keyword::scalar_kind_text(kind));
}

/// The size of a vector has no brackets.
pub broadcast proof fn lemma_vector_size(size: VectorSize)
    ensures
        nesting::is_nested(#[trigger] keyword::vector_size_text(size)),
{
    reveal_strlit("2");
    reveal_strlit("3");
    reveal_strlit("4");
    nesting::lemma_plain(keyword::vector_size_text(size));
}

/// The dimension of an image has no brackets.
pub broadcast proof fn lemma_dimension(dim: ImageDimension)
    ensures
        nesting::is_nested(#[trigger] keyword::dimension_text(dim)),
{
    reveal_strlit("1d");
    reveal_strlit("2d");
    reveal_strlit("3d");
    reveal_strlit("cube");
    nesting::lemma_plain(keyword::dimension_text(dim));
}

/// A unary operator has no brackets.
pub broadcast proof fn lemma_unary(op: UnaryOperator)
    ensures
        nesting::is_nested(#[trigger] keyword::unary_text(op)),
{
    reveal_strlit("-");
    reveal_strlit("!");
    nesting::lemma_plain(keyword::unary_text(op));
}

/// A binary operator has no brackets.
pub broadcast proof fn lemma_binary(op: BinaryOperator)
    ensures
        (#[trigger] keyword::binary_text(op)) matches Some(text) ==> nesting::is_nested(text),
{
    reveal_strlit("+");
    reveal_strlit("-");
    reveal_strlit("*");
    reveal_strlit("/");
    reveal_strlit("%");
    reveal_strlit("==");
    reveal_strlit("!=");
    reveal_strlit("<");
    reveal_strlit("<=");
    reveal_strlit(">");
    reveal_strlit(">=");
    reveal_strlit("&");
    if let Some(text) = keyword::binary_text(op) {
        nesting::lemma_plain(text);
    }
}

/// The name of a derivative has no brackets.
pub broadcast proof fn lemma_derivative(axis: DerivativeAxis)
    ensures
        nesting::is_nested(#[trigger] keyword::derivative_text(axis)),
{
    reveal_strlit("dfdx");
    reveal_strlit("dfdy");
    reveal_strlit("fwidth");
    nesting::lemma_plain(keyword::derivative_text(axis));
}

/// The name of a relational function has no brackets.
pub broadcast proof fn lemma_relational(fun: RelationalFunction)
    ensures
        nesting::is_nested(#[trigger] keyword::relational_text(fun)),
{
    reveal_strlit("any");
    reveal_strlit("all");
    reveal_strlit("isnan");
    reveal_strlit("isinf");
    reveal_strlit("isfinite");
    reveal_strlit("isnormal");
    nesting::lemma_plain(keyword::relational_text(fun));
}

/// The name of a math function has no brackets.
pub broadcast proof fn lemma_math(fun: MathFunction)
    ensures
        (#[trigger] keyword::math_text(fun)) matches Some(text) ==> nesting::is_nested(text),
{
    reveal_strlit("abs");
    reveal_strlit("min");
    reveal_strlit("max");
    reveal_strlit("clamp");
    reveal_strlit("cos");
    reveal_strlit("cosh");
    reveal_strlit("sin");
    reveal_strlit("sinh");
    reveal_strlit("tan");
    reveal_strlit("tanh");
    reveal_strlit("acos");
    reveal_strlit("asin");
    reveal_strlit("atan");
    reveal_strlit("atan2");
    reveal_strlit("ceil");
    reveal_strlit("floor");
    reveal_strlit("round");
    reveal_strlit("fract");
    reveal_strlit("trunc");
    reveal_strlit("modf");
    reveal_strlit("frexp");
    reveal_strlit("ldexp");
    reveal_strlit("exp");
    reveal_strlit("exp2");
    reveal_strlit("log");
    reveal_strlit("log2");
    reveal_strlit("pow");
    reveal_strlit("dot");
    reveal_strlit("cross");
    reveal_strlit("distance");
    reveal_strlit("length");
    reveal_strlit("normalize");
    reveal_strlit("faceforward");
    reveal_strlit("reflect");
    reveal_strlit("sign");
    reveal_strlit("fma");
    reveal_strlit("mix");
    reveal_strlit("step");
    reveal_strlit("smoothstep");
    reveal_strlit("sqrt");
    reveal_strlit("rsqrt");
    reveal_strlit("transpose");
    reveal_strlit("determinant");
    reveal_strlit("popcount");
    reveal_strlit("reverse_bits");
    if let Some(text) = keyword::math_text(fun) {
        nesting::lemma_plain(text);
    }
}

/// The name of a component has no brackets.
pub broadcast proof fn lemma_component(index: nat)
    ensures
        nesting::is_nested(#[trigger] keyword::component_text(index)),
{
    reveal_strlit("x");
    reveal_strlit("y");
    reveal_strlit("z");
    reveal_strlit("w");
    nesting::lemma_plain(keyword::component_text(index));
}

/// The name of an access has no brackets.
pub broadcast proof fn lemma_access(access: StorageAccess)
    ensures
        (#[trigger] keyword::access_text(access)) matches Some(text) ==> nesting::is_nested(text),
{
    reveal_strlit("read_write");
    reveal_strlit("write");
    reveal_strlit("read");
    if let Some(text) = keyword::access_text(access) {
        nesting::lemma_plain(text);
    }
}

/// The name of an address space has no brackets.
pub broadcast proof fn lemma_pointer_class(class: StorageClass)
    ensures
        (#[trigger] keyword::pointer_class_text(class)) matches Some(text) ==> nesting::is_nested(
            text,
        ),
{
    reveal_strlit("constant");
    reveal_strlit("device");
    reveal_strlit("");
    if let Some(text) = keyword::pointer_class_text(class) {
        nesting::lemma_plain(text);
    }
}

/// A separator has no brackets.
pub broadcast proof fn lemma_separator(is_last: bool)
    ensures
        nesting::is_nested(#[trigger] keyword::separator_text(is_last)),
{
    reveal_strlit("");
    reveal_strlit(",");
    nesting::lemma_plain(keyword::separator_text(is_last));
}

/// The word of a stage has no brackets.
pub broadcast proof fn lemma_stage(stage: ShaderStage)
    ensures
        nesting::is_nested(#[trigger] interface::stage_text(stage)),
{
    reveal_strlit("vertex");
    reveal_strlit("fragment");
    reveal_strlit("kernel");
    nesting::lemma_plain(interface::stage_text(stage));
}

/// An indentation has no brackets.
pub broadcast proof fn lemma_indentation(level: nat)
    ensures
        nesting::is_nested(#[trigger] keyword::indentation(level)),
{
    crate::laws::layout::law_indentation(level);
    nesting::lemma_plain(keyword::indentation(level));
}

/// A number has no brackets.
pub broadcast proof fn lemma_decimal(n: nat)
    ensures
        nesting::is_nested(#[trigger] decimal::decimal(n)),
{
    crate::laws::numeral::law_decimal(n);
    nesting::lemma_plain(decimal::decimal(n));
}

/// A number with a sign has no brackets.
pub broadcast proof fn lemma_signed_decimal(i: int)
    ensures
        nesting::is_nested(#[trigger] decimal::signed_decimal(i)),
{
    lemma_words();
    if i < 0 {
        lemma_decimal((-i) as nat);
        nesting::lemma_nested_add("-"@, decimal::decimal((-i) as nat));
    } else {
        lemma_decimal(i as nat);
    }
}

pub broadcast group group_words {
    lemma_scalar_kind,
    lemma_vector_size,
    lemma_dimension,
    lemma_unary,
    lemma_binary,
    lemma_derivative,
    lemma_relational,
    lemma_math,
    lemma_component,
    lemma_access,
    lemma_pointer_class,
    lemma_separator,
    lemma_stage,
    lemma_indentation,
    lemma_decimal,
    lemma_signed_decimal,
}

} // verus!

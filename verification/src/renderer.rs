//! The shader of a whole tree, ready for the renderer.

use array_tool::vec::Uniq;
use vstd::prelude::*;
use crate::primitive::Primitive;
use crate::shader::{compile, local_point};
use crate::text::{concat_all, concat_strings};

verus! {

/// The blocks in order, without those that stood in the sequence before.
pub open spec fn first_occurrences(blocks: Seq<Seq<char>>) -> Seq<Seq<char>>
    decreases blocks.len(),
{
    if blocks.len() == 0 {
        Seq::empty()
    } else {
        let before = first_occurrences(blocks.drop_last());
        if blocks.drop_last().contains(blocks.last()) {
            before
        } else {
            before.push(blocks.last())
        }
    }
}

/// The declaration of the world transform and the entry point `map`, which
/// applies the transform to its point and returns `expr`.
pub open spec fn map_function(expr: Seq<char>) -> Seq<char> {
    "\nuniform mat4 iWorldTransform;\n\nfloat map(in vec3 p) {\n    p = (vec4(p, 1) * iWorldTransform).xyz;\n    return "@
        + expr + ";\n}"@
}

/// The shader source from the helper functions of a tree, the expression of
/// the tree and the fixed part of the renderer: the helpers, each text once and
/// in the order of its first emission, then `map`, then the fixed part.
pub open spec fn renderer_shader(
    code: Seq<Seq<char>>,
    expr: Seq<char>,
    main_renderer: Seq<char>,
) -> Seq<char> {
    concat_all(first_occurrences(code)) + "\n"@ + map_function(expr) + "\n"@ + main_renderer
}

/// Calls `array_tool::vec::Uniq::unique` on the blocks. The crate's
/// implementation walks the vector from the back and removes, for each
/// element, the equal elements behind it; so of equal blocks the first stays,
/// and the blocks that stay keep their order.
#[verifier::external_body]
fn unique_blocks(blocks: &Vec<String>) -> (kept: Vec<String>)
    ensures
        kept.deep_view() == first_occurrences(blocks.deep_view()),
{
    blocks.unique()
}

/// Assembles the shader of a tree from its helper functions and its expression.
pub fn assemble_shader(code: &Vec<String>, expr: &str, main_renderer: &str) -> (shader: String)
    ensures
        shader@ == renderer_shader(code.deep_view(), expr@, main_renderer@),
{
    let kept = unique_blocks(code);
    let kept_blocks = kept.as_slice();
    assert(kept_blocks.deep_view() =~= kept.deep_view());
    let mut shader = concat_strings(kept_blocks);
    shader.append("\n");
    let mut map = String::from_str(
        "\nuniform mat4 iWorldTransform;\n\nfloat map(in vec3 p) {\n    p = (vec4(p, 1) * iWorldTransform).xyz;\n    return ",
    );
    map.append(expr);
    map.append(";\n}");
    shader.append(map.as_str());
    shader.append("\n");
    shader.append(main_renderer);
    shader
}

/// The shader source of a tree: its helper functions, the entry point
/// `float map(in vec3 p)` that returns the distance of the tree at `p`, and
/// `main_renderer`, the fixed part that marches rays through `map`.
pub fn generate_renderer_shader(obj: &Primitive, main_renderer: &str) -> (shader: String)
    ensures
        shader@ == renderer_shader(
            compile(obj@, local_point(), Seq::empty()).code,
            compile(obj@, local_point(), Seq::empty()).expr,
            main_renderer@,
        ),
{
    let mut static_code: Vec<String> = Vec::new();
    assert(static_code.deep_view() =~= Seq::<Seq<char>>::empty());
    let expr = obj.expression("p", &mut static_code);
    assemble_shader(&static_code, expr.as_str(), main_renderer)
}

} // verus!

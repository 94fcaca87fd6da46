//! What holds of every shape and of every compilation.

use vstd::prelude::*;
use crate::boolean_kind::BooleanKind;
use crate::boxes::shrunk;
use crate::decimal::{digit_char, nat_text, padded_text};
use crate::min_function::{kind_of, Kernel};
use crate::renderer::first_occurrences;
use crate::scalar::magnitude;
use crate::shader::{
    bend_helper, blend_helper, blend_name, blend_stem, box_helper, capped_cylinder_helper,
    capped_torus_helper, capsule_helper, compile, compile_all, compile_blend, blend_body,
    least_magnitude, local_point, round_box_helper, rounded_cylinder_helper, torus_helper,
    twist_helper,
};
use crate::shape::{difference_of, difference_parts, intersection_of, negated, union_of, Shape};
use crate::vector::{halved, V3};

verus! {

/// The number of helper functions that a tree appends.
pub open spec fn helper_count(shape: Shape) -> nat
    decreases shape, 0nat,
{
    match shape {
        Shape::Sphere { .. } => 0,
        Shape::Plane { .. } => 0,
        Shape::ExactBox { .. } => 1,
        Shape::RoundBox { .. } => 1,
        Shape::Cylinder { ends, .. } => if ends is Some {
            1
        } else {
            0
        },
        Shape::RoundedCylinder { .. } => 1,
        Shape::Capsule { .. } => 1,
        Shape::Torus { .. } => 1,
        Shape::Translate { child, .. } => helper_count(*child),
        Shape::Rotate { child, .. } => helper_count(*child),
        Shape::Scale { child, .. } => helper_count(*child),
        Shape::Repeat { child, .. } => helper_count(*child),
        Shape::Twist { child, .. } => helper_count(*child) + 1,
        Shape::Bend { child, .. } => helper_count(*child) + 1,
        Shape::Boolean { children, .. } => helper_count_all(children) + 1,
        Shape::Negation { child } => helper_count(*child),
    }
}

/// The number of helper functions that the trees append together.
pub open spec fn helper_count_all(children: Seq<Shape>) -> nat
    decreases children, 1nat,
{
    if children.len() == 0 {
        0
    } else {
        helper_count_all(children.drop_last()) + helper_count(children.last())
    }
}

/// Pushing a block keeps the blocks before it.
proof fn lemma_push_keeps(code: Seq<Seq<char>>, block: Seq<char>, kept: int)
    requires
        0 <= kept <= code.len(),
    ensures
        code.push(block).take(kept) == code.take(kept),
        code.take(code.len() as int) == code,
{
    assert(code.push(block).take(kept) =~= code.take(kept));
    assert(code.take(code.len() as int) =~= code);
}

/// Compilation only appends. The helpers emitted before stay what and where
/// they were, and the number of helpers that a tree appends depends neither on
/// the point nor on what was emitted before.
pub proof fn lemma_compile_appends(shape: Shape, p: Seq<char>, code: Seq<Seq<char>>)
    ensures
        compile(shape, p, code).code.len() == code.len() + helper_count(shape),
        compile(shape, p, code).code.take(code.len() as int) == code,
    decreases shape, 0nat,
{
    let after = compile(shape, p, code).code;
    let n = code.len() as int;
    match shape {
        Shape::Sphere { .. } => {
            lemma_push_keeps(code, Seq::empty(), n);
        },
        Shape::Plane { .. } => {
            lemma_push_keeps(code, Seq::empty(), n);
        },
        Shape::ExactBox { .. } => {
            lemma_push_keeps(code, box_helper(), n);
        },
        Shape::RoundBox { .. } => {
            lemma_push_keeps(code, round_box_helper(), n);
        },
        Shape::Cylinder { ends, .. } => {
            lemma_push_keeps(code, capped_cylinder_helper(), n);
        },
        Shape::RoundedCylinder { .. } => {
            lemma_push_keeps(code, rounded_cylinder_helper(), n);
        },
        Shape::Capsule { .. } => {
            lemma_push_keeps(code, capsule_helper(), n);
        },
        Shape::Torus { cap, .. } => {
            lemma_push_keeps(code, capped_torus_helper(), n);
            lemma_push_keeps(code, torus_helper(), n);
        },
        Shape::Translate { child, vector } => {
            lemma_compile_appends(*child, crate::shader::translate_point(p, vector), code);
        },
        Shape::Rotate { child, matrix } => {
            lemma_compile_appends(*child, crate::shader::rotate_point(p, matrix), code);
        },
        Shape::Scale { child, scale } => {
            lemma_compile_appends(*child, crate::shader::scale_point(p, scale), code);
        },
        Shape::Repeat { child, cell, min, max } => {
            lemma_compile_appends(*child, crate::shader::repeat_point(p, cell, min, max), code);
        },
        Shape::Twist { child, height_per_rotation } => {
            let point = crate::shader::twist_point(p, height_per_rotation);
            lemma_compile_appends(*child, point, code);
            lemma_push_keeps(compile(*child, point, code).code, twist_helper(), n);
        },
        Shape::Bend { child, distance_for_full_circle } => {
            let point = crate::shader::bend_point(p, distance_for_full_circle);
            lemma_compile_appends(*child, point, code);
            lemma_push_keeps(compile(*child, point, code).code, bend_helper(), n);
        },
        Shape::Boolean { children, kernel, negate } => {
            lemma_compile_all_appends(children, code);
            let args = compile_all(children, code);
            let blend = compile_blend(children, kernel, p, code);
            let name = blend_name(kind_of(kernel), args.code.len());
            let helper = blend_helper(name, blend_body(kernel, args.exprs));
            assert(blend.code == args.code.push(helper));
            assert(after == blend.code);
            lemma_push_keeps(args.code, helper, n);
        },
        Shape::Negation { child } => {
            lemma_compile_appends(*child, p, code);
        },
    }
}

/// The children of a boolean only append, and as many helpers as they hold.
pub proof fn lemma_compile_all_appends(children: Seq<Shape>, code: Seq<Seq<char>>)
    ensures
        compile_all(children, code).code.len() == code.len() + helper_count_all(children),
        compile_all(children, code).code.take(code.len() as int) == code,
    decreases children, 1nat,
{
    if children.len() == 0 {
        assert(code.take(code.len() as int) =~= code);
    } else {
        let before = compile_all(children.drop_last(), code);
        lemma_compile_all_appends(children.drop_last(), code);
        lemma_compile_appends(children.last(), local_point(), before.code);
        let after = compile_all(children, code).code;
        assert(after.take(code.len() as int) =~= after.take(before.code.len() as int).take(
            code.len() as int,
        ));
    }
}

/// Whether a block is a helper whose text does not tell where it was emitted:
/// the helper of a kind of leaf or of a warp. Every shape of the kind emits the
/// same block, of which the renderer keeps one.
pub open spec fn is_shared_helper(block: Seq<char>) -> bool {
    ||| block == box_helper()
    ||| block == round_box_helper()
    ||| block == capped_cylinder_helper()
    ||| block == rounded_cylinder_helper()
    ||| block == capsule_helper()
    ||| block == torus_helper()
    ||| block == capped_torus_helper()
    ||| block == twist_helper()
    ||| block == bend_helper()
}

/// Whether a block is the helper of a blend that is named by `position`.
pub open spec fn is_blend_helper_at(block: Seq<char>, position: nat) -> bool {
    exists|kind: BooleanKind, body: Seq<char>|
        block == #[trigger] blend_helper(blend_name(kind, position), body)
}

/// Every helper that a tree appends is either shared, or the helper of a
/// blend that is named by its own position among the helpers. With
/// [`lemma_blend_names_differ`], no two helpers of blends in one compilation
/// define a function of the same name.
pub proof fn lemma_helpers_named_by_position(
    shape: Shape,
    p: Seq<char>,
    code: Seq<Seq<char>>,
    i: int,
)
    requires
        code.len() <= i < compile(shape, p, code).code.len(),
    ensures
        is_shared_helper(compile(shape, p, code).code[i]) || is_blend_helper_at(
            compile(shape, p, code).code[i],
            i as nat,
        ),
    decreases shape, 0nat,
{
    let after = compile(shape, p, code).code;
    lemma_compile_appends(shape, p, code);
    match shape {
        Shape::Sphere { .. } => {},
        Shape::Plane { .. } => {},
        Shape::ExactBox { .. } => {},
        Shape::RoundBox { .. } => {},
        Shape::Cylinder { .. } => {},
        Shape::RoundedCylinder { .. } => {},
        Shape::Capsule { .. } => {},
        Shape::Torus { .. } => {},
        Shape::Translate { child, vector } => {
            lemma_helpers_named_by_position(
                *child,
                crate::shader::translate_point(p, vector),
                code,
                i,
            );
        },
        Shape::Rotate { child, matrix } => {
            lemma_helpers_named_by_position(
                *child,
                crate::shader::rotate_point(p, matrix),
                code,
                i,
            );
        },
        Shape::Scale { child, scale } => {
            lemma_helpers_named_by_position(
                *child,
                crate::shader::scale_point(p, scale),
                code,
                i,
            );
        },
        Shape::Repeat { child, cell, min, max } => {
            lemma_helpers_named_by_position(
                *child,
                crate::shader::repeat_point(p, cell, min, max),
                code,
                i,
            );
        },
        Shape::Twist { child, height_per_rotation } => {
            let point = crate::shader::twist_point(p, height_per_rotation);
            let inner = compile(*child, point, code).code;
            lemma_compile_appends(*child, point, code);
            if i < inner.len() {
                lemma_helpers_named_by_position(*child, point, code, i);
            }
        },
        Shape::Bend { child, distance_for_full_circle } => {
            let point = crate::shader::bend_point(p, distance_for_full_circle);
            let inner = compile(*child, point, code).code;
            lemma_compile_appends(*child, point, code);
            if i < inner.len() {
                lemma_helpers_named_by_position(*child, point, code, i);
            }
        },
        Shape::Boolean { children, kernel, negate } => {
            let args = compile_all(children, code);
            let blend = compile_blend(children, kernel, p, code);
            let name = blend_name(kind_of(kernel), args.code.len());
            let body = blend_body(kernel, args.exprs);
            assert(blend.code == args.code.push(blend_helper(name, body)));
            assert(after == blend.code);
            lemma_compile_all_appends(children, code);
            if i < args.code.len() {
                lemma_args_named_by_position(children, code, i);
            } else {
                assert(after[i] == blend_helper(blend_name(kind_of(kernel), i as nat), body));
            }
        },
        Shape::Negation { child } => {
            lemma_helpers_named_by_position(*child, p, code, i);
        },
    }
}

/// The helpers that the children of a boolean append are shared or named by
/// their positions.
pub proof fn lemma_args_named_by_position(children: Seq<Shape>, code: Seq<Seq<char>>, i: int)
    requires
        code.len() <= i < compile_all(children, code).code.len(),
    ensures
        is_shared_helper(compile_all(children, code).code[i]) || is_blend_helper_at(
            compile_all(children, code).code[i],
            i as nat,
        ),
    decreases children, 1nat,
{
    if children.len() > 0 {
        let before = compile_all(children.drop_last(), code);
        let after = compile_all(children, code).code;
        lemma_compile_all_appends(children.drop_last(), code);
        lemma_compile_appends(children.last(), local_point(), before.code);
        if i < before.code.len() {
            lemma_args_named_by_position(children.drop_last(), code, i);
            assert(after[i] == after.take(before.code.len() as int)[i]);
        } else {
            lemma_helpers_named_by_position(children.last(), local_point(), before.code, i);
        }
    }
}

/// The helpers of a tree do not depend on the point at which the tree is
/// compiled: the point only enters the expression.
pub proof fn lemma_helpers_independent_of_point(
    shape: Shape,
    p: Seq<char>,
    q: Seq<char>,
    code: Seq<Seq<char>>,
)
    ensures
        compile(shape, p, code).code == compile(shape, q, code).code,
    decreases shape,
{
    match shape {
        Shape::Translate { child, vector } => {
            lemma_helpers_independent_of_point(
                *child,
                crate::shader::translate_point(p, vector),
                crate::shader::translate_point(q, vector),
                code,
            );
        },
        Shape::Rotate { child, matrix } => {
            lemma_helpers_independent_of_point(
                *child,
                crate::shader::rotate_point(p, matrix),
                crate::shader::rotate_point(q, matrix),
                code,
            );
        },
        Shape::Scale { child, scale } => {
            lemma_helpers_independent_of_point(
                *child,
                crate::shader::scale_point(p, scale),
                crate::shader::scale_point(q, scale),
                code,
            );
        },
        Shape::Repeat { child, cell, min, max } => {
            lemma_helpers_independent_of_point(
                *child,
                crate::shader::repeat_point(p, cell, min, max),
                crate::shader::repeat_point(q, cell, min, max),
                code,
            );
        },
        Shape::Twist { child, height_per_rotation } => {
            lemma_helpers_independent_of_point(
                *child,
                crate::shader::twist_point(p, height_per_rotation),
                crate::shader::twist_point(q, height_per_rotation),
                code,
            );
        },
        Shape::Bend { child, distance_for_full_circle } => {
            lemma_helpers_independent_of_point(
                *child,
                crate::shader::bend_point(p, distance_for_full_circle),
                crate::shader::bend_point(q, distance_for_full_circle),
                code,
            );
        },
        Shape::Boolean { children, kernel, negate } => {
            let first = compile_blend(children, kernel, p, code);
            let second = compile_blend(children, kernel, q, code);
            assert(first.code == second.code);
        },
        Shape::Negation { child } => {
            lemma_helpers_independent_of_point(*child, p, q, code);
        },
        _ => {},
    }
}

/// A numeral is never empty.
pub proof fn lemma_nat_text_len(n: nat)
    ensures
        nat_text(n).len() >= 1,
    decreases n,
{
    if n >= 10 {
        lemma_nat_text_len(n / 10);
    }
}

/// Padded text has exactly the width asked for, so a number is written with
/// exactly eight fractional digits.
pub proof fn lemma_padded_text_len(n: nat, width: nat)
    ensures
        padded_text(n, width).len() == width,
    decreases width,
{
    if width > 0 {
        lemma_padded_text_len(n / 10, (width - 1) as nat);
    }
}

/// The number that a sequence of decimal digits denotes.
pub open spec fn digits_value(digits: Seq<char>) -> nat
    decreases digits.len(),
{
    if digits.len() == 0 {
        0
    } else {
        let last = digits.last();
        let d: nat = if last == '1' {
            1
        } else if last == '2' {
            2
        } else if last == '3' {
            3
        } else if last == '4' {
            4
        } else if last == '5' {
            5
        } else if last == '6' {
            6
        } else if last == '7' {
            7
        } else if last == '8' {
            8
        } else if last == '9' {
            9
        } else {
            0
        };
        digits_value(digits.drop_last()) * 10 + d
    }
}

/// A numeral denotes its number.
pub proof fn lemma_numeral_value(n: nat)
    ensures
        digits_value(nat_text(n)) == n,
    decreases n,
{
    if n < 10 {
        let s = nat_text(n);
        assert(s.drop_last() =~= Seq::<char>::empty());
        assert(digits_value(s.drop_last()) == 0);
    } else {
        lemma_numeral_value(n / 10);
        let s = nat_text(n);
        assert(s.drop_last() =~= nat_text(n / 10));
        assert(s.last() == digit_char((n % 10) as int));
    }
}

/// Different numbers have different numerals.
pub proof fn lemma_numerals_differ(a: nat, b: nat)
    requires
        a != b,
    ensures
        nat_text(a) != nat_text(b),
{
    lemma_numeral_value(a);
    lemma_numeral_value(b);
}

/// The two characters by which the names of the kinds of blend differ.
spec fn stem_mark(kind: BooleanKind) -> (char, char) {
    match kind {
        BooleanKind::Default => ('D', 'e'),
        BooleanKind::Polynomial => ('P', 'o'),
        BooleanKind::CubicPolynomial => ('C', 'u'),
        BooleanKind::Root => ('R', 'o'),
        BooleanKind::Exponential => ('E', 'x'),
        BooleanKind::Chamfer => ('C', 'h'),
        BooleanKind::Stairs => ('S', 't'),
    }
}

/// Every name of a blend shows its kind in its fourth and fifth character.
proof fn lemma_stem_mark(kind: BooleanKind, position: nat)
    ensures
        blend_name(kind, position).len() > 4,
        blend_name(kind, position)[3] == stem_mark(kind).0,
        blend_name(kind, position)[4] == stem_mark(kind).1,
        blend_name(kind, position).subrange(
            blend_stem(kind).len() as int,
            blend_name(kind, position).len() as int,
        ) == nat_text(position),
{
    reveal_strlit("MinDefault");
    reveal_strlit("MinPolynomial");
    reveal_strlit("MinCubicPolynomial");
    reveal_strlit("MinRoot");
    reveal_strlit("MinExponential");
    reveal_strlit("MinChamfer");
    reveal_strlit("MinStairs");
    let name = blend_name(kind, position);
    assert(name.subrange(blend_stem(kind).len() as int, name.len() as int) =~= nat_text(
        position,
    ));
}

/// No two helpers of blends share a name: the name of a blend tells its
/// position among the helpers, and its kind.
pub proof fn lemma_blend_names_differ(
    first: BooleanKind,
    first_position: nat,
    second: BooleanKind,
    second_position: nat,
)
    requires
        first != second || first_position != second_position,
    ensures
        blend_name(first, first_position) != blend_name(second, second_position),
{
    lemma_stem_mark(first, first_position);
    lemma_stem_mark(second, second_position);
    if first == second {
        lemma_numerals_differ(first_position, second_position);
    }
}

/// Of the helpers of a tree each text is kept once, none is lost, and none is
/// kept that the tree did not emit.
pub proof fn lemma_first_occurrences(blocks: Seq<Seq<char>>)
    ensures
        first_occurrences(blocks).no_duplicates(),
        forall|b: Seq<char>| first_occurrences(blocks).contains(b) <==> blocks.contains(b),
    decreases blocks.len(),
{
    let kept = first_occurrences(blocks);
    if blocks.len() > 0 {
        let init = blocks.drop_last();
        let last = blocks.last();
        lemma_first_occurrences(init);
        let before = first_occurrences(init);
        assert forall|b: Seq<char>| kept.contains(b) <==> blocks.contains(b) by {
            if blocks.contains(b) {
                let i = choose|i: int| 0 <= i < blocks.len() && blocks[i] == b;
                if i < init.len() {
                    assert(init[i] == b);
                    assert(init.contains(b));
                    assert(before.contains(b));
                    let j = choose|j: int| 0 <= j < before.len() && before[j] == b;
                    assert(kept[j] == b);
                } else {
                    assert(b == last);
                    if init.contains(last) {
                        assert(before.contains(b));
                    } else {
                        assert(kept[kept.len() - 1] == b);
                    }
                }
            }
            if kept.contains(b) {
                let j = choose|j: int| 0 <= j < kept.len() && kept[j] == b;
                if j < before.len() {
                    assert(before[j] == b);
                    assert(before.contains(b));
                    assert(init.contains(b));
                    let i = choose|i: int| 0 <= i < init.len() && init[i] == b;
                    assert(blocks[i] == b);
                } else {
                    assert(b == last);
                    assert(blocks[blocks.len() - 1] == b);
                }
            }
        }
        if !init.contains(last) {
            assert forall|i: int, j: int|
                0 <= i < kept.len() && 0 <= j < kept.len() && i != j implies kept[i]
                != kept[j] by {
                if i < before.len() && j < before.len() {
                    assert(before[i] != before[j]);
                } else if i < before.len() {
                    assert(before.contains(before[i]));
                } else {
                    assert(before.contains(before[j]));
                }
            }
        }
    }
}

/// The smaller of two numbers.
pub open spec fn smaller(a: int, b: int) -> int {
    if a <= b {
        a
    } else {
        b
    }
}

/// The larger of two numbers.
pub open spec fn larger(a: int, b: int) -> int {
    if a >= b {
        a
    } else {
        b
    }
}

/// The least of the distances, folded in order into the first as the shader
/// function of the plain minimum folds its parameters.
pub open spec fn least_of(distances: Seq<int>) -> int
    decreases distances.len(),
{
    if distances.len() <= 1 {
        distances[0]
    } else {
        smaller(least_of(distances.drop_last()), distances.last())
    }
}

/// The distance of a tree of negations and of booleans with the plain minimum
/// as their kernel, in exact arithmetic. `leaf` gives the distance of every
/// other shape.
pub open spec fn exact_distance(shape: Shape, leaf: spec_fn(Shape) -> int) -> int
    decreases shape, 0nat,
{
    match shape {
        Shape::Negation { child } => -exact_distance(*child, leaf),
        Shape::Boolean { children, kernel: Kernel::Default, negate } => {
            let blend = least_of(exact_distances(children, leaf));
            if negate {
                -blend
            } else {
                blend
            }
        },
        _ => leaf(shape),
    }
}

/// The distances of the trees, in order.
pub open spec fn exact_distances(children: Seq<Shape>, leaf: spec_fn(Shape) -> int) -> Seq<int>
    decreases children, 1nat,
{
    if children.len() == 0 {
        Seq::empty()
    } else {
        exact_distances(children.drop_last(), leaf).push(exact_distance(children.last(), leaf))
    }
}

/// The distances of two trees.
proof fn lemma_distances_of_two(a: Shape, b: Shape, leaf: spec_fn(Shape) -> int)
    ensures
        exact_distances(seq![a, b], leaf) == seq![
            exact_distance(a, leaf),
            exact_distance(b, leaf),
        ],
        least_of(seq![exact_distance(a, leaf), exact_distance(b, leaf)]) == smaller(
            exact_distance(a, leaf),
            exact_distance(b, leaf),
        ),
{
    let both = seq![a, b];
    let first = seq![a];
    assert(both.drop_last() =~= first);
    assert(first.drop_last() =~= Seq::<Shape>::empty());
    assert(exact_distances(first.drop_last(), leaf) =~= Seq::<int>::empty());
    assert(exact_distances(first, leaf) =~= seq![exact_distance(a, leaf)]);
    assert(exact_distances(both, leaf) =~= seq![
        exact_distance(a, leaf),
        exact_distance(b, leaf),
    ]);
    let d = seq![exact_distance(a, leaf), exact_distance(b, leaf)];
    assert(d.drop_last() =~= seq![exact_distance(a, leaf)]);
    assert(least_of(d.drop_last()) == exact_distance(a, leaf));
}

/// In exact arithmetic the distance of the union of two shapes is the smaller
/// of their distances.
pub proof fn lemma_union_is_least(a: Shape, b: Shape, leaf: spec_fn(Shape) -> int)
    ensures
        exact_distance(union_of(seq![a, b]), leaf) == smaller(
            exact_distance(a, leaf),
            exact_distance(b, leaf),
        ),
{
    lemma_distances_of_two(a, b, leaf);
}

/// In exact arithmetic the distance of the intersection of two shapes is the
/// larger of their distances: the negated minimum of the negations.
pub proof fn lemma_intersection_is_greatest(a: Shape, b: Shape, leaf: spec_fn(Shape) -> int)
    ensures
        exact_distance(intersection_of(seq![a, b]), leaf) == larger(
            exact_distance(a, leaf),
            exact_distance(b, leaf),
        ),
{
    let na = Shape::Negation { child: Box::new(a) };
    let nb = Shape::Negation { child: Box::new(b) };
    assert(negated(seq![a, b]) =~= seq![na, nb]);
    lemma_distances_of_two(na, nb, leaf);
}

/// In exact arithmetic the distance of the difference of two shapes is the
/// larger of the distance of the first and the negated distance of the second.
pub proof fn lemma_difference_is_first_without_second(
    a: Shape,
    b: Shape,
    leaf: spec_fn(Shape) -> int,
)
    ensures
        exact_distance(difference_of(seq![a, b]), leaf) == larger(
            exact_distance(a, leaf),
            -exact_distance(b, leaf),
        ),
{
    let nb = Shape::Negation { child: Box::new(b) };
    assert(difference_parts(seq![a, b]) =~= seq![a, nb]);
    lemma_intersection_is_greatest(a, nb, leaf);
}

/// Taking a rounding of zero off the half extents of a box leaves them as they
/// are: a round box without rounding holds the extents that the exact box of
/// the same size holds.
pub proof fn lemma_round_box_without_rounding(size: V3)
    ensures
        shrunk(halved(size), 0) == halved(size),
{
}

/// Under a uniform scale the distance of the child is multiplied by the
/// magnitude of the scale itself.
pub proof fn lemma_uniform_scale(s: int)
    ensures
        least_magnitude(V3 { x: s, y: s, z: s }) == magnitude(s),
{
}

} // verus!

//! Booleans: union, intersection and difference of shapes.

use vstd::prelude::*;
use crate::boolean_kind::accepts;
use crate::error::Error;
use crate::min_function::{kind_of, Kernel, MinDefault, MinFunction};
use crate::primitive::{compiled, shape_of, shapes_of, Primitive};
use crate::shader::compile;
use crate::shape::{difference_of, difference_parts, intersection_of, negated, union_of, Shape};

verus! {

/// A shape with the sign of its distance changed: the inside becomes the outside.
#[derive(Debug)]
pub struct Negation {
    child: Box<Primitive>,
}

/// A boolean of two or more children. A union blends the distances of its
/// children by its kernel. An intersection is the negated union of the negated
/// children, and a difference the intersection of the first child with the
/// negations of the others, so all three share the kernels.
#[derive(Debug)]
pub struct Boolean {
    children: Vec<Primitive>,
    min_function: MinFunction,
    negate: bool,
}

impl View for Negation {
    type V = Shape;

    closed spec fn view(&self) -> Shape
        decreases self,
    {
        Shape::Negation { child: Box::new((*self.child).view()) }
    }
}

impl View for Boolean {
    type V = Shape;

    closed spec fn view(&self) -> Shape
        decreases self,
    {
        Shape::Boolean {
            children: Self::shapes(self.children@),
            kernel: self.min_function@,
            negate: self.negate,
        }
    }
}

impl Boolean {
    /// The shapes of the children.
    closed spec fn shapes(children: Seq<Primitive>) -> Seq<Shape>
        decreases children,
    {
        if children.len() == 0 {
            Seq::empty()
        } else {
            Self::shapes(children.drop_last()).push(children.last().view())
        }
    }

    /// The shapes of the children are the shapes of each, in order.
    proof fn lemma_shapes(children: Seq<Primitive>)
        ensures
            Self::shapes(children) == shapes_of(children),
        decreases children.len(),
    {
        if children.len() > 0 {
            let init = children.drop_last();
            Self::lemma_shapes(init);
            assert(Self::shapes(children) == Self::shapes(init).push(children.last().view()));
            assert forall|j: int| 0 <= j < children.len() implies Self::shapes(children)[j]
                == shapes_of(children)[j] by {
                if j < init.len() {
                    assert(shapes_of(init)[j] == init[j]@);
                }
            }
        }
        assert(Self::shapes(children) =~= shapes_of(children));
    }
}

impl Negation {
    /// The negation of `child`.
    pub fn new(child: Primitive) -> (r: Negation)
        ensures
            r@ == (Shape::Negation { child: Box::new(child@) }),
    {
        Negation { child: Box::new(child) }
    }

    /// The shape that is negated.
    pub fn child(&self) -> (child: &Primitive)
        ensures
            self@ == (Shape::Negation { child: Box::new(child@) }),
    {
        &*self.child
    }

    /// The negated expression of the child at the point `p`.
    pub fn expression(&self, p: &str, shared_code: &mut Vec<String>) -> (expr: String)
        ensures
            compiled(expr, *final(shared_code)) == compile(
                self@,
                p@,
                old(shared_code).deep_view(),
            ),
        decreases self,
    {
        let inner = self.child.expression(p, shared_code);
        let mut expr = String::from_str("-(");
        expr.append(inner.as_str());
        expr.append(")");
        expr
    }
}

impl Clone for Negation {
    fn clone(&self) -> (copy: Self)
        ensures
            copy@ == self@,
        decreases self,
    {
        Negation { child: Box::new((*self.child).clone()) }
    }
}

/// What building a boolean from `count` children gives: the boolean, or the
/// refusal of fewer than two children.
pub open spec fn arity_result(count: nat, shape: Shape) -> Result<Shape, Error> {
    if count < 2 {
        Err(Error::TooFewChildren { got: count as usize })
    } else {
        Ok(shape)
    }
}

impl Boolean {
    #[verifier::type_invariant]
    spec fn arity_accepted(self) -> bool {
        accepts(kind_of(self.min_function@), self.children@.len())
    }

    fn new_maybe_negate(children: Vec<Primitive>, negate: bool) -> (r: Result<Boolean, Error>)
        ensures
            shape_of(r) == arity_result(
                children.len() as nat,
                Shape::Boolean { children: shapes_of(children@), kernel: Kernel::Default, negate },
            ),
    {
        if children.len() < 2 {
            return Err(Error::TooFewChildren { got: children.len() });
        }
        let b = Boolean { children, min_function: MinFunction::Default(MinDefault), negate };
        proof {
            Self::lemma_shapes(children@);
        }
        Ok(b)
    }

    /// The union of two or more children, with the plain minimum as its kernel.
    pub fn new_union(children: Vec<Primitive>) -> (r: Result<Boolean, Error>)
        ensures
            shape_of(r) == arity_result(children.len() as nat, union_of(shapes_of(children@))),
    {
        Boolean::new_maybe_negate(children, false)
    }

    /// The intersection of two or more children: the negated union of the
    /// negated children.
    pub fn new_intersection(children: Vec<Primitive>) -> (r: Result<Boolean, Error>)
        ensures
            shape_of(r) == arity_result(
                children.len() as nat,
                intersection_of(shapes_of(children@)),
            ),
    {
        let ghost shapes = shapes_of(children@);
        let mut rest = children;
        let mut reversed: Vec<Primitive> = Vec::new();
        while rest.len() > 0
            invariant
                rest.len() + reversed.len() == shapes.len(),
                shapes_of(rest@) == shapes.take(rest.len() as int),
                forall|j: int|
                    0 <= j < reversed.len() ==> (#[trigger] reversed@[j])@ == negated(
                        shapes,
                    )[shapes.len() - 1 - j],
            decreases rest.len(),
        {
            let ghost before = rest@;
            let child = rest.pop().unwrap();
            reversed.push(Primitive::Negation(Negation::new(child)));
            proof {
                assert(shapes_of(rest@) =~= shapes.take(rest.len() as int)) by {
                    assert forall|j: int| 0 <= j < rest.len() implies shapes_of(rest@)[j]
                        == shapes[j] by {
                        assert(shapes_of(before)[j] == shapes.take(before.len() as int)[j]);
                    }
                }
                assert(child@ == shapes[rest.len() as int]) by {
                    assert(shapes_of(before)[before.len() - 1] == shapes.take(
                        before.len() as int,
                    )[before.len() - 1]);
                }
            }
        }
        let mut negations: Vec<Primitive> = Vec::new();
        while reversed.len() > 0
            invariant
                negations.len() + reversed.len() == shapes.len(),
                forall|j: int|
                    0 <= j < reversed.len() ==> (#[trigger] reversed@[j])@ == negated(
                        shapes,
                    )[shapes.len() - 1 - j],
                forall|j: int|
                    0 <= j < negations.len() ==> (#[trigger] negations@[j])@ == negated(shapes)[j],
            decreases reversed.len(),
        {
            let child = reversed.pop().unwrap();
            negations.push(child);
        }
        assert(shapes_of(negations@) =~= negated(shapes));
        Boolean::new_maybe_negate(negations, true)
    }

    /// The difference of the first child and all further ones: the
    /// intersection of the first child with the negations of the others.
    /// There has to be a child to take away from, and one to take away.
    pub fn new_difference(children: Vec<Primitive>) -> (r: Result<Boolean, Error>)
        ensures
            shape_of(r) == (if children.len() == 0 {
                Err::<Shape, Error>(Error::NoChildren)
            } else {
                arity_result(children.len() as nat, difference_of(shapes_of(children@)))
            }),
    {
        if children.len() == 0 {
            return Err(Error::NoChildren);
        }
        let ghost shapes = shapes_of(children@);
        let mut rest = children;
        let mut reversed: Vec<Primitive> = Vec::new();
        while rest.len() > 0
            invariant
                rest.len() + reversed.len() == shapes.len(),
                shapes_of(rest@) == shapes.take(rest.len() as int),
                forall|j: int|
                    0 <= j < reversed.len() ==> (#[trigger] reversed@[j])@ == difference_parts(
                        shapes,
                    )[shapes.len() - 1 - j],
            decreases rest.len(),
        {
            let ghost before = rest@;
            let child = rest.pop().unwrap();
            proof {
                assert(shapes_of(rest@) =~= shapes.take(rest.len() as int)) by {
                    assert forall|j: int| 0 <= j < rest.len() implies shapes_of(rest@)[j]
                        == shapes[j] by {
                        assert(shapes_of(before)[j] == shapes.take(before.len() as int)[j]);
                    }
                }
                assert(child@ == shapes[rest.len() as int]) by {
                    assert(shapes_of(before)[before.len() - 1] == shapes.take(
                        before.len() as int,
                    )[before.len() - 1]);
                }
            }
            if rest.len() == 0 {
                reversed.push(child);
            } else {
                reversed.push(Primitive::Negation(Negation::new(child)));
            }
        }
        let mut parts: Vec<Primitive> = Vec::new();
        while reversed.len() > 0
            invariant
                parts.len() + reversed.len() == shapes.len(),
                forall|j: int|
                    0 <= j < reversed.len() ==> (#[trigger] reversed@[j])@ == difference_parts(
                        shapes,
                    )[shapes.len() - 1 - j],
                forall|j: int|
                    0 <= j < parts.len() ==> (#[trigger] parts@[j])@ == difference_parts(
                        shapes,
                    )[j],
            decreases reversed.len(),
        {
            let child = reversed.pop().unwrap();
            parts.push(child);
        }
        assert(shapes_of(parts@) =~= difference_parts(shapes));
        Boolean::new_intersection(parts)
    }

    /// Replaces the kernel, after generating the shader function of the new
    /// kernel for the children at hand. Where the kernel does not take that
    /// many children, the boolean stays as it was.
    pub fn set_min_function(&mut self, f: MinFunction) -> (r: Result<(), Error>)
        ensures
            accepts(kind_of(f@), old(self)@->Boolean_children.len()) ==> r is Ok && final(self)@
                == (Shape::Boolean {
                children: old(self)@->Boolean_children,
                kernel: f@,
                negate: old(self)@->Boolean_negate,
            }),
            !accepts(kind_of(f@), old(self)@->Boolean_children.len()) ==> r == Err::<(), Error>(
                Error::KernelArity {
                    kind: kind_of(f@),
                    got: old(self)@->Boolean_children.len() as usize,
                },
            ) && final(self)@ == old(self)@,
    {
        proof {
            use_type_invariant(&*self);
            Self::lemma_shapes(self.children@);
        }
        match f.kind().make_function(self.children.len()) {
            Ok(_) => {
                self.min_function = f;
                Ok(())
            },
            Err(e) => Err(e),
        }
    }

    /// The children, in the order in which they are blended.
    pub fn children(&self) -> (children: &Vec<Primitive>)
        ensures
            self@ is Boolean,
            self@->Boolean_children == shapes_of(children@),
            children.len() >= 2,
    {
        proof {
            use_type_invariant(self);
            Self::lemma_shapes(self.children@);
        }
        &self.children
    }

    /// The kernel.
    pub fn min_function(&self) -> (f: MinFunction)
        ensures
            self@ is Boolean,
            self@->Boolean_kernel == f@,
            accepts(kind_of(f@), self@->Boolean_children.len()),
    {
        proof {
            use_type_invariant(self);
            Self::lemma_shapes(self.children@);
        }
        self.min_function
    }

    /// Whether the sign of the blend is changed.
    pub fn negate(&self) -> (negate: bool)
        ensures
            self@ is Boolean,
            self@->Boolean_negate == negate,
    {
        self.negate
    }

    /// Compiles the boolean: the blend of its children by its kernel, with a
    /// minus sign in front where the boolean is negated.
    pub fn expression(&self, p: &str, shared_code: &mut Vec<String>) -> (expr: String)
        ensures
            compiled(expr, *final(shared_code)) == compile(
                self@,
                p@,
                old(shared_code).deep_view(),
            ),
        decreases self,
    {
        proof {
            use_type_invariant(self);
            Self::lemma_shapes(self.children@);
        }
        let blend = match self.min_function.expression(p, shared_code, &self.children) {
            Ok(blend) => blend,
            Err(_) => {
                proof {
                    assert(false);
                }
                String::new()
            },
        };
        if self.negate {
            let mut expr = String::from_str("-");
            expr.append(blend.as_str());
            expr
        } else {
            blend
        }
    }
}

impl Clone for Boolean {
    fn clone(&self) -> (copy: Self)
        ensures
            copy@ == self@,
        decreases self,
    {
        proof {
            use_type_invariant(self);
        }
        let mut children: Vec<Primitive> = Vec::new();
        let mut i: usize = 0;
        while i < self.children.len()
            invariant
                i <= self.children.len(),
                children.len() == i,
                forall|j: int| 0 <= j < i ==> (#[trigger] children@[j])@ == self.children@[j]@,
            decreases self.children.len() - i,
        {
            children.push(self.children[i].clone());
            i += 1;
        }
        let copy = Boolean { children, min_function: self.min_function, negate: self.negate };
        proof {
            Self::lemma_shapes(self.children@);
            Self::lemma_shapes(copy.children@);
            assert(shapes_of(copy.children@) =~= shapes_of(self.children@));
        }
        copy
    }
}

} // verus!

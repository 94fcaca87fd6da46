//! The smoothing kernels of a boolean, with their parameters.

use vstd::prelude::*;
use crate::boolean_kind::BooleanKind;
use crate::decimal::{append_int, append_nat, int_text};
use crate::error::Error;
use crate::primitive::{compiled, shapes_of, Primitive};
use crate::scalar::{fixed_text, Scalar};
use crate::shader::{
    blend_body, blend_refusal, bound_pair, compile_all, compile_blend, exp_lines, min_lines,
};
use crate::text::{join_strings, lemma_pushed_texts, push_string};

verus! {

/// The mathematical value of a [`MinFunction`]: the kind of kernel with its
/// parameters, the smoothing `k` in units of `10^-8`.
pub enum Kernel {
    Default,
    Polynomial { k: int },
    CubicPolynomial { k: int },
    Root { k: int },
    Exponential { k: int },
    Chamfer { k: int },
    Stairs { k: int, n: int },
}

/// The kind of a kernel.
pub open spec fn kind_of(kernel: Kernel) -> BooleanKind {
    match kernel {
        Kernel::Default => BooleanKind::Default,
        Kernel::Polynomial { .. } => BooleanKind::Polynomial,
        Kernel::CubicPolynomial { .. } => BooleanKind::CubicPolynomial,
        Kernel::Root { .. } => BooleanKind::Root,
        Kernel::Exponential { .. } => BooleanKind::Exponential,
        Kernel::Chamfer { .. } => BooleanKind::Chamfer,
        Kernel::Stairs { .. } => BooleanKind::Stairs,
    }
}

/// The arguments that a call of the kernel's shader function takes after the
/// distances: nothing, the smoothing, or the smoothing and the number of steps.
pub open spec fn extra_params_text(kernel: Kernel) -> Seq<char> {
    match kernel {
        Kernel::Default => Seq::empty(),
        Kernel::Polynomial { k } => ", "@ + fixed_text(k),
        Kernel::CubicPolynomial { k } => ", "@ + fixed_text(k),
        Kernel::Root { k } => ", "@ + fixed_text(k),
        Kernel::Exponential { k } => ", "@ + fixed_text(k),
        Kernel::Chamfer { k } => ", "@ + fixed_text(k),
        Kernel::Stairs { k, n } => ", "@ + fixed_text(k) + ", "@ + int_text(n) + ".0"@,
    }
}

/// The plain minimum.
#[derive(Clone, Copy, Debug, PartialEq, Eq)]
pub struct MinDefault;

/// Quadratic polynomial smoothing with smoothing `k`.
#[derive(Clone, Copy, Debug, PartialEq, Eq)]
pub struct MinPolynomial {
    k: Scalar,
}

/// Cubic polynomial smoothing with smoothing `k`.
#[derive(Clone, Copy, Debug, PartialEq, Eq)]
pub struct MinCubicPolynomial {
    k: Scalar,
}

/// Square-root smoothing with smoothing `k`.
#[derive(Clone, Copy, Debug, PartialEq, Eq)]
pub struct MinRoot {
    k: Scalar,
}

/// A chamfered edge of width `k`.
#[derive(Clone, Copy, Debug, PartialEq, Eq)]
pub struct MinChamfer {
    k: Scalar,
}

/// A staircase of width `k` with `n` steps.
#[derive(Clone, Copy, Debug, PartialEq, Eq)]
pub struct MinStairs {
    k: Scalar,
    n: i32,
}

/// Exponential smoothing with smoothing `k`.
#[derive(Clone, Copy, Debug, PartialEq, Eq)]
pub struct MinExponential {
    k: Scalar,
}

/// The smoothing kernel of a boolean.
#[derive(Clone, Copy, Debug, PartialEq, Eq)]
pub enum MinFunction {
    Default(MinDefault),
    Polynomial(MinPolynomial),
    CubicPolynomial(MinCubicPolynomial),
    Root(MinRoot),
    Exponential(MinExponential),
    Chamfer(MinChamfer),
    Stairs(MinStairs),
}

impl View for MinDefault {
    type V = Kernel;

    open spec fn view(&self) -> Kernel {
        Kernel::Default
    }
}

impl View for MinPolynomial {
    type V = Kernel;

    closed spec fn view(&self) -> Kernel {
        Kernel::Polynomial { k: self.k@ }
    }
}

impl View for MinCubicPolynomial {
    type V = Kernel;

    closed spec fn view(&self) -> Kernel {
        Kernel::CubicPolynomial { k: self.k@ }
    }
}

impl View for MinRoot {
    type V = Kernel;

    closed spec fn view(&self) -> Kernel {
        Kernel::Root { k: self.k@ }
    }
}

impl View for MinChamfer {
    type V = Kernel;

    closed spec fn view(&self) -> Kernel {
        Kernel::Chamfer { k: self.k@ }
    }
}

impl View for MinStairs {
    type V = Kernel;

    closed spec fn view(&self) -> Kernel {
        Kernel::Stairs { k: self.k@, n: self.n as int }
    }
}

impl View for MinExponential {
    type V = Kernel;

    closed spec fn view(&self) -> Kernel {
        Kernel::Exponential { k: self.k@ }
    }
}

impl View for MinFunction {
    type V = Kernel;

    open spec fn view(&self) -> Kernel {
        match self {
            MinFunction::Default(f) => f@,
            MinFunction::Polynomial(f) => f@,
            MinFunction::CubicPolynomial(f) => f@,
            MinFunction::Root(f) => f@,
            MinFunction::Exponential(f) => f@,
            MinFunction::Chamfer(f) => f@,
            MinFunction::Stairs(f) => f@,
        }
    }
}

/// What the constructor of a kernel with smoothing `k` gives: the kernel, or the
/// refusal of a negative `k`.
pub open spec fn smoothing_result(kind: BooleanKind, k: Scalar, kernel: Kernel) -> Result<
    Kernel,
    Error,
> {
    if k@ < 0 {
        Err(Error::NegativeSmoothing { kind, k })
    } else {
        Ok(kernel)
    }
}

impl MinPolynomial {
    #[verifier::type_invariant]
    spec fn smoothing_not_negative(self) -> bool {
        self.k@ >= 0
    }

    /// Quadratic polynomial smoothing; `k` must not be negative.
    pub fn new(k: Scalar) -> (r: Result<Self, Error>)
        ensures
            kernel_of(r) == smoothing_result(
                BooleanKind::Polynomial,
                k,
                Kernel::Polynomial { k: k@ },
            ),
    {
        if k.units() < 0 {
            Err(Error::NegativeSmoothing { kind: BooleanKind::Polynomial, k })
        } else {
            Ok(MinPolynomial { k })
        }
    }

    /// The smoothing.
    pub fn k(&self) -> (k: Scalar)
        ensures
            self@ == (Kernel::Polynomial { k: k@ }),
            k@ >= 0,
    {
        proof {
            use_type_invariant(self);
        }
        self.k
    }
}

impl MinCubicPolynomial {
    #[verifier::type_invariant]
    spec fn smoothing_not_negative(self) -> bool {
        self.k@ >= 0
    }

    /// Cubic polynomial smoothing; `k` must not be negative.
    pub fn new(k: Scalar) -> (r: Result<Self, Error>)
        ensures
            kernel_of(r) == smoothing_result(
                BooleanKind::CubicPolynomial,
                k,
                Kernel::CubicPolynomial { k: k@ },
            ),
    {
        if k.units() < 0 {
            Err(Error::NegativeSmoothing { kind: BooleanKind::CubicPolynomial, k })
        } else {
            Ok(MinCubicPolynomial { k })
        }
    }

    /// The smoothing.
    pub fn k(&self) -> (k: Scalar)
        ensures
            self@ == (Kernel::CubicPolynomial { k: k@ }),
            k@ >= 0,
    {
        proof {
            use_type_invariant(self);
        }
        self.k
    }
}

impl MinRoot {
    #[verifier::type_invariant]
    spec fn smoothing_not_negative(self) -> bool {
        self.k@ >= 0
    }

    /// Square-root smoothing; `k` must not be negative.
    pub fn new(k: Scalar) -> (r: Result<Self, Error>)
        ensures
            kernel_of(r) == smoothing_result(BooleanKind::Root, k, Kernel::Root { k: k@ }),
    {
        if k.units() < 0 {
            Err(Error::NegativeSmoothing { kind: BooleanKind::Root, k })
        } else {
            Ok(MinRoot { k })
        }
    }

    /// The smoothing.
    pub fn k(&self) -> (k: Scalar)
        ensures
            self@ == (Kernel::Root { k: k@ }),
            k@ >= 0,
    {
        proof {
            use_type_invariant(self);
        }
        self.k
    }
}

impl MinChamfer {
    #[verifier::type_invariant]
    spec fn smoothing_not_negative(self) -> bool {
        self.k@ >= 0
    }

    /// A chamfered edge; `k` must not be negative.
    pub fn new(k: Scalar) -> (r: Result<Self, Error>)
        ensures
            kernel_of(r) == smoothing_result(BooleanKind::Chamfer, k, Kernel::Chamfer { k: k@ }),
    {
        if k.units() < 0 {
            Err(Error::NegativeSmoothing { kind: BooleanKind::Chamfer, k })
        } else {
            Ok(MinChamfer { k })
        }
    }

    /// The width of the chamfer.
    pub fn k(&self) -> (k: Scalar)
        ensures
            self@ == (Kernel::Chamfer { k: k@ }),
            k@ >= 0,
    {
        proof {
            use_type_invariant(self);
        }
        self.k
    }
}

impl MinExponential {
    #[verifier::type_invariant]
    spec fn smoothing_not_negative(self) -> bool {
        self.k@ >= 0
    }

    /// Exponential smoothing; `k` must not be negative.
    pub fn new(k: Scalar) -> (r: Result<Self, Error>)
        ensures
            kernel_of(r) == smoothing_result(
                BooleanKind::Exponential,
                k,
                Kernel::Exponential { k: k@ },
            ),
    {
        if k.units() < 0 {
            Err(Error::NegativeSmoothing { kind: BooleanKind::Exponential, k })
        } else {
            Ok(MinExponential { k })
        }
    }

    /// The smoothing.
    pub fn k(&self) -> (k: Scalar)
        ensures
            self@ == (Kernel::Exponential { k: k@ }),
            k@ >= 0,
    {
        proof {
            use_type_invariant(self);
        }
        self.k
    }
}

impl MinStairs {
    #[verifier::type_invariant]
    spec fn parameters_valid(self) -> bool {
        self.k@ >= 0 && self.n > 0
    }

    /// A staircase; `k` must not be negative and `n` must be positive. A
    /// negative `k` is reported before a bad `n`.
    pub fn new(k: Scalar, n: i32) -> (r: Result<Self, Error>)
        ensures
            kernel_of(r) == (if k@ < 0 {
                Err::<Kernel, Error>(Error::NegativeSmoothing { kind: BooleanKind::Stairs, k })
            } else if n <= 0 {
                Err(Error::NonPositiveSteps { n })
            } else {
                Ok(Kernel::Stairs { k: k@, n: n as int })
            }),
    {
        if k.units() < 0 {
            Err(Error::NegativeSmoothing { kind: BooleanKind::Stairs, k })
        } else if n <= 0 {
            Err(Error::NonPositiveSteps { n })
        } else {
            Ok(MinStairs { k, n })
        }
    }

    /// The width of the staircase.
    pub fn k(&self) -> (k: Scalar)
        ensures
            self@ matches Kernel::Stairs { k: width, .. } && width == k@,
            k@ >= 0,
    {
        proof {
            use_type_invariant(self);
        }
        self.k
    }

    /// The number of steps.
    pub fn n(&self) -> (n: i32)
        ensures
            self@ matches Kernel::Stairs { n: steps, .. } && steps == n,
            n > 0,
    {
        proof {
            use_type_invariant(self);
        }
        self.n
    }
}

/// The kernel that a constructor returned, with its error kept as it is.
pub open spec fn kernel_of<F: View<V = Kernel>>(r: Result<F, Error>) -> Result<Kernel, Error> {
    match r {
        Ok(f) => Ok(f@),
        Err(e) => Err(e),
    }
}

impl MinFunction {
    /// The kind of the kernel.
    pub fn kind(&self) -> (kind: BooleanKind)
        ensures
            kind == kind_of(self@),
    {
        match self {
            MinFunction::Default(_) => BooleanKind::Default,
            MinFunction::Polynomial(_) => BooleanKind::Polynomial,
            MinFunction::CubicPolynomial(_) => BooleanKind::CubicPolynomial,
            MinFunction::Root(_) => BooleanKind::Root,
            MinFunction::Exponential(_) => BooleanKind::Exponential,
            MinFunction::Chamfer(_) => BooleanKind::Chamfer,
            MinFunction::Stairs(_) => BooleanKind::Stairs,
        }
    }

    /// The name of the helper of a blend by this kernel, without its position.
    fn blend_stem(&self) -> (stem: &'static str)
        ensures
            stem@ == crate::shader::blend_stem(kind_of(self@)),
    {
        match self.kind() {
            BooleanKind::Default => "MinDefault",
            BooleanKind::Polynomial => "MinPolynomial",
            BooleanKind::CubicPolynomial => "MinCubicPolynomial",
            BooleanKind::Root => "MinRoot",
            BooleanKind::Exponential => "MinExponential",
            BooleanKind::Chamfer => "MinChamfer",
            BooleanKind::Stairs => "MinStairs",
        }
    }

    /// The statements that fold the minimum of the expressions into `m`.
    fn make_min_lines(exprs: &Vec<String>) -> (lines: Vec<String>)
        ensures
            lines.deep_view() == min_lines(exprs.deep_view()),
    {
        let mut lines: Vec<String> = Vec::new();
        let mut i: usize = 0;
        while i < exprs.len()
            invariant
                i <= exprs.len(),
                lines.deep_view() == min_lines(exprs.deep_view()).take(i as int),
            decreases exprs.len() - i,
        {
            let mut line = String::from_str("    m = min(m, ");
            line.append(exprs[i].as_str());
            line.append(");");
            let ghost before = lines;
            lines.push(line);
            proof {
                lemma_pushed_texts(before, lines, line);
                assert(line@ =~= min_lines(exprs.deep_view())[i as int]);
                assert(lines.deep_view() =~= min_lines(exprs.deep_view()).take(i + 1));
            }
            i += 1;
        }
        assert(lines.deep_view() =~= min_lines(exprs.deep_view()));
        lines
    }

    /// The statements that take each expression into the minimum and into the
    /// sum of the exponentials.
    fn make_exp_lines(exprs: &Vec<String>, k: Scalar) -> (lines: Vec<String>)
        ensures
            lines.deep_view() == exp_lines(exprs.deep_view(), k@),
    {
        let mut lines: Vec<String> = Vec::new();
        let mut i: usize = 0;
        while i < exprs.len()
            invariant
                i <= exprs.len(),
                lines.deep_view() == exp_lines(exprs.deep_view(), k@).take(i as int),
            decreases exprs.len() - i,
        {
            let mut line = String::from_str("    t = ");
            line.append(exprs[i].as_str());
            line.append("; d = min(d, t); res += exp2(-");
            k.append_to(&mut line);
            line.append(" * t);");
            let ghost before = lines;
            lines.push(line);
            proof {
                lemma_pushed_texts(before, lines, line);
                assert(line@ =~= exp_lines(exprs.deep_view(), k@)[i as int]);
                assert(lines.deep_view() =~= exp_lines(exprs.deep_view(), k@).take(i + 1));
            }
            i += 1;
        }
        assert(lines.deep_view() =~= exp_lines(exprs.deep_view(), k@));
        lines
    }

    /// The statements that bind the expressions of two children.
    fn make_bound_pair(exprs: &Vec<String>) -> (body: String)
        requires
            exprs.len() == 2,
        ensures
            body@ == bound_pair(exprs.deep_view()[0], exprs.deep_view()[1]),
    {
        let mut body = String::from_str("    float d0 = ");
        body.append(exprs[0].as_str());
        body.append(";\n    float d1 = ");
        body.append(exprs[1].as_str());
        body.append(";\n");
        assert(exprs.deep_view()[0] == exprs[0]@ && exprs.deep_view()[1] == exprs[1]@);
        body
    }

    /// The body of the helper of a blend by this kernel.
    fn make_blend_body(&self, exprs: &Vec<String>) -> (body: String)
        requires
            kind_of(self@) != BooleanKind::Default && kind_of(self@) != BooleanKind::Exponential
                ==> exprs.len() == 2,
        ensures
            body@ == blend_body(self@, exprs.deep_view()),
    {
        match self {
            MinFunction::Default(_) => {
                let lines = MinFunction::make_min_lines(exprs);
                let listed = lines.as_slice();
                assert(listed.deep_view() =~= lines.deep_view());
                let folded = join_strings(listed, "\n");
                let mut body = String::from_str("    float m = 1e10;\n");
                body.append(folded.as_str());
                body.append("\n    return m;");
                body
            },
            MinFunction::Polynomial(f) => {
                let mut body = MinFunction::make_bound_pair(exprs);
                body.append("    float k = ");
                f.k().append_to(&mut body);
                body.append(
                    ";\n    float h = max(k - abs(d0 - d1), 0.0);\n    return min(d0, d1) - h * h * 0.25 / ",
                );
                f.k().append_to(&mut body);
                body.append(";");
                body
            },
            MinFunction::CubicPolynomial(f) => {
                let mut body = MinFunction::make_bound_pair(exprs);
                body.append("    float k = ");
                f.k().append_to(&mut body);
                body.append(
                    ";\n    float h = max(k - abs(d0 - d1), 0.0) / k;\n    return min(d0, d1) - h * h * h * k * (1./6.);",
                );
                body
            },
            MinFunction::Root(f) => {
                let mut body = MinFunction::make_bound_pair(exprs);
                body.append("    float h = d0 - d1;\n    return 0.5 * ((d0 + d1) - sqrt(h *h + ");
                f.k().append_to(&mut body);
                body.append("));");
                body
            },
            MinFunction::Chamfer(f) => {
                let mut body = MinFunction::make_bound_pair(exprs);
                body.append("    return min(min(d0, d1), (d0 - ");
                f.k().append_to(&mut body);
                body.append(" + d1) * sqrt(0.5));");
                body
            },
            MinFunction::Stairs(f) => {
                let mut body = MinFunction::make_bound_pair(exprs);
                body.append("    float k = ");
                f.k().append_to(&mut body);
                body.append(";\n    float s = k / ");
                append_int(&mut body, f.n() as i64);
                body.append(
                    ";\n    float u = d1 - k;\n    return min(min(d0, d1), 0.5 * (u + d0 + abs((mod(u - d0 + s, 2. * s)) - s)));",
                );
                body
            },
            MinFunction::Exponential(f) => {
                let lines = MinFunction::make_exp_lines(exprs, f.k());
                let listed = lines.as_slice();
                assert(listed.deep_view() =~= lines.deep_view());
                let summed = join_strings(listed, "\n");
                let mut body = String::from_str(
                    "    float t = 0.0;\n    float d = 1e10;\n    float res = 0.0;\n",
                );
                body.append(summed.as_str());
                body.append("\n    if (res > 0.0) {\n        return -log2(res) / ");
                f.k().append_to(&mut body);
                body.append(";\n    } else {\n        return d;\n    }");
                body
            },
        }
    }

    /// Compiles the blend of the children by this kernel. Where the kernel
    /// does not take that many children, nothing is compiled and the reason
    /// is returned: the plain minimum takes any number of children, the
    /// exponential kernel at least two, every other kernel exactly two.
    /// Otherwise the children are compiled in order, each at the local point
    /// of a new helper; then the helper is appended, which computes the kernel
    /// on the expressions of the children. The helper is named by the number
    /// of helpers emitted before it, and the expression returned calls it at
    /// the point `p`.
    pub fn expression(&self, p: &str, shared_code: &mut Vec<String>, children: &Vec<Primitive>) -> (r:
        Result<String, Error>)
        ensures
            blend_refusal(kind_of(self@), children.len() as nat) matches Some(e) ==> r == Err::<
                String,
                Error,
            >(e) && final(shared_code)@ == old(shared_code)@,
            blend_refusal(kind_of(self@), children.len() as nat) is None ==> r is Ok && compiled(
                r->Ok_0,
                *final(shared_code),
            ) == compile_blend(shapes_of(children@), self@, p@, old(shared_code).deep_view()),
        decreases children,
    {
        let n = children.len();
        let kind = self.kind();
        match kind {
            BooleanKind::Default => {},
            BooleanKind::Exponential => {
                if n < 2 {
                    return Err(Error::TooFewChildren { got: n });
                }
            },
            _ => {
                if n != 2 {
                    return Err(Error::KernelArity { kind, got: n });
                }
            },
        }
        let ghost shapes = shapes_of(children@);
        let ghost start = old(shared_code).deep_view();
        let mut exprs: Vec<String> = Vec::new();
        let mut i: usize = 0;
        while i < n
            invariant
                i <= n,
                n == children.len(),
                shapes == shapes_of(children@),
                exprs.len() == i,
                exprs.deep_view() == compile_all(shapes.take(i as int), start).exprs,
                shared_code.deep_view() == compile_all(shapes.take(i as int), start).code,
            decreases n - i,
        {
            let inner = children[i].expression("p", shared_code);
            let ghost before = exprs;
            exprs.push(inner);
            proof {
                let next = shapes.take(i + 1);
                assert(next.drop_last() =~= shapes.take(i as int));
                assert(next.last() == children@[i as int]@);
                lemma_pushed_texts(before, exprs, inner);
            }
            i += 1;
        }
        assert(shapes.take(n as int) =~= shapes);
        let mut name = String::from_str(self.blend_stem());
        append_nat(&mut name, shared_code.len() as u128);
        let body = self.make_blend_body(&exprs);
        let mut helper = String::from_str("\nfloat ");
        helper.append(name.as_str());
        helper.append("(vec3 p) {\n");
        helper.append(body.as_str());
        helper.append("\n}");
        push_string(shared_code, helper);
        let mut expr = String::new();
        expr.append(name.as_str());
        expr.append("(");
        expr.append(p);
        expr.append(")");
        assert(expr@ =~= crate::shader::blend_expr(name@, p@));
        Ok(expr)
    }

    /// The arguments that a call of the kernel's shader function takes after
    /// the distances.
    pub fn make_extra_params(&self) -> (s: String)
        ensures
            s@ == extra_params_text(self@),
    {
        let mut s = String::new();
        match self {
            MinFunction::Default(_) => {},
            MinFunction::Polynomial(f) => {
                s.append(", ");
                f.k().append_to(&mut s);
            },
            MinFunction::CubicPolynomial(f) => {
                s.append(", ");
                f.k().append_to(&mut s);
            },
            MinFunction::Root(f) => {
                s.append(", ");
                f.k().append_to(&mut s);
            },
            MinFunction::Exponential(f) => {
                s.append(", ");
                f.k().append_to(&mut s);
            },
            MinFunction::Chamfer(f) => {
                s.append(", ");
                f.k().append_to(&mut s);
            },
            MinFunction::Stairs(f) => {
                s.append(", ");
                f.k().append_to(&mut s);
                s.append(", ");
                append_int(&mut s, f.n() as i64);
                s.append(".0");
            },
        }
        assert(s@ =~= extra_params_text(self@));
        s
    }
}

} // verus!

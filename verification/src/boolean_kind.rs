//! The kinds of smoothing kernel and the shader functions that compute them.

use vstd::prelude::*;
use crate::decimal::{append_nat, nat_text};
use crate::error::Error;
use crate::text::{join, join_strings, lemma_pushed_texts};

verus! {

/// The kinds of kernel by which a boolean blends the distances of its children.
#[derive(Clone, Copy, Debug, PartialEq, Eq)]
pub enum BooleanKind {
    /// The plain minimum, of any number of distances.
    Default,
    /// Quadratic polynomial smoothing of two distances.
    Polynomial,
    /// Cubic polynomial smoothing of two distances.
    CubicPolynomial,
    /// Square-root smoothing of two distances.
    Root,
    /// Exponential smoothing, of any number of distances.
    Exponential,
    /// A chamfered edge between two distances.
    Chamfer,
    /// A staircase between two distances.
    Stairs,
}

/// The name of a kernel's shader function, without the number of its distances.
pub open spec fn kind_stem(kind: BooleanKind) -> Seq<char> {
    match kind {
        BooleanKind::Default => "opMin"@,
        BooleanKind::Polynomial => "opSmoothMinPolynomial"@,
        BooleanKind::CubicPolynomial => "opSmoothMinCubicPolynomial"@,
        BooleanKind::Root => "opSmoothMinRoot"@,
        BooleanKind::Exponential => "opSmoothMinExponential"@,
        BooleanKind::Chamfer => "opChamferMin"@,
        BooleanKind::Stairs => "opStairsMin"@,
    }
}

/// The name of the shader function of a kernel for `n` distances.
pub open spec fn function_name_text(kind: BooleanKind, n: nat) -> Seq<char> {
    kind_stem(kind) + nat_text(n)
}

/// Whether a kernel blends exactly two distances.
pub open spec fn takes_exactly_two(kind: BooleanKind) -> bool {
    kind != BooleanKind::Default && kind != BooleanKind::Exponential
}

/// Whether a kernel can blend the distances of `n` children.
pub open spec fn accepts(kind: BooleanKind, n: nat) -> bool {
    n >= 2 && (takes_exactly_two(kind) ==> n == 2)
}

/// The names `d0`, `d1`, .. of `n` distance parameters.
pub open spec fn param_names(n: nat) -> Seq<Seq<char>> {
    Seq::new(n, |i: int| "d"@ + nat_text(i as nat))
}

/// The statements that fold the minimum of all parameters into the first.
pub open spec fn min_steps(params: Seq<Seq<char>>) -> Seq<Seq<char>> {
    Seq::new(
        (params.len() - 1) as nat,
        |i: int| params[0] + " = min("@ + params[0] + ", "@ + params[i + 1] + ");"@,
    )
}

/// The terms `exp2(-k * d)` of the exponential kernel, one for each parameter.
pub open spec fn exp_terms(params: Seq<Seq<char>>) -> Seq<Seq<char>> {
    Seq::new(params.len(), |i: int| "exp2(-k * "@ + params[i] + ")"@)
}

/// The shader function of the plain minimum over the given parameters.
pub open spec fn default_min_text(name: Seq<char>, params: Seq<Seq<char>>) -> Seq<char> {
    "\nfloat "@ + name + "(float "@ + join(params, ", float "@) + ") {\n    "@ + join(
        min_steps(params),
        "\n    "@,
    ) + "\n    return "@ + params[0] + ";\n}\n"@
}

/// The shader function of quadratic polynomial smoothing.
pub open spec fn polynomial_min_text(name: Seq<char>) -> Seq<char> {
    "\nfloat "@ + name
        + "(float d1, float d2, float k) {\n    float h = max(k-abs(d1-d2),0.0);\n    return min(d1, d2) - h*h*0.25/k;\n}\n"@
}

/// The shader function of cubic polynomial smoothing.
pub open spec fn cubic_polynomial_min_text(name: Seq<char>) -> Seq<char> {
    "\nfloat "@ + name
        + "(float d1, float d2, float k) {\n    float h = max(k-abs(d1-d2),0.0) / k;\n    return min(d1, d2) - h*h*h*k*(1./6.);\n}\n"@
}

/// The shader function of square-root smoothing.
pub open spec fn root_min_text(name: Seq<char>) -> Seq<char> {
    "\nfloat "@ + name
        + "(float d0, float d1, float k) {\n    float h = d0 - d1;\n    return 0.5 * ((d0 + d1) - sqrt(h *h + k));\n}\n"@
}

/// The shader function of the chamfer kernel.
pub open spec fn chamfer_min_text(name: Seq<char>) -> Seq<char> {
    "\nfloat "@ + name
        + "(float d0, float d1, float k) {\n    return min(min(d0, d1), (d0 - k + d1) * sqrt(0.5));\n}\n"@
}

/// The shader function of the stairs kernel.
pub open spec fn stairs_min_text(name: Seq<char>) -> Seq<char> {
    "\nfloat "@ + name
        + "(float d0, float d1, float k, float n) {\n    float s = k / n;\n    float u = d1 - k;\n    return min(min(d0, d1), 0.5 * (u + d0 + abs((mod(u - d0 + s, 2. * s)) - s)));\n}\n"@
}

/// The shader function of exponential smoothing over the given parameters. Where
/// the sum of the exponentials has underflowed to zero, it returns the plain
/// minimum in place of the logarithm of zero.
pub open spec fn exponential_min_text(name: Seq<char>, params: Seq<Seq<char>>) -> Seq<char> {
    "\nfloat "@ + name + "(float "@ + join(params, ", float "@) + ", float k) {\n    float res = "@
        + join(exp_terms(params), " + "@)
        + ";\n    if (res > 0.0) {\n        return -log2(res) / k;\n    }\n    "@ + join(
        min_steps(params),
        "\n    "@,
    ) + "\n    return "@ + params[0] + ";\n}\n"@
}

/// What generating the shader function of a kernel for `n` children gives: the
/// text of the function, or the reason why the kernel cannot take `n` children.
pub open spec fn function_result(kind: BooleanKind, n: nat) -> Result<Seq<char>, Error> {
    let name = function_name_text(kind, n);
    if n < 2 {
        Err(Error::TooFewChildren { got: n as usize })
    } else if takes_exactly_two(kind) && n != 2 {
        Err(Error::KernelArity { kind, got: n as usize })
    } else {
        Ok(
            match kind {
                BooleanKind::Default => default_min_text(name, param_names(n)),
                BooleanKind::Polynomial => polynomial_min_text(name),
                BooleanKind::CubicPolynomial => cubic_polynomial_min_text(name),
                BooleanKind::Root => root_min_text(name),
                BooleanKind::Exponential => exponential_min_text(name, param_names(n)),
                BooleanKind::Chamfer => chamfer_min_text(name),
                BooleanKind::Stairs => stairs_min_text(name),
            },
        )
    }
}

/// The statements that fold the minimum of all parameters into the first.
fn make_min_steps(params: &[String]) -> (steps: Vec<String>)
    requires
        params.len() >= 1,
    ensures
        steps.deep_view() == min_steps(params.deep_view()),
{
    let mut steps: Vec<String> = Vec::new();
    let mut i: usize = 1;
    while i < params.len()
        invariant
            1 <= i <= params.len(),
            steps.deep_view() == min_steps(params.deep_view()).take(i - 1),
        decreases params.len() - i,
    {
        let mut step = String::new();
        step.append(params[0].as_str());
        step.append(" = min(");
        step.append(params[0].as_str());
        step.append(", ");
        step.append(params[i].as_str());
        step.append(");");
        let ghost before = steps;
        steps.push(step);
        proof {
            lemma_pushed_texts(before, steps, step);
            assert(step@ =~= min_steps(params.deep_view())[i - 1]);
            assert(steps.deep_view() =~= min_steps(params.deep_view()).take(i as int));
        }
        i += 1;
    }
    assert(steps.deep_view() =~= min_steps(params.deep_view()));
    steps
}

/// The terms of the exponential kernel, one for each parameter.
fn make_exp_terms(params: &[String]) -> (terms: Vec<String>)
    ensures
        terms.deep_view() == exp_terms(params.deep_view()),
{
    let mut terms: Vec<String> = Vec::new();
    let mut i: usize = 0;
    while i < params.len()
        invariant
            i <= params.len(),
            terms.deep_view() == exp_terms(params.deep_view()).take(i as int),
        decreases params.len() - i,
    {
        let mut term = String::new();
        term.append("exp2(-k * ");
        term.append(params[i].as_str());
        term.append(")");
        let ghost before = terms;
        terms.push(term);
        proof {
            lemma_pushed_texts(before, terms, term);
            assert(term@ =~= exp_terms(params.deep_view())[i as int]);
            assert(terms.deep_view() =~= exp_terms(params.deep_view()).take(i + 1));
        }
        i += 1;
    }
    assert(terms.deep_view() =~= exp_terms(params.deep_view()));
    terms
}

/// The shader function `function_name` that returns the minimum of its
/// parameters, folded in order into the first. Without a parameter there is no
/// such function.
pub fn make_default_min_function(function_name: &str, params: &[String]) -> (r: Result<
    String,
    Error,
>)
    ensures
        params.len() == 0 ==> r == Err::<String, Error>(Error::TooFewChildren { got: 0 }),
        params.len() >= 1 ==> r is Ok && r->Ok_0@ == default_min_text(
            function_name@,
            params.deep_view(),
        ),
{
    if params.len() == 0 {
        return Err(Error::TooFewChildren { got: 0 });
    }
    let steps = make_min_steps(params);
    let listed = join_strings(params, ", float ");
    let step_list = steps.as_slice();
    assert(step_list.deep_view() =~= steps.deep_view());
    let folded = join_strings(step_list, "\n    ");
    let mut out = String::new();
    out.append("\nfloat ");
    out.append(function_name);
    out.append("(float ");
    out.append(listed.as_str());
    out.append(") {\n    ");
    out.append(folded.as_str());
    out.append("\n    return ");
    out.append(params[0].as_str());
    out.append(";\n}\n");
    proof {
        assert(params.deep_view()[0] == params[0]@);
        assert(out@ =~= default_min_text(function_name@, params.deep_view()));
    }
    Ok(out)
}

/// What a kernel of exactly two distances gives for `n` children: `text`, or
/// the refusal of `n`.
pub open spec fn pair_result(kind: BooleanKind, n: nat, text: Seq<char>) -> Result<
    Seq<char>,
    Error,
> {
    if n == 2 {
        Ok(text)
    } else {
        Err(Error::KernelArity { kind, got: n as usize })
    }
}

/// The text of a result, with its error kept as it is.
pub open spec fn result_text(r: Result<String, Error>) -> Result<Seq<char>, Error> {
    match r {
        Ok(s) => Ok(s@),
        Err(e) => Err(e),
    }
}

/// The shader function `function_name` of quadratic polynomial smoothing, which
/// takes exactly two distances.
pub fn make_polynomial_min_function(function_name: &str, num_primitives: usize) -> (r: Result<
    String,
    Error,
>)
    ensures
        result_text(r) == pair_result(
            BooleanKind::Polynomial,
            num_primitives as nat,
            polynomial_min_text(function_name@),
        ),
{
    if num_primitives != 2 {
        return Err(Error::KernelArity { kind: BooleanKind::Polynomial, got: num_primitives });
    }
    let mut out = String::new();
    out.append("\nfloat ");
    out.append(function_name);
    out.append(
        "(float d1, float d2, float k) {\n    float h = max(k-abs(d1-d2),0.0);\n    return min(d1, d2) - h*h*0.25/k;\n}\n",
    );
    assert(out@ =~= polynomial_min_text(function_name@));
    Ok(out)
}

/// The shader function `function_name` of cubic polynomial smoothing, which
/// takes exactly two distances.
pub fn make_cubic_polynomial_min_function(function_name: &str, num_primitives: usize) -> (r:
    Result<String, Error>)
    ensures
        result_text(r) == pair_result(
            BooleanKind::CubicPolynomial,
            num_primitives as nat,
            cubic_polynomial_min_text(function_name@),
        ),
{
    if num_primitives != 2 {
        return Err(
            Error::KernelArity { kind: BooleanKind::CubicPolynomial, got: num_primitives },
        );
    }
    let mut out = String::new();
    out.append("\nfloat ");
    out.append(function_name);
    out.append(
        "(float d1, float d2, float k) {\n    float h = max(k-abs(d1-d2),0.0) / k;\n    return min(d1, d2) - h*h*h*k*(1./6.);\n}\n",
    );
    assert(out@ =~= cubic_polynomial_min_text(function_name@));
    Ok(out)
}

/// The shader function `function_name` of square-root smoothing, which takes
/// exactly two distances.
pub fn make_root_min_function(function_name: &str, num_primitives: usize) -> (r: Result<
    String,
    Error,
>)
    ensures
        result_text(r) == pair_result(
            BooleanKind::Root,
            num_primitives as nat,
            root_min_text(function_name@),
        ),
{
    if num_primitives != 2 {
        return Err(Error::KernelArity { kind: BooleanKind::Root, got: num_primitives });
    }
    let mut out = String::new();
    out.append("\nfloat ");
    out.append(function_name);
    out.append(
        "(float d0, float d1, float k) {\n    float h = d0 - d1;\n    return 0.5 * ((d0 + d1) - sqrt(h *h + k));\n}\n",
    );
    assert(out@ =~= root_min_text(function_name@));
    Ok(out)
}

/// The shader function `function_name` of the chamfer kernel, which takes
/// exactly two distances.
pub fn make_chamfer_min_function(function_name: &str, num_primitives: usize) -> (r: Result<
    String,
    Error,
>)
    ensures
        result_text(r) == pair_result(
            BooleanKind::Chamfer,
            num_primitives as nat,
            chamfer_min_text(function_name@),
        ),
{
    if num_primitives != 2 {
        return Err(Error::KernelArity { kind: BooleanKind::Chamfer, got: num_primitives });
    }
    let mut out = String::new();
    out.append("\nfloat ");
    out.append(function_name);
    out.append(
        "(float d0, float d1, float k) {\n    return min(min(d0, d1), (d0 - k + d1) * sqrt(0.5));\n}\n",
    );
    assert(out@ =~= chamfer_min_text(function_name@));
    Ok(out)
}

/// The shader function `function_name` of the stairs kernel, which takes
/// exactly two distances.
pub fn make_stairs_min_function(function_name: &str, num_primitives: usize) -> (r: Result<
    String,
    Error,
>)
    ensures
        result_text(r) == pair_result(
            BooleanKind::Stairs,
            num_primitives as nat,
            stairs_min_text(function_name@),
        ),
{
    if num_primitives != 2 {
        return Err(Error::KernelArity { kind: BooleanKind::Stairs, got: num_primitives });
    }
    let mut out = String::new();
    out.append("\nfloat ");
    out.append(function_name);
    out.append(
        "(float d0, float d1, float k, float n) {\n    float s = k / n;\n    float u = d1 - k;\n    return min(min(d0, d1), 0.5 * (u + d0 + abs((mod(u - d0 + s, 2. * s)) - s)));\n}\n",
    );
    assert(out@ =~= stairs_min_text(function_name@));
    Ok(out)
}

/// The shader function `function_name` of exponential smoothing over the given
/// parameters, of which there have to be at least two.
pub fn make_exponential_min_function(function_name: &str, params: &[String]) -> (r: Result<
    String,
    Error,
>)
    ensures
        params.len() < 2 ==> r == Err::<String, Error>(
            Error::TooFewChildren { got: params.len() },
        ),
        params.len() >= 2 ==> r is Ok && r->Ok_0@ == exponential_min_text(
            function_name@,
            params.deep_view(),
        ),
{
    if params.len() < 2 {
        return Err(Error::TooFewChildren { got: params.len() });
    }
    let steps = make_min_steps(params);
    let terms = make_exp_terms(params);
    let listed = join_strings(params, ", float ");
    let term_list = terms.as_slice();
    assert(term_list.deep_view() =~= terms.deep_view());
    let summed = join_strings(term_list, " + ");
    let step_list = steps.as_slice();
    assert(step_list.deep_view() =~= steps.deep_view());
    let folded = join_strings(step_list, "\n    ");
    let mut out = String::new();
    out.append("\nfloat ");
    out.append(function_name);
    out.append("(float ");
    out.append(listed.as_str());
    out.append(", float k) {\n    float res = ");
    out.append(summed.as_str());
    out.append(";\n    if (res > 0.0) {\n        return -log2(res) / k;\n    }\n    ");
    out.append(folded.as_str());
    out.append("\n    return ");
    out.append(params[0].as_str());
    out.append(";\n}\n");
    proof {
        assert(params.deep_view()[0] == params[0]@);
        assert(out@ =~= exponential_min_text(function_name@, params.deep_view()));
    }
    Ok(out)
}

impl BooleanKind {
    /// The name of the kernel's shader function for `num_primitives` distances.
    pub fn function_name(&self, num_primitives: usize) -> (name: String)
        ensures
            name@ == function_name_text(*self, num_primitives as nat),
    {
        let stem: &str = match self {
            BooleanKind::Default => "opMin",
            BooleanKind::Polynomial => "opSmoothMinPolynomial",
            BooleanKind::CubicPolynomial => "opSmoothMinCubicPolynomial",
            BooleanKind::Root => "opSmoothMinRoot",
            BooleanKind::Exponential => "opSmoothMinExponential",
            BooleanKind::Chamfer => "opChamferMin",
            BooleanKind::Stairs => "opStairsMin",
        };
        let mut name = String::from_str(stem);
        append_nat(&mut name, num_primitives as u128);
        name
    }

    /// The names `d0`, `d1`, .. of `num_primitives` distance parameters.
    pub fn make_params(num_primitives: usize) -> (params: Vec<String>)
        ensures
            params.deep_view() == param_names(num_primitives as nat),
    {
        let mut params: Vec<String> = Vec::new();
        let mut i: usize = 0;
        while i < num_primitives
            invariant
                i <= num_primitives,
                params.deep_view() == param_names(num_primitives as nat).take(i as int),
            decreases num_primitives - i,
        {
            let mut name = String::from_str("d");
            append_nat(&mut name, i as u128);
            let ghost before = params;
            params.push(name);
            proof {
                lemma_pushed_texts(before, params, name);
                assert(params.deep_view() =~= param_names(num_primitives as nat).take(i + 1));
            }
            i += 1;
        }
        assert(params.deep_view() =~= param_names(num_primitives as nat));
        params
    }

    /// Whether the kernel can blend the distances of `num_primitives` children.
    pub fn accepts(&self, num_primitives: usize) -> (ok: bool)
        ensures
            ok == accepts(*self, num_primitives as nat),
    {
        match self {
            BooleanKind::Default => num_primitives >= 2,
            BooleanKind::Exponential => num_primitives >= 2,
            _ => num_primitives == 2,
        }
    }

    /// Generates the kernel's shader function for `num_primitives` children, or
    /// says why the kernel cannot take that many.
    pub fn make_function(&self, num_primitives: usize) -> (r: Result<String, Error>)
        ensures
            result_text(r) == function_result(*self, num_primitives as nat),
    {
        if num_primitives < 2 {
            return Err(Error::TooFewChildren { got: num_primitives });
        }
        let name = self.function_name(num_primitives);
        match self {
            BooleanKind::Default => {
                let params = BooleanKind::make_params(num_primitives);
                let listed = params.as_slice();
                assert(listed.deep_view() =~= params.deep_view());
                make_default_min_function(name.as_str(), listed)
            },
            BooleanKind::Polynomial => make_polynomial_min_function(
                name.as_str(),
                num_primitives,
            ),
            BooleanKind::CubicPolynomial => make_cubic_polynomial_min_function(
                name.as_str(),
                num_primitives,
            ),
            BooleanKind::Root => make_root_min_function(name.as_str(), num_primitives),
            BooleanKind::Exponential => {
                let params = BooleanKind::make_params(num_primitives);
                let listed = params.as_slice();
                assert(listed.deep_view() =~= params.deep_view());
                make_exponential_min_function(name.as_str(), listed)
            },
            BooleanKind::Chamfer => make_chamfer_min_function(name.as_str(), num_primitives),
            BooleanKind::Stairs => make_stairs_min_function(name.as_str(), num_primitives),
        }
    }
}

} // verus!

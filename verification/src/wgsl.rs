//! Scalar tokens and small expression values rendered to WGSL shader text.
//!
//! Every number the generator splices into shader source is carried as the
//! exact numeric-literal token that will appear in the text, so rendering is
//! pure concatenation and its result is pinned down character for character.

use vstd::prelude::*;

verus! {

/// A character that may appear in a numeric-literal token such as `-1.5e-3`.
pub open spec fn is_numeric_char(c: char) -> bool {
    ('0' <= c && c <= '9') || c == '.' || c == '-' || c == '+' || c == 'e'
}

/// A non-empty run of numeric-literal characters: the shape of every scalar
/// token the generator splices into shader text.
pub open spec fn is_numeric_text(s: Seq<char>) -> bool {
    &&& s.len() > 0
    &&& forall|i: int| 0 <= i < s.len() ==> is_numeric_char(#[trigger] s[i])
}

/// One scalar operand of the generated shader text, held as the numeric
/// literal that will be spliced in verbatim.
#[derive(Clone, PartialEq, Eq, Debug)]
pub struct Scalar {
    text: String,
}

impl View for Scalar {
    type V = Seq<char>;

    closed spec fn view(&self) -> Seq<char> {
        self.text@
    }
}

impl Scalar {
    /// Every constructed scalar holds a well-formed numeric-literal token.
    pub open spec fn wf(&self) -> bool {
        is_numeric_text(self@)
    }

    /// Accepts `text` as a scalar token exactly when every character of it
    /// belongs to a numeric literal (and it is non-empty).
    pub fn new(text: String) -> (r: Option<Scalar>)
        ensures
            r is Some <==> is_numeric_text(text@),
            r matches Some(s) ==> s@ == text@ && s.wf(),
    {
        let n = text.as_str().unicode_len();
        if n == 0 {
            return None;
        }
        let mut i: usize = 0;
        while i < n
            invariant
                n == text@.len(),
                0 <= i <= n,
                forall|j: int| 0 <= j < i ==> is_numeric_char(#[trigger] text@[j]),
            decreases n - i,
        {
            let c = text.as_str().get_char(i);
            let numeric = ('0' <= c && c <= '9') || c == '.' || c == '-' || c == '+'
                || c == 'e';
            if !numeric {
                return None;
            }
            i = i + 1;
        }
        Some(Scalar { text })
    }

    /// The literal token `0`.
    pub fn zero() -> (r: Scalar)
        ensures
            r@ == "0"@,
            r.wf(),
    {
        proof {
            reveal_strlit("0");
        }
        Scalar { text: String::from_str("0") }
    }

    /// The literal token `1`.
    pub fn one() -> (r: Scalar)
        ensures
            r@ == "1"@,
            r.wf(),
    {
        proof {
            reveal_strlit("1");
        }
        Scalar { text: String::from_str("1") }
    }

    /// The token as shader text.
    pub fn as_str(&self) -> (r: &str)
        ensures
            r@ == self@,
    {
        self.text.as_str()
    }
}

/// A scalar expression: either one constant sample, or a fresh uniform sample
/// drawn between two bounds each time the shader evaluates it.
#[derive(Clone, PartialEq, Eq, Debug)]
pub enum Value {
    /// A constant: renders as the literal token itself.
    Single(Scalar),
    /// A uniform random draw between the two bounds (low, high): renders as a
    /// call of the shader-side sampling primitive `rand()`, rescaled to the
    /// bounds.  The draw happens at shader execution time; the rendered text
    /// is a fixed function of the bounds.
    Uniform(Scalar, Scalar),
}

/// The shader text a [`Value`] renders to.
pub open spec fn value_wgsl(v: Value) -> Seq<char> {
    match v {
        Value::Single(s) => s@,
        Value::Uniform(low, high) => "(rand() * ("@ + high@ + " - "@ + low@ + ") + "@
            + low@ + ")"@,
    }
}

impl Value {
    /// Both bounds hold well-formed tokens.
    pub open spec fn wf(&self) -> bool {
        match *self {
            Value::Single(s) => s.wf(),
            Value::Uniform(low, high) => low.wf() && high.wf(),
        }
    }

    /// Renders the expression to shader text; the same value always renders
    /// to the same text.
    pub fn to_wgsl_string(&self) -> (r: String)
        ensures
            r@ == value_wgsl(*self),
    {
        match self {
            Value::Single(s) => {
                let mut out = String::new();
                out.append(s.as_str());
                out
            },
            Value::Uniform(low, high) => {
                let mut out = String::from_str("(rand() * (");
                out.append(high.as_str());
                out.append(" - ");
                out.append(low.as_str());
                out.append(") + ");
                out.append(low.as_str());
                out.append(")");
                proof {
                    assert(out@ =~= value_wgsl(*self));
                }
                out
            },
        }
    }
}

/// The shader text of a `vec3<f32>` constructor over three scalar tokens.
pub open spec fn vec3_wgsl(x: Seq<char>, y: Seq<char>, z: Seq<char>) -> Seq<char> {
    "vec3<f32>("@ + x + ", "@ + y + ", "@ + z + ")"@
}

/// The shader text of a `vec4<f32>` constructor over four scalar tokens.
pub open spec fn vec4_wgsl(x: Seq<char>, y: Seq<char>, z: Seq<char>, w: Seq<char>) -> Seq<
    char,
> {
    "vec4<f32>("@ + x + ", "@ + y + ", "@ + z + ", "@ + w + ")"@
}

/// A 3-component vector of scalar tokens, rendered as a `vec3<f32>` constructor.
#[derive(Clone, PartialEq, Eq, Debug)]
pub struct Vec3Expr {
    /// First component token.
    pub x: Scalar,
    /// Second component token.
    pub y: Scalar,
    /// Third component token.
    pub z: Scalar,
}

impl Vec3Expr {
    /// All three component tokens are well formed.
    pub open spec fn wf(&self) -> bool {
        self.x.wf() && self.y.wf() && self.z.wf()
    }

    /// The all-zero vector.
    pub fn zero() -> (r: Vec3Expr)
        ensures
            r.x@ == "0"@ && r.y@ == "0"@ && r.z@ == "0"@,
            r.wf(),
    {
        Vec3Expr { x: Scalar::zero(), y: Scalar::zero(), z: Scalar::zero() }
    }

    /// Renders the vector as a `vec3<f32>` constructor.
    pub fn to_wgsl_string(&self) -> (r: String)
        ensures
            r@ == vec3_wgsl(self.x@, self.y@, self.z@),
    {
        let mut out = String::from_str("vec3<f32>(");
        out.append(self.x.as_str());
        out.append(", ");
        out.append(self.y.as_str());
        out.append(", ");
        out.append(self.z.as_str());
        out.append(")");
        proof {
            assert(out@ =~= vec3_wgsl(self.x@, self.y@, self.z@));
        }
        out
    }
}

/// A rotation, carried as the four scalar tokens of its quaternion components
/// and rendered as a `vec4<f32>` constructor for the shader-side
/// `rotate_point` intrinsic.
#[derive(Clone, PartialEq, Eq, Debug)]
pub struct QuatExpr {
    /// First imaginary component token.
    pub x: Scalar,
    /// Second imaginary component token.
    pub y: Scalar,
    /// Third imaginary component token.
    pub z: Scalar,
    /// Real component token.
    pub w: Scalar,
}

impl QuatExpr {
    /// All four component tokens are well formed.
    pub open spec fn wf(&self) -> bool {
        self.x.wf() && self.y.wf() && self.z.wf() && self.w.wf()
    }

    /// The identity rotation `(0, 0, 0, 1)`.
    pub fn identity() -> (r: QuatExpr)
        ensures
            r.x@ == "0"@ && r.y@ == "0"@ && r.z@ == "0"@ && r.w@ == "1"@,
            r.wf(),
    {
        QuatExpr { x: Scalar::zero(), y: Scalar::zero(), z: Scalar::zero(), w: Scalar::one() }
    }

    /// Renders the quaternion components as a `vec4<f32>` constructor.
    pub fn to_wgsl_string(&self) -> (r: String)
        ensures
            r@ == vec4_wgsl(self.x@, self.y@, self.z@, self.w@),
    {
        let mut out = String::from_str("vec4<f32>(");
        out.append(self.x.as_str());
        out.append(", ");
        out.append(self.y.as_str());
        out.append(", ");
        out.append(self.z.as_str());
        out.append(", ");
        out.append(self.w.as_str());
        out.append(")");
        proof {
            assert(out@ =~= vec4_wgsl(self.x@, self.y@, self.z@, self.w@));
        }
        out
    }
}

} // verus!

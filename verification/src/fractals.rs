//! The fractal families the explorer renders, and what the GPU needs to
//! know about each of them.
//!
//! Complex parameters are single-precision values held as bit patterns.
use vstd::prelude::*;

verus! {

/// A complex number whose parts are single-precision bit patterns.
#[derive(Clone, Copy, Debug, PartialEq, Eq, Structural)]
pub struct ComplexBits {
    pub re: u32,
    pub im: u32,
}

/// Fractal-specific shader parameters: the `c` of Julia and Nova.
#[derive(Clone, Copy, Debug, PartialEq, Eq, Structural)]
pub struct FractalParams {
    pub c_real: u32,
    pub c_imag: u32,
}

impl Default for FractalParams {
    /// Both parameters `0.0`.
    fn default() -> (r: Self)
        ensures
            r == (FractalParams { c_real: 0, c_imag: 0 }),
    {
        FractalParams { c_real: 0, c_imag: 0 }
    }
}

/// The supported fractals.
#[derive(Clone, Copy, Debug, PartialEq, Eq, Structural)]
pub enum FractalType {
    Mandelbrot,
    Julia { c: ComplexBits },
    BurningShip,
    Tricorn,
    Buddhabrot,
    Nova { c: ComplexBits },
}

/// The shader's selector for each fractal.
pub open spec fn fractal_type_id(f: FractalType) -> u32 {
    match f {
        FractalType::Mandelbrot => 0,
        FractalType::Julia { .. } => 1,
        FractalType::BurningShip => 2,
        FractalType::Tricorn => 3,
        FractalType::Buddhabrot => 4,
        FractalType::Nova { .. } => 5,
    }
}

/// The displayed name of each fractal.
pub open spec fn fractal_name(f: FractalType) -> Seq<char> {
    match f {
        FractalType::Mandelbrot => "Mandelbrot Set"@,
        FractalType::Julia { .. } => "Julia Set"@,
        FractalType::BurningShip => "Burning Ship"@,
        FractalType::Tricorn => "Tricorn"@,
        FractalType::Buddhabrot => "Buddhabrot"@,
        FractalType::Nova { .. } => "Nova Fractal"@,
    }
}

/// Bits of `-0.7f32`, the real part of the classic Julia parameter.
pub const JULIA_DEFAULT_C_RE: u32 = 0xbf33_3333;

/// Bits of `0.27015f32`, the imaginary part of the classic Julia parameter.
pub const JULIA_DEFAULT_C_IM: u32 = 0x3e8a_511a;

/// Bits of `1.0f32`, the real part of the default Nova parameter.
pub const NOVA_DEFAULT_C_RE: u32 = 0x3f80_0000;

/// Bits of `0.0f32`, the imaginary part of the default Nova parameter.
pub const NOVA_DEFAULT_C_IM: u32 = 0x0000_0000;

/// The classic Julia set, `c = -0.7 + 0.27015i`.
pub open spec fn default_julia() -> FractalType {
    FractalType::Julia { c: ComplexBits { re: JULIA_DEFAULT_C_RE, im: JULIA_DEFAULT_C_IM } }
}

/// The default Nova fractal, `c = 1 + 0i`.
pub open spec fn default_nova() -> FractalType {
    FractalType::Nova { c: ComplexBits { re: NOVA_DEFAULT_C_RE, im: NOVA_DEFAULT_C_IM } }
}

impl FractalType {
    /// The fractal type selector of the uniform buffer.
    pub fn type_id(&self) -> (r: u32)
        ensures
            r == fractal_type_id(*self),
    {
        match self {
            FractalType::Mandelbrot => 0,
            FractalType::Julia { .. } => 1,
            FractalType::BurningShip => 2,
            FractalType::Tricorn => 3,
            FractalType::Buddhabrot => 4,
            FractalType::Nova { .. } => 5,
        }
    }

    /// Fractal-specific parameters: `c` for Julia and Nova, zero otherwise.
    pub fn params(&self) -> (r: FractalParams)
        ensures
            r == (match *self {
                FractalType::Julia { c } => FractalParams { c_real: c.re, c_imag: c.im },
                FractalType::Nova { c } => FractalParams { c_real: c.re, c_imag: c.im },
                _ => FractalParams { c_real: 0, c_imag: 0 },
            }),
    {
        match self {
            FractalType::Julia { c } => FractalParams { c_real: c.re, c_imag: c.im },
            FractalType::Nova { c } => FractalParams { c_real: c.re, c_imag: c.im },
            _ => FractalParams::default(),
        }
    }

    /// The human-readable name.
    pub fn name(&self) -> (r: &'static str)
        ensures
            r@ == fractal_name(*self),
    {
        match self {
            FractalType::Mandelbrot => "Mandelbrot Set",
            FractalType::Julia { .. } => "Julia Set",
            FractalType::BurningShip => "Burning Ship",
            FractalType::Tricorn => "Tricorn",
            FractalType::Buddhabrot => "Buddhabrot",
            FractalType::Nova { .. } => "Nova Fractal",
        }
    }

    /// Whether this is the Buddhabrot, which is rendered by accumulating
    /// orbit samples rather than by one escape-time pass.
    pub fn is_buddhabrot(&self) -> (r: bool)
        ensures
            r == (*self == FractalType::Buddhabrot),
    {
        match self {
            FractalType::Buddhabrot => true,
            _ => false,
        }
    }

    /// Whether rendering at the given precision uses perturbation against a
    /// reference orbit: only Mandelbrot and Julia, and only in emulated
    /// double precision.
    pub fn uses_perturbation(&self, use_f64: bool) -> (r: bool)
        ensures
            r == (use_f64 && (fractal_type_id(*self) == 0 || fractal_type_id(*self) == 1)),
            r ==> (*self matches FractalType::Mandelbrot || *self matches FractalType::Julia { .. }),
    {
        use_f64 && (self.type_id() == 0 || self.type_id() == 1)
    }
}

/// Distinct fractals have distinct type selectors, so the selector
/// identifies the family.
pub proof fn lemma_type_id_identifies_family(a: FractalType, b: FractalType)
    ensures
        fractal_type_id(a) < 6,
        fractal_type_id(a) == fractal_type_id(b) <==> fractal_name(a) == fractal_name(b),
{
    reveal_strlit("Mandelbrot Set");
    reveal_strlit("Julia Set");
    reveal_strlit("Burning Ship");
    reveal_strlit("Tricorn");
    reveal_strlit("Buddhabrot");
    reveal_strlit("Nova Fractal");
    assert("Burning Ship"@[0] != "Nova Fractal"@[0]);
    if fractal_name(a) == fractal_name(b) {
        assert(fractal_name(a).len() == fractal_name(b).len());
        assert(fractal_name(a)[0] == fractal_name(b)[0]);
    }
}

/// The Mandelbrot set, as a fractal of its own.
pub struct Mandelbrot;

/// The Julia set for a parameter `c`.
pub struct Julia {
    pub c: ComplexBits,
}

/// The Burning Ship fractal.
pub struct BurningShip;

/// The Buddhabrot: a density map of escaping Mandelbrot orbits.
pub struct Buddhabrot;

/// The Nova fractal, Newton's method for `z^3 - 1` perturbed by `c`.
pub struct Nova {
    pub c: ComplexBits,
}

impl Mandelbrot {
    pub fn type_id(&self) -> (r: u32)
        ensures
            r == fractal_type_id(FractalType::Mandelbrot),
    {
        0
    }

    pub fn get_params(&self) -> (r: FractalParams)
        ensures
            r == (FractalParams { c_real: 0, c_imag: 0 }),
    {
        FractalParams::default()
    }

    pub fn name(&self) -> (r: &'static str)
        ensures
            r@ == fractal_name(FractalType::Mandelbrot),
    {
        "Mandelbrot Set"
    }
}

impl Julia {
    pub fn new(c: ComplexBits) -> (r: Julia)
        ensures
            r.c == c,
    {
        Julia { c }
    }

    /// The classic Julia parameter `c = -0.7 + 0.27015i`.
    pub fn default() -> (r: Julia)
        ensures
            (FractalType::Julia { c: r.c }) == default_julia(),
    {
        Julia { c: ComplexBits { re: JULIA_DEFAULT_C_RE, im: JULIA_DEFAULT_C_IM } }
    }

    pub fn type_id(&self) -> (r: u32)
        ensures
            r == fractal_type_id((FractalType::Julia { c: self.c })),
    {
        1
    }

    pub fn get_params(&self) -> (r: FractalParams)
        ensures
            r == (FractalParams { c_real: self.c.re, c_imag: self.c.im }),
    {
        FractalParams { c_real: self.c.re, c_imag: self.c.im }
    }

    pub fn name(&self) -> (r: &'static str)
        ensures
            r@ == fractal_name((FractalType::Julia { c: self.c })),
    {
        "Julia Set"
    }
}

impl BurningShip {
    pub fn type_id(&self) -> (r: u32)
        ensures
            r == fractal_type_id(FractalType::BurningShip),
    {
        2
    }

    pub fn get_params(&self) -> (r: FractalParams)
        ensures
            r == (FractalParams { c_real: 0, c_imag: 0 }),
    {
        FractalParams::default()
    }

    pub fn name(&self) -> (r: &'static str)
        ensures
            r@ == fractal_name(FractalType::BurningShip),
    {
        "Burning Ship"
    }
}

impl Buddhabrot {
    pub fn type_id(&self) -> (r: u32)
        ensures
            r == fractal_type_id(FractalType::Buddhabrot),
    {
        4
    }

    pub fn get_params(&self) -> (r: FractalParams)
        ensures
            r == (FractalParams { c_real: 0, c_imag: 0 }),
    {
        FractalParams::default()
    }

    pub fn name(&self) -> (r: &'static str)
        ensures
            r@ == fractal_name(FractalType::Buddhabrot),
    {
        "Buddhabrot"
    }
}

impl Nova {
    pub fn new(c: ComplexBits) -> (r: Nova)
        ensures
            r.c == c,
    {
        Nova { c }
    }

    /// The default Nova parameter `c = 1 + 0i`.
    pub fn default() -> (r: Nova)
        ensures
            (FractalType::Nova { c: r.c }) == default_nova(),
    {
        Nova { c: ComplexBits { re: NOVA_DEFAULT_C_RE, im: NOVA_DEFAULT_C_IM } }
    }

    pub fn type_id(&self) -> (r: u32)
        ensures
            r == fractal_type_id((FractalType::Nova { c: self.c })),
    {
        5
    }

    pub fn get_params(&self) -> (r: FractalParams)
        ensures
            r == (FractalParams { c_real: self.c.re, c_imag: self.c.im }),
    {
        FractalParams { c_real: self.c.re, c_imag: self.c.im }
    }

    pub fn name(&self) -> (r: &'static str)
        ensures
            r@ == fractal_name((FractalType::Nova { c: self.c })),
    {
        "Nova Fractal"
    }
}

} // verus!

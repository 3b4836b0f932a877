//! Capability tokens for instruction-set extensions.
//!
//! A token is a zero-sized value whose existence stands for "this extension may be used".
//! Tokens are made from a snapshot of the running machine's CPU features, or, where the caller
//! already knows the answer, without looking.

use vstd::prelude::*;

verus! {

/// The instruction-set extensions that vectors can be specialized for.
#[derive(Clone, Copy, Debug, PartialEq, Eq, Structural)]
pub enum Extension {
    /// The portable scalar fallback, available everywhere.
    Generic,
    /// SSE4.1 on x86 and x86-64.
    Sse,
    /// AVX on x86 and x86-64.
    Avx,
    /// NEON on arm and aarch64.
    Neon,
    /// SIMD128 on wasm32.
    Simd128,
}

/// Whether being allowed to use `stronger` also allows using `weaker`.
///
/// Every extension implies itself and the portable fallback; AVX also implies SSE4.1.
pub open spec fn grants(stronger: Extension, weaker: Extension) -> bool {
    stronger == weaker || weaker == Extension::Generic || (stronger == Extension::Avx && weaker
        == Extension::Sse)
}

impl Extension {
    /// Returns whether this extension implies `weaker`.
    pub fn grants(self, weaker: Extension) -> (r: bool)
        ensures
            r == grants(self, weaker),
    {
        self == weaker || weaker == Extension::Generic || (self == Extension::Avx && weaker
            == Extension::Sse)
    }
}

/// The implication order is reflexive.
pub proof fn lemma_grants_reflexive(e: Extension)
    ensures
        grants(e, e),
{
}

/// The implication order is transitive.
pub proof fn lemma_grants_transitive(a: Extension, b: Extension, c: Extension)
    requires
        grants(a, b),
        grants(b, c),
    ensures
        grants(a, c),
{
}

/// The implication order is antisymmetric.
pub proof fn lemma_grants_antisymmetric(a: Extension, b: Extension)
    requires
        grants(a, b),
        grants(b, a),
    ensures
        a == b,
{
}

/// A snapshot of which CPU features the running machine offers.
///
/// It is filled by probing the processor; the portable fallback needs no feature.
#[derive(Clone, Copy, Debug, PartialEq, Eq, Structural)]
pub struct CpuFeatures {
    pub sse41: bool,
    pub avx: bool,
    pub neon: bool,
    pub simd128: bool,
}

/// Whether a machine with `features` supports `e`.
///
/// AVX counts as supported only together with SSE4.1, so that the implication order holds
/// of every snapshot.
pub open spec fn supports(features: CpuFeatures, e: Extension) -> bool {
    match e {
        Extension::Generic => true,
        Extension::Sse => features.sse41,
        Extension::Avx => features.avx && features.sse41,
        Extension::Neon => features.neon,
        Extension::Simd128 => features.simd128,
    }
}

impl CpuFeatures {
    /// A snapshot in which no optional feature is present.
    pub fn none() -> (r: CpuFeatures)
        ensures
            forall|e: Extension| supports(r, e) <==> e == Extension::Generic,
    {
        CpuFeatures { sse41: false, avx: false, neon: false, simd128: false }
    }

    /// Returns whether this snapshot supports `e`.
    pub fn supports(&self, e: Extension) -> (r: bool)
        ensures
            r == supports(*self, e),
    {
        match e {
            Extension::Generic => true,
            Extension::Sse => self.sse41,
            Extension::Avx => self.avx && self.sse41,
            Extension::Neon => self.neon,
            Extension::Simd128 => self.simd128,
        }
    }
}

/// Support is closed under implication: a machine that supports an extension supports every
/// extension that it implies.
pub proof fn lemma_supports_implied(features: CpuFeatures, stronger: Extension, weaker: Extension)
    requires
        supports(features, stronger),
        grants(stronger, weaker),
    ensures
        supports(features, weaker),
{
}

/// Indicates support for a particular instruction-set extension.
pub trait Token: Copy + Sized {
    /// The extension this token stands for.
    spec fn extension() -> Extension;

    /// Returns the extension this token stands for.
    fn extension_of(&self) -> (r: Extension)
        ensures
            r == Self::extension(),
    ;

    /// Detects whether the extension is supported, returning a token if it is.
    fn new(features: &CpuFeatures) -> (r: Option<Self>)
        ensures
            r.is_some() == supports(*features, Self::extension()),
    ;

    /// Creates the token without detecting whether the extension is supported.
    ///
    /// The caller vouches that the running machine supports the extension.
    fn new_unchecked() -> Self;
}

/// A token that can stand in for the weaker token `W`: holding `Self` proves `W` usable.
pub trait Implies<W: Token>: Token {
    /// Converts to the weaker token.
    fn weaken(self) -> (r: W)
        ensures
            grants(Self::extension(), W::extension()),
    ;
}

/// Portable instruction-set token, available on every machine.
#[derive(Clone, Copy, Debug)]
pub struct Generic;

/// SSE4.1 instruction-set token.
#[derive(Clone, Copy, Debug)]
pub struct Sse(());

/// AVX instruction-set token.
#[derive(Clone, Copy, Debug)]
pub struct Avx(());

/// NEON instruction-set token.
#[derive(Clone, Copy, Debug)]
pub struct Neon(());

/// SIMD128 instruction-set token.
#[derive(Clone, Copy, Debug)]
pub struct Wasm32(());

impl Token for Generic {
    open spec fn extension() -> Extension {
        Extension::Generic
    }

    fn extension_of(&self) -> (r: Extension) {
        Extension::Generic
    }

    fn new(features: &CpuFeatures) -> (r: Option<Self>) {
        Some(Generic)
    }

    fn new_unchecked() -> Self {
        Generic
    }
}

impl Token for Sse {
    open spec fn extension() -> Extension {
        Extension::Sse
    }

    fn extension_of(&self) -> (r: Extension) {
        Extension::Sse
    }

    fn new(features: &CpuFeatures) -> (r: Option<Self>) {
        if features.supports(Extension::Sse) {
            Some(Sse(()))
        } else {
            None
        }
    }

    fn new_unchecked() -> Self {
        Sse(())
    }
}

impl Token for Avx {
    open spec fn extension() -> Extension {
        Extension::Avx
    }

    fn extension_of(&self) -> (r: Extension) {
        Extension::Avx
    }

    fn new(features: &CpuFeatures) -> (r: Option<Self>) {
        if features.supports(Extension::Avx) {
            Some(Avx(()))
        } else {
            None
        }
    }

    fn new_unchecked() -> Self {
        Avx(())
    }
}

impl Token for Neon {
    open spec fn extension() -> Extension {
        Extension::Neon
    }

    fn extension_of(&self) -> (r: Extension) {
        Extension::Neon
    }

    fn new(features: &CpuFeatures) -> (r: Option<Self>) {
        if features.supports(Extension::Neon) {
            Some(Neon(()))
        } else {
            None
        }
    }

    fn new_unchecked() -> Self {
        Neon(())
    }
}

impl Token for Wasm32 {
    open spec fn extension() -> Extension {
        Extension::Simd128
    }

    fn extension_of(&self) -> (r: Extension) {
        Extension::Simd128
    }

    fn new(features: &CpuFeatures) -> (r: Option<Self>) {
        if features.supports(Extension::Simd128) {
            Some(Wasm32(()))
        } else {
            None
        }
    }

    fn new_unchecked() -> Self {
        Wasm32(())
    }
}

impl Implies<Generic> for Generic {
    fn weaken(self) -> (r: Generic) {
        Generic
    }
}

impl Implies<Generic> for Sse {
    fn weaken(self) -> (r: Generic) {
        Generic
    }
}

impl Implies<Generic> for Avx {
    fn weaken(self) -> (r: Generic) {
        Generic
    }
}

impl Implies<Generic> for Neon {
    fn weaken(self) -> (r: Generic) {
        Generic
    }
}

impl Implies<Generic> for Wasm32 {
    fn weaken(self) -> (r: Generic) {
        Generic
    }
}

impl Implies<Sse> for Sse {
    fn weaken(self) -> (r: Sse) {
        self
    }
}

impl Implies<Sse> for Avx {
    fn weaken(self) -> (r: Sse) {
        Sse(())
    }
}

impl Implies<Avx> for Avx {
    fn weaken(self) -> (r: Avx) {
        self
    }
}

impl Implies<Neon> for Neon {
    fn weaken(self) -> (r: Neon) {
        self
    }
}

impl Implies<Wasm32> for Wasm32 {
    fn weaken(self) -> (r: Wasm32) {
        self
    }
}

} // verus!

use material_colors::color::Argb;
use material_colors::scheme::Scheme;
use material_colors::theme::ThemeBuilder;
use vstd::prelude::*;

verus! {

#[verifier::external_type_specification]
pub struct ExScheme(Scheme);

/// The brand colour that the default theme is derived from.
pub const DEFAULT_SEED: u32 = 0xFFBC0D;

/// The dark scheme that material-colors derives from a source colour given
/// by its alpha, red, green and blue channels.
pub uninterp spec fn dark_scheme_of(alpha: u8, red: u8, green: u8, blue: u8) -> Scheme;

/// The colour that `Argb::from_u32` reads from a packed `0xAARRGGBB` value.
pub open spec fn argb_of(value: u32) -> Argb {
    Argb {
        alpha: ((value >> 24u32) & 0xFFu32) as u8,
        red: ((value >> 16u32) & 0xFFu32) as u8,
        green: ((value >> 8u32) & 0xFFu32) as u8,
        blue: (value & 0xFFu32) as u8,
    }
}

/// Relies on `Argb::from_u32`: it splits a packed value into its four bytes.
pub assume_specification[ Argb::from_u32 ](value: u32) -> (r: Argb)
    ensures
        r == argb_of(value),
;

/// Relies on `ThemeBuilder::with_source(..).build()`: its dark scheme depends
/// on the source colour alone.
#[verifier::external_body]
fn build_dark_scheme(source: Argb) -> (r: Scheme)
    ensures
        r == dark_scheme_of(source.alpha, source.red, source.green, source.blue),
{
    ThemeBuilder::with_source(source).build().schemes.dark
}

/// The scheme a theme slot starts with: the dark scheme of `DEFAULT_SEED`.
pub open spec fn default_scheme_spec() -> Scheme {
    let c = argb_of(DEFAULT_SEED);
    dark_scheme_of(c.alpha, c.red, c.green, c.blue)
}

/// Builds the dark scheme of the default brand colour.
pub fn default_scheme() -> (r: Scheme)
    ensures
        r == default_scheme_spec(),
{
    build_dark_scheme(Argb::from_u32(DEFAULT_SEED))
}

/// The shared slot that holds the active colour scheme of one UI tree. It is
/// empty until the theme is first read or set.
pub struct ThemeContext {
    scheme: Option<Scheme>,
}

impl View for ThemeContext {
    type V = Option<Scheme>;

    closed spec fn view(&self) -> Option<Scheme> {
        self.scheme
    }
}

impl ThemeContext {
    /// A context in which no theme has been read or set yet.
    pub fn new() -> (r: ThemeContext)
        ensures
            r@ is None,
    {
        ThemeContext { scheme: None }
    }

    /// The scheme that a read of the theme sees in this state: the one held,
    /// or the default one where none is held yet.
    pub open spec fn current(self) -> Scheme {
        match self@ {
            Some(s) => s,
            None => default_scheme_spec(),
        }
    }

    /// The state after a read: the slot holds what the read returned.
    pub open spec fn after_read(self) -> Option<Scheme> {
        Some(self.current())
    }
}

/// Reads the active scheme. The first read in a context stores the default
/// scheme there; later reads return what the slot holds, unchanged.
pub fn use_material_theme(ctx: &mut ThemeContext) -> (r: &Scheme)
    ensures
        *r == old(ctx).current(),
        final(ctx)@ == old(ctx).after_read(),
        old(ctx)@ is Some ==> final(ctx)@ == old(ctx)@,
{
    if ctx.scheme.is_none() {
        ctx.scheme = Some(default_scheme());
    }
    ctx.scheme.as_ref().unwrap()
}

/// Replaces the active scheme wholesale; any scheme is accepted.
pub fn set_material_theme(ctx: &mut ThemeContext, scheme: Scheme)
    ensures
        final(ctx)@ == Some(scheme),
{
    ctx.scheme = Some(scheme);
}

/// Two reads of the theme with no set between them return the same scheme,
/// and the second leaves the context as the first left it.
pub proof fn lemma_read_idempotent(ctx: ThemeContext, after: ThemeContext)
    requires
        after@ == ctx.after_read(),
    ensures
        after.current() == ctx.current(),
        after.after_read() == after@,
{
}

/// A read right after a set returns the scheme that was set.
pub proof fn lemma_set_then_read(ctx: ThemeContext, scheme: Scheme)
    requires
        ctx@ == Some(scheme),
    ensures
        ctx.current() == scheme,
        ctx.after_read() == ctx@,
{
}

/// On a fresh context the first read returns the dark scheme of the default
/// brand colour.
pub proof fn lemma_fresh_read_is_default(ctx: ThemeContext)
    requires
        ctx@ is None,
    ensures
        ctx.current() == default_scheme_spec(),
        ctx.current() == dark_scheme_of(0u8, 0xFFu8, 0xBCu8, 0x0Du8),
{
    assert(((DEFAULT_SEED >> 24u32) & 0xFFu32) == 0u32) by (bit_vector);
    assert(((DEFAULT_SEED >> 16u32) & 0xFFu32) == 0xFFu32) by (bit_vector);
    assert(((DEFAULT_SEED >> 8u32) & 0xFFu32) == 0xBCu32) by (bit_vector);
    assert((DEFAULT_SEED & 0xFFu32) == 0x0Du32) by (bit_vector);
}

} // verus!

//! The OpenGL texture that mpv draws into and egui shows.
use vstd::prelude::*;

verus! {

/// The pixel format of the texture: `GL_RGB`.
pub const RGB: i32 = 0x1907;

/// Whether this is the bit pattern of a NaN.
pub open spec fn is_nan(bits: u32) -> bool {
    bits & 0x7fff_ffff > 0x7f80_0000
}

/// Whether this is the bit pattern of a zero, positive or negative.
pub open spec fn is_zero(bits: u32) -> bool {
    bits & 0x7fff_ffff == 0
}

/// Whether two IEEE 754 bit patterns stand for equal numbers: a NaN equals nothing, and the
/// two zeros are equal.
pub open spec fn equal_floats(a: u32, b: u32) -> bool {
    &&& !is_nan(a)
    &&& !is_nan(b)
    &&& a == b || (is_zero(a) && is_zero(b))
}

fn equal_float_bits(a: u32, b: u32) -> (r: bool)
    ensures
        r == equal_floats(a, b),
{
    a & 0x7fff_ffff <= 0x7f80_0000 && b & 0x7fff_ffff <= 0x7f80_0000 && (a == b || (a & 0x7fff_ffff
        == 0 && b & 0x7fff_ffff == 0))
}

/// A rectangle on the screen: the coordinates of two corners, as IEEE 754 bit patterns.
#[derive(Clone, Copy, Debug, PartialEq, Eq, Structural)]
pub struct Rect {
    pub min_x: u32,
    pub min_y: u32,
    pub max_x: u32,
    pub max_y: u32,
}

impl Rect {
    /// Whether the corners are the same.
    pub open spec fn same(self, other: Rect) -> bool {
        &&& equal_floats(self.min_x, other.min_x)
        &&& equal_floats(self.min_y, other.min_y)
        &&& equal_floats(self.max_x, other.max_x)
        &&& equal_floats(self.max_y, other.max_y)
    }

    /// Whether some coordinate is a NaN.
    pub open spec fn has_nan(self) -> bool {
        is_nan(self.min_x) || is_nan(self.min_y) || is_nan(self.max_x) || is_nan(self.max_y)
    }

    /// Whether the corners are the same.
    pub fn is_same(&self, other: &Rect) -> (r: bool)
        ensures
            r == self.same(*other),
    {
        equal_float_bits(self.min_x, other.min_x) && equal_float_bits(self.min_y, other.min_y)
            && equal_float_bits(self.max_x, other.max_x) && equal_float_bits(
            self.max_y,
            other.max_y,
        )
    }
}

/// What egui calls a texture.
#[derive(Clone, Copy, Debug, PartialEq, Eq, Structural)]
pub enum TextureId {
    Managed(u64),
    User(u64),
}

/// Where mpv is to draw.
#[derive(Clone, Copy, Debug, PartialEq, Eq, Structural)]
pub struct FboParams {
    pub fbo: i32,
    pub w: i32,
    pub h: i32,
    pub internal_format: i32,
}

/// A texture, and the framebuffer that draws into it.
#[derive(Clone, Copy, Debug, PartialEq, Eq, Structural)]
pub struct PlayerTexture {
    tex: u32,
    fbo: u32,
    tex_id: Option<TextureId>,
    tex_size: Rect,
}

/// The mathematical content of a [`PlayerTexture`].
pub struct TextureView {
    /// The OpenGL name of the texture.
    pub tex: u32,
    /// The OpenGL name of the framebuffer.
    pub fbo: u32,
    /// What egui calls the texture, once it knows it.
    pub tex_id: Option<TextureId>,
    /// The rectangle that the texture was made for.
    pub size: Rect,
}

impl View for PlayerTexture {
    type V = TextureView;

    closed spec fn view(&self) -> TextureView {
        TextureView { tex: self.tex, fbo: self.fbo, tex_id: self.tex_id, size: self.tex_size }
    }
}

impl PlayerTexture {
    /// The texture `tex` with the framebuffer `fbo`, made for the rectangle `size`. egui does not
    /// know it yet.
    pub fn new(size: Rect, tex: u32, fbo: u32) -> (r: Self)
        ensures
            r@ == (TextureView { tex, fbo, tex_id: None, size }),
    {
        PlayerTexture { tex, fbo, tex_id: None, tex_size: size }
    }

    /// Where mpv is to draw: into the framebuffer, which is `w` by `h` pixels large. The name of
    /// the framebuffer is passed on with its bits as they are.
    pub fn fbo_params(&self, w: i32, h: i32) -> (r: FboParams)
        ensures
            r.fbo == (if self@.fbo <= i32::MAX { self@.fbo as int } else {
                self@.fbo - 0x1_0000_0000
            }),
            r.w == w,
            r.h == h,
            r.internal_format == RGB,
    {
        let name: u32 = self.fbo;
        let fbo: i32 = #[verifier::truncate] (name as i32);
        assert(name <= 0x7fff_ffff ==> (name as i32) == name) by (bit_vector);
        assert(name > 0x7fff_ffff ==> (name as i32) == name - 0x1_0000_0000) by (bit_vector);
        FboParams { fbo, w, h, internal_format: RGB }
    }

    /// Notes what egui calls the texture.
    pub fn set_tex_id(&mut self, tex_id: TextureId)
        ensures
            final(self)@ == (TextureView { tex_id: Some(tex_id), ..old(self)@ }),
    {
        self.tex_id = Some(tex_id);
    }

    /// What egui calls the texture, if it knows it.
    pub fn tex_id(&self) -> (r: Option<TextureId>)
        ensures
            r == self@.tex_id,
    {
        self.tex_id
    }

    /// The OpenGL name of the texture.
    pub fn tex(&self) -> (r: u32)
        ensures
            r == self@.tex,
    {
        self.tex
    }

    /// The OpenGL name of the framebuffer.
    pub fn fbo(&self) -> (r: u32)
        ensures
            r == self@.fbo,
    {
        self.fbo
    }

    /// The rectangle that the texture was made for.
    pub fn size(&self) -> (r: Rect)
        ensures
            r == self@.size,
    {
        self.tex_size
    }
}

/// What to do with the texture before mpv draws.
#[derive(Clone, Copy, Debug, PartialEq, Eq, Structural)]
pub enum TextureStep {
    /// Draw into the one that is there.
    Keep,
    /// Make one.
    Create,
    /// Destroy this one, and make another.
    Replace(PlayerTexture),
}

/// What there is to show.
#[derive(Clone, Copy, Debug, PartialEq, Eq, Structural)]
pub enum ImageStep {
    /// Nothing yet.
    NoImage,
    /// A texture that egui has to be told of first.
    Register(u32),
    /// The texture that egui calls this, of this size.
    Ready(TextureId, Rect),
}

/// The texture of a player, once there is one.
#[derive(Clone, Copy, Debug, PartialEq, Eq, Structural)]
pub struct TextureSlot {
    tex: Option<PlayerTexture>,
}

impl View for TextureSlot {
    type V = Option<TextureView>;

    closed spec fn view(&self) -> Option<TextureView> {
        match self.tex {
            Some(tex) => Some(tex@),
            None => None,
        }
    }
}

/// Whether the texture in a slot serves for the rectangle `rect`.
pub open spec fn serves(slot: Option<TextureView>, rect: Rect) -> bool {
    slot matches Some(tex) && tex.size.same(rect)
}

impl TextureSlot {
    /// No texture.
    pub fn new() -> (r: Self)
        ensures
            r@ is None,
    {
        TextureSlot { tex: None }
    }

    /// The texture.
    pub fn current(&self) -> (r: Option<PlayerTexture>)
        ensures
            r is Some <==> self@ is Some,
            r is Some ==> r->0@ == self@->0,
    {
        self.tex
    }

    /// Forgets the texture.
    pub fn clear(&mut self)
        ensures
            final(self)@ is None,
    {
        self.tex = None;
    }

    /// What to do before mpv draws into the rectangle `rect`: the texture is made anew whenever
    /// the rectangle is another.
    pub fn prepare(&self, rect: &Rect) -> (r: TextureStep)
        ensures
            match r {
                TextureStep::Keep => serves(self@, *rect),
                TextureStep::Create => self@ is None,
                TextureStep::Replace(other) => self@ == Some(other@) && !serves(self@, *rect),
            },
    {
        match self.tex {
            None => TextureStep::Create,
            Some(tex) => if tex.size().is_same(rect) {
                TextureStep::Keep
            } else {
                TextureStep::Replace(tex)
            },
        }
    }

    /// Puts a newly made texture in place.
    pub fn install(&mut self, tex: PlayerTexture)
        ensures
            final(self)@ == Some(tex@),
    {
        self.tex = Some(tex);
    }

    /// The OpenGL name of the texture.
    pub fn texture(&self) -> (r: Option<u32>)
        ensures
            r == (match self@ {
                Some(tex) => Some(tex.tex),
                None => None::<u32>,
            }),
    {
        match self.tex {
            Some(tex) => Some(tex.tex()),
            None => None,
        }
    }

    /// What there is to show.
    pub fn image(&self) -> (r: ImageStep)
        ensures
            r == (match self@ {
                None => ImageStep::NoImage,
                Some(tex) => match tex.tex_id {
                    None => ImageStep::Register(tex.tex),
                    Some(id) => ImageStep::Ready(id, tex.size),
                },
            }),
    {
        match self.tex {
            None => ImageStep::NoImage,
            Some(tex) => match tex.tex_id() {
                None => ImageStep::Register(tex.tex()),
                Some(id) => ImageStep::Ready(id, tex.size()),
            },
        }
    }

    /// Notes what egui calls the texture, if there is one.
    pub fn set_tex_id(&mut self, tex_id: TextureId)
        ensures
            final(self)@ == (match old(self)@ {
                Some(tex) => Some(TextureView { tex_id: Some(tex_id), ..tex }),
                None => None::<TextureView>,
            }),
    {
        if let Some(tex) = self.tex {
            let mut tex = tex;
            tex.set_tex_id(tex_id);
            self.tex = Some(tex);
        }
    }
}

/// A texture serves for a rectangle if and only if no coordinate of either is a NaN and each has the
/// same bits in both, or is a zero in both. So it serves for no rectangle of another size or place.
pub proof fn serves_only_its_rectangle(tex: TextureView, rect: Rect)
    ensures
        !serves(None, rect),
        ({
            let number = |a: u32| a % 0x8000_0000 <= 0x7f80_0000;
            let zero = |a: u32| a == 0 || a == 0x8000_0000;
            let equal = |a: u32, b: u32| number(a) && number(b) && (a == b || (zero(a) && zero(b)));
            serves(Some(tex), rect) <==> {
                &&& equal(tex.size.min_x, rect.min_x)
                &&& equal(tex.size.min_y, rect.min_y)
                &&& equal(tex.size.max_x, rect.max_x)
                &&& equal(tex.size.max_y, rect.max_y)
            }
        }),
{
    assert(forall|a: u32| #[trigger] (a & 0x7fff_ffff) == a % 0x8000_0000) by (bit_vector);
    assert(forall|a: u32|
        #[trigger] (a & 0x7fff_ffff) == 0 <==> (a == 0 || a == 0x8000_0000)) by (bit_vector);
}

/// Of two rectangles that a texture serves for, each coordinate is the same, or a zero in both: the
/// sizes that it is drawn in do not differ.
pub proof fn served_rectangles_agree(tex: TextureView, a: Rect, b: Rect)
    requires
        serves(Some(tex), a),
        serves(Some(tex), b),
    ensures
        a.min_x == b.min_x || (a.min_x % 0x8000_0000 == 0 && b.min_x % 0x8000_0000 == 0),
        a.min_y == b.min_y || (a.min_y % 0x8000_0000 == 0 && b.min_y % 0x8000_0000 == 0),
        a.max_x == b.max_x || (a.max_x % 0x8000_0000 == 0 && b.max_x % 0x8000_0000 == 0),
        a.max_y == b.max_y || (a.max_y % 0x8000_0000 == 0 && b.max_y % 0x8000_0000 == 0),
{
    serves_only_its_rectangle(tex, a);
    serves_only_its_rectangle(tex, b);
}

/// The pixels are red, green and blue: `GL_RGB` has this number.
pub proof fn pixels_are_rgb()
    ensures
        RGB == 6407,
{
}

/// A texture that has been made for a rectangle serves as long as that rectangle is asked for,
/// unless one of its coordinates is a NaN.
pub proof fn made_for_serves(tex: TextureView)
    ensures
        serves(Some(tex), tex.size) <==> !tex.size.has_nan(),
        tex.size.has_nan() <==> {
            ||| tex.size.min_x % 0x8000_0000 > 0x7f80_0000
            ||| tex.size.min_y % 0x8000_0000 > 0x7f80_0000
            ||| tex.size.max_x % 0x8000_0000 > 0x7f80_0000
            ||| tex.size.max_y % 0x8000_0000 > 0x7f80_0000
        },
{
    assert(forall|a: u32| #[trigger] (a & 0x7fff_ffff) == a % 0x8000_0000) by (bit_vector);
}

} // verus!

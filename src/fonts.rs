use vstd::prelude::*;
use crate::cache::{ResourceCache, ResourceKey};
use crate::frame_loop::Gc2dResult;

verus! {

/// A font at one point size: the key under which a loaded font is cached.
/// The same file at another size is another font.
#[derive(Clone, Debug, Hash, PartialEq, Eq)]
pub struct Font {
    pub filename: String,
    pub point_size: u16,
}

impl View for Font {
    type V = (Seq<char>, u16);

    open spec fn view(&self) -> (Seq<char>, u16) {
        (self.filename@, self.point_size)
    }
}

impl ResourceKey for Font {
    fn same_key(&self, other: &Self) -> (r: bool) {
        self.point_size == other.point_size && self.filename == other.filename
    }

    fn duplicate(&self) -> (r: Self) {
        Font { filename: self.filename.clone(), point_size: self.point_size }
    }
}

impl Font {
    pub fn new(filename: &str, point_size: u16) -> (f: Font)
        ensures
            f@ == (filename@, point_size),
    {
        Font { filename: filename.to_string(), point_size }
    }
}

/// The size of a rendered text, in pixels.
#[derive(PartialEq, Eq, Structural, Clone, Copy, Debug)]
pub struct FontSize {
    pub height: u32,
    pub width: u32,
}

/// The loaded fonts, by font key.
pub type FontsManager<V> = ResourceCache<Font, V>;

/// Whether `measure` may give, for `text` in font `v`, a width and a height
/// matching those given (`None` matches any).
pub open spec fn may_measure<V, F: Fn(&V, &str) -> Result<(u32, u32), String>>(
    measure: F,
    v: &V,
    text: Seq<char>,
    width: Option<u32>,
    height: Option<u32>,
) -> bool {
    exists|t: &str, w: u32, h: u32|
        t@ == text && #[trigger] measure.ensures((v, t), Ok::<(u32, u32), String>((w, h)))
            && (width is None || width == Some(w)) && (height is None || height == Some(h))
}

/// Whether `measure` may fail for `text` in font `v`.
pub open spec fn may_fail_measure<V, F: Fn(&V, &str) -> Result<(u32, u32), String>>(
    measure: F,
    v: &V,
    text: Seq<char>,
) -> bool {
    exists|t: &str, m: String|
        t@ == text && #[trigger] measure.ensures((v, t), Err::<(u32, u32), String>(m))
}

/// The size of `text` rendered in a loaded font. `measure` renders with the
/// font and gives the width and height.
pub fn get_font_size<V, F: Fn(&V, &str) -> Result<(u32, u32), String>>(
    fonts: &FontsManager<V>,
    text: &str,
    font_key: &Font,
    measure: &F,
) -> (r: Gc2dResult<FontSize>)
    requires
        fonts.wf(),
        forall|v: &V, t: &str| measure.requires((v, t)),
    ensures
        !fonts@.contains_key(font_key@) ==> (r matches Err(e) && e@ == "Font not found"@),
        fonts@.contains_key(font_key@) ==> match r {
            Ok(size) => measure.ensures(
                (&fonts@[font_key@], text),
                Ok::<(u32, u32), String>((size.width, size.height)),
            ),
            Err(e) => e@ == "Font size not found"@ && exists|m: String|
                #[trigger] measure.ensures((&fonts@[font_key@], text), Err::<(u32, u32), String>(m)),
        },
{
    match fonts.get(font_key) {
        Some(font) => {
            let measured = measure(font, text);
            assert(measure.ensures((&fonts@[font_key@], text), measured));
            match measured {
                Ok((width, height)) => {
                    assert(measure.ensures((&fonts@[font_key@], text), Ok::<(u32, u32), String>((width, height))));
                    Ok(FontSize { height, width })
                },
                Err(m) => {
                    let e = "Font size not found".to_string();
                    assert(measure.ensures((&fonts@[font_key@], text), Err::<(u32, u32), String>(m)));
                    Err(e)
                },
            }
        },
        None => Err("Font not found".to_string()),
    }
}

/// The height of `text` in a loaded font; any failure reads as a missing size.
pub fn get_font_height<V, F: Fn(&V, &str) -> Result<(u32, u32), String>>(
    fonts: &FontsManager<V>,
    text: &str,
    font_key: &Font,
    measure: &F,
) -> (r: Gc2dResult<u32>)
    requires
        fonts.wf(),
        forall|v: &V, t: &str| measure.requires((v, t)),
    ensures
        !fonts@.contains_key(font_key@) ==> (r matches Err(e) && e@ == "Font size not found"@),
        fonts@.contains_key(font_key@) ==> match r {
            Ok(h) => may_measure(*measure, &fonts@[font_key@], text@, None, Some(h)),
            Err(e) => e@ == "Font size not found"@ && may_fail_measure(*measure, &fonts@[font_key@], text@),
        },
{
    match get_font_size(fonts, text, font_key, measure) {
        Ok(size) => {
            assert(measure.ensures(
                (&fonts@[font_key@], text),
                Ok::<(u32, u32), String>((size.width, size.height)),
            ));
            Ok(size.height)
        },
        Err(_) => Err("Font size not found".to_string()),
    }
}

/// The width of `text` in a loaded font; any failure reads as a missing size.
pub fn get_font_width<V, F: Fn(&V, &str) -> Result<(u32, u32), String>>(
    fonts: &FontsManager<V>,
    text: &str,
    font_key: &Font,
    measure: &F,
) -> (r: Gc2dResult<u32>)
    requires
        fonts.wf(),
        forall|v: &V, t: &str| measure.requires((v, t)),
    ensures
        !fonts@.contains_key(font_key@) ==> (r matches Err(e) && e@ == "Font size not found"@),
        fonts@.contains_key(font_key@) ==> match r {
            Ok(w) => may_measure(*measure, &fonts@[font_key@], text@, Some(w), None),
            Err(e) => e@ == "Font size not found"@ && may_fail_measure(*measure, &fonts@[font_key@], text@),
        },
{
    match get_font_size(fonts, text, font_key, measure) {
        Ok(size) => {
            assert(measure.ensures(
                (&fonts@[font_key@], text),
                Ok::<(u32, u32), String>((size.width, size.height)),
            ));
            Ok(size.width)
        },
        Err(_) => Err("Font size not found".to_string()),
    }
}

} // verus!

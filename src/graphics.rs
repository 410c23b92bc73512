use vstd::prelude::*;
use crate::cache::ResourceKey;
use crate::color::Color;
use crate::fonts::{Font, FontsManager};
use crate::requests::{fulfil_requests, fulfilled, loads_after_drain, RequestQueue};

verus! {

/// How a shape is drawn: filled, or as an outline.
#[derive(PartialEq, Eq, Structural, Clone, Copy, Debug)]
pub enum DrawMode {
    Fill,
    Line,
}

/// The drawing state that the user's callbacks change: colours, the current
/// font, and the fonts requested during this frame.
pub struct Graphics {
    new_fonts: RequestQueue<Font>,
    actual_font: Option<Font>,
    actual_color: Color,
    background_color: Color,
    default_color: Color,
}

/// Whether the first request whose key `held` contains is request `i`.
pub open spec fn first_held<V>(q: Seq<Font>, held: Map<(Seq<char>, u16), V>, i: int) -> bool {
    &&& 0 <= i < q.len()
    &&& held.contains_key(q[i]@)
    &&& forall|j: int| 0 <= j < i ==> !held.contains_key(#[trigger] q[j]@)
}

impl Graphics {
    pub closed spec fn pending_fonts(&self) -> Seq<Font> {
        self.new_fonts@
    }

    pub closed spec fn font_spec(&self) -> Option<Font> {
        self.actual_font
    }

    pub closed spec fn color_spec(&self) -> Color {
        self.actual_color
    }

    pub closed spec fn background_spec(&self) -> Color {
        self.background_color
    }

    pub closed spec fn default_color_spec(&self) -> Color {
        self.default_color
    }

    /// White drawing on black, no font, nothing requested.
    pub fn new() -> (g: Graphics)
        ensures
            g.pending_fonts() == Seq::<Font>::empty(),
            g.font_spec() == None::<Font>,
            g.color_spec() == (Color { r: 255, g: 255, b: 255, a: 255 }),
            g.default_color_spec() == (Color { r: 255, g: 255, b: 255, a: 255 }),
            g.background_spec() == (Color { r: 0, g: 0, b: 0, a: 255 }),
    {
        Graphics {
            new_fonts: RequestQueue::new(),
            actual_font: None,
            actual_color: Color::white(),
            background_color: Color::black(),
            default_color: Color::white(),
        }
    }

    /// Starts drawing a frame: gives the colour to clear the surface with and
    /// goes back to the default drawing colour.
    pub fn begin_draw(&mut self) -> (clear_with: Color)
        ensures
            clear_with == old(self).background_spec(),
            final(self).color_spec() == old(self).default_color_spec(),
            final(self).background_spec() == old(self).background_spec(),
            final(self).default_color_spec() == old(self).default_color_spec(),
            final(self).font_spec() == old(self).font_spec(),
            final(self).pending_fonts() == old(self).pending_fonts(),
    {
        let clear_with = self.background_color;
        self.apply_default_color();
        clear_with
    }

    pub fn apply_default_color(&mut self)
        ensures
            final(self).color_spec() == old(self).default_color_spec(),
            final(self).background_spec() == old(self).background_spec(),
            final(self).default_color_spec() == old(self).default_color_spec(),
            final(self).font_spec() == old(self).font_spec(),
            final(self).pending_fonts() == old(self).pending_fonts(),
    {
        self.actual_color = self.default_color;
    }

    pub fn set_color(&mut self, color: Color)
        ensures
            final(self).color_spec() == color,
            final(self).background_spec() == old(self).background_spec(),
            final(self).default_color_spec() == old(self).default_color_spec(),
            final(self).font_spec() == old(self).font_spec(),
            final(self).pending_fonts() == old(self).pending_fonts(),
    {
        self.actual_color = color;
    }

    pub fn set_default_color(&mut self, color: Color)
        ensures
            final(self).default_color_spec() == color,
            final(self).color_spec() == old(self).color_spec(),
            final(self).background_spec() == old(self).background_spec(),
            final(self).font_spec() == old(self).font_spec(),
            final(self).pending_fonts() == old(self).pending_fonts(),
    {
        self.default_color = color;
    }

    pub fn set_background_color(&mut self, color: Color)
        ensures
            final(self).background_spec() == color,
            final(self).color_spec() == old(self).color_spec(),
            final(self).default_color_spec() == old(self).default_color_spec(),
            final(self).font_spec() == old(self).font_spec(),
            final(self).pending_fonts() == old(self).pending_fonts(),
    {
        self.background_color = color;
    }

    pub fn actual_color(&self) -> (c: Color)
        ensures
            c == self.color_spec(),
    {
        self.actual_color
    }

    pub fn background_color(&self) -> (c: Color)
        ensures
            c == self.background_spec(),
    {
        self.background_color
    }

    /// The colour to draw with: the one given, else the current one.
    pub fn color_or_actual(&self, color: Option<Color>) -> (c: Color)
        ensures
            c == match color {
                Some(given) => given,
                None => self.color_spec(),
            },
    {
        match color {
            Some(given) => given,
            None => self.actual_color,
        }
    }

    /// Requests a font; it is loaded at the start of the next frame. Returns
    /// its key, for `set_font`.
    pub fn new_font(&mut self, filename: &str, point_size: u16) -> (f: Font)
        ensures
            f@ == (filename@, point_size),
            final(self).pending_fonts().len() == old(self).pending_fonts().len() + 1,
            final(self).pending_fonts().drop_last() == old(self).pending_fonts(),
            final(self).pending_fonts().last()@ == f@,
            final(self).font_spec() == old(self).font_spec(),
            final(self).color_spec() == old(self).color_spec(),
            final(self).background_spec() == old(self).background_spec(),
            final(self).default_color_spec() == old(self).default_color_spec(),
    {
        let font = Font::new(filename, point_size);
        let request = font.duplicate();
        self.new_fonts.enqueue(request);
        proof {
            assert(self.new_fonts@.drop_last() =~= old(self).new_fonts@);
        }
        font
    }

    /// Sets the font that text is drawn in; it need not be loaded yet.
    pub fn set_font(&mut self, font: Option<Font>)
        ensures
            final(self).font_spec() == font,
            final(self).pending_fonts() == old(self).pending_fonts(),
            final(self).color_spec() == old(self).color_spec(),
            final(self).background_spec() == old(self).background_spec(),
            final(self).default_color_spec() == old(self).default_color_spec(),
    {
        self.actual_font = font;
    }

    pub fn actual_font(&self) -> (f: &Option<Font>)
        ensures
            *f == self.font_spec(),
    {
        &self.actual_font
    }

    /// Loads the fonts requested since the last drain, in request order, and
    /// empties the requests. When no font is set, the first requested font
    /// that is loaded afterwards becomes the current one. Failed loads are
    /// handed back with their keys.
    pub fn drain_fonts<V, E, F: Fn(&Font) -> Result<V, E>>(
        &mut self,
        fonts: &mut FontsManager<V>,
        loader: &F,
    ) -> (failed: Vec<(Font, E)>)
        requires
            old(fonts).wf(),
            forall|k: &Font| loader.requires((k,)),
        ensures
            final(fonts).wf(),
            fulfilled(old(self).pending_fonts(), old(fonts)@, final(fonts)@, *loader, failed@),
            loads_after_drain(old(self).pending_fonts(), *old(fonts), *final(fonts)),
            final(self).pending_fonts() == Seq::<Font>::empty(),
            old(self).font_spec() is Some ==> final(self).font_spec() == old(self).font_spec(),
            old(self).font_spec() is None ==> match final(self).font_spec() {
                Some(f) => exists|i: int|
                    first_held(old(self).pending_fonts(), final(fonts)@, i) && f@ == #[trigger] old(
                        self,
                    ).pending_fonts()[i]@,
                None => forall|i: int|
                    0 <= i < old(self).pending_fonts().len() ==> !final(fonts)@.contains_key(
                        #[trigger] old(self).pending_fonts()[i]@,
                    ),
            },
            final(self).color_spec() == old(self).color_spec(),
            final(self).background_spec() == old(self).background_spec(),
            final(self).default_color_spec() == old(self).default_color_spec(),
    {
        let pending = self.new_fonts.take_all();
        let failed = fulfil_requests(&pending, fonts, loader);
        let ghost filled = *fonts;
        if self.actual_font.is_none() {
            let mut i: usize = 0;
            while i < pending.len()
                invariant
                    fonts.wf(),
                    i <= pending@.len(),
                    self.actual_font is None,
                    old(self).actual_font is None,
                    pending@ == old(self).new_fonts@,
                    self.new_fonts@ == Seq::<Font>::empty(),
                    self.actual_color == old(self).actual_color,
                    self.background_color == old(self).background_color,
                    self.default_color == old(self).default_color,
                    fulfilled(pending@, old(fonts)@, fonts@, *loader, failed@),
                    *fonts == filled,
                    loads_after_drain(pending@, *old(fonts), filled),
                    forall|j: int| 0 <= j < i ==> !fonts@.contains_key(#[trigger] pending@[j]@),
                decreases pending@.len() - i,
            {
                if fonts.contains(&pending[i]) {
                    let chosen = pending[i].duplicate();
                    self.actual_font = Some(chosen);
                    proof {
                        assert(first_held(pending@, fonts@, i as int));
                        assert(self.actual_font->Some_0@ == old(self).pending_fonts()[i as int]@);
                        assert(first_held(old(self).pending_fonts(), fonts@, i as int));
                    }
                    return failed;
                }
                i = i + 1;
            }
        }
        failed
    }
}

} // verus!

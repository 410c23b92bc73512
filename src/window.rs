use vstd::prelude::*;

verus! {

/// The window settings the user may change; the host applies them to the
/// native window after `load`.
pub struct Window {
    pub width: u32,
    pub height: u32,
    pub title: String,
    pub fullscreen: bool,
}

impl Window {
    /// An untitled 800 x 600 window, not full screen.
    pub fn new() -> (w: Window)
        ensures
            w.width == 800,
            w.height == 600,
            w.title@ == Seq::<char>::empty(),
            !w.fullscreen,
    {
        Window { width: 800, height: 600, title: String::new(), fullscreen: false }
    }

    pub fn set_fullscreen(&mut self, fullscreen: bool)
        ensures
            final(self).fullscreen == fullscreen,
            final(self).width == old(self).width,
            final(self).height == old(self).height,
            final(self).title == old(self).title,
    {
        self.fullscreen = fullscreen;
    }

    pub fn set_title(&mut self, title: &str)
        ensures
            final(self).title@ == title@,
            final(self).fullscreen == old(self).fullscreen,
            final(self).width == old(self).width,
            final(self).height == old(self).height,
    {
        self.title = title.to_string();
    }

    pub fn set_size(&mut self, width: u32, height: u32)
        ensures
            final(self).width == width,
            final(self).height == height,
            final(self).title == old(self).title,
            final(self).fullscreen == old(self).fullscreen,
    {
        self.width = width;
        self.height = height;
    }
}

} // verus!

use vstd::prelude::*;

pub mod audio;
pub mod cache;
pub mod clock;
pub mod color;
pub mod fonts;
pub mod frame_loop;
pub mod graphics;
pub mod keyboard;
pub mod mouse;
pub mod requests;
pub mod window;

verus! {

} // verus!

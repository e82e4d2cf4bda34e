use vstd::prelude::*;
use crate::color::Color;

verus! {

/// Width of the display, in pixels.
pub const TV_WIDTH: u32 = 256;

/// Height of the display, in pixels.
pub const TV_HEIGHT: u32 = 240;

/// Pixels of one image: `TV_WIDTH` times `TV_HEIGHT`.
pub const TV_PIXELS: usize = 61_440;

/// Mathematical model of the shared frame state.
pub struct Frame {
    /// The image, row by row from the top, each row from the left.
    pub image: Seq<Color>,
    /// The buttons of the controller, one bit each.
    pub controller: u8,
}

impl Frame {
    /// The place of the pixel in column `x` of row `y` within the image.
    pub open spec fn offset(x: u32, y: u32) -> int {
        y * TV_WIDTH + x
    }

    /// Whether column `x` of row `y` lies on the display.
    pub open spec fn on_screen(x: u32, y: u32) -> bool {
        x < TV_WIDTH && y < TV_HEIGHT
    }

    /// A blank screen with no button held.
    pub open spec fn blank() -> Frame {
        Frame { image: Seq::new(TV_PIXELS as nat, |i: int| Color::black()), controller: 0 }
    }
}

/// What the emulation and the presentation share: the image that the picture
/// unit renders and the presentation shows, and the controller state that the
/// presentation captures and the emulation reads. Each operation is one
/// complete copy, to be made under a lock that is held for that operation
/// alone, so that neither side ever sees half of a frame.
pub struct SharedFrameState {
    image: [Color; 61_440],
    controller: u8,
}

impl View for SharedFrameState {
    type V = Frame;

    closed spec fn view(&self) -> Frame {
        Frame { image: self.image@, controller: self.controller }
    }
}

impl SharedFrameState {
    /// Allocates the frame state: a blank screen and no button held.
    pub fn new() -> (state: SharedFrameState)
        ensures
            state@ == Frame::blank(),
    {
        let image = [Color { r: 0, g: 0, b: 0 }; 61_440];
        assert(image@ =~= Frame::blank().image);
        SharedFrameState { image, controller: 0 }
    }

    /// Stores `color` at column `x` of row `y`. Returns whether the place lies
    /// on the display; outside of it nothing changes.
    pub fn set_pixel(&mut self, x: u32, y: u32, color: Color) -> (stored: bool)
        ensures
            final(self)@.image.len() == TV_PIXELS,
            stored == Frame::on_screen(x, y),
            stored ==> final(self)@ == (Frame {
                image: old(self)@.image.update(Frame::offset(x, y), color),
                ..old(self)@
            }),
            !stored ==> final(self)@ == old(self)@,
    {
        if x < TV_WIDTH && y < TV_HEIGHT {
            let at: usize = (y * TV_WIDTH + x) as usize;
            self.image[at] = color;
            true
        } else {
            false
        }
    }

    /// The colour at column `x` of row `y`, or `None` outside of the display.
    pub fn pixel(&self, x: u32, y: u32) -> (color: Option<Color>)
        ensures
            self@.image.len() == TV_PIXELS,
            color == if Frame::on_screen(x, y) {
                Some(self@.image[Frame::offset(x, y)])
            } else {
                None
            },
    {
        if x < TV_WIDTH && y < TV_HEIGHT {
            let at: usize = (y * TV_WIDTH + x) as usize;
            Some(self.image[at])
        } else {
            None
        }
    }

    /// Replaces the whole image by `image`. Returns whether `image` has the
    /// size of the display; one of another size is refused and nothing changes.
    pub fn write_image(&mut self, image: &Vec<Color>) -> (stored: bool)
        ensures
            final(self)@.image.len() == TV_PIXELS,
            stored == (image@.len() == TV_PIXELS),
            stored ==> final(self)@ == (Frame { image: image@, ..old(self)@ }),
            !stored ==> final(self)@ == old(self)@,
    {
        if image.len() != TV_PIXELS {
            return false;
        }
        let mut i: usize = 0;
        while i < TV_PIXELS
            invariant
                i <= TV_PIXELS,
                image@.len() == TV_PIXELS,
                self.image@.len() == TV_PIXELS,
                self.controller == old(self).controller,
                forall|j: int| 0 <= j < i ==> self.image@[j] == image@[j],
            decreases TV_PIXELS - i,
        {
            self.image[i] = image[i];
            i = i + 1;
        }
        assert(self.image@ =~= image@);
        true
    }

    /// A copy of the whole image.
    pub fn read_image(&self) -> (image: Vec<Color>)
        ensures
            image@ == self@.image,
            image@.len() == TV_PIXELS,
    {
        let mut image: Vec<Color> = Vec::with_capacity(TV_PIXELS);
        let mut i: usize = 0;
        while i < TV_PIXELS
            invariant
                i <= TV_PIXELS,
                self.image@.len() == TV_PIXELS,
                image@ == self.image@.take(i as int),
            decreases TV_PIXELS - i,
        {
            image.push(self.image[i]);
            assert(self.image@.take(i + 1) =~= self.image@.take(i as int).push(self.image@[i as int]));
            i = i + 1;
        }
        assert(self.image@.take(TV_PIXELS as int) =~= self.image@);
        image
    }

    /// Stores the controller state that the presentation captured.
    pub fn set_controller(&mut self, buttons: u8)
        ensures
            final(self)@ == (Frame { controller: buttons, ..old(self)@ }),
    {
        self.controller = buttons;
    }

    /// The controller state captured last.
    pub fn controller(&self) -> (buttons: u8)
        ensures
            buttons == self@.controller,
    {
        self.controller
    }
}

} // verus!

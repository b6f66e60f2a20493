use vstd::prelude::*;

verus! {

/// The pointer (mouse or single touch) as the game reads it each frame:
/// where it is on the screen, whether it is held down, and whether it went
/// down since the last frame.
#[derive(Clone, Copy, Debug, PartialEq, Eq)]
pub struct PointerState {
    pub pixel_pos: Option<(u32, u32)>,
    pub pressing: bool,
    pub clicked: bool,
}

impl PointerState {
    /// No position known, nothing pressed.
    pub fn new() -> (p: PointerState)
        ensures
            p.pixel_pos is None,
            !p.pressing,
            !p.clicked,
    {
        PointerState { pixel_pos: None, pressing: false, clicked: false }
    }

    /// The pointer moved to `pixel_pos`.
    pub fn update_pos(&mut self, pixel_pos: (u32, u32))
        ensures
            *final(self) == (PointerState { pixel_pos: Some(pixel_pos), ..*old(self) }),
    {
        self.pixel_pos = Some(pixel_pos);
    }

    /// The pointer went down: it is held, and a click happened.
    pub fn mousedown(&mut self)
        ensures
            *final(self) == (PointerState { pressing: true, clicked: true, ..*old(self) }),
    {
        self.pressing = true;
        self.clicked = true;
    }

    /// The pointer went up.
    pub fn mouseup(&mut self)
        ensures
            *final(self) == (PointerState { pressing: false, ..*old(self) }),
    {
        self.pressing = false;
    }

    /// A frame was drawn: a click is reported for one frame only.
    pub fn frame(&mut self)
        ensures
            *final(self) == (PointerState { clicked: false, ..*old(self) }),
    {
        self.clicked = false;
    }
}

impl Default for PointerState {
    fn default() -> (p: PointerState)
        ensures
            p.pixel_pos is None,
            !p.pressing,
            !p.clicked,
    {
        PointerState::new()
    }
}

/// The screen point of a mouse event at client coordinates (`x`, `y`):
/// coordinates left of or above the page are taken as zero.
pub fn point_from_mouse(x: i32, y: i32) -> (point: (u32, u32))
    ensures
        point.0 == (if x < 0 { 0 } else { x as int }),
        point.1 == (if y < 0 { 0 } else { y as int }),
{
    let px: i32 = if x < 0 { 0 } else { x };
    let py: i32 = if y < 0 { 0 } else { y };
    (px as u32, py as u32)
}

/// The screen point of a touch event with `touches` fingers down, the first
/// at client coordinates (`x`, `y`): only a single finger steers; its
/// coordinates are taken bit for bit as unsigned values.
pub fn point_from_touch(touches: u32, x: i32, y: i32) -> (point: Option<(u32, u32)>)
    ensures
        touches != 1 ==> point is None,
        touches == 1 ==> point == Some((x as u32, y as u32)),
{
    if touches != 1 {
        return None;
    }
    Some((x as u32, y as u32))
}

} // verus!

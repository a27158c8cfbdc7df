use crate::animation::AnimationDirection;
use vstd::prelude::*;

verus! {

/// A tag as a sprite-sheet file declares it; `direction` is `None` for a direction
/// code that the file format does not define.
#[derive(Clone, Debug)]
pub struct RawTag {
    pub name: String,
    pub start: u16,
    pub end: u16,
    pub direction: Option<AnimationDirection>,
    pub repeat: Option<u16>,
}

pub struct RawTagView {
    pub name: Seq<char>,
    pub start: u16,
    pub end: u16,
    pub direction: Option<AnimationDirection>,
    pub repeat: Option<u16>,
}

impl View for RawTag {
    type V = RawTagView;

    open spec fn view(&self) -> RawTagView {
        RawTagView {
            name: self.name@,
            start: self.start,
            end: self.end,
            direction: self.direction,
            repeat: self.repeat,
        }
    }
}

/// What playback needs of a sprite-sheet file: the duration of each frame in
/// milliseconds and the tags, in file order.
#[derive(Clone, Debug)]
pub struct SheetData {
    pub durations: Vec<u16>,
    pub tags: Vec<RawTag>,
}

pub struct SheetView {
    pub durations: Seq<u16>,
    pub tags: Seq<RawTagView>,
}

impl View for SheetData {
    type V = SheetView;

    open spec fn view(&self) -> SheetView {
        SheetView {
            durations: self.durations@,
            tags: self.tags@.map_values(|t: RawTag| t@),
        }
    }
}

} // verus!

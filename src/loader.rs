use crate::animation::AnimationDirection;
use crate::error::AsepriteError;
use crate::sheet::{RawTagView, SheetData, SheetView};
use vstd::prelude::*;

verus! {

/// An inclusive range of frame indices.
#[derive(Clone, Copy, Debug, PartialEq, Eq, Structural)]
pub struct FrameRange {
    pub start: u16,
    pub end: u16,
}

impl FrameRange {
    pub open spec fn wf(self) -> bool {
        self.start <= self.end
    }

    pub open spec fn holds(self, frame: u16) -> bool {
        self.start <= frame && frame <= self.end
    }

    /// Number of frames in the range.
    pub open spec fn count(self) -> int {
        self.end - self.start + 1
    }

    pub fn contains(&self, frame: u16) -> (r: bool)
        ensures
            r == self.holds(frame),
    {
        self.start <= frame && frame <= self.end
    }
}

/// What a sheet declares for one tag.
#[derive(Clone, Copy, Debug, PartialEq, Eq, Structural)]
pub struct TagMeta {
    pub direction: AnimationDirection,
    pub range: FrameRange,
    /// Repeat hint of the tag; zero stands for looping forever.
    pub repeat: u16,
}

/// The frame table of a sprite sheet: per-frame durations, named ranges and the
/// atlas entry of each frame.
#[derive(Clone, Debug)]
pub struct Aseprite {
    /// Tags in the order of the sheet; a later tag shadows an earlier one of the same name.
    pub tags: Vec<(String, TagMeta)>,
    /// Duration of each frame in nanoseconds.
    pub frame_durations: Vec<u64>,
    /// Atlas entry of each frame.
    pub frame_indicies: Vec<usize>,
}

/// The tag that `name` selects: the last one of that name.
pub open spec fn find_tag(tags: Seq<(Seq<char>, TagMeta)>, name: Seq<char>) -> Option<TagMeta>
    decreases tags.len(),
{
    if tags.len() == 0 {
        None
    } else if tags.last().0 == name {
        Some(tags.last().1)
    } else {
        find_tag(tags.drop_last(), name)
    }
}

/// Nanoseconds in a millisecond.
pub const NANOS_PER_MILLI: u64 = 1_000_000;

/// A tag of a file is usable when its direction is known and its range is ordered.
pub open spec fn raw_tag_ok(t: RawTagView) -> bool {
    t.direction is Some && t.start <= t.end
}

/// The frame-table entry of a usable tag; a missing repeat hint becomes zero.
pub open spec fn tag_entry(t: RawTagView) -> (Seq<char>, TagMeta) {
    (
        t.name,
        TagMeta {
            direction: t.direction.unwrap(),
            range: FrameRange { start: t.start, end: t.end },
            repeat: match t.repeat {
                Some(r) => r,
                None => 0,
            },
        },
    )
}

/// A frame duration of a file in nanoseconds.
pub open spec fn duration_nanos(ms: u16) -> u64 {
    (ms * NANOS_PER_MILLI) as u64
}

/// The first unusable tag is at `i`.
pub open spec fn first_bad_tag(tags: Seq<RawTagView>, i: int) -> bool {
    &&& 0 <= i < tags.len()
    &&& !raw_tag_ok(tags[i])
    &&& forall|j: int| 0 <= j < i ==> raw_tag_ok(#[trigger] tags[j])
}

/// A sheet can be played when its frames fit `u16` indices and its tags are usable.
pub open spec fn sheet_ok(sheet: SheetView) -> bool {
    &&& sheet.durations.len() <= u16::MAX
    &&& forall|i: int| 0 <= i < sheet.tags.len() ==> raw_tag_ok(#[trigger] sheet.tags[i])
}

impl Aseprite {
    /// Frame indices fit in `u16` and every tag range is ordered.
    pub open spec fn wf(&self) -> bool {
        &&& self.frame_durations@.len() <= u16::MAX
        &&& forall|i: int| 0 <= i < self.tags@.len() ==> (#[trigger] self.tags@[i]).1.range.wf()
    }

    pub open spec fn tags_view(&self) -> Seq<(Seq<char>, TagMeta)> {
        self.tags@.map_values(|t: (String, TagMeta)| (t.0@, t.1))
    }

    /// The range of every frame of the sheet; a sheet without frames gives `[0, 0]`.
    pub open spec fn full_range(&self) -> FrameRange {
        FrameRange {
            start: 0,
            end: if self.frame_durations@.len() == 0 {
                0
            } else {
                (self.frame_durations@.len() - 1) as u16
            },
        }
    }

    /// Builds a frame table from its parts; `None` when the table has more frames
    /// than a `u16` index reaches or a tag whose range ends before it starts.
    pub fn new(
        tags: Vec<(String, TagMeta)>,
        frame_durations: Vec<u64>,
        frame_indicies: Vec<usize>,
    ) -> (r: Option<Aseprite>)
        ensures
            r is Some <==> frame_durations@.len() <= u16::MAX && forall|i: int|
                0 <= i < tags@.len() ==> (#[trigger] tags@[i]).1.range.wf(),
            r matches Some(a) ==> {
                &&& a.wf()
                &&& a.tags@ == tags@
                &&& a.frame_durations@ == frame_durations@
                &&& a.frame_indicies@ == frame_indicies@
            },
    {
        if frame_durations.len() > u16::MAX as usize {
            return None;
        }
        let mut i: usize = 0;
        while i < tags.len()
            invariant
                i <= tags@.len(),
                forall|j: int| 0 <= j < i ==> (#[trigger] tags@[j]).1.range.wf(),
            decreases tags@.len() - i,
        {
            if tags[i].1.range.start > tags[i].1.range.end {
                return None;
            }
            i = i + 1;
        }
        Some(Aseprite { tags, frame_durations, frame_indicies })
    }

    /// Builds the frame table of a parsed sheet, with the atlas entry of each frame.
    pub fn from_sheet(data: &SheetData, frame_indicies: Vec<usize>) -> (r: Result<
        Aseprite,
        AsepriteError,
    >)
        ensures
            r is Ok <==> sheet_ok(data@),
            r matches Ok(a) ==> {
                &&& a.wf()
                &&& a.frame_durations@ == data@.durations.map_values(|ms: u16| duration_nanos(ms))
                &&& a.tags_view() == data@.tags.map_values(|t: RawTagView| tag_entry(t))
                &&& a.frame_indicies@ == frame_indicies@
            },
            r matches Err(e) ==> match e {
                AsepriteError::TooManyFrames => data@.durations.len() > u16::MAX,
                AsepriteError::UnknownDirection(name) => data@.durations.len() <= u16::MAX
                    && exists|i: int|
                    first_bad_tag(data@.tags, i) && data@.tags[i].direction is None && name@
                        == data@.tags[i].name,
                AsepriteError::InvalidRange(name) => data@.durations.len() <= u16::MAX && exists|
                    i: int,
                |
                    first_bad_tag(data@.tags, i) && data@.tags[i].direction is Some && name@
                        == data@.tags[i].name,
                _ => false,
            },
    {
        if data.durations.len() > u16::MAX as usize {
            return Err(AsepriteError::TooManyFrames);
        }
        let mut frame_durations: Vec<u64> = Vec::new();
        let mut k: usize = 0;
        while k < data.durations.len()
            invariant
                k <= data.durations@.len(),
                data@.durations.len() <= u16::MAX,
                frame_durations@ == data@.durations.take(k as int).map_values(
                    |ms: u16| duration_nanos(ms),
                ),
            decreases data.durations@.len() - k,
        {
            frame_durations.push(data.durations[k] as u64 * NANOS_PER_MILLI);
            k = k + 1;
            assert(data@.durations.take(k as int) =~= data@.durations.take(k - 1).push(
                data@.durations[k - 1],
            ));
            assert(frame_durations@ =~= data@.durations.take(k as int).map_values(
                |ms: u16| duration_nanos(ms),
            ));
        }
        assert(data@.durations.take(k as int) =~= data@.durations);
        let mut tags: Vec<(String, TagMeta)> = Vec::new();
        let mut i: usize = 0;
        while i < data.tags.len()
            invariant
                i <= data.tags@.len(),
                data@.durations.len() <= u16::MAX,
                forall|j: int| 0 <= j < i ==> raw_tag_ok(#[trigger] data@.tags[j]),
                tags@.map_values(|t: (String, TagMeta)| (t.0@, t.1)) == data@.tags.take(
                    i as int,
                ).map_values(|t: RawTagView| tag_entry(t)),
            decreases data.tags@.len() - i,
        {
            let t = &data.tags[i];
            assert(data@.tags[i as int] == t@);
            let direction = match t.direction {
                Some(d) => d,
                None => {
                    assert(first_bad_tag(data@.tags, i as int));
                    return Err(AsepriteError::UnknownDirection(t.name.clone()));
                },
            };
            if t.start > t.end {
                assert(first_bad_tag(data@.tags, i as int));
                return Err(AsepriteError::InvalidRange(t.name.clone()));
            }
            let repeat = match t.repeat {
                Some(r) => r,
                None => 0,
            };
            let meta = TagMeta { direction, range: FrameRange { start: t.start, end: t.end }, repeat };
            let ghost before = tags@;
            let name = t.name.clone();
            assert((name@, meta) == tag_entry(data@.tags[i as int]));
            tags.push((name, meta));
            assert(tags@ == before.push((name, meta)));
            i = i + 1;
            assert(data@.tags.take(i as int) =~= data@.tags.take(i - 1).push(data@.tags[i - 1]));
            assert(tags@.map_values(|t: (String, TagMeta)| (t.0@, t.1)) =~= before.map_values(
                |t: (String, TagMeta)| (t.0@, t.1),
            ).push(tag_entry(data@.tags[i - 1])));
            assert(tags@.map_values(|t: (String, TagMeta)| (t.0@, t.1)) =~= data@.tags.take(
                i as int,
            ).map_values(|t: RawTagView| tag_entry(t)));
        }
        assert(data@.tags.take(i as int) =~= data@.tags);
        let a = Aseprite { tags, frame_durations, frame_indicies };
        proof {
            assert forall|j: int| 0 <= j < a.tags@.len() implies (#[trigger] a.tags@[j]).1.range.wf() by {
                assert(a.tags_view()[j] == tag_entry(data@.tags[j]));
                assert(raw_tag_ok(data@.tags[j]));
            }
        }
        Ok(a)
    }

    pub fn frame_count(&self) -> (r: u16)
        requires
            self.wf(),
        ensures
            r == self.frame_durations@.len(),
    {
        self.frame_durations.len() as u16
    }

    /// Duration in nanoseconds of a frame, if the sheet has that frame.
    pub fn frame_duration(&self, frame: u16) -> (r: Option<u64>)
        ensures
            r == (if (frame as int) < self.frame_durations@.len() {
                Some(self.frame_durations@[frame as int])
            } else {
                None::<u64>
            }),
    {
        if (frame as usize) < self.frame_durations.len() {
            Some(self.frame_durations[frame as usize])
        } else {
            None
        }
    }

    /// Looks up a tag by name.
    pub fn resolve_tag(&self, name: &str) -> (r: Option<TagMeta>)
        ensures
            r == find_tag(self.tags_view(), name@),
    {
        let wanted = name.to_owned();
        let mut i: usize = self.tags.len();
        assert(self.tags_view().take(i as int) =~= self.tags_view());
        while i > 0
            invariant
                i <= self.tags@.len(),
                wanted@ == name@,
                find_tag(self.tags_view().take(i as int), name@) == find_tag(
                    self.tags_view(),
                    name@,
                ),
            decreases i,
        {
            let ghost prefix = self.tags_view().take(i as int);
            assert(prefix.drop_last() =~= self.tags_view().take(i - 1));
            assert(prefix.last() == (self.tags@[i - 1].0@, self.tags@[i - 1].1));
            assert(find_tag(prefix, name@) == if prefix.last().0 == name@ {
                Some(prefix.last().1)
            } else {
                find_tag(prefix.drop_last(), name@)
            });
            assert(prefix.len() == i);
            let same = self.tags[i - 1].0.eq(&wanted);
            assert(same == (prefix.last().0 == name@));
            if same {
                assert(find_tag(prefix, name@) == Some(self.tags@[i - 1].1));
                return Some(self.tags[i - 1].1);
            }
            i = i - 1;
        }
        None
    }

    /// The atlas entry of a frame; a frame past the table gives the last entry, or
    /// zero when there is none.
    pub fn get_atlas_index(&self, frame: usize) -> (r: usize)
        ensures
            (frame as int) < self.frame_indicies@.len() ==> r == self.frame_indicies@[frame as int],
            (frame as int) >= self.frame_indicies@.len() && self.frame_indicies@.len() > 0 ==> r
                == self.frame_indicies@.last(),
            self.frame_indicies@.len() == 0 ==> r == 0,
    {
        if self.frame_indicies.len() <= frame {
            if self.frame_indicies.len() == 0 {
                return 0;
            }
            return self.frame_indicies[self.frame_indicies.len() - 1];
        }
        self.frame_indicies[frame]
    }
}

} // verus!

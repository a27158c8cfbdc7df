use std::collections::VecDeque;
use vstd::prelude::*;

verus! {

/// The sweep direction of a ping-pong animation.
#[derive(Clone, Copy, Debug, PartialEq, Eq, Structural)]
pub enum PlayDirection {
    Forward,
    Backward,
}

impl Default for PlayDirection {
    fn default() -> (r: PlayDirection)
        ensures
            r == PlayDirection::Forward,
    {
        PlayDirection::Forward
    }
}

/// How the frames of a range are walked.
#[derive(Clone, Copy, Debug, PartialEq, Eq, Structural)]
pub enum AnimationDirection {
    Forward,
    Reverse,
    PingPong,
    PingPongReverse,
}

impl Default for AnimationDirection {
    fn default() -> (r: AnimationDirection)
        ensures
            r == AnimationDirection::Forward,
    {
        AnimationDirection::Forward
    }
}

/// Whether an animation loops forever or plays a fixed number of extra times.
/// `Count(0)` means that the animation finishes at the end of the current cycle.
#[derive(Clone, Copy, Debug, PartialEq, Eq, Structural)]
pub enum AnimationRepeat {
    Loop,
    Count(u32),
}

impl Default for AnimationRepeat {
    fn default() -> (r: AnimationRepeat)
        ensures
            r == AnimationRepeat::Loop,
    {
        AnimationRepeat::Loop
    }
}

/// A repeat hint of a tag: zero stands for looping forever.
pub open spec fn repeat_from_hint(value: u16) -> AnimationRepeat {
    if value == 0 {
        AnimationRepeat::Loop
    } else {
        AnimationRepeat::Count(value as u32)
    }
}

impl From<u16> for AnimationRepeat {
    fn from(value: u16) -> (r: AnimationRepeat) {
        if value == 0 {
            AnimationRepeat::Loop
        } else {
            AnimationRepeat::Count(value as u32)
        }
    }
}

impl vstd::std_specs::convert::FromSpecImpl<u16> for AnimationRepeat {
    open spec fn obeys_from_spec() -> bool {
        true
    }

    open spec fn from_spec(v: u16) -> AnimationRepeat {
        repeat_from_hint(v)
    }
}

/// A playback speed as the ratio `numer / denom` of animation time to real time.
#[derive(Clone, Copy, Debug, PartialEq, Eq, Structural)]
pub struct Speed {
    pub numer: u32,
    pub denom: u32,
}

impl Speed {
    /// A speed is usable when it is positive and its denominator is not zero.
    pub open spec fn wf(self) -> bool {
        self.numer > 0 && self.denom > 0
    }

    /// Real time played at normal speed.
    pub fn normal() -> (r: Speed)
        ensures
            r.numer == 1 && r.denom == 1,
    {
        Speed { numer: 1, denom: 1 }
    }
}

/// The declarative intent of one playing animation instance.
#[derive(Clone, Debug)]
pub struct Animation {
    /// The named range that is played; `None` plays every frame of the sheet.
    pub tag: Option<String>,
    pub speed: Speed,
    pub playing: bool,
    pub repeat: AnimationRepeat,
    /// Overrides the direction that the tag declares.
    pub direction: Option<AnimationDirection>,
    /// Animations that follow, in order, once the current one finishes.
    pub queue: VecDeque<(String, AnimationRepeat)>,
    pub hold_relative_frame: bool,
    pub relative_group: u16,
    pub new_relative_group: u16,
}

/// The tag of an animation as a sequence of characters.
pub open spec fn tag_view(tag: Option<String>) -> Option<Seq<char>> {
    match tag {
        Some(t) => Some(t@),
        None => None,
    }
}

/// An animation as plain values: tags and queued tags as character sequences.
#[verifier::ext_equal]
pub struct AnimationView {
    pub tag: Option<Seq<char>>,
    pub speed: Speed,
    pub playing: bool,
    pub repeat: AnimationRepeat,
    pub direction: Option<AnimationDirection>,
    pub queue: Seq<(Seq<char>, AnimationRepeat)>,
    pub hold_relative_frame: bool,
    pub relative_group: u16,
    pub new_relative_group: u16,
}

impl View for Animation {
    type V = AnimationView;

    open spec fn view(&self) -> AnimationView {
        AnimationView {
            tag: tag_view(self.tag),
            speed: self.speed,
            playing: self.playing,
            repeat: self.repeat,
            direction: self.direction,
            queue: self.queue@.map_values(|e: (String, AnimationRepeat)| (e.0@, e.1)),
            hold_relative_frame: self.hold_relative_frame,
            relative_group: self.relative_group,
            new_relative_group: self.new_relative_group,
        }
    }
}

impl Default for Animation {
    /// An animation over the whole sheet at normal speed, looping and not yet playing.
    fn default() -> (r: Animation)
        ensures
            r.tag.is_none(),
            r.speed == (Speed { numer: 1, denom: 1 }),
            !r.playing,
            r.repeat == AnimationRepeat::Loop,
            r.direction.is_none(),
            r.queue@.len() == 0,
            !r.hold_relative_frame,
            r.relative_group == 0,
            r.new_relative_group == 0,
    {
        Animation {
            tag: None,
            speed: Speed::normal(),
            playing: false,
            repeat: AnimationRepeat::Loop,
            direction: None,
            queue: VecDeque::new(),
            hold_relative_frame: false,
            relative_group: 0,
            new_relative_group: 0,
        }
    }
}

impl<'a> From<&'a str> for Animation {
    /// The default animation with the given tag; the same as `Animation::tag`.
    fn from(tag: &'a str) -> (r: Animation)
        ensures
            r@ == tagged_view(tag@),
    {
        let r = Animation::tag(tag);
        assert(r@.queue =~= Seq::<(Seq<char>, AnimationRepeat)>::empty());
        r
    }
}

/// The animation that `Animation::from(tag)` builds, as plain values.
pub open spec fn tagged_view(tag: Seq<char>) -> AnimationView {
    AnimationView {
        tag: Some(tag),
        speed: Speed { numer: 1, denom: 1 },
        playing: false,
        repeat: AnimationRepeat::Loop,
        direction: None,
        queue: Seq::empty(),
        hold_relative_frame: false,
        relative_group: 0,
        new_relative_group: 0,
    }
}

impl<'a> vstd::std_specs::convert::FromSpecImpl<&'a str> for Animation {
    /// Spec code cannot build a `String`, so the result of `from` is pinned down by
    /// its view, in the `ensures` of `from`, and not by value here.
    open spec fn obeys_from_spec() -> bool {
        false
    }

    open spec fn from_spec(v: &'a str) -> Animation {
        choose|a: Animation| a@ == tagged_view(v@)
    }
}

impl Animation {
    /// The speed is usable.
    pub open spec fn wf(&self) -> bool {
        self.speed.wf()
    }

    /// The default animation with the given tag.
    pub fn tag(tag: &str) -> (r: Animation)
        ensures
            tag_view(r.tag) == Some(tag@),
            r.speed == (Speed { numer: 1, denom: 1 }),
            !r.playing,
            r.repeat == AnimationRepeat::Loop,
            r.direction.is_none(),
            r.queue@.len() == 0,
            !r.hold_relative_frame,
            r.relative_group == 0,
            r.new_relative_group == 0,
    {
        Self::default().with_tag(tag.to_owned())
    }

    /// Sets the speed multiplier as a ratio; the default is one to one.
    pub fn with_speed(self, numer: u32, denom: u32) -> (r: Animation)
        requires
            numer > 0,
            denom > 0,
        ensures
            r == (Animation { speed: Speed { numer, denom }, ..self }),
    {
        let mut s = self;
        s.speed = Speed { numer, denom };
        s
    }

    /// Whether the relative frame is kept when the tag changes; the default is not.
    pub fn with_relative_frame_hold(self, hold_relative_frame: bool) -> (r: Animation)
        ensures
            r == (Animation { hold_relative_frame, ..self }),
    {
        let mut s = self;
        s.hold_relative_frame = hold_relative_frame;
        s
    }

    /// Sets the tag.
    pub fn with_tag(self, tag: String) -> (r: Animation)
        ensures
            r == (Animation { tag: Some(tag), ..self }),
    {
        let mut s = self;
        s.tag = Some(tag);
        s
    }

    /// Sets the repeat policy; the default is to loop.
    pub fn with_repeat(self, repeat: AnimationRepeat) -> (r: Animation)
        ensures
            r == (Animation { repeat, ..self }),
    {
        let mut s = self;
        s.repeat = repeat;
        s
    }

    /// Sets a direction that overrides the one of the tag.
    pub fn with_direction(self, direction: AnimationDirection) -> (r: Animation)
        ensures
            r == (Animation { direction: Some(direction), ..self }),
    {
        let mut s = self;
        s.direction = Some(direction);
        s
    }

    /// Appends an animation to play after the current one is done.
    pub fn with_then(self, tag: String, repeats: AnimationRepeat) -> (r: Animation)
        ensures
            r.queue@ == self.queue@.push((tag, repeats)),
            r == (Animation { queue: r.queue, ..self }),
    {
        let mut s = self;
        s.queue.push_back((tag, repeats));
        s
    }

    /// Starts playing a new animation at once, dropping whatever was queued.
    pub fn play(&mut self, tag: String, repeat: AnimationRepeat)
        ensures
            final(self).playing,
            final(self).tag == Some(tag),
            final(self).repeat == repeat,
            final(self).queue@.len() == 0,
            *final(self) == (Animation {
                playing: true,
                tag: Some(tag),
                repeat,
                queue: final(self).queue,
                ..*old(self)
            }),
    {
        self.playing = true;
        self.tag = Some(tag);
        self.repeat = repeat;
        self.queue.clear();
    }

    /// Starts playing a new animation at once, dropping whatever was queued; the
    /// relative frame is kept only if `new_relative_group` equals the current group.
    pub fn play_with_relative_group(
        &mut self,
        tag: String,
        repeat: AnimationRepeat,
        new_relative_group: u16,
    )
        ensures
            final(self).queue@.len() == 0,
            *final(self) == (Animation {
                playing: true,
                tag: Some(tag),
                repeat,
                new_relative_group,
                queue: final(self).queue,
                ..*old(self)
            }),
    {
        self.playing = true;
        self.tag = Some(tag);
        self.new_relative_group = new_relative_group;
        self.repeat = repeat;
        self.queue.clear();
    }

    /// Starts looping a new animation at once, dropping whatever was queued.
    pub fn play_loop(&mut self, tag: String)
        ensures
            final(self).queue@.len() == 0,
            *final(self) == (Animation {
                playing: true,
                tag: Some(tag),
                repeat: AnimationRepeat::Loop,
                queue: final(self).queue,
                ..*old(self)
            }),
    {
        self.playing = true;
        self.tag = Some(tag);
        self.repeat = AnimationRepeat::Loop;
        self.queue.clear();
    }

    /// Stops the animation at once, dropping whatever was queued.
    pub fn stop(&mut self)
        ensures
            final(self).queue@.len() == 0,
            *final(self) == (Animation {
                playing: false,
                tag: None,
                repeat: AnimationRepeat::Loop,
                queue: final(self).queue,
                ..*old(self)
            }),
    {
        self.playing = false;
        self.tag = None;
        self.repeat = AnimationRepeat::Loop;
        self.queue.clear();
    }

    /// Pauses the animation.
    pub fn pause(&mut self)
        ensures
            *final(self) == (Animation { playing: false, ..*old(self) }),
    {
        self.playing = false;
    }

    /// Resumes the animation that is set.
    pub fn start(&mut self)
        ensures
            *final(self) == (Animation { playing: true, ..*old(self) }),
    {
        self.playing = true;
    }

    /// Appends an animation to play after the current one is done.
    pub fn then(&mut self, tag: String, repeats: AnimationRepeat)
        ensures
            final(self).queue@ == old(self).queue@.push((tag, repeats)),
            *final(self) == (Animation { queue: final(self).queue, ..*old(self) }),
    {
        self.queue.push_back((tag, repeats));
    }

    /// Moves the first queued animation, if any, into the tag and repeat policy.
    pub fn next(&mut self)
        ensures
            old(self)@.queue.len() == 0 ==> final(self)@ == old(self)@,
            old(self)@.queue.len() > 0 ==> final(self)@ == (AnimationView {
                tag: Some(old(self)@.queue[0].0),
                repeat: old(self)@.queue[0].1,
                queue: old(self)@.queue.drop_first(),
                ..old(self)@
            }),
    {
        if let Some((tag, repeat)) = self.queue.pop_front() {
            self.tag = Some(tag);
            self.repeat = repeat;
            assert(self@.queue =~= old(self)@.queue.drop_first());
        } else {
            assert(self@.queue =~= old(self)@.queue);
        }
    }

    /// Drops every queued animation.
    pub fn clear_queue(&mut self)
        ensures
            final(self).queue@.len() == 0,
            *final(self) == (Animation { queue: final(self).queue, ..*old(self) }),
    {
        self.queue.clear();
    }
}

/// The live playback position of one animation instance.
#[derive(Clone, Copy, Debug, PartialEq, Eq, Structural)]
pub struct AnimationState {
    /// Offset of the current frame from the start of the played range.
    pub relative_frame: u16,
    /// Index of the current frame in the sheet.
    pub current_frame: u16,
    /// Nanoseconds accumulated towards the duration of the current frame.
    pub elapsed: u64,
    /// Sweep direction, meaningful for ping-pong playback only.
    pub current_direction: PlayDirection,
}

impl Default for AnimationState {
    fn default() -> (r: AnimationState)
        ensures
            r == (AnimationState {
                relative_frame: 0,
                current_frame: 0,
                elapsed: 0,
                current_direction: PlayDirection::Forward,
            }),
    {
        AnimationState {
            relative_frame: 0,
            current_frame: 0,
            elapsed: 0,
            current_direction: PlayDirection::Forward,
        }
    }
}

impl AnimationState {
    pub fn current_frame(&self) -> (r: u16)
        ensures
            r == self.current_frame,
    {
        self.current_frame
    }

    pub fn relative_frame(&self) -> (r: u16)
        ensures
            r == self.relative_frame,
    {
        self.relative_frame
    }
}

} // verus!

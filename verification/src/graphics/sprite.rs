//! Sprite animation: frames are numbered, and a tag names a range of frames played in a
//! direction (forward, reverse, or back and forth).
use vstd::prelude::*;
use crate::input::last_lookup;
use crate::util::str_eq;

verus! {

/// The index of a tag (a named animation) in a sprite sheet.
#[derive(Clone, Copy, Debug, Default, PartialEq, Eq, Structural, PartialOrd, Ord, Hash)]
pub struct TagId(pub u32);

/// The index of a frame in a sprite sheet.
#[derive(Clone, Copy, Debug, Default, PartialEq, Eq, Structural, PartialOrd, Ord, Hash)]
pub struct FrameId(pub u32);

/// The direction in which a tag's frames are played.
#[derive(Clone, Copy, Debug, PartialEq, Eq, Structural)]
pub enum Direction {
    Forward,
    Reverse,
    Pingpong,
}

/// A named range of frames, `from` to `to` inclusive, played in `direction`.
#[derive(Clone, Debug)]
pub struct Tag {
    pub name: Option<String>,
    pub from: FrameId,
    pub to: FrameId,
    pub direction: Direction,
}

/// The frame after another: either the next one in the tag, or the one the animation wraps
/// around to.
#[derive(Clone, Copy, Debug, PartialEq, Eq, Structural)]
pub enum NextFrame {
    /// Returned if this is just the next frame ID.
    Stepped(FrameId),
    Wrapped(FrameId),
}

/// What happens to a running animation when its current frame's time is up.
#[derive(Clone, Copy, Debug, PartialEq, Eq, Structural)]
pub struct FrameAdvance {
    /// The frame shown next.
    pub frame: FrameId,
    /// Whether the animation is now paused (it reached its end and does not loop).
    pub is_paused: bool,
    /// Whether a back-and-forth animation is now going backward.
    pub is_ponged: bool,
}

impl Tag {
    /// The frame a tag starts on.
    pub open spec fn spec_first_frame(self) -> FrameId {
        match self.direction {
            Direction::Forward | Direction::Pingpong => self.from,
            Direction::Reverse => self.to,
        }
    }

    /// The frame a tag ends on.
    pub open spec fn spec_last_frame(self) -> FrameId {
        match self.direction {
            Direction::Forward | Direction::Pingpong => self.to,
            Direction::Reverse => self.from,
        }
    }

    /// Whether the frame after `current` can be computed without going below 0 or above the
    /// largest frame index.
    pub open spec fn next_frame_in_bounds(self, current: FrameId, is_ponged: bool) -> bool {
        match self.direction {
            Direction::Forward => current != self.to ==> current.0 < u32::MAX,
            Direction::Reverse => current != self.from ==> current.0 > 0,
            Direction::Pingpong => {
                &&& current == self.to ==> self.to.0 > 0
                &&& (current != self.to && current == self.from) ==> self.from.0 < u32::MAX
                &&& (current != self.to && current != self.from) ==> (if is_ponged {
                    current.0 > 0
                } else {
                    current.0 < u32::MAX
                })
            },
        }
    }

    /// The frame after `current`: `Err` with the frame the animation wraps around to when it
    /// would loop, `Ok` with the next frame otherwise. Back and forth, the ends turn around: the
    /// frame after the last one is the one before it, and the frame after the first one is the
    /// one after it; in between, `is_ponged` says whether the animation goes backward.
    pub open spec fn spec_next_frame(self, current: FrameId, is_ponged: bool) -> Result<
        FrameId,
        FrameId,
    > {
        match self.direction {
            Direction::Forward => if current == self.to {
                Err(self.from)
            } else {
                Ok(FrameId((current.0 + 1) as u32))
            },
            Direction::Reverse => if current == self.from {
                Err(self.to)
            } else {
                Ok(FrameId((current.0 - 1) as u32))
            },
            Direction::Pingpong => if current == self.to {
                Err(
                    FrameId(
                        if self.to.0 - 1 >= self.from.0 {
                            (self.to.0 - 1) as u32
                        } else {
                            self.from.0
                        },
                    ),
                )
            } else if current == self.from {
                Err(
                    FrameId(
                        if self.from.0 + 1 <= self.to.0 {
                            (self.from.0 + 1) as u32
                        } else {
                            self.to.0
                        },
                    ),
                )
            } else if is_ponged {
                Ok(FrameId((current.0 - 1) as u32))
            } else {
                Ok(FrameId((current.0 + 1) as u32))
            },
        }
    }

    /// The frame a tag starts on.
    pub fn first_frame(&self) -> (f: FrameId)
        ensures
            f == self.spec_first_frame(),
    {
        match self.direction {
            Direction::Forward | Direction::Pingpong => self.from,
            Direction::Reverse => self.to,
        }
    }

    /// The frame a tag ends on.
    pub fn last_frame(&self) -> (f: FrameId)
        ensures
            f == self.spec_last_frame(),
    {
        match self.direction {
            Direction::Forward | Direction::Pingpong => self.to,
            Direction::Reverse => self.from,
        }
    }

    /// Returns `Err` if this next frame would loop the animation, `Ok` otherwise.
    pub fn next_frame(&self, current: FrameId, is_ponged: bool) -> (next: Result<FrameId, FrameId>)
        requires
            self.next_frame_in_bounds(current, is_ponged),
        ensures
            next == self.spec_next_frame(current, is_ponged),
    {
        match self.direction {
            Direction::Forward => {
                if current == self.to {
                    Err(self.from)
                } else {
                    Ok(FrameId(current.0 + 1))
                }
            },
            Direction::Reverse => {
                if current == self.from {
                    Err(self.to)
                } else {
                    Ok(FrameId(current.0 - 1))
                }
            },
            Direction::Pingpong => {
                if current == self.to {
                    let back = self.to.0 - 1;
                    Err(FrameId(if back >= self.from.0 { back } else { self.from.0 }))
                } else if current == self.from {
                    let ahead = self.from.0 + 1;
                    Err(FrameId(if ahead <= self.to.0 { ahead } else { self.to.0 }))
                } else if is_ponged {
                    Ok(FrameId(current.0 - 1))
                } else {
                    Ok(FrameId(current.0 + 1))
                }
            },
        }
    }

    /// Whether the frame after `current` can be computed without going below 0 or above the
    /// largest frame index.
    pub fn can_advance(&self, current: FrameId, is_ponged: bool) -> (ok: bool)
        ensures
            ok == self.next_frame_in_bounds(current, is_ponged),
    {
        match self.direction {
            Direction::Forward => current == self.to || current.0 < u32::MAX,
            Direction::Reverse => current == self.from || current.0 > 0,
            Direction::Pingpong => {
                if current == self.to {
                    self.to.0 > 0
                } else if current == self.from {
                    self.from.0 < u32::MAX
                } else if is_ponged {
                    current.0 > 0
                } else {
                    current.0 < u32::MAX
                }
            },
        }
    }

    /// What the animation does when the time of frame `current` is up: it moves to the next
    /// frame; when it would loop but should not, it pauses on the tag's last frame instead; when
    /// a back-and-forth animation turns around, it flips direction.
    pub fn advance(&self, current: FrameId, is_ponged: bool, should_loop: bool) -> (adv:
        FrameAdvance)
        requires
            self.next_frame_in_bounds(current, is_ponged),
        ensures
            adv == (match self.spec_next_frame(current, is_ponged) {
                Err(_) if !should_loop => FrameAdvance {
                    frame: self.spec_last_frame(),
                    is_paused: true,
                    is_ponged,
                },
                Ok(f) => FrameAdvance { frame: f, is_paused: false, is_ponged },
                Err(f) => FrameAdvance {
                    frame: f,
                    is_paused: false,
                    is_ponged: if self.direction == Direction::Pingpong {
                        !is_ponged
                    } else {
                        is_ponged
                    },
                },
            }),
    {
        match self.next_frame(current, is_ponged) {
            Err(_) if !should_loop => FrameAdvance {
                frame: self.last_frame(),
                is_paused: true,
                is_ponged,
            },
            Ok(f) => FrameAdvance { frame: f, is_paused: false, is_ponged },
            Err(f) => {
                let flipped = match self.direction {
                    Direction::Pingpong => !is_ponged,
                    _ => is_ponged,
                };
                FrameAdvance { frame: f, is_paused: false, is_ponged: flipped }
            },
        }
    }
}

/// Within a tag whose range is not empty, the frame after a frame of the range is in the range.
pub proof fn lemma_next_frame_stays_in_tag(tag: Tag, current: FrameId, is_ponged: bool)
    requires
        tag.from.0 <= current.0 <= tag.to.0,
    ensures
        tag.next_frame_in_bounds(current, is_ponged) || (tag.direction == Direction::Pingpong
            && current == tag.to && tag.to.0 == 0),
        tag.next_frame_in_bounds(current, is_ponged) ==> match tag.spec_next_frame(
            current,
            is_ponged,
        ) {
            Ok(f) => tag.from.0 <= f.0 <= tag.to.0,
            Err(f) => tag.from.0 <= f.0 <= tag.to.0,
        },
{
}

/// Playing forward or in reverse, the animation loops exactly after its last frame, and it
/// loops back to its first frame.
pub proof fn lemma_loops_after_last_frame(tag: Tag, current: FrameId, is_ponged: bool)
    requires
        tag.direction != Direction::Pingpong,
        tag.next_frame_in_bounds(current, is_ponged),
    ensures
        tag.spec_next_frame(current, is_ponged) is Err <==> current == tag.spec_last_frame(),
        tag.spec_next_frame(current, is_ponged) is Err ==> tag.spec_next_frame(
            current,
            is_ponged,
        ) == Err::<FrameId, FrameId>(tag.spec_first_frame()),
{
}

/// A size in pixels, horizontal (`x`) and vertical (`y`).
#[derive(Clone, Copy, Debug, PartialEq, Eq, Structural)]
pub struct Size2 {
    pub x: u32,
    pub y: u32,
}

/// The source image of a sprite sheet and its size in pixels.
#[derive(Clone, Debug)]
pub struct SpriteSheetSource {
    pub image: Option<String>,
    pub size: Size2,
}

/// Component holding the string name of a spritesheet.
#[derive(Clone, Debug)]
pub struct SpriteName(pub String);

/// Component holding the current frame ID of a sprite.
#[derive(Clone, Copy, Debug, Default, PartialEq, Eq, Structural)]
pub struct SpriteFrame(pub FrameId);

/// The name index of a sprite sheet, read as text: each name with its tag ID.
pub open spec fn name_entries(tag_ids: Seq<(String, TagId)>) -> Seq<(Seq<char>, TagId)> {
    tag_ids.map_values(|e: (String, TagId)| (e.0@, e.1))
}

/// The named tags among `tags`, in order, each name with the ID of its tag (its position).
pub open spec fn named_tags(tags: Seq<Tag>) -> Seq<(Seq<char>, TagId)>
    decreases tags.len(),
{
    if tags.len() == 0 {
        Seq::empty()
    } else {
        let prev = named_tags(tags.drop_last());
        match tags.last().name {
            Some(n) => prev.push((n@, TagId((tags.len() - 1) as u32))),
            None => prev,
        }
    }
}

/// The tag that covers all the frames of a sheet, from the first to the one at `last`.
pub open spec fn whole_sheet_tag(last: u32) -> Tag {
    Tag { name: None, from: FrameId(0), to: FrameId(last), direction: Direction::Forward }
}

/// A sprite sheet: its frames, numbered in order, and its tags (named ranges of frames),
/// numbered in order. The name index gives the ID of a named tag; when two tags share a name,
/// the later one is found. The frame type is what the renderer draws a frame with.
#[derive(Clone, Debug)]
pub struct SpriteSheet<Frame> {
    pub source: Option<SpriteSheetSource>,
    pub tag_ids: Vec<(String, TagId)>,
    pub tags: Vec<Tag>,
    pub frames: Vec<Frame>,
}

impl<Frame> SpriteSheet<Frame> {
    /// Whether the name index holds exactly the named tags, in order.
    pub open spec fn names_consistent(&self) -> bool {
        name_entries(self.tag_ids@) == named_tags(self.tags@)
    }

    /// A sprite sheet with one frame, `first_frame`, and one unnamed tag covering it.
    pub fn new(first_frame: Frame) -> (sheet: Self)
        ensures
            sheet.source is None,
            sheet.frames@ == seq![first_frame],
            sheet.tags@ == seq![whole_sheet_tag(0)],
            sheet.tag_ids@.len() == 0,
            sheet.names_consistent(),
    {
        let sheet = SpriteSheet {
            source: None,
            tag_ids: Vec::new(),
            tags: vec![Tag { name: None, from: FrameId(0), to: FrameId(0), direction: Direction::Forward }],
            frames: vec![first_frame],
        };
        proof {
            let t = sheet.tags@;
            assert(t.drop_last() =~= Seq::<Tag>::empty());
            assert(t.last().name is None);
            assert(named_tags(t) == named_tags(t.drop_last()));
            assert(named_tags(t) =~= Seq::<(Seq<char>, TagId)>::empty());
            assert(name_entries(sheet.tag_ids@) =~= Seq::<(Seq<char>, TagId)>::empty());
        }
        sheet
    }

    /// A sprite sheet with the given frames and tags: first an unnamed tag covering all the
    /// frames, then `frame_tags`; the name index is built from the named tags. There must be at
    /// least one frame.
    pub fn from_parts(source: Option<SpriteSheetSource>, frames: Vec<Frame>, frame_tags: Vec<Tag>) -> (sheet: Self)
        requires
            1 <= frames@.len() <= u32::MAX + 1,
            frame_tags@.len() < u32::MAX,
        ensures
            sheet.source == source,
            sheet.frames@ == frames@,
            sheet.tags@ == seq![whole_sheet_tag((frames@.len() - 1) as u32)] + frame_tags@,
            sheet.names_consistent(),
    {
        let last = (frames.len() - 1) as u32;
        let mut tags = vec![Tag { name: None, from: FrameId(0), to: FrameId(last), direction: Direction::Forward }];
        let mut rest = frame_tags;
        tags.append(&mut rest);
        let mut tag_ids: Vec<(String, TagId)> = Vec::new();
        let mut i: usize = 0;
        assert(tags@.take(0) =~= Seq::<Tag>::empty());
        assert(name_entries(tag_ids@) =~= Seq::<(Seq<char>, TagId)>::empty());
        while i < tags.len()
            invariant
                tags@.len() <= u32::MAX,
                i <= tags@.len(),
                name_entries(tag_ids@) == named_tags(tags@.take(i as int)),
            decreases tags@.len() - i,
        {
            let ghost before = tag_ids@;
            let ghost t = tags@.take(i + 1);
            assert(t.drop_last() =~= tags@.take(i as int));
            match &tags[i].name {
                Some(n) => {
                    tag_ids.push((n.clone(), TagId(i as u32)));
                    assert(name_entries(tag_ids@) =~= name_entries(before).push((n@, TagId(i as u32))));
                },
                None => {},
            }
            i += 1;
        }
        assert(tags@.take(i as int) =~= tags@);
        SpriteSheet { source, tag_ids, tags, frames }
    }

    /// The ID the next inserted frame will get: the number of frames. Take it before inserting
    /// the frames of a new tag, and [`Self::last_frame_id`] after, for the tag's range.
    pub fn next_frame_id(&self) -> (id: FrameId)
        requires
            self.frames@.len() <= u32::MAX,
        ensures
            id.0 == self.frames@.len(),
    {
        FrameId(self.frames.len() as u32)
    }

    /// The ID of the last frame. There must be one.
    pub fn last_frame_id(&self) -> (id: FrameId)
        requires
            1 <= self.frames@.len() <= u32::MAX + 1,
        ensures
            id.0 == self.frames@.len() - 1,
    {
        FrameId((self.frames.len() - 1) as u32)
    }

    /// Inserts a frame and returns its ID: frame IDs are handed out in order, each one after
    /// the one before.
    pub fn insert_frame(&mut self, frame: Frame) -> (id: FrameId)
        requires
            old(self).frames@.len() <= u32::MAX,
        ensures
            id.0 == old(self).frames@.len(),
            final(self).frames@ == old(self).frames@.push(frame),
            final(self).tags@ == old(self).tags@,
            final(self).tag_ids@ == old(self).tag_ids@,
            final(self).source == old(self).source,
    {
        let id = self.frames.len();
        self.frames.push(frame);
        FrameId(id as u32)
    }

    /// Inserts a tag and returns its ID, the number of tags before; a named tag is entered in
    /// the name index under its name.
    pub fn insert_tag(&mut self, tag: Tag) -> (id: TagId)
        requires
            old(self).tags@.len() < u32::MAX,
        ensures
            id.0 == old(self).tags@.len(),
            final(self).tags@ == old(self).tags@.push(tag),
            final(self).tag_ids@ == (match tag.name {
                Some(n) => old(self).tag_ids@.push((n, id)),
                None => old(self).tag_ids@,
            }),
            final(self).frames@ == old(self).frames@,
            final(self).source == old(self).source,
            old(self).names_consistent() ==> final(self).names_consistent(),
    {
        let tag_id = TagId(self.tags.len() as u32);
        let ghost old_ids = self.tag_ids@;
        let ghost tag_name = tag.name;
        match &tag.name {
            Some(name) => {
                self.tag_ids.push((name.clone(), tag_id));
            },
            None => {},
        }
        self.tags.push(tag);
        proof {
            assert(self.tags@.drop_last() =~= old(self).tags@);
            if let Some(n) = tag_name {
                assert(name_entries(self.tag_ids@) =~= name_entries(old_ids).push((n@, tag_id)));
            }
        }
        tag_id
    }

    /// The ID of the tag named `name`: the last one entered under that name, if any.
    pub fn get_tag(&self, name: &str) -> (id: Option<TagId>)
        ensures
            id == last_lookup(name_entries(self.tag_ids@), name@),
    {
        let ghost entries = name_entries(self.tag_ids@);
        let mut n = self.tag_ids.len();
        assert(entries.take(n as int) =~= entries);
        while n > 0
            invariant
                n <= self.tag_ids@.len(),
                entries == name_entries(self.tag_ids@),
                last_lookup(entries, name@) == last_lookup(entries.take(n as int), name@),
            decreases n,
        {
            let ghost prefix = entries.take(n as int);
            assert(prefix.drop_last() =~= entries.take(n - 1));
            if str_eq(self.tag_ids[n - 1].0.as_str(), name) {
                return Some(self.tag_ids[n - 1].1);
            }
            n = n - 1;
        }
        None
    }

    /// The tag with the given ID. There must be one.
    pub fn tag(&self, id: TagId) -> (tag: &Tag)
        requires
            id.0 < self.tags@.len(),
        ensures
            *tag == self.tags@[id.0 as int],
    {
        &self.tags[id.0 as usize]
    }

    /// The frame with the given ID. There must be one.
    pub fn frame(&self, id: FrameId) -> (frame: &Frame)
        requires
            id.0 < self.frames@.len(),
        ensures
            *frame == self.frames@[id.0 as int],
    {
        &self.frames[id.0 as usize]
    }
}

/// A tag entered under a name is the one found under that name, until another tag is entered
/// under it; tags entered under other names leave it found.
pub proof fn lemma_get_tag_after_insert(
    tag_ids: Seq<(String, TagId)>,
    name: String,
    id: TagId,
    other: Seq<char>,
)
    ensures
        last_lookup(name_entries(tag_ids.push((name, id))), name@) == Some(id),
        other != name@ ==> last_lookup(name_entries(tag_ids.push((name, id))), other)
            == last_lookup(name_entries(tag_ids), other),
{
    assert(name_entries(tag_ids.push((name, id))).drop_last() =~= name_entries(tag_ids));
}

/// Frame IDs are handed out in order: the frame inserted gets the ID that the next frame ID was
/// before, and it is then the last frame.
pub proof fn lemma_inserted_frame_is_last<Frame>(frames: Seq<Frame>, frame: Frame)
    ensures
        frames.push(frame).len() - 1 == frames.len(),
        frames.push(frame)[frames.len() as int] == frame,
{
}

/// The frame a step of an animation lands on, whether it moves on or wraps around.
pub open spec fn landing(next: Result<FrameId, FrameId>) -> FrameId {
    match next {
        Ok(f) => f,
        Err(f) => f,
    }
}

/// How far apart two frames are.
pub open spec fn frame_distance(a: FrameId, b: FrameId) -> int {
    if a.0 >= b.0 {
        a.0 - b.0
    } else {
        b.0 - a.0
    }
}

/// A tag plays from its first frame toward its last, which is its other end: playing forward
/// (not turned around), every frame of the tag but the last steps closer to the last frame, and
/// the last frame is where the animation wraps around or turns. So a non-looping animation that
/// reaches the end of its tag pauses on that end.
pub proof fn lemma_tag_plays_toward_last_frame(tag: Tag, current: FrameId)
    requires
        tag.from.0 <= tag.to.0,
        tag.from.0 <= current.0 <= tag.to.0,
    ensures
        tag.spec_last_frame() == (if tag.spec_first_frame() == tag.from {
            tag.to
        } else {
            tag.from
        }),
        current == tag.spec_last_frame() ==> tag.spec_next_frame(current, false) is Err,
        current != tag.spec_last_frame() ==> frame_distance(
            landing(tag.spec_next_frame(current, false)),
            tag.spec_last_frame(),
        ) < frame_distance(current, tag.spec_last_frame()),
{
}

} // verus!

//! The sprite-atlas model: a parsed sheet descriptor, lookup of frames by
//! name or index, and the exact source rectangles sprites are drawn from.
//!
//! A source rectangle is a fraction of the whole sheet; it is kept as an
//! exact rational (pixel numerators over the sheet's pixel size) rather than
//! a quotient, so lookups and scaling lose nothing.

use vstd::prelude::*;

verus! {

/// The display scale applied to every sprite, in milli (600 = six tenths).
pub const SCALE_MILLI: i64 = 600;

/// The logical kinds of atlas the game declares.
#[derive(Clone, Copy, Debug, PartialEq, Eq, Structural)]
pub enum Type {
    Landscape,
    TowersBrown,
    TowersGrey,
    TowersRed,
}

/// One named sub-rectangle of an atlas image, in pixels.
#[derive(Debug)]
pub struct Frame {
    pub name: String,
    pub x: i32,
    pub y: i32,
    pub w: i32,
    pub h: i32,
}

/// A parsed atlas descriptor: the logical kind, the image path, the image's
/// pixel size, and the declared frames.
#[derive(Debug)]
pub struct AtlasInfo {
    /// The name of the atlas.
    pub name: Type,
    /// Path to the atlas image.
    pub path: String,
    /// The size of the atlas, in pixels.
    pub size: (i32, i32),
    /// The frames of the atlas.
    pub frames: Vec<Frame>,
}

/// An exact rational rectangle: each side is a pixel count over a pixel
/// denominator, so `x / den_w` is the left edge as a fraction of the sheet.
#[derive(Clone, Copy, Debug, PartialEq, Eq, Structural)]
pub struct Rect {
    pub x: i32,
    pub y: i32,
    pub w: i32,
    pub h: i32,
    pub den_w: i32,
    pub den_h: i32,
}

/// A drawable sprite: its source rectangle in the atlas, the fixed display
/// scale in milli, and its raw pixel width and height.
#[derive(Clone, Copy, Debug, PartialEq, Eq, Structural)]
pub struct Sprite {
    pub rect: Rect,
    pub scale: i64,
    pub width: i32,
    pub height: i32,
}

/// A reference to a sprite in an atlas.
/// Use `SpriteRef::Name` to reference a sprite by name.
/// Use `SpriteRef::Index` to reference a sprite by index.
#[derive(Debug)]
pub enum SpriteRef {
    Name(String),
    Index(usize),
}

impl Frame {
    /// True when the frame's rectangle is nonnegative and within pixel bounds.
    pub open spec fn wf(self) -> bool {
        0 <= self.x <= 1_000_000 && 0 <= self.y <= 1_000_000 && 0 <= self.w <= 1_000_000
            && 0 <= self.h <= 1_000_000
    }
}

impl AtlasInfo {
    /// True when the pixel size is positive and bounded and every frame is
    /// well formed.
    pub open spec fn wf(self) -> bool {
        1 <= self.size.0 <= 1_000_000 && 1 <= self.size.1 <= 1_000_000
            && forall|i: int| 0 <= i < self.frames@.len() ==> (#[trigger] self.frames@[i]).wf()
    }
}

/// The source rectangle of frame `f` within a sheet of the given pixel size.
pub open spec fn spec_frame_rect(f: Frame, size: (i32, i32)) -> Rect {
    Rect { x: f.x, y: f.y, w: f.w, h: f.h, den_w: size.0, den_h: size.1 }
}

/// The sprite created from frame `f` of a sheet of the given pixel size.
pub open spec fn spec_sprite_of(f: Frame, size: (i32, i32)) -> Sprite {
    Sprite { rect: spec_frame_rect(f, size), scale: SCALE_MILLI as i64, width: f.w, height: f.h }
}

/// The index of the first frame named `name`, or `-1` when no frame is.
pub open spec fn spec_find_by_name(frames: Seq<Frame>, name: Seq<char>) -> int
    decreases frames.len(),
{
    if frames.len() == 0 {
        -1
    } else if frames[0].name@ == name {
        0
    } else {
        let rest = spec_find_by_name(frames.skip(1), name);
        if rest == -1 {
            -1
        } else {
            rest + 1
        }
    }
}

/// What `spec_find_by_name` finds: a found index is the first whose frame
/// carries the name; `-1` means the name is absent.
pub proof fn lemma_find_by_name_characterization(frames: Seq<Frame>, name: Seq<char>)
    ensures
        spec_find_by_name(frames, name) == -1 ==> forall|j: int|
            0 <= j < frames.len() ==> (#[trigger] frames[j]).name@ != name,
        spec_find_by_name(frames, name) != -1 ==> {
            let i = spec_find_by_name(frames, name);
            &&& 0 <= i < frames.len()
            &&& frames[i].name@ == name
            &&& forall|j: int| 0 <= j < i ==> (#[trigger] frames[j]).name@ != name
        },
    decreases frames.len(),
{
    if frames.len() == 0 {
    } else if frames[0].name@ == name {
    } else {
        lemma_find_by_name_characterization(frames.skip(1), name);
        let rest = spec_find_by_name(frames.skip(1), name);
        if rest == -1 {
            assert forall|j: int| 0 <= j < frames.len() implies
                (#[trigger] frames[j]).name@ != name
            by {
                if j > 0 {
                    assert(frames[j] == frames.skip(1)[j - 1]);
                }
            }
        } else {
            assert(frames[rest + 1] == frames.skip(1)[rest]);
            assert forall|j: int| 0 <= j < rest + 1 implies
                (#[trigger] frames[j]).name@ != name
            by {
                if j > 0 {
                    assert(frames[j] == frames.skip(1)[j - 1]);
                }
            }
        }
    }
}

/// A name's first occurrence is exactly what lookup by that name finds.
pub proof fn lemma_find_first_occurrence(frames: Seq<Frame>, i: int)
    requires
        0 <= i < frames.len(),
        forall|j: int| 0 <= j < i ==> (#[trigger] frames[j]).name@ != frames[i].name@,
    ensures
        spec_find_by_name(frames, frames[i].name@) == i,
{
    let name = frames[i].name@;
    lemma_find_by_name_characterization(frames, name);
    let found = spec_find_by_name(frames, name);
    if found == -1 {
        assert(frames[i].name@ != name);
        assert(false);
    } else {
        if found < i {
            assert(frames[found].name@ != name);
            assert(false);
        }
        if found > i {
            assert(frames[i].name@ != name);
            assert(false);
        }
    }
}

/// An atlas: the descriptor of one loaded sheet. The image itself is a
/// presentation-side handle and lives with the renderer.
#[derive(Debug)]
pub struct Atlas {
    pub meta: AtlasInfo,
}

impl Atlas {
    /// Returns a sprite resolved from this atlas, by exact frame name or by
    /// index into the frame list; `None` when the reference resolves to no
    /// declared frame.
    pub fn create_sprite(&self, sprite_ref: &SpriteRef) -> (r: Option<Sprite>)
        ensures
            r == (match sprite_ref {
                SpriteRef::Name(name) => {
                    let i = spec_find_by_name(self.meta.frames@, name@);
                    if i == -1 {
                        None::<Sprite>
                    } else {
                        Some(spec_sprite_of(self.meta.frames@[i], self.meta.size))
                    }
                },
                SpriteRef::Index(idx) => {
                    if idx < self.meta.frames@.len() {
                        Some(spec_sprite_of(self.meta.frames@[*idx as int], self.meta.size))
                    } else {
                        None::<Sprite>
                    }
                },
            }),
    {
        match self.get_frame(sprite_ref) {
            Some(frame) => Some(
                Sprite {
                    rect: Rect {
                        x: frame.x,
                        y: frame.y,
                        w: frame.w,
                        h: frame.h,
                        den_w: self.meta.size.0,
                        den_h: self.meta.size.1,
                    },
                    scale: SCALE_MILLI,
                    width: frame.w,
                    height: frame.h,
                },
            ),
            None => None,
        }
    }

    /// Returns the frame for the given `SpriteRef`: the first frame with the
    /// given name, or the frame at the given index.
    fn get_frame(&self, sprite_ref: &SpriteRef) -> (r: Option<&Frame>)
        ensures
            r == (match sprite_ref {
                SpriteRef::Name(name) => {
                    let i = spec_find_by_name(self.meta.frames@, name@);
                    if i == -1 {
                        None::<&Frame>
                    } else {
                        Some(&self.meta.frames@[i])
                    }
                },
                SpriteRef::Index(idx) => {
                    if idx < self.meta.frames@.len() {
                        Some(&self.meta.frames@[*idx as int])
                    } else {
                        None::<&Frame>
                    }
                },
            }),
    {
        match sprite_ref {
            SpriteRef::Name(name) => {
                let frames = &self.meta.frames;
                let ghost name_view = name@;
                let mut idx: usize = 0;
                while idx < frames.len()
                    invariant
                        idx <= frames@.len(),
                        frames == &self.meta.frames,
                        sprite_ref matches SpriteRef::Name(nm) && nm@ == name_view,
                        name_view == name@,
                        forall|j: int| 0 <= j < idx ==>
                            (#[trigger] frames@[j]).name@ != name_view,
                    decreases frames@.len() - idx,
                {
                    if frames[idx].name == *name {
                        proof {
                            assert(frames@[idx as int].name@ == name_view);
                            lemma_find_first_occurrence(frames@, idx as int);
                            assert(spec_find_by_name(self.meta.frames@, name@) == idx as int);
                        }
                        return Some(&frames[idx]);
                    }
                    idx += 1;
                }
                proof {
                    lemma_find_by_name_characterization(frames@, name_view);
                    if spec_find_by_name(frames@, name_view) != -1 {
                        let i = spec_find_by_name(frames@, name_view);
                        assert(frames@[i].name@ != name_view);
                    }
                }
                None
            },
            SpriteRef::Index(idx) => {
                if *idx < self.meta.frames.len() {
                    Some(&self.meta.frames[*idx])
                } else {
                    None
                }
            },
        }
    }
}

/// Looking a frame up by its name and by its list index yield sprites with
/// identical source rectangles, whenever the name first occurs at that index.
pub proof fn lemma_frame_lookup_round_trip(atlas: Atlas, i: int)
    requires
        0 <= i < atlas.meta.frames@.len(),
        forall|j: int| 0 <= j < i ==>
            (#[trigger] atlas.meta.frames@[j]).name@ != atlas.meta.frames@[i].name@,
    ensures
        ({
            let by_name = spec_sprite_of(
                atlas.meta.frames@[spec_find_by_name(atlas.meta.frames@, atlas.meta.frames@[i].name@)],
                atlas.meta.size,
            );
            let by_index = spec_sprite_of(atlas.meta.frames@[i], atlas.meta.size);
            by_name.rect == by_index.rect
        }),
{
    lemma_find_first_occurrence(atlas.meta.frames@, i);
}

/// The collection of every atlas the game declares, looked up by logical kind.
#[derive(Debug)]
pub struct AtlasData {
    pub atlas: Vec<Atlas>,
}

/// The index of the first atlas of kind `t`, or `-1` when none is.
pub open spec fn spec_find_atlas(seq: Seq<Atlas>, t: Type) -> int
    decreases seq.len(),
{
    if seq.len() == 0 {
        -1
    } else if seq[0].meta.name == t {
        0
    } else {
        let rest = spec_find_atlas(seq.skip(1), t);
        if rest == -1 {
            -1
        } else {
            rest + 1
        }
    }
}

impl AtlasData {
    /// Builds the collection from parsed descriptors, one atlas per entry,
    /// in order.
    pub fn new(infos: Vec<AtlasInfo>) -> (r: AtlasData)
        ensures
            r.atlas@.len() == infos@.len(),
            forall|i: int| 0 <= i < infos@.len() ==>
                (#[trigger] r.atlas@[i]).meta == infos@[i],
    {
        let mut atlas: Vec<Atlas> = Vec::new();
        let mut infos = infos;
        let ghost all = infos@;
        let total: usize = infos.len();
        let mut k: usize = 0;
        while infos.len() > 0
            invariant
                all.len() == total,
                atlas@.len() + infos@.len() == all.len(),
                atlas@.len() == k,
                infos@ == all.skip(k as int),
                forall|i: int| 0 <= i < k ==> (#[trigger] atlas@[i]).meta == all[i],
            decreases infos@.len(),
        {
            let info = infos.remove(0);
            proof {
                assert(all.skip(k as int)[0] == all[k as int]);
                assert(all.skip(k as int).skip(1) =~= all.skip(k as int + 1));
            }
            atlas.push(Atlas { meta: info });
            k += 1;
        }
        AtlasData { atlas }
    }

    /// Returns the atlas of the given logical kind, or `None` when that kind
    /// was never declared.
    pub fn get(&self, atlas_type: Type) -> (r: Option<&Atlas>)
        ensures
            r == ({
                let i = spec_find_atlas(self.atlas@, atlas_type);
                if i == -1 {
                    None::<&Atlas>
                } else {
                    Some(&self.atlas@[i])
                }
            }),
    {
        let mut idx: usize = 0;
        while idx < self.atlas.len()
            invariant
                idx <= self.atlas@.len(),
                forall|j: int| 0 <= j < idx ==>
                    (#[trigger] self.atlas@[j]).meta.name != atlas_type,
            decreases self.atlas@.len() - idx,
        {
            if self.atlas[idx].meta.name == atlas_type {
                proof {
                    lemma_find_atlas_first(self.atlas@, idx as int, atlas_type);
                }
                return Some(&self.atlas[idx]);
            }
            idx += 1;
        }
        proof {
            lemma_find_atlas_characterization(self.atlas@, atlas_type);
            if spec_find_atlas(self.atlas@, atlas_type) != -1 {
                let i = spec_find_atlas(self.atlas@, atlas_type);
                assert(self.atlas@[i].meta.name != atlas_type);
            }
        }
        None
    }
}

/// What `spec_find_atlas` finds: a found index is the first of that kind;
/// `-1` means the kind is absent.
proof fn lemma_find_atlas_characterization(seq: Seq<Atlas>, t: Type)
    ensures
        spec_find_atlas(seq, t) == -1 ==> forall|j: int|
            0 <= j < seq.len() ==> (#[trigger] seq[j]).meta.name != t,
        spec_find_atlas(seq, t) != -1 ==> {
            let i = spec_find_atlas(seq, t);
            &&& 0 <= i < seq.len()
            &&& seq[i].meta.name == t
            &&& forall|j: int| 0 <= j < i ==> (#[trigger] seq[j]).meta.name != t
        },
    decreases seq.len(),
{
    if seq.len() == 0 {
    } else if seq[0].meta.name == t {
    } else {
        lemma_find_atlas_characterization(seq.skip(1), t);
        let rest = spec_find_atlas(seq.skip(1), t);
        if rest == -1 {
            assert forall|j: int| 0 <= j < seq.len() implies (#[trigger] seq[j]).meta.name != t
            by {
                if j > 0 {
                    assert(seq[j] == seq.skip(1)[j - 1]);
                }
            }
        } else {
            assert(seq[rest + 1] == seq.skip(1)[rest]);
            assert forall|j: int| 0 <= j < rest + 1 implies (#[trigger] seq[j]).meta.name != t
            by {
                if j > 0 {
                    assert(seq[j] == seq.skip(1)[j - 1]);
                }
            }
        }
    }
}

/// A kind's first occurrence is exactly what lookup by that kind finds.
proof fn lemma_find_atlas_first(seq: Seq<Atlas>, i: int, t: Type)
    requires
        0 <= i < seq.len(),
        seq[i].meta.name == t,
        forall|j: int| 0 <= j < i ==> (#[trigger] seq[j]).meta.name != t,
    ensures
        spec_find_atlas(seq, t) == i,
{
    lemma_find_atlas_characterization(seq, t);
    let found = spec_find_atlas(seq, t);
    if found == -1 {
        assert(seq[i].meta.name != t);
        assert(false);
    } else {
        if found < i {
            assert(seq[found].meta.name != t);
            assert(false);
        }
        if found > i {
            assert(seq[i].meta.name != t);
            assert(false);
        }
    }
}

impl Sprite {
    /// Creates a new `Sprite` with the fixed display scale.
    pub fn new(rect: Rect, width: i32, height: i32) -> (r: Sprite)
        ensures
            r == (Sprite { rect, width, height, scale: SCALE_MILLI as i64 }),
    {
        Sprite { rect, width, height, scale: SCALE_MILLI }
    }

    /// Returns the bounding box of this sprite: its source rectangle with
    /// the display scale of six tenths applied exactly to the width and the
    /// height alone — the left and top edges keep their fractions
    /// (numerators times five over denominators times five), while the
    /// extents scale by three fifths (numerators times three over the same
    /// denominators).
    pub fn get_bound_box(&self) -> (r: Rect)
        requires
            0 <= self.rect.x <= 1_000_000,
            0 <= self.rect.y <= 1_000_000,
            0 <= self.rect.w <= 1_000_000,
            0 <= self.rect.h <= 1_000_000,
            0 <= self.rect.den_w <= 1_000_000,
            0 <= self.rect.den_h <= 1_000_000,
        ensures
            r == (Rect {
                x: (self.rect.x * 5) as i32,
                y: (self.rect.y * 5) as i32,
                w: (self.rect.w * 3) as i32,
                h: (self.rect.h * 3) as i32,
                den_w: (self.rect.den_w * 5) as i32,
                den_h: (self.rect.den_h * 5) as i32,
            }),
    {
        Rect {
            x: self.rect.x * 5,
            y: self.rect.y * 5,
            w: self.rect.w * 3,
            h: self.rect.h * 3,
            den_w: self.rect.den_w * 5,
            den_h: self.rect.den_h * 5,
        }
    }
}

} // verus!

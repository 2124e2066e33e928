//! The standalone texture-atlas demo's descriptor model: a simpler schema
//! than the game's own, with one pixel rectangle per frame keyed by file
//! name, validated independently of the main game.

use vstd::prelude::*;

verus! {

use crate::atlas::Rect;

/// A plain pixel rectangle within the sheet.
#[derive(Clone, Copy, Debug, PartialEq, Eq, Structural)]
pub struct PixelRect {
    pub x: i32,
    pub y: i32,
    pub w: i32,
    pub h: i32,
}

/// One frame of the demo descriptor: the sprite's file name and its pixel
/// rectangle within the sheet.
#[derive(Debug)]
pub struct DemoFrame {
    pub filename: String,
    pub frame: PixelRect,
}

/// The demo descriptor: the sheet's pixel size and its frames.
#[derive(Debug)]
pub struct DemoAtlas {
    pub width: i32,
    pub height: i32,
    pub frames: Vec<DemoFrame>,
}

/// A sprite resolved from the demo atlas: its source rectangle as an exact
/// fraction of the sheet, and its raw pixel width and height.
#[derive(Clone, Copy, Debug, PartialEq, Eq, Structural)]
pub struct DemoSprite {
    pub rect: Rect,
    pub width: i32,
    pub height: i32,
}

/// The index of the first frame with the given file name, or `-1`.
pub open spec fn spec_find_demo_frame(frames: Seq<DemoFrame>, name: Seq<char>) -> int
    decreases frames.len(),
{
    if frames.len() == 0 {
        -1
    } else if frames[0].filename@ == name {
        0
    } else {
        let rest = spec_find_demo_frame(frames.skip(1), name);
        if rest == -1 {
            -1
        } else {
            rest + 1
        }
    }
}

/// The sprite cut from the sheet for frame `f`: its rectangle over the
/// sheet's size.
pub open spec fn spec_demo_sprite(f: DemoFrame, width: i32, height: i32) -> DemoSprite {
    DemoSprite {
        rect: Rect {
            x: f.frame.x,
            y: f.frame.y,
            w: f.frame.w,
            h: f.frame.h,
            den_w: width,
            den_h: height,
        },
        width: f.frame.w,
        height: f.frame.h,
    }
}

impl DemoAtlas {
    /// Returns the sprite with the given file name: the first frame so
    /// named, as a fraction of the sheet; `None` when the descriptor does
    /// not declare the name.
    pub fn create_sprite(&self, sprite_name: &String) -> (r: Option<DemoSprite>)
        ensures
            r == ({
                let i = spec_find_demo_frame(self.frames@, sprite_name@);
                if i == -1 {
                    None::<DemoSprite>
                } else {
                    Some(spec_demo_sprite(self.frames@[i], self.width, self.height))
                }
            }),
    {
        let ghost name_view = sprite_name@;
        let mut idx: usize = 0;
        while idx < self.frames.len()
            invariant
                idx <= self.frames@.len(),
                name_view == sprite_name@,
                forall|j: int| 0 <= j < idx ==>
                    (#[trigger] self.frames@[j]).filename@ != name_view,
            decreases self.frames@.len() - idx,
        {
            if self.frames[idx].filename == *sprite_name {
                proof {
                    lemma_find_demo_frame_first(self.frames@, idx as int);
                }
                let f = &self.frames[idx];
                return Some(
                    DemoSprite {
                        rect: Rect {
                            x: f.frame.x,
                            y: f.frame.y,
                            w: f.frame.w,
                            h: f.frame.h,
                            den_w: self.width,
                            den_h: self.height,
                        },
                        width: f.frame.w,
                        height: f.frame.h,
                    },
                );
            }
            idx += 1;
        }
        proof {
            lemma_find_demo_frame_characterization(self.frames@, name_view);
            if spec_find_demo_frame(self.frames@, name_view) != -1 {
                let i = spec_find_demo_frame(self.frames@, name_view);
                assert(self.frames@[i].filename@ != name_view);
            }
        }
        None
    }
}

/// What the demo lookup finds: a found index is the first frame with the
/// name; `-1` means the name is absent.
proof fn lemma_find_demo_frame_characterization(frames: Seq<DemoFrame>, name: Seq<char>)
    ensures
        spec_find_demo_frame(frames, name) == -1 ==> forall|j: int|
            0 <= j < frames.len() ==> (#[trigger] frames[j]).filename@ != name,
        spec_find_demo_frame(frames, name) != -1 ==> {
            let i = spec_find_demo_frame(frames, name);
            &&& 0 <= i < frames.len()
            &&& frames[i].filename@ == name
            &&& forall|j: int| 0 <= j < i ==> (#[trigger] frames[j]).filename@ != name
        },
    decreases frames.len(),
{
    if frames.len() == 0 {
    } else if frames[0].filename@ == name {
    } else {
        lemma_find_demo_frame_characterization(frames.skip(1), name);
        let rest = spec_find_demo_frame(frames.skip(1), name);
        if rest == -1 {
            assert forall|j: int| 0 <= j < frames.len() implies
                (#[trigger] frames[j]).filename@ != name
            by {
                if j > 0 {
                    assert(frames[j] == frames.skip(1)[j - 1]);
                }
            }
        } else {
            assert(frames[rest + 1] == frames.skip(1)[rest]);
            assert forall|j: int| 0 <= j < rest + 1 implies
                (#[trigger] frames[j]).filename@ != name
            by {
                if j > 0 {
                    assert(frames[j] == frames.skip(1)[j - 1]);
                }
            }
        }
    }
}

/// A name's first occurrence is exactly what the demo lookup finds.
proof fn lemma_find_demo_frame_first(frames: Seq<DemoFrame>, i: int)
    requires
        0 <= i < frames.len(),
        forall|j: int| 0 <= j < i ==>
            (#[trigger] frames[j]).filename@ != frames[i].filename@,
    ensures
        spec_find_demo_frame(frames, frames[i].filename@) == i,
{
    let name = frames[i].filename@;
    lemma_find_demo_frame_characterization(frames, name);
    let found = spec_find_demo_frame(frames, name);
    if found == -1 {
        assert(frames[i].filename@ != name);
        assert(false);
    } else {
        if found < i {
            assert(frames[found].filename@ != name);
            assert(false);
        }
        if found > i {
            assert(frames[i].filename@ != name);
            assert(false);
        }
    }
}

} // verus!

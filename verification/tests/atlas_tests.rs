use rust_rpg::atlas::{
    Atlas, AtlasData, AtlasInfo, Frame, Rect, Sprite, SpriteRef, Type, SCALE_MILLI,
};
use rust_rpg::landscape::{DemoAtlas, DemoFrame, PixelRect};

fn frame(name: &str, x: i32, y: i32, w: i32, h: i32) -> Frame {
    Frame { name: name.to_owned(), x, y, w, h }
}

fn landscape_atlas() -> Atlas {
    Atlas {
        meta: AtlasInfo {
            name: Type::Landscape,
            path: "/atlas/landscape.png".to_owned(),
            size: (512, 512),
            frames: vec![
                frame("grass", 0, 0, 133, 127),
                frame("water", 133, 0, 133, 127),
                frame("rock", 0, 127, 133, 127),
            ],
        },
    }
}

#[test]
fn lookup_by_name_and_index_agree_on_source_rect() {
    let atlas = landscape_atlas();
    for (i, name) in ["grass", "water", "rock"].iter().enumerate() {
        let by_name = atlas
            .create_sprite(&SpriteRef::Name((*name).to_owned()))
            .expect("declared frame");
        let by_index = atlas.create_sprite(&SpriteRef::Index(i)).expect("declared frame");
        assert_eq!(by_name.rect, by_index.rect);
        assert_eq!(by_name, by_index);
    }
}

#[test]
fn lookup_by_name_takes_the_first_of_duplicates() {
    let mut atlas = landscape_atlas();
    atlas.meta.frames.push(frame("grass", 266, 0, 10, 10));
    let by_name = atlas
        .create_sprite(&SpriteRef::Name("grass".to_owned()))
        .expect("declared frame");
    let first = atlas.create_sprite(&SpriteRef::Index(0)).expect("declared frame");
    let last = atlas.create_sprite(&SpriteRef::Index(3)).expect("declared frame");
    assert_eq!(by_name, first);
    assert_ne!(by_name, last);
}

#[test]
fn unknown_name_and_out_of_range_index_resolve_to_nothing() {
    let atlas = landscape_atlas();
    assert!(atlas.create_sprite(&SpriteRef::Name("lava".to_owned())).is_none());
    assert!(atlas.create_sprite(&SpriteRef::Index(3)).is_none());
}

#[test]
fn sprite_carries_fractional_rect_and_fixed_scale() {
    let atlas = landscape_atlas();
    let s = atlas.create_sprite(&SpriteRef::Name("water".to_owned())).unwrap();
    assert_eq!(s.rect, Rect { x: 133, y: 0, w: 133, h: 127, den_w: 512, den_h: 512 });
    assert_eq!(s.scale, SCALE_MILLI);
    assert_eq!(s.width, 133);
    assert_eq!(s.height, 127);
}

#[test]
fn bound_box_scales_only_width_and_height() {
    let s = Sprite::new(Rect { x: 10, y: 20, w: 30, h: 40, den_w: 100, den_h: 200 }, 30, 40);
    let b = s.get_bound_box();
    // the left and top edges keep their fractions (10/100 = 50/500,
    // 20/200 = 100/1000); the extents shrink to three fifths
    // (90/500 = 0.6 * 30/100, 120/1000 = 0.6 * 40/200)
    assert_eq!(b, Rect { x: 50, y: 100, w: 90, h: 120, den_w: 500, den_h: 1000 });
}

#[test]
fn atlas_data_finds_each_declared_kind() {
    let data = AtlasData::new(vec![
        landscape_atlas().meta,
        AtlasInfo {
            name: Type::TowersBrown,
            path: "/atlas/towers.png".to_owned(),
            size: (256, 256),
            frames: vec![frame("tower", 0, 0, 64, 64)],
        },
    ]);
    assert!(data.get(Type::Landscape).is_some());
    assert!(data.get(Type::TowersBrown).is_some());
    assert!(data.get(Type::TowersGrey).is_none());
    assert!(data.get(Type::TowersRed).is_none());
    assert_eq!(data.get(Type::Landscape).unwrap().meta.path, "/atlas/landscape.png");
}

fn demo_atlas() -> DemoAtlas {
    DemoAtlas {
        width: 1024,
        height: 1024,
        frames: vec![
            DemoFrame {
                filename: "tree.png".to_owned(),
                frame: PixelRect { x: 0, y: 297, w: 133, h: 127 },
            },
            DemoFrame {
                filename: "house.png".to_owned(),
                frame: PixelRect { x: 133, y: 297, w: 140, h: 150 },
            },
        ],
    }
}

#[test]
fn demo_lookup_cuts_the_named_frame() {
    let atlas = demo_atlas();
    let s = atlas.create_sprite(&"house.png".to_owned()).expect("declared frame");
    assert_eq!(s.width, 140);
    assert_eq!(s.height, 150);
    assert_eq!(s.rect.x, 133);
    assert_eq!(s.rect.y, 297);
    assert_eq!(s.rect.den_w, 1024);
    assert_eq!(s.rect.den_h, 1024);
}

#[test]
fn demo_lookup_of_an_unknown_name_yields_nothing() {
    let atlas = demo_atlas();
    assert!(atlas.create_sprite(&"lake.png".to_owned()).is_none());
}

//! Decoding pixel-colour-coded level images into a level layout.
//!
//! A level image classifies each pixel by colour (within a tolerance of
//! twenty per channel) into walls, blocking walls, traps, destructibles,
//! spawner placements, turrets and the level-end marker; a companion spawn
//! map then writes each spawner's enemy count and kind from the green and
//! blue channels of its opaque pixels.  Reading image files from disk is
//! the embedding program's business; this module works on decoded pixel
//! grids.
use vstd::prelude::*;
use vstd::string::*;
use crate::geom::Vec2i;
use crate::level::tile_in_range;

verus! {

/// The colour tolerance of the classifier, per channel.
pub const COLOR_RANGE: u8 = 20;

/// One RGBA pixel, eight bits per channel.
#[derive(Clone, Copy, PartialEq, Eq, Structural, Debug)]
pub struct Pixel {
    pub r: u8,
    pub g: u8,
    pub b: u8,
    pub a: u8,
}

/// A decoded image: a row-major pixel grid.
pub struct Image {
    pub width: usize,
    pub height: usize,
    pub pixels: Vec<Pixel>,
}

impl Image {
    /// The grid holds exactly one pixel per cell.
    pub open spec fn wf(self) -> bool {
        &&& self.pixels@.len() == self.width * self.height
        &&& self.width * self.height <= usize::MAX
    }

    /// Builds an image; the pixel list must fill the grid exactly.
    pub fn new(width: usize, height: usize, pixels: Vec<Pixel>) -> (img: Image)
        requires
            pixels@.len() == width * height,
            width * height <= usize::MAX,
        ensures
            img.wf(),
            img.width == width,
            img.height == height,
            img.pixels@ == pixels@,
    {
        Image { width, height, pixels }
    }

    /// Reads the pixel at column `x`, row `y`.
    pub fn get_pixel(&self, x: usize, y: usize) -> (p: Pixel)
        requires
            self.wf(),
            x < self.width,
            y < self.height,
        ensures
            p == self.pixels@[y * self.width + x],
    {
        proof {
            assert(y * self.width + x < self.width * self.height && 0 <= y * self.width)
                by (nonlinear_arith)
                requires
                    x < self.width,
                    y < self.height,
            ;
            assert(self.width * self.height == self.pixels@.len());
            assert(y * self.width + x < self.pixels@.len());
        }
        self.pixels[y * self.width + x]
    }
}

/// Both pixels agree on every channel to within `range`.
pub open spec fn color_in_range_spec(col_1: Pixel, col_2: Pixel, range: int) -> bool {
    &&& col_2.r - range <= col_1.r <= col_2.r + range
    &&& col_2.g - range <= col_1.g <= col_2.g + range
    &&& col_2.b - range <= col_1.b <= col_2.b + range
    &&& col_2.a - range <= col_1.a <= col_2.a + range
}

/// One spawner placement read from the level image: its tile position and
/// the enemy count and kind the spawn map assigns.
#[derive(Clone, Copy, PartialEq, Eq, Structural, Debug)]
pub struct SpawnerPlacement {
    pub position: Vec2i,
    pub count: usize,
    pub kind: usize,
}

/// A decoded level layout: tile positions per element class.  Positions
/// are in tile coordinates; the level applies its own scale.
#[derive(Clone, Debug)]
pub struct LoadedLevelData {
    pub walls: Vec<Vec2i>,
    pub blocking_walls: Vec<Vec2i>,
    pub trap_walls: Vec<Vec2i>,
    pub enemy_spawner: Vec<SpawnerPlacement>,
    pub destructibles: Vec<Vec2i>,
    pub turrets: Vec<Vec2i>,
    pub level_end: Vec<Vec2i>,
}

impl LoadedLevelData {
    /// An empty layout.
    pub fn new() -> (d: LoadedLevelData)
        ensures
            d.walls@ == Seq::<Vec2i>::empty(),
            d.blocking_walls@ == Seq::<Vec2i>::empty(),
            d.trap_walls@ == Seq::<Vec2i>::empty(),
            d.enemy_spawner@ == Seq::<SpawnerPlacement>::empty(),
            d.destructibles@ == Seq::<Vec2i>::empty(),
            d.turrets@ == Seq::<Vec2i>::empty(),
            d.level_end@ == Seq::<Vec2i>::empty(),
    {
        LoadedLevelData {
            walls: Vec::new(),
            blocking_walls: Vec::new(),
            trap_walls: Vec::new(),
            enemy_spawner: Vec::new(),
            destructibles: Vec::new(),
            turrets: Vec::new(),
            level_end: Vec::new(),
        }
    }

    /// A value-for-value copy of the layout.
    pub fn duplicate(&self) -> (d: LoadedLevelData)
        ensures
            d.walls@ == self.walls@,
            d.blocking_walls@ == self.blocking_walls@,
            d.trap_walls@ == self.trap_walls@,
            d.enemy_spawner@ == self.enemy_spawner@,
            d.destructibles@ == self.destructibles@,
            d.turrets@ == self.turrets@,
            d.level_end@ == self.level_end@,
    {
        LoadedLevelData {
            walls: copy_vec_copyable(&self.walls),
            blocking_walls: copy_vec_copyable(&self.blocking_walls),
            trap_walls: copy_vec_copyable(&self.trap_walls),
            enemy_spawner: copy_vec_copyable(&self.enemy_spawner),
            destructibles: copy_vec_copyable(&self.destructibles),
            turrets: copy_vec_copyable(&self.turrets),
            level_end: copy_vec_copyable(&self.level_end),
        }
    }
}

/// Every position of the layout lies in the loader's tile range and every
/// list is of loadable length: what the level constructor asks of its
/// input.
pub open spec fn level_data_in_range(d: LoadedLevelData) -> bool {
    &&& d.walls@.len() <= 100_000
    &&& d.blocking_walls@.len() <= 100_000
    &&& d.trap_walls@.len() <= 100_000
    &&& d.enemy_spawner@.len() <= 100_000
    &&& d.destructibles@.len() <= 100_000
    &&& d.turrets@.len() <= 100_000
    &&& d.level_end@.len() <= 100_000
    &&& forall|i: int| 0 <= i < d.walls@.len() ==> tile_in_range(#[trigger] d.walls@[i])
    &&& forall|i: int|
        0 <= i < d.blocking_walls@.len() ==> tile_in_range(#[trigger] d.blocking_walls@[i])
    &&& forall|i: int| 0 <= i < d.trap_walls@.len() ==> tile_in_range(#[trigger] d.trap_walls@[i])
    &&& forall|i: int|
        0 <= i < d.enemy_spawner@.len() ==> tile_in_range((#[trigger] d.enemy_spawner@[i]).position)
    &&& forall|i: int|
        0 <= i < d.destructibles@.len() ==> tile_in_range(#[trigger] d.destructibles@[i])
    &&& forall|i: int| 0 <= i < d.turrets@.len() ==> tile_in_range(#[trigger] d.turrets@[i])
    &&& forall|i: int| 0 <= i < d.level_end@.len() ==> tile_in_range(#[trigger] d.level_end@[i])
}

/// Copies a vector of plain values, view for view.
pub fn copy_vec_copyable<T: Copy>(v: &Vec<T>) -> (r: Vec<T>)
    ensures
        r@ == v@,
{
    let mut r: Vec<T> = Vec::new();
    let n = v.len();
    let mut i: usize = 0;
    while i < n
        invariant
            n == v@.len(),
            i <= n,
            r@ == v@.take(i as int),
        decreases n - i,
    {
        proof {
            assert(v@.take(i + 1) =~= v@.take(i as int).push(v@[i as int]));
        }
        r.push(v[i]);
        i = i + 1;
    }
    proof {
        assert(v@.take(n as int) =~= v@);
    }
    r
}

/// The tile position of flat pixel index `k` in a grid `width` across.
pub open spec fn tile_position(k: int, width: int) -> Vec2i
    recommends
        width > 0,
{
    Vec2i { x: (k % width) as i64, y: (k / width) as i64 }
}

/// The tile positions, in row-major order from flat index `k` on, whose
/// pixel matches `pred`.
pub open spec fn class_positions(
    pixels: Seq<Pixel>,
    width: int,
    pred: spec_fn(Pixel) -> bool,
    k: int,
) -> Seq<Vec2i>
    decreases pixels.len() - k,
{
    if k < 0 || k >= pixels.len() {
        Seq::empty()
    } else {
        let rest = class_positions(pixels, width, pred, k + 1);
        if pred(pixels[k]) {
            seq![tile_position(k, width)] + rest
        } else {
            rest
        }
    }
}

/// The pixel values, in row-major order from flat index `k` on, that
/// match `pred`.
pub open spec fn class_pixels(pixels: Seq<Pixel>, pred: spec_fn(Pixel) -> bool, k: int) -> Seq<
    Pixel,
>
    decreases pixels.len() - k,
{
    if k < 0 || k >= pixels.len() {
        Seq::empty()
    } else {
        let rest = class_pixels(pixels, pred, k + 1);
        if pred(pixels[k]) {
            seq![pixels[k]] + rest
        } else {
            rest
        }
    }
}

/// The index, scanning from `i`, of the first `.` in `s`; the length when
/// there is none.
pub open spec fn first_dot_from(s: Seq<char>, i: int) -> int
    decreases s.len() - i,
{
    if i < 0 || i >= s.len() {
        s.len() as int
    } else if s[i] == '.' {
        i
    } else {
        first_dot_from(s, i + 1)
    }
}

/// Collects the tile positions of every pixel matching `target` within
/// the classifier tolerance, in row-major order.
fn scan_class(image: &Image, target: Pixel) -> (v: Vec<Vec2i>)
    requires
        image.wf(),
    ensures
        v@ == class_positions(
            image.pixels@,
            image.width as int,
            |p: Pixel| color_in_range_spec(p, target, COLOR_RANGE as int),
            0,
        ),
{
    let ghost pred = |p: Pixel| color_in_range_spec(p, target, COLOR_RANGE as int);
    let mut v: Vec<Vec2i> = Vec::new();
    let n = image.pixels.len();
    let width = image.width;
    let mut k: usize = 0;
    while k < n
        invariant
            n == image.pixels@.len(),
            k <= n,
            width == image.width,
            image.wf(),
            pred == (|p: Pixel| color_in_range_spec(p, target, COLOR_RANGE as int)),
            v@ + class_positions(image.pixels@, width as int, pred, k as int) == class_positions(
                image.pixels@,
                width as int,
                pred,
                0,
            ),
        decreases n - k,
    {
        let p = image.pixels[k];
        proof {
            assert(width > 0) by (nonlinear_arith)
                requires
                    k < n,
                    n == image.width * image.height,
                    width == image.width,
            ;
        }
        let matched = compare_pixels(p, target);
        if matched {
            let pos = Vec2i { x: (k % width) as i64, y: (k / width) as i64 };
            proof {
                assert(pos == tile_position(k as int, width as int));
                assert(v@.push(pos) + class_positions(image.pixels@, width as int, pred, k + 1)
                    =~= v@ + (seq![pos] + class_positions(
                    image.pixels@,
                    width as int,
                    pred,
                    k + 1,
                )));
            }
            v.push(pos);
        }
        k = k + 1;
    }
    proof {
        assert(v@ + Seq::<Vec2i>::empty() =~= v@);
    }
    v
}

/// Channel-wise comparison within the classifier tolerance.
fn compare_pixels(col_1: Pixel, col_2: Pixel) -> (r: bool)
    ensures
        r == color_in_range_spec(col_1, col_2, COLOR_RANGE as int),
{
    let range: i32 = COLOR_RANGE as i32;
    (col_1.r as i32) >= (col_2.r as i32) - range && (col_1.r as i32) <= (col_2.r as i32) + range
        && (col_1.g as i32) >= (col_2.g as i32) - range && (col_1.g as i32) <= (col_2.g as i32)
        + range && (col_1.b as i32) >= (col_2.b as i32) - range && (col_1.b as i32) <= (
    col_2.b as i32) + range && (col_1.a as i32) >= (col_2.a as i32) - range && (col_1.a as i32)
        <= (col_2.a as i32) + range
}

/// The loader: decodes level images into layouts and keeps the decoded
/// levels for the session.
pub struct LevelLoader {
    pub levels: Vec<LoadedLevelData>,
}

impl LevelLoader {
    /// A loader with no levels decoded yet.
    pub fn new() -> (l: LevelLoader)
        ensures
            l.levels@.len() == 0,
    {
        LevelLoader { levels: Vec::new() }
    }

    /// Joins each file name onto the directory path, and cuts each name
    /// at its first dot: the full paths and the bare names, in order.
    /// Every file name must carry an extension.
    pub fn build_filepath(&self, files: Vec<&str>, path: &str) -> (r: (Vec<String>, Vec<String>))
        requires
            forall|i: int|
                0 <= i < files@.len() ==> first_dot_from(#[trigger] files@[i]@, 0)
                    < files@[i]@.len(),
        ensures
            r.0@.len() == files@.len(),
            r.1@.len() == files@.len(),
            forall|i: int| 0 <= i < files@.len() ==> (#[trigger] r.0@[i])@ == path@ + files@[i]@,
            forall|i: int|
                0 <= i < files@.len() ==> (#[trigger] r.1@[i])@ == files@[i]@.subrange(
                    0,
                    first_dot_from(files@[i]@, 0),
                ),
    {
        let mut full_paths: Vec<String> = Vec::new();
        let mut names: Vec<String> = Vec::new();
        let n = files.len();
        let mut i: usize = 0;
        while i < n
            invariant
                n == files@.len(),
                i <= n,
                full_paths@.len() == i,
                names@.len() == i,
                forall|j: int|
                    0 <= j < files@.len() ==> first_dot_from(#[trigger] files@[j]@, 0)
                        < files@[j]@.len(),
                forall|j: int|
                    0 <= j < i ==> (#[trigger] full_paths@[j])@ == path@ + files@[j]@,
                forall|j: int|
                    0 <= j < i ==> (#[trigger] names@[j])@ == files@[j]@.subrange(
                        0,
                        first_dot_from(files@[j]@, 0),
                    ),
            decreases n - i,
        {
            let file: &str = files[i];
            let mut full_path = String::from_str(path);
            full_path.append(file);
            full_paths.push(full_path);
            let len = file.unicode_len();
            let mut dot: usize = 0;
            let mut found = false;
            while dot < len && !found
                invariant
                    len == file@.len(),
                    dot <= len,
                    found ==> dot < len && file@[dot as int] == '.' && first_dot_from(file@, 0)
                        == dot,
                    !found ==> first_dot_from(file@, 0) == first_dot_from(file@, dot as int),
                decreases len - dot, (if found { 0int } else { 1int }),
            {
                let c = file.get_char(dot);
                if c == '.' {
                    found = true;
                } else {
                    dot = dot + 1;
                }
            }
            proof {
                if !found {
                    assert(first_dot_from(file@, dot as int) == file@.len());
                    assert(false);
                }
                assert(first_dot_from(file@, 0) == dot as int);
            }
            let name_slice = file.substring_char(0, dot);
            names.push(String::from_str(name_slice));
            i = i + 1;
        }
        (full_paths, names)
    }

    /// Classifies every pixel of a level image into the seven element
    /// classes by colour, collecting tile positions in row-major order.
    /// Spawner placements start with count and kind zero, for the spawn
    /// map to fill in.
    pub fn convert_image_to_level(&self, level_image: &Image) -> (d: LoadedLevelData)
        requires
            level_image.wf(),
        ensures
            d.walls@ == class_positions(
                level_image.pixels@,
                level_image.width as int,
                |p: Pixel|
                    color_in_range_spec(
                        p,
                        Pixel { r: 255, g: 255, b: 255, a: 255 },
                        COLOR_RANGE as int,
                    ),
                0,
            ),
            d.blocking_walls@ == class_positions(
                level_image.pixels@,
                level_image.width as int,
                |p: Pixel|
                    color_in_range_spec(
                        p,
                        Pixel { r: 180, g: 180, b: 180, a: 255 },
                        COLOR_RANGE as int,
                    ),
                0,
            ),
            d.trap_walls@ == class_positions(
                level_image.pixels@,
                level_image.width as int,
                |p: Pixel|
                    color_in_range_spec(
                        p,
                        Pixel { r: 255, g: 1, b: 128, a: 255 },
                        COLOR_RANGE as int,
                    ),
                0,
            ),
            d.destructibles@ == class_positions(
                level_image.pixels@,
                level_image.width as int,
                |p: Pixel|
                    color_in_range_spec(
                        p,
                        Pixel { r: 0, g: 0, b: 255, a: 255 },
                        COLOR_RANGE as int,
                    ),
                0,
            ),
            d.enemy_spawner@.len() == class_positions(
                level_image.pixels@,
                level_image.width as int,
                |p: Pixel|
                    color_in_range_spec(
                        p,
                        Pixel { r: 255, g: 0, b: 0, a: 255 },
                        COLOR_RANGE as int,
                    ),
                0,
            ).len(),
            forall|i: int|
                0 <= i < d.enemy_spawner@.len() ==> (#[trigger] d.enemy_spawner@[i]) == (
                SpawnerPlacement {
                    position: class_positions(
                        level_image.pixels@,
                        level_image.width as int,
                        |p: Pixel|
                            color_in_range_spec(
                                p,
                                Pixel { r: 255, g: 0, b: 0, a: 255 },
                                COLOR_RANGE as int,
                            ),
                        0,
                    )[i],
                    count: 0,
                    kind: 0,
                }),
            d.turrets@ == class_positions(
                level_image.pixels@,
                level_image.width as int,
                |p: Pixel|
                    color_in_range_spec(
                        p,
                        Pixel { r: 255, g: 255, b: 0, a: 255 },
                        COLOR_RANGE as int,
                    ),
                0,
            ),
            d.level_end@ == class_positions(
                level_image.pixels@,
                level_image.width as int,
                |p: Pixel|
                    color_in_range_spec(
                        p,
                        Pixel { r: 0, g: 255, b: 0, a: 255 },
                        COLOR_RANGE as int,
                    ),
                0,
            ),
    {
        let walls = scan_class(level_image, Pixel { r: 255, g: 255, b: 255, a: 255 });
        let blocking_walls = scan_class(level_image, Pixel { r: 180, g: 180, b: 180, a: 255 });
        let trap_walls = scan_class(level_image, Pixel { r: 255, g: 1, b: 128, a: 255 });
        let destructibles = scan_class(level_image, Pixel { r: 0, g: 0, b: 255, a: 255 });
        let spawner_positions = scan_class(level_image, Pixel { r: 255, g: 0, b: 0, a: 255 });
        let turrets = scan_class(level_image, Pixel { r: 255, g: 255, b: 0, a: 255 });
        let level_end = scan_class(level_image, Pixel { r: 0, g: 255, b: 0, a: 255 });
        let mut enemy_spawner: Vec<SpawnerPlacement> = Vec::new();
        let m = spawner_positions.len();
        let mut i: usize = 0;
        while i < m
            invariant
                m == spawner_positions@.len(),
                i <= m,
                enemy_spawner@.len() == i,
                forall|j: int|
                    0 <= j < i ==> (#[trigger] enemy_spawner@[j]) == (SpawnerPlacement {
                        position: spawner_positions@[j],
                        count: 0,
                        kind: 0,
                    }),
            decreases m - i,
        {
            enemy_spawner.push(
                SpawnerPlacement { position: spawner_positions[i], count: 0, kind: 0 },
            );
            i = i + 1;
        }
        LoadedLevelData {
            walls,
            blocking_walls,
            trap_walls,
            enemy_spawner,
            destructibles,
            turrets,
            level_end,
        }
    }

    /// Writes each spawner's enemy count and kind from the spawn map: the
    /// i-th fully opaque pixel, in row-major order, configures the i-th
    /// placement (its green channel the count, its blue channel the
    /// kind); placements beyond the opaque pixels, and everything else in
    /// the layout, stay as they were.
    pub fn load_spawnmap(&self, level_data: &mut LoadedLevelData, spawnmap: &Image)
        requires
            spawnmap.wf(),
        ensures
            final(level_data).walls == old(level_data).walls,
            final(level_data).blocking_walls == old(level_data).blocking_walls,
            final(level_data).trap_walls == old(level_data).trap_walls,
            final(level_data).destructibles == old(level_data).destructibles,
            final(level_data).turrets == old(level_data).turrets,
            final(level_data).level_end == old(level_data).level_end,
            final(level_data).enemy_spawner@.len() == old(level_data).enemy_spawner@.len(),
            forall|i: int|
                0 <= i < old(level_data).enemy_spawner@.len() ==> (
                #[trigger] final(level_data).enemy_spawner@[i]) == (if i < class_pixels(
                    spawnmap.pixels@,
                    |p: Pixel| p.a == 255,
                    0,
                ).len() {
                    SpawnerPlacement {
                        position: old(level_data).enemy_spawner@[i].position,
                        count: class_pixels(spawnmap.pixels@, |p: Pixel| p.a == 255, 0)[i].g as usize,
                        kind: class_pixels(spawnmap.pixels@, |p: Pixel| p.a == 255, 0)[i].b as usize,
                    }
                } else {
                    old(level_data).enemy_spawner@[i]
                }),
    {
        let ghost pred = |p: Pixel| p.a == 255;
        let n = spawnmap.pixels.len();
        let mut found_spawner: usize = 0;
        let mut k: usize = 0;
        while k < n
            invariant
                n == spawnmap.pixels@.len(),
                k <= n,
                pred == (|p: Pixel| p.a == 255),
                found_spawner == vstd::math::min(
                    class_pixels(spawnmap.pixels@, pred, 0).len() - class_pixels(
                        spawnmap.pixels@,
                        pred,
                        k as int,
                    ).len(),
                    old(level_data).enemy_spawner@.len() as int,
                ),
                class_pixels(spawnmap.pixels@, pred, 0) =~= class_pixels(
                    spawnmap.pixels@,
                    pred,
                    0,
                ).take(
                    class_pixels(spawnmap.pixels@, pred, 0).len() - class_pixels(
                        spawnmap.pixels@,
                        pred,
                        k as int,
                    ).len(),
                ) + class_pixels(spawnmap.pixels@, pred, k as int),
                level_data.walls == old(level_data).walls,
                level_data.blocking_walls == old(level_data).blocking_walls,
                level_data.trap_walls == old(level_data).trap_walls,
                level_data.destructibles == old(level_data).destructibles,
                level_data.turrets == old(level_data).turrets,
                level_data.level_end == old(level_data).level_end,
                level_data.enemy_spawner@.len() == old(level_data).enemy_spawner@.len(),
                forall|i: int|
                    0 <= i < found_spawner ==> (#[trigger] level_data.enemy_spawner@[i]) == (
                    SpawnerPlacement {
                        position: old(level_data).enemy_spawner@[i].position,
                        count: class_pixels(spawnmap.pixels@, pred, 0)[i].g as usize,
                        kind: class_pixels(spawnmap.pixels@, pred, 0)[i].b as usize,
                    }),
                forall|i: int|
                    found_spawner <= i < old(level_data).enemy_spawner@.len() ==> (
                    #[trigger] level_data.enemy_spawner@[i]) == old(level_data).enemy_spawner@[i],
            decreases n - k,
        {
            let p = spawnmap.pixels[k];
            if p.a == 255 {
                if found_spawner < level_data.enemy_spawner.len() {
                    let position = level_data.enemy_spawner[found_spawner].position;
                    level_data.enemy_spawner.set(
                        found_spawner,
                        SpawnerPlacement {
                            position,
                            count: p.g as usize,
                            kind: p.b as usize,
                        },
                    );
                    found_spawner = found_spawner + 1;
                }
            }
            k = k + 1;
        }
    }
}

} // verus!

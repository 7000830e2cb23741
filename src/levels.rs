//! Tiling levels of a pyramid image and their codec.
//!
//! On the wire the levels of an image are one flat JSON object: each level sits
//! under the decimal spelling of its index, and the reserved key `base_key` holds
//! the storage key that the tiles are found under.
use crate::json::{fields_view, members_view, Scalar, ScalarModel, Value, ValueModel};
use crate::text::{decimal_text, lemma_decimal_text_digits, lemma_u32_text_round_trip, same_text, u32_from_text, u32_of_text, u32_to_text};
use vstd::prelude::*;

verus! {

/// A count of tiles along one axis. The platform writes it as a JSON number,
/// kept here as its literal text; an unknown count (a NaN) is written `null`.
#[derive(Debug, Clone, PartialEq, Eq)]
pub enum TileCount {
    Count(String),
    NotANumber,
}

/// One zoom level of a tiled image.
#[derive(Debug, Clone, PartialEq, Eq)]
pub struct ImageLevel {
    pub format: String,
    pub pixel_ratio: u16,
    pub tile_height: u32,
    pub tile_width: u32,
    pub x_tiles: TileCount,
    pub y_tiles: TileCount,
}

/// The levels of a tiled image, by index, with the key the tiles are stored under.
///
/// `image_levels` is kept sorted by index, each index once (see `wf`).
#[derive(Debug, Clone, PartialEq, Eq)]
pub struct Levels {
    pub image_levels: Vec<(u32, ImageLevel)>,
    pub base_key: Option<String>,
}

/// A field of the JSON record of one level.
#[derive(Debug, Clone, Copy, PartialEq, Eq)]
pub enum LevelField {
    Format,
    PixelRatio,
    TileHeight,
    TileWidth,
    XTiles,
    YTiles,
}

/// Why the value under a level's key is not a level.
#[derive(Debug, Clone, Copy, PartialEq, Eq)]
pub enum LevelFault {
    NotAnObject,
    Missing(LevelField),
    Duplicate(LevelField),
    WrongType(LevelField),
}

/// Why a JSON object does not hold levels.
#[derive(Debug, Clone, PartialEq, Eq)]
pub enum LevelsError {
    /// A key that is neither a level index nor `base_key`.
    InvalidKey(String),
    /// `base_key` holds something other than a string.
    InvalidBaseKey,
    /// The value under this level key is not a level record.
    InvalidLevel(String, LevelFault),
}

pub struct ImageLevelModel {
    pub format: Seq<char>,
    pub pixel_ratio: u16,
    pub tile_height: u32,
    pub tile_width: u32,
    /// `None` stands for a count that is not a number.
    pub x_tiles: Option<Seq<char>>,
    pub y_tiles: Option<Seq<char>>,
}

pub struct LevelsModel {
    pub levels: Seq<(u32, ImageLevelModel)>,
    pub base_key: Option<Seq<char>>,
}

pub enum LevelsErrorModel {
    InvalidKey(Seq<char>),
    InvalidBaseKey,
    InvalidLevel(Seq<char>, LevelFault),
}

impl View for TileCount {
    type V = Option<Seq<char>>;

    open spec fn view(&self) -> Option<Seq<char>> {
        match self {
            TileCount::Count(t) => Some(t@),
            TileCount::NotANumber => None,
        }
    }
}

impl View for ImageLevel {
    type V = ImageLevelModel;

    open spec fn view(&self) -> ImageLevelModel {
        ImageLevelModel {
            format: self.format@,
            pixel_ratio: self.pixel_ratio,
            tile_height: self.tile_height,
            tile_width: self.tile_width,
            x_tiles: self.x_tiles@,
            y_tiles: self.y_tiles@,
        }
    }
}

pub open spec fn opt_text(o: Option<String>) -> Option<Seq<char>> {
    match o {
        Some(s) => Some(s@),
        None => None,
    }
}

pub open spec fn entries_view(s: Seq<(u32, ImageLevel)>) -> Seq<(u32, ImageLevelModel)> {
    s.map_values(|e: (u32, ImageLevel)| (e.0, e.1@))
}

impl View for Levels {
    type V = LevelsModel;

    open spec fn view(&self) -> LevelsModel {
        LevelsModel { levels: entries_view(self.image_levels@), base_key: opt_text(self.base_key) }
    }
}

impl View for LevelsError {
    type V = LevelsErrorModel;

    open spec fn view(&self) -> LevelsErrorModel {
        match self {
            LevelsError::InvalidKey(k) => LevelsErrorModel::InvalidKey(k@),
            LevelsError::InvalidBaseKey => LevelsErrorModel::InvalidBaseKey,
            LevelsError::InvalidLevel(k, f) => LevelsErrorModel::InvalidLevel(k@, *f),
        }
    }
}

/// Indices strictly increase along the list, so each index occurs once.
pub open spec fn sorted_levels(s: Seq<(u32, ImageLevelModel)>) -> bool {
    forall|i: int, j: int| 0 <= i < j < s.len() ==> s[i].0 < s[j].0
}

impl Levels {
    pub open spec fn wf(&self) -> bool {
        sorted_levels(self@.levels)
    }

    /// The level of index `index`, if there is one (the first, should the list
    /// hold the index twice).
    pub fn get(&self, index: u32) -> (r: Option<&ImageLevel>)
        ensures
            r is None <==> (forall|i: int| 0 <= i < self.image_levels@.len() ==> #[trigger] self.image_levels@[i].0 != index),
            r matches Some(l) ==> exists|i: int| {
                &&& 0 <= i < self.image_levels@.len()
                &&& #[trigger] self.image_levels@[i].0 == index
                &&& self.image_levels@[i].1 == *l
                &&& forall|j: int| 0 <= j < i ==> self.image_levels@[j].0 != index
            },
    {
        let mut i: usize = 0;
        while i < self.image_levels.len()
            invariant
                i <= self.image_levels@.len(),
                forall|j: int| 0 <= j < i ==> #[trigger] self.image_levels@[j].0 != index,
            decreases self.image_levels@.len() - i,
        {
            if self.image_levels[i].0 == index {
                return Some(&self.image_levels[i].1);
            }
            i = i + 1;
        }
        None
    }
}

// ---------------------------------------------------------------------------
// The wire form, stated over the models.
pub open spec fn field_name(f: LevelField) -> Seq<char> {
    match f {
        LevelField::Format => "format"@,
        LevelField::PixelRatio => "pixel_ratio"@,
        LevelField::TileHeight => "tile_height"@,
        LevelField::TileWidth => "tile_width"@,
        LevelField::XTiles => "x_tiles"@,
        LevelField::YTiles => "y_tiles"@,
    }
}

pub open spec fn base_key_name() -> Seq<char> {
    "base_key"@
}

pub open spec fn tile_scalar(t: Option<Seq<char>>) -> ScalarModel {
    match t {
        Some(n) => ScalarModel::Number(n),
        None => ScalarModel::Null,
    }
}

/// The JSON record of one level: its six fields, in declaration order.
pub open spec fn level_record(l: ImageLevelModel) -> Seq<(Seq<char>, ScalarModel)> {
    seq![
        (field_name(LevelField::Format), ScalarModel::Text(l.format)),
        (field_name(LevelField::PixelRatio), ScalarModel::Number(decimal_text(l.pixel_ratio as nat))),
        (field_name(LevelField::TileHeight), ScalarModel::Number(decimal_text(l.tile_height as nat))),
        (field_name(LevelField::TileWidth), ScalarModel::Number(decimal_text(l.tile_width as nat))),
        (field_name(LevelField::XTiles), tile_scalar(l.x_tiles)),
        (field_name(LevelField::YTiles), tile_scalar(l.y_tiles)),
    ]
}

/// The member that holds one level: its index in base ten, and its record.
pub open spec fn level_member(e: (u32, ImageLevelModel)) -> (Seq<char>, ValueModel) {
    (decimal_text(e.0 as nat), ValueModel::Object(level_record(e.1)))
}

/// The members that encode `m`: one per level, by index as listed, then
/// `base_key` when there is one (no member when there is none).
pub open spec fn levels_members(m: LevelsModel) -> Seq<(Seq<char>, ValueModel)> {
    let lv = m.levels.map_values(|e: (u32, ImageLevelModel)| level_member(e));
    match m.base_key {
        Some(b) => lv.push((base_key_name(), ValueModel::Scalar(ScalarModel::Text(b)))),
        None => lv,
    }
}

/// The fields of a level record read so far.
pub struct PartialLevel {
    pub format: Option<Seq<char>>,
    pub pixel_ratio: Option<u16>,
    pub tile_height: Option<u32>,
    pub tile_width: Option<u32>,
    pub x_tiles: Option<Option<Seq<char>>>,
    pub y_tiles: Option<Option<Seq<char>>>,
}

pub open spec fn no_fields() -> PartialLevel {
    PartialLevel {
        format: None,
        pixel_ratio: None,
        tile_height: None,
        tile_width: None,
        x_tiles: None,
        y_tiles: None,
    }
}

/// A whole number within `max`, written as a JSON number.
pub open spec fn count_of(v: ScalarModel, max: u32) -> Option<u32> {
    match v {
        ScalarModel::Number(t) => match u32_of_text(t) {
            Some(n) => if n <= max { Some(n) } else { None },
            None => None,
        },
        _ => None,
    }
}

pub open spec fn tiles_of(v: ScalarModel) -> Option<Option<Seq<char>>> {
    match v {
        ScalarModel::Number(t) => Some(Some(t)),
        ScalarModel::Null => Some(None),
        _ => None,
    }
}

/// Reads one field into `p`. A field read twice, or of the wrong type, is a
/// fault; a name that is not a level field is passed over.
pub open spec fn read_field(p: PartialLevel, f: (Seq<char>, ScalarModel)) -> Result<PartialLevel, LevelFault> {
    let (name, v) = f;
    if name == field_name(LevelField::Format) {
        if p.format is Some {
            Err(LevelFault::Duplicate(LevelField::Format))
        } else {
            match v {
                ScalarModel::Text(t) => Ok(PartialLevel { format: Some(t), ..p }),
                _ => Err(LevelFault::WrongType(LevelField::Format)),
            }
        }
    } else if name == field_name(LevelField::PixelRatio) {
        if p.pixel_ratio is Some {
            Err(LevelFault::Duplicate(LevelField::PixelRatio))
        } else {
            match count_of(v, u16::MAX as u32) {
                Some(n) => Ok(PartialLevel { pixel_ratio: Some(n as u16), ..p }),
                None => Err(LevelFault::WrongType(LevelField::PixelRatio)),
            }
        }
    } else if name == field_name(LevelField::TileHeight) {
        if p.tile_height is Some {
            Err(LevelFault::Duplicate(LevelField::TileHeight))
        } else {
            match count_of(v, u32::MAX) {
                Some(n) => Ok(PartialLevel { tile_height: Some(n), ..p }),
                None => Err(LevelFault::WrongType(LevelField::TileHeight)),
            }
        }
    } else if name == field_name(LevelField::TileWidth) {
        if p.tile_width is Some {
            Err(LevelFault::Duplicate(LevelField::TileWidth))
        } else {
            match count_of(v, u32::MAX) {
                Some(n) => Ok(PartialLevel { tile_width: Some(n), ..p }),
                None => Err(LevelFault::WrongType(LevelField::TileWidth)),
            }
        }
    } else if name == field_name(LevelField::XTiles) {
        if p.x_tiles is Some {
            Err(LevelFault::Duplicate(LevelField::XTiles))
        } else {
            match tiles_of(v) {
                Some(t) => Ok(PartialLevel { x_tiles: Some(t), ..p }),
                None => Err(LevelFault::WrongType(LevelField::XTiles)),
            }
        }
    } else if name == field_name(LevelField::YTiles) {
        if p.y_tiles is Some {
            Err(LevelFault::Duplicate(LevelField::YTiles))
        } else {
            match tiles_of(v) {
                Some(t) => Ok(PartialLevel { y_tiles: Some(t), ..p }),
                None => Err(LevelFault::WrongType(LevelField::YTiles)),
            }
        }
    } else {
        Ok(p)
    }
}

/// Reads the fields in order, stopping at the first fault.
pub open spec fn read_fields(fs: Seq<(Seq<char>, ScalarModel)>) -> Result<PartialLevel, LevelFault>
    decreases fs.len(),
{
    if fs.len() == 0 {
        Ok(no_fields())
    } else {
        match read_fields(fs.drop_last()) {
            Ok(p) => read_field(p, fs.last()),
            Err(e) => Err(e),
        }
    }
}

/// The level that a record holds; the first missing field, in declaration
/// order, is a fault.
pub open spec fn complete_level(p: PartialLevel) -> Result<ImageLevelModel, LevelFault> {
    if p.format is None {
        Err(LevelFault::Missing(LevelField::Format))
    } else if p.pixel_ratio is None {
        Err(LevelFault::Missing(LevelField::PixelRatio))
    } else if p.tile_height is None {
        Err(LevelFault::Missing(LevelField::TileHeight))
    } else if p.tile_width is None {
        Err(LevelFault::Missing(LevelField::TileWidth))
    } else if p.x_tiles is None {
        Err(LevelFault::Missing(LevelField::XTiles))
    } else if p.y_tiles is None {
        Err(LevelFault::Missing(LevelField::YTiles))
    } else {
        Ok(
            ImageLevelModel {
                format: p.format.unwrap(),
                pixel_ratio: p.pixel_ratio.unwrap(),
                tile_height: p.tile_height.unwrap(),
                tile_width: p.tile_width.unwrap(),
                x_tiles: p.x_tiles.unwrap(),
                y_tiles: p.y_tiles.unwrap(),
            },
        )
    }
}

pub open spec fn level_of_value(v: ValueModel) -> Result<ImageLevelModel, LevelFault> {
    match v {
        ValueModel::Object(fs) => match read_fields(fs) {
            Ok(p) => complete_level(p),
            Err(e) => Err(e),
        },
        _ => Err(LevelFault::NotAnObject),
    }
}

/// `s` with level `l` under index `k`: it replaces the level of that index, or
/// goes in before the first greater index.
pub open spec fn insert_level(s: Seq<(u32, ImageLevelModel)>, k: u32, l: ImageLevelModel) -> Seq<(u32, ImageLevelModel)>
    decreases s.len(),
{
    if s.len() == 0 {
        seq![(k, l)]
    } else if s[0].0 == k {
        s.update(0, (k, l))
    } else if s[0].0 > k {
        seq![(k, l)] + s
    } else {
        seq![s[0]] + insert_level(s.drop_first(), k, l)
    }
}

/// Reads one member into `m`.
pub open spec fn read_member(m: LevelsModel, e: (Seq<char>, ValueModel)) -> Result<LevelsModel, LevelsErrorModel> {
    let (key, v) = e;
    if key == base_key_name() {
        match v {
            ValueModel::Scalar(ScalarModel::Text(b)) => Ok(LevelsModel { base_key: Some(b), ..m }),
            _ => Err(LevelsErrorModel::InvalidBaseKey),
        }
    } else {
        match u32_of_text(key) {
            None => Err(LevelsErrorModel::InvalidKey(key)),
            Some(k) => match level_of_value(v) {
                Ok(l) => Ok(LevelsModel { levels: insert_level(m.levels, k, l), ..m }),
                Err(f) => Err(LevelsErrorModel::InvalidLevel(key, f)),
            },
        }
    }
}

/// What a JSON object's members decode to: they are read in order, and the first
/// member that is not a level or `base_key` ends the reading with its fault.
pub open spec fn levels_of_members(ms: Seq<(Seq<char>, ValueModel)>) -> Result<LevelsModel, LevelsErrorModel>
    decreases ms.len(),
{
    if ms.len() == 0 {
        Ok(LevelsModel { levels: seq![], base_key: None })
    } else {
        match levels_of_members(ms.drop_last()) {
            Ok(m) => read_member(m, ms.last()),
            Err(e) => Err(e),
        }
    }
}

pub open spec fn decoded(r: Result<Levels, LevelsError>) -> Result<LevelsModel, LevelsErrorModel> {
    match r {
        Ok(l) => Ok(l@),
        Err(e) => Err(e@),
    }
}

pub open spec fn level_decoded(r: Result<ImageLevel, LevelFault>) -> Result<ImageLevelModel, LevelFault> {
    match r {
        Ok(l) => Ok(l@),
        Err(e) => Err(e),
    }
}

pub open spec fn opt_tiles(o: Option<TileCount>) -> Option<Option<Seq<char>>> {
    match o {
        Some(t) => Some(t@),
        None => None,
    }
}

// ---------------------------------------------------------------------------
// Decoding.
/// A fault met in a prefix of the fields stays the outcome of the whole record.
proof fn lemma_read_fields_fault(fs: Seq<(Seq<char>, ScalarModel)>, n: int)
    requires
        0 <= n <= fs.len(),
        read_fields(fs.take(n)) is Err,
    ensures
        read_fields(fs) == read_fields(fs.take(n)),
    decreases fs.len() - n,
{
    if n < fs.len() {
        assert(fs.take(n + 1).drop_last() =~= fs.take(n));
        lemma_read_fields_fault(fs, n + 1);
    } else {
        assert(fs.take(n) =~= fs);
    }
}

/// A fault met in a prefix of the members stays the outcome of the whole object.
pub proof fn lemma_members_fault(ms: Seq<(Seq<char>, ValueModel)>, n: int)
    requires
        0 <= n <= ms.len(),
        levels_of_members(ms.take(n)) is Err,
    ensures
        levels_of_members(ms) == levels_of_members(ms.take(n)),
    decreases ms.len() - n,
{
    if n < ms.len() {
        assert(ms.take(n + 1).drop_last() =~= ms.take(n));
        lemma_members_fault(ms, n + 1);
    } else {
        assert(ms.take(n) =~= ms);
    }
}

fn count_in(v: &Scalar, max: u32) -> (r: Option<u32>)
    ensures
        r == count_of(v@, max),
{
    match v {
        Scalar::Number(t) => match u32_from_text(t.as_str()) {
            Some(n) => if n <= max {
                Some(n)
            } else {
                None
            },
            None => None,
        },
        _ => None,
    }
}

fn tiles_in(v: &Scalar) -> (r: Option<TileCount>)
    ensures
        opt_tiles(r) == tiles_of(v@),
{
    match v {
        Scalar::Number(t) => Some(TileCount::Count(t.clone())),
        Scalar::Null => Some(TileCount::NotANumber),
        _ => None,
    }
}

impl ImageLevel {
    /// Reads a level from the JSON record that holds it.
    pub fn from_value(v: &Value) -> (r: Result<ImageLevel, LevelFault>)
        ensures
            level_decoded(r) == level_of_value(v@),
    {
        let fs = match v {
            Value::Object(fs) => fs,
            _ => {
                return Err(LevelFault::NotAnObject);
            },
        };
        let ghost fv = fields_view(fs@);
        let mut format: Option<String> = None;
        let mut pixel_ratio: Option<u16> = None;
        let mut tile_height: Option<u32> = None;
        let mut tile_width: Option<u32> = None;
        let mut x_tiles: Option<TileCount> = None;
        let mut y_tiles: Option<TileCount> = None;
        let mut i: usize = 0;
        assert(fv.take(0) =~= Seq::<(Seq<char>, ScalarModel)>::empty());
        while i < fs.len()
            invariant
                i <= fs@.len(),
                fv == fields_view(fs@),
                v@ == ValueModel::Object(fv),
                read_fields(fv.take(i as int)) == Ok::<PartialLevel, LevelFault>(
                    PartialLevel {
                        format: opt_text(format),
                        pixel_ratio: pixel_ratio,
                        tile_height: tile_height,
                        tile_width: tile_width,
                        x_tiles: opt_tiles(x_tiles),
                        y_tiles: opt_tiles(y_tiles),
                    },
                ),
            decreases fs.len() - i,
        {
            let name = fs[i].0.as_str();
            let value = &fs[i].1;
            let ghost before = PartialLevel {
                format: opt_text(format),
                pixel_ratio: pixel_ratio,
                tile_height: tile_height,
                tile_width: tile_width,
                x_tiles: opt_tiles(x_tiles),
                y_tiles: opt_tiles(y_tiles),
            };
            proof {
                assert(fv.take(i + 1).drop_last() =~= fv.take(i as int));
                assert(fv.take(i + 1).last() == (name@, value@));
            }
            let ghost step = read_field(before, (name@, value@));
            assert(read_fields(fv.take(i + 1)) == step);
            let mut fault: Option<LevelFault> = None;
            if same_text(name, "format") {
                if format.is_some() {
                    fault = Some(LevelFault::Duplicate(LevelField::Format));
                } else {
                    match value {
                        Scalar::Text(t) => {
                            format = Some(t.clone());
                        },
                        _ => {
                            fault = Some(LevelFault::WrongType(LevelField::Format));
                        },
                    }
                }
            } else if same_text(name, "pixel_ratio") {
                if pixel_ratio.is_some() {
                    fault = Some(LevelFault::Duplicate(LevelField::PixelRatio));
                } else {
                    match count_in(value, 65535) {
                        Some(n) => {
                            pixel_ratio = Some(n as u16);
                        },
                        None => {
                            fault = Some(LevelFault::WrongType(LevelField::PixelRatio));
                        },
                    }
                }
            } else if same_text(name, "tile_height") {
                if tile_height.is_some() {
                    fault = Some(LevelFault::Duplicate(LevelField::TileHeight));
                } else {
                    match count_in(value, u32::MAX) {
                        Some(n) => {
                            tile_height = Some(n);
                        },
                        None => {
                            fault = Some(LevelFault::WrongType(LevelField::TileHeight));
                        },
                    }
                }
            } else if same_text(name, "tile_width") {
                if tile_width.is_some() {
                    fault = Some(LevelFault::Duplicate(LevelField::TileWidth));
                } else {
                    match count_in(value, u32::MAX) {
                        Some(n) => {
                            tile_width = Some(n);
                        },
                        None => {
                            fault = Some(LevelFault::WrongType(LevelField::TileWidth));
                        },
                    }
                }
            } else if same_text(name, "x_tiles") {
                if x_tiles.is_some() {
                    fault = Some(LevelFault::Duplicate(LevelField::XTiles));
                } else {
                    match tiles_in(value) {
                        Some(t) => {
                            x_tiles = Some(t);
                        },
                        None => {
                            fault = Some(LevelFault::WrongType(LevelField::XTiles));
                        },
                    }
                }
            } else if same_text(name, "y_tiles") {
                if y_tiles.is_some() {
                    fault = Some(LevelFault::Duplicate(LevelField::YTiles));
                } else {
                    match tiles_in(value) {
                        Some(t) => {
                            y_tiles = Some(t);
                        },
                        None => {
                            fault = Some(LevelFault::WrongType(LevelField::YTiles));
                        },
                    }
                }
            }
            if let Some(f) = fault {
                proof {
                    lemma_read_fields_fault(fv, i + 1);
                    assert(fv.take(fv.len() as int) =~= fv);
                }
                return Err(f);
            }
            i = i + 1;
        }
        assert(fv.take(fs@.len() as int) =~= fv);
        let format = match format {
            Some(x) => x,
            None => {
                return Err(LevelFault::Missing(LevelField::Format));
            },
        };
        let pixel_ratio = match pixel_ratio {
            Some(x) => x,
            None => {
                return Err(LevelFault::Missing(LevelField::PixelRatio));
            },
        };
        let tile_height = match tile_height {
            Some(x) => x,
            None => {
                return Err(LevelFault::Missing(LevelField::TileHeight));
            },
        };
        let tile_width = match tile_width {
            Some(x) => x,
            None => {
                return Err(LevelFault::Missing(LevelField::TileWidth));
            },
        };
        let x_tiles = match x_tiles {
            Some(x) => x,
            None => {
                return Err(LevelFault::Missing(LevelField::XTiles));
            },
        };
        let y_tiles = match y_tiles {
            Some(x) => x,
            None => {
                return Err(LevelFault::Missing(LevelField::YTiles));
            },
        };
        Ok(ImageLevel { format, pixel_ratio, tile_height, tile_width, x_tiles, y_tiles })
    }
}

/// Where `insert_level` puts the new level, given the first index `i` whose
/// key is not below `k`.
proof fn lemma_insert_level_at(s: Seq<(u32, ImageLevelModel)>, k: u32, l: ImageLevelModel, i: int)
    requires
        sorted_levels(s),
        0 <= i <= s.len(),
        forall|j: int| 0 <= j < i ==> s[j].0 < k,
        i < s.len() ==> s[i].0 >= k,
    ensures
        insert_level(s, k, l) == (if i < s.len() && s[i].0 == k {
            s.update(i, (k, l))
        } else {
            s.insert(i, (k, l))
        }),
        sorted_levels(insert_level(s, k, l)),
    decreases s.len(),
{
    if i == 0 {
        if s.len() == 0 {
            assert(s.insert(0, (k, l)) =~= seq![(k, l)]);
        } else if s[0].0 > k {
            assert(s.insert(0, (k, l)) =~= seq![(k, l)] + s);
        }
    } else {
        let t = s.drop_first();
        assert(sorted_levels(t));
        lemma_insert_level_at(t, k, l, i - 1);
        if i < s.len() && s[i].0 == k {
            assert(seq![s[0]] + t.update(i - 1, (k, l)) =~= s.update(i, (k, l)));
        } else {
            assert(seq![s[0]] + t.insert(i - 1, (k, l)) =~= s.insert(i, (k, l)));
        }
    }
    let r = insert_level(s, k, l);
    if i < s.len() && s[i].0 == k {
        assert(r =~= s.update(i, (k, l)));
    } else {
        assert(r =~= s.insert(i, (k, l)));
        assert forall|a: int, b: int| 0 <= a < b < r.len() implies r[a].0 < r[b].0 by {
            if b < i {
            } else if b == i {
            } else if a < i {
                assert(r[b] == s[b - 1]);
            } else if a == i {
                assert(r[b] == s[b - 1]);
            } else {
                assert(r[b] == s[b - 1]);
                assert(r[a] == s[a - 1]);
            }
        }
    }
}

/// Puts level `l` under index `k`, keeping the list sorted.
fn put_level(levels: &mut Vec<(u32, ImageLevel)>, k: u32, l: ImageLevel)
    requires
        sorted_levels(entries_view(old(levels)@)),
    ensures
        entries_view(final(levels)@) == insert_level(entries_view(old(levels)@), k, l@),
        sorted_levels(entries_view(final(levels)@)),
{
    let ghost old_s = entries_view(levels@);
    let mut i: usize = 0;
    while i < levels.len() && levels[i].0 < k
        invariant
            i <= levels@.len(),
            old_s == entries_view(levels@),
            forall|j: int| 0 <= j < i ==> levels@[j].0 < k,
        decreases levels@.len() - i,
    {
        i = i + 1;
    }
    let ghost lv = l@;
    proof {
        lemma_insert_level_at(old_s, k, lv, i as int);
    }
    if i < levels.len() && levels[i].0 == k {
        let ghost before = levels@;
        levels.remove(i);
        levels.insert(i, (k, l));
        assert(entries_view(levels@) =~= old_s.update(i as int, (k, lv)));
    } else {
        levels.insert(i, (k, l));
        assert(entries_view(levels@) =~= old_s.insert(i as int, (k, lv)));
    }
}

impl Levels {
    /// Decodes levels from the members of a JSON object, read in order: `base_key`
    /// takes a string, any other key must spell a level index in base ten and
    /// hold a level record. A later level of the same index replaces an earlier.
    pub fn decode(members: &Vec<(String, Value)>) -> (r: Result<Levels, LevelsError>)
        ensures
            decoded(r) == levels_of_members(members_view(members@)),
            r matches Ok(l) ==> l.wf(),
    {
        let ghost ms = members_view(members@);
        let mut image_levels: Vec<(u32, ImageLevel)> = Vec::new();
        let mut base_key: Option<String> = None;
        let mut i: usize = 0;
        assert(ms.take(0) =~= Seq::<(Seq<char>, ValueModel)>::empty());
        assert(entries_view(image_levels@) =~= Seq::<(u32, ImageLevelModel)>::empty());
        while i < members.len()
            invariant
                i <= members@.len(),
                ms == members_view(members@),
                sorted_levels(entries_view(image_levels@)),
                levels_of_members(ms.take(i as int)) == Ok::<LevelsModel, LevelsErrorModel>(
                    LevelsModel { levels: entries_view(image_levels@), base_key: opt_text(base_key) },
                ),
            decreases members@.len() - i,
        {
            let key = &members[i].0;
            let value = &members[i].1;
            proof {
                assert(ms.take(i + 1).drop_last() =~= ms.take(i as int));
                assert(ms.take(i + 1).last() == (key@, value@));
            }
            let mut fault: Option<LevelsError> = None;
            if same_text(key.as_str(), "base_key") {
                match value {
                    Value::Scalar(Scalar::Text(b)) => {
                        base_key = Some(b.clone());
                    },
                    _ => {
                        fault = Some(LevelsError::InvalidBaseKey);
                    },
                }
            } else {
                match u32_from_text(key.as_str()) {
                    None => {
                        fault = Some(LevelsError::InvalidKey(key.clone()));
                    },
                    Some(k) => match ImageLevel::from_value(value) {
                        Ok(l) => {
                            put_level(&mut image_levels, k, l);
                        },
                        Err(f) => {
                            fault = Some(LevelsError::InvalidLevel(key.clone(), f));
                        },
                    },
                }
            }
            if let Some(e) = fault {
                proof {
                    lemma_members_fault(ms, i + 1);
                    assert(ms.take(ms.len() as int) =~= ms);
                }
                return Err(e);
            }
            i = i + 1;
        }
        assert(ms.take(members@.len() as int) =~= ms);
        Ok(Levels { image_levels, base_key })
    }
}

// ---------------------------------------------------------------------------
// Encoding.
fn tile_value(t: &TileCount) -> (r: Scalar)
    ensures
        r@ == tile_scalar(t@),
{
    match t {
        TileCount::Count(n) => Scalar::Number(n.clone()),
        TileCount::NotANumber => Scalar::Null,
    }
}

impl ImageLevel {
    /// The JSON record of this level, its fields in declaration order.
    pub fn record(&self) -> (r: Vec<(String, Scalar)>)
        ensures
            fields_view(r@) == level_record(self@),
    {
        let mut r: Vec<(String, Scalar)> = Vec::new();
        r.push((String::from_str("format"), Scalar::Text(self.format.clone())));
        r.push((String::from_str("pixel_ratio"), Scalar::Number(u32_to_text(self.pixel_ratio as u32))));
        r.push((String::from_str("tile_height"), Scalar::Number(u32_to_text(self.tile_height))));
        r.push((String::from_str("tile_width"), Scalar::Number(u32_to_text(self.tile_width))));
        r.push((String::from_str("x_tiles"), tile_value(&self.x_tiles)));
        r.push((String::from_str("y_tiles"), tile_value(&self.y_tiles)));
        assert(fields_view(r@) =~= level_record(self@));
        r
    }
}

impl Levels {
    /// Encodes the levels as the members of one flat JSON object: each level
    /// under its index in base ten, in the order of the list, then `base_key`
    /// when there is one.
    pub fn encode(&self) -> (r: Vec<(String, Value)>)
        ensures
            members_view(r@) == levels_members(self@),
    {
        let ghost lv = self@.levels.map_values(|e: (u32, ImageLevelModel)| level_member(e));
        let mut out: Vec<(String, Value)> = Vec::new();
        let mut i: usize = 0;
        while i < self.image_levels.len()
            invariant
                i <= self.image_levels@.len(),
                lv == self@.levels.map_values(|e: (u32, ImageLevelModel)| level_member(e)),
                members_view(out@) =~= lv.take(i as int),
            decreases self.image_levels@.len() - i,
        {
            let e = &self.image_levels[i];
            let m = (u32_to_text(e.0), Value::Object(e.1.record()));
            assert(self@.levels[i as int] == (e.0, e.1@));
            assert(lv[i as int] == level_member((e.0, e.1@)));
            assert((m.0@, m.1@) == level_member((e.0, e.1@)));
            let ghost before = out@;
            let ghost mv = (m.0@, m.1@);
            out.push(m);
            assert(out@ == before.push(m));
            assert(members_view(out@) =~= members_view(before).push(mv));
            assert(lv.take(i + 1) =~= lv.take(i as int).push(lv[i as int]));
            i = i + 1;
        }
        assert(lv.take(i as int) =~= lv);
        match &self.base_key {
            Some(b) => {
                out.push((String::from_str("base_key"), Value::Scalar(Scalar::Text(b.clone()))));
            },
            None => {},
        }
        assert(members_view(out@) =~= levels_members(self@));
        out
    }
}

// ---------------------------------------------------------------------------
// Laws.
proof fn lemma_field_names()
    ensures
        field_name(LevelField::Format) != field_name(LevelField::PixelRatio),
        field_name(LevelField::Format) != field_name(LevelField::TileHeight),
        field_name(LevelField::Format) != field_name(LevelField::TileWidth),
        field_name(LevelField::Format) != field_name(LevelField::XTiles),
        field_name(LevelField::Format) != field_name(LevelField::YTiles),
        field_name(LevelField::PixelRatio) != field_name(LevelField::TileHeight),
        field_name(LevelField::PixelRatio) != field_name(LevelField::TileWidth),
        field_name(LevelField::PixelRatio) != field_name(LevelField::XTiles),
        field_name(LevelField::PixelRatio) != field_name(LevelField::YTiles),
        field_name(LevelField::TileHeight) != field_name(LevelField::TileWidth),
        field_name(LevelField::TileHeight) != field_name(LevelField::XTiles),
        field_name(LevelField::TileHeight) != field_name(LevelField::YTiles),
        field_name(LevelField::TileWidth) != field_name(LevelField::XTiles),
        field_name(LevelField::TileWidth) != field_name(LevelField::YTiles),
        field_name(LevelField::XTiles) != field_name(LevelField::YTiles),
{
    reveal_strlit("format");
    reveal_strlit("pixel_ratio");
    reveal_strlit("tile_height");
    reveal_strlit("tile_width");
    reveal_strlit("x_tiles");
    reveal_strlit("y_tiles");
    assert(field_name(LevelField::PixelRatio)[0] != field_name(LevelField::TileHeight)[0]);
    assert(field_name(LevelField::TileHeight)[5] != field_name(LevelField::TileWidth)[5]);
    assert(field_name(LevelField::XTiles)[0] != field_name(LevelField::YTiles)[0]);
    assert(field_name(LevelField::Format).len() != field_name(LevelField::PixelRatio).len());
    assert(field_name(LevelField::Format).len() != field_name(LevelField::TileHeight).len());
    assert(field_name(LevelField::Format).len() != field_name(LevelField::TileWidth).len());
    assert(field_name(LevelField::Format).len() != field_name(LevelField::XTiles).len());
    assert(field_name(LevelField::Format).len() != field_name(LevelField::YTiles).len());
    assert(field_name(LevelField::PixelRatio).len() != field_name(LevelField::TileWidth).len());
    assert(field_name(LevelField::PixelRatio).len() != field_name(LevelField::XTiles).len());
    assert(field_name(LevelField::PixelRatio).len() != field_name(LevelField::YTiles).len());
    assert(field_name(LevelField::TileHeight).len() != field_name(LevelField::XTiles).len());
    assert(field_name(LevelField::TileHeight).len() != field_name(LevelField::YTiles).len());
    assert(field_name(LevelField::TileWidth).len() != field_name(LevelField::XTiles).len());
    assert(field_name(LevelField::TileWidth).len() != field_name(LevelField::YTiles).len());
}

/// A level's record reads back as that level.
pub proof fn lemma_level_round_trip(l: ImageLevelModel)
    ensures
        level_of_value(ValueModel::Object(level_record(l))) == Ok::<ImageLevelModel, LevelFault>(l),
{
    lemma_field_names();
    lemma_u32_text_round_trip(l.pixel_ratio as u32);
    lemma_u32_text_round_trip(l.tile_height);
    lemma_u32_text_round_trip(l.tile_width);
    let f = level_record(l);
    assert(f.take(0) =~= Seq::<(Seq<char>, ScalarModel)>::empty());
    assert(f.take(1).drop_last() =~= f.take(0));
    assert(f.take(2).drop_last() =~= f.take(1));
    assert(f.take(3).drop_last() =~= f.take(2));
    assert(f.take(4).drop_last() =~= f.take(3));
    assert(f.take(5).drop_last() =~= f.take(4));
    assert(f.take(6).drop_last() =~= f.take(5));
    assert(f.take(6) =~= f);
    assert(read_fields(f.take(0)) == Ok::<PartialLevel, LevelFault>(no_fields()));
    let p1 = PartialLevel { format: Some(l.format), ..no_fields() };
    assert(f.take(1).last() == f[0]);
    assert(read_fields(f.take(1)) == Ok::<PartialLevel, LevelFault>(p1));
    let p2 = PartialLevel { pixel_ratio: Some(l.pixel_ratio), ..p1 };
    assert(f.take(2).last() == f[1]);
    assert(read_fields(f.take(2)) == Ok::<PartialLevel, LevelFault>(p2));
    let p3 = PartialLevel { tile_height: Some(l.tile_height), ..p2 };
    assert(f.take(3).last() == f[2]);
    assert(read_fields(f.take(3)) == Ok::<PartialLevel, LevelFault>(p3));
    let p4 = PartialLevel { tile_width: Some(l.tile_width), ..p3 };
    assert(f.take(4).last() == f[3]);
    assert(read_fields(f.take(4)) == Ok::<PartialLevel, LevelFault>(p4));
    let p5 = PartialLevel { x_tiles: Some(l.x_tiles), ..p4 };
    assert(f.take(5).last() == f[4]);
    assert(read_fields(f.take(5)) == Ok::<PartialLevel, LevelFault>(p5));
    let p6 = PartialLevel { y_tiles: Some(l.y_tiles), ..p5 };
    assert(f.take(6).last() == f[5]);
    assert(read_fields(f.take(6)) == Ok::<PartialLevel, LevelFault>(p6));
}

proof fn lemma_index_key_not_base_key(k: u32)
    ensures
        decimal_text(k as nat) != base_key_name(),
{
    reveal_strlit("base_key");
    lemma_decimal_text_digits(k as nat);
    assert(crate::text::is_digit(decimal_text(k as nat)[0]));
    assert(base_key_name()[0] == 'b');
}

proof fn lemma_levels_prefix(m: LevelsModel, n: int)
    requires
        sorted_levels(m.levels),
        0 <= n <= m.levels.len(),
    ensures
        levels_of_members(m.levels.map_values(|e: (u32, ImageLevelModel)| level_member(e)).take(n))
            == Ok::<LevelsModel, LevelsErrorModel>(LevelsModel { levels: m.levels.take(n), base_key: None }),
    decreases n,
{
    let lv = m.levels.map_values(|e: (u32, ImageLevelModel)| level_member(e));
    if n == 0 {
        assert(lv.take(0) =~= Seq::<(Seq<char>, ValueModel)>::empty());
        assert(m.levels.take(0) =~= Seq::<(u32, ImageLevelModel)>::empty());
    } else {
        lemma_levels_prefix(m, n - 1);
        let (k, l) = m.levels[n - 1];
        assert(lv.take(n).drop_last() =~= lv.take(n - 1));
        assert(lv.take(n).last() == level_member((k, l)));
        lemma_index_key_not_base_key(k);
        lemma_u32_text_round_trip(k);
        lemma_level_round_trip(l);
        let s = m.levels.take(n - 1);
        assert(sorted_levels(s));
        lemma_insert_level_at(s, k, l, n - 1);
        assert(s.insert(n - 1, (k, l)) =~= m.levels.take(n));
    }
}

/// Decoding what `encode` writes gives back the same levels: for levels kept
/// sorted by index, `decode(encode(v)) == v`, whatever the tile counts hold,
/// a count that is not a number included.
pub proof fn lemma_levels_round_trip(m: LevelsModel)
    requires
        sorted_levels(m.levels),
    ensures
        levels_of_members(levels_members(m)) == Ok::<LevelsModel, LevelsErrorModel>(m),
{
    let lv = m.levels.map_values(|e: (u32, ImageLevelModel)| level_member(e));
    let n = m.levels.len() as int;
    lemma_levels_prefix(m, n);
    assert(lv.take(n) =~= lv);
    assert(m.levels.take(n) =~= m.levels);
    match m.base_key {
        Some(b) => {
            let all = lv.push((base_key_name(), ValueModel::Scalar(ScalarModel::Text(b))));
            assert(all.drop_last() =~= lv);
        },
        None => {},
    }
}

/// A member whose key is neither `base_key` nor a level index makes decoding
/// fail; when the members before it decode, the error names that key.
pub proof fn lemma_invalid_key_rejected(ms: Seq<(Seq<char>, ValueModel)>, i: int)
    requires
        0 <= i < ms.len(),
        ms[i].0 != base_key_name(),
        u32_of_text(ms[i].0) is None,
    ensures
        levels_of_members(ms) is Err,
        levels_of_members(ms.take(i)) is Ok ==> levels_of_members(ms)
            == Err::<LevelsModel, LevelsErrorModel>(LevelsErrorModel::InvalidKey(ms[i].0)),
{
    assert(ms.take(i + 1).drop_last() =~= ms.take(i));
    assert(ms.take(i + 1).last() == ms[i]);
    if levels_of_members(ms.take(i)) is Err {
        lemma_members_fault(ms, i);
    } else {
        lemma_members_fault(ms, i + 1);
    }
}

} // verus!

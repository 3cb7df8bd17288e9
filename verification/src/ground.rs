//! The ground: land cover classes, the height of the terrain, and the
//! square chunks in which the terrain around the moving origin is laid out.
use crate::fixed::{
    clamp, clamp_to_i64, fx_add, fx_min, fx_sub, magnitude, min2, sat, trunc_div,
};
use crate::geogrid::{
    clamp_axis, find, holds_one_per_point, lemma_point_in_bounds, locate_nearest, sample,
    sample_nearest, GeoGrid, LookupError,
};
use crate::util::{get_lat, get_lon, spec_lat, spec_lon};
use crate::world::GlobalPosition;
use vstd::prelude::*;

verus! {

/// Side of a chunk of terrain, in metres.
pub const GRID_SIZE: i64 = 5_000_000_000;

/// Distance up to which terrain is laid out, in metres.
pub const MAX_VISION: i64 = 40_000_000_000;

/// The axes of the terrain grid.
pub type GroundMeta = GeoGrid;

/// The classes of land cover of the CORINE inventory.
#[derive(Clone, Copy, Debug, PartialEq, Eq, Structural)]
pub enum LandCover {
    ContinuousUrbanFabric,
    DiscontinuousUrbanFabric,
    IndustrialOrCommercialUnits,
    RoadAndRailNetworksAndAssociatedLand,
    PortAreas,
    Airports,
    MineralExtractionSites,
    DumpSites,
    ConstructionSites,
    GreenUrbanAreas,
    SportAndLeisureFacilities,
    NonIrrigatedArableLand,
    PermanentlyIrrigatedLand,
    RiceFields,
    Vineyards,
    FruitTreesAndBerryPlantations,
    OliveGroves,
    Pastures,
    AnnualCropsAssociatedWithPermanentCrops,
    ComplexCultivationPatterns,
    LandPrincipallyOccupiedByAgricultureWithSignificantAreasOfNaturalVegetation,
    AgroForestryAreas,
    BroadLeavedForest,
    ConiferousForest,
    MixedForest,
    NaturalGrasslands,
    MoorsAndHeathland,
    SclerophyllousVegetation,
    TransitionalWoodlandShrub,
    BeachesDunesSands,
    BareRocks,
    SparselyVegetatedAreas,
    BurntAreas,
    GlaciersAndPerpetualSnow,
    InlandMarshes,
    PeatBogs,
    SaltMarshes,
    Salines,
    IntertidalFlats,
    WaterCourses,
    WaterBodies,
    CoastalLagoons,
    Estuaries,
    SeaAndOcean,
    Nodata,
    UnclassifiedLandSurface,
    UnclassifiedWaterBodies,
}

/// Height of the terrain above sea level, in metres, one value per grid
/// point.
#[derive(Debug)]
pub struct HeightData(pub Vec<i64>);

/// Land cover, one class per grid point.
#[derive(Debug)]
pub struct LandCoverData(pub Vec<LandCover>);

/// A chunk of terrain, by its column and row in the layout of chunks.
#[derive(Clone, Copy, Debug, Default, PartialEq, Eq, Structural)]
pub struct GroundChunk(pub i32, pub i32);

/// The columns and rows of the chunks to lay out, both ends included.
#[derive(Clone, Copy, Debug, PartialEq, Eq, Structural)]
pub struct ChunkWindow {
    pub min_x: i32,
    pub max_x: i32,
    pub min_y: i32,
    pub max_y: i32,
}

/// What stands at the four corners of a chunk: the heights of the terrain,
/// the lowest of them, and the land cover. The corners come in the order
/// `(x, y)`, `(x + 1, y)`, `(x, y + 1)`, `(x + 1, y + 1)`.
#[derive(Clone, Copy, Debug, PartialEq, Eq)]
pub struct ChunkCorners {
    pub heights: [i64; 4],
    pub min_height: i64,
    pub land_use: [LandCover; 4],
}

impl LandCover {
    /// The code of the class in the inventory.
    pub open spec fn spec_code(self) -> u16 {
        match self {
            LandCover::ContinuousUrbanFabric => 111,
            LandCover::DiscontinuousUrbanFabric => 112,
            LandCover::IndustrialOrCommercialUnits => 121,
            LandCover::RoadAndRailNetworksAndAssociatedLand => 122,
            LandCover::PortAreas => 123,
            LandCover::Airports => 124,
            LandCover::MineralExtractionSites => 131,
            LandCover::DumpSites => 132,
            LandCover::ConstructionSites => 133,
            LandCover::GreenUrbanAreas => 141,
            LandCover::SportAndLeisureFacilities => 142,
            LandCover::NonIrrigatedArableLand => 211,
            LandCover::PermanentlyIrrigatedLand => 212,
            LandCover::RiceFields => 213,
            LandCover::Vineyards => 221,
            LandCover::FruitTreesAndBerryPlantations => 222,
            LandCover::OliveGroves => 223,
            LandCover::Pastures => 231,
            LandCover::AnnualCropsAssociatedWithPermanentCrops => 241,
            LandCover::ComplexCultivationPatterns => 242,
            LandCover::LandPrincipallyOccupiedByAgricultureWithSignificantAreasOfNaturalVegetation => 243,
            LandCover::AgroForestryAreas => 244,
            LandCover::BroadLeavedForest => 311,
            LandCover::ConiferousForest => 312,
            LandCover::MixedForest => 313,
            LandCover::NaturalGrasslands => 321,
            LandCover::MoorsAndHeathland => 322,
            LandCover::SclerophyllousVegetation => 323,
            LandCover::TransitionalWoodlandShrub => 324,
            LandCover::BeachesDunesSands => 331,
            LandCover::BareRocks => 332,
            LandCover::SparselyVegetatedAreas => 333,
            LandCover::BurntAreas => 334,
            LandCover::GlaciersAndPerpetualSnow => 335,
            LandCover::InlandMarshes => 411,
            LandCover::PeatBogs => 412,
            LandCover::SaltMarshes => 421,
            LandCover::Salines => 422,
            LandCover::IntertidalFlats => 423,
            LandCover::WaterCourses => 511,
            LandCover::WaterBodies => 512,
            LandCover::CoastalLagoons => 521,
            LandCover::Estuaries => 522,
            LandCover::SeaAndOcean => 523,
            LandCover::Nodata => 999,
            LandCover::UnclassifiedLandSurface => 990,
            LandCover::UnclassifiedWaterBodies => 995,
        }
    }

    /// The class with the given code, if there is one.
    pub open spec fn spec_from_code(code: u16) -> Option<LandCover> {
        match code {
            111 => Some(LandCover::ContinuousUrbanFabric),
            112 => Some(LandCover::DiscontinuousUrbanFabric),
            121 => Some(LandCover::IndustrialOrCommercialUnits),
            122 => Some(LandCover::RoadAndRailNetworksAndAssociatedLand),
            123 => Some(LandCover::PortAreas),
            124 => Some(LandCover::Airports),
            131 => Some(LandCover::MineralExtractionSites),
            132 => Some(LandCover::DumpSites),
            133 => Some(LandCover::ConstructionSites),
            141 => Some(LandCover::GreenUrbanAreas),
            142 => Some(LandCover::SportAndLeisureFacilities),
            211 => Some(LandCover::NonIrrigatedArableLand),
            212 => Some(LandCover::PermanentlyIrrigatedLand),
            213 => Some(LandCover::RiceFields),
            221 => Some(LandCover::Vineyards),
            222 => Some(LandCover::FruitTreesAndBerryPlantations),
            223 => Some(LandCover::OliveGroves),
            231 => Some(LandCover::Pastures),
            241 => Some(LandCover::AnnualCropsAssociatedWithPermanentCrops),
            242 => Some(LandCover::ComplexCultivationPatterns),
            243 => Some(LandCover::LandPrincipallyOccupiedByAgricultureWithSignificantAreasOfNaturalVegetation),
            244 => Some(LandCover::AgroForestryAreas),
            311 => Some(LandCover::BroadLeavedForest),
            312 => Some(LandCover::ConiferousForest),
            313 => Some(LandCover::MixedForest),
            321 => Some(LandCover::NaturalGrasslands),
            322 => Some(LandCover::MoorsAndHeathland),
            323 => Some(LandCover::SclerophyllousVegetation),
            324 => Some(LandCover::TransitionalWoodlandShrub),
            331 => Some(LandCover::BeachesDunesSands),
            332 => Some(LandCover::BareRocks),
            333 => Some(LandCover::SparselyVegetatedAreas),
            334 => Some(LandCover::BurntAreas),
            335 => Some(LandCover::GlaciersAndPerpetualSnow),
            411 => Some(LandCover::InlandMarshes),
            412 => Some(LandCover::PeatBogs),
            421 => Some(LandCover::SaltMarshes),
            422 => Some(LandCover::Salines),
            423 => Some(LandCover::IntertidalFlats),
            511 => Some(LandCover::WaterCourses),
            512 => Some(LandCover::WaterBodies),
            521 => Some(LandCover::CoastalLagoons),
            522 => Some(LandCover::Estuaries),
            523 => Some(LandCover::SeaAndOcean),
            999 => Some(LandCover::Nodata),
            990 => Some(LandCover::UnclassifiedLandSurface),
            995 => Some(LandCover::UnclassifiedWaterBodies),
            _ => None,
        }
    }

    pub fn code(&self) -> (r: u16)
        ensures
            r == self.spec_code(),
    {
        match self {
            LandCover::ContinuousUrbanFabric => 111,
            LandCover::DiscontinuousUrbanFabric => 112,
            LandCover::IndustrialOrCommercialUnits => 121,
            LandCover::RoadAndRailNetworksAndAssociatedLand => 122,
            LandCover::PortAreas => 123,
            LandCover::Airports => 124,
            LandCover::MineralExtractionSites => 131,
            LandCover::DumpSites => 132,
            LandCover::ConstructionSites => 133,
            LandCover::GreenUrbanAreas => 141,
            LandCover::SportAndLeisureFacilities => 142,
            LandCover::NonIrrigatedArableLand => 211,
            LandCover::PermanentlyIrrigatedLand => 212,
            LandCover::RiceFields => 213,
            LandCover::Vineyards => 221,
            LandCover::FruitTreesAndBerryPlantations => 222,
            LandCover::OliveGroves => 223,
            LandCover::Pastures => 231,
            LandCover::AnnualCropsAssociatedWithPermanentCrops => 241,
            LandCover::ComplexCultivationPatterns => 242,
            LandCover::LandPrincipallyOccupiedByAgricultureWithSignificantAreasOfNaturalVegetation => 243,
            LandCover::AgroForestryAreas => 244,
            LandCover::BroadLeavedForest => 311,
            LandCover::ConiferousForest => 312,
            LandCover::MixedForest => 313,
            LandCover::NaturalGrasslands => 321,
            LandCover::MoorsAndHeathland => 322,
            LandCover::SclerophyllousVegetation => 323,
            LandCover::TransitionalWoodlandShrub => 324,
            LandCover::BeachesDunesSands => 331,
            LandCover::BareRocks => 332,
            LandCover::SparselyVegetatedAreas => 333,
            LandCover::BurntAreas => 334,
            LandCover::GlaciersAndPerpetualSnow => 335,
            LandCover::InlandMarshes => 411,
            LandCover::PeatBogs => 412,
            LandCover::SaltMarshes => 421,
            LandCover::Salines => 422,
            LandCover::IntertidalFlats => 423,
            LandCover::WaterCourses => 511,
            LandCover::WaterBodies => 512,
            LandCover::CoastalLagoons => 521,
            LandCover::Estuaries => 522,
            LandCover::SeaAndOcean => 523,
            LandCover::Nodata => 999,
            LandCover::UnclassifiedLandSurface => 990,
            LandCover::UnclassifiedWaterBodies => 995,
        }
    }

    pub fn from_code(code: u16) -> (r: Option<LandCover>)
        ensures
            r == LandCover::spec_from_code(code),
    {
        match code {
            111 => Some(LandCover::ContinuousUrbanFabric),
            112 => Some(LandCover::DiscontinuousUrbanFabric),
            121 => Some(LandCover::IndustrialOrCommercialUnits),
            122 => Some(LandCover::RoadAndRailNetworksAndAssociatedLand),
            123 => Some(LandCover::PortAreas),
            124 => Some(LandCover::Airports),
            131 => Some(LandCover::MineralExtractionSites),
            132 => Some(LandCover::DumpSites),
            133 => Some(LandCover::ConstructionSites),
            141 => Some(LandCover::GreenUrbanAreas),
            142 => Some(LandCover::SportAndLeisureFacilities),
            211 => Some(LandCover::NonIrrigatedArableLand),
            212 => Some(LandCover::PermanentlyIrrigatedLand),
            213 => Some(LandCover::RiceFields),
            221 => Some(LandCover::Vineyards),
            222 => Some(LandCover::FruitTreesAndBerryPlantations),
            223 => Some(LandCover::OliveGroves),
            231 => Some(LandCover::Pastures),
            241 => Some(LandCover::AnnualCropsAssociatedWithPermanentCrops),
            242 => Some(LandCover::ComplexCultivationPatterns),
            243 => Some(LandCover::LandPrincipallyOccupiedByAgricultureWithSignificantAreasOfNaturalVegetation),
            244 => Some(LandCover::AgroForestryAreas),
            311 => Some(LandCover::BroadLeavedForest),
            312 => Some(LandCover::ConiferousForest),
            313 => Some(LandCover::MixedForest),
            321 => Some(LandCover::NaturalGrasslands),
            322 => Some(LandCover::MoorsAndHeathland),
            323 => Some(LandCover::SclerophyllousVegetation),
            324 => Some(LandCover::TransitionalWoodlandShrub),
            331 => Some(LandCover::BeachesDunesSands),
            332 => Some(LandCover::BareRocks),
            333 => Some(LandCover::SparselyVegetatedAreas),
            334 => Some(LandCover::BurntAreas),
            335 => Some(LandCover::GlaciersAndPerpetualSnow),
            411 => Some(LandCover::InlandMarshes),
            412 => Some(LandCover::PeatBogs),
            421 => Some(LandCover::SaltMarshes),
            422 => Some(LandCover::Salines),
            423 => Some(LandCover::IntertidalFlats),
            511 => Some(LandCover::WaterCourses),
            512 => Some(LandCover::WaterBodies),
            521 => Some(LandCover::CoastalLagoons),
            522 => Some(LandCover::Estuaries),
            523 => Some(LandCover::SeaAndOcean),
            999 => Some(LandCover::Nodata),
            990 => Some(LandCover::UnclassifiedLandSurface),
            995 => Some(LandCover::UnclassifiedWaterBodies),
            _ => None,
        }
    }
}

/// Every class is found again by its code, and a code that names a class is
/// the code of that class.
pub proof fn law_land_cover_codes(class: LandCover, code: u16)
    ensures
        LandCover::spec_from_code(class.spec_code()) == Some(class),
        LandCover::spec_from_code(code) matches Some(c) ==> c.spec_code() == code,
{
}

/// `pos / grid_size`, rounded to the nearest whole number, a half away from
/// zero.
pub open spec fn nearest_multiple(pos: int, grid_size: int) -> int {
    let q = trunc_div(pos, grid_size);
    let r = pos - q * grid_size;
    if 2 * magnitude(r) >= magnitude(grid_size) {
        if (pos >= 0) == (grid_size > 0) {
            q + 1
        } else {
            q - 1
        }
    } else {
        q
    }
}

/// `pos` rounded to the nearest multiple of `grid_size`.
pub open spec fn spec_round_to_nearest_grid_coord(pos: int, grid_size: int) -> int {
    sat(nearest_multiple(pos, grid_size) * grid_size)
}

/// Clamps a mathematical integer into the range of 32 bits.
pub open spec fn sat32(x: int) -> int {
    clamp(x, i32::MIN as int, i32::MAX as int)
}

/// The column or row of the chunk nearest to the world coordinate `pos`.
pub open spec fn chunk_coord(pos: int) -> int {
    sat32(nearest_multiple(pos, GRID_SIZE as int))
}

/// The chunks to lay out around `center`: those whose column and row lie
/// within the distance of vision.
pub open spec fn spec_chunk_window(center: GlobalPosition) -> ChunkWindow {
    ChunkWindow {
        min_x: chunk_coord(sat(center.x - MAX_VISION)) as i32,
        max_x: chunk_coord(sat(center.x + MAX_VISION)) as i32,
        min_y: chunk_coord(sat(center.z - MAX_VISION)) as i32,
        max_y: chunk_coord(sat(center.z + MAX_VISION)) as i32,
    }
}

impl ChunkWindow {
    /// The chunk lies in the window.
    pub open spec fn spec_contains(self, chunk: GroundChunk) -> bool {
        self.min_x <= chunk.0 <= self.max_x && self.min_y <= chunk.1 <= self.max_y
    }

    /// The chunk lies in the window and not on its rim.
    pub open spec fn spec_contains_inside(self, chunk: GroundChunk) -> bool {
        self.min_x < chunk.0 < self.max_x && self.min_y < chunk.1 < self.max_y
    }

    pub fn contains(&self, chunk: &GroundChunk) -> (r: bool)
        ensures
            r == self.spec_contains(*chunk),
    {
        self.min_x <= chunk.0 && chunk.0 <= self.max_x && self.min_y <= chunk.1 && chunk.1
            <= self.max_y
    }

    pub fn contains_inside(&self, chunk: &GroundChunk) -> (r: bool)
        ensures
            r == self.spec_contains_inside(*chunk),
    {
        self.min_x < chunk.0 && chunk.0 < self.max_x && self.min_y < chunk.1 && chunk.1 < self.max_y
    }
}

impl GroundChunk {
    /// The world coordinates of the chunk's first corner.
    pub open spec fn spec_origin(self) -> (int, int) {
        (sat(self.0 * GRID_SIZE), sat(self.1 * GRID_SIZE))
    }

    /// The world coordinates of the chunk's first corner.
    pub fn origin(&self) -> (r: (i64, i64))
        ensures
            (r.0 as int, r.1 as int) == self.spec_origin(),
    {
        (
            clamp_to_i64(self.0 as i128 * 5_000_000_000),
            clamp_to_i64(self.1 as i128 * 5_000_000_000),
        )
    }
}

/// Computes [`nearest_multiple`].
pub fn nearest_multiple_of(pos: i64, grid_size: i64) -> (r: i128)
    requires
        grid_size != 0,
    ensures
        r == nearest_multiple(pos as int, grid_size as int),
        -0x8000_0000_0000_0001 <= r <= 0x8000_0000_0000_0001,
{
    let p: i128 = pos as i128;
    let g: i128 = grid_size as i128;
    let mp: i128 = if p < 0 {
        -p
    } else {
        p
    };
    let mg: i128 = if g < 0 {
        -g
    } else {
        g
    };
    let mq: i128 = mp / mg;
    let mr: i128 = mp % mg;
    assert(0 <= mq <= mp && mp == mq * mg + mr && 0 <= mr < mg) by (nonlinear_arith)
        requires
            mq == mp / mg,
            mr == mp % mg,
            mp >= 0,
            mg >= 1,
    ;
    let same: bool = (p >= 0) == (g > 0);
    let q: i128 = if same {
        mq
    } else {
        -mq
    };
    proof {
        let gq: int = q as int;
        let gg: int = g as int;
        let gmq: int = mq as int;
        let gmg: int = mg as int;
        assert(gmq * gmg == gq * gg || gmq * gmg == -(gq * gg)) by (nonlinear_arith)
            requires
                gq == gmq || gq == -gmq,
                gg == gmg || gg == -gmg,
        ;
        assert(p >= 0 ==> gq * gg >= 0) by (nonlinear_arith)
            requires
                p >= 0 ==> ((gq >= 0 && gg > 0) || (gq <= 0 && gg < 0)),
        ;
        assert(p < 0 ==> gq * gg <= 0) by (nonlinear_arith)
            requires
                p < 0 ==> ((gq >= 0 && gg < 0) || (gq <= 0 && gg > 0)),
        ;
        assert(gmq * gmg >= 0) by (nonlinear_arith)
            requires
                gmq >= 0,
                gmg >= 0,
        ;
    }
    if 2 * mr >= mg {
        if same {
            q + 1
        } else {
            q - 1
        }
    } else {
        q
    }
}

/// Rounds `pos` to the nearest multiple of `grid_size`.
pub fn round_to_nearest_grid_coord(pos: i64, grid_size: i64) -> (r: i64)
    requires
        grid_size != 0,
    ensures
        r == spec_round_to_nearest_grid_coord(pos as int, grid_size as int),
{
    let n: i128 = nearest_multiple_of(pos, grid_size);
    let g: i128 = grid_size as i128;
    assert(-0x8000_0000_0000_0001 * 0x8000_0000_0000_0000 <= n * g <= 0x8000_0000_0000_0001
        * 0x8000_0000_0000_0000) by (nonlinear_arith)
        requires
            -0x8000_0000_0000_0001 <= n <= 0x8000_0000_0000_0001,
            -0x8000_0000_0000_0000 <= g <= 0x8000_0000_0000_0000,
    ;
    let w: i128 = n * g;
    if w < i64::MIN as i128 {
        i64::MIN
    } else if w > i64::MAX as i128 {
        i64::MAX
    } else {
        w as i64
    }
}

/// The column or row of the chunk nearest to the world coordinate `pos`.
pub fn chunk_coord_of(pos: i64) -> (r: i32)
    ensures
        r == chunk_coord(pos as int),
{
    let n: i128 = nearest_multiple_of(pos, GRID_SIZE);
    if n < i32::MIN as i128 {
        i32::MIN
    } else if n > i32::MAX as i128 {
        i32::MAX
    } else {
        n as i32
    }
}

/// The chunks to lay out around `center`.
pub fn chunk_window(center: &GlobalPosition) -> (r: ChunkWindow)
    ensures
        r == spec_chunk_window(*center),
{
    ChunkWindow {
        min_x: chunk_coord_of(fx_sub(center.x, MAX_VISION)),
        max_x: chunk_coord_of(fx_add(center.x, MAX_VISION)),
        min_y: chunk_coord_of(fx_sub(center.z, MAX_VISION)),
        max_y: chunk_coord_of(fx_add(center.z, MAX_VISION)),
    }
}

/// What to do about the chunks that are laid out, for a window.
#[derive(Debug, PartialEq, Eq)]
pub struct GroundPlan {
    /// The indices of the chunks that may be laid out anew: those on the
    /// rim of the window or outside it, in rising order.
    pub free: Vec<usize>,
    /// The chunks of the window that are not laid out, column by column and
    /// row by row.
    pub missing: Vec<GroundChunk>,
}

/// `a` comes before `b` where chunks are counted column by column and, in a
/// column, row by row.
pub open spec fn chunk_before(a: GroundChunk, b: GroundChunk) -> bool {
    a.0 < b.0 || (a.0 == b.0 && a.1 < b.1)
}

/// The plan for `chunks` and `window` is `plan`.
pub open spec fn is_ground_plan(plan: GroundPlan, window: ChunkWindow, chunks: Seq<GroundChunk>) -> bool {
    &&& forall|i: int, j: int| 0 <= i < j < plan.free@.len() ==> plan.free@[i] < plan.free@[j]
    &&& forall|k: int|
        0 <= k < chunks.len() ==> (plan.free@.contains(k as usize) <==> !window.spec_contains_inside(
            #[trigger] chunks[k],
        ))
    &&& forall|i: int| 0 <= i < plan.free@.len() ==> (#[trigger] plan.free@[i]) < chunks.len()
    &&& forall|i: int, j: int|
        0 <= i < j < plan.missing@.len() ==> chunk_before(plan.missing@[i], plan.missing@[j])
    &&& forall|c: GroundChunk|
        #[trigger] plan.missing@.contains(c) <==> window.spec_contains(c) && !chunks.contains(c)
}

/// Tells whether `chunk` is among `chunks`.
pub fn chunk_is_among(chunks: &Vec<GroundChunk>, chunk: &GroundChunk) -> (r: bool)
    ensures
        r == chunks@.contains(*chunk),
{
    let n: usize = chunks.len();
    let mut k: usize = 0;
    while k < n
        invariant
            0 <= k <= n,
            n == chunks.len(),
            forall|i: int| 0 <= i < k ==> chunks[i] != *chunk,
        decreases n - k,
    {
        if chunks[k].0 == chunk.0 && chunks[k].1 == chunk.1 {
            assert(chunks@[k as int] == *chunk);
            return true;
        }
        k = k + 1;
    }
    false
}

/// Finds the chunks that may be laid out anew.
pub fn free_chunks(window: &ChunkWindow, chunks: &Vec<GroundChunk>) -> (free: Vec<usize>)
    ensures
        forall|i: int, j: int| 0 <= i < j < free@.len() ==> free@[i] < free@[j],
        forall|k: int|
            0 <= k < chunks.len() ==> (free@.contains(k as usize) <==> !window.spec_contains_inside(
                #[trigger] chunks[k],
            )),
        forall|i: int| 0 <= i < free@.len() ==> (#[trigger] free@[i]) < chunks.len(),
{
    let n: usize = chunks.len();
    let mut free: Vec<usize> = Vec::new();
    let mut k: usize = 0;
    while k < n
        invariant
            0 <= k <= n,
            n == chunks.len(),
            forall|i: int, j: int| 0 <= i < j < free@.len() ==> free@[i] < free@[j],
            forall|i: int| 0 <= i < free@.len() ==> (#[trigger] free@[i]) < k,
            forall|m: int|
                0 <= m < k ==> (free@.contains(m as usize) <==> !window.spec_contains_inside(
                    #[trigger] chunks[m],
                )),
        decreases n - k,
    {
        let ghost before = free@;
        if !window.contains_inside(&chunks[k]) {
            free.push(k);
            assert(free@[before.len() as int] == k);
            assert forall|m: int| 0 <= m < k + 1 implies (free@.contains(m as usize)
                <==> !window.spec_contains_inside(#[trigger] chunks[m])) by {
                if m < k {
                    if before.contains(m as usize) {
                        let i = choose|i: int| 0 <= i < before.len() && before[i] == m as usize;
                        assert(free@[i] == m as usize);
                    }
                    if free@.contains(m as usize) {
                        let i = choose|i: int| 0 <= i < free@.len() && free@[i] == m as usize;
                        assert(i < before.len());
                        assert(before[i] == m as usize);
                    }
                }
            }
        } else {
            assert forall|m: int| 0 <= m < k + 1 implies (free@.contains(m as usize)
                <==> !window.spec_contains_inside(#[trigger] chunks[m])) by {
                if m == k && free@.contains(m as usize) {
                    let i = choose|i: int| 0 <= i < free@.len() && free@[i] == m as usize;
                    assert(free@[i] < k);
                }
            }
        }
        k = k + 1;
    }
    free
}

/// Finds the chunks of the window that are not laid out.
pub fn missing_chunks(window: &ChunkWindow, chunks: &Vec<GroundChunk>) -> (missing: Vec<GroundChunk>)
    ensures
        forall|i: int, j: int| 0 <= i < j < missing@.len() ==> chunk_before(missing@[i], missing@[j]),
        forall|c: GroundChunk|
            #[trigger] missing@.contains(c) <==> window.spec_contains(c) && !chunks@.contains(c),
{
    let mut missing: Vec<GroundChunk> = Vec::new();
    if window.min_x > window.max_x || window.min_y > window.max_y {
        assert forall|c: GroundChunk| #[trigger] missing@.contains(c) implies false by {}
        return missing;
    }
    let mut x: i64 = window.min_x as i64;
    while x <= window.max_x as i64
        invariant
            window.min_y <= window.max_y,
            window.min_x <= window.max_x,
            window.min_x <= x <= window.max_x + 1,
            forall|i: int, j: int| 0 <= i < j < missing@.len() ==> chunk_before(missing@[i], missing@[j]),
            forall|c: GroundChunk|
                #[trigger] missing@.contains(c) <==> window.spec_contains(c) && !chunks@.contains(c)
                    && c.0 < x,
        decreases window.max_x + 1 - x,
    {
        let mut y: i64 = window.min_y as i64;
        while y <= window.max_y as i64
            invariant
                window.min_x <= x <= window.max_x,
                window.min_y <= y <= window.max_y + 1,
                forall|i: int, j: int|
                    0 <= i < j < missing@.len() ==> chunk_before(missing@[i], missing@[j]),
                forall|c: GroundChunk|
                    #[trigger] missing@.contains(c) <==> window.spec_contains(c) && !chunks@.contains(c)
                        && (c.0 < x || (c.0 == x && c.1 < y)),
            decreases window.max_y + 1 - y,
        {
            let wanted = GroundChunk(x as i32, y as i32);
            let ghost before = missing@;
            if !chunk_is_among(chunks, &wanted) {
                missing.push(wanted);
                assert(missing@[before.len() as int] == wanted);
                assert forall|i: int, j: int| 0 <= i < j < missing@.len() implies chunk_before(
                    missing@[i],
                    missing@[j],
                ) by {
                    if j == before.len() {
                        assert(before.contains(before[i]));
                    }
                }
                assert forall|c: GroundChunk| #[trigger]
                    missing@.contains(c) <==> window.spec_contains(c) && !chunks@.contains(c) && (c.0 < x
                        || (c.0 == x && c.1 < y + 1)) by {
                    if before.contains(c) {
                        let i = choose|i: int| 0 <= i < before.len() && before[i] == c;
                        assert(missing@[i] == c);
                    }
                    if missing@.contains(c) {
                        let i = choose|i: int| 0 <= i < missing@.len() && missing@[i] == c;
                        if i < before.len() {
                            assert(before[i] == c);
                        }
                    }
                }
            } else {
                assert forall|c: GroundChunk| #[trigger]
                    missing@.contains(c) <==> window.spec_contains(c) && !chunks@.contains(c) && (c.0 < x
                        || (c.0 == x && c.1 < y + 1)) by {}
            }
            y = y + 1;
        }
        x = x + 1;
    }
    missing
}

/// Plans the layout of the terrain for a window: which of the chunks that
/// are laid out may be laid out anew, and which chunks of the window are
/// still to be laid out.
pub fn plan_ground(window: &ChunkWindow, chunks: &Vec<GroundChunk>) -> (plan: GroundPlan)
    ensures
        is_ground_plan(plan, *window, chunks@),
{
    GroundPlan { free: free_chunks(window, chunks), missing: missing_chunks(window, chunks) }
}

/// Looks up the land cover at the grid point nearest to `(lat, lon)`, each
/// axis taken by itself. The class is returned as stored: nothing is
/// interpolated. Fails when an axis is empty or when `data` does not hold
/// one class per grid point.
pub fn find_nearest_land_cover(lat: i64, lon: i64, meta: &GroundMeta, data: &Vec<LandCover>) -> (r: Result<
    LandCover,
    LookupError,
>)
    requires
        meta.wf(),
    ensures
        r == sample_nearest(lat as int, lon as int, meta.lats@, meta.lons@, data@),
{
    let n_lat: usize = meta.lats.len();
    let n_lon: usize = meta.lons.len();
    if n_lat < 1 || n_lon < 1 {
        return Err(LookupError::InsufficientGrid);
    }
    if !holds_one_per_point(data.len(), n_lat, n_lon) {
        return Err(LookupError::SizeMismatch);
    }
    let clat: i64 = clamp_axis(lat, &meta.lats);
    let clon: i64 = clamp_axis(lon, &meta.lons);
    let i: usize = locate_nearest(&meta.lats, clat);
    let j: usize = locate_nearest(&meta.lons, clon);
    proof {
        lemma_point_in_bounds(i as int, j as int, n_lat as int, n_lon as int);
    }
    Ok(data[i * n_lon + j])
}

/// What stands at the corner of a chunk whose world coordinates are
/// `(x, z)`: the height of the terrain and the land cover.
pub open spec fn corner_at(x: int, z: int, meta: GroundMeta, heights: Seq<i64>, land: Seq<LandCover>) -> Result<
    (i64, LandCover),
    LookupError,
> {
    match (
        sample(spec_lat(x), spec_lon(z), meta.lats@, meta.lons@, heights),
        sample_nearest(spec_lat(x), spec_lon(z), meta.lats@, meta.lons@, land),
    ) {
        (Ok(h), Ok(c)) => Ok((h, c)),
        (Err(e), _) => Err(e),
        (_, Err(e)) => Err(e),
    }
}

/// Samples height and land cover at the world coordinates `(x, z)`.
pub fn sample_corner(x: i64, z: i64, meta: &GroundMeta, heights: &HeightData, land: &LandCoverData) -> (r: Result<
    (i64, LandCover),
    LookupError,
>)
    requires
        meta.wf(),
    ensures
        r == corner_at(x as int, z as int, *meta, heights.0@, land.0@),
{
    let lat: i64 = get_lat(x);
    let lon: i64 = get_lon(z);
    match find(lat, lon, meta, &heights.0) {
        Ok(h) => match find_nearest_land_cover(lat, lon, meta, &land.0) {
            Ok(c) => Ok((h, c)),
            Err(e) => Err(e),
        },
        Err(e) => Err(e),
    }
}

/// Samples what stands at the four corners of a chunk.
///
/// Fails with the first error of the four corners, taken in their order,
/// the height before the land cover.
pub fn chunk_corners(chunk: &GroundChunk, meta: &GroundMeta, heights: &HeightData, land: &LandCoverData) -> (r: Result<
    ChunkCorners,
    LookupError,
>)
    requires
        meta.wf(),
    ensures
        ({
            let (x, z) = chunk.spec_origin();
            let c00 = corner_at(x, z, *meta, heights.0@, land.0@);
            let c10 = corner_at(sat(x + GRID_SIZE), z, *meta, heights.0@, land.0@);
            let c01 = corner_at(x, sat(z + GRID_SIZE), *meta, heights.0@, land.0@);
            let c11 = corner_at(sat(x + GRID_SIZE), sat(z + GRID_SIZE), *meta, heights.0@, land.0@);
            match (c00, c10, c01, c11) {
                (Ok(a), Ok(b), Ok(c), Ok(d)) => r matches Ok(corners) && {
                    &&& corners.heights@ == seq![a.0, b.0, c.0, d.0]
                    &&& corners.land_use@ == seq![a.1, b.1, c.1, d.1]
                    &&& corners.min_height == min2(
                        min2(min2(a.0 as int, c.0 as int), b.0 as int),
                        d.0 as int,
                    )
                },
                (Err(e), _, _, _) => r == Err::<ChunkCorners, LookupError>(e),
                (_, Err(e), _, _) => r == Err::<ChunkCorners, LookupError>(e),
                (_, _, Err(e), _) => r == Err::<ChunkCorners, LookupError>(e),
                (_, _, _, Err(e)) => r == Err::<ChunkCorners, LookupError>(e),
            }
        }),
{
    let (x, z) = chunk.origin();
    let x1: i64 = fx_add(x, GRID_SIZE);
    let z1: i64 = fx_add(z, GRID_SIZE);
    let a = match sample_corner(x, z, meta, heights, land) {
        Ok(v) => v,
        Err(e) => {
            return Err(e);
        },
    };
    let b = match sample_corner(x1, z, meta, heights, land) {
        Ok(v) => v,
        Err(e) => {
            return Err(e);
        },
    };
    let c = match sample_corner(x, z1, meta, heights, land) {
        Ok(v) => v,
        Err(e) => {
            return Err(e);
        },
    };
    let d = match sample_corner(x1, z1, meta, heights, land) {
        Ok(v) => v,
        Err(e) => {
            return Err(e);
        },
    };
    Ok(
        ChunkCorners {
            heights: [a.0, b.0, c.0, d.0],
            min_height: fx_min(fx_min(fx_min(a.0, c.0), b.0), d.0),
            land_use: [a.1, b.1, c.1, d.1],
        },
    )
}

} // verus!

//! The classification engine: a priority-ordered walk of declarative guard
//! rows that maps a (vendor, signature) pair to a microarchitecture entry.
//!
//! Each vendor has its own ordered table of [`Row`]s.  A row matches when all
//! five of its guards accept the corresponding signature fields, and the first
//! fully matching row wins: guards legitimately overlap, so a more specific
//! row must simply be listed before a broader one.  When no row matches, the
//! catch-all `Unknown` entry is returned, so classification is total and
//! panic-free over every representable signature.

use vstd::prelude::*;

verus! {

use crate::bounded::{fitted, hstr32_from_str, hstr64_from_str, str32_chars, str64_chars};
use crate::brand::{CpuBrand, UNK, VENDOR_AMD, VENDOR_CENTAUR, VENDOR_INTEL, spec_resolve};
use crate::cpu::CpuSignature;
use crate::strutil::str_eq;

/// The closed set of microarchitecture lineages the classifier knows.
#[derive(Debug, Clone, Copy, PartialEq, Eq, Structural)]
pub enum MicroArch {
    Unknown,
    // AMD
    Am486,
    Am5x86,
    SSA5,
    K5,
    K6,
    K7,
    K8,
    K10,
    Bobcat,
    Puma2008,
    Bulldozer,
    Piledriver,
    Steamroller,
    Excavator,
    Jaguar,
    Puma2014,
    Zen,
    ZenPlus,
    Zen2,
    Zen3,
    Zen3Plus,
    Zen4,
    Zen4C,
    Zen5,
    Zen5C,
    // Centaur (IDT)
    Winchip,
    Winchip2,
    Winchip2A,
    Winchip2B,
    Winchip3,
    // Centaur (Via)
    Samuel,
    Samuel2,
    Ezra,
    EzraT,
    Nehemiah,
    NehemiahP,
    Esther,
    Isaiah,
    // Centaur (Zhaoxin)
    Wudaokou,
    Lujiazui,
    // Cyrix
    FiveX86,
    M1,
    M2,
    MediaGx,
    Geode,
    // DM&P
    VortexDX3,
    // Intel
    I486,
    P5,
    P5MMX,
    Lakemont,
    P6Pro,
    P6PentiumII,
    P6PentiumIII,
    Dothan,
    Yonah,
    Merom,
    Penryn,
    Nehalem,
    Westmere,
    Bonnel,
    Saltwell,
    Silvermont,
    SandyBridge,
    IvyBridge,
    Haswell,
    Broadwell,
    Airmont,
    KabyLake,
    Skylake,
    CascadeLake,
    KnightsLanding,
    Goldmont,
    PalmCove,
    SunnyCove,
    GoldmontPlus,
    IcyLake,
    Tremont,
    TigerLake,
    WhiskyLake,
    SapphireRapids,
    AlderLake,
    CoffeeLake,
    CometLake,
    RaptorLake,
    KnightsFerry,
    KnightsCorner,
    Willamette,
    Northwood,
    Prescott,
    CedarMill,
    // Rise
    MP6,
    MP6Shrink,
    // Transmeta
    Crusoe,
    Efficeon,
    // UMC
    U5S,
    U5D,
}

impl MicroArch {
    /// The display name that `name` returns.
    pub open spec fn spec_name(self) -> Seq<char> {
        match self {
            MicroArch::Unknown => UNK@,
            MicroArch::Am486 => "Am486"@,
            MicroArch::Am5x86 => "Am5x86"@,
            MicroArch::SSA5 => "SSA5"@,
            MicroArch::K5 => "K5"@,
            MicroArch::K6 => "K6"@,
            MicroArch::K7 => "K7"@,
            MicroArch::K8 => "K8"@,
            MicroArch::K10 => "K10"@,
            MicroArch::Bobcat => "Bobcat"@,
            MicroArch::Puma2008 => "Puma2008"@,
            MicroArch::Bulldozer => "Bulldozer"@,
            MicroArch::Piledriver => "Piledriver"@,
            MicroArch::Steamroller => "Steamroller"@,
            MicroArch::Excavator => "Excavator"@,
            MicroArch::Jaguar => "Jaguar"@,
            MicroArch::Puma2014 => "Puma2014"@,
            MicroArch::Zen => "Zen"@,
            MicroArch::ZenPlus => "Zen+"@,
            MicroArch::Zen2 => "Zen 2"@,
            MicroArch::Zen3 => "Zen 3"@,
            MicroArch::Zen3Plus => "Zen 3P+"@,
            MicroArch::Zen4 => "Zen 4"@,
            MicroArch::Zen4C => "Zen 4C"@,
            MicroArch::Zen5 => "Zen 5"@,
            MicroArch::Zen5C => "Zen 5C"@,
            MicroArch::Winchip => "Winchip"@,
            MicroArch::Winchip2 => "Winchip 2"@,
            MicroArch::Winchip2A => "Winchip 2A"@,
            MicroArch::Winchip2B => "Winchip 2B"@,
            MicroArch::Winchip3 => "Winchip 3"@,
            MicroArch::Samuel => "Samuel"@,
            MicroArch::Samuel2 => "Samuel 2"@,
            MicroArch::Ezra => "Ezra"@,
            MicroArch::EzraT => "EzraT"@,
            MicroArch::Nehemiah => "Nehemiah"@,
            MicroArch::NehemiahP => "Nehemiah P"@,
            MicroArch::Esther => "Esther"@,
            MicroArch::Isaiah => "Isaiah"@,
            MicroArch::Wudaokou => "WuDaoKou"@,
            MicroArch::Lujiazui => "LuJiaZui"@,
            MicroArch::FiveX86 => "5x86"@,
            MicroArch::M1 => "M1"@,
            MicroArch::M2 => "M2"@,
            MicroArch::MediaGx => "MediaGX"@,
            MicroArch::Geode => "Geode"@,
            MicroArch::VortexDX3 => "VortexDX3"@,
            MicroArch::I486 => "I486"@,
            MicroArch::P5 => "P5"@,
            MicroArch::P5MMX => "P5 MMX"@,
            MicroArch::Lakemont => "Lakemont"@,
            MicroArch::P6Pro => "P6"@,
            MicroArch::P6PentiumII => "P6"@,
            MicroArch::P6PentiumIII => "P6"@,
            MicroArch::Dothan => "Dothan"@,
            MicroArch::Yonah => "Yonah"@,
            MicroArch::Merom => "Merom"@,
            MicroArch::Penryn => "Penryn"@,
            MicroArch::Nehalem => "Nehalem"@,
            MicroArch::Westmere => "Westmere"@,
            MicroArch::Bonnel => "Bonnel"@,
            MicroArch::Saltwell => "Saltwell"@,
            MicroArch::Silvermont => "Silvermont"@,
            MicroArch::SandyBridge => "Sandy Bridge"@,
            MicroArch::IvyBridge => "Ivy Bridge"@,
            MicroArch::Haswell => "Haswell"@,
            MicroArch::Broadwell => "Broadwell"@,
            MicroArch::Airmont => "Airmont"@,
            MicroArch::KabyLake => "KabyLake"@,
            MicroArch::Skylake => "Skylake"@,
            MicroArch::CascadeLake => "CascadeLake"@,
            MicroArch::KnightsLanding => "KnightsLanding"@,
            MicroArch::Goldmont => "Goldmont"@,
            MicroArch::PalmCove => "PalmCove"@,
            MicroArch::SunnyCove => "SunnyCove"@,
            MicroArch::GoldmontPlus => "GoldmontPlus"@,
            MicroArch::IcyLake => "IcyLake"@,
            MicroArch::Tremont => "Tremont"@,
            MicroArch::TigerLake => "TigerLake"@,
            MicroArch::WhiskyLake => "WhiskyLake"@,
            MicroArch::SapphireRapids => "SapphireRapids"@,
            MicroArch::AlderLake => "AlderLake"@,
            MicroArch::CoffeeLake => "CoffeeLake"@,
            MicroArch::CometLake => "CometLake"@,
            MicroArch::RaptorLake => "RaptorLake"@,
            MicroArch::KnightsFerry => "KnightsFerry"@,
            MicroArch::KnightsCorner => "KnightsCorner"@,
            MicroArch::Willamette => "Willamette"@,
            MicroArch::Northwood => "Northwood"@,
            MicroArch::Prescott => "Prescott"@,
            MicroArch::CedarMill => "CedarMill"@,
            MicroArch::MP6 => "MP6"@,
            MicroArch::MP6Shrink => "MP6 (die shrink)"@,
            MicroArch::Crusoe => "Crusoe"@,
            MicroArch::Efficeon => "Efficeon"@,
            MicroArch::U5S => "U5S"@,
            MicroArch::U5D => "U5D"@,
        }
    }

    /// The display name of this lineage.  The three generations of one
    /// family of cores all display the family name.
    pub fn name(&self) -> (r: &'static str)
        ensures
            r@ == self.spec_name(),
    {
        match self {
            MicroArch::Unknown => UNK,
            MicroArch::Am486 => "Am486",
            MicroArch::Am5x86 => "Am5x86",
            MicroArch::SSA5 => "SSA5",
            MicroArch::K5 => "K5",
            MicroArch::K6 => "K6",
            MicroArch::K7 => "K7",
            MicroArch::K8 => "K8",
            MicroArch::K10 => "K10",
            MicroArch::Bobcat => "Bobcat",
            MicroArch::Puma2008 => "Puma2008",
            MicroArch::Bulldozer => "Bulldozer",
            MicroArch::Piledriver => "Piledriver",
            MicroArch::Steamroller => "Steamroller",
            MicroArch::Excavator => "Excavator",
            MicroArch::Jaguar => "Jaguar",
            MicroArch::Puma2014 => "Puma2014",
            MicroArch::Zen => "Zen",
            MicroArch::ZenPlus => "Zen+",
            MicroArch::Zen2 => "Zen 2",
            MicroArch::Zen3 => "Zen 3",
            MicroArch::Zen3Plus => "Zen 3P+",
            MicroArch::Zen4 => "Zen 4",
            MicroArch::Zen4C => "Zen 4C",
            MicroArch::Zen5 => "Zen 5",
            MicroArch::Zen5C => "Zen 5C",
            MicroArch::Winchip => "Winchip",
            MicroArch::Winchip2 => "Winchip 2",
            MicroArch::Winchip2A => "Winchip 2A",
            MicroArch::Winchip2B => "Winchip 2B",
            MicroArch::Winchip3 => "Winchip 3",
            MicroArch::Samuel => "Samuel",
            MicroArch::Samuel2 => "Samuel 2",
            MicroArch::Ezra => "Ezra",
            MicroArch::EzraT => "EzraT",
            MicroArch::Nehemiah => "Nehemiah",
            MicroArch::NehemiahP => "Nehemiah P",
            MicroArch::Esther => "Esther",
            MicroArch::Isaiah => "Isaiah",
            MicroArch::Wudaokou => "WuDaoKou",
            MicroArch::Lujiazui => "LuJiaZui",
            MicroArch::FiveX86 => "5x86",
            MicroArch::M1 => "M1",
            MicroArch::M2 => "M2",
            MicroArch::MediaGx => "MediaGX",
            MicroArch::Geode => "Geode",
            MicroArch::VortexDX3 => "VortexDX3",
            MicroArch::I486 => "I486",
            MicroArch::P5 => "P5",
            MicroArch::P5MMX => "P5 MMX",
            MicroArch::Lakemont => "Lakemont",
            MicroArch::P6Pro => "P6",
            MicroArch::P6PentiumII => "P6",
            MicroArch::P6PentiumIII => "P6",
            MicroArch::Dothan => "Dothan",
            MicroArch::Yonah => "Yonah",
            MicroArch::Merom => "Merom",
            MicroArch::Penryn => "Penryn",
            MicroArch::Nehalem => "Nehalem",
            MicroArch::Westmere => "Westmere",
            MicroArch::Bonnel => "Bonnel",
            MicroArch::Saltwell => "Saltwell",
            MicroArch::Silvermont => "Silvermont",
            MicroArch::SandyBridge => "Sandy Bridge",
            MicroArch::IvyBridge => "Ivy Bridge",
            MicroArch::Haswell => "Haswell",
            MicroArch::Broadwell => "Broadwell",
            MicroArch::Airmont => "Airmont",
            MicroArch::KabyLake => "KabyLake",
            MicroArch::Skylake => "Skylake",
            MicroArch::CascadeLake => "CascadeLake",
            MicroArch::KnightsLanding => "KnightsLanding",
            MicroArch::Goldmont => "Goldmont",
            MicroArch::PalmCove => "PalmCove",
            MicroArch::SunnyCove => "SunnyCove",
            MicroArch::GoldmontPlus => "GoldmontPlus",
            MicroArch::IcyLake => "IcyLake",
            MicroArch::Tremont => "Tremont",
            MicroArch::TigerLake => "TigerLake",
            MicroArch::WhiskyLake => "WhiskyLake",
            MicroArch::SapphireRapids => "SapphireRapids",
            MicroArch::AlderLake => "AlderLake",
            MicroArch::CoffeeLake => "CoffeeLake",
            MicroArch::CometLake => "CometLake",
            MicroArch::RaptorLake => "RaptorLake",
            MicroArch::KnightsFerry => "KnightsFerry",
            MicroArch::KnightsCorner => "KnightsCorner",
            MicroArch::Willamette => "Willamette",
            MicroArch::Northwood => "Northwood",
            MicroArch::Prescott => "Prescott",
            MicroArch::CedarMill => "CedarMill",
            MicroArch::MP6 => "MP6",
            MicroArch::MP6Shrink => "MP6 (die shrink)",
            MicroArch::Crusoe => "Crusoe",
            MicroArch::Efficeon => "Efficeon",
            MicroArch::U5S => "U5S",
            MicroArch::U5D => "U5D",
        }
    }
}

/// What one position of a guard row accepts: anything, one exact value, a
/// closed range, or either of two alternatives.
#[derive(Debug, Clone, Copy, PartialEq, Eq, Structural)]
pub enum Guard {
    /// Accepts every value.
    Any,
    /// Accepts exactly this value.
    Is(u32),
    /// Accepts every value of the closed range.
    Between(u32, u32),
    /// Accepts either of the two values.
    Either(u32, u32),
}

impl Guard {
    /// Whether this guard accepts the value.
    pub open spec fn spec_accepts(self, v: u32) -> bool {
        match self {
            Guard::Any => true,
            Guard::Is(x) => v == x,
            Guard::Between(lo, hi) => lo <= v <= hi,
            Guard::Either(a, b) => v == a || v == b,
        }
    }

    /// Whether this guard accepts the value.
    pub fn accepts(&self, v: u32) -> (r: bool)
        ensures
            r == self.spec_accepts(v),
    {
        match self {
            Guard::Any => true,
            Guard::Is(x) => v == *x,
            Guard::Between(lo, hi) => *lo <= v && v <= *hi,
            Guard::Either(a, b) => v == *a || v == *b,
        }
    }
}

/// One row of a classification table: a guard for each signature field and
/// the entry returned when all five guards accept.
#[derive(Debug, Clone, Copy)]
pub struct Row {
    /// Guard on the extended-family field.
    pub extended_family: Guard,
    /// Guard on the family field.
    pub family: Guard,
    /// Guard on the extended-model field.
    pub extended_model: Guard,
    /// Guard on the model field.
    pub model: Guard,
    /// Guard on the stepping field.
    pub stepping: Guard,
    /// The lineage this row recognizes.
    pub micro_arch: MicroArch,
    /// The design codename this row recognizes.
    pub code_name: &'static str,
    /// The process node, where a specific row supplies one.
    pub technology: Option<&'static str>,
}

/// The mathematical content of a [`Row`].
pub struct RowView {
    /// Guard on the extended-family field.
    pub extended_family: Guard,
    /// Guard on the family field.
    pub family: Guard,
    /// Guard on the extended-model field.
    pub extended_model: Guard,
    /// Guard on the model field.
    pub model: Guard,
    /// Guard on the stepping field.
    pub stepping: Guard,
    /// The lineage this row recognizes.
    pub micro_arch: MicroArch,
    /// The design codename this row recognizes.
    pub code_name: Seq<char>,
    /// The process node, where a specific row supplies one.
    pub technology: Option<Seq<char>>,
}

/// The view of an optional string slice.
pub open spec fn opt_str_view(t: Option<&str>) -> Option<Seq<char>> {
    match t {
        Some(s) => Some(s@),
        None => None,
    }
}

impl View for Row {
    type V = RowView;

    open spec fn view(&self) -> RowView {
        RowView {
            extended_family: self.extended_family,
            family: self.family,
            extended_model: self.extended_model,
            model: self.model,
            stepping: self.stepping,
            micro_arch: self.micro_arch,
            code_name: self.code_name@,
            technology: opt_str_view(self.technology),
        }
    }
}

/// The views of a sequence of rows.
pub open spec fn row_views(rows: Seq<Row>) -> Seq<RowView> {
    rows.map_values(|r: Row| r@)
}

/// Whether every guard of the row accepts the corresponding signature field.
pub open spec fn spec_row_matches(row: RowView, s: CpuSignature) -> bool {
    &&& row.extended_family.spec_accepts(s.extended_family)
    &&& row.family.spec_accepts(s.family)
    &&& row.extended_model.spec_accepts(s.extended_model)
    &&& row.model.spec_accepts(s.model)
    &&& row.stepping.spec_accepts(s.stepping)
}

/// Whether every guard of the row accepts the corresponding signature field.
pub fn row_matches(row: &Row, s: &CpuSignature) -> (r: bool)
    ensures
        r == spec_row_matches(row@, *s),
{
    row.extended_family.accepts(s.extended_family) && row.family.accepts(s.family)
        && row.extended_model.accepts(s.extended_model) && row.model.accepts(s.model)
        && row.stepping.accepts(s.stepping)
}

/// The index of the first row whose guards all accept the signature.
pub open spec fn spec_first_match(rows: Seq<RowView>, s: CpuSignature) -> Option<int>
    decreases rows.len(),
{
    if rows.len() == 0 {
        None
    } else if spec_row_matches(rows[0], s) {
        Some(0int)
    } else {
        match spec_first_match(rows.drop_first(), s) {
            Some(i) => Some(i + 1),
            None => None,
        }
    }
}

/// First full match wins: the matched index is a real index, its row matches,
/// and no earlier row matches; and a `None` result means no row matches at
/// all.
pub proof fn lemma_first_match_wins(rows: Seq<RowView>, s: CpuSignature)
    ensures
        match spec_first_match(rows, s) {
            Some(i) => 0 <= i < rows.len() && spec_row_matches(rows[i], s) && (forall|j: int|
                0 <= j < i ==> !spec_row_matches(rows[j], s)),
            None => forall|j: int| 0 <= j < rows.len() ==> !spec_row_matches(rows[j], s),
        },
    decreases rows.len(),
{
    if rows.len() == 0 {
    } else if spec_row_matches(rows[0], s) {
    } else {
        lemma_first_match_wins(rows.drop_first(), s);
        match spec_first_match(rows.drop_first(), s) {
            Some(i) => {
                assert(rows.drop_first()[i] == rows[i + 1]);
                assert(forall|j: int|
                    1 <= j < i + 1 ==> !spec_row_matches(#[trigger] rows[j], s)) by {
                    assert(forall|j: int|
                        0 <= j < i ==> !spec_row_matches(#[trigger] rows.drop_first()[j], s));
                    assert(forall|j: int|
                        1 <= j < i + 1 ==> rows[j] == rows.drop_first()[j - 1]);
                }
            },
            None => {
                assert(forall|j: int|
                    1 <= j < rows.len() ==> !spec_row_matches(#[trigger] rows[j], s)) by {
                    assert(forall|j: int|
                        1 <= j < rows.len() ==> rows[j] == rows.drop_first()[j - 1]);
                }
            },
        }
    }
}

/// A row that matches, before which no row matches, is the first match.
pub proof fn lemma_first_match_at(rows: Seq<RowView>, s: CpuSignature, i: int)
    requires
        0 <= i < rows.len(),
        spec_row_matches(rows[i], s),
        forall|j: int| 0 <= j < i ==> !spec_row_matches(rows[j], s),
    ensures
        spec_first_match(rows, s) == Some(i),
    decreases i,
{
    if i == 0 {
    } else {
        assert(!spec_row_matches(rows[0], s));
        assert(rows.drop_first()[i - 1] == rows[i]);
        assert(forall|j: int| 0 <= j < i - 1 ==> rows.drop_first()[j] == rows[j + 1]);
        lemma_first_match_at(rows.drop_first(), s, i - 1);
    }
}

/// When no row matches, there is no first match.
pub proof fn lemma_first_match_none(rows: Seq<RowView>, s: CpuSignature)
    requires
        forall|j: int| 0 <= j < rows.len() ==> !spec_row_matches(rows[j], s),
    ensures
        spec_first_match(rows, s) is None,
    decreases rows.len(),
{
    if rows.len() == 0 {
    } else {
        assert(forall|j: int| 0 <= j < rows.len() - 1 ==> rows.drop_first()[j] == rows[j + 1]);
        lemma_first_match_none(rows.drop_first(), s);
    }
}

/// Walks the rows top to bottom and returns the index of the first row whose
/// guards all accept the signature.
pub fn first_match_index(rows: &Vec<Row>, s: &CpuSignature) -> (r: Option<usize>)
    ensures
        match r {
            Some(i) => spec_first_match(row_views(rows@), *s) == Some(i as int),
            None => spec_first_match(row_views(rows@), *s) is None,
        },
{
    let n = rows.len();
    let mut i: usize = 0;
    while i < n
        invariant
            i <= n,
            n == rows@.len(),
            forall|j: int| 0 <= j < i ==> !spec_row_matches(row_views(rows@)[j], *s),
        decreases n - i,
    {
        if row_matches(&rows[i], s) {
            proof {
                lemma_first_match_at(row_views(rows@), *s, i as int);
            }
            return Some(i);
        }
        i += 1;
    }
    proof {
        lemma_first_match_none(row_views(rows@), *s);
    }
    None
}

/// The ordered classification rows for known AMD designs.
pub open spec fn spec_amd_rows() -> Seq<RowView> {
    seq![
        RowView {
            extended_family: Guard::Is(0),
            family: Guard::Is(4),
            extended_model: Guard::Is(0),
            model: Guard::Is(3),
            stepping: Guard::Any,
            micro_arch: MicroArch::Am486,
            code_name: "Am486DX2"@,
            technology: None,
        },
        RowView {
            extended_family: Guard::Is(0),
            family: Guard::Is(4),
            extended_model: Guard::Is(0),
            model: Guard::Is(7),
            stepping: Guard::Any,
            micro_arch: MicroArch::Am486,
            code_name: "Am486X2WB"@,
            technology: None,
        },
        RowView {
            extended_family: Guard::Is(0),
            family: Guard::Is(4),
            extended_model: Guard::Is(0),
            model: Guard::Is(8),
            stepping: Guard::Any,
            micro_arch: MicroArch::Am486,
            code_name: "Am486DX4"@,
            technology: None,
        },
        RowView {
            extended_family: Guard::Is(0),
            family: Guard::Is(4),
            extended_model: Guard::Is(0),
            model: Guard::Is(9),
            stepping: Guard::Any,
            micro_arch: MicroArch::Am486,
            code_name: "Am486DX4WB"@,
            technology: None,
        },
        RowView {
            extended_family: Guard::Is(0),
            family: Guard::Is(4),
            extended_model: Guard::Is(0),
            model: Guard::Is(14),
            stepping: Guard::Any,
            micro_arch: MicroArch::Am5x86,
            code_name: "Am5x86"@,
            technology: None,
        },
        RowView {
            extended_family: Guard::Is(0),
            family: Guard::Is(4),
            extended_model: Guard::Is(0),
            model: Guard::Is(15),
            stepping: Guard::Any,
            micro_arch: MicroArch::Am5x86,
            code_name: "Am5x86WB"@,
            technology: None,
        },
        RowView {
            extended_family: Guard::Is(0),
            family: Guard::Is(5),
            extended_model: Guard::Is(0),
            model: Guard::Is(0),
            stepping: Guard::Any,
            micro_arch: MicroArch::SSA5,
            code_name: "SSA5"@,
            technology: Some("350nm"@),
        },
        RowView {
            extended_family: Guard::Is(0),
            family: Guard::Is(5),
            extended_model: Guard::Is(0),
            model: Guard::Between(1, 3),
            stepping: Guard::Any,
            micro_arch: MicroArch::K5,
            code_name: "5k86"@,
            technology: Some("350nm"@),
        },
        RowView {
            extended_family: Guard::Is(0),
            family: Guard::Is(5),
            extended_model: Guard::Is(0),
            model: Guard::Is(6),
            stepping: Guard::Any,
            micro_arch: MicroArch::K6,
            code_name: "K6"@,
            technology: Some("300nm"@),
        },
        RowView {
            extended_family: Guard::Is(0),
            family: Guard::Is(5),
            extended_model: Guard::Is(0),
            model: Guard::Is(7),
            stepping: Guard::Any,
            micro_arch: MicroArch::K6,
            code_name: "Little Foot"@,
            technology: Some("250nm"@),
        },
        RowView {
            extended_family: Guard::Is(0),
            family: Guard::Is(5),
            extended_model: Guard::Is(0),
            model: Guard::Is(8),
            stepping: Guard::Any,
            micro_arch: MicroArch::K6,
            code_name: "Chompers/CXT (K6-2)"@,
            technology: None,
        },
        RowView {
            extended_family: Guard::Is(0),
            family: Guard::Is(5),
            extended_model: Guard::Is(0),
            model: Guard::Is(9),
            stepping: Guard::Any,
            micro_arch: MicroArch::K6,
            code_name: "Sharptooth (K6-III)"@,
            technology: None,
        },
        RowView {
            extended_family: Guard::Is(0),
            family: Guard::Is(5),
            extended_model: Guard::Is(0),
            model: Guard::Is(10),
            stepping: Guard::Any,
            micro_arch: MicroArch::K7,
            code_name: "Thoroughbred (Geode NX)"@,
            technology: Some("130nm"@),
        },
        RowView {
            extended_family: Guard::Is(0),
            family: Guard::Is(5),
            extended_model: Guard::Is(0),
            model: Guard::Is(13),
            stepping: Guard::Any,
            micro_arch: MicroArch::K6,
            code_name: "Sharptooth (K6-2+/K6-III+)"@,
            technology: None,
        },
        RowView {
            extended_family: Guard::Is(0),
            family: Guard::Is(6),
            extended_model: Guard::Is(0),
            model: Guard::Is(1),
            stepping: Guard::Any,
            micro_arch: MicroArch::K7,
            code_name: "Argon"@,
            technology: Some("250nm"@),
        },
        RowView {
            extended_family: Guard::Is(0),
            family: Guard::Is(6),
            extended_model: Guard::Is(0),
            model: Guard::Is(2),
            stepping: Guard::Any,
            micro_arch: MicroArch::K7,
            code_name: "Pluto"@,
            technology: Some("180nm"@),
        },
        RowView {
            extended_family: Guard::Is(0),
            family: Guard::Is(6),
            extended_model: Guard::Is(0),
            model: Guard::Is(3),
            stepping: Guard::Any,
            micro_arch: MicroArch::K7,
            code_name: "Spitfire"@,
            technology: None,
        },
        RowView {
            extended_family: Guard::Is(0),
            family: Guard::Is(6),
            extended_model: Guard::Is(0),
            model: Guard::Is(4),
            stepping: Guard::Any,
            micro_arch: MicroArch::K7,
            code_name: "Thunderbird"@,
            technology: None,
        },
        RowView {
            extended_family: Guard::Is(0),
            family: Guard::Is(6),
            extended_model: Guard::Is(0),
            model: Guard::Is(6),
            stepping: Guard::Any,
            micro_arch: MicroArch::K7,
            code_name: "Palomino"@,
            technology: None,
        },
        RowView {
            extended_family: Guard::Is(0),
            family: Guard::Is(6),
            extended_model: Guard::Is(0),
            model: Guard::Is(7),
            stepping: Guard::Any,
            micro_arch: MicroArch::K7,
            code_name: "Morgan"@,
            technology: None,
        },
        RowView {
            extended_family: Guard::Is(0),
            family: Guard::Is(6),
            extended_model: Guard::Is(0),
            model: Guard::Is(8),
            stepping: Guard::Any,
            micro_arch: MicroArch::K7,
            code_name: "Thoroughbred"@,
            technology: None,
        },
        RowView {
            extended_family: Guard::Is(0),
            family: Guard::Is(6),
            extended_model: Guard::Is(0),
            model: Guard::Is(10),
            stepping: Guard::Any,
            micro_arch: MicroArch::K7,
            code_name: "Thorton/Barton"@,
            technology: None,
        },
        RowView {
            extended_family: Guard::Is(0),
            family: Guard::Is(15),
            extended_model: Guard::Is(0),
            model: Guard::Is(13),
            stepping: Guard::Is(0),
            micro_arch: MicroArch::K8,
            code_name: "NewCastle"@,
            technology: Some("130nm"@),
        },
        RowView {
            extended_family: Guard::Is(0),
            family: Guard::Is(15),
            extended_model: Guard::Is(2),
            model: Guard::Is(3),
            stepping: Guard::Is(2),
            micro_arch: MicroArch::K8,
            code_name: "Toledo"@,
            technology: Some("90nm"@),
        },
        RowView {
            extended_family: Guard::Is(0),
            family: Guard::Is(15),
            extended_model: Guard::Is(2),
            model: Guard::Is(15),
            stepping: Guard::Is(2),
            micro_arch: MicroArch::K8,
            code_name: "Venice"@,
            technology: Some("90nm"@),
        },
        RowView {
            extended_family: Guard::Is(0),
            family: Guard::Is(15),
            extended_model: Guard::Is(3),
            model: Guard::Is(7),
            stepping: Guard::Is(2),
            micro_arch: MicroArch::K8,
            code_name: "San Diego"@,
            technology: Some("90nm"@),
        },
        RowView {
            extended_family: Guard::Is(0),
            family: Guard::Is(15),
            extended_model: Guard::Is(4),
            model: Guard::Is(15),
            stepping: Guard::Is(2),
            micro_arch: MicroArch::K8,
            code_name: "Manilla"@,
            technology: Some("90nm"@),
        },
        RowView {
            extended_family: Guard::Is(0),
            family: Guard::Is(15),
            extended_model: Guard::Is(4),
            model: Guard::Is(12),
            stepping: Guard::Is(2),
            micro_arch: MicroArch::K8,
            code_name: "Windsor"@,
            technology: Some("90nm"@),
        },
        RowView {
            extended_family: Guard::Is(0),
            family: Guard::Is(15),
            extended_model: Guard::Is(5),
            model: Guard::Is(15),
            stepping: Guard::Is(2),
            micro_arch: MicroArch::K8,
            code_name: "Orleans"@,
            technology: Some("90nm"@),
        },
        RowView {
            extended_family: Guard::Is(0),
            family: Guard::Is(15),
            extended_model: Guard::Is(6),
            model: Guard::Is(12),
            stepping: Guard::Is(2),
            micro_arch: MicroArch::K8,
            code_name: "Brisbane"@,
            technology: Some("65nm"@),
        },
        RowView {
            extended_family: Guard::Is(0),
            family: Guard::Is(15),
            extended_model: Guard::Is(7),
            model: Guard::Is(15),
            stepping: Guard::Is(2),
            micro_arch: MicroArch::K8,
            code_name: "Sparta"@,
            technology: Some("65nm"@),
        },
        RowView {
            extended_family: Guard::Is(5),
            family: Guard::Is(15),
            extended_model: Guard::Any,
            model: Guard::Any,
            stepping: Guard::Any,
            micro_arch: MicroArch::Bobcat,
            code_name: "Zacate"@,
            technology: Some("40nm"@),
        },
        RowView {
            extended_family: Guard::Is(6),
            family: Guard::Is(15),
            extended_model: Guard::Is(0),
            model: Guard::Either(0, 1),
            stepping: Guard::Any,
            micro_arch: MicroArch::Bulldozer,
            code_name: "Zambezi"@,
            technology: Some("32nm"@),
        },
        RowView {
            extended_family: Guard::Is(6),
            family: Guard::Is(15),
            extended_model: Guard::Either(0, 1),
            model: Guard::Is(2),
            stepping: Guard::Any,
            micro_arch: MicroArch::Piledriver,
            code_name: "Vishera"@,
            technology: Some("32nm"@),
        },
        RowView {
            extended_family: Guard::Is(6),
            family: Guard::Is(15),
            extended_model: Guard::Is(3),
            model: Guard::Either(0, 8),
            stepping: Guard::Any,
            micro_arch: MicroArch::Steamroller,
            code_name: "Godavari"@,
            technology: Some("28nm"@),
        },
        RowView {
            extended_family: Guard::Is(6),
            family: Guard::Is(15),
            extended_model: Guard::Either(6, 7),
            model: Guard::Either(0, 5),
            stepping: Guard::Any,
            micro_arch: MicroArch::Excavator,
            code_name: "Bristol Ridge/Carrizo"@,
            technology: Some("28nm"@),
        },
        RowView {
            extended_family: Guard::Is(8),
            family: Guard::Is(15),
            extended_model: Guard::Is(1),
            model: Guard::Is(1),
            stepping: Guard::Is(0),
            micro_arch: MicroArch::Zen,
            code_name: "RavenRidge"@,
            technology: Some("14nm"@),
        },
        RowView {
            extended_family: Guard::Is(10),
            family: Guard::Is(15),
            extended_model: Guard::Is(2),
            model: Guard::Is(1),
            stepping: Guard::Any,
            micro_arch: MicroArch::Zen3,
            code_name: "Vermeer"@,
            technology: Some("7nm"@),
        },
        RowView {
            extended_family: Guard::Is(10),
            family: Guard::Is(15),
            extended_model: Guard::Is(6),
            model: Guard::Is(1),
            stepping: Guard::Is(2),
            micro_arch: MicroArch::Zen4,
            code_name: "Raphael"@,
            technology: Some("5nm"@),
        },
        RowView {
            extended_family: Guard::Is(10),
            family: Guard::Is(15),
            extended_model: Guard::Is(7),
            model: Guard::Is(4),
            stepping: Guard::Is(1),
            micro_arch: MicroArch::Zen4,
            code_name: "Phoenix"@,
            technology: Some("4nm"@),
        },
    ]
}

/// The ordered classification rows for known AMD designs.
pub fn amd_rows() -> (r: Vec<Row>)
    ensures
        row_views(r@) == spec_amd_rows(),
{
    let v: Vec<Row> = vec![
        Row {
            extended_family: Guard::Is(0),
            family: Guard::Is(4),
            extended_model: Guard::Is(0),
            model: Guard::Is(3),
            stepping: Guard::Any,
            micro_arch: MicroArch::Am486,
            code_name: "Am486DX2",
            technology: None,
        },
        Row {
            extended_family: Guard::Is(0),
            family: Guard::Is(4),
            extended_model: Guard::Is(0),
            model: Guard::Is(7),
            stepping: Guard::Any,
            micro_arch: MicroArch::Am486,
            code_name: "Am486X2WB",
            technology: None,
        },
        Row {
            extended_family: Guard::Is(0),
            family: Guard::Is(4),
            extended_model: Guard::Is(0),
            model: Guard::Is(8),
            stepping: Guard::Any,
            micro_arch: MicroArch::Am486,
            code_name: "Am486DX4",
            technology: None,
        },
        Row {
            extended_family: Guard::Is(0),
            family: Guard::Is(4),
            extended_model: Guard::Is(0),
            model: Guard::Is(9),
            stepping: Guard::Any,
            micro_arch: MicroArch::Am486,
            code_name: "Am486DX4WB",
            technology: None,
        },
        Row {
            extended_family: Guard::Is(0),
            family: Guard::Is(4),
            extended_model: Guard::Is(0),
            model: Guard::Is(14),
            stepping: Guard::Any,
            micro_arch: MicroArch::Am5x86,
            code_name: "Am5x86",
            technology: None,
        },
        Row {
            extended_family: Guard::Is(0),
            family: Guard::Is(4),
            extended_model: Guard::Is(0),
            model: Guard::Is(15),
            stepping: Guard::Any,
            micro_arch: MicroArch::Am5x86,
            code_name: "Am5x86WB",
            technology: None,
        },
        Row {
            extended_family: Guard::Is(0),
            family: Guard::Is(5),
            extended_model: Guard::Is(0),
            model: Guard::Is(0),
            stepping: Guard::Any,
            micro_arch: MicroArch::SSA5,
            code_name: "SSA5",
            technology: Some("350nm"),
        },
        Row {
            extended_family: Guard::Is(0),
            family: Guard::Is(5),
            extended_model: Guard::Is(0),
            model: Guard::Between(1, 3),
            stepping: Guard::Any,
            micro_arch: MicroArch::K5,
            code_name: "5k86",
            technology: Some("350nm"),
        },
        Row {
            extended_family: Guard::Is(0),
            family: Guard::Is(5),
            extended_model: Guard::Is(0),
            model: Guard::Is(6),
            stepping: Guard::Any,
            micro_arch: MicroArch::K6,
            code_name: "K6",
            technology: Some("300nm"),
        },
        Row {
            extended_family: Guard::Is(0),
            family: Guard::Is(5),
            extended_model: Guard::Is(0),
            model: Guard::Is(7),
            stepping: Guard::Any,
            micro_arch: MicroArch::K6,
            code_name: "Little Foot",
            technology: Some("250nm"),
        },
        Row {
            extended_family: Guard::Is(0),
            family: Guard::Is(5),
            extended_model: Guard::Is(0),
            model: Guard::Is(8),
            stepping: Guard::Any,
            micro_arch: MicroArch::K6,
            code_name: "Chompers/CXT (K6-2)",
            technology: None,
        },
        Row {
            extended_family: Guard::Is(0),
            family: Guard::Is(5),
            extended_model: Guard::Is(0),
            model: Guard::Is(9),
            stepping: Guard::Any,
            micro_arch: MicroArch::K6,
            code_name: "Sharptooth (K6-III)",
            technology: None,
        },
        Row {
            extended_family: Guard::Is(0),
            family: Guard::Is(5),
            extended_model: Guard::Is(0),
            model: Guard::Is(10),
            stepping: Guard::Any,
            micro_arch: MicroArch::K7,
            code_name: "Thoroughbred (Geode NX)",
            technology: Some("130nm"),
        },
        Row {
            extended_family: Guard::Is(0),
            family: Guard::Is(5),
            extended_model: Guard::Is(0),
            model: Guard::Is(13),
            stepping: Guard::Any,
            micro_arch: MicroArch::K6,
            code_name: "Sharptooth (K6-2+/K6-III+)",
            technology: None,
        },
        Row {
            extended_family: Guard::Is(0),
            family: Guard::Is(6),
            extended_model: Guard::Is(0),
            model: Guard::Is(1),
            stepping: Guard::Any,
            micro_arch: MicroArch::K7,
            code_name: "Argon",
            technology: Some("250nm"),
        },
        Row {
            extended_family: Guard::Is(0),
            family: Guard::Is(6),
            extended_model: Guard::Is(0),
            model: Guard::Is(2),
            stepping: Guard::Any,
            micro_arch: MicroArch::K7,
            code_name: "Pluto",
            technology: Some("180nm"),
        },
        Row {
            extended_family: Guard::Is(0),
            family: Guard::Is(6),
            extended_model: Guard::Is(0),
            model: Guard::Is(3),
            stepping: Guard::Any,
            micro_arch: MicroArch::K7,
            code_name: "Spitfire",
            technology: None,
        },
        Row {
            extended_family: Guard::Is(0),
            family: Guard::Is(6),
            extended_model: Guard::Is(0),
            model: Guard::Is(4),
            stepping: Guard::Any,
            micro_arch: MicroArch::K7,
            code_name: "Thunderbird",
            technology: None,
        },
        Row {
            extended_family: Guard::Is(0),
            family: Guard::Is(6),
            extended_model: Guard::Is(0),
            model: Guard::Is(6),
            stepping: Guard::Any,
            micro_arch: MicroArch::K7,
            code_name: "Palomino",
            technology: None,
        },
        Row {
            extended_family: Guard::Is(0),
            family: Guard::Is(6),
            extended_model: Guard::Is(0),
            model: Guard::Is(7),
            stepping: Guard::Any,
            micro_arch: MicroArch::K7,
            code_name: "Morgan",
            technology: None,
        },
        Row {
            extended_family: Guard::Is(0),
            family: Guard::Is(6),
            extended_model: Guard::Is(0),
            model: Guard::Is(8),
            stepping: Guard::Any,
            micro_arch: MicroArch::K7,
            code_name: "Thoroughbred",
            technology: None,
        },
        Row {
            extended_family: Guard::Is(0),
            family: Guard::Is(6),
            extended_model: Guard::Is(0),
            model: Guard::Is(10),
            stepping: Guard::Any,
            micro_arch: MicroArch::K7,
            code_name: "Thorton/Barton",
            technology: None,
        },
        Row {
            extended_family: Guard::Is(0),
            family: Guard::Is(15),
            extended_model: Guard::Is(0),
            model: Guard::Is(13),
            stepping: Guard::Is(0),
            micro_arch: MicroArch::K8,
            code_name: "NewCastle",
            technology: Some("130nm"),
        },
        Row {
            extended_family: Guard::Is(0),
            family: Guard::Is(15),
            extended_model: Guard::Is(2),
            model: Guard::Is(3),
            stepping: Guard::Is(2),
            micro_arch: MicroArch::K8,
            code_name: "Toledo",
            technology: Some("90nm"),
        },
        Row {
            extended_family: Guard::Is(0),
            family: Guard::Is(15),
            extended_model: Guard::Is(2),
            model: Guard::Is(15),
            stepping: Guard::Is(2),
            micro_arch: MicroArch::K8,
            code_name: "Venice",
            technology: Some("90nm"),
        },
        Row {
            extended_family: Guard::Is(0),
            family: Guard::Is(15),
            extended_model: Guard::Is(3),
            model: Guard::Is(7),
            stepping: Guard::Is(2),
            micro_arch: MicroArch::K8,
            code_name: "San Diego",
            technology: Some("90nm"),
        },
        Row {
            extended_family: Guard::Is(0),
            family: Guard::Is(15),
            extended_model: Guard::Is(4),
            model: Guard::Is(15),
            stepping: Guard::Is(2),
            micro_arch: MicroArch::K8,
            code_name: "Manilla",
            technology: Some("90nm"),
        },
        Row {
            extended_family: Guard::Is(0),
            family: Guard::Is(15),
            extended_model: Guard::Is(4),
            model: Guard::Is(12),
            stepping: Guard::Is(2),
            micro_arch: MicroArch::K8,
            code_name: "Windsor",
            technology: Some("90nm"),
        },
        Row {
            extended_family: Guard::Is(0),
            family: Guard::Is(15),
            extended_model: Guard::Is(5),
            model: Guard::Is(15),
            stepping: Guard::Is(2),
            micro_arch: MicroArch::K8,
            code_name: "Orleans",
            technology: Some("90nm"),
        },
        Row {
            extended_family: Guard::Is(0),
            family: Guard::Is(15),
            extended_model: Guard::Is(6),
            model: Guard::Is(12),
            stepping: Guard::Is(2),
            micro_arch: MicroArch::K8,
            code_name: "Brisbane",
            technology: Some("65nm"),
        },
        Row {
            extended_family: Guard::Is(0),
            family: Guard::Is(15),
            extended_model: Guard::Is(7),
            model: Guard::Is(15),
            stepping: Guard::Is(2),
            micro_arch: MicroArch::K8,
            code_name: "Sparta",
            technology: Some("65nm"),
        },
        Row {
            extended_family: Guard::Is(5),
            family: Guard::Is(15),
            extended_model: Guard::Any,
            model: Guard::Any,
            stepping: Guard::Any,
            micro_arch: MicroArch::Bobcat,
            code_name: "Zacate",
            technology: Some("40nm"),
        },
        Row {
            extended_family: Guard::Is(6),
            family: Guard::Is(15),
            extended_model: Guard::Is(0),
            model: Guard::Either(0, 1),
            stepping: Guard::Any,
            micro_arch: MicroArch::Bulldozer,
            code_name: "Zambezi",
            technology: Some("32nm"),
        },
        Row {
            extended_family: Guard::Is(6),
            family: Guard::Is(15),
            extended_model: Guard::Either(0, 1),
            model: Guard::Is(2),
            stepping: Guard::Any,
            micro_arch: MicroArch::Piledriver,
            code_name: "Vishera",
            technology: Some("32nm"),
        },
        Row {
            extended_family: Guard::Is(6),
            family: Guard::Is(15),
            extended_model: Guard::Is(3),
            model: Guard::Either(0, 8),
            stepping: Guard::Any,
            micro_arch: MicroArch::Steamroller,
            code_name: "Godavari",
            technology: Some("28nm"),
        },
        Row {
            extended_family: Guard::Is(6),
            family: Guard::Is(15),
            extended_model: Guard::Either(6, 7),
            model: Guard::Either(0, 5),
            stepping: Guard::Any,
            micro_arch: MicroArch::Excavator,
            code_name: "Bristol Ridge/Carrizo",
            technology: Some("28nm"),
        },
        Row {
            extended_family: Guard::Is(8),
            family: Guard::Is(15),
            extended_model: Guard::Is(1),
            model: Guard::Is(1),
            stepping: Guard::Is(0),
            micro_arch: MicroArch::Zen,
            code_name: "RavenRidge",
            technology: Some("14nm"),
        },
        Row {
            extended_family: Guard::Is(10),
            family: Guard::Is(15),
            extended_model: Guard::Is(2),
            model: Guard::Is(1),
            stepping: Guard::Any,
            micro_arch: MicroArch::Zen3,
            code_name: "Vermeer",
            technology: Some("7nm"),
        },
        Row {
            extended_family: Guard::Is(10),
            family: Guard::Is(15),
            extended_model: Guard::Is(6),
            model: Guard::Is(1),
            stepping: Guard::Is(2),
            micro_arch: MicroArch::Zen4,
            code_name: "Raphael",
            technology: Some("5nm"),
        },
        Row {
            extended_family: Guard::Is(10),
            family: Guard::Is(15),
            extended_model: Guard::Is(7),
            model: Guard::Is(4),
            stepping: Guard::Is(1),
            micro_arch: MicroArch::Zen4,
            code_name: "Phoenix",
            technology: Some("4nm"),
        },
    ]
    ;
    proof {
        assert(row_views(v@) =~= spec_amd_rows());
    }
    v
}

/// The ordered classification rows for known Intel designs.
pub open spec fn spec_intel_rows() -> Seq<RowView> {
    seq![
        RowView {
            extended_family: Guard::Is(0),
            family: Guard::Is(4),
            extended_model: Guard::Is(0),
            model: Guard::Is(0),
            stepping: Guard::Any,
            micro_arch: MicroArch::I486,
            code_name: "i80486DX"@,
            technology: None,
        },
        RowView {
            extended_family: Guard::Is(0),
            family: Guard::Is(4),
            extended_model: Guard::Is(0),
            model: Guard::Is(1),
            stepping: Guard::Any,
            micro_arch: MicroArch::I486,
            code_name: "i80486DX-50"@,
            technology: None,
        },
        RowView {
            extended_family: Guard::Is(0),
            family: Guard::Is(4),
            extended_model: Guard::Is(0),
            model: Guard::Is(2),
            stepping: Guard::Any,
            micro_arch: MicroArch::I486,
            code_name: "i80486SX"@,
            technology: None,
        },
        RowView {
            extended_family: Guard::Is(0),
            family: Guard::Is(4),
            extended_model: Guard::Is(0),
            model: Guard::Is(3),
            stepping: Guard::Any,
            micro_arch: MicroArch::I486,
            code_name: "i80486DX2"@,
            technology: None,
        },
        RowView {
            extended_family: Guard::Is(0),
            family: Guard::Is(4),
            extended_model: Guard::Is(0),
            model: Guard::Is(4),
            stepping: Guard::Any,
            micro_arch: MicroArch::I486,
            code_name: "i80486SL"@,
            technology: None,
        },
        RowView {
            extended_family: Guard::Is(0),
            family: Guard::Is(4),
            extended_model: Guard::Is(0),
            model: Guard::Is(5),
            stepping: Guard::Any,
            micro_arch: MicroArch::I486,
            code_name: "i80486SX2"@,
            technology: None,
        },
        RowView {
            extended_family: Guard::Is(0),
            family: Guard::Is(4),
            extended_model: Guard::Is(0),
            model: Guard::Is(7),
            stepping: Guard::Any,
            micro_arch: MicroArch::I486,
            code_name: "i80486DX2WB"@,
            technology: None,
        },
        RowView {
            extended_family: Guard::Is(0),
            family: Guard::Is(4),
            extended_model: Guard::Is(0),
            model: Guard::Is(8),
            stepping: Guard::Any,
            micro_arch: MicroArch::I486,
            code_name: "i80486DX4"@,
            technology: None,
        },
        RowView {
            extended_family: Guard::Is(0),
            family: Guard::Is(4),
            extended_model: Guard::Is(0),
            model: Guard::Is(9),
            stepping: Guard::Any,
            micro_arch: MicroArch::I486,
            code_name: "i80486DX4WB"@,
            technology: None,
        },
        RowView {
            extended_family: Guard::Is(0),
            family: Guard::Is(5),
            extended_model: Guard::Is(0),
            model: Guard::Either(0, 1),
            stepping: Guard::Any,
            micro_arch: MicroArch::P5,
            code_name: "P5"@,
            technology: Some("800nm"@),
        },
        RowView {
            extended_family: Guard::Is(0),
            family: Guard::Is(5),
            extended_model: Guard::Is(0),
            model: Guard::Is(2),
            stepping: Guard::Any,
            micro_arch: MicroArch::P5,
            code_name: "P54C"@,
            technology: None,
        },
        RowView {
            extended_family: Guard::Is(0),
            family: Guard::Is(5),
            extended_model: Guard::Is(0),
            model: Guard::Is(3),
            stepping: Guard::Any,
            micro_arch: MicroArch::P5,
            code_name: "P24T"@,
            technology: Some("600nm"@),
        },
        RowView {
            extended_family: Guard::Is(0),
            family: Guard::Is(5),
            extended_model: Guard::Is(0),
            model: Guard::Is(4),
            stepping: Guard::Any,
            micro_arch: MicroArch::P5MMX,
            code_name: "P55C"@,
            technology: Some("350nm"@),
        },
        RowView {
            extended_family: Guard::Is(0),
            family: Guard::Is(5),
            extended_model: Guard::Is(0),
            model: Guard::Is(7),
            stepping: Guard::Any,
            micro_arch: MicroArch::P5MMX,
            code_name: "P54C"@,
            technology: Some("350nm"@),
        },
        RowView {
            extended_family: Guard::Is(0),
            family: Guard::Is(5),
            extended_model: Guard::Is(0),
            model: Guard::Is(8),
            stepping: Guard::Any,
            micro_arch: MicroArch::P5MMX,
            code_name: "P55C"@,
            technology: Some("250nm"@),
        },
        RowView {
            extended_family: Guard::Is(0),
            family: Guard::Is(5),
            extended_model: Guard::Is(0),
            model: Guard::Either(9, 10),
            stepping: Guard::Any,
            micro_arch: MicroArch::Lakemont,
            code_name: "Lakemont"@,
            technology: Some("32nm"@),
        },
        RowView {
            extended_family: Guard::Is(0),
            family: Guard::Is(6),
            extended_model: Guard::Is(0),
            model: Guard::Is(1),
            stepping: Guard::Is(1),
            micro_arch: MicroArch::P6Pro,
            code_name: "P6"@,
            technology: None,
        },
        RowView {
            extended_family: Guard::Is(0),
            family: Guard::Is(6),
            extended_model: Guard::Is(0),
            model: Guard::Is(1),
            stepping: Guard::Is(2),
            micro_arch: MicroArch::P6Pro,
            code_name: "P6"@,
            technology: Some("600nm"@),
        },
        RowView {
            extended_family: Guard::Is(0),
            family: Guard::Is(6),
            extended_model: Guard::Is(0),
            model: Guard::Is(1),
            stepping: Guard::Between(6, 9),
            micro_arch: MicroArch::P6Pro,
            code_name: "P6"@,
            technology: Some("350nm"@),
        },
        RowView {
            extended_family: Guard::Is(0),
            family: Guard::Is(6),
            extended_model: Guard::Is(0),
            model: Guard::Is(3),
            stepping: Guard::Is(2),
            micro_arch: MicroArch::P6PentiumII,
            code_name: "P6T (Deschutes)"@,
            technology: Some("250nm"@),
        },
        RowView {
            extended_family: Guard::Is(0),
            family: Guard::Is(6),
            extended_model: Guard::Is(0),
            model: Guard::Between(0, 2),
            stepping: Guard::Any,
            micro_arch: MicroArch::P6PentiumII,
            code_name: "Unknown"@,
            technology: None,
        },
        RowView {
            extended_family: Guard::Is(0),
            family: Guard::Is(6),
            extended_model: Guard::Is(0),
            model: Guard::Is(3),
            stepping: Guard::Any,
            micro_arch: MicroArch::P6PentiumII,
            code_name: "Klamath"@,
            technology: Some("350nm"@),
        },
        RowView {
            extended_family: Guard::Is(0),
            family: Guard::Is(6),
            extended_model: Guard::Is(0),
            model: Guard::Is(4),
            stepping: Guard::Any,
            micro_arch: MicroArch::P6PentiumII,
            code_name: "Unknown"@,
            technology: None,
        },
        RowView {
            extended_family: Guard::Is(0),
            family: Guard::Is(6),
            extended_model: Guard::Is(0),
            model: Guard::Is(5),
            stepping: Guard::Is(1),
            micro_arch: MicroArch::P6PentiumII,
            code_name: "Deschutes"@,
            technology: Some("250nm"@),
        },
        RowView {
            extended_family: Guard::Is(0),
            family: Guard::Is(6),
            extended_model: Guard::Is(0),
            model: Guard::Is(6),
            stepping: Guard::Any,
            micro_arch: MicroArch::P6PentiumII,
            code_name: "Dixon / Mendocino"@,
            technology: None,
        },
        RowView {
            extended_family: Guard::Is(0),
            family: Guard::Is(6),
            extended_model: Guard::Is(0),
            model: Guard::Is(7),
            stepping: Guard::Any,
            micro_arch: MicroArch::P6PentiumIII,
            code_name: "Katmai"@,
            technology: Some("250nm"@),
        },
        RowView {
            extended_family: Guard::Is(0),
            family: Guard::Is(6),
            extended_model: Guard::Is(0),
            model: Guard::Is(8),
            stepping: Guard::Any,
            micro_arch: MicroArch::P6PentiumIII,
            code_name: "Coppermine"@,
            technology: Some("180nm"@),
        },
        RowView {
            extended_family: Guard::Is(0),
            family: Guard::Is(6),
            extended_model: Guard::Is(0),
            model: Guard::Is(9),
            stepping: Guard::Is(5),
            micro_arch: MicroArch::P6PentiumIII,
            code_name: "Banias"@,
            technology: Some("130nm"@),
        },
        RowView {
            extended_family: Guard::Is(0),
            family: Guard::Is(6),
            extended_model: Guard::Is(0),
            model: Guard::Is(10),
            stepping: Guard::Any,
            micro_arch: MicroArch::P6PentiumIII,
            code_name: "Coppermine T"@,
            technology: Some("180nm"@),
        },
        RowView {
            extended_family: Guard::Is(0),
            family: Guard::Is(6),
            extended_model: Guard::Is(0),
            model: Guard::Is(11),
            stepping: Guard::Any,
            micro_arch: MicroArch::P6PentiumIII,
            code_name: "Tualatin"@,
            technology: Some("130nm"@),
        },
        RowView {
            extended_family: Guard::Is(0),
            family: Guard::Is(6),
            extended_model: Guard::Is(1),
            model: Guard::Is(14),
            stepping: Guard::Is(5),
            micro_arch: MicroArch::Nehalem,
            code_name: "Lynnfield"@,
            technology: Some("45nm"@),
        },
        RowView {
            extended_family: Guard::Is(0),
            family: Guard::Is(6),
            extended_model: Guard::Is(2),
            model: Guard::Is(10),
            stepping: Guard::Is(7),
            micro_arch: MicroArch::SandyBridge,
            code_name: "Sandy Bridge"@,
            technology: Some("32nm"@),
        },
    ]
}

/// The ordered classification rows for known Intel designs.
pub fn intel_rows() -> (r: Vec<Row>)
    ensures
        row_views(r@) == spec_intel_rows(),
{
    let v: Vec<Row> = vec![
        Row {
            extended_family: Guard::Is(0),
            family: Guard::Is(4),
            extended_model: Guard::Is(0),
            model: Guard::Is(0),
            stepping: Guard::Any,
            micro_arch: MicroArch::I486,
            code_name: "i80486DX",
            technology: None,
        },
        Row {
            extended_family: Guard::Is(0),
            family: Guard::Is(4),
            extended_model: Guard::Is(0),
            model: Guard::Is(1),
            stepping: Guard::Any,
            micro_arch: MicroArch::I486,
            code_name: "i80486DX-50",
            technology: None,
        },
        Row {
            extended_family: Guard::Is(0),
            family: Guard::Is(4),
            extended_model: Guard::Is(0),
            model: Guard::Is(2),
            stepping: Guard::Any,
            micro_arch: MicroArch::I486,
            code_name: "i80486SX",
            technology: None,
        },
        Row {
            extended_family: Guard::Is(0),
            family: Guard::Is(4),
            extended_model: Guard::Is(0),
            model: Guard::Is(3),
            stepping: Guard::Any,
            micro_arch: MicroArch::I486,
            code_name: "i80486DX2",
            technology: None,
        },
        Row {
            extended_family: Guard::Is(0),
            family: Guard::Is(4),
            extended_model: Guard::Is(0),
            model: Guard::Is(4),
            stepping: Guard::Any,
            micro_arch: MicroArch::I486,
            code_name: "i80486SL",
            technology: None,
        },
        Row {
            extended_family: Guard::Is(0),
            family: Guard::Is(4),
            extended_model: Guard::Is(0),
            model: Guard::Is(5),
            stepping: Guard::Any,
            micro_arch: MicroArch::I486,
            code_name: "i80486SX2",
            technology: None,
        },
        Row {
            extended_family: Guard::Is(0),
            family: Guard::Is(4),
            extended_model: Guard::Is(0),
            model: Guard::Is(7),
            stepping: Guard::Any,
            micro_arch: MicroArch::I486,
            code_name: "i80486DX2WB",
            technology: None,
        },
        Row {
            extended_family: Guard::Is(0),
            family: Guard::Is(4),
            extended_model: Guard::Is(0),
            model: Guard::Is(8),
            stepping: Guard::Any,
            micro_arch: MicroArch::I486,
            code_name: "i80486DX4",
            technology: None,
        },
        Row {
            extended_family: Guard::Is(0),
            family: Guard::Is(4),
            extended_model: Guard::Is(0),
            model: Guard::Is(9),
            stepping: Guard::Any,
            micro_arch: MicroArch::I486,
            code_name: "i80486DX4WB",
            technology: None,
        },
        Row {
            extended_family: Guard::Is(0),
            family: Guard::Is(5),
            extended_model: Guard::Is(0),
            model: Guard::Either(0, 1),
            stepping: Guard::Any,
            micro_arch: MicroArch::P5,
            code_name: "P5",
            technology: Some("800nm"),
        },
        Row {
            extended_family: Guard::Is(0),
            family: Guard::Is(5),
            extended_model: Guard::Is(0),
            model: Guard::Is(2),
            stepping: Guard::Any,
            micro_arch: MicroArch::P5,
            code_name: "P54C",
            technology: None,
        },
        Row {
            extended_family: Guard::Is(0),
            family: Guard::Is(5),
            extended_model: Guard::Is(0),
            model: Guard::Is(3),
            stepping: Guard::Any,
            micro_arch: MicroArch::P5,
            code_name: "P24T",
            technology: Some("600nm"),
        },
        Row {
            extended_family: Guard::Is(0),
            family: Guard::Is(5),
            extended_model: Guard::Is(0),
            model: Guard::Is(4),
            stepping: Guard::Any,
            micro_arch: MicroArch::P5MMX,
            code_name: "P55C",
            technology: Some("350nm"),
        },
        Row {
            extended_family: Guard::Is(0),
            family: Guard::Is(5),
            extended_model: Guard::Is(0),
            model: Guard::Is(7),
            stepping: Guard::Any,
            micro_arch: MicroArch::P5MMX,
            code_name: "P54C",
            technology: Some("350nm"),
        },
        Row {
            extended_family: Guard::Is(0),
            family: Guard::Is(5),
            extended_model: Guard::Is(0),
            model: Guard::Is(8),
            stepping: Guard::Any,
            micro_arch: MicroArch::P5MMX,
            code_name: "P55C",
            technology: Some("250nm"),
        },
        Row {
            extended_family: Guard::Is(0),
            family: Guard::Is(5),
            extended_model: Guard::Is(0),
            model: Guard::Either(9, 10),
            stepping: Guard::Any,
            micro_arch: MicroArch::Lakemont,
            code_name: "Lakemont",
            technology: Some("32nm"),
        },
        Row {
            extended_family: Guard::Is(0),
            family: Guard::Is(6),
            extended_model: Guard::Is(0),
            model: Guard::Is(1),
            stepping: Guard::Is(1),
            micro_arch: MicroArch::P6Pro,
            code_name: "P6",
            technology: None,
        },
        Row {
            extended_family: Guard::Is(0),
            family: Guard::Is(6),
            extended_model: Guard::Is(0),
            model: Guard::Is(1),
            stepping: Guard::Is(2),
            micro_arch: MicroArch::P6Pro,
            code_name: "P6",
            technology: Some("600nm"),
        },
        Row {
            extended_family: Guard::Is(0),
            family: Guard::Is(6),
            extended_model: Guard::Is(0),
            model: Guard::Is(1),
            stepping: Guard::Between(6, 9),
            micro_arch: MicroArch::P6Pro,
            code_name: "P6",
            technology: Some("350nm"),
        },
        Row {
            extended_family: Guard::Is(0),
            family: Guard::Is(6),
            extended_model: Guard::Is(0),
            model: Guard::Is(3),
            stepping: Guard::Is(2),
            micro_arch: MicroArch::P6PentiumII,
            code_name: "P6T (Deschutes)",
            technology: Some("250nm"),
        },
        Row {
            extended_family: Guard::Is(0),
            family: Guard::Is(6),
            extended_model: Guard::Is(0),
            model: Guard::Between(0, 2),
            stepping: Guard::Any,
            micro_arch: MicroArch::P6PentiumII,
            code_name: "Unknown",
            technology: None,
        },
        Row {
            extended_family: Guard::Is(0),
            family: Guard::Is(6),
            extended_model: Guard::Is(0),
            model: Guard::Is(3),
            stepping: Guard::Any,
            micro_arch: MicroArch::P6PentiumII,
            code_name: "Klamath",
            technology: Some("350nm"),
        },
        Row {
            extended_family: Guard::Is(0),
            family: Guard::Is(6),
            extended_model: Guard::Is(0),
            model: Guard::Is(4),
            stepping: Guard::Any,
            micro_arch: MicroArch::P6PentiumII,
            code_name: "Unknown",
            technology: None,
        },
        Row {
            extended_family: Guard::Is(0),
            family: Guard::Is(6),
            extended_model: Guard::Is(0),
            model: Guard::Is(5),
            stepping: Guard::Is(1),
            micro_arch: MicroArch::P6PentiumII,
            code_name: "Deschutes",
            technology: Some("250nm"),
        },
        Row {
            extended_family: Guard::Is(0),
            family: Guard::Is(6),
            extended_model: Guard::Is(0),
            model: Guard::Is(6),
            stepping: Guard::Any,
            micro_arch: MicroArch::P6PentiumII,
            code_name: "Dixon / Mendocino",
            technology: None,
        },
        Row {
            extended_family: Guard::Is(0),
            family: Guard::Is(6),
            extended_model: Guard::Is(0),
            model: Guard::Is(7),
            stepping: Guard::Any,
            micro_arch: MicroArch::P6PentiumIII,
            code_name: "Katmai",
            technology: Some("250nm"),
        },
        Row {
            extended_family: Guard::Is(0),
            family: Guard::Is(6),
            extended_model: Guard::Is(0),
            model: Guard::Is(8),
            stepping: Guard::Any,
            micro_arch: MicroArch::P6PentiumIII,
            code_name: "Coppermine",
            technology: Some("180nm"),
        },
        Row {
            extended_family: Guard::Is(0),
            family: Guard::Is(6),
            extended_model: Guard::Is(0),
            model: Guard::Is(9),
            stepping: Guard::Is(5),
            micro_arch: MicroArch::P6PentiumIII,
            code_name: "Banias",
            technology: Some("130nm"),
        },
        Row {
            extended_family: Guard::Is(0),
            family: Guard::Is(6),
            extended_model: Guard::Is(0),
            model: Guard::Is(10),
            stepping: Guard::Any,
            micro_arch: MicroArch::P6PentiumIII,
            code_name: "Coppermine T",
            technology: Some("180nm"),
        },
        Row {
            extended_family: Guard::Is(0),
            family: Guard::Is(6),
            extended_model: Guard::Is(0),
            model: Guard::Is(11),
            stepping: Guard::Any,
            micro_arch: MicroArch::P6PentiumIII,
            code_name: "Tualatin",
            technology: Some("130nm"),
        },
        Row {
            extended_family: Guard::Is(0),
            family: Guard::Is(6),
            extended_model: Guard::Is(1),
            model: Guard::Is(14),
            stepping: Guard::Is(5),
            micro_arch: MicroArch::Nehalem,
            code_name: "Lynnfield",
            technology: Some("45nm"),
        },
        Row {
            extended_family: Guard::Is(0),
            family: Guard::Is(6),
            extended_model: Guard::Is(2),
            model: Guard::Is(10),
            stepping: Guard::Is(7),
            micro_arch: MicroArch::SandyBridge,
            code_name: "Sandy Bridge",
            technology: Some("32nm"),
        },
    ]
    ;
    proof {
        assert(row_views(v@) =~= spec_intel_rows());
    }
    v
}

/// The ordered classification rows for known designs behind the shared Centaur identifying string (IDT, Via and Zhaoxin lineages).
pub open spec fn spec_centaur_rows() -> Seq<RowView> {
    seq![
        RowView {
            extended_family: Guard::Is(0),
            family: Guard::Is(5),
            extended_model: Guard::Is(0),
            model: Guard::Is(4),
            stepping: Guard::Any,
            micro_arch: MicroArch::Winchip,
            code_name: "C6"@,
            technology: Some("350nm"@),
        },
        RowView {
            extended_family: Guard::Is(0),
            family: Guard::Is(5),
            extended_model: Guard::Is(0),
            model: Guard::Is(8),
            stepping: Guard::Is(5),
            micro_arch: MicroArch::Winchip2,
            code_name: "Winchip 2 (C2)"@,
            technology: Some("350nm"@),
        },
        RowView {
            extended_family: Guard::Is(0),
            family: Guard::Is(5),
            extended_model: Guard::Is(0),
            model: Guard::Is(8),
            stepping: Guard::Is(7),
            micro_arch: MicroArch::Winchip2A,
            code_name: "Winchip 2A (W2A)"@,
            technology: Some("250nm"@),
        },
        RowView {
            extended_family: Guard::Is(0),
            family: Guard::Is(5),
            extended_model: Guard::Is(0),
            model: Guard::Is(8),
            stepping: Guard::Is(10),
            micro_arch: MicroArch::Winchip2B,
            code_name: "Winchip 2B (W2B)"@,
            technology: Some("250nm"@),
        },
        RowView {
            extended_family: Guard::Is(0),
            family: Guard::Is(5),
            extended_model: Guard::Is(0),
            model: Guard::Is(9),
            stepping: Guard::Any,
            micro_arch: MicroArch::Winchip3,
            code_name: "Winchip 3 (C3)"@,
            technology: Some("250nm"@),
        },
        RowView {
            extended_family: Guard::Is(0),
            family: Guard::Is(6),
            extended_model: Guard::Is(0),
            model: Guard::Is(6),
            stepping: Guard::Any,
            micro_arch: MicroArch::Samuel,
            code_name: "Samuel (C5A)"@,
            technology: Some("180nm"@),
        },
        RowView {
            extended_family: Guard::Is(0),
            family: Guard::Is(6),
            extended_model: Guard::Is(0),
            model: Guard::Is(7),
            stepping: Guard::Between(0, 7),
            micro_arch: MicroArch::Samuel2,
            code_name: "Samuel 2 (C5B)"@,
            technology: Some("150nm"@),
        },
        RowView {
            extended_family: Guard::Is(0),
            family: Guard::Is(6),
            extended_model: Guard::Is(0),
            model: Guard::Is(7),
            stepping: Guard::Between(8, 15),
            micro_arch: MicroArch::Ezra,
            code_name: "Ezra (C5C)"@,
            technology: Some("130nm"@),
        },
        RowView {
            extended_family: Guard::Is(0),
            family: Guard::Is(6),
            extended_model: Guard::Is(0),
            model: Guard::Is(8),
            stepping: Guard::Any,
            micro_arch: MicroArch::EzraT,
            code_name: "Ezra-T (C5N)"@,
            technology: Some("130nm"@),
        },
        RowView {
            extended_family: Guard::Is(0),
            family: Guard::Is(6),
            extended_model: Guard::Is(0),
            model: Guard::Is(9),
            stepping: Guard::Between(0, 7),
            micro_arch: MicroArch::Nehemiah,
            code_name: "Nehemiah (C5XL)"@,
            technology: Some("130nm"@),
        },
        RowView {
            extended_family: Guard::Is(0),
            family: Guard::Is(6),
            extended_model: Guard::Is(0),
            model: Guard::Is(9),
            stepping: Guard::Between(8, 15),
            micro_arch: MicroArch::NehemiahP,
            code_name: "Nehemiah+ (C5P)"@,
            technology: None,
        },
        RowView {
            extended_family: Guard::Is(0),
            family: Guard::Is(6),
            extended_model: Guard::Is(0),
            model: Guard::Is(10),
            stepping: Guard::Any,
            micro_arch: MicroArch::Esther,
            code_name: "Esther (C5J)"@,
            technology: Some("90nm"@),
        },
        RowView {
            extended_family: Guard::Is(0),
            family: Guard::Is(6),
            extended_model: Guard::Is(1),
            model: Guard::Between(9, 12),
            stepping: Guard::Is(8),
            micro_arch: MicroArch::Isaiah,
            code_name: "Isaiah (CNS)"@,
            technology: None,
        },
        RowView {
            extended_family: Guard::Is(0),
            family: Guard::Is(6),
            extended_model: Guard::Is(1),
            model: Guard::Is(15),
            stepping: Guard::Any,
            micro_arch: MicroArch::Isaiah,
            code_name: "Isaiah (CN)"@,
            technology: Some("65nm"@),
        },
        RowView {
            extended_family: Guard::Is(0),
            family: Guard::Is(7),
            extended_model: Guard::Is(1),
            model: Guard::Is(11),
            stepping: Guard::Is(0),
            micro_arch: MicroArch::Wudaokou,
            code_name: "WuDaoKou"@,
            technology: Some("28nm"@),
        },
        RowView {
            extended_family: Guard::Is(0),
            family: Guard::Is(7),
            extended_model: Guard::Is(3),
            model: Guard::Is(11),
            stepping: Guard::Is(0),
            micro_arch: MicroArch::Lujiazui,
            code_name: "LuJiaZui"@,
            technology: Some("16nm"@),
        },
    ]
}

/// The ordered classification rows for known designs behind the shared Centaur identifying string (IDT, Via and Zhaoxin lineages).
pub fn centaur_rows() -> (r: Vec<Row>)
    ensures
        row_views(r@) == spec_centaur_rows(),
{
    let v: Vec<Row> = vec![
        Row {
            extended_family: Guard::Is(0),
            family: Guard::Is(5),
            extended_model: Guard::Is(0),
            model: Guard::Is(4),
            stepping: Guard::Any,
            micro_arch: MicroArch::Winchip,
            code_name: "C6",
            technology: Some("350nm"),
        },
        Row {
            extended_family: Guard::Is(0),
            family: Guard::Is(5),
            extended_model: Guard::Is(0),
            model: Guard::Is(8),
            stepping: Guard::Is(5),
            micro_arch: MicroArch::Winchip2,
            code_name: "Winchip 2 (C2)",
            technology: Some("350nm"),
        },
        Row {
            extended_family: Guard::Is(0),
            family: Guard::Is(5),
            extended_model: Guard::Is(0),
            model: Guard::Is(8),
            stepping: Guard::Is(7),
            micro_arch: MicroArch::Winchip2A,
            code_name: "Winchip 2A (W2A)",
            technology: Some("250nm"),
        },
        Row {
            extended_family: Guard::Is(0),
            family: Guard::Is(5),
            extended_model: Guard::Is(0),
            model: Guard::Is(8),
            stepping: Guard::Is(10),
            micro_arch: MicroArch::Winchip2B,
            code_name: "Winchip 2B (W2B)",
            technology: Some("250nm"),
        },
        Row {
            extended_family: Guard::Is(0),
            family: Guard::Is(5),
            extended_model: Guard::Is(0),
            model: Guard::Is(9),
            stepping: Guard::Any,
            micro_arch: MicroArch::Winchip3,
            code_name: "Winchip 3 (C3)",
            technology: Some("250nm"),
        },
        Row {
            extended_family: Guard::Is(0),
            family: Guard::Is(6),
            extended_model: Guard::Is(0),
            model: Guard::Is(6),
            stepping: Guard::Any,
            micro_arch: MicroArch::Samuel,
            code_name: "Samuel (C5A)",
            technology: Some("180nm"),
        },
        Row {
            extended_family: Guard::Is(0),
            family: Guard::Is(6),
            extended_model: Guard::Is(0),
            model: Guard::Is(7),
            stepping: Guard::Between(0, 7),
            micro_arch: MicroArch::Samuel2,
            code_name: "Samuel 2 (C5B)",
            technology: Some("150nm"),
        },
        Row {
            extended_family: Guard::Is(0),
            family: Guard::Is(6),
            extended_model: Guard::Is(0),
            model: Guard::Is(7),
            stepping: Guard::Between(8, 15),
            micro_arch: MicroArch::Ezra,
            code_name: "Ezra (C5C)",
            technology: Some("130nm"),
        },
        Row {
            extended_family: Guard::Is(0),
            family: Guard::Is(6),
            extended_model: Guard::Is(0),
            model: Guard::Is(8),
            stepping: Guard::Any,
            micro_arch: MicroArch::EzraT,
            code_name: "Ezra-T (C5N)",
            technology: Some("130nm"),
        },
        Row {
            extended_family: Guard::Is(0),
            family: Guard::Is(6),
            extended_model: Guard::Is(0),
            model: Guard::Is(9),
            stepping: Guard::Between(0, 7),
            micro_arch: MicroArch::Nehemiah,
            code_name: "Nehemiah (C5XL)",
            technology: Some("130nm"),
        },
        Row {
            extended_family: Guard::Is(0),
            family: Guard::Is(6),
            extended_model: Guard::Is(0),
            model: Guard::Is(9),
            stepping: Guard::Between(8, 15),
            micro_arch: MicroArch::NehemiahP,
            code_name: "Nehemiah+ (C5P)",
            technology: None,
        },
        Row {
            extended_family: Guard::Is(0),
            family: Guard::Is(6),
            extended_model: Guard::Is(0),
            model: Guard::Is(10),
            stepping: Guard::Any,
            micro_arch: MicroArch::Esther,
            code_name: "Esther (C5J)",
            technology: Some("90nm"),
        },
        Row {
            extended_family: Guard::Is(0),
            family: Guard::Is(6),
            extended_model: Guard::Is(1),
            model: Guard::Between(9, 12),
            stepping: Guard::Is(8),
            micro_arch: MicroArch::Isaiah,
            code_name: "Isaiah (CNS)",
            technology: None,
        },
        Row {
            extended_family: Guard::Is(0),
            family: Guard::Is(6),
            extended_model: Guard::Is(1),
            model: Guard::Is(15),
            stepping: Guard::Any,
            micro_arch: MicroArch::Isaiah,
            code_name: "Isaiah (CN)",
            technology: Some("65nm"),
        },
        Row {
            extended_family: Guard::Is(0),
            family: Guard::Is(7),
            extended_model: Guard::Is(1),
            model: Guard::Is(11),
            stepping: Guard::Is(0),
            micro_arch: MicroArch::Wudaokou,
            code_name: "WuDaoKou",
            technology: Some("28nm"),
        },
        Row {
            extended_family: Guard::Is(0),
            family: Guard::Is(7),
            extended_model: Guard::Is(3),
            model: Guard::Is(11),
            stepping: Guard::Is(0),
            micro_arch: MicroArch::Lujiazui,
            code_name: "LuJiaZui",
            technology: Some("16nm"),
        },
    ]
    ;
    proof {
        assert(row_views(v@) =~= spec_centaur_rows());
    }
    v
}

/// The ordered classification rows for known DM&P designs.
pub open spec fn spec_dmp_rows() -> Seq<RowView> {
    seq![
        RowView {
            extended_family: Guard::Is(0),
            family: Guard::Is(6),
            extended_model: Guard::Is(0),
            model: Guard::Is(1),
            stepping: Guard::Is(1),
            micro_arch: MicroArch::VortexDX3,
            code_name: "Vortex86DX3"@,
            technology: None,
        },
    ]
}

/// The ordered classification rows for known DM&P designs.
pub fn dmp_rows() -> (r: Vec<Row>)
    ensures
        row_views(r@) == spec_dmp_rows(),
{
    let v: Vec<Row> = vec![
        Row {
            extended_family: Guard::Is(0),
            family: Guard::Is(6),
            extended_model: Guard::Is(0),
            model: Guard::Is(1),
            stepping: Guard::Is(1),
            micro_arch: MicroArch::VortexDX3,
            code_name: "Vortex86DX3",
            technology: None,
        },
    ]
    ;
    proof {
        assert(row_views(v@) =~= spec_dmp_rows());
    }
    v
}

/// The ordered classification rows for known Cyrix designs.
pub open spec fn spec_cyrix_rows() -> Seq<RowView> {
    seq![
        RowView {
            extended_family: Guard::Is(0),
            family: Guard::Is(4),
            extended_model: Guard::Is(0),
            model: Guard::Is(9),
            stepping: Guard::Any,
            micro_arch: MicroArch::FiveX86,
            code_name: "5x86"@,
            technology: None,
        },
        RowView {
            extended_family: Guard::Is(0),
            family: Guard::Is(5),
            extended_model: Guard::Is(0),
            model: Guard::Either(2, 3),
            stepping: Guard::Any,
            micro_arch: MicroArch::M1,
            code_name: "M1"@,
            technology: None,
        },
        RowView {
            extended_family: Guard::Is(0),
            family: Guard::Is(5),
            extended_model: Guard::Is(0),
            model: Guard::Is(4),
            stepping: Guard::Any,
            micro_arch: MicroArch::MediaGx,
            code_name: "MediaGX GXm"@,
            technology: Some("350nm"@),
        },
        RowView {
            extended_family: Guard::Is(0),
            family: Guard::Is(6),
            extended_model: Guard::Is(0),
            model: Guard::Is(0),
            stepping: Guard::Any,
            micro_arch: MicroArch::M2,
            code_name: "M2"@,
            technology: None,
        },
    ]
}

/// The ordered classification rows for known Cyrix designs.
pub fn cyrix_rows() -> (r: Vec<Row>)
    ensures
        row_views(r@) == spec_cyrix_rows(),
{
    let v: Vec<Row> = vec![
        Row {
            extended_family: Guard::Is(0),
            family: Guard::Is(4),
            extended_model: Guard::Is(0),
            model: Guard::Is(9),
            stepping: Guard::Any,
            micro_arch: MicroArch::FiveX86,
            code_name: "5x86",
            technology: None,
        },
        Row {
            extended_family: Guard::Is(0),
            family: Guard::Is(5),
            extended_model: Guard::Is(0),
            model: Guard::Either(2, 3),
            stepping: Guard::Any,
            micro_arch: MicroArch::M1,
            code_name: "M1",
            technology: None,
        },
        Row {
            extended_family: Guard::Is(0),
            family: Guard::Is(5),
            extended_model: Guard::Is(0),
            model: Guard::Is(4),
            stepping: Guard::Any,
            micro_arch: MicroArch::MediaGx,
            code_name: "MediaGX GXm",
            technology: Some("350nm"),
        },
        Row {
            extended_family: Guard::Is(0),
            family: Guard::Is(6),
            extended_model: Guard::Is(0),
            model: Guard::Is(0),
            stepping: Guard::Any,
            micro_arch: MicroArch::M2,
            code_name: "M2",
            technology: None,
        },
    ]
    ;
    proof {
        assert(row_views(v@) =~= spec_cyrix_rows());
    }
    v
}

/// The ordered classification rows for known National Semiconductor designs.
pub open spec fn spec_nsc_rows() -> Seq<RowView> {
    seq![
        RowView {
            extended_family: Guard::Is(0),
            family: Guard::Is(5),
            extended_model: Guard::Is(0),
            model: Guard::Is(4),
            stepping: Guard::Any,
            micro_arch: MicroArch::Geode,
            code_name: "GX1"@,
            technology: Some("180nm"@),
        },
        RowView {
            extended_family: Guard::Is(0),
            family: Guard::Is(5),
            extended_model: Guard::Is(0),
            model: Guard::Is(9),
            stepping: Guard::Any,
            micro_arch: MicroArch::Geode,
            code_name: "GX2"@,
            technology: Some("180nm"@),
        },
        RowView {
            extended_family: Guard::Is(0),
            family: Guard::Is(5),
            extended_model: Guard::Is(0),
            model: Guard::Is(10),
            stepping: Guard::Any,
            micro_arch: MicroArch::Geode,
            code_name: "GX3"@,
            technology: None,
        },
    ]
}

/// The ordered classification rows for known National Semiconductor designs.
pub fn nsc_rows() -> (r: Vec<Row>)
    ensures
        row_views(r@) == spec_nsc_rows(),
{
    let v: Vec<Row> = vec![
        Row {
            extended_family: Guard::Is(0),
            family: Guard::Is(5),
            extended_model: Guard::Is(0),
            model: Guard::Is(4),
            stepping: Guard::Any,
            micro_arch: MicroArch::Geode,
            code_name: "GX1",
            technology: Some("180nm"),
        },
        Row {
            extended_family: Guard::Is(0),
            family: Guard::Is(5),
            extended_model: Guard::Is(0),
            model: Guard::Is(9),
            stepping: Guard::Any,
            micro_arch: MicroArch::Geode,
            code_name: "GX2",
            technology: Some("180nm"),
        },
        Row {
            extended_family: Guard::Is(0),
            family: Guard::Is(5),
            extended_model: Guard::Is(0),
            model: Guard::Is(10),
            stepping: Guard::Any,
            micro_arch: MicroArch::Geode,
            code_name: "GX3",
            technology: None,
        },
    ]
    ;
    proof {
        assert(row_views(v@) =~= spec_nsc_rows());
    }
    v
}

/// The ordered classification rows for known Rise designs.
pub open spec fn spec_rise_rows() -> Seq<RowView> {
    seq![
        RowView {
            extended_family: Guard::Is(0),
            family: Guard::Is(5),
            extended_model: Guard::Is(0),
            model: Guard::Is(0),
            stepping: Guard::Any,
            micro_arch: MicroArch::MP6,
            code_name: "Kirin"@,
            technology: Some("250nm"@),
        },
        RowView {
            extended_family: Guard::Is(0),
            family: Guard::Is(5),
            extended_model: Guard::Is(0),
            model: Guard::Is(2),
            stepping: Guard::Any,
            micro_arch: MicroArch::MP6Shrink,
            code_name: "Lynx"@,
            technology: Some("180nm"@),
        },
        RowView {
            extended_family: Guard::Is(0),
            family: Guard::Is(5),
            extended_model: Guard::Is(0),
            model: Guard::Is(8),
            stepping: Guard::Any,
            micro_arch: MicroArch::MP6Shrink,
            code_name: "Unknown"@,
            technology: None,
        },
    ]
}

/// The ordered classification rows for known Rise designs.
pub fn rise_rows() -> (r: Vec<Row>)
    ensures
        row_views(r@) == spec_rise_rows(),
{
    let v: Vec<Row> = vec![
        Row {
            extended_family: Guard::Is(0),
            family: Guard::Is(5),
            extended_model: Guard::Is(0),
            model: Guard::Is(0),
            stepping: Guard::Any,
            micro_arch: MicroArch::MP6,
            code_name: "Kirin",
            technology: Some("250nm"),
        },
        Row {
            extended_family: Guard::Is(0),
            family: Guard::Is(5),
            extended_model: Guard::Is(0),
            model: Guard::Is(2),
            stepping: Guard::Any,
            micro_arch: MicroArch::MP6Shrink,
            code_name: "Lynx",
            technology: Some("180nm"),
        },
        Row {
            extended_family: Guard::Is(0),
            family: Guard::Is(5),
            extended_model: Guard::Is(0),
            model: Guard::Is(8),
            stepping: Guard::Any,
            micro_arch: MicroArch::MP6Shrink,
            code_name: "Unknown",
            technology: None,
        },
    ]
    ;
    proof {
        assert(row_views(v@) =~= spec_rise_rows());
    }
    v
}

/// The ordered classification rows for known UMC and Transmeta designs, which share one table.
pub open spec fn spec_umc_transmeta_rows() -> Seq<RowView> {
    seq![
        RowView {
            extended_family: Guard::Is(0),
            family: Guard::Is(4),
            extended_model: Guard::Is(0),
            model: Guard::Is(1),
            stepping: Guard::Any,
            micro_arch: MicroArch::U5D,
            code_name: "U5D"@,
            technology: Some("600nm"@),
        },
        RowView {
            extended_family: Guard::Is(0),
            family: Guard::Is(4),
            extended_model: Guard::Is(0),
            model: Guard::Is(2),
            stepping: Guard::Any,
            micro_arch: MicroArch::U5S,
            code_name: "U5S"@,
            technology: Some("600nm"@),
        },
        RowView {
            extended_family: Guard::Is(0),
            family: Guard::Is(5),
            extended_model: Guard::Is(0),
            model: Guard::Is(4),
            stepping: Guard::Any,
            micro_arch: MicroArch::Crusoe,
            code_name: "Crusoe"@,
            technology: Some("130nm"@),
        },
        RowView {
            extended_family: Guard::Is(0),
            family: Guard::Is(15),
            extended_model: Guard::Is(0),
            model: Guard::Either(2, 3),
            stepping: Guard::Any,
            micro_arch: MicroArch::Efficeon,
            code_name: "Efficeon"@,
            technology: None,
        },
    ]
}

/// The ordered classification rows for known UMC and Transmeta designs, which share one table.
pub fn umc_transmeta_rows() -> (r: Vec<Row>)
    ensures
        row_views(r@) == spec_umc_transmeta_rows(),
{
    let v: Vec<Row> = vec![
        Row {
            extended_family: Guard::Is(0),
            family: Guard::Is(4),
            extended_model: Guard::Is(0),
            model: Guard::Is(1),
            stepping: Guard::Any,
            micro_arch: MicroArch::U5D,
            code_name: "U5D",
            technology: Some("600nm"),
        },
        Row {
            extended_family: Guard::Is(0),
            family: Guard::Is(4),
            extended_model: Guard::Is(0),
            model: Guard::Is(2),
            stepping: Guard::Any,
            micro_arch: MicroArch::U5S,
            code_name: "U5S",
            technology: Some("600nm"),
        },
        Row {
            extended_family: Guard::Is(0),
            family: Guard::Is(5),
            extended_model: Guard::Is(0),
            model: Guard::Is(4),
            stepping: Guard::Any,
            micro_arch: MicroArch::Crusoe,
            code_name: "Crusoe",
            technology: Some("130nm"),
        },
        Row {
            extended_family: Guard::Is(0),
            family: Guard::Is(15),
            extended_model: Guard::Is(0),
            model: Guard::Either(2, 3),
            stepping: Guard::Any,
            micro_arch: MicroArch::Efficeon,
            code_name: "Efficeon",
            technology: None,
        },
    ]
    ;
    proof {
        assert(row_views(v@) =~= spec_umc_transmeta_rows());
    }
    v
}

/// CPU architecture and microarchitecture details: the classification result
/// together with the model and vendor strings it was derived from.
#[derive(Debug, Clone)]
pub struct CpuArch {
    /// The brand/model string the processor reported.
    pub model: heapless::String<64>,
    /// The recognized lineage.
    pub micro_arch: MicroArch,
    /// The recognized design codename.
    pub code_name: &'static str,
    /// The human-readable maker name.
    pub brand_name: heapless::String<64>,
    /// The raw identifying string.
    pub vendor_string: heapless::String<64>,
    /// The process node, where the matched row supplied one.
    pub technology: Option<heapless::String<32>>,
}

/// The mathematical content of a [`CpuArch`].
pub struct ArchView {
    /// The brand/model string the processor reported.
    pub model: Seq<char>,
    /// The recognized lineage.
    pub micro_arch: MicroArch,
    /// The recognized design codename.
    pub code_name: Seq<char>,
    /// The human-readable maker name.
    pub brand_name: Seq<char>,
    /// The raw identifying string.
    pub vendor_string: Seq<char>,
    /// The process node, where the matched row supplied one.
    pub technology: Option<Seq<char>>,
}

impl View for CpuArch {
    type V = ArchView;

    open spec fn view(&self) -> ArchView {
        ArchView {
            model: str64_chars(self.model),
            micro_arch: self.micro_arch,
            code_name: self.code_name@,
            brand_name: str64_chars(self.brand_name),
            vendor_string: str64_chars(self.vendor_string),
            technology: match self.technology {
                Some(t) => Some(str32_chars(t)),
                None => None,
            },
        }
    }
}

/// What `CpuArch::new` builds: each string packed into its fixed capacity.
pub open spec fn spec_new_arch(
    model: Seq<char>,
    micro_arch: MicroArch,
    code_name: Seq<char>,
    brand_name: Seq<char>,
    vendor_string: Seq<char>,
    technology: Option<Seq<char>>,
) -> ArchView {
    ArchView {
        model: fitted(model, 64),
        micro_arch,
        code_name,
        brand_name: fitted(brand_name, 64),
        vendor_string: fitted(vendor_string, 64),
        technology: match technology {
            Some(t) => Some(fitted(t, 32)),
            None => None,
        },
    }
}

/// The entry a table walk produces: the first matching row's result, and the
/// catch-all `Unknown` entry when no row matches.
pub open spec fn spec_find_in_table(
    rows: Seq<RowView>,
    model: Seq<char>,
    s: CpuSignature,
    brand_name: Seq<char>,
    vendor_string: Seq<char>,
) -> ArchView {
    match spec_first_match(rows, s) {
        Some(i) => spec_new_arch(
            model,
            rows[i].micro_arch,
            rows[i].code_name,
            brand_name,
            vendor_string,
            rows[i].technology,
        ),
        None => spec_new_arch(model, MicroArch::Unknown, UNK@, brand_name, vendor_string, None),
    }
}

/// The lineage behind the shared Centaur identifying string, re-derived from
/// the raw family field: family 5 is the original chipmaker, family 6 the
/// company that acquired it, and anything else the modern licensee.
pub open spec fn spec_centaur_brand(s: CpuSignature) -> CpuBrand {
    if s.family == 5 {
        CpuBrand::IDT
    } else if s.family == 6 {
        CpuBrand::Via
    } else {
        CpuBrand::Zhaoxin
    }
}

/// What `find_centaur` returns.
pub open spec fn spec_find_centaur(model: Seq<char>, s: CpuSignature, vendor: Seq<char>) -> ArchView {
    spec_find_in_table(
        spec_centaur_rows(),
        model,
        s,
        spec_centaur_brand(s).spec_brand_name(),
        vendor,
    )
}

/// What `find_amd` returns.
pub open spec fn spec_find_amd(model: Seq<char>, s: CpuSignature) -> ArchView {
    spec_find_in_table(spec_amd_rows(), model, s, "AMD"@, VENDOR_AMD@)
}

/// What `find_intel` returns.
pub open spec fn spec_find_intel(model: Seq<char>, s: CpuSignature) -> ArchView {
    spec_find_in_table(spec_intel_rows(), model, s, "Intel"@, VENDOR_INTEL@)
}

/// What `find` returns: the vendor's own table walked in order, with the
/// shared Centaur string dispatched on the family field instead of the
/// resolved vendor, and the `Unknown` entry for every vendor without a table.
pub open spec fn spec_find(model: Seq<char>, s: CpuSignature, vendor: Seq<char>) -> ArchView {
    if vendor == VENDOR_CENTAUR@ {
        spec_find_centaur(model, s, vendor)
    } else {
        let brand = spec_resolve(vendor);
        match brand {
            CpuBrand::AMD => spec_find_amd(model, s),
            CpuBrand::Intel => spec_find_intel(model, s),
            CpuBrand::DMP => spec_find_in_table(
                spec_dmp_rows(),
                model,
                s,
                brand.spec_brand_name(),
                vendor,
            ),
            CpuBrand::Cyrix => spec_find_in_table(
                spec_cyrix_rows(),
                model,
                s,
                brand.spec_brand_name(),
                vendor,
            ),
            CpuBrand::NationalSemiconductor => spec_find_in_table(
                spec_nsc_rows(),
                model,
                s,
                brand.spec_brand_name(),
                vendor,
            ),
            CpuBrand::Rise => spec_find_in_table(
                spec_rise_rows(),
                model,
                s,
                brand.spec_brand_name(),
                vendor,
            ),
            CpuBrand::Umc | CpuBrand::Transmeta => spec_find_in_table(
                spec_umc_transmeta_rows(),
                model,
                s,
                brand.spec_brand_name(),
                vendor,
            ),
            _ => spec_new_arch(
                model,
                MicroArch::Unknown,
                UNK@,
                brand.spec_brand_name(),
                vendor,
                None,
            ),
        }
    }
}

impl CpuArch {
    /// Builds an entry from its parts, packing each string into its fixed
    /// capacity.
    pub fn new(
        model: &str,
        micro_arch: MicroArch,
        code_name: &'static str,
        brand_name: &str,
        vendor_string: &str,
        technology: Option<&str>,
    ) -> (r: Self)
        ensures
            r@ == spec_new_arch(
                model@,
                micro_arch,
                code_name@,
                brand_name@,
                vendor_string@,
                opt_str_view(technology),
            ),
    {
        let technology = match technology {
            Some(t) => Some(hstr32_from_str(t)),
            None => None,
        };
        CpuArch {
            model: hstr64_from_str(model),
            micro_arch,
            code_name,
            brand_name: hstr64_from_str(brand_name),
            vendor_string: hstr64_from_str(vendor_string),
            technology,
        }
    }

    /// Walks one table of rows in order and builds the entry of the first
    /// matching row, or the catch-all `Unknown` entry.
    pub fn find_in_table(
        rows: &Vec<Row>,
        model: &str,
        s: &CpuSignature,
        brand_name: &str,
        vendor_string: &str,
    ) -> (r: Self)
        ensures
            r@ == spec_find_in_table(row_views(rows@), model@, *s, brand_name@, vendor_string@),
    {
        proof {
            lemma_first_match_wins(row_views(rows@), *s);
        }
        match first_match_index(rows, s) {
            Some(i) => {
                let row = rows[i];
                Self::new(
                    model,
                    row.micro_arch,
                    row.code_name,
                    brand_name,
                    vendor_string,
                    row.technology,
                )
            },
            None => Self::new(model, MicroArch::Unknown, UNK, brand_name, vendor_string, None),
        }
    }

    /// Classifies an AMD signature.
    pub fn find_amd(model: &str, s: CpuSignature) -> (r: Self)
        ensures
            r@ == spec_find_amd(model@, s),
    {
        let rows = amd_rows();
        Self::find_in_table(&rows, model, &s, "AMD", VENDOR_AMD)
    }

    /// Classifies an Intel signature.
    pub fn find_intel(model: &str, s: CpuSignature) -> (r: Self)
        ensures
            r@ == spec_find_intel(model@, s),
    {
        let rows = intel_rows();
        Self::find_in_table(&rows, model, &s, "Intel", VENDOR_INTEL)
    }

    /// Classifies a signature reported under the shared Centaur identifying
    /// string, re-deriving the true lineage from the family field first.
    pub fn find_centaur(model: &str, s: CpuSignature, vendor_string: &str) -> (r: Self)
        ensures
            r@ == spec_find_centaur(model@, s, vendor_string@),
    {
        let brand = if s.family == 5 {
            CpuBrand::IDT
        } else if s.family == 6 {
            CpuBrand::Via
        } else {
            CpuBrand::Zhaoxin
        };
        let rows = centaur_rows();
        Self::find_in_table(&rows, model, &s, brand.to_brand_name(), vendor_string)
    }

    /// Classifies a (vendor, signature) pair: dispatches once on the resolved
    /// vendor to its ordered table, then walks it top to bottom.
    pub fn find(model: &str, s: CpuSignature, vendor_string: &str) -> (r: Self)
        ensures
            r@ == spec_find(model@, s, vendor_string@),
    {
        // The lineage behind the shared Centaur string goes by the family
        // field, not by the identifying string.
        if str_eq(vendor_string, VENDOR_CENTAUR) {
            return Self::find_centaur(model, s, vendor_string);
        }
        let brand = CpuBrand::from(vendor_string);
        match brand {
            CpuBrand::AMD => Self::find_amd(model, s),
            CpuBrand::Intel => Self::find_intel(model, s),
            CpuBrand::DMP => {
                let rows = dmp_rows();
                Self::find_in_table(&rows, model, &s, brand.to_brand_name(), vendor_string)
            },
            CpuBrand::Cyrix => {
                let rows = cyrix_rows();
                Self::find_in_table(&rows, model, &s, brand.to_brand_name(), vendor_string)
            },
            CpuBrand::NationalSemiconductor => {
                let rows = nsc_rows();
                Self::find_in_table(&rows, model, &s, brand.to_brand_name(), vendor_string)
            },
            CpuBrand::Rise => {
                let rows = rise_rows();
                Self::find_in_table(&rows, model, &s, brand.to_brand_name(), vendor_string)
            },
            CpuBrand::Umc | CpuBrand::Transmeta => {
                let rows = umc_transmeta_rows();
                Self::find_in_table(&rows, model, &s, brand.to_brand_name(), vendor_string)
            },
            CpuBrand::Hygon
            | CpuBrand::IDT
            | CpuBrand::NexGen
            | CpuBrand::SiS
            | CpuBrand::Unknown
            | CpuBrand::Via
            | CpuBrand::Zhaoxin => Self::new(
                model,
                MicroArch::Unknown,
                UNK,
                brand.to_brand_name(),
                vendor_string,
                None,
            ),
        }
    }
}

impl Default for CpuArch {
    /// The catch-all entry: everything unknown, no process node.
    fn default() -> (r: Self)
        ensures
            r@ == spec_new_arch(UNK@, MicroArch::Unknown, UNK@, UNK@, UNK@, None),
    {
        Self::new(UNK, MicroArch::Unknown, UNK, UNK, UNK, None)
    }
}

/// The classifier is a pure, deterministic function: two classifications of
/// the same (model, signature, vendor) inputs are one and the same entry.
pub proof fn lemma_classify_deterministic(
    r1: ArchView,
    r2: ArchView,
    model: Seq<char>,
    s: CpuSignature,
    vendor: Seq<char>,
)
    requires
        r1 == spec_find(model, s, vendor),
        r2 == spec_find(model, s, vendor),
    ensures
        r1 == r2,
{
}

} // verus!

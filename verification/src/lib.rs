//! Resolving and normalizing BMS difficulty tables.
//!
//! A difficulty table is published as two or three web resources: an entry
//! page, a header document and a chart-data document, whose concrete shapes
//! vary between publishers. This crate verifies the part of the work that can
//! go wrong silently: the tolerant JSON parsing strategy, the header/course/
//! chart shape normalization, the HTML pointer cascade, and the resolution
//! state machine with its cycle check. Network fetching stays outside, behind
//! plain text values.
use vstd::prelude::*;

pub mod chars;
pub mod client;
pub mod decode;
pub mod encode;
pub mod errors;
pub mod fetch;
pub mod html;
pub mod json;
pub mod jsonio;
pub mod laws;
pub mod resolve;
pub mod urls;

use crate::json::{JsonObject, JsonV};

verus! {

/// The mathematical shape of a [`Trophy`].
pub struct TrophyV {
    pub name: Seq<char>,
    pub missrate: Seq<char>,
    pub scorerate: Seq<char>,
}

/// Trophy information: conditions to achieve a rank within a course.
///
/// The two rates are percentages, carried as the decimal text of the source
/// number so that the model stays free of floating point.
#[derive(Debug, Clone, PartialEq, Eq)]
pub struct Trophy {
    /// Trophy name, e.g. "silvermedal" or "goldmedal".
    pub name: String,
    /// Maximum miss rate (percent), as the source number's decimal text.
    pub missrate: String,
    /// Minimum score rate (percent), as the source number's decimal text.
    pub scorerate: String,
}

impl View for Trophy {
    type V = TrophyV;

    open spec fn view(&self) -> TrophyV {
        TrophyV { name: self.name@, missrate: self.missrate@, scorerate: self.scorerate@ }
    }
}

impl DeepView for Trophy {
    type V = TrophyV;

    open spec fn deep_view(&self) -> TrophyV {
        self.view()
    }
}

/// The mathematical shape of a [`ChartItem`].
pub struct ChartV {
    pub level: Seq<char>,
    pub md5: Option<Seq<char>>,
    pub sha256: Option<Seq<char>>,
    pub title: Option<Seq<char>>,
    pub subtitle: Option<Seq<char>>,
    pub artist: Option<Seq<char>>,
    pub subartist: Option<Seq<char>>,
    pub url: Option<Seq<char>>,
    pub url_diff: Option<Seq<char>>,
    pub extra: Seq<(Seq<char>, JsonV)>,
}

/// Chart data item: metadata and resource links for a single BMS file.
///
/// Optional text fields are never `Some("")`: a decoded empty string is
/// normalized to absent.
#[derive(Debug, Clone, PartialEq, Eq)]
pub struct ChartItem {
    /// Difficulty level, always text even when the source wrote a number.
    pub level: String,
    /// MD5 hash of the file.
    pub md5: Option<String>,
    /// SHA256 hash of the file.
    pub sha256: Option<String>,
    /// Song title.
    pub title: Option<String>,
    /// Song subtitle.
    pub subtitle: Option<String>,
    /// Artist name.
    pub artist: Option<String>,
    /// Song sub-artist.
    pub subartist: Option<String>,
    /// File download URL.
    pub url: Option<String>,
    /// Differential file download URL.
    pub url_diff: Option<String>,
    /// Unrecognized fields, preserved verbatim.
    pub extra: JsonObject,
}

impl View for ChartItem {
    type V = ChartV;

    open spec fn view(&self) -> ChartV {
        ChartV {
            level: self.level@,
            md5: self.md5.deep_view(),
            sha256: self.sha256.deep_view(),
            title: self.title.deep_view(),
            subtitle: self.subtitle.deep_view(),
            artist: self.artist.deep_view(),
            subartist: self.subartist.deep_view(),
            url: self.url.deep_view(),
            url_diff: self.url_diff.deep_view(),
            extra: self.extra@,
        }
    }
}

impl DeepView for ChartItem {
    type V = ChartV;

    open spec fn deep_view(&self) -> ChartV {
        self.view()
    }
}

/// The mathematical shape of a [`CourseInfo`].
pub struct CourseV {
    pub name: Seq<char>,
    pub constraint: Seq<Seq<char>>,
    pub trophy: Seq<TrophyV>,
    pub charts: Seq<ChartV>,
}

/// Course information: a named chart set with constraints and trophies.
///
/// Decoding converts `md5`/`sha256` hash lists into synthetic chart items and
/// fills a chart's missing `level` with `"0"`.
#[derive(Debug, Clone, PartialEq, Eq)]
pub struct CourseInfo {
    /// Course name.
    pub name: String,
    /// Constraint tokens, e.g. "grade_mirror".
    pub constraint: Vec<String>,
    /// Trophies, defining requirements for ranks.
    pub trophy: Vec<Trophy>,
    /// Charts belonging to this course.
    pub charts: Vec<ChartItem>,
}

impl View for CourseInfo {
    type V = CourseV;

    open spec fn view(&self) -> CourseV {
        CourseV {
            name: self.name@,
            constraint: self.constraint.deep_view(),
            trophy: self.trophy.deep_view(),
            charts: self.charts.deep_view(),
        }
    }
}

impl DeepView for CourseInfo {
    type V = CourseV;

    open spec fn deep_view(&self) -> CourseV {
        self.view()
    }
}

/// The mathematical shape of a [`BmsTableHeader`].
pub struct HeaderV {
    pub name: Seq<char>,
    pub symbol: Seq<char>,
    pub data_url: Seq<char>,
    pub course: Seq<Seq<CourseV>>,
    pub level_order: Seq<Seq<char>>,
    pub extra: Seq<(Seq<char>, JsonV)>,
}

/// BMS header information.
///
/// The five named fields are decoded strictly; every other field of the
/// source object is preserved in `extra` for forward compatibility.
#[derive(Debug, Clone, PartialEq, Eq)]
pub struct BmsTableHeader {
    /// Table name, e.g. "Satellite".
    pub name: String,
    /// Table symbol, e.g. "sl".
    pub symbol: String,
    /// Location of the chart data document, kept as the raw string.
    pub data_url: String,
    /// Course groups. Decoding never leaves this empty: a missing or empty
    /// source field becomes one empty group.
    pub course: Vec<Vec<CourseInfo>>,
    /// Difficulty label order; numbers are normalized to text.
    pub level_order: Vec<String>,
    /// Unrecognized fields, preserved verbatim.
    pub extra: JsonObject,
}

impl View for BmsTableHeader {
    type V = HeaderV;

    open spec fn view(&self) -> HeaderV {
        HeaderV {
            name: self.name@,
            symbol: self.symbol@,
            data_url: self.data_url@,
            course: self.course.deep_view(),
            level_order: self.level_order.deep_view(),
            extra: self.extra@,
        }
    }
}

impl DeepView for BmsTableHeader {
    type V = HeaderV;

    open spec fn deep_view(&self) -> HeaderV {
        self.view()
    }
}

/// BMS table data: the chart list.
#[derive(Debug, Clone, PartialEq, Eq)]
pub struct BmsTableData {
    /// Charts.
    pub charts: Vec<ChartItem>,
}

impl View for BmsTableData {
    type V = Seq<ChartV>;

    open spec fn view(&self) -> Seq<ChartV> {
        self.charts.deep_view()
    }
}

impl DeepView for BmsTableData {
    type V = Seq<ChartV>;

    open spec fn deep_view(&self) -> Seq<ChartV> {
        self.view()
    }
}

/// Top-level BMS difficulty table: header plus chart data.
#[derive(Debug, Clone, PartialEq)]
pub struct BmsTable {
    /// Header information and extra fields.
    pub header: BmsTableHeader,
    /// Table data containing the chart list.
    pub data: BmsTableData,
}

/// The mathematical shape of a [`BmsTable`].
pub struct TableV {
    pub header: HeaderV,
    pub data: Seq<ChartV>,
}

impl View for BmsTable {
    type V = TableV;

    open spec fn view(&self) -> TableV {
        TableV { header: self.header@, data: self.data@ }
    }
}

/// The mathematical shape of a [`BmsTableInfo`].
pub struct InfoV {
    pub name: Seq<char>,
    pub symbol: Seq<char>,
    pub url: Seq<char>,
    pub extra: Seq<(Seq<char>, JsonV)>,
}

/// One entry of a difficulty-table index: name, symbol and location.
///
/// `url` holds the normalized text of a syntactically valid absolute URL;
/// decoding rejects anything else.
#[derive(Debug, Clone, PartialEq, Eq)]
pub struct BmsTableInfo {
    /// Table name.
    pub name: String,
    /// Table symbol.
    pub symbol: String,
    /// Table location: the normalized text of a valid URL.
    pub url: String,
    /// Unrecognized fields, preserved verbatim.
    pub extra: JsonObject,
}

impl View for BmsTableInfo {
    type V = InfoV;

    open spec fn view(&self) -> InfoV {
        InfoV { name: self.name@, symbol: self.symbol@, url: self.url@, extra: self.extra@ }
    }
}

impl DeepView for BmsTableInfo {
    type V = InfoV;

    open spec fn deep_view(&self) -> InfoV {
        self.view()
    }
}

/// The list of difficulty tables of an index document.
#[derive(Debug, Clone, PartialEq, Eq)]
pub struct BmsTableList {
    /// List of entries.
    pub listes: Vec<BmsTableInfo>,
}

impl View for BmsTableList {
    type V = Seq<InfoV>;

    open spec fn view(&self) -> Seq<InfoV> {
        self.listes.deep_view()
    }
}

/// The exact text blobs and resolved locations a table was built from.
#[derive(Debug, Clone, PartialEq, Eq)]
pub struct BmsTableRaw {
    /// Resolved location of the header document.
    pub header_json_url: String,
    /// Header text actually used for decoding.
    pub header_raw: String,
    /// Resolved location of the chart data document.
    pub data_json_url: String,
    /// Chart data text actually used for decoding.
    pub data_raw: String,
}

/// The mathematical shape of a [`BmsTableRaw`].
pub struct RawV {
    pub header_json_url: Seq<char>,
    pub header_raw: Seq<char>,
    pub data_json_url: Seq<char>,
    pub data_raw: Seq<char>,
}

impl View for BmsTableRaw {
    type V = RawV;

    open spec fn view(&self) -> RawV {
        RawV {
            header_json_url: self.header_json_url@,
            header_raw: self.header_raw@,
            data_json_url: self.data_json_url@,
            data_raw: self.data_raw@,
        }
    }
}

} // verus!

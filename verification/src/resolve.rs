//! The table resolution state machine: from an entry location to a resolved
//! table, one fetched text at a time.
//!
//! The caller performs each network fetch and hands the text back; every
//! decision between fetches — pointer chasing, the cycle check, relative
//! resolution, decoding — is verified here. The chart document is resolved
//! against the header's own location, never the entry page's.
use vstd::prelude::*;

use crate::decode::dec_data;
use crate::errors::{DecErr, TableError, is_schema_err};
use crate::fetch::{
    FetchedTable, HeaderQueryContent, HeaderQueryV, header_query_with_fallback,
    parse_json_str_with_fallback, spec_header_query_fb, spec_tolerant_parse,
};
use crate::urls::{spec_url_join, spec_url_parse, url_join, url_parse};
use crate::{BmsTable, BmsTableHeader, BmsTableInfo, BmsTableList, BmsTableRaw, HeaderV, RawV, TableV};

verus! {

/// Where a resolution stands: which fetch is outstanding, and everything
/// already settled.
#[derive(Debug, Clone, PartialEq)]
pub enum ResolveState {
    /// The entry page fetch is outstanding.
    FetchingEntry {
        /// The normalized entry location.
        web_url: String,
    },
    /// The pointed-to header fetch is outstanding.
    FetchingHeader {
        /// The normalized entry location.
        web_url: String,
        /// The pointer exactly as found in the entry page.
        header_url_string: String,
        /// The pointer resolved against the entry location.
        header_json_url: String,
    },
    /// The chart data fetch is outstanding.
    FetchingData {
        /// The decoded header.
        header: BmsTableHeader,
        /// The header document's own resolved location.
        header_json_url: String,
        /// The header text actually decoded.
        header_raw: String,
        /// The header's `data_url` resolved against the header's location.
        data_json_url: String,
    },
}

/// The mathematical shape of a [`ResolveState`].
pub enum ResolveStateV {
    AtEntry { web_url: Seq<char> },
    AtHeader { web_url: Seq<char>, header_url_string: Seq<char>, header_json_url: Seq<char> },
    AtData {
        header: HeaderV,
        header_json_url: Seq<char>,
        header_raw: Seq<char>,
        data_json_url: Seq<char>,
    },
}

impl View for ResolveState {
    type V = ResolveStateV;

    open spec fn view(&self) -> ResolveStateV {
        match self {
            ResolveState::FetchingEntry { web_url } => ResolveStateV::AtEntry {
                web_url: web_url@,
            },
            ResolveState::FetchingHeader { web_url, header_url_string, header_json_url } => {
                ResolveStateV::AtHeader {
                    web_url: web_url@,
                    header_url_string: header_url_string@,
                    header_json_url: header_json_url@,
                }
            },
            ResolveState::FetchingData { header, header_json_url, header_raw, data_json_url } => {
                ResolveStateV::AtData {
                    header: header@,
                    header_json_url: header_json_url@,
                    header_raw: header_raw@,
                    data_json_url: data_json_url@,
                }
            },
        }
    }
}

/// What one resolution step produces.
#[derive(Debug, Clone, PartialEq)]
pub enum ResolveStep {
    /// Fetch this location as text, then step again from this state.
    Fetch(ResolveState, String),
    /// The table is fully resolved.
    Done(FetchedTable),
}

/// The mathematical shape of a step's outcome.
pub enum StepV {
    NextV { state: ResolveStateV, url: Seq<char> },
    DoneV { table: TableV, raw: RawV },
    FailV(FailKind),
}

/// Which failure a step ends in, with the context it carries.
pub enum FailKind {
    NotResolvableK,
    CyclicK { web_url: Seq<char>, header_url: Seq<char> },
    JoinK { base: Seq<char>, rel: Seq<char> },
    MalformedK,
    SchemaK(DecErr),
}

/// Whether the exec error `e` is the failure `k` describes.
pub open spec fn fail_matches(e: TableError, k: FailKind) -> bool {
    match k {
        FailKind::NotResolvableK => e matches TableError::HeaderNotResolvable { .. },
        FailKind::CyclicK { web_url, header_url } => {
            &&& e matches TableError::CyclicHeaderReference { web_url: w, header_url: h }
            &&& e->CyclicHeaderReference_web_url@ == web_url
            &&& e->CyclicHeaderReference_header_url@ == header_url
        },
        FailKind::JoinK { base, rel } => {
            &&& e matches TableError::UrlResolutionFailure { .. }
            &&& e->UrlResolutionFailure_base@ == base
            &&& e->UrlResolutionFailure_rel@ == rel
        },
        FailKind::MalformedK => e matches TableError::MalformedDocument { .. },
        FailKind::SchemaK(d) => is_schema_err(e, d),
    }
}

/// The data phase a freshly decoded header enters: resolve `data_url`
/// against the header's own location.
pub open spec fn spec_enter_data(
    h: HeaderV,
    header_json_url: Seq<char>,
    header_raw: Seq<char>,
) -> StepV {
    match spec_url_join(header_json_url, h.data_url) {
        Some(d) => StepV::NextV {
            state: ResolveStateV::AtData {
                header: h,
                header_json_url,
                header_raw,
                data_json_url: d,
            },
            url: d,
        },
        None => StepV::FailV(FailKind::JoinK { base: header_json_url, rel: h.data_url }),
    }
}

/// One step of the resolution state machine on a fetched text.
pub open spec fn spec_resolve_step(st: ResolveStateV, text: Seq<char>) -> StepV {
    match st {
        ResolveStateV::AtEntry { web_url } => match spec_header_query_fb(text) {
            None => StepV::FailV(FailKind::NotResolvableK),
            Some((HeaderQueryV::PointerV(u), _used)) => match spec_url_join(web_url, u) {
                Some(hurl) => StepV::NextV {
                    state: ResolveStateV::AtHeader {
                        web_url,
                        header_url_string: u,
                        header_json_url: hurl,
                    },
                    url: hurl,
                },
                None => StepV::FailV(FailKind::JoinK { base: web_url, rel: u }),
            },
            Some((HeaderQueryV::HeaderVal(h), used)) => spec_enter_data(h, web_url, used),
        },
        ResolveStateV::AtHeader { web_url, header_url_string, header_json_url } => {
            match spec_header_query_fb(text) {
                None => StepV::FailV(FailKind::NotResolvableK),
                Some((HeaderQueryV::PointerV(_), _)) => StepV::FailV(
                    FailKind::CyclicK { web_url, header_url: header_url_string },
                ),
                Some((HeaderQueryV::HeaderVal(h), used)) => spec_enter_data(
                    h,
                    header_json_url,
                    used,
                ),
            }
        },
        ResolveStateV::AtData { header, header_json_url, header_raw, data_json_url } => {
            match spec_tolerant_parse(text) {
                None => StepV::FailV(FailKind::MalformedK),
                Some((j, used)) => match dec_data(j) {
                    Err(d) => StepV::FailV(FailKind::SchemaK(d)),
                    Ok(charts) => StepV::DoneV {
                        table: TableV { header, data: charts },
                        raw: RawV {
                            header_json_url,
                            header_raw,
                            data_json_url,
                            data_raw: used,
                        },
                    },
                },
            }
        },
    }
}

/// Starts resolving a table from an entry location: the location must be a
/// valid absolute URL, whose normalized text every later step builds on.
pub fn resolve_begin(web_url: &str) -> (r: Result<ResolveState, TableError>)
    ensures
        match (r, spec_url_parse(web_url@)) {
            (Ok(st), Some(u)) => st@ == (ResolveStateV::AtEntry { web_url: u }),
            (Err(e), None) => {
                &&& e matches TableError::UrlResolutionFailure { .. }
                &&& e->UrlResolutionFailure_base@ == web_url@
            },
            _ => false,
        },
{
    match url_parse(web_url) {
        Some(u) => Ok(ResolveState::FetchingEntry { web_url: u }),
        None => Err(
            TableError::UrlResolutionFailure { base: web_url.to_owned(), rel: String::new() },
        ),
    }
}

/// Enters the data phase after a header was decoded.
fn enter_data(h: BmsTableHeader, header_json_url: String, header_raw: String) -> (r: Result<
    ResolveStep,
    TableError,
>)
    ensures
        match (r, spec_enter_data(h@, header_json_url@, header_raw@)) {
            (Ok(ResolveStep::Fetch(st, url)), StepV::NextV { state, url: uv }) => st@ == state
                && url@ == uv,
            (Err(e), StepV::FailV(k)) => fail_matches(e, k),
            _ => false,
        },
{
    match url_join(header_json_url.as_str(), h.data_url.as_str()) {
        Some(d) => {
            let url = d.clone();
            Ok(
                ResolveStep::Fetch(
                    ResolveState::FetchingData {
                        header: h,
                        header_json_url,
                        header_raw,
                        data_json_url: d,
                    },
                    url,
                ),
            )
        },
        None => Err(
            TableError::UrlResolutionFailure { base: header_json_url, rel: h.data_url },
        ),
    }
}

/// Performs one resolution step on the text the caller fetched for the
/// state's outstanding location, as `spec_resolve_step` states. A pointer
/// found where the header document itself was expected is a cycle, never
/// followed further.
pub fn resolve_step(state: ResolveState, fetched_text: &str) -> (r: Result<
    ResolveStep,
    TableError,
>)
    ensures
        match (r, spec_resolve_step(state@, fetched_text@)) {
            (Ok(ResolveStep::Fetch(st, url)), StepV::NextV { state: sv, url: uv }) => st@ == sv
                && url@ == uv,
            (Ok(ResolveStep::Done(ft)), StepV::DoneV { table, raw }) => ft.table@ == table
                && ft.raw@ == raw,
            (Err(e), StepV::FailV(k)) => fail_matches(e, k),
            _ => false,
        },
{
    match state {
        ResolveState::FetchingEntry { web_url } => {
            match header_query_with_fallback(fetched_text) {
                Err(e) => Err(e),
                Ok((HeaderQueryContent::Url(u), _used)) => {
                    match url_join(web_url.as_str(), u.as_str()) {
                        Some(hurl) => {
                            let url = hurl.clone();
                            Ok(
                                ResolveStep::Fetch(
                                    ResolveState::FetchingHeader {
                                        web_url,
                                        header_url_string: u,
                                        header_json_url: hurl,
                                    },
                                    url,
                                ),
                            )
                        },
                        None => Err(TableError::UrlResolutionFailure { base: web_url, rel: u }),
                    }
                },
                Ok((HeaderQueryContent::Value(h), used)) => enter_data(h, web_url, used),
            }
        },
        ResolveState::FetchingHeader { web_url, header_url_string, header_json_url } => {
            match header_query_with_fallback(fetched_text) {
                Err(e) => Err(e),
                Ok((HeaderQueryContent::Url(_), _)) => Err(
                    TableError::CyclicHeaderReference {
                        web_url,
                        header_url: header_url_string,
                    },
                ),
                Ok((HeaderQueryContent::Value(h), used)) => enter_data(h, header_json_url, used),
            }
        },
        ResolveState::FetchingData { header, header_json_url, header_raw, data_json_url } => {
            match parse_json_str_with_fallback(fetched_text) {
                Err(e) => Err(e),
                Ok((j, used)) => match crate::BmsTableData::from_json(&j) {
                    Err(e) => Err(e),
                    Ok(data) => Ok(
                        ResolveStep::Done(
                            FetchedTable {
                                table: BmsTable { header, data },
                                raw: BmsTableRaw {
                                    header_json_url,
                                    header_raw,
                                    data_json_url,
                                    data_raw: used,
                                },
                            },
                        ),
                    ),
                },
            }
        },
    }
}

/// What decoding an index document from a fetched text produces: the
/// entries and the text variant that decoded.
pub open spec fn spec_parse_table_list(s: Seq<char>) -> Result<
    (Seq<crate::InfoV>, Seq<char>),
    FailKind,
> {
    match spec_tolerant_parse(s) {
        None => Err(FailKind::MalformedK),
        Some((j, used)) => match crate::decode::dec_list(j) {
            Ok(xs) => Ok((xs, used)),
            Err(d) => Err(FailKind::SchemaK(d)),
        },
    }
}

/// Decodes a table index from a fetched text, as `spec_parse_table_list`
/// states: the tolerant parser first, then the index decoder, returning the
/// text variant that decoded beside the entries.
pub fn parse_table_list(text: &str) -> (r: Result<(Vec<BmsTableInfo>, String), TableError>)
    ensures
        match (r, spec_parse_table_list(text@)) {
            (Ok((xs, used)), Ok((xv, uv))) => xs.deep_view() == xv && used@ == uv,
            (Err(e), Err(k)) => fail_matches(e, k),
            _ => false,
        },
{
    match parse_json_str_with_fallback(text) {
        Err(e) => Err(e),
        Ok((j, used)) => match BmsTableList::from_json(&j) {
            Err(e) => Err(e),
            Ok(list) => Ok((list.listes, used)),
        },
    }
}

} // verus!

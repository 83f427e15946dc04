//! The source registry S01–S11, the S07 curve route, the key IADB codes and the
//! planned schedule.
//!
//! What the manifest does not pin (endpoints, the full series list, user agents,
//! rate limits, licences) is not invented here: sources whose "form" column names
//! no format get `NotApplicable` from the offline parser.

use vstd::prelude::*;

use crate::error::{UkCbError, UkCbErrorKind, UkCbResult};
use crate::text::same_text;
use crate::value::joined;

verus! {

/// The identifier of this source; observations carry it.
pub const SOURCE_ID: &'static str = "uk_cb";

/// The planned schedule is **not** an access contract: its times state planning
/// intent only and are never access times, fetch windows or service promises.
pub const PLANNED_SCHEDULE_IS_NOT_ACCESS_CONTRACT: bool = true;

/// A format that the manifest declares on the source side.
#[non_exhaustive]
#[derive(Debug, Clone, Copy, PartialEq, Eq, Hash, Structural)]
pub enum UkCbFormat {
    /// CSV.
    Csv,
    /// XML.
    Xml,
    /// Excel (`.xls`-style workbook).
    Excel,
    /// JSON.
    Json,
    /// xlsx workbook.
    Xlsx,
    /// ZIP archive.
    Zip,
}

impl UkCbFormat {
    /// The stable spelling of the format.
    pub open spec fn spec_str(self) -> Seq<char> {
        match self {
            UkCbFormat::Csv => "csv"@,
            UkCbFormat::Xml => "xml"@,
            UkCbFormat::Excel => "excel"@,
            UkCbFormat::Json => "json"@,
            UkCbFormat::Xlsx => "xlsx"@,
            UkCbFormat::Zip => "zip"@,
        }
    }

    /// Whether the offline parser implements this format: CSV and JSON only.
    pub open spec fn spec_offline_implemented(self) -> bool {
        self == UkCbFormat::Csv || self == UkCbFormat::Json
    }

    /// The stable spelling.
    pub fn as_str(self) -> (r: &'static str)
        ensures
            r@ == self.spec_str(),
    {
        match self {
            UkCbFormat::Csv => "csv",
            UkCbFormat::Xml => "xml",
            UkCbFormat::Excel => "excel",
            UkCbFormat::Json => "json",
            UkCbFormat::Xlsx => "xlsx",
            UkCbFormat::Zip => "zip",
        }
    }

    /// Formats the offline parser implements: CSV and JSON only. The xlsx / ZIP /
    /// XML / Excel stacks are not built, and callers get `NotApplicable` for them.
    pub fn is_offline_implemented(self) -> (r: bool)
        ensures
            r == self.spec_offline_implemented(),
    {
        match self {
            UkCbFormat::Csv | UkCbFormat::Json => true,
            _ => false,
        }
    }
}

/// A planned source, S01–S11.
#[non_exhaustive]
#[derive(Debug, Clone, Copy, PartialEq, Eq, Hash, Structural)]
pub enum UkCbSourceId {
    /// S01 IADB (bulk series).
    S01,
    /// S02 Bank Rate (`IUDBEDR` and the web site).
    S02,
    /// S03 Bank Return (balance sheet).
    S03,
    /// S04 APF (gilts / corporate bonds / QT).
    S04,
    /// S05 market operations (STR / ILTR / USD repo).
    S05,
    /// S06 SONIA (`IUDSOIA` and compounded).
    S06,
    /// S07 yield curves (nominal / real / OIS).
    S07,
    /// S08 official exchange rates (`XUDL*`).
    S08,
    /// S09 money and credit.
    S09,
    /// S10 DMO gilts (auctions / issuance).
    S10,
    /// S11 ONS CPI / RPI (auxiliary).
    S11,
}

/// One planned source as the manifest registers it.
///
/// `declared_form` and `declared_frequency` are the manifest's "form" and
/// "frequency" columns word for word; `formats` holds only the formats that the
/// manifest names explicitly (none, one or two).
#[derive(Debug, Clone, Copy, PartialEq, Eq)]
pub struct UkCbSourcePlan {
    /// Source identifier.
    pub id: UkCbSourceId,
    /// The source name in the manifest.
    pub name: &'static str,
    /// The manifest's "form" column, word for word.
    pub declared_form: &'static str,
    /// The formats that the manifest names explicitly.
    pub formats: &'static [UkCbFormat],
    /// The manifest's "frequency" column, word for word.
    pub declared_frequency: &'static str,
}

/// The registry S01–S11, one entry per manifest row, in order.
pub open spec fn spec_source_plans() -> Seq<UkCbSourcePlan> {
    seq![
        UkCbSourcePlan {
            id: UkCbSourceId::S01,
            name: "IADB",
            declared_form: "CSV/XML",
            formats: &[UkCbFormat::Csv, UkCbFormat::Xml],
            declared_frequency: "日/月/季",
        },
        UkCbSourcePlan {
            id: UkCbSourceId::S02,
            name: "Bank Rate `IUDBEDR`",
            declared_form: "事件",
            formats: &[],
            declared_frequency: "事件",
        },
        UkCbSourcePlan {
            id: UkCbSourceId::S03,
            name: "Bank Return",
            declared_form: "CSV/Excel",
            formats: &[UkCbFormat::Csv, UkCbFormat::Excel],
            declared_frequency: "周",
        },
        UkCbSourcePlan {
            id: UkCbSourceId::S04,
            name: "APF",
            declared_form: "CSV",
            formats: &[UkCbFormat::Csv],
            declared_frequency: "周/操作日",
        },
        UkCbSourcePlan {
            id: UkCbSourceId::S05,
            name: "市场操作",
            declared_form: "CSV",
            formats: &[UkCbFormat::Csv],
            declared_frequency: "操作日",
        },
        UkCbSourcePlan {
            id: UkCbSourceId::S06,
            name: "SONIA `IUDSOIA`",
            declared_form: "日 T+1",
            formats: &[],
            declared_frequency: "日",
        },
        UkCbSourcePlan {
            id: UkCbSourceId::S07,
            name: "收益率曲线 ZIP",
            declared_form: "ZIP",
            formats: &[UkCbFormat::Zip, UkCbFormat::Xlsx],
            declared_frequency: "日",
        },
        UkCbSourcePlan {
            id: UkCbSourceId::S08,
            name: "汇率 XUDL*",
            declared_form: "日",
            formats: &[],
            declared_frequency: "日",
        },
        UkCbSourcePlan {
            id: UkCbSourceId::S09,
            name: "货币信贷",
            declared_form: "月",
            formats: &[],
            declared_frequency: "月",
        },
        UkCbSourcePlan {
            id: UkCbSourceId::S10,
            name: "DMO Gilt",
            declared_form: "CSV",
            formats: &[UkCbFormat::Csv],
            declared_frequency: "日/事件",
        },
        UkCbSourcePlan {
            id: UkCbSourceId::S11,
            name: "ONS CPI/RPI",
            declared_form: "JSON",
            formats: &[UkCbFormat::Json],
            declared_frequency: "月",
        }
    ]
}

/// The registry S01–S11, one entry per manifest row, in order.
pub fn source_plans() -> (r: [UkCbSourcePlan; 11])
    ensures
        r@ == spec_source_plans(),
{
    let r = [
        UkCbSourcePlan {
            id: UkCbSourceId::S01,
            name: "IADB",
            declared_form: "CSV/XML",
            formats: &[UkCbFormat::Csv, UkCbFormat::Xml],
            declared_frequency: "日/月/季",
        },
        UkCbSourcePlan {
            id: UkCbSourceId::S02,
            name: "Bank Rate `IUDBEDR`",
            declared_form: "事件",
            formats: &[],
            declared_frequency: "事件",
        },
        UkCbSourcePlan {
            id: UkCbSourceId::S03,
            name: "Bank Return",
            declared_form: "CSV/Excel",
            formats: &[UkCbFormat::Csv, UkCbFormat::Excel],
            declared_frequency: "周",
        },
        UkCbSourcePlan {
            id: UkCbSourceId::S04,
            name: "APF",
            declared_form: "CSV",
            formats: &[UkCbFormat::Csv],
            declared_frequency: "周/操作日",
        },
        UkCbSourcePlan {
            id: UkCbSourceId::S05,
            name: "市场操作",
            declared_form: "CSV",
            formats: &[UkCbFormat::Csv],
            declared_frequency: "操作日",
        },
        UkCbSourcePlan {
            id: UkCbSourceId::S06,
            name: "SONIA `IUDSOIA`",
            declared_form: "日 T+1",
            formats: &[],
            declared_frequency: "日",
        },
        UkCbSourcePlan {
            id: UkCbSourceId::S07,
            name: "收益率曲线 ZIP",
            declared_form: "ZIP",
            formats: &[UkCbFormat::Zip, UkCbFormat::Xlsx],
            declared_frequency: "日",
        },
        UkCbSourcePlan {
            id: UkCbSourceId::S08,
            name: "汇率 XUDL*",
            declared_form: "日",
            formats: &[],
            declared_frequency: "日",
        },
        UkCbSourcePlan {
            id: UkCbSourceId::S09,
            name: "货币信贷",
            declared_form: "月",
            formats: &[],
            declared_frequency: "月",
        },
        UkCbSourcePlan {
            id: UkCbSourceId::S10,
            name: "DMO Gilt",
            declared_form: "CSV",
            formats: &[UkCbFormat::Csv],
            declared_frequency: "日/事件",
        },
        UkCbSourcePlan {
            id: UkCbSourceId::S11,
            name: "ONS CPI/RPI",
            declared_form: "JSON",
            formats: &[UkCbFormat::Json],
            declared_frequency: "月",
        }
    ];
    assert(r@ =~= spec_source_plans());
    r
}

impl UkCbSourceId {
    /// The position of this source in the registry.
    pub open spec fn spec_index(self) -> int {
        match self {
            UkCbSourceId::S01 => 0,
            UkCbSourceId::S02 => 1,
            UkCbSourceId::S03 => 2,
            UkCbSourceId::S04 => 3,
            UkCbSourceId::S05 => 4,
            UkCbSourceId::S06 => 5,
            UkCbSourceId::S07 => 6,
            UkCbSourceId::S08 => 7,
            UkCbSourceId::S09 => 8,
            UkCbSourceId::S10 => 9,
            UkCbSourceId::S11 => 10,
        }
    }

    /// The identifier text, `S01` to `S11`.
    pub open spec fn spec_str(self) -> Seq<char> {
        match self {
            UkCbSourceId::S01 => "S01"@,
            UkCbSourceId::S02 => "S02"@,
            UkCbSourceId::S03 => "S03"@,
            UkCbSourceId::S04 => "S04"@,
            UkCbSourceId::S05 => "S05"@,
            UkCbSourceId::S06 => "S06"@,
            UkCbSourceId::S07 => "S07"@,
            UkCbSourceId::S08 => "S08"@,
            UkCbSourceId::S09 => "S09"@,
            UkCbSourceId::S10 => "S10"@,
            UkCbSourceId::S11 => "S11"@,
        }
    }

    /// The identifier text.
    pub fn as_str(self) -> (r: &'static str)
        ensures
            r@ == self.spec_str(),
    {
        match self {
            UkCbSourceId::S01 => "S01",
            UkCbSourceId::S02 => "S02",
            UkCbSourceId::S03 => "S03",
            UkCbSourceId::S04 => "S04",
            UkCbSourceId::S05 => "S05",
            UkCbSourceId::S06 => "S06",
            UkCbSourceId::S07 => "S07",
            UkCbSourceId::S08 => "S08",
            UkCbSourceId::S09 => "S09",
            UkCbSourceId::S10 => "S10",
            UkCbSourceId::S11 => "S11",
        }
    }

    /// Whether this is the yield-curve source (S07), whose products go to the
    /// `yield_curve` slot and are never written as observations.
    pub fn is_curve(self) -> (r: bool)
        ensures
            r == (self == UkCbSourceId::S07),
    {
        match self {
            UkCbSourceId::S07 => true,
            _ => false,
        }
    }

    /// The registry entry of this source.
    pub fn plan(self) -> (r: UkCbSourcePlan)
        ensures
            r == spec_source_plans()[self.spec_index()],
    {
        let index: usize = match self {
            UkCbSourceId::S01 => 0,
            UkCbSourceId::S02 => 1,
            UkCbSourceId::S03 => 2,
            UkCbSourceId::S04 => 3,
            UkCbSourceId::S05 => 4,
            UkCbSourceId::S06 => 5,
            UkCbSourceId::S07 => 6,
            UkCbSourceId::S08 => 7,
            UkCbSourceId::S09 => 8,
            UkCbSourceId::S10 => 9,
            UkCbSourceId::S11 => 10,
        };
        let plans = source_plans();
        plans[index]
    }
}

/// Every registry entry is the one that its own identifier looks up, and the
/// registry lists S01 to S11 in order.
pub proof fn law_registry_lookup_is_consistent(i: int)
    requires
        0 <= i < 11,
    ensures
        spec_source_plans()[i].id.spec_index() == i,
        spec_source_plans()[spec_source_plans()[i].id.spec_index()] == spec_source_plans()[i],
{
}

/// The six key IADB codes of the manifest (the seed of the planned whitelist).
#[non_exhaustive]
#[derive(Debug, Clone, Copy, PartialEq, Eq, Hash, Structural)]
pub enum UkCbIadbCode {
    /// Official Bank Rate.
    Iudbedr,
    /// SONIA.
    Iudsoia,
    /// Reserve balances (weekly).
    Rpwb55a,
    /// M4 stock.
    Lpmauyn,
    /// GBP/USD.
    Xudluss,
    /// Sterling effective exchange rate.
    Xudleri,
}

/// The six key codes, in manifest order.
pub open spec fn spec_iadb_key_codes() -> Seq<UkCbIadbCode> {
    seq![UkCbIadbCode::Iudbedr, UkCbIadbCode::Iudsoia, UkCbIadbCode::Rpwb55a, UkCbIadbCode::Lpmauyn, UkCbIadbCode::Xudluss, UkCbIadbCode::Xudleri]
}

/// The six key codes, in manifest order.
pub fn iadb_key_codes() -> (r: [UkCbIadbCode; 6])
    ensures
        r@ == spec_iadb_key_codes(),
{
    let r = [UkCbIadbCode::Iudbedr, UkCbIadbCode::Iudsoia, UkCbIadbCode::Rpwb55a, UkCbIadbCode::Lpmauyn, UkCbIadbCode::Xudluss, UkCbIadbCode::Xudleri];
    assert(r@ =~= spec_iadb_key_codes());
    r
}

impl UkCbIadbCode {
    /// The code as the manifest spells it.
    pub open spec fn spec_str(self) -> Seq<char> {
        match self {
            UkCbIadbCode::Iudbedr => "IUDBEDR"@,
            UkCbIadbCode::Iudsoia => "IUDSOIA"@,
            UkCbIadbCode::Rpwb55a => "RPWB55A"@,
            UkCbIadbCode::Lpmauyn => "LPMAUYN"@,
            UkCbIadbCode::Xudluss => "XUDLUSS"@,
            UkCbIadbCode::Xudleri => "XUDLERI"@,
        }
    }

    /// The key code spelled exactly `s` (case-sensitive), if any.
    pub open spec fn spec_from(s: Seq<char>) -> Option<UkCbIadbCode> {
        if s == "IUDBEDR"@ { Some(UkCbIadbCode::Iudbedr) } else if s == "IUDSOIA"@ { Some(UkCbIadbCode::Iudsoia) } else if s == "RPWB55A"@ { Some(UkCbIadbCode::Rpwb55a) } else if s == "LPMAUYN"@ { Some(UkCbIadbCode::Lpmauyn) } else if s == "XUDLUSS"@ { Some(UkCbIadbCode::Xudluss) } else if s == "XUDLERI"@ { Some(UkCbIadbCode::Xudleri) } else { None }
    }

    /// The code as the manifest spells it.
    pub fn as_str(self) -> (r: &'static str)
        ensures
            r@ == self.spec_str(),
    {
        match self {
            UkCbIadbCode::Iudbedr => "IUDBEDR",
            UkCbIadbCode::Iudsoia => "IUDSOIA",
            UkCbIadbCode::Rpwb55a => "RPWB55A",
            UkCbIadbCode::Lpmauyn => "LPMAUYN",
            UkCbIadbCode::Xudluss => "XUDLUSS",
            UkCbIadbCode::Xudleri => "XUDLERI",
        }
    }

    /// Selects a key code strictly among the six seeds: case-sensitive, no
    /// near matches; anything else is rejected, since the full set is not pinned.
    pub fn from_code(code: &str) -> (r: UkCbResult<Self>)
        ensures
            r is Ok <==> UkCbIadbCode::spec_from(code@) is Some,
            r matches Ok(c) ==> UkCbIadbCode::spec_from(code@) == Some(c),
            r matches Err(e) ==> e.spec_kind() == UkCbErrorKind::SemanticallyRejected
                && e.spec_detail() == code_refusal(),
    {
        let candidates = iadb_key_codes();
        let mut i: usize = 0;
        while i < 6
            invariant
                0 <= i <= 6,
                candidates@ == spec_iadb_key_codes(),
                forall|j: int| 0 <= j < i ==> candidates@[j].spec_str() != code@,
            decreases 6 - i,
        {
            let candidate = candidates[i];
            if same_text(candidate.as_str(), code) {
                proof {
                    law_key_code_spelling_round_trip(candidate);
                }
                return Ok(candidate);
            }
            i = i + 1;
        }
        Err(
            UkCbError::SemanticallyRejected(
                String::from_str("IADB 码不在清单 §1.2 的 6 个关键种子内；本层不得自行扩集"),
            ),
        )
    }
}

/// The message refusing a text as a key code (the text itself is not quoted).
pub open spec fn code_refusal() -> Seq<char> {
    "IADB 码不在清单 §1.2 的 6 个关键种子内；本层不得自行扩集"@
}

/// Reading back the spelling of a key code gives the same code.
pub proof fn law_key_code_spelling_round_trip(c: UkCbIadbCode)
    ensures
        UkCbIadbCode::spec_from(c.spec_str()) == Some(c),
{
    match c {
        UkCbIadbCode::Iudbedr => {
            reveal_strlit("IUDBEDR");
        },
        UkCbIadbCode::Iudsoia => {
            reveal_strlit("IUDSOIA");
            reveal_strlit("IUDBEDR");
            assert("IUDSOIA"@[3] != "IUDBEDR"@[3]);
        },
        UkCbIadbCode::Rpwb55a => {
            reveal_strlit("RPWB55A");
            reveal_strlit("IUDBEDR");
            assert("RPWB55A"@[0] != "IUDBEDR"@[0]);
            reveal_strlit("IUDSOIA");
            assert("RPWB55A"@[0] != "IUDSOIA"@[0]);
        },
        UkCbIadbCode::Lpmauyn => {
            reveal_strlit("LPMAUYN");
            reveal_strlit("IUDBEDR");
            assert("LPMAUYN"@[0] != "IUDBEDR"@[0]);
            reveal_strlit("IUDSOIA");
            assert("LPMAUYN"@[0] != "IUDSOIA"@[0]);
            reveal_strlit("RPWB55A");
            assert("LPMAUYN"@[0] != "RPWB55A"@[0]);
        },
        UkCbIadbCode::Xudluss => {
            reveal_strlit("XUDLUSS");
            reveal_strlit("IUDBEDR");
            assert("XUDLUSS"@[0] != "IUDBEDR"@[0]);
            reveal_strlit("IUDSOIA");
            assert("XUDLUSS"@[0] != "IUDSOIA"@[0]);
            reveal_strlit("RPWB55A");
            assert("XUDLUSS"@[0] != "RPWB55A"@[0]);
            reveal_strlit("LPMAUYN");
            assert("XUDLUSS"@[0] != "LPMAUYN"@[0]);
        },
        UkCbIadbCode::Xudleri => {
            reveal_strlit("XUDLERI");
            reveal_strlit("IUDBEDR");
            assert("XUDLERI"@[0] != "IUDBEDR"@[0]);
            reveal_strlit("IUDSOIA");
            assert("XUDLERI"@[0] != "IUDSOIA"@[0]);
            reveal_strlit("RPWB55A");
            assert("XUDLERI"@[0] != "RPWB55A"@[0]);
            reveal_strlit("LPMAUYN");
            assert("XUDLERI"@[0] != "LPMAUYN"@[0]);
            reveal_strlit("XUDLUSS");
            assert("XUDLERI"@[4] != "XUDLUSS"@[4]);
        },
    }
}

/// The key-code guard accepts exactly the six seeds: a text is accepted if and only
/// if it spells one of them, and what it returns is the code it spells.
pub proof fn law_key_codes_are_exactly_the_six_seeds(s: Seq<char>)
    ensures
        UkCbIadbCode::spec_from(s) is Some <==> exists|i: int|
            0 <= i < 6 && (#[trigger] spec_iadb_key_codes()[i]).spec_str() == s,
        UkCbIadbCode::spec_from(s) matches Some(c) ==> c.spec_str() == s,
{
    if let Some(c) = UkCbIadbCode::spec_from(s) {
        let i: int = match c {
            UkCbIadbCode::Iudbedr => 0,
            UkCbIadbCode::Iudsoia => 1,
            UkCbIadbCode::Rpwb55a => 2,
            UkCbIadbCode::Lpmauyn => 3,
            UkCbIadbCode::Xudluss => 4,
            UkCbIadbCode::Xudleri => 5,
        };
        assert(spec_iadb_key_codes()[i] == c);
    }
}

/// The key-code guard in free-function form (see [`UkCbIadbCode::from_code`]).
pub fn iadb_code(code: &str) -> (r: UkCbResult<UkCbIadbCode>)
    ensures
        r is Ok <==> UkCbIadbCode::spec_from(code@) is Some,
        r matches Ok(c) ==> UkCbIadbCode::spec_from(code@) == Some(c),
        r matches Err(e) ==> e.spec_kind() == UkCbErrorKind::SemanticallyRejected
            && e.spec_detail() == code_refusal(),
{
    UkCbIadbCode::from_code(code)
}

/// Where curve products go.
#[derive(Debug, Clone, Copy, PartialEq, Eq)]
pub struct CurveRoute {
    /// The target slot.
    pub slot: &'static str,
    /// The providers that the manifest names for that slot.
    pub providers: [&'static str; 2],
}

/// The curve route: S07 yield curves go to `yield_curve` (#11 `boe_iadb` / #12 `uk_dmo`).
pub open spec fn spec_curve_route() -> CurveRoute {
    CurveRoute { slot: "yield_curve", providers: ["boe_iadb", "uk_dmo"] }
}

/// The curve route: S07 yield curves go to `yield_curve` (#11 `boe_iadb` / #12 `uk_dmo`).
pub fn curve_route() -> (r: CurveRoute)
    ensures
        r == spec_curve_route(),
{
    CurveRoute { slot: "yield_curve", providers: ["boe_iadb", "uk_dmo"] }
}

/// The message refusing the curve source: it names the slot and its providers.
pub open spec fn curve_refusal() -> Seq<char> {
    "S07 收益率曲线归 yield_curve（#11 boe_iadb / #12 uk_dmo），不得直写观测"@
}

/// The curve guard: a curve source is refused and pointed at `yield_curve`; it is
/// never written as observations.
pub fn guard_curve(source: UkCbSourceId) -> (r: UkCbResult<()>)
    ensures
        r is Ok <==> source != UkCbSourceId::S07,
        r matches Err(e) ==> e.spec_kind() == UkCbErrorKind::RoutedElsewhere && e.spec_detail()
            == curve_refusal(),
{
    if source.is_curve() {
        let route = curve_route();
        let mut msg = joined(source.as_str(), " 收益率曲线归 ");
        msg.append(route.slot);
        msg.append("（#11 ");
        msg.append(route.providers[0]);
        msg.append(" / #12 ");
        msg.append(route.providers[1]);
        msg.append("），不得直写观测");
        proof {
            reveal_strlit("S07");
            reveal_strlit(" 收益率曲线归 ");
            reveal_strlit("yield_curve");
            reveal_strlit("（#11 ");
            reveal_strlit("boe_iadb");
            reveal_strlit(" / #12 ");
            reveal_strlit("uk_dmo");
            reveal_strlit("），不得直写观测");
            reveal_strlit("S07 收益率曲线归 yield_curve（#11 boe_iadb / #12 uk_dmo），不得直写观测");
            assert(msg@ =~= "S07 收益率曲线归 yield_curve（#11 boe_iadb / #12 uk_dmo），不得直写观测"@);
        }
        return Err(UkCbError::RoutedElsewhere(msg));
    }
    Ok(())
}

/// A planned schedule window (planned UTC time, not an access contract).
#[derive(Debug, Clone, Copy, PartialEq, Eq)]
pub struct UkCbScheduleWindow {
    /// What the window is for.
    pub label: &'static str,
    /// Planned UTC time (`HH:MM`); none where the manifest only says "calendar driven".
    pub utc_time: Option<&'static str>,
    /// The manifest's schedule text, word for word.
    pub declared: &'static str,
}

/// The planned schedule of the manifest (planning only; see
/// [`PLANNED_SCHEDULE_IS_NOT_ACCESS_CONTRACT`]).
pub open spec fn spec_planned_schedule() -> Seq<UkCbScheduleWindow> {
    seq![
        UkCbScheduleWindow { label: "SONIA 首次发布", utc_time: Some("08:05"), declared: "SONIA 08:05/08:35" },
        UkCbScheduleWindow { label: "SONIA 复核", utc_time: Some("08:35"), declared: "SONIA 08:05/08:35" },
        UkCbScheduleWindow { label: "IADB 日度", utc_time: Some("16:30"), declared: "IADB 日度 16:30" },
        UkCbScheduleWindow { label: "Bank Return 周四轮询", utc_time: Some("15:05"), declared: "Bank Return 周四 15:05 轮询" },
        UkCbScheduleWindow { label: "APF 操作日", utc_time: Some("14:35"), declared: "APF 操作日 14:35" },
        UkCbScheduleWindow { label: "收益率曲线", utc_time: Some("18:00"), declared: "曲线 18:00" },
        UkCbScheduleWindow { label: "月度日历驱动", utc_time: None, declared: "月度日历驱动" },
        UkCbScheduleWindow { label: "补采校验", utc_time: Some("02:00"), declared: "02:00 补采校验" }
    ]
}

/// The planned schedule of the manifest (planning only; see
/// [`PLANNED_SCHEDULE_IS_NOT_ACCESS_CONTRACT`]).
pub fn planned_schedule() -> (r: [UkCbScheduleWindow; 8])
    ensures
        r@ == spec_planned_schedule(),
{
    let r = [
        UkCbScheduleWindow { label: "SONIA 首次发布", utc_time: Some("08:05"), declared: "SONIA 08:05/08:35" },
        UkCbScheduleWindow { label: "SONIA 复核", utc_time: Some("08:35"), declared: "SONIA 08:05/08:35" },
        UkCbScheduleWindow { label: "IADB 日度", utc_time: Some("16:30"), declared: "IADB 日度 16:30" },
        UkCbScheduleWindow { label: "Bank Return 周四轮询", utc_time: Some("15:05"), declared: "Bank Return 周四 15:05 轮询" },
        UkCbScheduleWindow { label: "APF 操作日", utc_time: Some("14:35"), declared: "APF 操作日 14:35" },
        UkCbScheduleWindow { label: "收益率曲线", utc_time: Some("18:00"), declared: "曲线 18:00" },
        UkCbScheduleWindow { label: "月度日历驱动", utc_time: None, declared: "月度日历驱动" },
        UkCbScheduleWindow { label: "补采校验", utc_time: Some("02:00"), declared: "02:00 补采校验" }
    ];
    assert(r@ =~= spec_planned_schedule());
    r
}

} // verus!

use vstd::prelude::*;
use crate::json::as_int;
use crate::json::as_list;
use crate::json::as_text;
use crate::json::get_field;
use crate::json::is_null;
use crate::json::model_of;
use crate::json::number_text;
use crate::json::parse_value;
use crate::json::spec_json;
use crate::json::JsonModel;
use crate::song::ChartFamily;
use crate::song::spec_family_from_wire;
use crate::textfmt::str_eq;

verus! {

/// The five difficulty tiers of a chart, ordered from easiest to hardest.
#[derive(Clone, Copy, Debug, PartialEq, Eq, Structural)]
pub enum LevelLabel {
    Basic,
    Advanced,
    Expert,
    Master,
    ReMaster,
}

/// The position of a tier inside the ordered tier vocabulary.
pub open spec fn spec_label_index(l: LevelLabel) -> int {
    match l {
        LevelLabel::Basic => 0,
        LevelLabel::Advanced => 1,
        LevelLabel::Expert => 2,
        LevelLabel::Master => 3,
        LevelLabel::ReMaster => 4,
    }
}

/// The tag a tier is spelled with on the wire; the top tier carries an
/// embedded colon.
pub open spec fn spec_label_wire(l: LevelLabel) -> Seq<char> {
    match l {
        LevelLabel::Basic => "Basic"@,
        LevelLabel::Advanced => "Advanced"@,
        LevelLabel::Expert => "Expert"@,
        LevelLabel::Master => "Master"@,
        LevelLabel::ReMaster => "Re:MASTER"@,
    }
}

/// The tier a wire tag decodes to; the vocabulary is closed, so an
/// unrecognized tag decodes to nothing.
pub open spec fn spec_label_from_wire(s: Seq<char>) -> Option<LevelLabel> {
    if s == "Basic"@ {
        Some(LevelLabel::Basic)
    } else if s == "Advanced"@ {
        Some(LevelLabel::Advanced)
    } else if s == "Expert"@ {
        Some(LevelLabel::Expert)
    } else if s == "Master"@ {
        Some(LevelLabel::Master)
    } else if s == "Re:MASTER"@ {
        Some(LevelLabel::ReMaster)
    } else {
        None
    }
}

impl LevelLabel {
    pub fn tier_index(&self) -> (i: usize)
        ensures
            i == spec_label_index(*self),
            i < 5,
    {
        match self {
            LevelLabel::Basic => 0,
            LevelLabel::Advanced => 1,
            LevelLabel::Expert => 2,
            LevelLabel::Master => 3,
            LevelLabel::ReMaster => 4,
        }
    }

    pub fn wire_str(&self) -> (r: &'static str)
        ensures
            r@ == spec_label_wire(*self),
    {
        match self {
            LevelLabel::Basic => "Basic",
            LevelLabel::Advanced => "Advanced",
            LevelLabel::Expert => "Expert",
            LevelLabel::Master => "Master",
            LevelLabel::ReMaster => "Re:MASTER",
        }
    }

    pub fn from_wire(s: &str) -> (r: Option<LevelLabel>)
        ensures
            r == spec_label_from_wire(s@),
    {
        if str_eq(s, "Basic") {
            Some(LevelLabel::Basic)
        } else if str_eq(s, "Advanced") {
            Some(LevelLabel::Advanced)
        } else if str_eq(s, "Expert") {
            Some(LevelLabel::Expert)
        } else if str_eq(s, "Master") {
            Some(LevelLabel::Master)
        } else if str_eq(s, "Re:MASTER") {
            Some(LevelLabel::ReMaster)
        } else {
            None
        }
    }
}

/// The fourteen letter grades, ordered from worst to best. The ordering is
/// informational for display; it never takes part in ranking.
#[derive(Clone, Copy, Debug, PartialEq, Eq, Structural)]
pub enum ChartRate {
    D,
    C,
    B,
    BB,
    BBB,
    A,
    AA,
    AAA,
    S,
    SP,
    SS,
    SSP,
    SSS,
    SSSP,
}

/// The position of a grade inside the ordered grade vocabulary.
pub open spec fn spec_rate_index(r: ChartRate) -> int {
    match r {
        ChartRate::D => 0,
        ChartRate::C => 1,
        ChartRate::B => 2,
        ChartRate::BB => 3,
        ChartRate::BBB => 4,
        ChartRate::A => 5,
        ChartRate::AA => 6,
        ChartRate::AAA => 7,
        ChartRate::S => 8,
        ChartRate::SP => 9,
        ChartRate::SS => 10,
        ChartRate::SSP => 11,
        ChartRate::SSS => 12,
        ChartRate::SSSP => 13,
    }
}

/// The grade a lowercase wire token decodes to; the vocabulary is closed.
pub open spec fn spec_rate_from_wire(s: Seq<char>) -> Option<ChartRate> {
    if s == "d"@ {
        Some(ChartRate::D)
    } else if s == "c"@ {
        Some(ChartRate::C)
    } else if s == "b"@ {
        Some(ChartRate::B)
    } else if s == "bb"@ {
        Some(ChartRate::BB)
    } else if s == "bbb"@ {
        Some(ChartRate::BBB)
    } else if s == "a"@ {
        Some(ChartRate::A)
    } else if s == "aa"@ {
        Some(ChartRate::AA)
    } else if s == "aaa"@ {
        Some(ChartRate::AAA)
    } else if s == "s"@ {
        Some(ChartRate::S)
    } else if s == "sp"@ {
        Some(ChartRate::SP)
    } else if s == "ss"@ {
        Some(ChartRate::SS)
    } else if s == "ssp"@ {
        Some(ChartRate::SSP)
    } else if s == "sss"@ {
        Some(ChartRate::SSS)
    } else if s == "sssp"@ {
        Some(ChartRate::SSSP)
    } else {
        None
    }
}

/// The label a grade is displayed with: the wire token in capitals, with a
/// plus sign for the tokens that end in `p`.
pub open spec fn spec_rate_display(r: ChartRate) -> Seq<char> {
    match r {
        ChartRate::D => "D"@,
        ChartRate::C => "C"@,
        ChartRate::B => "B"@,
        ChartRate::BB => "BB"@,
        ChartRate::BBB => "BBB"@,
        ChartRate::A => "A"@,
        ChartRate::AA => "AA"@,
        ChartRate::AAA => "AAA"@,
        ChartRate::S => "S"@,
        ChartRate::SP => "S+"@,
        ChartRate::SS => "SS"@,
        ChartRate::SSP => "SS+"@,
        ChartRate::SSS => "SSS"@,
        ChartRate::SSSP => "SSS+"@,
    }
}

impl ChartRate {
    pub fn grade_index(&self) -> (i: usize)
        ensures
            i == spec_rate_index(*self),
            i < 14,
    {
        match self {
            ChartRate::D => 0,
            ChartRate::C => 1,
            ChartRate::B => 2,
            ChartRate::BB => 3,
            ChartRate::BBB => 4,
            ChartRate::A => 5,
            ChartRate::AA => 6,
            ChartRate::AAA => 7,
            ChartRate::S => 8,
            ChartRate::SP => 9,
            ChartRate::SS => 10,
            ChartRate::SSP => 11,
            ChartRate::SSS => 12,
            ChartRate::SSSP => 13,
        }
    }

    pub fn display_str(&self) -> (r: &'static str)
        ensures
            r@ == spec_rate_display(*self),
    {
        match self {
            ChartRate::D => "D",
            ChartRate::C => "C",
            ChartRate::B => "B",
            ChartRate::BB => "BB",
            ChartRate::BBB => "BBB",
            ChartRate::A => "A",
            ChartRate::AA => "AA",
            ChartRate::AAA => "AAA",
            ChartRate::S => "S",
            ChartRate::SP => "S+",
            ChartRate::SS => "SS",
            ChartRate::SSP => "SS+",
            ChartRate::SSS => "SSS",
            ChartRate::SSSP => "SSS+",
        }
    }

    pub fn from_wire(s: &str) -> (r: Option<ChartRate>)
        ensures
            r == spec_rate_from_wire(s@),
    {
        if str_eq(s, "d") {
            Some(ChartRate::D)
        } else if str_eq(s, "c") {
            Some(ChartRate::C)
        } else if str_eq(s, "b") {
            Some(ChartRate::B)
        } else if str_eq(s, "bb") {
            Some(ChartRate::BB)
        } else if str_eq(s, "bbb") {
            Some(ChartRate::BBB)
        } else if str_eq(s, "a") {
            Some(ChartRate::A)
        } else if str_eq(s, "aa") {
            Some(ChartRate::AA)
        } else if str_eq(s, "aaa") {
            Some(ChartRate::AAA)
        } else if str_eq(s, "s") {
            Some(ChartRate::S)
        } else if str_eq(s, "sp") {
            Some(ChartRate::SP)
        } else if str_eq(s, "ss") {
            Some(ChartRate::SS)
        } else if str_eq(s, "ssp") {
            Some(ChartRate::SSP)
        } else if str_eq(s, "sss") {
            Some(ChartRate::SSS)
        } else if str_eq(s, "sssp") {
            Some(ChartRate::SSSP)
        } else {
            None
        }
    }
}

/// The full-combo badge of one play, from none up to all-perfect-plus.
#[derive(Clone, Copy, Debug, PartialEq, Eq, Structural)]
pub enum FullComboTier {
    NoFc,
    Fc,
    FcPlus,
    Ap,
    ApPlus,
}

/// The full-combo badge a wire token decodes to; an empty token means no
/// badge, and the vocabulary is closed.
pub open spec fn spec_fc_from_wire(s: Seq<char>) -> Option<FullComboTier> {
    if s == ""@ {
        Some(FullComboTier::NoFc)
    } else if s == "fc"@ {
        Some(FullComboTier::Fc)
    } else if s == "fcp"@ {
        Some(FullComboTier::FcPlus)
    } else if s == "ap"@ {
        Some(FullComboTier::Ap)
    } else if s == "app"@ {
        Some(FullComboTier::ApPlus)
    } else {
        None
    }
}

impl FullComboTier {
    pub fn from_wire(s: &str) -> (r: Option<FullComboTier>)
        ensures
            r == spec_fc_from_wire(s@),
    {
        if str_eq(s, "") {
            Some(FullComboTier::NoFc)
        } else if str_eq(s, "fc") {
            Some(FullComboTier::Fc)
        } else if str_eq(s, "fcp") {
            Some(FullComboTier::FcPlus)
        } else if str_eq(s, "ap") {
            Some(FullComboTier::Ap)
        } else if str_eq(s, "app") {
            Some(FullComboTier::ApPlus)
        } else {
            None
        }
    }
}

/// The full-sync badge of one play.
#[derive(Clone, Copy, Debug, PartialEq, Eq, Structural)]
pub enum FullSyncTier {
    NoFs,
    Fs,
    FsPlus,
    Fsd,
    FsdPlus,
}

/// The full-sync badge a wire token decodes to; an empty token means no
/// badge, and the vocabulary is closed.
pub open spec fn spec_fs_from_wire(s: Seq<char>) -> Option<FullSyncTier> {
    if s == ""@ {
        Some(FullSyncTier::NoFs)
    } else if s == "fs"@ {
        Some(FullSyncTier::Fs)
    } else if s == "fsp"@ {
        Some(FullSyncTier::FsPlus)
    } else if s == "fsd"@ {
        Some(FullSyncTier::Fsd)
    } else if s == "fsdp"@ {
        Some(FullSyncTier::FsdPlus)
    } else {
        None
    }
}

impl FullSyncTier {
    pub fn from_wire(s: &str) -> (r: Option<FullSyncTier>)
        ensures
            r == spec_fs_from_wire(s@),
    {
        if str_eq(s, "") {
            Some(FullSyncTier::NoFs)
        } else if str_eq(s, "fs") {
            Some(FullSyncTier::Fs)
        } else if str_eq(s, "fsp") {
            Some(FullSyncTier::FsPlus)
        } else if str_eq(s, "fsd") {
            Some(FullSyncTier::Fsd)
        } else if str_eq(s, "fsdp") {
            Some(FullSyncTier::FsdPlus)
        } else {
            None
        }
    }
}

/// One ranked play on one chart. The rating contribution `ra` is the sole
/// ranking key; every other field is informational. The achievement rate and
/// the chart constant are kept as the decimal text the service sent, since
/// the pipeline only ever displays them.
pub struct ChartInfoResponse {
    pub achievements: String,
    pub ds: String,
    pub dx_score: i32,
    pub fc: FullComboTier,
    pub fs: FullSyncTier,
    pub level: String,
    pub level_index: i32,
    pub level_label: LevelLabel,
    pub ra: i32,
    pub rate: ChartRate,
    pub song_id: i32,
    pub title: String,
    pub song_type: ChartFamily,
}

impl ChartInfoResponse {
    /// A record is well formed when its tier position names one of the five
    /// tiers.
    pub open spec fn wf(self) -> bool {
        0 <= self.level_index <= 4
    }
}

/// The two chart-play collections of a payload, one per chart family.
pub struct Charts {
    pub dx: Vec<ChartInfoResponse>,
    pub sd: Vec<ChartInfoResponse>,
}

/// A player's best-plays record as the score service reports it.
pub struct B50Response {
    pub username: String,
    pub charts: Charts,
    pub nickname: String,
    pub rating: i32,
    pub additional_rating: i32,
    pub plate: String,
    pub user_general_data: Option<String>,
}

impl B50Response {
    pub open spec fn wf(self) -> bool {
        &&& forall|i: int| 0 <= i < self.charts.dx@.len() ==> (#[trigger] self.charts.dx@[i]).wf()
        &&& forall|i: int| 0 <= i < self.charts.sd@.len() ==> (#[trigger] self.charts.sd@[i]).wf()
    }
}

/// How one lookup fails. Every failure is classified exactly once, at the
/// boundary where it happens, and none is downgraded to empty output.
#[derive(Clone, Copy, Debug, PartialEq, Eq, Structural)]
pub enum QueryFailure {
    /// The request never produced a status: a connection-level failure.
    TransportFailure,
    /// The service does not know the queried username.
    UnknownUser,
    /// The player has opted out of sharing their data.
    AccessDenied,
    /// Any other non-success status of the service.
    ServiceUnavailable,
    /// The response body could not be decoded into the expected shape.
    MalformedPayload,
    /// No catalog entry matched an ID or a fuzzy query.
    CatalogLookupEmpty,
}

/// The failure kind each transport status maps to: success parses on,
/// a missing player and an opted-out player are told apart, and every other
/// status is the service being unavailable.
pub open spec fn spec_classify_status(status: u16) -> Result<(), QueryFailure> {
    if status == 200 {
        Ok(())
    } else if status == 400 {
        Err(QueryFailure::UnknownUser)
    } else if status == 403 {
        Err(QueryFailure::AccessDenied)
    } else {
        Err(QueryFailure::ServiceUnavailable)
    }
}

/// Maps the transport status of a lookup to its failure kind before any
/// payload parsing is attempted.
pub fn classify_status(status: u16) -> (r: Result<(), QueryFailure>)
    ensures
        r == spec_classify_status(status),
{
    match status {
        200 => Ok(()),
        400 => Err(QueryFailure::UnknownUser),
        403 => Err(QueryFailure::AccessDenied),
        _ => Err(QueryFailure::ServiceUnavailable),
    }
}

/// The fields of one chart-performance object, as plain values freshly
/// pulled out of the payload and not yet validated.
pub struct RawChartFields {
    pub achievements: String,
    pub ds: String,
    pub dx_score: i64,
    pub fc: String,
    pub fs: String,
    pub level: String,
    pub level_index: i64,
    pub level_label: String,
    pub ra: i64,
    pub rate: String,
    pub song_id: i64,
    pub title: String,
    pub song_type: String,
}

/// Whether a value parsed from a payload integer fits the width the model
/// stores it at.
pub open spec fn fits_i32(n: int) -> bool {
    i32::MIN <= n <= i32::MAX
}

impl RawChartFields {
    /// Whether every enum-coded field of a raw record decodes against its
    /// closed vocabulary and every integer field fits its modelled width.
    pub open spec fn spec_decodes(self) -> bool {
        &&& spec_label_from_wire(self.level_label@) is Some
        &&& spec_rate_from_wire(self.rate@) is Some
        &&& spec_family_from_wire(self.song_type@) is Some
        &&& spec_fc_from_wire(self.fc@) is Some
        &&& spec_fs_from_wire(self.fs@) is Some
        &&& 0 <= self.level_index <= 4
        &&& fits_i32(self.dx_score as int)
        &&& fits_i32(self.ra as int)
        &&& fits_i32(self.song_id as int)
    }
}

/// Validates one raw chart-performance record against the closed wire
/// vocabularies. A record decodes if and only if every coded field is
/// recognized; there is no fallback for unknown tags, since accepting an
/// unknown tier would corrupt ranking and column layout.
pub fn decode_chart_entry(raw: RawChartFields) -> (r: Option<ChartInfoResponse>)
    ensures
        r is Some <==> raw.spec_decodes(),
        r is Some ==> {
            let c = r.unwrap();
            &&& c.achievements == raw.achievements
            &&& c.ds == raw.ds
            &&& c.dx_score == raw.dx_score as i32
            &&& Some(c.fc) == spec_fc_from_wire(raw.fc@)
            &&& Some(c.fs) == spec_fs_from_wire(raw.fs@)
            &&& c.level == raw.level
            &&& c.level_index == raw.level_index as i32
            &&& Some(c.level_label) == spec_label_from_wire(raw.level_label@)
            &&& c.ra == raw.ra as i32
            &&& Some(c.rate) == spec_rate_from_wire(raw.rate@)
            &&& c.song_id == raw.song_id as i32
            &&& c.title == raw.title
            &&& Some(c.song_type) == spec_family_from_wire(raw.song_type@)
            &&& c.wf()
        },
{
    let level_label = match LevelLabel::from_wire(raw.level_label.as_str()) {
        Some(l) => l,
        None => {
            return None;
        },
    };
    let rate = match ChartRate::from_wire(raw.rate.as_str()) {
        Some(g) => g,
        None => {
            return None;
        },
    };
    let song_type = match ChartFamily::from_wire(raw.song_type.as_str()) {
        Some(f) => f,
        None => {
            return None;
        },
    };
    let fc = match FullComboTier::from_wire(raw.fc.as_str()) {
        Some(t) => t,
        None => {
            return None;
        },
    };
    let fs = match FullSyncTier::from_wire(raw.fs.as_str()) {
        Some(t) => t,
        None => {
            return None;
        },
    };
    if !(0 <= raw.level_index && raw.level_index <= 4) {
        return None;
    }
    if raw.dx_score < i32::MIN as i64 || raw.dx_score > i32::MAX as i64 {
        return None;
    }
    if raw.ra < i32::MIN as i64 || raw.ra > i32::MAX as i64 {
        return None;
    }
    if raw.song_id < i32::MIN as i64 || raw.song_id > i32::MAX as i64 {
        return None;
    }
    Some(
        ChartInfoResponse {
            achievements: raw.achievements,
            ds: raw.ds,
            dx_score: raw.dx_score as i32,
            fc,
            fs,
            level: raw.level,
            level_index: raw.level_index as i32,
            level_label,
            ra: raw.ra as i32,
            rate,
            song_id: raw.song_id as i32,
            title: raw.title,
            song_type,
        },
    )
}

/// The value an object model holds under a key; nothing for a non-object
/// model or a missing key.
pub open spec fn jm_field(m: JsonModel, key: Seq<char>) -> Option<JsonModel> {
    match m {
        JsonModel::Obj(map) => if map.contains_key(key) {
            Some(map[key])
        } else {
            None
        },
        _ => None,
    }
}

/// The text of a string field.
pub open spec fn jm_field_text(m: JsonModel, key: Seq<char>) -> Option<Seq<char>> {
    match jm_field(m, key) {
        Some(JsonModel::Str(t)) => Some(t),
        _ => None,
    }
}

/// The integer of a number field that is an integer in signed 64-bit range.
pub open spec fn jm_field_int(m: JsonModel, key: Seq<char>) -> Option<int> {
    match jm_field(m, key) {
        Some(JsonModel::Num { int_val, .. }) => int_val,
        _ => None,
    }
}

/// The decimal display text of a number field.
pub open spec fn jm_field_numtext(m: JsonModel, key: Seq<char>) -> Option<Seq<char>> {
    match jm_field(m, key) {
        Some(JsonModel::Num { text, .. }) => Some(text),
        _ => None,
    }
}

/// The elements of an array field.
pub open spec fn jm_field_list(m: JsonModel, key: Seq<char>) -> Option<Seq<JsonModel>> {
    match jm_field(m, key) {
        Some(JsonModel::Arr(items)) => Some(items),
        _ => None,
    }
}

/// Whether one chart-performance object decodes: every field present with
/// its expected kind, every coded tag in its closed vocabulary, and every
/// integer within the width the model stores it at.
pub open spec fn spec_chart_decodes(m: JsonModel) -> bool {
    &&& jm_field_numtext(m, "achievements"@) is Some
    &&& jm_field_numtext(m, "ds"@) is Some
    &&& jm_field_int(m, "dxScore"@) is Some
    &&& fits_i32(jm_field_int(m, "dxScore"@).unwrap())
    &&& jm_field_text(m, "fc"@) is Some
    &&& spec_fc_from_wire(jm_field_text(m, "fc"@).unwrap()) is Some
    &&& jm_field_text(m, "fs"@) is Some
    &&& spec_fs_from_wire(jm_field_text(m, "fs"@).unwrap()) is Some
    &&& jm_field_text(m, "level"@) is Some
    &&& jm_field_int(m, "level_index"@) is Some
    &&& 0 <= jm_field_int(m, "level_index"@).unwrap() <= 4
    &&& jm_field_text(m, "level_label"@) is Some
    &&& spec_label_from_wire(jm_field_text(m, "level_label"@).unwrap()) is Some
    &&& jm_field_int(m, "ra"@) is Some
    &&& fits_i32(jm_field_int(m, "ra"@).unwrap())
    &&& jm_field_text(m, "rate"@) is Some
    &&& spec_rate_from_wire(jm_field_text(m, "rate"@).unwrap()) is Some
    &&& jm_field_int(m, "song_id"@) is Some
    &&& fits_i32(jm_field_int(m, "song_id"@).unwrap())
    &&& jm_field_text(m, "title"@) is Some
    &&& jm_field_text(m, "type"@) is Some
    &&& spec_family_from_wire(jm_field_text(m, "type"@).unwrap()) is Some
}

/// One typed record carries exactly the fields of one chart-performance
/// object: text preserved, integers preserved, coded tags decoded.
pub open spec fn record_matches(c: ChartInfoResponse, m: JsonModel) -> bool {
    &&& c.achievements@ == jm_field_numtext(m, "achievements"@).unwrap()
    &&& c.ds@ == jm_field_numtext(m, "ds"@).unwrap()
    &&& c.dx_score as int == jm_field_int(m, "dxScore"@).unwrap()
    &&& Some(c.fc) == spec_fc_from_wire(jm_field_text(m, "fc"@).unwrap())
    &&& Some(c.fs) == spec_fs_from_wire(jm_field_text(m, "fs"@).unwrap())
    &&& c.level@ == jm_field_text(m, "level"@).unwrap()
    &&& c.level_index as int == jm_field_int(m, "level_index"@).unwrap()
    &&& Some(c.level_label) == spec_label_from_wire(jm_field_text(m, "level_label"@).unwrap())
    &&& c.ra as int == jm_field_int(m, "ra"@).unwrap()
    &&& Some(c.rate) == spec_rate_from_wire(jm_field_text(m, "rate"@).unwrap())
    &&& c.song_id as int == jm_field_int(m, "song_id"@).unwrap()
    &&& c.title@ == jm_field_text(m, "title"@).unwrap()
    &&& Some(c.song_type) == spec_family_from_wire(jm_field_text(m, "type"@).unwrap())
}

/// Every object of a chart-performance array decodes.
pub open spec fn spec_list_decodes(items: Seq<JsonModel>) -> bool {
    forall|i: int| 0 <= i < items.len() ==> spec_chart_decodes(#[trigger] items[i])
}

/// The typed records carry a chart-performance array one to one, in payload
/// order.
pub open spec fn records_match(cs: Seq<ChartInfoResponse>, items: Seq<JsonModel>) -> bool {
    &&& cs.len() == items.len()
    &&& forall|i: int| 0 <= i < items.len() ==> record_matches(#[trigger] cs[i], items[i])
}

/// The optional free-form note is absent, null, or a string.
pub open spec fn spec_ugd_ok(m: JsonModel) -> bool {
    match jm_field(m, "user_general_data"@) {
        None => true,
        Some(f) => f is Null || f is Str,
    }
}

/// How the typed note field carries the payload's note field.
pub open spec fn spec_ugd_matches(o: Option<String>, f: Option<JsonModel>) -> bool {
    match f {
        None => o is None,
        Some(JsonModel::Null) => o is None,
        Some(JsonModel::Str(t)) => o is Some && o.unwrap()@ == t,
        Some(_) => false,
    }
}

/// Whether a whole payload decodes into the typed record set: the model is
/// an object with every required field of its expected kind, and both
/// chart-play collections decode entry by entry.
pub open spec fn spec_payload_decodes(m: JsonModel) -> bool {
    &&& jm_field_text(m, "username"@) is Some
    &&& jm_field_text(m, "nickname"@) is Some
    &&& jm_field_text(m, "plate"@) is Some
    &&& jm_field_int(m, "rating"@) is Some
    &&& fits_i32(jm_field_int(m, "rating"@).unwrap())
    &&& jm_field_int(m, "additional_rating"@) is Some
    &&& fits_i32(jm_field_int(m, "additional_rating"@).unwrap())
    &&& spec_ugd_ok(m)
    &&& jm_field(m, "charts"@) is Some
    &&& jm_field_list(jm_field(m, "charts"@).unwrap(), "dx"@) is Some
    &&& spec_list_decodes(jm_field_list(jm_field(m, "charts"@).unwrap(), "dx"@).unwrap())
    &&& jm_field_list(jm_field(m, "charts"@).unwrap(), "sd"@) is Some
    &&& spec_list_decodes(jm_field_list(jm_field(m, "charts"@).unwrap(), "sd"@).unwrap())
}

/// The typed response carries exactly the payload's fields: the plain
/// fields preserved, and both record collections in payload order.
pub open spec fn payload_matches(b: B50Response, m: JsonModel) -> bool {
    &&& b.username@ == jm_field_text(m, "username"@).unwrap()
    &&& b.nickname@ == jm_field_text(m, "nickname"@).unwrap()
    &&& b.plate@ == jm_field_text(m, "plate"@).unwrap()
    &&& b.rating as int == jm_field_int(m, "rating"@).unwrap()
    &&& b.additional_rating as int == jm_field_int(m, "additional_rating"@).unwrap()
    &&& spec_ugd_matches(b.user_general_data, jm_field(m, "user_general_data"@))
    &&& records_match(b.charts.dx@, jm_field_list(jm_field(m, "charts"@).unwrap(), "dx"@).unwrap())
    &&& records_match(b.charts.sd@, jm_field_list(jm_field(m, "charts"@).unwrap(), "sd"@).unwrap())
}

fn field_text(v: &serde_json::Value, key: &str) -> (r: Option<String>)
    ensures
        r is Some <==> jm_field_text(model_of(*v), key@) is Some,
        r matches Some(s) ==> s@ == jm_field_text(model_of(*v), key@).unwrap(),
{
    match get_field(v, key) {
        Some(f) => as_text(f),
        None => None,
    }
}

fn field_int(v: &serde_json::Value, key: &str) -> (r: Option<i64>)
    ensures
        r is Some <==> jm_field_int(model_of(*v), key@) is Some,
        r matches Some(n) ==> jm_field_int(model_of(*v), key@) == Some(n as int),
{
    match get_field(v, key) {
        Some(f) => as_int(f),
        None => None,
    }
}

fn field_number_text(v: &serde_json::Value, key: &str) -> (r: Option<String>)
    ensures
        r is Some <==> jm_field_numtext(model_of(*v), key@) is Some,
        r matches Some(s) ==> s@ == jm_field_numtext(model_of(*v), key@).unwrap(),
{
    match get_field(v, key) {
        Some(f) => number_text(f),
        None => None,
    }
}

/// Pulls the fields of one chart-performance object out of a payload value
/// and validates them; a record comes back if and only if no field is
/// missing, wrongly typed, or tagged outside its closed vocabulary, and it
/// carries the object's fields exactly.
fn parse_chart_value(v: &serde_json::Value) -> (r: Option<ChartInfoResponse>)
    ensures
        r is Some <==> spec_chart_decodes(model_of(*v)),
        r matches Some(c) ==> record_matches(c, model_of(*v)) && c.wf(),
{
    let achievements = match field_number_text(v, "achievements") {
        Some(x) => x,
        None => {
            return None;
        },
    };
    let ds = match field_number_text(v, "ds") {
        Some(x) => x,
        None => {
            return None;
        },
    };
    let dx_score = match field_int(v, "dxScore") {
        Some(x) => x,
        None => {
            return None;
        },
    };
    let fc = match field_text(v, "fc") {
        Some(x) => x,
        None => {
            return None;
        },
    };
    let fs = match field_text(v, "fs") {
        Some(x) => x,
        None => {
            return None;
        },
    };
    let level = match field_text(v, "level") {
        Some(x) => x,
        None => {
            return None;
        },
    };
    let level_index = match field_int(v, "level_index") {
        Some(x) => x,
        None => {
            return None;
        },
    };
    let level_label = match field_text(v, "level_label") {
        Some(x) => x,
        None => {
            return None;
        },
    };
    let ra = match field_int(v, "ra") {
        Some(x) => x,
        None => {
            return None;
        },
    };
    let rate = match field_text(v, "rate") {
        Some(x) => x,
        None => {
            return None;
        },
    };
    let song_id = match field_int(v, "song_id") {
        Some(x) => x,
        None => {
            return None;
        },
    };
    let title = match field_text(v, "title") {
        Some(x) => x,
        None => {
            return None;
        },
    };
    let song_type = match field_text(v, "type") {
        Some(x) => x,
        None => {
            return None;
        },
    };
    let raw = RawChartFields {
        achievements,
        ds,
        dx_score,
        fc,
        fs,
        level,
        level_index,
        level_label,
        ra,
        rate,
        song_id,
        title,
        song_type,
    };
    decode_chart_entry(raw)
}

/// The models of a sequence of parsed values, element by element.
pub open spec fn models_of(vs: Seq<serde_json::Value>) -> Seq<JsonModel> {
    Seq::new(vs.len(), |i: int| model_of(vs[i]))
}

fn parse_chart_list(list: &Vec<serde_json::Value>) -> (r: Option<Vec<ChartInfoResponse>>)
    ensures
        r is Some <==> spec_list_decodes(models_of(list@)),
        r matches Some(out) ==> records_match(out@, models_of(list@)) && forall|i: int|
            0 <= i < out@.len() ==> (#[trigger] out@[i]).wf(),
{
    let mut out: Vec<ChartInfoResponse> = Vec::new();
    let mut i: usize = 0;
    while i < list.len()
        invariant
            i <= list@.len(),
            out@.len() == i,
            forall|t: int|
                0 <= t < i ==> spec_chart_decodes(#[trigger] models_of(list@)[t]),
            forall|t: int|
                0 <= t < i ==> record_matches(#[trigger] out@[t], models_of(list@)[t]),
            forall|t: int| 0 <= t < out@.len() ==> (#[trigger] out@[t]).wf(),
        decreases list@.len() - i,
    {
        match parse_chart_value(&list[i]) {
            Some(c) => out.push(c),
            None => {
                proof {
                    assert(models_of(list@)[i as int] == model_of(list@[i as int]));
                    assert(!spec_chart_decodes(models_of(list@)[i as int]));
                }
                return None;
            },
        }
        i += 1;
    }
    Some(out)
}

/// Decodes a successful response body into the typed record set. Parsing
/// never defaults a field: it succeeds if and only if the body is JSON of
/// the expected shape — every required field present with its kind, every
/// coded tag in its closed vocabulary — and then carries the payload's
/// fields exactly, with both record collections in payload order. A body
/// that is not JSON, misses a required field, types one wrongly, or
/// carries an unrecognized tag is one malformed payload, and the only
/// failure this stage produces is `MalformedPayload`.
pub fn parse_b50_payload(text: &str) -> (r: Result<B50Response, QueryFailure>)
    ensures
        r is Ok <==> (spec_json(text@) is Some && spec_payload_decodes(spec_json(text@).unwrap())),
        r matches Ok(b) ==> payload_matches(b, spec_json(text@).unwrap()) && b.wf(),
        r matches Err(e) ==> e == QueryFailure::MalformedPayload,
{
    let root = match parse_value(text) {
        Some(v) => v,
        None => {
            return Err(QueryFailure::MalformedPayload);
        },
    };
    let ghost m = model_of(root);
    let username = match field_text(&root, "username") {
        Some(x) => x,
        None => {
            return Err(QueryFailure::MalformedPayload);
        },
    };
    let nickname = match field_text(&root, "nickname") {
        Some(x) => x,
        None => {
            return Err(QueryFailure::MalformedPayload);
        },
    };
    let plate = match field_text(&root, "plate") {
        Some(x) => x,
        None => {
            return Err(QueryFailure::MalformedPayload);
        },
    };
    let rating64 = match field_int(&root, "rating") {
        Some(x) => x,
        None => {
            return Err(QueryFailure::MalformedPayload);
        },
    };
    let additional64 = match field_int(&root, "additional_rating") {
        Some(x) => x,
        None => {
            return Err(QueryFailure::MalformedPayload);
        },
    };
    if rating64 < i32::MIN as i64 || rating64 > i32::MAX as i64 {
        return Err(QueryFailure::MalformedPayload);
    }
    if additional64 < i32::MIN as i64 || additional64 > i32::MAX as i64 {
        return Err(QueryFailure::MalformedPayload);
    }
    let user_general_data = match get_field(&root, "user_general_data") {
        Some(f) => {
            proof {
                assert(m is Obj);
                assert(jm_field(m, "user_general_data"@) == Some(model_of(*f)));
            }
            if is_null(f) {
                None
            } else {
                match as_text(f) {
                    Some(x) => Some(x),
                    None => {
                        proof {
                            assert(!spec_ugd_ok(m));
                        }
                        return Err(QueryFailure::MalformedPayload);
                    },
                }
            }
        },
        None => None,
    };
    let charts_value = match get_field(&root, "charts") {
        Some(f) => f,
        None => {
            return Err(QueryFailure::MalformedPayload);
        },
    };
    let ghost cm = model_of(*charts_value);
    proof {
        assert(m is Obj);
        assert(jm_field(m, "charts"@) == Some(cm));
    }
    let dx = match get_field(charts_value, "dx") {
        Some(f) => match as_list(f) {
            Some(l) => {
                proof {
                    assert(cm is Obj);
                    assert(jm_field(cm, "dx"@) == Some(model_of(*f)));
                    assert(jm_field_list(cm, "dx"@) == Some(model_of(*f)->Arr_0));
                    assert(models_of(l@) =~= model_of(*f)->Arr_0);
                }
                match parse_chart_list(l) {
                    Some(cs) => cs,
                    None => {
                        return Err(QueryFailure::MalformedPayload);
                    },
                }
            },
            None => {
                return Err(QueryFailure::MalformedPayload);
            },
        },
        None => {
            return Err(QueryFailure::MalformedPayload);
        },
    };
    let sd = match get_field(charts_value, "sd") {
        Some(f) => match as_list(f) {
            Some(l) => {
                proof {
                    assert(cm is Obj);
                    assert(jm_field(cm, "sd"@) == Some(model_of(*f)));
                    assert(jm_field_list(cm, "sd"@) == Some(model_of(*f)->Arr_0));
                    assert(models_of(l@) =~= model_of(*f)->Arr_0);
                }
                match parse_chart_list(l) {
                    Some(cs) => cs,
                    None => {
                        return Err(QueryFailure::MalformedPayload);
                    },
                }
            },
            None => {
                return Err(QueryFailure::MalformedPayload);
            },
        },
        None => {
            return Err(QueryFailure::MalformedPayload);
        },
    };
    let b = B50Response {
        username,
        charts: Charts { dx, sd },
        nickname,
        rating: rating64 as i32,
        additional_rating: additional64 as i32,
        plate,
        user_general_data,
    };
    proof {
        assert(spec_payload_decodes(m));
        assert(payload_matches(b, m));
    }
    Ok(b)
}

} // verus!

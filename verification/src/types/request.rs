//! The parameter set of each operation, and its encoding as query parameters.
//!
//! Every operation has an encoder of its own. An encoder puts the operation's
//! keys in a fixed order, each exactly once, and the typed input can be read
//! back from what it produced.

use vstd::prelude::*;
use crate::text::{flag, flag_str, optional_decimal, optional_decimal_string, parse_flag,
    parse_optional_decimal, optional_decimal_round_trip};
use crate::types::{MarketCode, PeriodCode};

verus! {

/// The keys of a list of query parameters, in order.
pub open spec fn keys_of(pairs: Seq<(Seq<char>, Seq<char>)>) -> Seq<Seq<char>> {
    Seq::new(pairs.len(), |i: int| pairs[i].0)
}

/// The values of a list of query parameters, in order.
pub open spec fn values_of(pairs: Seq<(Seq<char>, Seq<char>)>) -> Seq<Seq<char>> {
    Seq::new(pairs.len(), |i: int| pairs[i].1)
}

/// Keys and values joined into query parameters, position by position.
pub open spec fn labelled(keys: Seq<Seq<char>>, values: Seq<Seq<char>>) -> Seq<
    (Seq<char>, Seq<char>),
> {
    Seq::new(keys.len(), |i: int| (keys[i], values[i]))
}

/// The code of the price adjustment flag: `0` asks for prices adjusted for
/// splits and rights, `1` for prices as they were quoted.
pub open spec fn adjusted_code(is_adjust_price: bool) -> Seq<char> {
    if is_adjust_price {
        "0"@
    } else {
        "1"@
    }
}

/// The price adjustment flag a code stands for, if it stands for one.
pub open spec fn parse_adjusted(s: Seq<char>) -> Option<bool> {
    if s == "0"@ {
        Some(true)
    } else if s == "1"@ {
        Some(false)
    } else {
        None
    }
}

/// Reading the price adjustment flag back from its code gives the flag.
pub proof fn adjusted_round_trip(is_adjust_price: bool)
    ensures
        parse_adjusted(adjusted_code(is_adjust_price)) == Some(is_adjust_price),
{
    reveal_strlit("0");
    reveal_strlit("1");
    assert("0"@[0] != "1"@[0]);
}

/// The code of the price adjustment flag, as text.
fn adjusted_str(is_adjust_price: bool) -> (s: &'static str)
    ensures
        s@ == adjusted_code(is_adjust_price),
{
    if is_adjust_price {
        "0"
    } else {
        "1"
    }
}

/// One query parameter.
fn pair(key: &str, value: &str) -> (p: (String, String))
    ensures
        p.deep_view() == (key@, value@),
{
    (String::from_str(key), String::from_str(value))
}

/// The keys of the daily price query, in the order they are sent.
pub open spec fn daily_price_keys() -> Seq<Seq<char>> {
    seq![
        "FID_COND_MRKT_DIV_CODE"@,
        "FID_INPUT_ISCD"@,
        "FID_PERIOD_DIV_CODE"@,
        "FID_ORG_ADJ_PRC"@,
    ]
}

/// The parameters of the daily price operation.
#[derive(Debug)]
pub struct DailyPriceParameter {
    pub market_code: MarketCode,
    pub shortcode: String,
    pub period_code: PeriodCode,
    pub is_adjust_price: bool,
}

/// What a [`DailyPriceParameter`] holds, as mathematical values.
pub struct DailyPriceParameterView {
    pub market_code: MarketCode,
    pub shortcode: Seq<char>,
    pub period_code: PeriodCode,
    pub is_adjust_price: bool,
}

impl View for DailyPriceParameter {
    type V = DailyPriceParameterView;

    open spec fn view(&self) -> DailyPriceParameterView {
        DailyPriceParameterView {
            market_code: self.market_code,
            shortcode: self.shortcode@,
            period_code: self.period_code,
            is_adjust_price: self.is_adjust_price,
        }
    }
}

impl DailyPriceParameterView {
    /// The value sent under each key, in the order of [`daily_price_keys`].
    pub open spec fn values(self) -> Seq<Seq<char>> {
        seq![
            self.market_code.code(),
            self.shortcode,
            self.period_code.code(),
            adjusted_code(self.is_adjust_price),
        ]
    }

    /// The query parameters that stand for this parameter set.
    pub open spec fn pairs(self) -> Seq<(Seq<char>, Seq<char>)> {
        labelled(daily_price_keys(), self.values())
    }

    /// The parameter set that query parameters stand for, if they stand for one.
    pub open spec fn parse(pairs: Seq<(Seq<char>, Seq<char>)>) -> Option<Self> {
        if keys_of(pairs) != daily_price_keys() {
            None
        } else {
            match (
                MarketCode::parse(pairs[0].1),
                PeriodCode::parse(pairs[2].1),
                parse_adjusted(pairs[3].1),
            ) {
                (Some(market_code), Some(period_code), Some(is_adjust_price)) => Some(
                    DailyPriceParameterView {
                        market_code,
                        shortcode: pairs[1].1,
                        period_code,
                        is_adjust_price,
                    },
                ),
                _ => None,
            }
        }
    }

    /// The encoding holds every key of the operation exactly once, in order,
    /// and reading it back gives the parameter set it was made from.
    pub proof fn round_trip(self)
        ensures
            keys_of(self.pairs()) == daily_price_keys(),
            daily_price_keys().no_duplicates(),
            values_of(self.pairs()) == self.values(),
            Self::parse(self.pairs()) == Some(self),
    {
        daily_price_keys_are_distinct();
        self.market_code.code_round_trip();
        self.period_code.code_round_trip();
        adjusted_round_trip(self.is_adjust_price);
        assert(keys_of(self.pairs()) =~= daily_price_keys());
        assert(values_of(self.pairs()) =~= self.values());
    }
}

/// No key of the daily price query occurs twice.
pub proof fn daily_price_keys_are_distinct()
    ensures
        daily_price_keys().no_duplicates(),
{
    reveal_strlit("FID_COND_MRKT_DIV_CODE");
    reveal_strlit("FID_INPUT_ISCD");
    reveal_strlit("FID_PERIOD_DIV_CODE");
    reveal_strlit("FID_ORG_ADJ_PRC");
    assert("FID_COND_MRKT_DIV_CODE"@.len() == 22);
    assert("FID_INPUT_ISCD"@.len() == 14);
    assert("FID_PERIOD_DIV_CODE"@.len() == 19);
    assert("FID_ORG_ADJ_PRC"@.len() == 15);
}

impl DailyPriceParameter {
    /// The parameters of one daily price query.
    pub fn new(
        market_code: MarketCode,
        shortcode: String,
        period_code: PeriodCode,
        is_adjust_price: bool,
    ) -> (param: Self)
        ensures
            param@ == (DailyPriceParameterView {
                market_code,
                shortcode: shortcode@,
                period_code,
                is_adjust_price,
            }),
    {
        DailyPriceParameter { market_code, shortcode, period_code, is_adjust_price }
    }

    /// Encodes the parameters as query parameters.
    pub fn query_pairs(&self) -> (pairs: Vec<(String, String)>)
        ensures
            pairs.deep_view() == self@.pairs(),
    {
        let mut pairs: Vec<(String, String)> = Vec::new();
        pairs.push(pair("FID_COND_MRKT_DIV_CODE", self.market_code.as_str()));
        pairs.push(pair("FID_INPUT_ISCD", self.shortcode.as_str()));
        pairs.push(pair("FID_PERIOD_DIV_CODE", self.period_code.as_str()));
        pairs.push(pair("FID_ORG_ADJ_PRC", adjusted_str(self.is_adjust_price)));
        assert(pairs.deep_view() =~= self@.pairs());
        pairs
    }
}

/// The keys of the periodic price query, in the order they are sent.
pub open spec fn periodic_price_keys() -> Seq<Seq<char>> {
    seq![
        "FID_COND_MRKT_DIV_CODE"@,
        "FID_INPUT_ISCD"@,
        "FID_INPUT_DATE_1"@,
        "FID_INPUT_DATE_2"@,
        "FID_PERIOD_DIV_CODE"@,
        "FID_ORG_ADJ_PRC"@,
    ]
}

/// The parameters of the periodic price operation. Days are written
/// `YYYYMMDD`.
#[derive(Debug)]
pub struct PeriodicPriceParameter {
    pub market_code: MarketCode,
    pub shortcode: String,
    pub start_day: String,
    pub end_day: String,
    pub period_code: PeriodCode,
    pub is_adjust_price: bool,
}

/// What a [`PeriodicPriceParameter`] holds, as mathematical values.
pub struct PeriodicPriceParameterView {
    pub market_code: MarketCode,
    pub shortcode: Seq<char>,
    pub start_day: Seq<char>,
    pub end_day: Seq<char>,
    pub period_code: PeriodCode,
    pub is_adjust_price: bool,
}

impl View for PeriodicPriceParameter {
    type V = PeriodicPriceParameterView;

    open spec fn view(&self) -> PeriodicPriceParameterView {
        PeriodicPriceParameterView {
            market_code: self.market_code,
            shortcode: self.shortcode@,
            start_day: self.start_day@,
            end_day: self.end_day@,
            period_code: self.period_code,
            is_adjust_price: self.is_adjust_price,
        }
    }
}

impl PeriodicPriceParameterView {
    /// The value sent under each key, in the order of [`periodic_price_keys`].
    pub open spec fn values(self) -> Seq<Seq<char>> {
        seq![
            self.market_code.code(),
            self.shortcode,
            self.start_day,
            self.end_day,
            self.period_code.code(),
            adjusted_code(self.is_adjust_price),
        ]
    }

    /// The query parameters that stand for this parameter set.
    pub open spec fn pairs(self) -> Seq<(Seq<char>, Seq<char>)> {
        labelled(periodic_price_keys(), self.values())
    }

    /// The parameter set that query parameters stand for, if they stand for one.
    pub open spec fn parse(pairs: Seq<(Seq<char>, Seq<char>)>) -> Option<Self> {
        if keys_of(pairs) != periodic_price_keys() {
            None
        } else {
            match (
                MarketCode::parse(pairs[0].1),
                PeriodCode::parse(pairs[4].1),
                parse_adjusted(pairs[5].1),
            ) {
                (Some(market_code), Some(period_code), Some(is_adjust_price)) => Some(
                    PeriodicPriceParameterView {
                        market_code,
                        shortcode: pairs[1].1,
                        start_day: pairs[2].1,
                        end_day: pairs[3].1,
                        period_code,
                        is_adjust_price,
                    },
                ),
                _ => None,
            }
        }
    }

    /// The encoding holds every key of the operation exactly once, in order,
    /// and reading it back gives the parameter set it was made from.
    pub proof fn round_trip(self)
        ensures
            keys_of(self.pairs()) == periodic_price_keys(),
            periodic_price_keys().no_duplicates(),
            values_of(self.pairs()) == self.values(),
            Self::parse(self.pairs()) == Some(self),
    {
        periodic_price_keys_are_distinct();
        self.market_code.code_round_trip();
        self.period_code.code_round_trip();
        adjusted_round_trip(self.is_adjust_price);
        assert(keys_of(self.pairs()) =~= periodic_price_keys());
        assert(values_of(self.pairs()) =~= self.values());
    }
}

/// No key of the periodic price query occurs twice.
pub proof fn periodic_price_keys_are_distinct()
    ensures
        periodic_price_keys().no_duplicates(),
{
    reveal_strlit("FID_COND_MRKT_DIV_CODE");
    reveal_strlit("FID_INPUT_ISCD");
    reveal_strlit("FID_INPUT_DATE_1");
    reveal_strlit("FID_INPUT_DATE_2");
    reveal_strlit("FID_PERIOD_DIV_CODE");
    reveal_strlit("FID_ORG_ADJ_PRC");
    assert("FID_COND_MRKT_DIV_CODE"@.len() == 22);
    assert("FID_INPUT_ISCD"@.len() == 14);
    assert("FID_INPUT_DATE_1"@.len() == 16);
    assert("FID_INPUT_DATE_2"@.len() == 16);
    assert("FID_PERIOD_DIV_CODE"@.len() == 19);
    assert("FID_ORG_ADJ_PRC"@.len() == 15);
    assert("FID_INPUT_DATE_1"@[15] != "FID_INPUT_DATE_2"@[15]);
}

impl PeriodicPriceParameter {
    /// The parameters of one periodic price query.
    pub fn new(
        market_code: MarketCode,
        shortcode: String,
        start_day: String,
        end_day: String,
        period_code: PeriodCode,
        is_adjust_price: bool,
    ) -> (param: Self)
        ensures
            param@ == (PeriodicPriceParameterView {
                market_code,
                shortcode: shortcode@,
                start_day: start_day@,
                end_day: end_day@,
                period_code,
                is_adjust_price,
            }),
    {
        PeriodicPriceParameter {
            market_code,
            shortcode,
            start_day,
            end_day,
            period_code,
            is_adjust_price,
        }
    }

    /// Encodes the parameters as query parameters.
    pub fn query_pairs(&self) -> (pairs: Vec<(String, String)>)
        ensures
            pairs.deep_view() == self@.pairs(),
    {
        let mut pairs: Vec<(String, String)> = Vec::new();
        pairs.push(pair("FID_COND_MRKT_DIV_CODE", self.market_code.as_str()));
        pairs.push(pair("FID_INPUT_ISCD", self.shortcode.as_str()));
        pairs.push(pair("FID_INPUT_DATE_1", self.start_day.as_str()));
        pairs.push(pair("FID_INPUT_DATE_2", self.end_day.as_str()));
        pairs.push(pair("FID_PERIOD_DIV_CODE", self.period_code.as_str()));
        pairs.push(pair("FID_ORG_ADJ_PRC", adjusted_str(self.is_adjust_price)));
        assert(pairs.deep_view() =~= self@.pairs());
        pairs
    }
}

/// Which classes of shares a ranking covers.
#[derive(Clone, Copy, Debug, PartialEq, Eq, Structural)]
pub enum ShareClassCode {
    /// Every share.
    Whole,
    /// Common shares.
    Common,
    /// Preferred shares.
    Preferred,
}

impl ShareClassCode {
    /// The classification code sent in the query.
    pub open spec fn code(self) -> Seq<char> {
        match self {
            ShareClassCode::Whole => "0"@,
            ShareClassCode::Common => "1"@,
            ShareClassCode::Preferred => "2"@,
        }
    }

    /// The classification code sent in the query, as text.
    pub fn as_str(self) -> (s: &'static str)
        ensures
            s@ == self.code(),
    {
        match self {
            ShareClassCode::Whole => "0",
            ShareClassCode::Common => "1",
            ShareClassCode::Preferred => "2",
        }
    }

    /// The share class a code stands for, if it stands for one.
    pub open spec fn parse(s: Seq<char>) -> Option<ShareClassCode> {
        if s == "0"@ {
            Some(ShareClassCode::Whole)
        } else if s == "1"@ {
            Some(ShareClassCode::Common)
        } else if s == "2"@ {
            Some(ShareClassCode::Preferred)
        } else {
            None
        }
    }

    /// Reading a share class back from its code gives the share class.
    pub proof fn code_round_trip(self)
        ensures
            ShareClassCode::parse(self.code()) == Some(self),
    {
        reveal_strlit("0");
        reveal_strlit("1");
        reveal_strlit("2");
        assert("0"@[0] == '0' && "1"@[0] == '1' && "2"@[0] == '2');
    }
}

/// What a ranking is ordered by.
#[derive(Clone, Copy, Debug, PartialEq, Eq, Structural)]
pub enum BelongClassCode {
    /// Average traded volume.
    AverageVolume,
    /// Rate of increase of the traded volume.
    VolumeIncreaseRate,
    /// Average turnover of the traded volume.
    AverageVolumeTurnover,
    /// Traded amount.
    TransactionAmount,
    /// Average turnover of the traded amount.
    AverageAmountTurnover,
}

impl BelongClassCode {
    /// The classification code sent in the query.
    pub open spec fn code(self) -> Seq<char> {
        match self {
            BelongClassCode::AverageVolume => "0"@,
            BelongClassCode::VolumeIncreaseRate => "1"@,
            BelongClassCode::AverageVolumeTurnover => "2"@,
            BelongClassCode::TransactionAmount => "3"@,
            BelongClassCode::AverageAmountTurnover => "4"@,
        }
    }

    /// The classification code sent in the query, as text.
    pub fn as_str(self) -> (s: &'static str)
        ensures
            s@ == self.code(),
    {
        match self {
            BelongClassCode::AverageVolume => "0",
            BelongClassCode::VolumeIncreaseRate => "1",
            BelongClassCode::AverageVolumeTurnover => "2",
            BelongClassCode::TransactionAmount => "3",
            BelongClassCode::AverageAmountTurnover => "4",
        }
    }

    /// The ordering a code stands for, if it stands for one.
    pub open spec fn parse(s: Seq<char>) -> Option<BelongClassCode> {
        if s == "0"@ {
            Some(BelongClassCode::AverageVolume)
        } else if s == "1"@ {
            Some(BelongClassCode::VolumeIncreaseRate)
        } else if s == "2"@ {
            Some(BelongClassCode::AverageVolumeTurnover)
        } else if s == "3"@ {
            Some(BelongClassCode::TransactionAmount)
        } else if s == "4"@ {
            Some(BelongClassCode::AverageAmountTurnover)
        } else {
            None
        }
    }

    /// Reading an ordering back from its code gives the ordering.
    pub proof fn code_round_trip(self)
        ensures
            BelongClassCode::parse(self.code()) == Some(self),
    {
        reveal_strlit("0");
        reveal_strlit("1");
        reveal_strlit("2");
        reveal_strlit("3");
        reveal_strlit("4");
        assert("0"@[0] == '0' && "1"@[0] == '1' && "2"@[0] == '2' && "3"@[0] == '3' && "4"@[0]
            == '4');
    }
}

/// Which symbols a ranking takes in, by margin rate and by credit deposit rate.
#[derive(Clone, Copy, Debug, PartialEq, Eq, Structural)]
pub struct TargetClassCode {
    pub margin_30: bool,
    pub margin_40: bool,
    pub margin_50: bool,
    pub margin_60: bool,
    pub margin_100: bool,
    pub credit_30: bool,
    pub credit_40: bool,
    pub credit_50: bool,
    pub credit_60: bool,
}

impl TargetClassCode {
    /// The nine flags sent in the query, one character each.
    pub open spec fn code(self) -> Seq<char> {
        seq![
            flag(self.margin_30),
            flag(self.margin_40),
            flag(self.margin_50),
            flag(self.margin_60),
            flag(self.margin_100),
            flag(self.credit_30),
            flag(self.credit_40),
            flag(self.credit_50),
            flag(self.credit_60),
        ]
    }

    /// The nine flags sent in the query, as text.
    pub fn to_code(self) -> (s: String)
        ensures
            s@ == self.code(),
    {
        let mut s = String::new();
        s.append(flag_str(self.margin_30));
        s.append(flag_str(self.margin_40));
        s.append(flag_str(self.margin_50));
        s.append(flag_str(self.margin_60));
        s.append(flag_str(self.margin_100));
        s.append(flag_str(self.credit_30));
        s.append(flag_str(self.credit_40));
        s.append(flag_str(self.credit_50));
        s.append(flag_str(self.credit_60));
        assert(s@ =~= self.code());
        s
    }

    /// The selection that nine flags stand for, if they stand for one.
    pub open spec fn parse(s: Seq<char>) -> Option<TargetClassCode> {
        if s.len() != 9 {
            None
        } else if exists|i: int| 0 <= i < 9 && parse_flag(#[trigger] s[i]) is None {
            None
        } else {
            Some(
                TargetClassCode {
                    margin_30: parse_flag(s[0]).unwrap(),
                    margin_40: parse_flag(s[1]).unwrap(),
                    margin_50: parse_flag(s[2]).unwrap(),
                    margin_60: parse_flag(s[3]).unwrap(),
                    margin_100: parse_flag(s[4]).unwrap(),
                    credit_30: parse_flag(s[5]).unwrap(),
                    credit_40: parse_flag(s[6]).unwrap(),
                    credit_50: parse_flag(s[7]).unwrap(),
                    credit_60: parse_flag(s[8]).unwrap(),
                },
            )
        }
    }

    /// Reading a selection back from its flags gives the selection.
    pub proof fn code_round_trip(self)
        ensures
            TargetClassCode::parse(self.code()) == Some(self),
    {
    }
}

/// Which symbols a ranking leaves out.
#[derive(Clone, Copy, Debug, PartialEq, Eq, Structural)]
pub struct TargetExclusionCode {
    /// Symbols under an investment risk, warning or caution notice.
    pub investment_alert: bool,
    /// Symbols under administration.
    pub administrative: bool,
    /// Symbols in liquidation trading.
    pub liquidation: bool,
    /// Symbols of issuers with unfaithful disclosure.
    pub unfaithful_disclosure: bool,
    /// Preferred shares.
    pub preferred: bool,
    /// Symbols whose trading is suspended.
    pub suspended: bool,
}

impl TargetExclusionCode {
    /// The six flags sent in the query, one character each.
    pub open spec fn code(self) -> Seq<char> {
        seq![
            flag(self.investment_alert),
            flag(self.administrative),
            flag(self.liquidation),
            flag(self.unfaithful_disclosure),
            flag(self.preferred),
            flag(self.suspended),
        ]
    }

    /// The six flags sent in the query, as text.
    pub fn to_code(self) -> (s: String)
        ensures
            s@ == self.code(),
    {
        let mut s = String::new();
        s.append(flag_str(self.investment_alert));
        s.append(flag_str(self.administrative));
        s.append(flag_str(self.liquidation));
        s.append(flag_str(self.unfaithful_disclosure));
        s.append(flag_str(self.preferred));
        s.append(flag_str(self.suspended));
        assert(s@ =~= self.code());
        s
    }

    /// The exclusions that six flags stand for, if they stand for any.
    pub open spec fn parse(s: Seq<char>) -> Option<TargetExclusionCode> {
        if s.len() != 6 {
            None
        } else if exists|i: int| 0 <= i < 6 && parse_flag(#[trigger] s[i]) is None {
            None
        } else {
            Some(
                TargetExclusionCode {
                    investment_alert: parse_flag(s[0]).unwrap(),
                    administrative: parse_flag(s[1]).unwrap(),
                    liquidation: parse_flag(s[2]).unwrap(),
                    unfaithful_disclosure: parse_flag(s[3]).unwrap(),
                    preferred: parse_flag(s[4]).unwrap(),
                    suspended: parse_flag(s[5]).unwrap(),
                },
            )
        }
    }

    /// Reading exclusions back from their flags gives the exclusions.
    pub proof fn code_round_trip(self)
        ensures
            TargetExclusionCode::parse(self.code()) == Some(self),
    {
    }
}

/// The keys of the volume rank query, in the order they are sent.
pub open spec fn volume_rank_keys() -> Seq<Seq<char>> {
    seq![
        "FID_COND_MRKT_DIV_CODE"@,
        "FID_COND_SCR_DIV_CODE"@,
        "FID_INPUT_ISCD"@,
        "FID_DIV_CLS_CODE"@,
        "FID_BLNG_CLS_CODE"@,
        "FID_TRGT_CLS_CODE"@,
        "FID_TRGT_EXLS_CLS_CODE"@,
        "FID_INPUT_PRICE_1"@,
        "FID_INPUT_PRICE_2"@,
        "FID_VOL_CNT"@,
        "FID_INPUT_DATE_1"@,
    ]
}

/// The parameters of the volume rank operation.
///
/// The market division, the screen code and the date are fixed by the
/// server's contract and are not part of the typed input.
#[derive(Debug)]
pub struct VolumeRankParameter {
    /// `0000` for every symbol, else the code of a sector.
    pub shortcode: String,
    pub share_class: ShareClassCode,
    pub belong_class: BelongClassCode,
    pub target_class: TargetClassCode,
    pub target_exclusion: TargetExclusionCode,
    /// The lowest price taken in, where there is a bound.
    pub start_price: Option<u32>,
    /// The highest price taken in, where there is a bound.
    pub end_price: Option<u32>,
    /// The lowest traded volume taken in, where there is a bound.
    pub volume_count: Option<u32>,
}

/// What a [`VolumeRankParameter`] holds, as mathematical values.
pub struct VolumeRankParameterView {
    pub shortcode: Seq<char>,
    pub share_class: ShareClassCode,
    pub belong_class: BelongClassCode,
    pub target_class: TargetClassCode,
    pub target_exclusion: TargetExclusionCode,
    pub start_price: Option<u32>,
    pub end_price: Option<u32>,
    pub volume_count: Option<u32>,
}

impl View for VolumeRankParameter {
    type V = VolumeRankParameterView;

    open spec fn view(&self) -> VolumeRankParameterView {
        VolumeRankParameterView {
            shortcode: self.shortcode@,
            share_class: self.share_class,
            belong_class: self.belong_class,
            target_class: self.target_class,
            target_exclusion: self.target_exclusion,
            start_price: self.start_price,
            end_price: self.end_price,
            volume_count: self.volume_count,
        }
    }
}

impl VolumeRankParameterView {
    /// The value sent under each key, in the order of [`volume_rank_keys`].
    pub open spec fn values(self) -> Seq<Seq<char>> {
        seq![
            "J"@,
            "20171"@,
            self.shortcode,
            self.share_class.code(),
            self.belong_class.code(),
            self.target_class.code(),
            self.target_exclusion.code(),
            optional_decimal(self.start_price),
            optional_decimal(self.end_price),
            optional_decimal(self.volume_count),
            Seq::<char>::empty(),
        ]
    }

    /// The query parameters that stand for this parameter set.
    pub open spec fn pairs(self) -> Seq<(Seq<char>, Seq<char>)> {
        labelled(volume_rank_keys(), self.values())
    }

    /// The parameter set that query parameters stand for, if they stand for one.
    pub open spec fn parse(pairs: Seq<(Seq<char>, Seq<char>)>) -> Option<Self> {
        if keys_of(pairs) != volume_rank_keys() || pairs[0].1 != "J"@ || pairs[1].1 != "20171"@
            || pairs[10].1 != Seq::<char>::empty() {
            None
        } else {
            match (
                ShareClassCode::parse(pairs[3].1),
                BelongClassCode::parse(pairs[4].1),
                TargetClassCode::parse(pairs[5].1),
                TargetExclusionCode::parse(pairs[6].1),
                parse_optional_decimal(pairs[7].1),
                parse_optional_decimal(pairs[8].1),
                parse_optional_decimal(pairs[9].1),
            ) {
                (
                    Some(share_class),
                    Some(belong_class),
                    Some(target_class),
                    Some(target_exclusion),
                    Some(start_price),
                    Some(end_price),
                    Some(volume_count),
                ) => Some(
                    VolumeRankParameterView {
                        shortcode: pairs[2].1,
                        share_class,
                        belong_class,
                        target_class,
                        target_exclusion,
                        start_price,
                        end_price,
                        volume_count,
                    },
                ),
                _ => None,
            }
        }
    }

    /// The encoding holds every key of the operation exactly once, in order,
    /// and reading it back gives the parameter set it was made from.
    pub proof fn round_trip(self)
        ensures
            keys_of(self.pairs()) == volume_rank_keys(),
            volume_rank_keys().no_duplicates(),
            values_of(self.pairs()) == self.values(),
            Self::parse(self.pairs()) == Some(self),
    {
        volume_rank_keys_are_distinct();
        self.share_class.code_round_trip();
        self.belong_class.code_round_trip();
        self.target_class.code_round_trip();
        self.target_exclusion.code_round_trip();
        optional_decimal_round_trip(self.start_price);
        optional_decimal_round_trip(self.end_price);
        optional_decimal_round_trip(self.volume_count);
        assert(keys_of(self.pairs()) =~= volume_rank_keys());
        assert(values_of(self.pairs()) =~= self.values());
    }
}

/// No key of the volume rank query occurs twice.
pub proof fn volume_rank_keys_are_distinct()
    ensures
        volume_rank_keys().no_duplicates(),
{
    reveal_strlit("FID_COND_MRKT_DIV_CODE");
    reveal_strlit("FID_COND_SCR_DIV_CODE");
    reveal_strlit("FID_INPUT_ISCD");
    reveal_strlit("FID_DIV_CLS_CODE");
    reveal_strlit("FID_BLNG_CLS_CODE");
    reveal_strlit("FID_TRGT_CLS_CODE");
    reveal_strlit("FID_TRGT_EXLS_CLS_CODE");
    reveal_strlit("FID_INPUT_PRICE_1");
    reveal_strlit("FID_INPUT_PRICE_2");
    reveal_strlit("FID_VOL_CNT");
    reveal_strlit("FID_INPUT_DATE_1");
    assert("FID_COND_MRKT_DIV_CODE"@.len() == 22);
    assert("FID_COND_SCR_DIV_CODE"@.len() == 21);
    assert("FID_INPUT_ISCD"@.len() == 14);
    assert("FID_DIV_CLS_CODE"@.len() == 16);
    assert("FID_BLNG_CLS_CODE"@.len() == 17);
    assert("FID_TRGT_CLS_CODE"@.len() == 17);
    assert("FID_TRGT_EXLS_CLS_CODE"@.len() == 22);
    assert("FID_INPUT_PRICE_1"@.len() == 17);
    assert("FID_INPUT_PRICE_2"@.len() == 17);
    assert("FID_VOL_CNT"@.len() == 11);
    assert("FID_INPUT_DATE_1"@.len() == 16);
    assert("FID_COND_MRKT_DIV_CODE"@[4] != "FID_TRGT_EXLS_CLS_CODE"@[4]);
    assert("FID_DIV_CLS_CODE"@[4] != "FID_INPUT_DATE_1"@[4]);
    assert("FID_BLNG_CLS_CODE"@[4] != "FID_TRGT_CLS_CODE"@[4]);
    assert("FID_BLNG_CLS_CODE"@[4] != "FID_INPUT_PRICE_1"@[4]);
    assert("FID_BLNG_CLS_CODE"@[4] != "FID_INPUT_PRICE_2"@[4]);
    assert("FID_TRGT_CLS_CODE"@[4] != "FID_INPUT_PRICE_1"@[4]);
    assert("FID_TRGT_CLS_CODE"@[4] != "FID_INPUT_PRICE_2"@[4]);
    assert("FID_INPUT_PRICE_1"@[16] != "FID_INPUT_PRICE_2"@[16]);
}

impl VolumeRankParameter {
    /// The parameters of one volume rank query.
    pub fn new(
        shortcode: String,
        share_class: ShareClassCode,
        belong_class: BelongClassCode,
        target_class: TargetClassCode,
        target_exclusion: TargetExclusionCode,
        start_price: Option<u32>,
        end_price: Option<u32>,
        volume_count: Option<u32>,
    ) -> (param: Self)
        ensures
            param@ == (VolumeRankParameterView {
                shortcode: shortcode@,
                share_class,
                belong_class,
                target_class,
                target_exclusion,
                start_price,
                end_price,
                volume_count,
            }),
    {
        VolumeRankParameter {
            shortcode,
            share_class,
            belong_class,
            target_class,
            target_exclusion,
            start_price,
            end_price,
            volume_count,
        }
    }

    /// Encodes the parameters as query parameters.
    pub fn query_pairs(&self) -> (pairs: Vec<(String, String)>)
        ensures
            pairs.deep_view() == self@.pairs(),
    {
        let target_class = self.target_class.to_code();
        let target_exclusion = self.target_exclusion.to_code();
        let start_price = optional_decimal_string(self.start_price);
        let end_price = optional_decimal_string(self.end_price);
        let volume_count = optional_decimal_string(self.volume_count);
        let blank = String::new();
        let mut pairs: Vec<(String, String)> = Vec::new();
        pairs.push(pair("FID_COND_MRKT_DIV_CODE", "J"));
        pairs.push(pair("FID_COND_SCR_DIV_CODE", "20171"));
        pairs.push(pair("FID_INPUT_ISCD", self.shortcode.as_str()));
        pairs.push(pair("FID_DIV_CLS_CODE", self.share_class.as_str()));
        pairs.push(pair("FID_BLNG_CLS_CODE", self.belong_class.as_str()));
        pairs.push(pair("FID_TRGT_CLS_CODE", target_class.as_str()));
        pairs.push(pair("FID_TRGT_EXLS_CLS_CODE", target_exclusion.as_str()));
        pairs.push(pair("FID_INPUT_PRICE_1", start_price.as_str()));
        pairs.push(pair("FID_INPUT_PRICE_2", end_price.as_str()));
        pairs.push(pair("FID_VOL_CNT", volume_count.as_str()));
        pairs.push(pair("FID_INPUT_DATE_1", blank.as_str()));
        assert(pairs.deep_view() =~= self@.pairs());
        pairs
    }
}

} // verus!

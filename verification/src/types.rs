//! Codes shared by every operation, each with the text the server knows it by.

use vstd::prelude::*;

pub mod request;

verus! {

/// The deployment a dispatcher talks to.
#[derive(Clone, Copy, Debug, PartialEq, Eq, Structural)]
pub enum Environment {
    /// Live trading.
    Real,
    /// Simulated trading.
    Virtual,
}

impl Environment {
    /// The scheme, host and port of this environment.
    pub open spec fn endpoint(self) -> Seq<char> {
        match self {
            Environment::Real => "https://openapi.koreainvestment.com:9443"@,
            Environment::Virtual => "https://openapivts.koreainvestment.com:29443"@,
        }
    }

    /// The scheme, host and port of this environment, as text.
    pub fn endpoint_url(self) -> (url: &'static str)
        ensures
            url@ == self.endpoint(),
    {
        match self {
            Environment::Real => "https://openapi.koreainvestment.com:9443",
            Environment::Virtual => "https://openapivts.koreainvestment.com:29443",
        }
    }
}

/// The market a symbol is listed on.
#[derive(Clone, Copy, Debug, PartialEq, Eq, Structural)]
pub enum MarketCode {
    /// Domestic stocks.
    Stock,
    /// Exchange-traded funds.
    Etf,
    /// Exchange-traded notes.
    Etn,
}

impl MarketCode {
    /// The market division code sent in the query.
    pub open spec fn code(self) -> Seq<char> {
        match self {
            MarketCode::Stock => "J"@,
            MarketCode::Etf => "ETF"@,
            MarketCode::Etn => "ETN"@,
        }
    }

    /// The market division code sent in the query, as text.
    pub fn as_str(self) -> (s: &'static str)
        ensures
            s@ == self.code(),
    {
        match self {
            MarketCode::Stock => "J",
            MarketCode::Etf => "ETF",
            MarketCode::Etn => "ETN",
        }
    }

    /// The market a code stands for, if it stands for one.
    pub open spec fn parse(s: Seq<char>) -> Option<MarketCode> {
        if s == "J"@ {
            Some(MarketCode::Stock)
        } else if s == "ETF"@ {
            Some(MarketCode::Etf)
        } else if s == "ETN"@ {
            Some(MarketCode::Etn)
        } else {
            None
        }
    }

    /// Reading a market back from its code gives the market.
    pub proof fn code_round_trip(self)
        ensures
            MarketCode::parse(self.code()) == Some(self),
    {
        reveal_strlit("J");
        reveal_strlit("ETF");
        reveal_strlit("ETN");
        assert("J"@.len() == 1 && "ETF"@.len() == 3 && "ETN"@.len() == 3);
        assert("ETF"@[2] != "ETN"@[2]);
    }
}

/// The span of one price bar.
#[derive(Clone, Copy, Debug, PartialEq, Eq, Structural)]
pub enum PeriodCode {
    /// One bar per trading day.
    Day,
    /// One bar per week.
    Week,
    /// One bar per month.
    Month,
    /// One bar per year.
    Year,
}

impl PeriodCode {
    /// The period division code sent in the query.
    pub open spec fn code(self) -> Seq<char> {
        match self {
            PeriodCode::Day => "D"@,
            PeriodCode::Week => "W"@,
            PeriodCode::Month => "M"@,
            PeriodCode::Year => "Y"@,
        }
    }

    /// The period division code sent in the query, as text.
    pub fn as_str(self) -> (s: &'static str)
        ensures
            s@ == self.code(),
    {
        match self {
            PeriodCode::Day => "D",
            PeriodCode::Week => "W",
            PeriodCode::Month => "M",
            PeriodCode::Year => "Y",
        }
    }

    /// The period a code stands for, if it stands for one.
    pub open spec fn parse(s: Seq<char>) -> Option<PeriodCode> {
        if s == "D"@ {
            Some(PeriodCode::Day)
        } else if s == "W"@ {
            Some(PeriodCode::Week)
        } else if s == "M"@ {
            Some(PeriodCode::Month)
        } else if s == "Y"@ {
            Some(PeriodCode::Year)
        } else {
            None
        }
    }

    /// Reading a period back from its code gives the period.
    pub proof fn code_round_trip(self)
        ensures
            PeriodCode::parse(self.code()) == Some(self),
    {
        reveal_strlit("D");
        reveal_strlit("W");
        reveal_strlit("M");
        reveal_strlit("Y");
        assert("D"@[0] == 'D' && "W"@[0] == 'W' && "M"@[0] == 'M' && "Y"@[0] == 'Y');
    }
}

/// The transaction identifier that tells the server which operation a request
/// invokes. Each operation has exactly one.
#[derive(Clone, Copy, Debug, PartialEq, Eq, Structural)]
pub enum TrId {
    /// Daily prices of one symbol.
    DailyPrice,
    /// Prices of one symbol over a range of dates.
    PeriodicPrice,
    /// Symbols ranked by traded volume.
    VolumeRank,
}

impl TrId {
    /// The identifier sent in the `tr_id` header.
    pub open spec fn code(self) -> Seq<char> {
        match self {
            TrId::DailyPrice => "FHKST01010400"@,
            TrId::PeriodicPrice => "FHKST03010100"@,
            TrId::VolumeRank => "FHPST01710000"@,
        }
    }

    /// The identifier sent in the `tr_id` header, as text.
    pub fn as_str(self) -> (s: &'static str)
        ensures
            s@ == self.code(),
    {
        match self {
            TrId::DailyPrice => "FHKST01010400",
            TrId::PeriodicPrice => "FHKST03010100",
            TrId::VolumeRank => "FHPST01710000",
        }
    }

    /// No two operations share a transaction identifier.
    pub proof fn codes_are_distinct(self, other: TrId)
        ensures
            self.code() == other.code() ==> self == other,
    {
        reveal_strlit("FHKST01010400");
        reveal_strlit("FHKST03010100");
        reveal_strlit("FHPST01710000");
        assert("FHKST01010400"@[6] != "FHKST03010100"@[6]);
        assert("FHKST01010400"@[2] != "FHPST01710000"@[2]);
        assert("FHKST03010100"@[2] != "FHPST01710000"@[2]);
    }

    /// The path of the operation on the server.
    pub open spec fn path(self) -> Seq<char> {
        match self {
            TrId::DailyPrice => "/uapi/domestic-stock/v1/quotations/inquire-daily-price"@,
            TrId::PeriodicPrice => "/uapi/domestic-stock/v1/quotations/inquire-daily-itemchartprice"@,
            TrId::VolumeRank => "/uapi/domestic-stock/v1/quotations/volume-rank"@,
        }
    }

    /// The path of the operation on the server, as text.
    pub fn path_str(self) -> (s: &'static str)
        ensures
            s@ == self.path(),
    {
        match self {
            TrId::DailyPrice => "/uapi/domestic-stock/v1/quotations/inquire-daily-price",
            TrId::PeriodicPrice => "/uapi/domestic-stock/v1/quotations/inquire-daily-itemchartprice",
            TrId::VolumeRank => "/uapi/domestic-stock/v1/quotations/volume-rank",
        }
    }
}

/// The brokerage account a dispatcher was made for.
#[derive(Debug)]
pub struct Account {
    /// The account number proper: the first eight digits.
    pub cano: String,
    /// The product code: the last two digits.
    pub acnt_prdt_cd: String,
}

impl Account {
    /// An account from its number and product code.
    pub fn new(cano: String, acnt_prdt_cd: String) -> (account: Account)
        ensures
            account.cano == cano,
            account.acnt_prdt_cd == acnt_prdt_cd,
    {
        Account { cano, acnt_prdt_cd }
    }
}

impl Clone for Account {
    fn clone(&self) -> (copy: Self)
        ensures
            copy == *self,
    {
        Account { cano: self.cano.clone(), acnt_prdt_cd: self.acnt_prdt_cd.clone() }
    }
}

} // verus!

//! All endpoints pertaining to transportation crowd.

use crate::client::{LTAClient, Request};
use crate::decimal::dec_digit;
use crate::pipeline::{build_req_with_query, build_req_with_skip, skip_query};
use vstd::prelude::*;

verus! {

/// Which passenger-volume resource a query targets.
#[derive(Debug, Clone, Copy, PartialEq, Eq, Structural)]
pub enum VolType {
    /// Tap-in and tap-out volume by bus stop.
    BusStops,
    /// Origin/destination volume between pairs of bus stops.
    OdBusStop,
    /// Tap-in and tap-out volume by train station.
    Train,
    /// Origin/destination volume between pairs of train stations.
    OdTrain,
}

/// The URL a passenger-volume query targets, by transport mode.
pub open spec fn vol_type_url(t: VolType) -> Seq<char> {
    match t {
        VolType::BusStops => "http://datamall2.mytransport.sg/ltaodataservice/PV/Bus"@,
        VolType::OdBusStop => "http://datamall2.mytransport.sg/ltaodataservice/PV/ODBus"@,
        VolType::Train => "http://datamall2.mytransport.sg/ltaodataservice/PV/Train"@,
        VolType::OdTrain => "http://datamall2.mytransport.sg/ltaodataservice/PV/ODTrain"@,
    }
}

/// The month a passenger-volume query asks for. The upstream service
/// takes it as the six characters `YYYYMM`, so only year and month are
/// kept, as plain numbers.
#[derive(Debug, Clone, Copy, PartialEq, Eq, Structural)]
pub struct VolMonth {
    /// Calendar year, four digits.
    pub year: u16,
    /// Calendar month, 1 to 12.
    pub month: u8,
}

impl VolMonth {
    /// A month is well formed when the year fits in four digits and the
    /// month is a calendar month.
    pub open spec fn wf(self) -> bool {
        self.year <= 9999 && 1 <= self.month <= 12
    }

    /// Makes a month filter, refusing a year of more than four digits or
    /// a month outside the calendar.
    pub fn new(year: u16, month: u8) -> (r: Option<VolMonth>)
        ensures
            match r {
                Some(m) => m.wf() && m.year == year && m.month == month,
                None => !(VolMonth { year, month }).wf(),
            },
    {
        if year <= 9999 && 1 <= month && month <= 12 {
            Some(VolMonth { year, month })
        } else {
            None
        }
    }
}

/// The six characters `YYYYMM` that a month filter puts into the `Date`
/// query parameter: the year zero-padded to four digits, then the month
/// zero-padded to two.
pub open spec fn month_code(m: VolMonth) -> Seq<char> {
    seq![
        dec_digit((m.year as nat / 1000) % 10),
        dec_digit((m.year as nat / 100) % 10),
        dec_digit((m.year as nat / 10) % 10),
        dec_digit(m.year as nat % 10),
        dec_digit((m.month as nat / 10) % 10),
        dec_digit(m.month as nat % 10),
    ]
}

/// Renders a well-formed month as its six-character `YYYYMM` code.
pub fn format_month(m: &VolMonth) -> (s: String)
    requires
        m.wf(),
    ensures
        s@ == month_code(*m),
{
    let mut s = String::new();
    s.append(crate::decimal::digit_str(((m.year / 1000) % 10) as u8));
    s.append(crate::decimal::digit_str(((m.year / 100) % 10) as u8));
    s.append(crate::decimal::digit_str(((m.year / 10) % 10) as u8));
    s.append(crate::decimal::digit_str((m.year % 10) as u8));
    s.append(crate::decimal::digit_str((m.month / 10) % 10));
    s.append(crate::decimal::digit_str(m.month % 10));
    proof {
        assert(s@ =~= month_code(*m));
    }
    s
}

/// Passenger-volume data for the chosen transport mode.
///
/// Supplying a month produces a request whose only query parameter is the
/// formatted `Date`; any pagination offset supplied alongside it is
/// dropped, exactly as the upstream service expects. Without a month the
/// query falls back to plain pagination.
///
/// **Update freq**: by the 15th of every month, covering the previous
/// month. The links the service answers with expire after five minutes.
pub fn get_passenger_vol_by(
    client: &LTAClient,
    vol_type: VolType,
    date: Option<VolMonth>,
    skip: Option<u32>,
) -> (r: Request)
    requires
        date matches Some(m) ==> m.wf(),
    ensures
        r.url@ == vol_type_url(vol_type),
        r.api_key@ == client.api_key@,
        match date {
            Some(m) => r.query_pairs() == seq![("Date"@, month_code(m))],
            None => r.query_pairs() == skip_query(skip),
        },
{
    let url: &str = match vol_type {
        VolType::BusStops => "http://datamall2.mytransport.sg/ltaodataservice/PV/Bus",
        VolType::OdBusStop => "http://datamall2.mytransport.sg/ltaodataservice/PV/ODBus",
        VolType::Train => "http://datamall2.mytransport.sg/ltaodataservice/PV/Train",
        VolType::OdTrain => "http://datamall2.mytransport.sg/ltaodataservice/PV/ODTrain",
    };
    match date {
        Some(m) => {
            let code = format_month(&m);
            let ghost code_view = code@;
            let mut query: Vec<(String, String)> = Vec::new();
            query.push(("Date".to_owned(), code));
            let r = build_req_with_query(client, url, query);
            proof {
                assert(r.query_pairs() =~~= seq![("Date"@, code_view)]);
            }
            r
        },
        None => build_req_with_skip(client, url, skip),
    }
}

} // verus!

use vstd::prelude::*;

use std::collections::HashMap;

use crate::quantity::{Decimal, Energy, Power};
use crate::temporal::{CalendarDate, Timestamp};

verus! {

/// Minutes between two measurements of the service.
pub const REFRESH_TIME_IN_M: i64 = 15;

/// Seconds after a measurement at which the next one is expected: the refresh time plus ten.
pub const NEXT_UPDATE_DELAY: i64 = REFRESH_TIME_IN_M * 60 + 10;

/// The answer to a request for the list of sites.
#[derive(Debug, Clone)]
pub struct SitesReply {
    pub sites: Sites,
}

impl SitesReply {
    /// The sites of the answer.
    pub fn sites(&self) -> (r: &Vec<Site>)
        ensures
            r == &self.sites.site,
    {
        &self.sites.site
    }
}

/// A list of sites with their number as the service counted it.
#[derive(Debug, Clone)]
pub struct Sites {
    pub count: u32,
    pub site: Vec<Site>,
}

/// The answer to a request for the details of a site.
#[derive(Debug, Clone)]
pub struct SiteDetails {
    pub details: Site,
}

/// A monitored installation.
#[derive(Debug, Clone)]
pub struct Site {
    /// the site id
    pub id: u32,
    /// the site name
    pub name: String,
    /// the account this site belongs to
    pub account_id: u32,
    /// the site status
    pub status: String,
    /// site peak power
    pub peak_power: Power,
    pub last_update_time: CalendarDate,
    /// site installation date
    pub installation_date: CalendarDate,
    /// permission to operate date
    pub pto_date: Option<String>,
    pub notes: String,
    /// site type
    pub site_type: String,
    /// includes country, state, city, address, secondary address, time zone and zip
    pub location: Location,
    pub primary_module: PrimaryModule,
    pub uris: HashMap<String, String>,
    /// includes if this site is public and its public name
    pub public_settings: PublicSettings,
}

/// Location of a site
#[derive(Debug, Clone)]
pub struct Location {
    pub country: String,
    pub city: String,
    pub address: String,
    pub zip: String,
    pub time_zone: String,
    pub country_code: String,
}

/// The information about the model of the primary module of the site
#[derive(Debug, Clone)]
pub struct PrimaryModule {
    pub manufacturer_name: String,
    pub model_name: String,
    pub maximum_power: Power,
    pub temperature_coef: Decimal,
}

/// Setting showing if information about this site is public
#[derive(Debug, Clone, Copy, PartialEq, Eq, Structural)]
pub struct PublicSettings {
    pub public: bool,
}

/// The first and last day on which the site produced energy. The service may send them in
/// either order; they are taken as they are.
#[derive(Debug, Clone, Copy, PartialEq, Eq, Structural)]
pub struct DataPeriod {
    pub start_date: CalendarDate,
    pub end_date: CalendarDate,
}

impl DataPeriod {
    pub open spec fn wf(self) -> bool {
        self.start_date.wf() && self.end_date.wf()
    }

    /// The start date as `YYYY-MM-DD`, e.g. `2023-11-09` for November 9th 2023.
    pub fn formatted_start_date(&self) -> (r: String)
        requires
            self.wf(),
        ensures
            r@ == self.start_date.text(),
    {
        Self::formatted_date(&self.start_date)
    }

    /// The end date as `YYYY-MM-DD`.
    pub fn formatted_end_date(&self) -> (r: String)
        requires
            self.wf(),
        ensures
            r@ == self.end_date.text(),
    {
        Self::formatted_date(&self.end_date)
    }

    fn formatted_date(date: &CalendarDate) -> (r: String)
        requires
            date.wf(),
        ensures
            r@ == date.text(),
    {
        date.format()
    }
}

/// The answer to a request for the data period of a site.
#[derive(Debug, Clone, Copy)]
pub struct DataPeriodReply {
    pub data_period: DataPeriod,
}

/// The answer to a request for the overview of a site.
#[derive(Debug, Clone)]
pub struct OverviewReply {
    pub overview: Overview,
}

/// The overview of a site: its current power and its energy of the last day, month, year and
/// of its whole life.
#[derive(Debug, Clone)]
pub struct Overview {
    pub last_updated_time: Timestamp,
    pub life_time_data: TimeData,
    pub last_year_data: TimeData,
    pub last_month_data: TimeData,
    pub last_day_data: TimeData,
    pub current_power: GeneratedPower,
    pub measured_by: String,
}

impl Overview {
    /// When new data should be available, `NEXT_UPDATE_DELAY` seconds after the last update,
    /// and how many seconds remain until then from `now`; negative once that time has passed.
    pub fn estimated_next_update_at(&self, now: &Timestamp) -> (r: (Timestamp, i64))
        requires
            self.last_updated_time.wf(),
            -8_400_000_000_000 <= now.seconds <= 8_400_000_000_000,
        ensures
            r.0.seconds == self.last_updated_time.seconds + NEXT_UPDATE_DELAY,
            r.1 == r.0.seconds - now.seconds,
            now.seconds < r.0.seconds ==> r.1 > 0,
            now.seconds > r.0.seconds ==> r.1 < 0,
    {
        let next = Timestamp { seconds: self.last_updated_time.seconds + NEXT_UPDATE_DELAY };
        (next, next.seconds - now.seconds)
    }

    /// When new data should be available, and how many seconds remain until then from the
    /// local time now; negative once that time has passed.
    pub fn estimated_next_update(&self) -> (r: (Timestamp, i64))
        requires
            self.last_updated_time.wf(),
        ensures
            r.0.seconds == self.last_updated_time.seconds + NEXT_UPDATE_DELAY,
            -8_400_000_000_000 <= r.0.seconds - r.1 <= 8_400_000_000_000,
    {
        let now = Timestamp::now();
        self.estimated_next_update_at(&now)
    }
}

/// Amount of [`Energy`] and optional the revenue of this energy
#[derive(Debug, Clone, Copy, PartialEq, Eq, Structural)]
pub struct TimeData {
    pub energy: Energy,
    pub revenue: Option<Decimal>,
}

/// Generated power
#[derive(Debug, Clone, Copy, PartialEq, Eq, Structural)]
pub struct GeneratedPower {
    pub power: Power,
}

} // verus!

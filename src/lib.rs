//! A client library for a solar-installation monitoring service: the typed model of its
//! answers, the reading of its numbers, dates and granularities, and the building of its
//! requests.
pub mod error;
pub mod quantity;
pub mod request;
pub mod series;
pub mod site;
pub mod temporal;
pub mod text;
pub mod time_unit;

pub use error::{ParseError, SolarApiError};
pub use quantity::{parse_energy_wh, parse_power_kw, Decimal, Energy, Power};
pub use request::{default_map, energy_params, map_to_params, power_params, site_path, to_url};
pub use series::{
    GeneratedEnergy, GeneratedEnergyValue, GeneratedPowerPerTimeUnit, GeneratedPowerValue,
    RawGeneratedEnergyValue, RawGeneratedPowerValue,
};
pub use site::{
    DataPeriod, DataPeriodReply, GeneratedPower, Location, Overview, OverviewReply,
    PrimaryModule, PublicSettings, Site, SiteDetails, Sites, SitesReply, TimeData,
    REFRESH_TIME_IN_M,
};
pub use temporal::{parse_date, parse_date_time, CalendarDate, Timestamp};
pub use time_unit::TimeUnit;

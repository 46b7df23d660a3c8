use serde_json::Value;
use solar_api::{
    parse_date, parse_date_time, parse_energy_wh, parse_power_kw, CalendarDate, DataPeriod,
    Decimal, Energy, GeneratedEnergy, GeneratedPower, GeneratedPowerPerTimeUnit, Overview,
    ParseError, Power, RawGeneratedEnergyValue, RawGeneratedPowerValue, SolarApiError, TimeData,
    TimeUnit, Timestamp,
};

fn text(v: &Value) -> String {
    match v {
        Value::String(s) => s.clone(),
        other => other.to_string(),
    }
}

fn time_data(v: &Value) -> TimeData {
    TimeData {
        energy: parse_energy_wh(&text(&v["energy"])).unwrap(),
        revenue: v.get("revenue").map(|r| Decimal::parse(&text(r)).unwrap()),
    }
}

fn energy_series(v: &Value) -> GeneratedEnergy {
    GeneratedEnergy {
        time_unit: TimeUnit::from_const(v["timeUnit"].as_str().unwrap()).unwrap(),
        unit: v["unit"].as_str().unwrap().to_string(),
        values: v["values"]
            .as_array()
            .unwrap()
            .iter()
            .map(|p| RawGeneratedEnergyValue {
                date: parse_date_time(p["date"].as_str().unwrap()).unwrap(),
                value: if p["value"].is_null() {
                    None
                } else {
                    Some(Decimal::parse(&text(&p["value"])).unwrap())
                },
            })
            .collect(),
    }
}

fn power_series(v: &Value) -> GeneratedPowerPerTimeUnit {
    GeneratedPowerPerTimeUnit {
        time_unit: TimeUnit::from_const(v["timeUnit"].as_str().unwrap()).unwrap(),
        unit: v["unit"].as_str().unwrap().to_string(),
        values: v["values"]
            .as_array()
            .unwrap()
            .iter()
            .map(|p| RawGeneratedPowerValue {
                date: parse_date_time(p["date"].as_str().unwrap()).unwrap(),
                value: if p["value"].is_null() {
                    None
                } else {
                    Some(Decimal::parse(&text(&p["value"])).unwrap())
                },
            })
            .collect(),
    }
}

#[test]
fn test_parse_sites_data() {
    let output = r#"
       {"sites":{
           "count":1,
           "site":[
               {"id":1234123,
                "name":"MySiteName",
                "accountId":123456,
                "status":"Active",
                "peakPower":7.41,
                "lastUpdateTime":"2021-04-29",
                "installationDate":"2021-02-25",
                "ptoDate":null,
                "notes":"",
                "type":"Optimizers & Inverters",
                "location":{
                    "country":"Netherlands",
                    "city":"A city",
                    "address":"Some address",
                    "zip":"zipy",
                    "timeZone":"Europe/Amsterdam",
                    "countryCode":"NL"
                },
                "primaryModule":{
                    "manufacturerName":"JinkoSolar",
                    "modelName":"390",
                    "maximumPower":0.0,
                    "temperatureCoef":0.0
                },
                "uris":{
                    "SITE_IMAGE":"/site/1234123/siteImage/file12341234.jpg",
                    "DATA_PERIOD":"/site/1234123/dataPeriod",
                    "DETAILS":"/site/1234123/details",
                    "OVERVIEW":"/site/1234123/overview"
                },
                "publicSettings":{
                    "isPublic":false
                }}
            ]
        }
    }"#;

    let reply: Value = serde_json::from_str(output).unwrap();
    let sites = &reply["sites"];
    assert_eq!(sites["count"].as_u64(), Some(1));
    let list = sites["site"].as_array().unwrap();
    assert_eq!(list.len(), 1);
    let peak_power = parse_power_kw(&text(&list[0]["peakPower"])).unwrap();
    let power = Power::from_kilowatts(Decimal::new(741, -2));
    assert_eq!(power, peak_power);
    assert_eq!(peak_power.watts, Decimal::new(741, 1));
    let installed = parse_date(list[0]["installationDate"].as_str().unwrap()).unwrap();
    assert_eq!(installed, CalendarDate { year: 2021, month: 2, day: 25 });
    let max = parse_power_kw(&text(&list[0]["primaryModule"]["maximumPower"])).unwrap();
    assert_eq!(max.watts, Decimal::new(0, 0));
}

#[test]
fn test_parse_data_period() {
    let reply = r#"{"dataPeriod":{"startDate":"2021-02-25","endDate":"2021-05-03"}}"#;
    let parsed: Value = serde_json::from_str(reply).unwrap();
    let data_period = DataPeriod {
        start_date: parse_date(parsed["dataPeriod"]["startDate"].as_str().unwrap()).unwrap(),
        end_date: parse_date(parsed["dataPeriod"]["endDate"].as_str().unwrap()).unwrap(),
    };
    assert_eq!("2021-02-25", data_period.formatted_start_date());
    assert_eq!("2021-05-03", data_period.formatted_end_date());
}

#[test]
fn dates_are_checked() {
    assert_eq!(parse_date("2021-02-25"), Ok(CalendarDate { year: 2021, month: 2, day: 25 }));
    assert_eq!(parse_date("2021-13-40"), Err(ParseError::InvalidDate));
    assert_eq!(parse_date("2021-02-29"), Err(ParseError::InvalidDate));
    assert_eq!(parse_date("2021/02/25"), Err(ParseError::InvalidDate));
    assert_eq!(parse_date("2021-02-25 10:00:00"), Err(ParseError::InvalidDate));
    assert_eq!(parse_date("12021-02-25"), Err(ParseError::InvalidDate));
    let d = CalendarDate { year: 987, month: 1, day: 5 };
    let p = DataPeriod { start_date: d, end_date: d };
    assert_eq!(p.formatted_start_date(), "0987-01-05");
}

#[test]
fn timestamps_are_checked() {
    assert_eq!(parse_date_time("1970-01-01 00:00:00"), Ok(Timestamp { seconds: 0 }));
    assert_eq!(parse_date_time("2023-11-09 10:28:56"), Ok(Timestamp { seconds: 1699525736 }));
    assert_eq!(parse_date_time("2023-11-09"), Err(ParseError::InvalidTimestamp));
    assert_eq!(parse_date_time("2023-11-09 25:00:00"), Err(ParseError::InvalidTimestamp));
    assert_eq!(parse_date_time("2023-11-09T10:28:56"), Err(ParseError::InvalidTimestamp));
    assert_eq!(Timestamp { seconds: 1699525736 }.format(), "2023-11-09 10:28:56");
}

#[test]
fn test_energy() {
    let reply = r#"
    {"energy":{
        "timeUnit":"MONTH",
        "unit":"Wh",
        "measuredBy":"INVERTER",
        "values":[
            {"date":"2021-02-01 00:00:00","value":45718.0},
            {"date":"2021-03-01 00:00:00","value":504857.0},
            {"date":"2021-04-01 00:00:00","value":800476.0},
            {"date":"2021-05-01 00:00:00","value":89913.0}]}}
    "#;

    let parsed: Value = serde_json::from_str(reply).unwrap();
    let energy = energy_series(&parsed["energy"]);
    assert_eq!(energy.time_unit, TimeUnit::Month);
    assert_eq!(
        Decimal::new(45718, 0),
        energy.values().unwrap()[0].value.map(|e| e.watt_hours).unwrap()
    );
}

#[test]
fn test_overview() {
    let reply = r#"
    {"overview":{
        "lastUpdateTime":"2023-11-09 10:28:56",
        "lifeTimeData":{"energy":1.9191678E7},
        "lastYearData":{"energy":6143745.0},
        "lastMonthData":{"energy":38709.0},
        "lastDayData":{"energy":2028.0},
        "currentPower":{"power":1173.7279},
        "measuredBy":"INVERTER"}
    }
    "#;

    let parsed: Value = serde_json::from_str(reply).unwrap();
    let o = &parsed["overview"];
    let overview = Overview {
        last_updated_time: parse_date_time(o["lastUpdateTime"].as_str().unwrap()).unwrap(),
        life_time_data: time_data(&o["lifeTimeData"]),
        last_year_data: time_data(&o["lastYearData"]),
        last_month_data: time_data(&o["lastMonthData"]),
        last_day_data: time_data(&o["lastDayData"]),
        current_power: GeneratedPower {
            power: parse_power_kw(&text(&o["currentPower"]["power"])).unwrap(),
        },
        measured_by: o["measuredBy"].as_str().unwrap().to_string(),
    };
    assert_eq!(
        Energy::from_watt_hours(Decimal::new(19191678, 0)),
        overview.life_time_data.energy
    );
    assert_eq!(
        Power::from_kilowatts(Decimal::new(11737279, -4)),
        overview.current_power.power
    );
    assert_eq!(overview.current_power.power.watts, Decimal::new(11737279, -1));
    assert_eq!(overview.life_time_data.revenue, None);
}

#[test]
fn next_update_after_fifteen_minutes_and_ten_seconds() {
    let t = parse_date_time("2023-11-09 10:28:56").unwrap();
    let overview = Overview {
        last_updated_time: t,
        life_time_data: TimeData { energy: parse_energy_wh("1").unwrap(), revenue: None },
        last_year_data: TimeData { energy: parse_energy_wh("1").unwrap(), revenue: None },
        last_month_data: TimeData { energy: parse_energy_wh("1").unwrap(), revenue: None },
        last_day_data: TimeData { energy: parse_energy_wh("1").unwrap(), revenue: None },
        current_power: GeneratedPower { power: parse_power_kw("1").unwrap() },
        measured_by: "INVERTER".to_string(),
    };
    let (next, before) = overview.estimated_next_update_at(&Timestamp { seconds: t.seconds + 100 });
    assert_eq!(next.seconds, t.seconds + 910);
    assert_eq!(next.format(), "2023-11-09 10:44:06");
    assert_eq!(before, 810);
    let (_, after) = overview.estimated_next_update_at(&Timestamp { seconds: t.seconds + 1000 });
    assert_eq!(after, -90);
    let (next_now, remaining) = overview.estimated_next_update();
    assert_eq!(next_now, next);
    assert!(remaining < 0);
}

#[test]
fn test_energy_in_period() {
    let reply = r#"
    {"energy":{
        "timeUnit":"HOUR",
        "unit":"Wh",
        "measuredBy":"INVERTER",
        "values":[
            {"date":"2023-11-09 00:00:00","value":null},
            {"date":"2023-11-09 01:00:00","value":null},
            {"date":"2023-11-09 02:00:00","value":null},
            {"date":"2023-11-09 03:00:00","value":null},
            {"date":"2023-11-09 04:00:00","value":0.0},
            {"date":"2023-11-09 05:00:00","value":null},
            {"date":"2023-11-09 06:00:00","value":null},
            {"date":"2023-11-09 07:00:00","value":0.0},
            {"date":"2023-11-09 08:00:00","value":256.0},
            {"date":"2023-11-09 09:00:00","value":827.0},
            {"date":"2023-11-09 10:00:00","value":1390.0},
            {"date":"2023-11-09 11:00:00","value":222.0},
            {"date":"2023-11-09 12:00:00","value":null},
            {"date":"2023-11-09 13:00:00","value":null},
            {"date":"2023-11-09 14:00:00","value":null},
            {"date":"2023-11-09 15:00:00","value":null},
            {"date":"2023-11-09 16:00:00","value":null},
            {"date":"2023-11-09 17:00:00","value":null},
            {"date":"2023-11-09 18:00:00","value":null},
            {"date":"2023-11-09 19:00:00","value":null},
            {"date":"2023-11-09 20:00:00","value":null},
            {"date":"2023-11-09 21:00:00","value":null},
            {"date":"2023-11-09 22:00:00","value":null},
            {"date":"2023-11-09 23:00:00","value":null}
            ]
        }
    }
    "#;

    let parsed: Value = serde_json::from_str(reply).unwrap();
    let energy = energy_series(&parsed["energy"]);
    assert_eq!(24, energy.values().unwrap().len());
    assert_eq!(
        Some(Energy::from_watt_hours(Decimal::new(222, 0))),
        energy.values().unwrap()[11].value
    );
    assert_eq!(energy.values().unwrap()[12].value, None);
    assert_eq!(
        energy.values().unwrap()[11].date,
        parse_date_time("2023-11-09 11:00:00").unwrap()
    );
}

#[test]
fn series_with_unsupported_unit_fails() {
    let raw = RawGeneratedEnergyValue {
        date: parse_date_time("2023-11-09 00:00:00").unwrap(),
        value: Some(Decimal::new(1, 0)),
    };
    let energy = GeneratedEnergy { time_unit: TimeUnit::Hour, unit: "XX".to_string(), values: vec![raw] };
    assert_eq!(energy.values(), Err(ParseError::UnsupportedUnit));
    let energy = GeneratedEnergy { time_unit: TimeUnit::Hour, unit: "Wh".to_string(), values: vec![raw] };
    assert!(energy.values().is_ok());
    let empty = GeneratedEnergy { time_unit: TimeUnit::Hour, unit: "Wh".to_string(), values: vec![] };
    assert_eq!(empty.values(), Ok(vec![]));
    let power = GeneratedPowerPerTimeUnit { time_unit: TimeUnit::Hour, unit: "Wh".to_string(), values: vec![] };
    assert_eq!(power.values(), Err(ParseError::UnsupportedUnit));
}

#[test]
fn test_power_in_period() {
    let reply = r#"
    {"power":{
        "timeUnit":"QUARTER_OF_AN_HOUR",
        "unit":"W",
        "measuredBy":"INVERTER",
        "values":[
            {"date":"2023-11-09 12:15:00","value":761.538},
            {"date":"2023-11-09 12:30:00","value":822.26117},
            {"date":"2023-11-09 12:45:00","value":746.9589},
            {"date":"2023-11-09 13:00:00","value":563.11},
            {"date":"2023-11-09 13:15:00","value":554.06836}
        ]
    }}
    "#;

    let parsed: Value = serde_json::from_str(reply).unwrap();
    let power = power_series(&parsed["power"]);
    assert_eq!(5, power.values().unwrap().len());
    assert_eq!(
        Some(Power::from_watts(Decimal::new(761538, -3))),
        power.values().unwrap()[0].value
    );
}

#[test]
fn transport_errors_by_status() {
    assert!(matches!(SolarApiError::from_transport(Some(403), "x".to_string()), SolarApiError::ForbiddenError(_)));
    assert!(matches!(SolarApiError::from_transport(Some(404), "x".to_string()), SolarApiError::ApiError(_)));
    assert!(matches!(SolarApiError::from_transport(Some(500), "x".to_string()), SolarApiError::ApiError(_)));
    assert!(matches!(SolarApiError::from_transport(Some(302), "x".to_string()), SolarApiError::NetworkError(_)));
    assert!(matches!(SolarApiError::from_transport(None, "x".to_string()), SolarApiError::NetworkError(_)));
    assert!(matches!(SolarApiError::from_parse(ParseError::InvalidJson), SolarApiError::ParseError(ParseError::InvalidJson)));
}

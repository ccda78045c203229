use mandala_smart_book::dashboard::Missing;
use mandala_smart_book::display::{
    air_quality_text, co2_text, date_text, decimal, month_name, reading_text, time_text, weekday_name,
    AirQuality, AirQualityLevel, Weekday,
};

#[test]
fn decimal_numbers() {
    assert_eq!(decimal(0), "0");
    assert_eq!(decimal(7), "7");
    assert_eq!(decimal(10), "10");
    assert_eq!(decimal(415), "415");
    assert_eq!(decimal(u32::MAX), u32::MAX.to_string());
    for n in [1u32, 9, 99, 100, 1000, 65535, 123456789] {
        assert_eq!(decimal(n), format!("{}", n));
    }
}

#[test]
fn date_and_time_lines() {
    assert_eq!(date_text(Weekday::Mon, 5, 5), "Mon, 05. May");
    assert_eq!(date_text(Weekday::Sun, 31, 12), "Sun, 31. December");
    assert_eq!(date_text(Weekday::Wed, 1, 13), "Wed, 01. Unknown");
    assert_eq!(time_text(7, 5), "07:05");
    assert_eq!(time_text(23, 59), "23:59");
    assert_eq!(time_text(0, 0), "00:00");
    assert_eq!(time_text(123, 10), format!("{:02}:{:02}", 123, 10));
}

#[test]
fn names() {
    let days = [Weekday::Mon, Weekday::Tue, Weekday::Wed, Weekday::Thu, Weekday::Fri, Weekday::Sat, Weekday::Sun];
    let names = ["Mon", "Tue", "Wed", "Thu", "Fri", "Sat", "Sun"];
    for (d, n) in days.iter().zip(names) {
        assert_eq!(weekday_name(*d), n);
    }
    assert_eq!(month_name(1), "January");
    assert_eq!(month_name(9), "September");
    assert_eq!(month_name(0), "Unknown");
}

#[test]
fn co2_readings() {
    assert_eq!(co2_text(&Ok(415)), "415");
    assert_eq!(co2_text(&Err(Missing::NotMeasured)), "--");
    assert_eq!(co2_text(&Err(Missing::Timeout)), "Err");
    assert_eq!(co2_text(&Err(Missing::HardwareFault("bus".to_string()))), "Err");
}

#[test]
fn generic_readings() {
    assert_eq!(reading_text(&Ok("21".to_string())), "21");
    assert_eq!(reading_text(&Err(Missing::NotMeasured)), "--");
    assert_eq!(reading_text(&Err(Missing::Other("x".to_string()))), "Err");
}

#[test]
fn air_quality_readings() {
    let text = |r: Result<AirQuality, Missing>| {
        let (a, b) = air_quality_text(&r);
        (a, b)
    };
    let idx = |aqi, level| Ok(AirQuality::Index { aqi, level });
    assert_eq!(text(idx(42, AirQualityLevel::Good)), ("42".to_string(), "Good".to_string()));
    assert_eq!(text(idx(75, AirQualityLevel::Moderate)), ("75".to_string(), "Moderate".to_string()));
    assert_eq!(text(idx(120, AirQualityLevel::UnhealthySensitive)), ("120".to_string(), "Unhealthy".to_string()));
    assert_eq!(text(idx(170, AirQualityLevel::Unhealthy)), ("170".to_string(), "Unhealthy".to_string()));
    assert_eq!(text(idx(250, AirQualityLevel::VeryUnhealthy)), ("250".to_string(), "Very Unhealthy".to_string()));
    assert_eq!(text(idx(400, AirQualityLevel::Hazardous)), ("400".to_string(), "Hazardous".to_string()));
    assert_eq!(text(Ok(AirQuality::OutOfRange)), ("N/A".to_string(), "Out of Range".to_string()));
    assert_eq!(text(Err(Missing::NotMeasured)), ("--".to_string(), "Pending...".to_string()));
    assert_eq!(text(Err(Missing::Timeout)), ("N/A".to_string(), "Error".to_string()));
}

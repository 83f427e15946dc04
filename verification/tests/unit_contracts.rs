//! Unit-level behaviour of each module: errors, dates and periods, registry,
//! observations, parser, authorization and publication semantics.

use ukx::{
    authorize, ensure_authorized, guard_curve, iadb_code, iadb_key_codes, is_formal_pit_eligible,
    parse_period, parse_uk_cb_observations, planned_schedule, publication_semantics,
    source_plans, validate_observation, curve_route, AvailabilityEvidence, CurveRoute, Date,
    Frequency, Period, PitEligibility, TimePrecision, UkCbAbsence, UkCbAuthorization,
    UkCbAuthorizationEvidence, UkCbError, UkCbErrorKind, UkCbFormat, UkCbIadbCode,
    UkCbObservation, UkCbSeriesId, UkCbSourceId, UkCbUnit, UkCbValue, AUTHORIZATION_STATUS,
    SOURCE_ID,
};

const CSV: &str = "# _synthetic: true
# _note: 合成样本，不是真实源数据；仅供离线解析测试
series,period,value,unit,frequency,revision
IUDBEDR,2026-09-18,4.00,percent,daily,
IUDSOIA,2026-09-18,3.95,percent,daily,
RPWB55A,2026-09-16,750000,native,weekly,
LPMAUYN,2026-08,3100000,native,monthly,
XUDLUSS,2026-09-18,1.27,native,daily,
XUDLERI,2026-09-18,,native,daily,
";

const JSON: &str = r#"{
  "_synthetic": true,
  "_note": "合成样本，不是真实源数据；仅供离线解析测试",
  "observations": [
    { "series": "ONS.CPI.YOY", "period": "2026-08", "value": 2.5, "unit": "percent", "frequency": "monthly" },
    { "series": "ONS.RPI.YOY", "period": "2026-08", "value": 3.4, "unit": "percent", "frequency": "monthly" },
    { "series": "ONS.CPI.YOY", "period": "2026-09", "value": null, "unit": "percent", "frequency": "monthly", "revision": null }
  ]
}"#;

/// Reads a value cell the way the standard library reads an `f64`.
fn finite_number(token: &str) -> bool {
    token.parse::<f64>().is_ok_and(f64::is_finite)
}

fn parse(source: UkCbSourceId, input: &str) -> Result<Vec<UkCbObservation>, UkCbError> {
    parse_uk_cb_observations(source, input, &finite_number)
}

fn csv_with(rows: &str) -> String {
    format!(
        "# _synthetic: true\n# _note: 合成样本\nseries,period,value,unit,frequency,revision\n{rows}"
    )
}

fn date(text: &str) -> Date {
    Date::parse(text).expect("测试用日期合法")
}

fn complete() -> UkCbAuthorizationEvidence {
    UkCbAuthorizationEvidence {
        scope: "offline fixture parse".to_owned(),
        signer: "Owner".to_owned(),
        owner_signed: true,
        valid_from: date("2026-01-01"),
        valid_until: date("2026-12-31"),
    }
}

fn observation() -> UkCbObservation {
    UkCbObservation {
        series: UkCbSeriesId::parse("IUDBEDR").expect("标识合法"),
        period: Period::Day(Date::parse("2026-09-18").expect("日期")),
        value: UkCbValue::Present("4.0".to_owned()),
        unit: UkCbUnit::Percent,
        frequency: Frequency::Daily,
        revision: None,
    }
}

#[test]
fn missing_evidence_is_denied() {
    assert!(matches!(
        authorize(None, date("2026-09-22")),
        UkCbAuthorization::Denied { .. }
    ));
    assert_eq!(AUTHORIZATION_STATUS, "unknown");
}

#[test]
fn unknown_scope_is_denied() {
    let mut evidence = complete();
    evidence.scope = "   ".to_owned();
    match authorize(Some(&evidence), date("2026-09-22")) {
        UkCbAuthorization::Denied { reason } => assert!(reason.contains("范围")),
        _ => panic!("空白范围不得放行"),
    }
}

#[test]
fn unsigned_evidence_is_denied() {
    let mut evidence = complete();
    evidence.owner_signed = false;
    assert!(matches!(
        authorize(Some(&evidence), date("2026-09-22")),
        UkCbAuthorization::Denied { .. }
    ));
}

#[test]
fn expired_and_not_yet_valid_evidence_are_denied() {
    let evidence = complete();
    assert!(matches!(
        authorize(Some(&evidence), date("2027-01-01")),
        UkCbAuthorization::Denied { .. }
    ));
    assert!(matches!(
        authorize(Some(&evidence), date("2025-12-31")),
        UkCbAuthorization::Denied { .. }
    ));
}

#[test]
fn complete_evidence_within_window_is_authorized() {
    assert_eq!(
        authorize(Some(&complete()), date("2026-09-22")),
        UkCbAuthorization::Authorized {
            scope: "offline fixture parse".to_owned()
        }
    );
}

#[test]
fn ensure_authorized_maps_to_typed_error() {
    assert_eq!(
        ensure_authorized(None, date("2026-09-22"))
            .expect_err("证据缺失")
            .kind(),
        UkCbErrorKind::AuthorizationDenied
    );
    assert!(ensure_authorized(Some(&complete()), date("2026-09-22")).is_ok());
}

#[test]
fn invalid_dates_never_authorize() {
    let valid = Date::new(2026, 9, 23).unwrap();
    let invalid = Date {
        year: 2026,
        month: 99,
        day: 99,
    };
    for (start, end, today) in [
        (valid, invalid, valid),
        (invalid, valid, valid),
        (valid, valid, invalid),
        (Date::new(2026, 9, 24).unwrap(), valid, valid),
    ] {
        let evidence = UkCbAuthorizationEvidence {
            scope: "合成范围".into(),
            signer: "合成签署者".into(),
            owner_signed: true,
            valid_from: start,
            valid_until: end,
        };
        assert!(matches!(
            authorize(Some(&evidence), today),
            UkCbAuthorization::Denied { .. }
        ));
    }
}

#[test]
fn kind_maps_one_to_one() {
    let cases: [(UkCbError, UkCbErrorKind); 8] = [
        (UkCbError::Invalid("i".to_owned()), UkCbErrorKind::Invalid),
        (UkCbError::Missing("m".to_owned()), UkCbErrorKind::Missing),
        (
            UkCbError::AuthorizationDenied("a".to_owned()),
            UkCbErrorKind::AuthorizationDenied,
        ),
        (
            UkCbError::RoutedElsewhere("r".to_owned()),
            UkCbErrorKind::RoutedElsewhere,
        ),
        (
            UkCbError::WriteAuthorityDenied("w".to_owned()),
            UkCbErrorKind::WriteAuthorityDenied,
        ),
        (
            UkCbError::SemanticallyRejected("s".to_owned()),
            UkCbErrorKind::SemanticallyRejected,
        ),
        (
            UkCbError::NotApplicable("n".to_owned()),
            UkCbErrorKind::NotApplicable,
        ),
        (
            UkCbError::Invariant("v".to_owned()),
            UkCbErrorKind::Invariant,
        ),
    ];
    for (error, expected) in cases {
        assert_eq!(error.kind(), expected);
    }
}

#[test]
fn only_invariant_is_retryable() {
    let kinds = [
        UkCbErrorKind::Invalid,
        UkCbErrorKind::Missing,
        UkCbErrorKind::AuthorizationDenied,
        UkCbErrorKind::RoutedElsewhere,
        UkCbErrorKind::WriteAuthorityDenied,
        UkCbErrorKind::SemanticallyRejected,
        UkCbErrorKind::NotApplicable,
    ];
    for kind in kinds {
        let error = UkCbError::Invalid(format!("{kind:?}"));
        assert!(!error.is_retryable(), "{kind:?} 不应可重试");
    }
    assert!(UkCbError::Invariant("内部不变量".to_owned()).is_retryable());
}

#[test]
fn display_is_not_empty() {
    let error = UkCbError::RoutedElsewhere("S07 收益率曲线归 yield_curve".to_owned());
    let text = error.to_string();
    assert!(!text.is_empty());
    assert!(text.contains("路由"));
}

#[test]
fn display_does_not_leak_credentials() {
    let error = UkCbError::SemanticallyRejected("序列标识形态非法".to_owned());
    let text = error.to_string();
    assert!(!text.contains("token="));
    assert!(!text.contains("password"));
    assert!(!text.contains("Authorization:"));
}

#[test]
fn parses_the_csv_fixture() {
    let observations = parse(UkCbSourceId::S01, CSV).expect("合成夹具应可解析");
    assert_eq!(observations.len(), 6);
    assert_eq!(observations[0].series.as_str(), "IUDBEDR");
    assert_eq!(
        observations[0]
            .value
            .present()
            .map(|text| text.parse::<f64>().expect("数值")),
        Some(4.0)
    );
    assert_eq!(observations[0].unit, UkCbUnit::Percent);
    assert_eq!(observations[0].frequency, Frequency::Daily);
    assert_eq!(
        observations[0].period,
        Period::Day(Date::parse("2026-09-18").expect("日期"))
    );
}

#[test]
fn parses_the_json_fixture() {
    let observations = parse(UkCbSourceId::S11, JSON).expect("合成夹具应可解析");
    assert_eq!(observations.len(), 3);
    assert_eq!(observations[0].frequency, Frequency::Monthly);
    assert_eq!(
        observations[2].value,
        UkCbValue::Absent(UkCbAbsence::BlankInSource)
    );
}

#[test]
fn curve_source_is_routed_before_anything_else() {
    assert_eq!(
        parse(UkCbSourceId::S07, CSV)
            .expect_err("曲线必须路由")
            .kind(),
        UkCbErrorKind::RoutedElsewhere
    );
}

#[test]
fn sources_without_declared_format_are_not_applicable() {
    for source in [
        UkCbSourceId::S02,
        UkCbSourceId::S06,
        UkCbSourceId::S08,
        UkCbSourceId::S09,
    ] {
        assert_eq!(
            parse(source, CSV).expect_err(source.as_str()).kind(),
            UkCbErrorKind::NotApplicable
        );
    }
}

#[test]
fn unknown_header_column_is_rejected() {
    let input =
        "# _synthetic: true\n# _note: 合成\nseries,period,value,unit,frequency,revision,extra\n";
    assert_eq!(
        parse(UkCbSourceId::S01, input).expect_err("未知列").kind(),
        UkCbErrorKind::Invalid
    );
}

#[test]
fn missing_required_column_is_rejected() {
    let input = "# _synthetic: true\n# _note: 合成\nseries,period,value,unit,frequency\n";
    assert_eq!(
        parse(UkCbSourceId::S01, input).expect_err("缺列").kind(),
        UkCbErrorKind::Invalid
    );
}

#[test]
fn illegal_period_is_rejected() {
    let input = csv_with("IUDBEDR,2026-9-18,4.0,percent,daily,\n");
    assert_eq!(
        parse(UkCbSourceId::S01, &input).expect_err("非法期间").kind(),
        UkCbErrorKind::Invalid
    );
}

#[test]
fn duplicate_identity_is_rejected() {
    let input =
        csv_with("IUDBEDR,2026-09-18,4.0,percent,daily,\nIUDBEDR,2026-09-18,4.0,percent,daily,\n");
    assert_eq!(
        parse(UkCbSourceId::S01, &input).expect_err("重复身份").kind(),
        UkCbErrorKind::SemanticallyRejected
    );
}

#[test]
fn unmarked_sample_is_rejected() {
    let input =
        "series,period,value,unit,frequency,revision\nIUDBEDR,2026-09-18,4.0,percent,daily,\n";
    assert_eq!(
        parse(UkCbSourceId::S01, input).expect_err("缺标注").kind(),
        UkCbErrorKind::SemanticallyRejected
    );
}

#[test]
fn quoted_field_is_rejected_instead_of_misparsed() {
    let input = csv_with("\"IUDBEDR,2026-09-18\",4.0,percent,daily,\n");
    assert_eq!(
        parse(UkCbSourceId::S01, &input).expect_err("引号").kind(),
        UkCbErrorKind::Invalid
    );
}

#[test]
fn blank_value_is_named_absence_not_zero() {
    let input = csv_with("IUDBEDR,2026-09-18,,percent,daily,\n");
    let observations = parse(UkCbSourceId::S01, &input).expect("空值合法");
    assert_eq!(
        observations[0].value,
        UkCbValue::Absent(UkCbAbsence::BlankInSource)
    );
    assert_eq!(observations[0].value.present(), None);
}

#[test]
fn unknown_unit_token_is_semantically_rejected() {
    let input = csv_with("IUDBEDR,2026-09-18,4.0,billions,daily,\n");
    assert_eq!(
        parse(UkCbSourceId::S01, &input).expect_err("未知单位").kind(),
        UkCbErrorKind::SemanticallyRejected
    );
}

#[test]
fn json_unknown_field_is_rejected() {
    let input = JSON.replace(
        r#""series": "ONS.CPI.YOY","#,
        r#""series": "ONS.CPI.YOY", "extra": 1,"#,
    );
    assert_eq!(
        parse(UkCbSourceId::S11, &input).expect_err("未知字段").kind(),
        UkCbErrorKind::Invalid
    );
}

#[test]
fn json_duplicate_identity_is_rejected() {
    let input = JSON.replace(r#""series": "ONS.RPI.YOY""#, r#""series": "ONS.CPI.YOY""#);
    assert_eq!(
        parse(UkCbSourceId::S11, &input).expect_err("重复身份").kind(),
        UkCbErrorKind::SemanticallyRejected
    );
}

#[test]
fn error_messages_do_not_echo_values() {
    let input = csv_with("IUDBEDR,2026-09-18,SECRET-TOKEN-LOOKING,percent,daily,\n");
    let observations = parse(UkCbSourceId::S01, &input).expect("非数值标记合法");
    assert_eq!(
        observations[0].value,
        UkCbValue::Absent(UkCbAbsence::ExplicitMarker)
    );
    let text = parse(UkCbSourceId::S01, "IUDBEDR,2026-9-18,SECRET,x,y,\n")
        .expect_err("非法期间")
        .to_string();
    assert!(!text.contains("SECRET"));
}

#[test]
fn leading_bom_is_tolerated() {
    let input = csv_with("IUDBEDR,2026-09-18,4.0,percent,daily,\n");
    let with_bom = format!("\u{feff}{input}");
    let observations = parse(UkCbSourceId::S01, &with_bom).expect("BOM 是编码产物");
    assert_eq!(observations.len(), 1);
}

#[test]
fn key_code_helper_is_strict() {
    assert_eq!(iadb_key_codes().len(), 6);
    assert!(iadb_code("IUDBEDR").is_ok());
    assert_eq!(
        iadb_code("IUDBEDX").expect_err("非种子码").kind(),
        UkCbErrorKind::SemanticallyRejected
    );
}

#[test]
fn json_structural_values_are_rejected() {
    for value in ["true", "[]", "{\"unknown\":123}"] {
        let input = format!(
            r#"{{"_synthetic":true,"_note":"合成回归","observations":[{{"series":"ONS.CPI.YOY","period":"2026-09","value":{value},"unit":"percent","frequency":"monthly"}}]}}"#
        );
        assert!(parse(UkCbSourceId::S11, &input).is_err());
    }
}

#[test]
fn publication_triple_is_pinned_to_date_inferred_not_eligible() {
    assert_eq!(
        publication_semantics(),
        (
            TimePrecision::Date,
            AvailabilityEvidence::Inferred,
            PitEligibility::NotEligible
        )
    );
}

#[test]
fn formal_pit_is_never_eligible_here() {
    assert!(!is_formal_pit_eligible());
}

#[test]
fn no_instant_and_no_official_evidence_are_claimed() {
    let (precision, evidence, _) = publication_semantics();
    assert_ne!(precision, TimePrecision::Instant, "不得把日期伪装成时刻");
    assert_ne!(evidence, AvailabilityEvidence::Official);
    assert_ne!(evidence, AvailabilityEvidence::Calendar);
}

#[test]
fn date_parse_is_strict_and_checks_the_calendar() {
    assert_eq!(Date::parse("2026-09-18").expect("合法").month, 9);
    for bad in ["2026-9-18", "2026/09/18", "2026-02-30"] {
        assert_eq!(
            Date::parse(bad).expect_err(bad).kind(),
            UkCbErrorKind::Invalid
        );
    }
    assert!(Date::is_leap_year(2000) && !Date::is_leap_year(1900));
}

#[test]
fn period_forms_are_declared_and_bounded() {
    assert_eq!(
        parse_period("2026-09-18").expect("日"),
        Period::Day(Date::parse("2026-09-18").expect("日期"))
    );
    assert_eq!(parse_period("2026").expect("年"), Period::Year(2026));
    assert_eq!(
        parse_period("event:2026-09-18").expect("事件"),
        Period::Event {
            date: Date::parse("2026-09-18").expect("日期")
        }
    );
    for bad in ["2026-Q5", "2026/09/18", "26-09"] {
        assert_eq!(
            parse_period(bad).expect_err(bad).kind(),
            UkCbErrorKind::Invalid
        );
    }
}

#[test]
fn period_validate_rejects_out_of_range_fields() {
    assert!(Period::Month {
        year: 2026,
        month: 12
    }
    .validate()
    .is_ok());
    assert!(Period::Quarter {
        year: 2026,
        quarter: 5
    }
    .validate()
    .is_err());
}

#[test]
fn frequency_and_unit_round_trip() {
    for frequency in [Frequency::Daily, Frequency::Event, Frequency::Irregular] {
        assert_eq!(
            Frequency::parse(frequency.as_str()).expect("可回读"),
            frequency
        );
    }
    for unit in [UkCbUnit::Unspecified, UkCbUnit::Native, UkCbUnit::Percent] {
        assert_eq!(UkCbUnit::parse(unit.as_str()).expect("可回读"), unit);
    }
    assert_eq!(
        UkCbUnit::parse("billions").expect_err("未知单位").kind(),
        UkCbErrorKind::SemanticallyRejected
    );
}

#[test]
fn series_id_keeps_the_source_text_and_is_bounded() {
    assert_eq!(
        UkCbSeriesId::parse("IUDSOIA").expect("合法").as_str(),
        "IUDSOIA"
    );
    assert_eq!(
        UkCbSeriesId::parse("IUDBEDR").expect("合法").iadb_code(),
        Some(UkCbIadbCode::Iudbedr)
    );
    assert_eq!(
        UkCbSeriesId::parse("ONS.CPI.YOY")
            .expect("合法")
            .iadb_code(),
        None
    );
    assert!(UkCbSeriesId::parse("a b").is_err());
    assert_eq!(
        UkCbSeriesId::parse("  ").expect_err("空标识").kind(),
        UkCbErrorKind::Missing
    );
}

#[test]
fn absence_is_named_and_never_zero() {
    assert_eq!(
        UkCbValue::Absent(UkCbAbsence::BlankInSource).present(),
        None
    );
    assert!(UkCbValue::Absent(UkCbAbsence::ExplicitMarker).is_absent());
    assert!(!UkCbValue::Present("1.5".to_owned()).is_absent());
    assert_ne!(
        UkCbValue::Absent(UkCbAbsence::BlankInSource),
        UkCbValue::Absent(UkCbAbsence::ExplicitMarker)
    );
}

#[test]
fn validation_rejects_non_finite_and_mismatched_frequency() {
    let mut sample = observation();
    sample.value = UkCbValue::Present(f64::NAN.to_string());
    assert_eq!(
        validate_observation(&sample, &finite_number)
            .expect_err("NaN")
            .kind(),
        UkCbErrorKind::Invalid
    );
    let mut mismatched = observation();
    mismatched.period = Period::Year(2026);
    assert_eq!(
        validate_observation(&mismatched, &finite_number)
            .expect_err("日频配年期间")
            .kind(),
        UkCbErrorKind::Invalid
    );
    assert!(validate_observation(&observation(), &finite_number).is_ok());
}

#[test]
fn revision_is_absent_until_the_source_provides_one() {
    assert_eq!(observation().revision(), None);
    let mut revised = observation();
    revised.revision = Some("r1".to_owned());
    assert_eq!(revised.revision(), Some("r1"));
    revised.revision = Some("   ".to_owned());
    assert_eq!(
        validate_observation(&revised, &finite_number)
            .expect_err("空修订")
            .kind(),
        UkCbErrorKind::Missing
    );
}

#[test]
fn source_registry_matches_the_manifest() {
    assert_eq!(SOURCE_ID, "uk_cb");
    assert_eq!(source_plans().len(), 11);
    for plan in source_plans() {
        assert_eq!(plan.id.plan(), plan);
    }
    assert_eq!(source_plans()[0].declared_form, "CSV/XML");
    assert!(source_plans()[1].formats.is_empty(), "S02 未点名格式");
    assert_eq!(source_plans()[10].formats, &[UkCbFormat::Json]);
}

#[test]
fn format_implementation_is_limited_to_csv_and_json() {
    assert!(UkCbFormat::Csv.is_offline_implemented());
    assert!(UkCbFormat::Json.is_offline_implemented());
    for format in [
        UkCbFormat::Xml,
        UkCbFormat::Excel,
        UkCbFormat::Xlsx,
        UkCbFormat::Zip,
    ] {
        assert!(!format.is_offline_implemented(), "{}", format.as_str());
    }
}

#[test]
fn key_codes_are_exactly_the_six_seeds() {
    assert_eq!(iadb_key_codes().len(), 6);
    assert_eq!(iadb_key_codes()[0].as_str(), "IUDBEDR");
    assert_eq!(iadb_key_codes()[5].as_str(), "XUDLERI");
    assert_eq!(
        iadb_code("IUDBEDX").expect_err("非种子码").kind(),
        UkCbErrorKind::SemanticallyRejected
    );
    assert_eq!(
        iadb_code("iudbedr").expect_err("大小写敏感").kind(),
        UkCbErrorKind::SemanticallyRejected
    );
    assert_eq!(UkCbIadbCode::Lpmauyn.as_str(), "LPMAUYN");
}

#[test]
fn curve_is_routed_and_schedule_is_planned_only() {
    assert!(UkCbSourceId::S07.is_curve());
    assert_eq!(
        guard_curve(UkCbSourceId::S07)
            .expect_err("曲线须路由")
            .kind(),
        UkCbErrorKind::RoutedElsewhere
    );
    assert!(guard_curve(UkCbSourceId::S01).is_ok());
    assert_eq!(
        curve_route(),
        CurveRoute {
            slot: "yield_curve",
            providers: ["boe_iadb", "uk_dmo"]
        }
    );
    assert_eq!(planned_schedule().len(), 8);
    assert_eq!(planned_schedule()[6].utc_time, None, "日历驱动无固定时刻");
}

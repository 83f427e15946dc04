//! Properties of the library on concrete values, and the edge cases of the
//! offline forms, the calendar and the authorization decision.

use ukx::json::JsonValue;
use ukx::{
    authorize, ensure_authorized, iadb_code, iadb_key_codes, parse_period,
    parse_uk_cb_observations, source_plans, Date, Frequency, Period, UkCbAbsence,
    UkCbAuthorization, UkCbAuthorizationEvidence, UkCbError, UkCbErrorKind, UkCbIadbCode,
    UkCbObservation, UkCbSeriesId, UkCbSourceId, UkCbUnit, UkCbValue,
};

fn finite_number(token: &str) -> bool {
    token.parse::<f64>().is_ok_and(f64::is_finite)
}

fn parse(source: UkCbSourceId, input: &str) -> Result<Vec<UkCbObservation>, UkCbError> {
    parse_uk_cb_observations(source, input, &finite_number)
}

fn csv_with(rows: &str) -> String {
    format!("# _synthetic: true\n# _note: 合成样本\nseries,period,value,unit,frequency,revision\n{rows}")
}

fn kind_of(result: Result<Vec<UkCbObservation>, UkCbError>) -> UkCbErrorKind {
    result.expect_err("应被拒绝").kind()
}

fn evidence() -> UkCbAuthorizationEvidence {
    UkCbAuthorizationEvidence {
        scope: "offline fixture parse".to_owned(),
        signer: "Owner".to_owned(),
        owner_signed: true,
        valid_from: Date::new(2026, 1, 1).unwrap(),
        valid_until: Date::new(2026, 12, 31).unwrap(),
    }
}

#[test]
fn curve_source_is_routed_whatever_the_input() {
    for input in ["", "garbage", "{}", &csv_with("IUDBEDR,2026-09-18,4.0,percent,daily,\n")] {
        assert_eq!(kind_of(parse(UkCbSourceId::S07, input)), UkCbErrorKind::RoutedElsewhere);
    }
}

#[test]
fn every_csv_source_reads_the_csv_form() {
    let input = csv_with("IUDBEDR,2026-09-18,4.0,percent,daily,\n");
    for source in [
        UkCbSourceId::S01,
        UkCbSourceId::S03,
        UkCbSourceId::S04,
        UkCbSourceId::S05,
        UkCbSourceId::S10,
    ] {
        assert_eq!(parse(source, &input).expect("CSV 源").len(), 1);
    }
    assert_eq!(kind_of(parse(UkCbSourceId::S11, &input)), UkCbErrorKind::Invalid);
}

#[test]
fn csv_line_endings_and_blank_lines_are_tolerated() {
    let input = "# _synthetic: true\r\n\r\n# _note: 合成\r\nseries,period,value,unit,frequency,revision\r\n\r\nIUDBEDR,2026-09-18,4.0,percent,daily,\r\n";
    let observations = parse(UkCbSourceId::S01, input).expect("CRLF");
    assert_eq!(observations.len(), 1);
    assert_eq!(observations[0].value.present(), Some("4.0"));
}

#[test]
fn csv_labels_may_follow_the_header_and_the_last_one_counts() {
    let late = "series,period,value,unit,frequency,revision\nIUDBEDR,2026-09-18,4.0,percent,daily,\n# _synthetic: true\n# _note: 合成\n";
    assert_eq!(parse(UkCbSourceId::S01, late).expect("标注在后").len(), 1);
    let overridden = csv_with("IUDBEDR,2026-09-18,4.0,percent,daily,\n# _synthetic: false\n");
    assert_eq!(kind_of(parse(UkCbSourceId::S01, &overridden)), UkCbErrorKind::SemanticallyRejected);
    let blank_note = "# _synthetic: true\n# _note:    \nseries,period,value,unit,frequency,revision\n";
    assert_eq!(kind_of(parse(UkCbSourceId::S01, blank_note)), UkCbErrorKind::SemanticallyRejected);
}

#[test]
fn csv_without_header_is_missing() {
    let input = "# _synthetic: true\n# _note: 合成\n# 只有注释\n";
    assert_eq!(kind_of(parse(UkCbSourceId::S01, input)), UkCbErrorKind::Missing);
}

#[test]
fn csv_cell_faults_have_their_own_kinds() {
    let cases = [
        ("IUDBEDR,2026-09-18,4.0,percent,daily,,extra\n", UkCbErrorKind::Invalid),
        ("a b,2026-09-18,4.0,percent,daily,\n", UkCbErrorKind::Invalid),
        ("  ,2026-09-18,4.0,percent,daily,\n", UkCbErrorKind::Missing),
        ("IUDBEDR, 2026-09-18,4.0,percent,daily,\n", UkCbErrorKind::Invalid),
        ("IUDBEDR,2026-09-18,4.0,percent,fortnightly,\n", UkCbErrorKind::NotApplicable),
        ("IUDBEDR,2026-08,4.0,percent,quarterly,\n", UkCbErrorKind::Invalid),
    ];
    for (row, kind) in cases {
        assert_eq!(kind_of(parse(UkCbSourceId::S01, &csv_with(row))), kind, "{row}");
    }
}

#[test]
fn csv_cells_are_trimmed_where_the_form_says_so() {
    let input = csv_with("  IUDBEDR ,2026-09-18, 4.0 , percent , daily , r2 \n");
    let observations = parse(UkCbSourceId::S01, &input).expect("两端空白");
    assert_eq!(observations[0].series.as_str(), "IUDBEDR");
    assert_eq!(observations[0].value.present(), Some("4.0"));
    assert_eq!(observations[0].unit, UkCbUnit::Percent);
    assert_eq!(observations[0].revision(), Some("r2"));
}

#[test]
fn non_finite_numerals_are_markers() {
    for token in ["NaN", "inf", "1e400", "n/a"] {
        let input = csv_with(&format!("IUDBEDR,2026-09-18,{token},percent,daily,\n"));
        let observations = parse(UkCbSourceId::S01, &input).expect("标记合法");
        assert_eq!(observations[0].value, UkCbValue::Absent(UkCbAbsence::ExplicitMarker), "{token}");
    }
}

#[test]
fn error_messages_name_the_line() {
    let input = csv_with("IUDBEDR,2026-09-18,4.0,percent\n");
    let error = parse(UkCbSourceId::S01, &input).expect_err("缺列");
    assert_eq!(error.to_string(), "输入非法：第 4 行的列数须为 6，收到 4");
    let header = "# _synthetic: true\nperiod,series\n";
    let error = parse(UkCbSourceId::S01, header).expect_err("表头");
    assert!(error.to_string().contains("（第 2 行）"));
}

#[test]
fn json_syntax_errors_are_invalid_with_a_position() {
    let error = parse(UkCbSourceId::S11, "{\n  \"_synthetic\": @\n}").expect_err("语法");
    assert_eq!(error.kind(), UkCbErrorKind::Invalid);
    assert!(error.to_string().contains("第 2 行"), "{}", error.to_string());
}

#[test]
fn json_shape_faults_are_invalid() {
    let cases = [
        r#"{"_synthetic":true,"_note":"n"}"#,
        r#"{"_synthetic":"true","_note":"n","observations":[]}"#,
        r#"{"_synthetic":true,"_note":5,"observations":[]}"#,
        r#"{"_synthetic":true,"_note":"n","observations":{}}"#,
        r#"{"_synthetic":true,"_note":"n","observations":[{"series":"A","period":"2026","unit":"native","frequency":"annual"}]}"#,
        r#"{"_synthetic":true,"_note":"n","observations":[{"series":1,"period":"2026","value":1,"unit":"native","frequency":"annual"}]}"#,
        r#"{"_synthetic":true,"_note":"n","observations":[{"series":"A","period":"2026","value":1,"unit":"native","frequency":"annual","revision":3}]}"#,
        r#"[true,"n"]"#,
        r#""text""#,
    ];
    for input in cases {
        assert_eq!(kind_of(parse(UkCbSourceId::S11, input)), UkCbErrorKind::Invalid, "{input}");
    }
}

#[test]
fn json_labels_are_required() {
    let unlabelled = r#"{"_note":"n","observations":[]}"#;
    assert_eq!(kind_of(parse(UkCbSourceId::S11, unlabelled)), UkCbErrorKind::SemanticallyRejected);
    let null_label = r#"{"_synthetic":null,"_note":"n","observations":[]}"#;
    assert_eq!(kind_of(parse(UkCbSourceId::S11, null_label)), UkCbErrorKind::SemanticallyRejected);
    let blank_note = r#"{"_synthetic":true,"_note":"  ","observations":[]}"#;
    assert_eq!(kind_of(parse(UkCbSourceId::S11, blank_note)), UkCbErrorKind::SemanticallyRejected);
    let empty = r#"{"_synthetic":true,"_note":"n","observations":[]}"#;
    assert_eq!(parse(UkCbSourceId::S11, empty).expect("空集合").len(), 0);
}

#[test]
fn json_values_name_their_absence() {
    let input = r#"{"_synthetic":true,"_note":"n","observations":[
        {"series":"A","period":"2026","value":1.25,"unit":"native","frequency":"annual","revision":" r1 "},
        {"series":"B","period":"2026","value":"  ","unit":"native","frequency":"annual","revision":"  "},
        {"series":"C","period":"2026","value":"provisional","unit":"native","frequency":"annual"}
    ]}"#;
    let observations = parse(UkCbSourceId::S11, input).expect("合法");
    assert_eq!(observations[0].value.present(), Some("1.25"));
    assert_eq!(observations[0].revision(), Some("r1"));
    assert_eq!(observations[1].value, UkCbValue::Absent(UkCbAbsence::BlankInSource));
    assert_eq!(observations[1].revision(), None);
    assert_eq!(observations[2].value, UkCbValue::Absent(UkCbAbsence::ExplicitMarker));
}

#[test]
fn json_array_forms_follow_member_order() {
    let input = r#"[true, "合成", [["A", "2026-Q3", 2, "native", "quarterly"], ["B", "2026", null, "native", "annual", "r9"]]]"#;
    let observations = parse(UkCbSourceId::S11, input).expect("数组形态");
    assert_eq!(observations.len(), 2);
    assert_eq!(observations[0].period, Period::Quarter { year: 2026, quarter: 3 });
    assert_eq!(observations[0].value.present(), Some("2"));
    assert_eq!(observations[1].revision(), Some("r9"));
}

#[test]
fn json_item_faults_come_in_item_order() {
    let input = r#"{"_synthetic":true,"_note":"n","observations":[
        {"series":"A","period":"2026","value":1,"unit":"billions","frequency":"annual"},
        {"series":"B","period":"bad","value":1,"unit":"native","frequency":"annual"}
    ]}"#;
    assert_eq!(kind_of(parse(UkCbSourceId::S11, input)), UkCbErrorKind::SemanticallyRejected);
    let mismatch = r#"{"_synthetic":true,"_note":"n","observations":[
        {"series":"A","period":"2026","value":1,"unit":"native","frequency":"daily"}
    ]}"#;
    assert_eq!(kind_of(parse(UkCbSourceId::S11, mismatch)), UkCbErrorKind::Invalid);
}

#[test]
fn dates_render_and_read_back() {
    for (year, month, day, text) in [
        (2026, 9, 18, "2026-09-18"),
        (12, 1, 2, "0012-01-02"),
        (2024, 2, 29, "2024-02-29"),
    ] {
        let date = Date::new(year, month, day).unwrap();
        assert_eq!(date.to_string(), text);
        assert_eq!(Date::parse(text).unwrap(), date);
    }
    let negative = Date { year: -5, month: 1, day: 2 };
    assert_eq!(negative.to_string(), "-005-01-02");
}

#[test]
fn date_faults_name_the_first_failed_check_without_the_text() {
    let message = |text: &str| Date::parse(text).expect_err(text).to_string();
    assert_eq!(message("2026/09/18"), "输入非法：日期须为严格 YYYY-MM-DD 形态");
    assert_eq!(message("2026-9-18"), "输入非法：日期须为严格 YYYY-MM-DD 形态");
    assert_eq!(message("20x6-09-18"), "输入非法：年须为定长补零十进制数字");
    assert_eq!(message("2026-x9-1y"), "输入非法：月须为定长补零十进制数字");
    assert_eq!(message("2026-09-1y"), "输入非法：日须为定长补零十进制数字");
    assert_eq!(message("2026-13-01"), "输入非法：月须在 1–12");
    assert_eq!(message("2026-02-30"), "输入非法：日须在 1–28");
    // Ten bytes, not ten characters: `é` takes two bytes, so the day field is not digits.
    assert_eq!(message("2026-09-é"), "输入非法：日须为定长补零十进制数字");
    assert_eq!(message("2026-09-1é"), "输入非法：日期须为严格 YYYY-MM-DD 形态");
    let error = Date::new(2023, 2, 29).expect_err("平年");
    assert_eq!(error.kind(), UkCbErrorKind::Invalid);
    assert_eq!(error.to_string(), "输入非法：日须在 1–28");
    assert_eq!(
        Date::new(-5, 2, 30).expect_err("负年").to_string(),
        "输入非法：日须在 1–28"
    );
    assert!(Date::new(2000, 2, 29).is_ok());
    assert!(Date::new(1900, 2, 29).is_err());
}

#[test]
fn period_faults_name_the_first_failed_check() {
    let message = |text: &str| parse_period(text).expect_err(text).to_string();
    assert_eq!(message("2026-Q5"), "输入非法：季须在 1–4");
    assert_eq!(message("20x6-Qx"), "输入非法：季须为定长补零十进制数字");
    assert_eq!(message("20x6-Q1"), "输入非法：年须为定长补零十进制数字");
    assert_eq!(message("2026-13"), "输入非法：月须在 1–12");
    assert_eq!(message("event:2026-02-30"), "输入非法：日须在 1–28");
    assert_eq!(message("event:x"), "输入非法：日期须为严格 YYYY-MM-DD 形态");
    assert_eq!(message("20a6"), "输入非法：年须为定长补零十进制数字");
    assert_eq!(
        message("26-09"),
        "输入非法：期间形态须为 YYYY-MM-DD / YYYY-MM / YYYY-Qn / YYYY / event:YYYY-MM-DD"
    );
    // Four bytes: `é` and two digits.
    assert_eq!(message("é26"), "输入非法：年须为定长补零十进制数字");
}

#[test]
fn period_forms_and_bounds() {
    assert_eq!(parse_period("2026-12").unwrap(), Period::Month { year: 2026, month: 12 });
    for bad in ["2026-13", "2026-00", "2026-Q0", "event:2026-02-30", "event:", "20a6", "2026-9"] {
        assert_eq!(parse_period(bad).expect_err(bad).kind(), UkCbErrorKind::Invalid, "{bad}");
    }
    assert_eq!(parse_period("0000").unwrap(), Period::Year(0));
}

#[test]
fn unit_and_frequency_refusals_do_not_quote_the_input() {
    let error = Frequency::parse("Daily").expect_err("大小写");
    assert_eq!(error.kind(), UkCbErrorKind::NotApplicable);
    assert_eq!(error.to_string(), "规划能力尚未实现：频率不在契约的七个取值内");
    let error = UkCbUnit::parse(" percent").expect_err("空白");
    assert_eq!(error.kind(), UkCbErrorKind::SemanticallyRejected);
    assert_eq!(error.to_string(), "语义不被接受：单位不在本层声明的三个取值内");
}

#[test]
fn key_code_and_series_refusals_do_not_quote_the_input() {
    assert_eq!(
        iadb_code("iudbedr").expect_err("大小写").to_string(),
        "语义不被接受：IADB 码不在清单 §1.2 的 6 个关键种子内；本层不得自行扩集"
    );
    assert_eq!(
        UkCbSeriesId::parse(" a b ").expect_err("空格").to_string(),
        "输入非法：序列标识只允许 ASCII 字母 / 数字 / `_` / `.` / `-`"
    );
    assert_eq!(UkCbSeriesId::parse(" \t ").expect_err("空白").to_string(), "缺少必需项：序列标识");
}

#[test]
fn every_seed_round_trips_and_nothing_else_is_a_seed() {
    for code in iadb_key_codes() {
        assert_eq!(iadb_code(code.as_str()).unwrap(), code);
        assert_eq!(UkCbIadbCode::from_code(code.as_str()).unwrap(), code);
    }
    for bad in ["", "IUDBED", "IUDBEDRR", "XUDL*", "ONS.CPI.YOY"] {
        assert_eq!(iadb_code(bad).expect_err(bad).kind(), UkCbErrorKind::SemanticallyRejected);
    }
}

#[test]
fn every_registry_entry_is_found_by_its_identifier() {
    for (index, plan) in source_plans().iter().enumerate() {
        assert_eq!(plan.id.plan(), *plan);
        assert_eq!(plan.id.as_str(), format!("S{:02}", index + 1));
    }
}

#[test]
fn series_identifiers_keep_their_text() {
    let id = UkCbSeriesId::parse("  XUDLUSS  ").unwrap();
    assert_eq!(id.as_str(), "XUDLUSS");
    assert_eq!(id.to_string(), "XUDLUSS");
    assert_eq!(id.iadb_code(), Some(UkCbIadbCode::Xudluss));
    let error = UkCbSeriesId::parse("序列").expect_err("非 ASCII");
    assert_eq!(error.to_string(), "输入非法：序列标识只允许 ASCII 字母 / 数字 / `_` / `.` / `-`");
    let id = UkCbSeriesId::parse(" ONS.CPI.YOY ").unwrap();
    assert_eq!(id.clone(), id);
    assert_eq!(id.clone().as_str(), "ONS.CPI.YOY");
}

#[test]
fn authorization_reasons_name_the_failed_check() {
    let as_of = Date::new(2026, 9, 22).unwrap();
    let reason = |verdict: UkCbAuthorization| match verdict {
        UkCbAuthorization::Denied { reason } => reason,
        _ => panic!("必须拒绝"),
    };
    assert_eq!(
        reason(authorize(None, as_of)),
        "证据缺失：无 Owner 签核文件；Series/UA/许可 UNKNOWN"
    );
    let mut e = evidence();
    e.signer = " ".to_owned();
    assert_eq!(reason(authorize(Some(&e), as_of)), "签署者不明：signer 为空");
    let e = evidence();
    assert_eq!(
        reason(authorize(Some(&e), Date::new(2027, 1, 1).unwrap())),
        "证据已过期（失效日 2026-12-31）"
    );
    assert_eq!(
        reason(authorize(Some(&e), Date::new(2025, 12, 31).unwrap())),
        "证据尚未生效（生效日 2026-01-01）"
    );
    let mut reversed = evidence();
    reversed.valid_from = Date::new(2027, 1, 1).unwrap();
    assert_eq!(
        reason(authorize(Some(&reversed), as_of)),
        "授权日期非法或有效期区间倒置，无法确认有效性"
    );
    assert!(matches!(
        authorize(Some(&e), Date::new(2026, 12, 31).unwrap()),
        UkCbAuthorization::Authorized { .. }
    ));
    assert!(matches!(
        authorize(Some(&e), Date::new(2026, 1, 1).unwrap()),
        UkCbAuthorization::Authorized { .. }
    ));
    let error = ensure_authorized(None, as_of).expect_err("缺证据");
    assert_eq!(
        error.to_string(),
        "授权判定未通过：证据缺失：无 Owner 签核文件；Series/UA/许可 UNKNOWN"
    );
}

#[test]
fn every_error_kind_renders_its_label() {
    let cases = [
        (UkCbError::Invalid("x".into()), "输入非法：x"),
        (UkCbError::Missing("x".into()), "缺少必需项：x"),
        (UkCbError::AuthorizationDenied("x".into()), "授权判定未通过：x"),
        (UkCbError::RoutedElsewhere("x".into()), "不属于本域，已路由他处：x"),
        (UkCbError::WriteAuthorityDenied("x".into()), "越权写入被拒绝：x"),
        (UkCbError::SemanticallyRejected("x".into()), "语义不被接受：x"),
        (UkCbError::NotApplicable("x".into()), "规划能力尚未实现：x"),
        (UkCbError::Invariant("x".into()), "不变量被破坏：x"),
    ];
    for (error, text) in cases {
        assert_eq!(error.to_string(), text);
    }
}

#[test]
fn curve_route_message_points_at_the_slot() {
    let error = ukx::guard_curve(UkCbSourceId::S07).expect_err("曲线");
    assert_eq!(
        error.to_string(),
        "不属于本域，已路由他处：S07 收益率曲线归 yield_curve（#11 boe_iadb / #12 uk_dmo），不得直写观测"
    );
}

#[test]
fn undeclared_format_message_and_named_formats() {
    let error = parse(UkCbSourceId::S02, "").expect_err("未点名");
    assert_eq!(
        error.to_string(),
        "规划能力尚未实现：该源在清单「形式」列未点名格式，离线解析不实现（不得猜格式）"
    );
}

#[test]
fn repeated_identity_message_names_the_series() {
    let input = csv_with("XUDLUSS,2026-09-18,1,native,daily,\nXUDLUSS,2026-09-18,,native,daily,\n");
    let error = parse(UkCbSourceId::S01, &input).expect_err("重复");
    assert_eq!(
        error.to_string(),
        "语义不被接受：重复身份：序列 + 业务期间在样本内出现两次（第 2 条观测）"
    );
    let distinct = csv_with("XUDLUSS,2026-09-18,1,native,daily,\nXUDLUSS,event:2026-09-18,1,native,daily,\n");
    assert_eq!(parse(UkCbSourceId::S01, &distinct).expect("事件期间不同").len(), 2);
}

#[test]
fn observation_check_messages_name_the_failed_check() {
    let base = || UkCbObservation {
        series: UkCbSeriesId::parse("IUDBEDR").unwrap(),
        period: Period::Day(Date::new(2026, 9, 18).unwrap()),
        value: UkCbValue::Present("4.0".to_owned()),
        unit: UkCbUnit::Percent,
        frequency: Frequency::Daily,
        revision: None,
    };
    let message = |o: &UkCbObservation| ukx::validate_observation(o, &finite_number).unwrap_err().to_string();
    let mut o = base();
    o.value = UkCbValue::Present("inf".to_owned());
    assert_eq!(message(&o), "输入非法：取值为非有限数值（NaN / 无穷）");
    let mut o = base();
    o.revision = Some(" ".to_owned());
    assert_eq!(message(&o), "缺少必需项：修订标识（给出了空串）");
    let mut o = base();
    o.period = Period::Quarter { year: 2026, quarter: 3 };
    assert_eq!(message(&o), "输入非法：日频观测的期间须为日粒度或事件日");
    o.frequency = Frequency::Monthly;
    assert_eq!(message(&o), "输入非法：月频观测的期间须为月粒度");
    o.frequency = Frequency::Annual;
    assert_eq!(message(&o), "输入非法：年频观测的期间须为年粒度");
    o.frequency = Frequency::Weekly;
    assert!(ukx::validate_observation(&o, &finite_number).is_ok());
    o.period = Period::Month { year: 2026, month: 2 };
    o.frequency = Frequency::Quarterly;
    assert_eq!(message(&o), "输入非法：季频观测的期间须为季粒度");
    o.period = Period::Month { year: 2026, month: 0 };
    assert_eq!(message(&o), "输入非法：月须在 1–12");
}

#[test]
fn accepted_csv_always_carries_the_exact_header() {
    let reordered = "# _synthetic: true\n# _note: n\nperiod,series,value,unit,frequency,revision\n";
    assert_eq!(kind_of(parse(UkCbSourceId::S01, reordered)), UkCbErrorKind::Invalid);
    let padded = "# _synthetic: true\n# _note: n\n  series,period,value,unit,frequency,revision  \n";
    assert_eq!(parse(UkCbSourceId::S01, padded).unwrap().len(), 0);
}

#[test]
fn unknown_json_members_fail_the_document() {
    let outer = r#"{"_synthetic":true,"_note":"n","observations":[],"extra":null}"#;
    assert_eq!(kind_of(parse(UkCbSourceId::S11, outer)), UkCbErrorKind::Invalid);
    let inner = r#"{"_synthetic":true,"_note":"n","observations":[{"series":"A","period":"2026","value":1,"unit":"native","frequency":"annual","note":"x"}]}"#;
    assert_eq!(kind_of(parse(UkCbSourceId::S11, inner)), UkCbErrorKind::Invalid);
}

#[test]
fn the_first_repeated_identity_is_the_one_named() {
    let input = csv_with(
        "XUDLUSS,2026-09-18,1,native,daily,\nIUDBEDR,2026-09-18,1,percent,daily,\nIUDBEDR,2026-09-18,2,percent,daily,\nXUDLUSS,2026-09-18,1,native,daily,\n",
    );
    assert_eq!(
        parse(UkCbSourceId::S01, &input).expect_err("重复").to_string(),
        "语义不被接受：重复身份：序列 + 业务期间在样本内出现两次（第 3 条观测）"
    );
}

#[test]
fn csv_refusal_messages() {
    let quoted = csv_with("\"IUDBEDR\",2026-09-18,4.0,percent,daily,\n");
    assert_eq!(
        parse(UkCbSourceId::S01, &quoted).expect_err("引号").to_string(),
        "输入非法：第 4 行含引号：本层 CSV 子集不支持引号转义，拒绝以防误解析"
    );
    let header = "# _synthetic: true\n\nperiod,series\n";
    assert_eq!(
        parse(UkCbSourceId::S01, header).expect_err("表头").to_string(),
        "输入非法：CSV 表头须逐字为 \"series,period,value,unit,frequency,revision\"（第 3 行）"
    );
    assert_eq!(
        parse(UkCbSourceId::S01, "# _synthetic: true\n").expect_err("无表头").to_string(),
        "缺少必需项：CSV 表头"
    );
    let unlabelled = "series,period,value,unit,frequency,revision\n";
    assert_eq!(
        parse(UkCbSourceId::S01, unlabelled).expect_err("无标注").to_string(),
        "语义不被接受：样本缺少 `_synthetic: true` 标注：本层只接受显式标注的合成样本"
    );
    let real = "# _synthetic: false\n# _note: n\nseries,period,value,unit,frequency,revision\n";
    assert_eq!(
        parse(UkCbSourceId::S01, real).expect_err("自称真实").to_string(),
        "语义不被接受：样本声明 `_synthetic: false`：本层只接受显式标注的合成样本"
    );
    let no_note = "# _synthetic: true\n# _note:   \nseries,period,value,unit,frequency,revision\n";
    assert_eq!(
        parse(UkCbSourceId::S01, no_note).expect_err("空说明").to_string(),
        "语义不被接受：样本缺少非空 `_note` 说明：合成样本须自带可直接阅读的说明"
    );
    let mismatch = csv_with("IUDBEDR,2026,4.0,percent,daily,\n");
    assert_eq!(
        parse(UkCbSourceId::S01, &mismatch).expect_err("频率").to_string(),
        "输入非法：日频观测的期间须为日粒度或事件日"
    );
}

#[test]
fn json_refusal_messages() {
    assert_eq!(
        parse(UkCbSourceId::S11, "[true,\"n\",[],1]").expect_err("形态").to_string(),
        "输入非法：JSON 形态非法：结构与离线交换形态不符（未知字段、缺必需字段或类型不符）"
    );
    let boolean = r#"{"_synthetic":true,"_note":"n","observations":[{"series":"A","period":"2026","value":true,"unit":"native","frequency":"annual"}]}"#;
    assert_eq!(
        parse(UkCbSourceId::S11, boolean).expect_err("布尔取值").to_string(),
        "输入非法：JSON 取值只接受数值、null 或字符串标记"
    );
    let error = parse(UkCbSourceId::S11, "{\"_synthetic\": tru }").expect_err("语法");
    assert!(error.to_string().starts_with("输入非法：JSON 形态非法（第 1 行第 "), "{}", error.to_string());
}

#[test]
fn json_logic_runs_on_a_document_of_values() {
    let text = |s: &str| JsonValue::Text(s.to_owned());
    let item = JsonValue::Object(vec![
        ("series".to_owned(), text("ONS.CPI.YOY")),
        ("period".to_owned(), text("2026-08")),
        ("value".to_owned(), JsonValue::Number("2.5".to_owned())),
        ("unit".to_owned(), text(" percent ")),
        ("frequency".to_owned(), text("monthly")),
        ("revision".to_owned(), JsonValue::Null),
    ]);
    let doc = JsonValue::Object(vec![
        ("_synthetic".to_owned(), JsonValue::Bool(true)),
        ("_note".to_owned(), text("合成")),
        ("observations".to_owned(), JsonValue::Array(vec![item])),
    ]);
    let observations = ukx::parse::json_observations(&doc).expect("合法文档");
    assert_eq!(observations.len(), 1);
    assert_eq!(observations[0].value.present(), Some("2.5"));
    assert_eq!(observations[0].unit, UkCbUnit::Percent);
    assert_eq!(observations[0].revision(), None);
    let unlabelled = JsonValue::Array(vec![JsonValue::Null, text("合成"), JsonValue::Array(vec![])]);
    assert_eq!(
        ukx::parse::json_observations(&unlabelled).expect_err("无标注").kind(),
        UkCbErrorKind::SemanticallyRejected
    );
    let wrong = JsonValue::Array(vec![JsonValue::Bool(true), text("合成")]);
    assert_eq!(
        ukx::parse::json_observations(&wrong).expect_err("形态").to_string(),
        "输入非法：JSON 形态非法：结构与离线交换形态不符（未知字段、缺必需字段或类型不符）"
    );
}

#[test]
fn series_text_reads_back_to_the_same_identifier() {
    for text in ["IUDBEDR", "ONS.CPI.YOY", "a_b-c.9"] {
        let id = UkCbSeriesId::parse(text).unwrap();
        assert_eq!(UkCbSeriesId::parse(id.as_str()).unwrap(), id);
        assert_eq!(id.as_str(), text);
    }
}

#[test]
fn refusal_messages_never_echo_the_input() {
    let input = csv_with("IUDBEDR,SECRET,4.0,percent,daily,\n");
    let error = parse(UkCbSourceId::S01, &input).expect_err("期间");
    assert_eq!(error.kind(), UkCbErrorKind::Invalid);
    assert!(!error.to_string().contains("SECRET"), "{}", error.to_string());
    for row in [
        "SECRET!,2026-09-18,4.0,percent,daily,\n",
        "IUDBEDR,event:SECRET,4.0,percent,daily,\n",
        "IUDBEDR,2026-09-18,4.0,SECRET,daily,\n",
        "IUDBEDR,2026-09-18,4.0,percent,SECRET,\n",
    ] {
        let error = parse(UkCbSourceId::S01, &csv_with(row)).expect_err(row);
        assert!(!error.to_string().contains("SECRET"), "{}", error.to_string());
    }
    let twice = csv_with("SECRET,2026-09-18,1,native,daily,\nSECRET,2026-09-18,2,native,daily,\n");
    let error = parse(UkCbSourceId::S01, &twice).expect_err("重复");
    assert!(!error.to_string().contains("SECRET"), "{}", error.to_string());
    assert!(!iadb_code("SECRET").unwrap_err().to_string().contains("SECRET"));
    assert!(!Date::parse("SECRET").unwrap_err().to_string().contains("SECRET"));
}

#[test]
fn parsed_dates_print_back_their_text() {
    for text in ["2026-09-18", "0000-01-01", "0012-12-31", "2024-02-29", "9999-12-31"] {
        assert_eq!(Date::parse(text).unwrap().to_string(), text);
    }
}

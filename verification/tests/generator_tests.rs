use docgen::args::{ArgValue, Args};
use docgen::errors::GenError;
use docgen::generators::{
    date_value, gen_chance, gen_date, gen_hash, gen_now, gen_random_value, gen_randomint,
    timestamp_for,
};

fn args_with(name: &str, value: ArgValue) -> Args {
    let mut args = Args::new();
    args.insert(name.to_string(), value);
    args
}

fn parse_epoch_secs(ts: &str) -> i64 {
    chrono::DateTime::parse_from_str(ts, "%FT%T%z")
        .expect("timestamp should parse back")
        .timestamp()
}

fn assert_timestamp_shape(ts: &str) {
    // Four-digit year, two-digit month/day/hour/minute/second, offset.
    assert_eq!(ts.len(), 24);
    let b: Vec<char> = ts.chars().collect();
    for i in [0, 1, 2, 3, 5, 6, 8, 9, 11, 12, 14, 15, 17, 18, 20, 21, 22, 23] {
        assert!(b[i].is_ascii_digit(), "digit expected at {} in {}", i, ts);
    }
    assert_eq!(b[4], '-');
    assert_eq!(b[7], '-');
    assert_eq!(b[10], 'T');
    assert_eq!(b[13], ':');
    assert_eq!(b[16], ':');
    assert_eq!(b[19], '+');
    assert!(ts.ends_with("+0000"));
}

#[test]
fn timestamp_for_epoch_is_exact() {
    assert_eq!(timestamp_for(0), Ok("1970-01-01T00:00:00+0000".to_string()));
}

#[test]
fn date_value_shifts_whole_days() {
    // Two days after the epoch, shifted back one day.
    assert_eq!(date_value(172800, 1), Ok("1970-01-02T00:00:00+0000".to_string()));
}

#[test]
fn hash_is_sixteen_alphanumerics() {
    for _ in 0..50 {
        let h = gen_hash(&Args::new()).unwrap();
        assert_eq!(h.len(), 16);
        assert!(h.chars().all(|c| c.is_ascii_alphanumeric()));
    }
}

#[test]
fn now_matches_clock_at_second_granularity() {
    let before = chrono::Utc::now().timestamp();
    let ts = gen_now(&Args::new()).unwrap();
    let after = chrono::Utc::now().timestamp();
    assert_timestamp_shape(&ts);
    let got = parse_epoch_secs(&ts);
    assert!(before <= got && got <= after);
}

#[test]
fn date_without_args_is_now() {
    let before = chrono::Utc::now().timestamp();
    let ts = gen_date(&Args::new()).unwrap();
    let after = chrono::Utc::now().timestamp();
    assert_timestamp_shape(&ts);
    let got = parse_epoch_secs(&ts);
    assert!(before <= got && got <= after);
}

#[test]
fn date_with_sub_rnd_days_stays_in_window() {
    let n: i64 = 5;
    for _ in 0..50 {
        let before = chrono::Utc::now().timestamp();
        let ts = gen_date(&args_with("sub_rnd_days", ArgValue::Int(n))).unwrap();
        let after = chrono::Utc::now().timestamp();
        assert_timestamp_shape(&ts);
        let got = parse_epoch_secs(&ts);
        assert!(before - n * 86400 <= got && got <= after);
    }
}

#[test]
fn date_rejects_bad_sub_rnd_days() {
    let r = gen_date(&args_with("sub_rnd_days", ArgValue::Str("soon".to_string())));
    assert_eq!(r, Err(GenError::WrongType));
    let r = gen_date(&args_with("sub_rnd_days", ArgValue::Other));
    assert_eq!(r, Err(GenError::WrongType));
    let r = gen_date(&args_with("sub_rnd_days", ArgValue::Int(0)));
    assert_eq!(r, Err(GenError::EmptyRange));
    let r = gen_date(&args_with("sub_rnd_days", ArgValue::Int(-3)));
    assert_eq!(r, Err(GenError::EmptyRange));
}

#[test]
fn random_value_picks_every_option_eventually() {
    let args = args_with("options", ArgValue::Str("a|b|c".to_string()));
    let mut seen_a = false;
    let mut seen_b = false;
    let mut seen_c = false;
    for _ in 0..300 {
        let v = gen_random_value(&args).unwrap();
        match v.as_str() {
            "a" => seen_a = true,
            "b" => seen_b = true,
            "c" => seen_c = true,
            other => panic!("unexpected value {}", other),
        }
    }
    assert!(seen_a && seen_b && seen_c);
}

#[test]
fn random_value_degrades_to_empty() {
    assert_eq!(gen_random_value(&Args::new()), Ok("".to_string()));
    assert_eq!(gen_random_value(&args_with("options", ArgValue::Int(4))), Ok("".to_string()));
    assert_eq!(gen_random_value(&args_with("options", ArgValue::Other)), Ok("".to_string()));
}

#[test]
fn random_value_single_option_is_constant() {
    let args = args_with("options", ArgValue::Str("only".to_string()));
    for _ in 0..10 {
        assert_eq!(gen_random_value(&args).unwrap(), "only");
    }
}

#[test]
fn chance_yields_both_options_with_fitting_frequency() {
    let mut args = Args::new();
    args.insert("range".to_string(), ArgValue::Int(5));
    args.insert("options".to_string(), ArgValue::Str("x|y".to_string()));
    let total = 500;
    let mut xs = 0;
    for _ in 0..total {
        match gen_chance(&args).unwrap().as_str() {
            "x" => xs += 1,
            "y" => {}
            other => panic!("unexpected value {}", other),
        }
    }
    // Expected fraction is 1/5; the bounds are loose enough to be stable.
    assert!(xs > 0, "the zero draw never appeared");
    assert!(xs < total, "a nonzero draw never appeared");
    assert!(xs >= total / 20 && xs <= total * 2 / 5, "saw {} of {}", xs, total);
}

#[test]
fn chance_with_unit_range_always_first_option() {
    let mut args = Args::new();
    args.insert("range".to_string(), ArgValue::Int(1));
    args.insert("options".to_string(), ArgValue::Str("x|y".to_string()));
    for _ in 0..10 {
        assert_eq!(gen_chance(&args).unwrap(), "x");
    }
}

#[test]
fn chance_rejects_bad_arguments() {
    let missing_range = args_with("options", ArgValue::Str("x|y".to_string()));
    assert_eq!(gen_chance(&missing_range), Err(GenError::MissingArg));

    let mut bad_range = Args::new();
    bad_range.insert("range".to_string(), ArgValue::Str("five".to_string()));
    bad_range.insert("options".to_string(), ArgValue::Str("x|y".to_string()));
    assert_eq!(gen_chance(&bad_range), Err(GenError::WrongType));

    let mut negative = Args::new();
    negative.insert("range".to_string(), ArgValue::Int(-1));
    negative.insert("options".to_string(), ArgValue::Str("x|y".to_string()));
    assert_eq!(gen_chance(&negative), Err(GenError::WrongType));

    let mut zero = Args::new();
    zero.insert("range".to_string(), ArgValue::Int(0));
    zero.insert("options".to_string(), ArgValue::Str("x|y".to_string()));
    assert_eq!(gen_chance(&zero), Err(GenError::EmptyRange));

    let missing_options = args_with("range", ArgValue::Int(5));
    assert_eq!(gen_chance(&missing_options), Err(GenError::MissingArg));

    let mut bad_options = Args::new();
    bad_options.insert("range".to_string(), ArgValue::Int(5));
    bad_options.insert("options".to_string(), ArgValue::Int(2));
    assert_eq!(gen_chance(&bad_options), Err(GenError::WrongType));

    let mut one_option = Args::new();
    one_option.insert("range".to_string(), ArgValue::Int(5));
    one_option.insert("options".to_string(), ArgValue::Str("solo".to_string()));
    assert_eq!(gen_chance(&one_option), Err(GenError::TooFewOptions));
}

#[test]
fn randomint_stays_in_range() {
    let args = args_with("range", ArgValue::Int(10));
    for _ in 0..200 {
        let s = gen_randomint(&args).unwrap();
        let v: i64 = s.parse().expect("an integer string");
        assert!((0..10).contains(&v));
    }
}

#[test]
fn randomint_unit_range_is_zero() {
    let args = args_with("range", ArgValue::Int(1));
    assert_eq!(gen_randomint(&args), Ok("0".to_string()));
}

#[test]
fn randomint_rejects_bad_arguments() {
    assert_eq!(gen_randomint(&Args::new()), Err(GenError::EmptyRange));
    assert_eq!(gen_randomint(&args_with("range", ArgValue::Int(0))), Err(GenError::EmptyRange));
    assert_eq!(gen_randomint(&args_with("range", ArgValue::Int(-4))), Err(GenError::WrongType));
    assert_eq!(
        gen_randomint(&args_with("range", ArgValue::Str("9".to_string()))),
        Err(GenError::WrongType)
    );
    assert_eq!(gen_randomint(&args_with("range", ArgValue::Other)), Err(GenError::WrongType));
}

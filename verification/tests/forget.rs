use soma::cli::forget::{
    exit_code_for, forget_outcome, parse_ts_to_ns, resolve_db_path, run_forget, ts_fits,
    ForgetArgs, ForgetError, Forgotten,
};
use soma::storage::StorageError;

fn args() -> ForgetArgs {
    ForgetArgs { episode: None, project: None, before: None, reason: None }
}

#[test]
fn parse_ns_integer() {
    assert_eq!(parse_ts_to_ns("1700000000000000000").unwrap(), 1_700_000_000_000_000_000);
}

#[test]
fn parse_iso_8601() {
    let ns = parse_ts_to_ns("2024-01-01T00:00:00Z").unwrap();
    assert_eq!(ns, 1_704_067_200_000_000_000);
}

#[test]
fn parse_bad_format_rejected() {
    assert!(parse_ts_to_ns("yesterday").is_err());
    assert!(parse_ts_to_ns("2024-01-01").is_err());
    assert!(parse_ts_to_ns("2024-01-01 00:00:00").is_err());
}

#[test]
fn calendar_days_are_counted() {
    assert_eq!(parse_ts_to_ns("1970-01-01T00:00:00Z").unwrap(), 0);
    assert_eq!(parse_ts_to_ns("1970-01-02T00:00:01Z").unwrap(), 86_401_000_000_000);
    assert_eq!(parse_ts_to_ns("2000-03-01T00:00:00Z").unwrap(), 951_868_800_000_000_000);
    assert_eq!(parse_ts_to_ns("1969-12-31T23:59:59Z").unwrap(), -1_000_000_000);
}

#[test]
fn times_beyond_nanoseconds_are_told_apart() {
    assert!(ts_fits("2024-01-01T00:00:00Z"));
    assert!(!ts_fits("9999-01-01T00:00:00Z"));
    assert!(ts_fits("nonsense"));
}

#[test]
fn errors_have_their_exit_codes() {
    assert_eq!(exit_code_for(&ForgetError::BadInput("x".into())), 1);
    let store = StorageError { message: "locked".into() };
    assert_eq!(exit_code_for(&ForgetError::Storage(store)), 2);
    assert_eq!(exit_code_for(&ForgetError::Path("x".into())), 3);
    assert_eq!(ForgetError::BadInput("x".into()).message(), "bad input: x");
}

#[test]
fn nothing_to_forget_is_bad_input() {
    let refused = run_forget(&args(), Ok(()));
    assert_eq!(exit_code_for(&refused.unwrap_err()), 1);
    let mut one = args();
    one.episode = Some(7);
    assert!(run_forget(&one, Ok(())).is_ok());
    let shut = run_forget(&one, Err(StorageError { message: "locked".into() }));
    assert_eq!(shut.unwrap_err().message(), "storage: locked");
}

#[test]
fn forgotten_episodes_are_counted() {
    assert_eq!(forget_outcome(Ok(Forgotten::One(true))).unwrap().forgotten_count, 1);
    assert_eq!(forget_outcome(Ok(Forgotten::One(false))).unwrap().forgotten_count, 0);
    assert_eq!(forget_outcome(Ok(Forgotten::Many(5))).unwrap().forgotten_count, 5);
}

#[test]
fn forget_finds_the_store() {
    assert_eq!(resolve_db_path(None, None, Some("/home/u")).unwrap(), "/home/u/.soma/soma.db");
    assert_eq!(
        resolve_db_path(None, None, None).unwrap_err().message(),
        "path: home dir not resolvable"
    );
}

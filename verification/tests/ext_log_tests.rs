use tuikk::ext_log::ResultExt;

#[test]
fn log_helpers_return_result_unchanged() {
    let ok: Result<u32, String> = Ok(7);
    let err: Result<u32, String> = Err("boom".to_string());
    assert_eq!(ok.clone().log_err(), Ok(7));
    assert_eq!(ok.clone().log_warn(), Ok(7));
    assert_eq!(ok.clone().log_info(), Ok(7));
    assert_eq!(ok.clone().log_debug(), Ok(7));
    assert_eq!(ok.clone().log_trace(), Ok(7));
    assert_eq!(ok.clone().log_ok(), Ok(7));
    assert_eq!(err.clone().log_err(), Err("boom".to_string()));
    assert_eq!(err.clone().log_warn(), Err("boom".to_string()));
    assert_eq!(err.clone().log_info(), Err("boom".to_string()));
    assert_eq!(err.clone().log_debug(), Err("boom".to_string()));
    assert_eq!(err.clone().log_trace(), Err("boom".to_string()));
    assert_eq!(err.log_ok(), Err("boom".to_string()));
}

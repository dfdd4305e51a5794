use hodlvoice::config::{bind_address, grpc_port, read_config, Config};
use hodlvoice::error::HodlError;

#[test]
fn default_config() {
    let c = Config::new();
    assert_eq!(c.cltv_delta.0, "cltv-delta");
    assert_eq!(c.cltv_delta.1, 40);
}

#[test]
fn empty_file_keeps_default() {
    let mut c = Config::new();
    assert_eq!(read_config(&mut c, ""), Ok(()));
    assert_eq!(c.cltv_delta.1, 40);
}

#[test]
fn reads_cltv_delta() {
    let mut c = Config::new();
    assert_eq!(read_config(&mut c, "network=regtest\ncltv-delta=34\nalias=x\n"), Ok(()));
    assert_eq!(c.cltv_delta.1, 34);
    assert_eq!(c.cltv_delta.0, "cltv-delta");
}

#[test]
fn last_setting_wins() {
    let mut c = Config::new();
    assert_eq!(read_config(&mut c, "cltv-delta=34\ncltv-delta=18"), Ok(()));
    assert_eq!(c.cltv_delta.1, 18);
}

#[test]
fn carriage_returns_are_dropped_before_line_feeds() {
    let mut c = Config::new();
    assert_eq!(read_config(&mut c, "cltv-delta=34\r\nfoo=bar\r\n"), Ok(()));
    assert_eq!(c.cltv_delta.1, 34);
    let mut c = Config::new();
    assert_eq!(read_config(&mut c, "cltv-delta=34\r"), Err(HodlError::Parse));
}

#[test]
fn lines_with_two_equals_signs_are_skipped() {
    let mut c = Config::new();
    assert_eq!(read_config(&mut c, "cltv-delta=34=5\ncltv-delta==7\n=\nno equals"), Ok(()));
    assert_eq!(c.cltv_delta.1, 40);
}

#[test]
fn other_names_are_skipped() {
    let mut c = Config::new();
    assert_eq!(read_config(&mut c, " cltv-delta=34\ncltv-delta =35\nCLTV-DELTA=36\n"), Ok(()));
    assert_eq!(c.cltv_delta.1, 40);
}

#[test]
fn bad_number_fails() {
    for text in ["cltv-delta=abc", "cltv-delta=", "cltv-delta= 34", "cltv-delta=65536", "cltv-delta=-1"] {
        let mut c = Config::new();
        assert_eq!(read_config(&mut c, text), Err(HodlError::Parse), "{}", text);
        assert_eq!(c.cltv_delta.1, 40);
    }
}

#[test]
fn earlier_lines_take_effect_before_a_failure() {
    let mut c = Config::new();
    assert_eq!(read_config(&mut c, "cltv-delta=50\ncltv-delta=x\ncltv-delta=60"), Err(HodlError::Parse));
    assert_eq!(c.cltv_delta.1, 50);
}

#[test]
fn largest_value() {
    let mut c = Config::new();
    assert_eq!(read_config(&mut c, "cltv-delta=+65535"), Ok(()));
    assert_eq!(c.cltv_delta.1, 65_535);
}

#[test]
fn port_option() {
    assert_eq!(grpc_port(Some(-1)), Ok(None));
    assert_eq!(grpc_port(Some(0)), Ok(Some(0)));
    assert_eq!(grpc_port(Some(9736)), Ok(Some(9736)));
    assert_eq!(grpc_port(Some(65_535)), Ok(Some(65_535)));
    assert_eq!(grpc_port(Some(65_536)), Err(HodlError::Parse));
    assert_eq!(grpc_port(Some(-2)), Err(HodlError::Parse));
    assert_eq!(grpc_port(Some(i64::MIN)), Err(HodlError::Parse));
    assert_eq!(grpc_port(None), Err(HodlError::Parse));
}

#[test]
fn bind_address_is_every_interface() {
    assert_eq!(bind_address(9736), "0.0.0.0:9736");
    assert_eq!(bind_address(0), "0.0.0.0:0");
    assert_eq!(bind_address(65_535), "0.0.0.0:65535");
}

//! The reference clock lines of an SDP.

use nvnmos_gst::nvdsudp::ts_refclk::{
    collect_ts_refclk_values, ptp_src_from_sdp, PtpSrcResolution,
};

#[test]
fn ptp_traceable_uses_interface_ip() {
    let sdp = "a=ts-refclk:ptp=IEEE1588-2008:traceable\r\n";
    assert_eq!(ptp_src_from_sdp(sdp), PtpSrcResolution::UseInterfaceIp);
}

#[test]
fn ptp_gmid_uses_interface_ip() {
    let sdp = "a=ts-refclk:ptp=IEEE1588-2008:AC-DE-48-23-45-67-01-9F:42\r\n";
    assert_eq!(ptp_src_from_sdp(sdp), PtpSrcResolution::UseInterfaceIp);
}

#[test]
fn ntp_refclk_does_not_enable_ptp_src() {
    let sdp = "a=ts-refclk:ntp=/traceable/\r\n";
    assert_eq!(ptp_src_from_sdp(sdp), PtpSrcResolution::Unset);
}

#[test]
fn local_refclk_does_not_enable_ptp_src() {
    let sdp = "a=ts-refclk:local\r\n";
    assert_eq!(ptp_src_from_sdp(sdp), PtpSrcResolution::Unset);
}

#[test]
fn localmac_suppresses_ptp_src() {
    let sdp = "a=ts-refclk:localmac=CA-FE-01-CA-FE-02\r\n\
               a=ts-refclk:ptp=IEEE1588-2008:traceable\r\n";
    assert_eq!(ptp_src_from_sdp(sdp), PtpSrcResolution::Unset);
}

#[test]
fn ptp_before_localmac_still_suppresses_ptp_src() {
    let sdp = "a=ts-refclk:ptp=IEEE1588-2008:traceable\r\n\
               a=ts-refclk:localmac=CA-FE-01-CA-FE-02\r\n";
    assert_eq!(ptp_src_from_sdp(sdp), PtpSrcResolution::Unset);
}

#[test]
fn absent_ts_refclk_is_unset() {
    assert_eq!(ptp_src_from_sdp("a=mediaclk:direct=0\r\n"), PtpSrcResolution::Unset);
}

#[test]
fn dual_ptp_lines_still_use_interface_ip() {
    let sdp = "a=ts-refclk:ptp=IEEE1588-2008:traceable\r\n\
               a=ts-refclk:ptp=IEEE1588-2008:AC-DE-48-23-45-67-01-9F:42\r\n";
    assert_eq!(ptp_src_from_sdp(sdp), PtpSrcResolution::UseInterfaceIp);
}

#[test]
fn refclk_values_come_in_line_order() {
    let sdp = "v=0\r\na=ts-refclk:ntp=x\r\nm=audio\r\n  a=ts-refclk: local \r\n";
    assert_eq!(collect_ts_refclk_values(sdp), vec!["ntp=x", "local"]);
}

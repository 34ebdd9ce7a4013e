use pdf_bridge::bridge::{arm, settle_awaited, settle_receipt, Receipt};
use pdf_bridge::completion::classify_completion;
use pdf_bridge::error::ExportError;

#[test]
fn first_delivery_wins() {
    let (mut d, mut a) = arm();
    assert!(d.is_armed());
    assert!(a.poll_outcome().is_none());
    assert!(d.deliver(Ok(vec![1, 2, 3])));
    assert!(!d.is_armed());
    assert!(!d.deliver(Err(ExportError::EmptyPayload)));
    assert_eq!(a.poll_outcome(), Some(Ok(vec![1, 2, 3])));
}

#[test]
fn second_callback_is_silently_dropped() {
    let (mut d, mut a) = arm();
    assert!(d.on_completion(Some("disk full".to_string()), None));
    assert!(!d.on_completion(None, Some(vec![9])));
    assert_eq!(
        a.poll_outcome(),
        Some(Err(ExportError::NativeCallbackError("disk full".to_string())))
    );
}

#[test]
fn dropped_deliverer_closes_channel() {
    let (d, mut a) = arm();
    drop(d);
    assert_eq!(a.poll_outcome(), Some(Err(ExportError::ChannelClosed)));
}

#[test]
fn dropped_deliverer_closes_awaited_channel() {
    let (d, a) = arm();
    let rt = tokio::runtime::Builder::new_current_thread().build().unwrap();
    let rx = a.into_receiver();
    drop(d);
    let got = rt.block_on(rx);
    assert_eq!(settle_awaited(got), Err(ExportError::ChannelClosed));
}

#[test]
fn awaited_outcome_is_the_delivered_one() {
    let (mut d, a) = arm();
    let rt = tokio::runtime::Builder::new_current_thread().build().unwrap();
    let rx = a.into_receiver();
    assert!(d.deliver(Ok(vec![0x25, 0x50, 0x44, 0x46])));
    let got = rt.block_on(rx);
    assert_eq!(settle_awaited(got), Ok(vec![0x25, 0x50, 0x44, 0x46]));
}

#[test]
fn delivery_after_awaiter_dropped_does_not_panic() {
    let (mut d, a) = arm();
    drop(a);
    assert!(d.deliver(Ok(vec![1])));
    assert!(!d.deliver(Ok(vec![2])));
}

#[test]
fn receipts_settle() {
    assert_eq!(settle_receipt(Receipt::NotYet), None);
    assert_eq!(settle_receipt(Receipt::Closed), Some(Err(ExportError::ChannelClosed)));
    assert_eq!(settle_receipt(Receipt::Delivered(Ok(vec![7]))), Some(Ok(vec![7])));
}

#[test]
fn empty_payload_is_no_data() {
    assert_eq!(classify_completion(None, Some(Vec::new())), Err(ExportError::EmptyPayload));
    assert_eq!(classify_completion(None, None), Err(ExportError::EmptyPayload));
    let (mut d, mut a) = arm();
    assert!(d.on_completion(None, Some(Vec::new())));
    let got = a.poll_outcome().unwrap().unwrap_err();
    assert_eq!(got.message(), "PDF generation returned no data");
}

#[test]
fn error_wins_over_data() {
    assert_eq!(
        classify_completion(Some("bad view".to_string()), Some(vec![1])),
        Err(ExportError::NativeCallbackError("bad view".to_string()))
    );
    assert_eq!(classify_completion(None, Some(vec![1, 2])), Ok(vec![1, 2]));
}

#[test]
fn messages() {
    assert_eq!(
        ExportError::UnsupportedPlatform.message(),
        "export not supported on this platform"
    );
    assert_eq!(
        ExportError::NativeRegistrationFailed("no webview".to_string()).message(),
        "no webview"
    );
    assert_eq!(
        ExportError::NativeCallbackError("bad view".to_string()).message(),
        "PDF generation failed: bad view"
    );
    assert_eq!(ExportError::EmptyPayload.message(), "PDF generation returned no data");
    assert_eq!(ExportError::ChannelClosed.message(), "PDF generation channel closed");
    assert_eq!(
        ExportError::PersistenceFailed("permission denied".to_string()).message(),
        "permission denied"
    );
}

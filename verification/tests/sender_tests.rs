use reconnect_t::errors::ReconnectTError;
use reconnect_t::maybe_sender::MaybePSTSender;
use reconnect_t::maybe_sender::OptPSTSender;

#[test]
fn send_fails_fast_while_absent() {
    // P: a send issued while the holder is absent returns
    // SenderNotConnected, and never silently succeeds in that state.
    let mut holder: MaybePSTSender<u32> = MaybePSTSender::default();
    assert!(!holder.is_connected());
    assert!(matches!(
        holder.take_for_send(),
        Err(ReconnectTError::SenderNotConnected)
    ));
    // still absent after the failed attempt
    assert!(matches!(
        holder.take_for_send(),
        Err(ReconnectTError::SenderNotConnected)
    ));
}

#[test]
fn send_reaches_the_installed_half() {
    let mut holder: MaybePSTSender<u32> = MaybePSTSender::default();
    holder.set_sender(7);
    assert!(holder.is_connected());

    let half = holder.take_for_send().unwrap();
    assert_eq!(half, 7);
    // a successful write keeps the half installed
    assert!(holder.finish_send(half, Ok(())).is_ok());
    assert!(holder.is_connected());
}

#[test]
fn failed_write_is_reported_and_half_stays() {
    let mut holder: MaybePSTSender<u32> = MaybePSTSender::default();
    holder.set_sender(9);
    let half = holder.take_for_send().unwrap();
    let outcome = holder.finish_send(
        half,
        Err(tokio_tungstenite::tungstenite::Error::ConnectionClosed),
    );
    assert!(matches!(
        outcome,
        Err(ReconnectTError::TokioTungsteniteError(_))
    ));
    // the write half is not torn down from the send path
    assert!(holder.is_connected());
}

#[test]
fn reset_clears_the_half() {
    let mut holder: MaybePSTSender<u32> = MaybePSTSender::default();
    holder.set_sender(1);
    holder.reset_sender();
    assert!(matches!(
        holder.take_for_send(),
        Err(ReconnectTError::SenderNotConnected)
    ));
}

#[test]
fn slot_take_empties_the_slot() {
    let mut slot: OptPSTSender<u8> = OptPSTSender::Present(5);
    assert_eq!(slot.take().unwrap(), 5);
    assert!(matches!(
        slot.take(),
        Err(ReconnectTError::SenderNotConnected)
    ));
}

#[test]
fn error_descriptions() {
    assert_eq!(
        ReconnectTError::SenderNotConnected.describe(),
        "sender not connected"
    );
    assert_eq!(
        ReconnectTError::HandshakeFailed.describe(),
        "handshake failed"
    );
    assert_eq!(
        ReconnectTError::ReceiveTimeout(5).describe(),
        "receive timeout"
    );
    assert_eq!(
        ReconnectTError::TokioTungsteniteError(
            tokio_tungstenite::tungstenite::Error::ConnectionClosed
        )
        .describe(),
        "tokio_tungstenite error"
    );
}

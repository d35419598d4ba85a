use desktop_notes_display::firmware::{
    chunk_text, connection_start, connection_step, device_start, device_step, download_start,
    download_step, ConnectionAction, ConnectionEvent, ConnectionPhase, DeviceAction,
    DeviceEvent, DevicePhase, DownloadAction, DownloadEvent, DownloadPhase, DOWNLOAD_PORT,
    DOWNLOAD_REQUEST, IO_BUFFER_SIZE,
};

#[test]
fn connection_cycle_when_not_started() {
    let (phase, action) = connection_start();
    assert_eq!(action, ConnectionAction::QueryWifiState);
    let (phase, action) =
        connection_step(phase, ConnectionEvent::WifiState { connected: false }).unwrap();
    assert_eq!(action, ConnectionAction::QueryStarted);
    let (phase, action) =
        connection_step(phase, ConnectionEvent::Started { started: false }).unwrap();
    assert_eq!(action, ConnectionAction::Configure);
    let (phase, action) = connection_step(phase, ConnectionEvent::Configured { ok: true }).unwrap();
    assert_eq!(action, ConnectionAction::Start);
    let (phase, action) = connection_step(phase, ConnectionEvent::StartDone { ok: true }).unwrap();
    assert_eq!(action, ConnectionAction::Connect);
    let (phase, action) =
        connection_step(phase, ConnectionEvent::ConnectResult { ok: true }).unwrap();
    assert_eq!((phase, action), (ConnectionPhase::CheckingState, ConnectionAction::QueryWifiState));
}

#[test]
fn connection_waits_while_connected_then_pauses() {
    let (phase, _) = connection_start();
    let (phase, action) =
        connection_step(phase, ConnectionEvent::WifiState { connected: true }).unwrap();
    assert_eq!(action, ConnectionAction::WaitForDisconnect);
    let (phase, action) = connection_step(phase, ConnectionEvent::Disconnected).unwrap();
    assert_eq!(action, ConnectionAction::Sleep { millis: 5000 });
    let (phase, action) = connection_step(phase, ConnectionEvent::Slept).unwrap();
    assert_eq!(action, ConnectionAction::QueryStarted);
    let (_, action) = connection_step(phase, ConnectionEvent::Started { started: true }).unwrap();
    assert_eq!(action, ConnectionAction::Connect);
}

#[test]
fn failed_connection_pauses_and_retries() {
    let (phase, action) = connection_step(
        ConnectionPhase::Connecting,
        ConnectionEvent::ConnectResult { ok: false },
    )
    .unwrap();
    assert_eq!(action, ConnectionAction::Sleep { millis: 5000 });
    let (phase, action) = connection_step(phase, ConnectionEvent::Slept).unwrap();
    assert_eq!((phase, action), (ConnectionPhase::CheckingState, ConnectionAction::QueryWifiState));
}

#[test]
fn failed_configuration_or_start_stops_the_device() {
    assert_eq!(
        connection_step(ConnectionPhase::Configuring, ConnectionEvent::Configured { ok: false }),
        Some((ConnectionPhase::Failed, ConnectionAction::Panic))
    );
    assert_eq!(
        connection_step(ConnectionPhase::Starting, ConnectionEvent::StartDone { ok: false }),
        Some((ConnectionPhase::Failed, ConnectionAction::Panic))
    );
    assert_eq!(connection_step(ConnectionPhase::Failed, ConnectionEvent::Slept), None);
}

#[test]
fn connection_ignores_unexpected_event() {
    assert_eq!(connection_step(ConnectionPhase::Starting, ConnectionEvent::Slept), None);
}

#[test]
fn connection_connects_again_and_again() {
    // connected, then disconnected, then the connection fails once
    let events = [
        ConnectionEvent::WifiState { connected: true },
        ConnectionEvent::Disconnected,
        ConnectionEvent::Slept,
        ConnectionEvent::Started { started: true },
        ConnectionEvent::ConnectResult { ok: false },
        ConnectionEvent::Slept,
        ConnectionEvent::WifiState { connected: false },
        ConnectionEvent::Started { started: true },
        ConnectionEvent::ConnectResult { ok: true },
    ];
    let (mut phase, _) = connection_start();
    let mut connects = 0;
    for e in events {
        let (next, action) = connection_step(phase, e).unwrap();
        if action == ConnectionAction::Connect {
            connects += 1;
        }
        phase = next;
    }
    assert_eq!(connects, 2);
    assert_eq!(phase, ConnectionPhase::CheckingState);
}

#[test]
fn download_reads_until_short_read() {
    let (phase, action) = download_start();
    assert_eq!(action, DownloadAction::ResetSocket);
    let (phase, action) = download_step(phase, DownloadEvent::Reset).unwrap();
    assert_eq!(action, DownloadAction::SetTimeout { secs: 10 });
    let (phase, action) = download_step(phase, DownloadEvent::TimeoutSet).unwrap();
    assert_eq!(action, DownloadAction::Connect);
    let (phase, action) = download_step(phase, DownloadEvent::Connected { ok: true }).unwrap();
    assert_eq!(action, DownloadAction::SendRequest);
    let (phase, action) = download_step(phase, DownloadEvent::Sent { ok: true }).unwrap();
    assert_eq!(action, DownloadAction::Read);
    let (phase, action) = download_step(phase, DownloadEvent::Read { amount: 1024 }).unwrap();
    assert_eq!((phase, action), (DownloadPhase::Printing { amount: 1024 }, DownloadAction::Print));
    let (phase, action) = download_step(phase, DownloadEvent::Printed { text_ok: true }).unwrap();
    assert_eq!((phase, action), (DownloadPhase::Reading, DownloadAction::Read));
    let (phase, action) = download_step(phase, DownloadEvent::Read { amount: 1023 }).unwrap();
    assert_eq!(action, DownloadAction::Print);
    let (phase, action) = download_step(phase, DownloadEvent::Printed { text_ok: true }).unwrap();
    assert_eq!((phase, action), (DownloadPhase::Done, DownloadAction::Finish));
}

#[test]
fn download_stops_when_connect_fails() {
    let (phase, action) =
        download_step(DownloadPhase::Connecting, DownloadEvent::Connected { ok: false }).unwrap();
    assert_eq!((phase, action), (DownloadPhase::Done, DownloadAction::Finish));
    assert_eq!(download_step(DownloadPhase::Done, DownloadEvent::Sent { ok: true }), None);
}

#[test]
fn download_failures_stop_the_device() {
    let failed = Some((DownloadPhase::Failed, DownloadAction::Panic));
    assert_eq!(download_step(DownloadPhase::Sending, DownloadEvent::Sent { ok: false }), failed);
    assert_eq!(download_step(DownloadPhase::Reading, DownloadEvent::ReadFailed), failed);
    assert_eq!(
        download_step(DownloadPhase::Printing { amount: 3 }, DownloadEvent::Printed { text_ok: false }),
        failed
    );
}

#[test]
fn device_waits_for_network_then_downloads_every_ten_seconds() {
    let (phase, action) = device_start();
    assert_eq!(action, DeviceAction::CheckLink);
    let (phase, action) = device_step(phase, DeviceEvent::LinkState { up: false }).unwrap();
    assert_eq!(action, DeviceAction::Sleep { millis: 500 });
    let (phase, action) = device_step(phase, DeviceEvent::Slept).unwrap();
    assert_eq!(action, DeviceAction::CheckLink);
    let (phase, action) = device_step(phase, DeviceEvent::LinkState { up: true }).unwrap();
    assert_eq!(action, DeviceAction::CheckAddress);
    let (phase, action) =
        device_step(phase, DeviceEvent::AddressState { assigned: false }).unwrap();
    assert_eq!(action, DeviceAction::Sleep { millis: 500 });
    let (phase, action) = device_step(phase, DeviceEvent::Slept).unwrap();
    assert_eq!(action, DeviceAction::CheckAddress);
    let (phase, action) = device_step(phase, DeviceEvent::AddressState { assigned: true }).unwrap();
    assert_eq!((phase, action), (DevicePhase::Downloading, DeviceAction::Download));
    let (phase, action) = device_step(phase, DeviceEvent::DownloadDone).unwrap();
    assert_eq!((phase, action), (DevicePhase::Resting, DeviceAction::Sleep { millis: 10000 }));
    let (phase, action) = device_step(phase, DeviceEvent::Slept).unwrap();
    assert_eq!((phase, action), (DevicePhase::Downloading, DeviceAction::Download));
    assert_eq!(device_step(phase, DeviceEvent::LinkState { up: true }), None);
}

#[test]
fn request_and_port() {
    assert_eq!(DOWNLOAD_PORT, 7272);
    assert_eq!(IO_BUFFER_SIZE, 1024);
    assert_eq!(DOWNLOAD_REQUEST.as_bytes(), b"GET / HTTP/1.0\r\nHost: `IPADDR`:7272\r\n\r\n");
}

#[test]
fn chunk_text_decodes_whole_buffer() {
    let mut buf = [0u8; 1024];
    buf[..5].copy_from_slice(b"hello");
    let t = chunk_text(&buf).unwrap();
    assert_eq!(t.len(), 1024);
    assert!(t.starts_with("hello\0"));
    buf[7] = 0xff;
    assert_eq!(chunk_text(&buf), None);
    buf[7] = 0xc3;
    buf[8] = 0xa9;
    assert!(chunk_text(&buf).unwrap().contains('\u{e9}'));
}

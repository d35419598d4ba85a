//! The decisions of the device: the task that keeps the Wi-Fi station
//! connected, the download of the page from the note server, and the main
//! cycle that waits for the network and then downloads again and again. Each
//! is a state machine: given its phase and what just happened, it says which
//! phase comes next and what to do; the caller does it and reports back.
//! Where a call fails that the device cannot do without, the action is
//! `Panic`: the device stops.
use vstd::prelude::*;
use vstd::string::StringExecFns;
use vstd::utf8::{decode_utf8, valid_utf8};

verus! {

/// Bytes of the socket's receive and transmit buffers.
pub const X_BUFFER_SIZE: usize = 16384;

/// Bytes read from the socket at a time.
pub const IO_BUFFER_SIZE: usize = 1024;

/// Port of the note server.
pub const DOWNLOAD_PORT: u16 = 7272;

/// The request the device sends to the note server.
pub const DOWNLOAD_REQUEST: &'static str = "GET / HTTP/1.0\r\nHost: `IPADDR`:7272\r\n\r\n";

/// Seconds without traffic after which the socket gives up.
pub const DOWNLOAD_TIMEOUT_SECS: u64 = 10;

/// Milliseconds between two downloads.
pub const DOWNLOAD_INTERVAL_MILLIS: u64 = 10000;

/// Milliseconds between two looks at the network stack while it comes up.
pub const LINK_POLL_MILLIS: u64 = 500;

/// Milliseconds the connection task pauses after a disconnect or a failed
/// connection.
pub const RECONNECT_PAUSE_MILLIS: u64 = 5000;

/// Where the Wi-Fi connection task stands.
#[derive(PartialEq, Eq, Structural, Clone, Copy, Debug)]
pub enum ConnectionPhase {
    /// It has asked for the station's state.
    CheckingState,
    /// The station is connected: it waits for the station to disconnect.
    WaitingForDisconnect,
    /// It pauses after a disconnect.
    PausingAfterDisconnect,
    /// It has asked whether the controller is started.
    CheckingStarted,
    /// It sets the client configuration (network name and password).
    Configuring,
    /// It starts the controller.
    Starting,
    /// It connects to the access point.
    Connecting,
    /// It pauses after a failed connection.
    PausingAfterFailure,
    /// Configuring or starting the controller failed: the device stops.
    Failed,
}

/// What the connection task learns.
#[derive(PartialEq, Eq, Structural, Clone, Copy, Debug)]
pub enum ConnectionEvent {
    /// The station's state: connected or not.
    WifiState { connected: bool },
    /// The station has disconnected.
    Disconnected,
    /// A pause is over.
    Slept,
    /// Whether the controller reports that it is started.
    Started { started: bool },
    /// Whether the client configuration could be built and set.
    Configured { ok: bool },
    /// Whether the controller started.
    StartDone { ok: bool },
    /// The outcome of a connection attempt.
    ConnectResult { ok: bool },
}

/// What the connection task asks its caller to do.
#[derive(PartialEq, Eq, Structural, Clone, Copy, Debug)]
pub enum ConnectionAction {
    /// Ask for the station's state.
    QueryWifiState,
    /// Wait until the station disconnects.
    WaitForDisconnect,
    /// Pause for this many milliseconds.
    Sleep { millis: u64 },
    /// Ask whether the controller is started.
    QueryStarted,
    /// Build and set the client configuration.
    Configure,
    /// Start the controller.
    Start,
    /// Connect to the access point.
    Connect,
    /// Stop the device.
    Panic,
}

/// The connection task's next phase and action after `event` in `phase`;
/// `None` where `event` is not what `phase` waits for.
pub open spec fn connection_next(phase: ConnectionPhase, event: ConnectionEvent) -> Option<
    (ConnectionPhase, ConnectionAction),
> {
    match (phase, event) {
        (ConnectionPhase::CheckingState, ConnectionEvent::WifiState { connected }) => if connected {
            Some((ConnectionPhase::WaitingForDisconnect, ConnectionAction::WaitForDisconnect))
        } else {
            Some((ConnectionPhase::CheckingStarted, ConnectionAction::QueryStarted))
        },
        (ConnectionPhase::WaitingForDisconnect, ConnectionEvent::Disconnected) => Some(
            (
                ConnectionPhase::PausingAfterDisconnect,
                ConnectionAction::Sleep { millis: RECONNECT_PAUSE_MILLIS },
            ),
        ),
        (ConnectionPhase::PausingAfterDisconnect, ConnectionEvent::Slept) => Some(
            (ConnectionPhase::CheckingStarted, ConnectionAction::QueryStarted),
        ),
        (ConnectionPhase::CheckingStarted, ConnectionEvent::Started { started }) => if started {
            Some((ConnectionPhase::Connecting, ConnectionAction::Connect))
        } else {
            Some((ConnectionPhase::Configuring, ConnectionAction::Configure))
        },
        (ConnectionPhase::Configuring, ConnectionEvent::Configured { ok }) => if ok {
            Some((ConnectionPhase::Starting, ConnectionAction::Start))
        } else {
            Some((ConnectionPhase::Failed, ConnectionAction::Panic))
        },
        (ConnectionPhase::Starting, ConnectionEvent::StartDone { ok }) => if ok {
            Some((ConnectionPhase::Connecting, ConnectionAction::Connect))
        } else {
            Some((ConnectionPhase::Failed, ConnectionAction::Panic))
        },
        (ConnectionPhase::Connecting, ConnectionEvent::ConnectResult { ok }) => if ok {
            Some((ConnectionPhase::CheckingState, ConnectionAction::QueryWifiState))
        } else {
            Some(
                (
                    ConnectionPhase::PausingAfterFailure,
                    ConnectionAction::Sleep { millis: RECONNECT_PAUSE_MILLIS },
                ),
            )
        },
        (ConnectionPhase::PausingAfterFailure, ConnectionEvent::Slept) => Some(
            (ConnectionPhase::CheckingState, ConnectionAction::QueryWifiState),
        ),
        _ => None,
    }
}

/// The connection task's first phase and action: ask for the station's
/// state.
pub fn connection_start() -> (r: (ConnectionPhase, ConnectionAction))
    ensures
        r == (ConnectionPhase::CheckingState, ConnectionAction::QueryWifiState),
{
    (ConnectionPhase::CheckingState, ConnectionAction::QueryWifiState)
}

/// The connection task's next phase and action (see `connection_next`).
pub fn connection_step(phase: ConnectionPhase, event: ConnectionEvent) -> (r: Option<
    (ConnectionPhase, ConnectionAction),
>)
    ensures
        r == connection_next(phase, event),
{
    match (phase, event) {
        (ConnectionPhase::CheckingState, ConnectionEvent::WifiState { connected }) => if connected {
            Some((ConnectionPhase::WaitingForDisconnect, ConnectionAction::WaitForDisconnect))
        } else {
            Some((ConnectionPhase::CheckingStarted, ConnectionAction::QueryStarted))
        },
        (ConnectionPhase::WaitingForDisconnect, ConnectionEvent::Disconnected) => Some(
            (
                ConnectionPhase::PausingAfterDisconnect,
                ConnectionAction::Sleep { millis: RECONNECT_PAUSE_MILLIS },
            ),
        ),
        (ConnectionPhase::PausingAfterDisconnect, ConnectionEvent::Slept) => Some(
            (ConnectionPhase::CheckingStarted, ConnectionAction::QueryStarted),
        ),
        (ConnectionPhase::CheckingStarted, ConnectionEvent::Started { started }) => if started {
            Some((ConnectionPhase::Connecting, ConnectionAction::Connect))
        } else {
            Some((ConnectionPhase::Configuring, ConnectionAction::Configure))
        },
        (ConnectionPhase::Configuring, ConnectionEvent::Configured { ok }) => if ok {
            Some((ConnectionPhase::Starting, ConnectionAction::Start))
        } else {
            Some((ConnectionPhase::Failed, ConnectionAction::Panic))
        },
        (ConnectionPhase::Starting, ConnectionEvent::StartDone { ok }) => if ok {
            Some((ConnectionPhase::Connecting, ConnectionAction::Connect))
        } else {
            Some((ConnectionPhase::Failed, ConnectionAction::Panic))
        },
        (ConnectionPhase::Connecting, ConnectionEvent::ConnectResult { ok }) => if ok {
            Some((ConnectionPhase::CheckingState, ConnectionAction::QueryWifiState))
        } else {
            Some(
                (
                    ConnectionPhase::PausingAfterFailure,
                    ConnectionAction::Sleep { millis: RECONNECT_PAUSE_MILLIS },
                ),
            )
        },
        (ConnectionPhase::PausingAfterFailure, ConnectionEvent::Slept) => Some(
            (ConnectionPhase::CheckingState, ConnectionAction::QueryWifiState),
        ),
        _ => None,
    }
}

/// At most how many more steps the connection task takes before it asks to
/// connect again.
pub open spec fn steps_to_connect(phase: ConnectionPhase) -> nat {
    match phase {
        ConnectionPhase::Starting => 1,
        ConnectionPhase::Configuring => 2,
        ConnectionPhase::CheckingStarted => 3,
        ConnectionPhase::PausingAfterDisconnect => 4,
        ConnectionPhase::WaitingForDisconnect => 5,
        ConnectionPhase::CheckingState => 6,
        ConnectionPhase::PausingAfterFailure => 7,
        ConnectionPhase::Connecting => 8,
        ConnectionPhase::Failed => 0,
    }
}

/// The connection task never ends unless configuring or starting the
/// controller fails: every phase but `Failed` waits for some event, only
/// such a failure leads to `Panic`, and every other step either asks to
/// connect or comes closer to doing so, so that it asks to connect at least
/// once in every 8 steps, again and again.
pub proof fn lemma_connection_reconnects(phase: ConnectionPhase, event: ConnectionEvent)
    ensures
        phase != ConnectionPhase::Failed ==> exists|e: ConnectionEvent|
            (#[trigger] connection_next(phase, e)) is Some,
        steps_to_connect(phase) <= 8,
        connection_next(phase, event) matches Some((next, action)) ==> {
            &&& (action == ConnectionAction::Panic) == (next == ConnectionPhase::Failed)
            &&& action == ConnectionAction::Panic ==> (event == ConnectionEvent::Configured {
                ok: false,
            } || event == ConnectionEvent::StartDone { ok: false })
            &&& (action == ConnectionAction::Connect) == (next == ConnectionPhase::Connecting)
            &&& action != ConnectionAction::Panic ==> (action == ConnectionAction::Connect
                || steps_to_connect(next) < steps_to_connect(phase))
        },
{
    match phase {
        ConnectionPhase::CheckingState => {
            assert(connection_next(phase, ConnectionEvent::WifiState { connected: true }) is Some);
        },
        ConnectionPhase::WaitingForDisconnect => {
            assert(connection_next(phase, ConnectionEvent::Disconnected) is Some);
        },
        ConnectionPhase::PausingAfterDisconnect => {
            assert(connection_next(phase, ConnectionEvent::Slept) is Some);
        },
        ConnectionPhase::CheckingStarted => {
            assert(connection_next(phase, ConnectionEvent::Started { started: true }) is Some);
        },
        ConnectionPhase::Configuring => {
            assert(connection_next(phase, ConnectionEvent::Configured { ok: true }) is Some);
        },
        ConnectionPhase::Starting => {
            assert(connection_next(phase, ConnectionEvent::StartDone { ok: true }) is Some);
        },
        ConnectionPhase::Connecting => {
            assert(connection_next(phase, ConnectionEvent::ConnectResult { ok: true }) is Some);
        },
        ConnectionPhase::PausingAfterFailure => {
            assert(connection_next(phase, ConnectionEvent::Slept) is Some);
        },
        ConnectionPhase::Failed => {},
    }
}

/// Where one download of the page stands.
#[derive(PartialEq, Eq, Structural, Clone, Copy, Debug)]
pub enum DownloadPhase {
    /// The socket is being reset.
    Resetting,
    /// The socket's timeout is being set.
    SettingTimeout,
    /// The socket connects to the note server.
    Connecting,
    /// The request is being sent.
    Sending,
    /// The answer is being read.
    Reading,
    /// A read buffer is being printed; the read gave `amount` bytes.
    Printing { amount: usize },
    /// The download is over.
    Done,
    /// Sending, reading or printing failed: the device stops.
    Failed,
}

/// What the download learns.
#[derive(PartialEq, Eq, Structural, Clone, Copy, Debug)]
pub enum DownloadEvent {
    /// The socket is reset.
    Reset,
    /// The socket's timeout is set.
    TimeoutSet,
    /// The outcome of the connection to the note server.
    Connected { ok: bool },
    /// Whether the request was sent.
    Sent { ok: bool },
    /// A read of the socket has given this many bytes.
    Read { amount: usize },
    /// A read of the socket failed.
    ReadFailed,
    /// Whether the whole read buffer was text that could be printed (see
    /// `chunk_text`).
    Printed { text_ok: bool },
}

/// What the download asks its caller to do.
#[derive(PartialEq, Eq, Structural, Clone, Copy, Debug)]
pub enum DownloadAction {
    /// Reset the socket.
    ResetSocket,
    /// Set the socket's timeout to this many seconds.
    SetTimeout { secs: u64 },
    /// Connect the socket to the note server at `DOWNLOAD_PORT`.
    Connect,
    /// Send `DOWNLOAD_REQUEST`.
    SendRequest,
    /// Read up to `IO_BUFFER_SIZE` bytes of the answer into the buffer.
    Read,
    /// Print the whole read buffer as text.
    Print,
    /// Stop: the download is over.
    Finish,
    /// Stop the device.
    Panic,
}

/// The download's next phase and action after `event` in `phase`; `None`
/// where `event` is not what `phase` waits for. A failed connection ends the
/// download; a failed send or read, or a buffer that is no text, stops the
/// device; the answer is read, and each buffer printed, until a read gives
/// less than a full buffer.
pub open spec fn download_next(phase: DownloadPhase, event: DownloadEvent) -> Option<
    (DownloadPhase, DownloadAction),
> {
    match (phase, event) {
        (DownloadPhase::Resetting, DownloadEvent::Reset) => Some(
            (
                DownloadPhase::SettingTimeout,
                DownloadAction::SetTimeout { secs: DOWNLOAD_TIMEOUT_SECS },
            ),
        ),
        (DownloadPhase::SettingTimeout, DownloadEvent::TimeoutSet) => Some(
            (DownloadPhase::Connecting, DownloadAction::Connect),
        ),
        (DownloadPhase::Connecting, DownloadEvent::Connected { ok }) => if ok {
            Some((DownloadPhase::Sending, DownloadAction::SendRequest))
        } else {
            Some((DownloadPhase::Done, DownloadAction::Finish))
        },
        (DownloadPhase::Sending, DownloadEvent::Sent { ok }) => if ok {
            Some((DownloadPhase::Reading, DownloadAction::Read))
        } else {
            Some((DownloadPhase::Failed, DownloadAction::Panic))
        },
        (DownloadPhase::Reading, DownloadEvent::Read { amount }) => Some(
            (DownloadPhase::Printing { amount }, DownloadAction::Print),
        ),
        (DownloadPhase::Reading, DownloadEvent::ReadFailed) => Some(
            (DownloadPhase::Failed, DownloadAction::Panic),
        ),
        (DownloadPhase::Printing { amount }, DownloadEvent::Printed { text_ok }) => if !text_ok {
            Some((DownloadPhase::Failed, DownloadAction::Panic))
        } else if amount < IO_BUFFER_SIZE {
            Some((DownloadPhase::Done, DownloadAction::Finish))
        } else {
            Some((DownloadPhase::Reading, DownloadAction::Read))
        },
        _ => None,
    }
}

/// The download's first phase and action: reset the socket.
pub fn download_start() -> (r: (DownloadPhase, DownloadAction))
    ensures
        r == (DownloadPhase::Resetting, DownloadAction::ResetSocket),
{
    (DownloadPhase::Resetting, DownloadAction::ResetSocket)
}

/// The download's next phase and action (see `download_next`).
pub fn download_step(phase: DownloadPhase, event: DownloadEvent) -> (r: Option<
    (DownloadPhase, DownloadAction),
>)
    ensures
        r == download_next(phase, event),
{
    match (phase, event) {
        (DownloadPhase::Resetting, DownloadEvent::Reset) => Some(
            (
                DownloadPhase::SettingTimeout,
                DownloadAction::SetTimeout { secs: DOWNLOAD_TIMEOUT_SECS },
            ),
        ),
        (DownloadPhase::SettingTimeout, DownloadEvent::TimeoutSet) => Some(
            (DownloadPhase::Connecting, DownloadAction::Connect),
        ),
        (DownloadPhase::Connecting, DownloadEvent::Connected { ok }) => if ok {
            Some((DownloadPhase::Sending, DownloadAction::SendRequest))
        } else {
            Some((DownloadPhase::Done, DownloadAction::Finish))
        },
        (DownloadPhase::Sending, DownloadEvent::Sent { ok }) => if ok {
            Some((DownloadPhase::Reading, DownloadAction::Read))
        } else {
            Some((DownloadPhase::Failed, DownloadAction::Panic))
        },
        (DownloadPhase::Reading, DownloadEvent::Read { amount }) => Some(
            (DownloadPhase::Printing { amount }, DownloadAction::Print),
        ),
        (DownloadPhase::Reading, DownloadEvent::ReadFailed) => Some(
            (DownloadPhase::Failed, DownloadAction::Panic),
        ),
        (DownloadPhase::Printing { amount }, DownloadEvent::Printed { text_ok }) => if !text_ok {
            Some((DownloadPhase::Failed, DownloadAction::Panic))
        } else if amount < IO_BUFFER_SIZE {
            Some((DownloadPhase::Done, DownloadAction::Finish))
        } else {
            Some((DownloadPhase::Reading, DownloadAction::Read))
        },
        _ => None,
    }
}

/// Where the device's main cycle stands.
#[derive(PartialEq, Eq, Structural, Clone, Copy, Debug)]
pub enum DevicePhase {
    /// It has asked whether the network link is up.
    WaitingForLink,
    /// The link was down: it pauses before asking again.
    PausingForLink,
    /// It has asked whether the network gave it an address.
    WaitingForAddress,
    /// There was no address yet: it pauses before asking again.
    PausingForAddress,
    /// It downloads the page.
    Downloading,
    /// It rests between two downloads.
    Resting,
}

/// What the device's main cycle learns.
#[derive(PartialEq, Eq, Structural, Clone, Copy, Debug)]
pub enum DeviceEvent {
    /// Whether the network link is up.
    LinkState { up: bool },
    /// Whether the network has given the device an address.
    AddressState { assigned: bool },
    /// A download is over.
    DownloadDone,
    /// A pause is over.
    Slept,
}

/// What the device's main cycle asks its caller to do.
#[derive(PartialEq, Eq, Structural, Clone, Copy, Debug)]
pub enum DeviceAction {
    /// Ask whether the network link is up.
    CheckLink,
    /// Ask whether the network has given an address (and print it if so).
    CheckAddress,
    /// Pause for this many milliseconds.
    Sleep { millis: u64 },
    /// Download the page (see `download_next`).
    Download,
}

/// The main cycle's next phase and action after `event` in `phase`; `None`
/// where `event` is not what `phase` waits for. It waits for the link, then
/// for an address, looking every `LINK_POLL_MILLIS`; then it downloads, and
/// rests `DOWNLOAD_INTERVAL_MILLIS` after each download.
pub open spec fn device_next(phase: DevicePhase, event: DeviceEvent) -> Option<
    (DevicePhase, DeviceAction),
> {
    match (phase, event) {
        (DevicePhase::WaitingForLink, DeviceEvent::LinkState { up }) => if up {
            Some((DevicePhase::WaitingForAddress, DeviceAction::CheckAddress))
        } else {
            Some((DevicePhase::PausingForLink, DeviceAction::Sleep { millis: LINK_POLL_MILLIS }))
        },
        (DevicePhase::PausingForLink, DeviceEvent::Slept) => Some(
            (DevicePhase::WaitingForLink, DeviceAction::CheckLink),
        ),
        (DevicePhase::WaitingForAddress, DeviceEvent::AddressState { assigned }) => if assigned {
            Some((DevicePhase::Downloading, DeviceAction::Download))
        } else {
            Some(
                (DevicePhase::PausingForAddress, DeviceAction::Sleep { millis: LINK_POLL_MILLIS }),
            )
        },
        (DevicePhase::PausingForAddress, DeviceEvent::Slept) => Some(
            (DevicePhase::WaitingForAddress, DeviceAction::CheckAddress),
        ),
        (DevicePhase::Downloading, DeviceEvent::DownloadDone) => Some(
            (DevicePhase::Resting, DeviceAction::Sleep { millis: DOWNLOAD_INTERVAL_MILLIS }),
        ),
        (DevicePhase::Resting, DeviceEvent::Slept) => Some(
            (DevicePhase::Downloading, DeviceAction::Download),
        ),
        _ => None,
    }
}

/// The main cycle's first phase and action: ask whether the link is up.
pub fn device_start() -> (r: (DevicePhase, DeviceAction))
    ensures
        r == (DevicePhase::WaitingForLink, DeviceAction::CheckLink),
{
    (DevicePhase::WaitingForLink, DeviceAction::CheckLink)
}

/// The main cycle's next phase and action (see `device_next`).
pub fn device_step(phase: DevicePhase, event: DeviceEvent) -> (r: Option<
    (DevicePhase, DeviceAction),
>)
    ensures
        r == device_next(phase, event),
{
    match (phase, event) {
        (DevicePhase::WaitingForLink, DeviceEvent::LinkState { up }) => if up {
            Some((DevicePhase::WaitingForAddress, DeviceAction::CheckAddress))
        } else {
            Some((DevicePhase::PausingForLink, DeviceAction::Sleep { millis: LINK_POLL_MILLIS }))
        },
        (DevicePhase::PausingForLink, DeviceEvent::Slept) => Some(
            (DevicePhase::WaitingForLink, DeviceAction::CheckLink),
        ),
        (DevicePhase::WaitingForAddress, DeviceEvent::AddressState { assigned }) => if assigned {
            Some((DevicePhase::Downloading, DeviceAction::Download))
        } else {
            Some(
                (DevicePhase::PausingForAddress, DeviceAction::Sleep { millis: LINK_POLL_MILLIS }),
            )
        },
        (DevicePhase::PausingForAddress, DeviceEvent::Slept) => Some(
            (DevicePhase::WaitingForAddress, DeviceAction::CheckAddress),
        ),
        (DevicePhase::Downloading, DeviceEvent::DownloadDone) => Some(
            (DevicePhase::Resting, DeviceAction::Sleep { millis: DOWNLOAD_INTERVAL_MILLIS }),
        ),
        (DevicePhase::Resting, DeviceEvent::Slept) => Some(
            (DevicePhase::Downloading, DeviceAction::Download),
        ),
        _ => None,
    }
}

/// Once the device has downloaded, it never waits for the network again: it
/// rests and downloads in turn, for ever.
pub proof fn lemma_device_keeps_downloading(phase: DevicePhase, event: DeviceEvent)
    requires
        phase == DevicePhase::Downloading || phase == DevicePhase::Resting,
    ensures
        device_next(phase, event) matches Some((next, action)) ==> (next
            == DevicePhase::Downloading || next == DevicePhase::Resting),
        phase == DevicePhase::Downloading ==> device_next(phase, DeviceEvent::DownloadDone)
            == Some(
            (DevicePhase::Resting, DeviceAction::Sleep { millis: DOWNLOAD_INTERVAL_MILLIS }),
        ),
        phase == DevicePhase::Resting ==> device_next(phase, DeviceEvent::Slept) == Some(
            (DevicePhase::Downloading, DeviceAction::Download),
        ),
{
}

/// `std::str::from_utf8`: the text that `bytes` encode, where they are valid
/// UTF-8. Claimed: it succeeds exactly on valid UTF-8 and then decodes it.
#[verifier::external_body]
fn str_from_utf8(bytes: &[u8]) -> (r: Option<&str>)
    ensures
        r is Some <==> valid_utf8(bytes@),
        r matches Some(s) ==> s@ == decode_utf8(bytes@),
{
    std::str::from_utf8(bytes).ok()
}

/// The text of a whole read buffer, as it is printed: `None` where the
/// buffer is not valid UTF-8, where the device cannot print it and stops
/// (`Printed { text_ok: false }` in `download_next`).
pub fn chunk_text(buf: &[u8; 1024]) -> (r: Option<String>)
    ensures
        r is Some <==> valid_utf8(buf@),
        r matches Some(t) ==> t@ == decode_utf8(buf@),
{
    match str_from_utf8(buf.as_slice()) {
        Some(s) => Some(String::from_str(s)),
        None => None,
    }
}

} // verus!

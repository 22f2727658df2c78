//! Gated streaming session: one WebSocket connection's lifecycle as a
//! state machine. Every method takes the session from one state to the next
//! and hands back what the transport has to do; nothing here waits or sends.

use base64::Engine;
use vstd::prelude::*;
use vstd::string::*;

use crate::text::str_eq;

verus! {

/// Seconds the commit waits for the server's acknowledgement.
pub const COMMIT_TIMEOUT_SECS: u64 = 3;

/// Seconds the teardown waits for the reader task to leave by itself.
pub const READER_EXIT_TIMEOUT_SECS: u64 = 2;

/// Seconds between two keep-alive pings.
pub const KEEPALIVE_INTERVAL_SECS: u64 = 10;

/// Private close code that tells the server to reset its decode context.
pub const CONTEXT_RESET_CLOSE_CODE: u16 = 4001;

/// The audio formats the realtime endpoint accepts.
#[derive(Clone, Copy, PartialEq, Eq, Debug, Structural)]
pub enum AudioFormat {
    Pcm8000,
    Pcm16000,
    Pcm22050,
    Pcm24000,
    Pcm44100,
    Pcm48000,
}

impl AudioFormat {
    /// The format for a sample rate; a rate outside the table maps to 16 kHz.
    pub open spec fn for_rate(rate: u32) -> AudioFormat {
        if rate == 8000 {
            AudioFormat::Pcm8000
        } else if rate == 22050 {
            AudioFormat::Pcm22050
        } else if rate == 24000 {
            AudioFormat::Pcm24000
        } else if rate == 44100 {
            AudioFormat::Pcm44100
        } else if rate == 48000 {
            AudioFormat::Pcm48000
        } else {
            AudioFormat::Pcm16000
        }
    }

    /// Whether the table holds the rate itself, so that no fallback applies.
    pub open spec fn recognizes(rate: u32) -> bool {
        rate == 8000 || rate == 16000 || rate == 22050 || rate == 24000 || rate == 44100 || rate
            == 48000
    }

    /// The value of the `audio_format` query parameter.
    pub open spec fn tag(self) -> Seq<char> {
        match self {
            AudioFormat::Pcm8000 => "pcm_8000"@,
            AudioFormat::Pcm16000 => "pcm_16000"@,
            AudioFormat::Pcm22050 => "pcm_22050"@,
            AudioFormat::Pcm24000 => "pcm_24000"@,
            AudioFormat::Pcm44100 => "pcm_44100"@,
            AudioFormat::Pcm48000 => "pcm_48000"@,
        }
    }

    /// The rate that the format names.
    pub open spec fn rate(self) -> u32 {
        match self {
            AudioFormat::Pcm8000 => 8000,
            AudioFormat::Pcm16000 => 16000,
            AudioFormat::Pcm22050 => 22050,
            AudioFormat::Pcm24000 => 24000,
            AudioFormat::Pcm44100 => 44100,
            AudioFormat::Pcm48000 => 48000,
        }
    }

    pub fn from_sample_rate(rate: u32) -> (format: AudioFormat)
        ensures
            format == Self::for_rate(rate),
            Self::recognizes(rate) <==> format.rate() == rate,
    {
        match rate {
            8000 => AudioFormat::Pcm8000,
            16000 => AudioFormat::Pcm16000,
            22050 => AudioFormat::Pcm22050,
            24000 => AudioFormat::Pcm24000,
            44100 => AudioFormat::Pcm44100,
            48000 => AudioFormat::Pcm48000,
            _ => AudioFormat::Pcm16000,
        }
    }

    pub fn is_recognized(rate: u32) -> (known: bool)
        ensures
            known == Self::recognizes(rate),
    {
        rate == 8000 || rate == 16000 || rate == 22050 || rate == 24000 || rate == 44100 || rate
            == 48000
    }

    pub fn as_str(self) -> (tag: &'static str)
        ensures
            tag@ == self.tag(),
    {
        match self {
            AudioFormat::Pcm8000 => "pcm_8000",
            AudioFormat::Pcm16000 => "pcm_16000",
            AudioFormat::Pcm22050 => "pcm_22050",
            AudioFormat::Pcm24000 => "pcm_24000",
            AudioFormat::Pcm44100 => "pcm_44100",
            AudioFormat::Pcm48000 => "pcm_48000",
        }
    }

    pub fn sample_rate(self) -> (rate: u32)
        ensures
            rate == self.rate(),
    {
        match self {
            AudioFormat::Pcm8000 => 8000,
            AudioFormat::Pcm16000 => 16000,
            AudioFormat::Pcm22050 => 22050,
            AudioFormat::Pcm24000 => 24000,
            AudioFormat::Pcm44100 => 44100,
            AudioFormat::Pcm48000 => 48000,
        }
    }
}

/// Why a call on the session was turned down.
#[derive(Clone, Copy, PartialEq, Eq, Debug, Structural)]
pub enum StreamingError {
    /// A live session, or a handshake in flight, already exists.
    AlreadyConnected,
    /// No session exists.
    NotConnected,
    /// The session exists but its transport has ended.
    ConnectionDead,
    /// No connect has succeeded yet, so there is nothing to reconnect with.
    NoPreviousConfig,
    /// The session went away between the commit and its acknowledgement.
    ConnectionMissing,
    /// A handshake result arrived although no handshake was in flight.
    NotConnecting,
    /// The chunk is too long to be encoded on this machine.
    ChunkTooLarge,
}

impl StreamingError {
    pub open spec fn text(self) -> Seq<char> {
        match self {
            StreamingError::AlreadyConnected => "Connection already exists. Disconnect first."@,
            StreamingError::NotConnected => "Not connected"@,
            StreamingError::ConnectionDead => "Connection is dead"@,
            StreamingError::NoPreviousConfig => "No previous connection config available"@,
            StreamingError::ConnectionMissing => "Connection missing after commit"@,
            StreamingError::NotConnecting => "No connection attempt in progress"@,
            StreamingError::ChunkTooLarge => "Audio chunk is too large"@,
        }
    }

    /// Whether the audio pipeline has to stop when a send fails with this.
    pub open spec fn ends_pipeline(self) -> bool {
        self == StreamingError::NotConnected || self == StreamingError::ConnectionDead
    }

    pub fn message(self) -> (m: &'static str)
        ensures
            m@ == self.text(),
    {
        match self {
            StreamingError::AlreadyConnected => "Connection already exists. Disconnect first.",
            StreamingError::NotConnected => "Not connected",
            StreamingError::ConnectionDead => "Connection is dead",
            StreamingError::NoPreviousConfig => "No previous connection config available",
            StreamingError::ConnectionMissing => "Connection missing after commit",
            StreamingError::NotConnecting => "No connection attempt in progress",
            StreamingError::ChunkTooLarge => "Audio chunk is too large",
        }
    }

    pub fn is_fatal_for_pipeline(self) -> (fatal: bool)
        ensures
            fatal == self.ends_pipeline(),
    {
        match self {
            StreamingError::NotConnected => true,
            StreamingError::ConnectionDead => true,
            _ => false,
        }
    }
}

/// The transmit gate of one session.
#[derive(Clone, Copy, PartialEq, Eq, Debug, Structural)]
pub struct GateState {
    /// Chunks are forwarded to the transport while this holds.
    pub transmitting: bool,
    /// A chunk was forwarded since the transmit gate last opened.
    pub sent_since_open: bool,
}

impl GateState {
    pub open spec fn closed() -> GateState {
        GateState { transmitting: false, sent_since_open: false }
    }

    pub open spec fn opened(self) -> GateState {
        GateState { transmitting: true, sent_since_open: false }
    }

    pub open spec fn shut(self) -> GateState {
        GateState { transmitting: false, sent_since_open: self.sent_since_open }
    }

    pub open spec fn after_chunk(self) -> GateState {
        GateState {
            transmitting: self.transmitting,
            sent_since_open: self.sent_since_open || self.transmitting,
        }
    }

    pub fn new() -> (gate: GateState)
        ensures
            gate == Self::closed(),
    {
        GateState { transmitting: false, sent_since_open: false }
    }

    /// Opens the transmit gate and forgets what was sent before.
    pub fn open(&mut self)
        ensures
            *final(self) == old(self).opened(),
    {
        self.sent_since_open = false;
        self.transmitting = true;
    }

    /// Closes the transmit gate; what was sent since it opened stays on record.
    pub fn close(&mut self)
        ensures
            *final(self) == old(self).shut(),
    {
        self.transmitting = false;
    }

    /// Takes note of one chunk: it passes exactly when the transmit gate is
    /// open.
    pub fn admit_chunk(&mut self) -> (passes: bool)
        ensures
            passes == old(self).transmitting,
            *final(self) == old(self).after_chunk(),
    {
        if self.transmitting {
            self.sent_since_open = true;
        }
        self.transmitting
    }
}

/// The parameters of a connect.
pub struct ConnectionConfig {
    pub api_key: String,
    pub sample_rate: u32,
    pub language_code: String,
}

/// What a `ConnectionConfig` holds, as plain values.
pub struct ConfigView {
    pub api_key: Seq<char>,
    pub sample_rate: u32,
    pub language_code: Seq<char>,
}

impl View for ConnectionConfig {
    type V = ConfigView;

    open spec fn view(&self) -> ConfigView {
        ConfigView {
            api_key: self.api_key@,
            sample_rate: self.sample_rate,
            language_code: self.language_code@,
        }
    }
}

impl ConnectionConfig {
    pub fn new(api_key: String, sample_rate: u32, language_code: String) -> (config: Self)
        ensures
            config@ == (ConfigView {
                api_key: api_key@,
                sample_rate,
                language_code: language_code@,
            }),
    {
        ConnectionConfig { api_key, sample_rate, language_code }
    }

    pub fn duplicate(&self) -> (copy: Self)
        ensures
            copy@ == self@,
    {
        ConnectionConfig {
            api_key: self.api_key.clone(),
            sample_rate: self.sample_rate,
            language_code: self.language_code.clone(),
        }
    }
}

/// The flags and negotiated parameters of one live connection.
#[derive(Clone, Copy, PartialEq, Eq, Debug, Structural)]
pub struct StreamingConnection {
    /// The number of this session among those of its client.
    pub serial: u64,
    pub gate: GateState,
    pub is_committing: bool,
    pub is_alive: bool,
    pub sample_rate: u32,
    pub audio_format: AudioFormat,
}

impl StreamingConnection {
    /// A session as it stands right after the handshake.
    pub open spec fn fresh(sample_rate: u32, serial: u64) -> StreamingConnection {
        StreamingConnection {
            serial,
            gate: GateState::closed(),
            is_committing: false,
            is_alive: true,
            sample_rate,
            audio_format: AudioFormat::for_rate(sample_rate),
        }
    }
}

/// The standard-alphabet, padded base64 text of a byte string.
pub uninterp spec fn base64_standard(data: Seq<u8>) -> Seq<char>;

/// `base64::engine::general_purpose::STANDARD.encode`: the result is the
/// base64 text of the input and of nothing else. The call fails when the
/// length of that text does not fit the machine, which `requires` excludes.
#[verifier::external_body]
fn encode_base64(data: &Vec<u8>) -> (encoded: String)
    requires
        data@.len() / 3 * 4 + 4 <= isize::MAX,
    ensures
        encoded@ == base64_standard(data@),
{
    base64::engine::general_purpose::STANDARD.encode(data)
}

/// `tungstenite::handshake::client::generate_key`: a fresh random value for
/// the `Sec-WebSocket-Key` header, sixteen random bytes in base64.
#[verifier::external_body]
fn websocket_key() -> (key: String)
    ensures
        key@.len() == 24,
{
    tokio_tungstenite::tungstenite::handshake::client::generate_key()
}

/// One outbound audio message.
pub struct AudioChunkMessage {
    pub message_type: String,
    pub audio_base_64: String,
    pub sample_rate: u32,
    pub commit: bool,
}

/// What an `AudioChunkMessage` holds, as plain values.
pub struct ChunkView {
    pub message_type: Seq<char>,
    pub audio_base_64: Seq<char>,
    pub sample_rate: u32,
    pub commit: bool,
}

impl View for AudioChunkMessage {
    type V = ChunkView;

    open spec fn view(&self) -> ChunkView {
        ChunkView {
            message_type: self.message_type@,
            audio_base_64: self.audio_base_64@,
            sample_rate: self.sample_rate,
            commit: self.commit,
        }
    }
}

/// The message that carries `pcm` at `sample_rate`.
pub open spec fn audio_chunk(pcm: Seq<u8>, sample_rate: u32, commit: bool) -> ChunkView {
    ChunkView {
        message_type: "input_audio_chunk"@,
        audio_base_64: base64_standard(pcm),
        sample_rate,
        commit,
    }
}

/// The silence that carries the commit flag: one millisecond of zero samples.
pub open spec fn commit_silence(sample_rate: u32) -> Seq<u8> {
    Seq::new(((sample_rate as int / 1000) * 2) as nat, |i: int| 0u8)
}

/// Whether the byte string is short enough to be encoded on this machine.
pub open spec fn encodable(pcm: Seq<u8>) -> bool {
    pcm.len() / 3 * 4 + 4 <= isize::MAX
}

impl AudioChunkMessage {
    /// Whether the chunk is short enough to be encoded on this machine.
    pub fn is_encodable(pcm: &Vec<u8>) -> (fits: bool)
        ensures
            fits == encodable(pcm@),
    {
        let limit: usize = (isize::MAX as usize - 4) / 4;
        pcm.len() / 3 <= limit
    }

    /// The message around audio that is encoded already.
    pub fn with_payload(audio_base_64: String, sample_rate: u32, commit: bool) -> (message: Self)
        ensures
            message@ == (ChunkView {
                message_type: "input_audio_chunk"@,
                audio_base_64: audio_base_64@,
                sample_rate,
                commit,
            }),
    {
        AudioChunkMessage {
            message_type: "input_audio_chunk".to_owned(),
            audio_base_64,
            sample_rate,
            commit,
        }
    }

    fn encode_checked(pcm: &Vec<u8>, sample_rate: u32, commit: bool) -> (message: Self)
        requires
            encodable(pcm@),
        ensures
            message@ == audio_chunk(pcm@, sample_rate, commit),
    {
        Self::with_payload(encode_base64(pcm), sample_rate, commit)
    }

    /// Encodes one chunk of PCM16LE audio for the wire; a chunk too long
    /// to be encoded on this machine gives nothing.
    pub fn encode(pcm: &Vec<u8>, sample_rate: u32, commit: bool) -> (message: Option<Self>)
        ensures
            match message {
                Some(m) => encodable(pcm@) && m@ == audio_chunk(pcm@, sample_rate, commit),
                None => !encodable(pcm@),
            },
    {
        if Self::is_encodable(pcm) {
            Some(Self::encode_checked(pcm, sample_rate, commit))
        } else {
            None
        }
    }

    /// The frame that closes a turn.
    pub fn commit_frame(sample_rate: u32) -> (message: Self)
        ensures
            message@ == audio_chunk(commit_silence(sample_rate), sample_rate, true),
    {
        let samples: u32 = sample_rate / 1000;
        let bytes: u32 = samples * 2;
        let mut silence: Vec<u8> = Vec::new();
        let mut i: u32 = 0;
        while i < bytes
            invariant
                i <= bytes,
                silence@.len() == i,
                forall|j: int| 0 <= j < i ==> silence@[j] == 0u8,
            decreases bytes - i,
        {
            silence.push(0u8);
            i += 1;
        }
        assert(silence@ =~= commit_silence(sample_rate));
        Self::encode_checked(&silence, sample_rate, true)
    }
}

/// The realtime endpoint with the fixed model selection.
pub open spec fn endpoint() -> Seq<char> {
    "wss://api.elevenlabs.io/v1/speech-to-text/realtime?model_id=scribe_v2_realtime"@
}

/// Whether the server is left to detect the language.
pub open spec fn language_is_auto(language_code: Seq<char>) -> bool {
    language_code.len() == 0 || language_code == "auto"@
}

/// The URL of a session: the model, the language where one is given, the
/// audio format, manual commits and partial results.
pub open spec fn realtime_url(language_code: Seq<char>, format: AudioFormat) -> Seq<char> {
    let language = if language_is_auto(language_code) {
        Seq::<char>::empty()
    } else {
        "&language_code="@ + language_code
    };
    endpoint() + language + "&audio_format="@ + format.tag()
        + "&commit_strategy=manual&enable_partials=true"@
}

pub fn build_realtime_url(language_code: &str, format: AudioFormat) -> (url: String)
    ensures
        url@ == realtime_url(language_code@, format),
{
    let mut url =
        "wss://api.elevenlabs.io/v1/speech-to-text/realtime?model_id=scribe_v2_realtime".to_owned();
    if !(language_code.is_empty() || str_eq(language_code, "auto")) {
        url.append("&language_code=");
        url.append(language_code);
    }
    url.append("&audio_format=");
    url.append(format.as_str());
    url.append("&commit_strategy=manual&enable_partials=true");
    proof {
        let language = if language_is_auto(language_code@) {
            Seq::<char>::empty()
        } else {
            "&language_code="@ + language_code@
        };
        assert(url@ =~= endpoint() + language + "&audio_format="@ + format.tag()
            + "&commit_strategy=manual&enable_partials=true"@);
    }
    url
}

/// One header of the handshake request.
pub struct Header {
    pub name: String,
    pub value: String,
}

impl View for Header {
    type V = (Seq<char>, Seq<char>);

    open spec fn view(&self) -> (Seq<char>, Seq<char>) {
        (self.name@, self.value@)
    }
}

/// The headers of the handshake: the upgrade itself and the API key, which
/// travels here and never in the URL.
pub open spec fn handshake_headers(api_key: Seq<char>, key: Seq<char>) -> Seq<
    (Seq<char>, Seq<char>),
> {
    seq![
        ("Host"@, "api.elevenlabs.io"@),
        ("Connection"@, "Upgrade"@),
        ("Upgrade"@, "websocket"@),
        ("Sec-WebSocket-Version"@, "13"@),
        ("Sec-WebSocket-Key"@, key),
        ("xi-api-key"@, api_key),
    ]
}

fn header(name: &str, value: &str) -> (h: Header)
    ensures
        h@ == (name@, value@),
{
    Header { name: name.to_owned(), value: value.to_owned() }
}

/// The views of a list of headers, in order.
pub open spec fn header_views(headers: Seq<Header>) -> Seq<(Seq<char>, Seq<char>)> {
    headers.map_values(|h: Header| h@)
}

pub fn build_handshake_headers(api_key: &str, websocket_key: &str) -> (headers: Vec<Header>)
    ensures
        header_views(headers@) == handshake_headers(api_key@, websocket_key@),
{
    let mut headers: Vec<Header> = Vec::new();
    headers.push(header("Host", "api.elevenlabs.io"));
    headers.push(header("Connection", "Upgrade"));
    headers.push(header("Upgrade", "websocket"));
    headers.push(header("Sec-WebSocket-Version", "13"));
    headers.push(header("Sec-WebSocket-Key", websocket_key));
    headers.push(header("xi-api-key", api_key));
    assert(header_views(headers@) =~= handshake_headers(api_key@, websocket_key@));
    headers
}

/// What the transport needs to open a session.
pub struct ConnectRequest {
    pub url: String,
    pub headers: Vec<Header>,
    pub audio_format: AudioFormat,
    /// False when the sample rate was not in the table and 16 kHz stands in.
    pub rate_recognized: bool,
}

impl ConnectRequest {
    /// Whether the request is the one that `config` asks for.
    pub open spec fn matches_config(&self, config: ConfigView) -> bool {
        &&& self.url@ == realtime_url(config.language_code, self.audio_format)
        &&& self.audio_format == AudioFormat::for_rate(config.sample_rate)
        &&& self.rate_recognized == AudioFormat::recognizes(config.sample_rate)
        &&& exists|key: Seq<char>|
            key.len() == 24 && header_views(self.headers@) == #[trigger] handshake_headers(
                config.api_key,
                key,
            )
    }

    pub fn for_config(config: &ConnectionConfig) -> (request: Self)
        ensures
            request.matches_config(config@),
    {
        let audio_format = AudioFormat::from_sample_rate(config.sample_rate);
        let key = websocket_key();
        let request = ConnectRequest {
            url: build_realtime_url(config.language_code.as_str(), audio_format),
            headers: build_handshake_headers(config.api_key.as_str(), key.as_str()),
            audio_format,
            rate_recognized: AudioFormat::is_recognized(config.sample_rate),
        };
        assert(header_views(request.headers@) == handshake_headers(config@.api_key, key@));
        request
    }
}

/// A background task of a live session.
#[derive(Clone, Copy, PartialEq, Eq, Debug, Structural)]
pub enum SessionTask {
    /// Reads what the server sends until the connection ends.
    Reader,
    /// Sends a ping every so many seconds.
    Keepalive { interval_secs: u64 },
}

/// The tasks that an established session starts with.
pub open spec fn session_tasks(established: bool) -> Seq<SessionTask> {
    if established {
        seq![
            SessionTask::Reader,
            SessionTask::Keepalive { interval_secs: KEEPALIVE_INTERVAL_SECS },
        ]
    } else {
        Seq::empty()
    }
}

/// How a WebSocket close frame is filled.
#[derive(Clone, Copy, PartialEq, Eq, Debug, Structural)]
pub enum CloseKind {
    /// A close frame without code or reason.
    Plain,
    /// Code 4001 with the reason `ContextReset`.
    ContextReset,
}

impl CloseKind {
    pub open spec fn spec_code(self) -> Option<u16> {
        match self {
            CloseKind::Plain => None,
            CloseKind::ContextReset => Some(CONTEXT_RESET_CLOSE_CODE),
        }
    }

    pub open spec fn spec_reason(self) -> Seq<char> {
        match self {
            CloseKind::Plain => ""@,
            CloseKind::ContextReset => "ContextReset"@,
        }
    }

    pub fn code(self) -> (code: Option<u16>)
        ensures
            code == self.spec_code(),
    {
        match self {
            CloseKind::Plain => None,
            CloseKind::ContextReset => Some(CONTEXT_RESET_CLOSE_CODE),
        }
    }

    pub fn reason(self) -> (reason: &'static str)
        ensures
            reason@ == self.spec_reason(),
    {
        match self {
            CloseKind::Plain => "",
            CloseKind::ContextReset => "ContextReset",
        }
    }
}

/// One step of taking a session down, for the transport to carry out.
#[derive(Clone, Copy, PartialEq, Eq, Debug, Structural)]
pub enum TeardownStep {
    /// Emit the error event `Commit timeout`.
    ReportCommitTimeout,
    /// Stop the keep-alive task at once.
    AbortKeepalive,
    /// Cancel the reader and the keep-alive task through their shared token.
    CancelTasks,
    /// Wait until the reader task has ended.
    JoinReader,
    /// Wait until the keep-alive task has ended.
    JoinKeepalive,
    /// Send a close frame.
    SendClose(CloseKind),
    /// Wait for the reader task to end by itself, at most this many seconds,
    /// and hand the outcome to `reader_wait_finished`.
    AwaitReader { timeout_secs: u64 },
}

/// The steps that end a committed turn.
pub open spec fn teardown_after_commit(acknowledged: bool) -> Seq<TeardownStep> {
    let shutdown = seq![
        TeardownStep::AbortKeepalive,
        TeardownStep::SendClose(CloseKind::ContextReset),
        TeardownStep::AwaitReader { timeout_secs: READER_EXIT_TIMEOUT_SECS },
    ];
    if acknowledged {
        shutdown
    } else {
        seq![TeardownStep::ReportCommitTimeout] + shutdown
    }
}

/// The steps of an explicit disconnect.
pub open spec fn teardown_on_disconnect() -> Seq<TeardownStep> {
    seq![
        TeardownStep::CancelTasks,
        TeardownStep::JoinReader,
        TeardownStep::JoinKeepalive,
        TeardownStep::SendClose(CloseKind::Plain),
    ]
}

/// What follows the wait for the reader task: a reader that did not leave
/// in time is cancelled.
pub fn reader_wait_finished(exited_in_time: bool) -> (step: Option<TeardownStep>)
    ensures
        step == if exited_in_time {
            None
        } else {
            Some(TeardownStep::CancelTasks)
        },
{
    if exited_in_time {
        None
    } else {
        Some(TeardownStep::CancelTasks)
    }
}

/// What `close_gate_and_commit` asks of the transport.
pub enum CommitStep {
    /// Nothing was sent since the transmit gate opened: nothing goes out.
    Skipped,
    /// Send this frame, wait for the committed transcript for at most so
    /// many seconds, then call `commit_wait_finished`.
    Commit { message: AudioChunkMessage, wait_secs: u64 },
}

/// A `CommitStep` as plain values.
pub enum CommitStepView {
    Skipped,
    Commit { message: ChunkView, wait_secs: u64 },
}

impl View for CommitStep {
    type V = CommitStepView;

    open spec fn view(&self) -> CommitStepView {
        match self {
            CommitStep::Skipped => CommitStepView::Skipped,
            CommitStep::Commit { message, wait_secs } => CommitStepView::Commit {
                message: message@,
                wait_secs: *wait_secs,
            },
        }
    }
}

/// The places a session passes through.
#[derive(Clone, Copy, PartialEq, Eq, Debug, Structural)]
pub enum SessionPhase {
    Disconnected,
    Connecting,
    GateClosed,
    GateOpen,
    Committing,
}

/// The client as plain values: at most one session, the configuration of
/// the last successful connect, and the configuration of a handshake in
/// flight.
pub struct ClientView {
    pub connection: Option<StreamingConnection>,
    pub last_config: Option<ConfigView>,
    pub pending: Option<ConfigView>,
    /// The serial number that the next session gets.
    pub next_serial: u64,
}

/// The serial number after `serial`: one more, starting over after the
/// largest.
pub open spec fn following_serial(serial: u64) -> u64 {
    if serial == u64::MAX {
        0
    } else {
        (serial + 1) as u64
    }
}

impl ClientView {
    /// A handshake is in flight only while no session exists.
    pub open spec fn wf(self) -> bool {
        self.pending is Some ==> self.connection is None
    }

    pub open spec fn initial() -> ClientView {
        ClientView { connection: None, last_config: None, pending: None, next_serial: 0 }
    }

    /// The serial number of the session, if there is one.
    pub open spec fn session_serial(self) -> Option<u64> {
        match self.connection {
            Some(c) => Some(c.serial),
            None => None,
        }
    }

    pub open spec fn is_connected(self) -> bool {
        self.connection matches Some(c) && c.is_alive
    }

    pub open spec fn is_committing(self) -> bool {
        self.connection matches Some(c) && c.is_committing
    }

    pub open spec fn has_audio_since_open(self) -> bool {
        self.connection matches Some(c) && c.gate.sent_since_open
    }

    pub open spec fn is_transmitting(self) -> bool {
        self.connection matches Some(c) && c.gate.transmitting
    }

    pub open spec fn phase(self) -> SessionPhase {
        if self.pending is Some {
            SessionPhase::Connecting
        } else {
            match self.connection {
                None => SessionPhase::Disconnected,
                Some(c) => if !c.is_alive {
                    SessionPhase::Disconnected
                } else if c.is_committing {
                    SessionPhase::Committing
                } else if c.gate.transmitting {
                    SessionPhase::GateOpen
                } else {
                    SessionPhase::GateClosed
                },
            }
        }
    }

    /// Whether a connect is turned down.
    pub open spec fn connect_refused(self) -> bool {
        self.pending is Some || self.is_connected()
    }

    /// The client after `connect`: a stale session is gone and the
    /// handshake is in flight, unless the connect was refused.
    pub open spec fn after_connect(self, config: ConfigView) -> ClientView {
        if self.connect_refused() {
            self
        } else {
            ClientView { connection: None, pending: Some(config), ..self }
        }
    }

    /// The client after the handshake ended: a new session with the transmit
    /// gate closed and the configuration kept, or nothing but the old state.
    pub open spec fn after_handshake(self, established: bool) -> ClientView {
        match self.pending {
            None => self,
            Some(config) => if established {
                ClientView {
                    connection: Some(
                        StreamingConnection::fresh(config.sample_rate, self.next_serial),
                    ),
                    last_config: Some(config),
                    pending: None,
                    next_serial: following_serial(self.next_serial),
                }
            } else {
                ClientView { pending: None, ..self }
            },
        }
    }

    /// Why a call on the live session is turned down, if it is.
    pub open spec fn guard(self) -> Option<StreamingError> {
        match self.connection {
            None => Some(StreamingError::NotConnected),
            Some(c) => if c.is_alive {
                None
            } else {
                Some(StreamingError::ConnectionDead)
            },
        }
    }

    pub open spec fn with_connection(self, connection: StreamingConnection) -> ClientView {
        ClientView { connection: Some(connection), ..self }
    }

    pub open spec fn without_connection(self) -> ClientView {
        ClientView { connection: None, ..self }
    }

    pub open spec fn after_open_gate(self) -> ClientView {
        match self.connection {
            Some(c) if c.is_alive => self.with_connection(
                StreamingConnection { gate: c.gate.opened(), ..c },
            ),
            _ => self,
        }
    }

    pub open spec fn after_close_gate(self) -> ClientView {
        match self.connection {
            Some(c) if c.is_alive => self.with_connection(
                StreamingConnection { gate: c.gate.shut(), ..c },
            ),
            _ => self,
        }
    }

    /// What `send_audio_chunk` hands back: nothing while the transmit gate is
    /// closed, the encoded chunk while it is open.
    pub open spec fn chunk_outcome(self, pcm: Seq<u8>) -> Result<
        Option<ChunkView>,
        StreamingError,
    > {
        match self.connection {
            None => Err(StreamingError::NotConnected),
            Some(c) => if !c.is_alive {
                Err(StreamingError::ConnectionDead)
            } else if !c.gate.transmitting {
                Ok(None)
            } else if !encodable(pcm) {
                Err(StreamingError::ChunkTooLarge)
            } else {
                Ok(Some(audio_chunk(pcm, c.sample_rate, false)))
            },
        }
    }

    /// The client after `send_audio_chunk`: a chunk that went out is on
    /// record, and nothing else has changed.
    pub open spec fn after_chunk(self, pcm: Seq<u8>) -> ClientView {
        match self.connection {
            Some(c) if self.chunk_outcome(pcm) matches Ok(Some(_)) => self.with_connection(
                StreamingConnection { gate: c.gate.after_chunk(), ..c },
            ),
            _ => self,
        }
    }

    /// What `close_gate_and_commit` hands back.
    pub open spec fn commit_outcome(self) -> Result<CommitStepView, StreamingError> {
        match self.connection {
            None => Err(StreamingError::NotConnected),
            Some(c) => if !c.is_alive {
                Err(StreamingError::ConnectionDead)
            } else if !c.gate.sent_since_open {
                Ok(CommitStepView::Skipped)
            } else {
                Ok(
                    CommitStepView::Commit {
                        message: audio_chunk(commit_silence(c.sample_rate), c.sample_rate, true),
                        wait_secs: COMMIT_TIMEOUT_SECS,
                    },
                )
            },
        }
    }

    /// The client after `close_gate_and_commit`: the transmit gate is
    /// closed, and the session is committing exactly when a commit frame
    /// goes out.
    pub open spec fn after_commit_request(self) -> ClientView {
        match self.connection {
            Some(c) if c.is_alive => self.with_connection(
                StreamingConnection {
                    gate: c.gate.shut(),
                    is_committing: c.gate.sent_since_open,
                    ..c
                },
            ),
            _ => self,
        }
    }

    /// The client after the transport of session `serial` ended: that
    /// session is dead, and any other session is untouched.
    pub open spec fn after_connection_lost(self, serial: u64) -> ClientView {
        match self.connection {
            Some(c) if c.serial == serial => self.with_connection(
                StreamingConnection { is_alive: false, ..c },
            ),
            _ => self,
        }
    }
}

/// The result of `send_audio_chunk` as plain values.
pub open spec fn chunk_result_view(
    result: Result<Option<AudioChunkMessage>, StreamingError>,
) -> Result<Option<ChunkView>, StreamingError> {
    match result {
        Ok(Some(message)) => Ok(Some(message@)),
        Ok(None) => Ok(None),
        Err(e) => Err(e),
    }
}

/// The result of `close_gate_and_commit` as plain values.
pub open spec fn commit_result_view(result: Result<CommitStep, StreamingError>) -> Result<
    CommitStepView,
    StreamingError,
> {
    match result {
        Ok(step) => Ok(step@),
        Err(e) => Err(e),
    }
}

/// The last configuration as `get_last_config` hands it out.
pub open spec fn config_tuple_view(config: Option<(String, u32, String)>) -> Option<ConfigView> {
    match config {
        Some((api_key, sample_rate, language_code)) => Some(
            ConfigView { api_key: api_key@, sample_rate, language_code: language_code@ },
        ),
        None => None,
    }
}

/// The client for gated streaming: at most one session at a time.
pub struct ElevenLabsStreamingClient {
    connection: Option<StreamingConnection>,
    last_config: Option<ConnectionConfig>,
    pending: Option<ConnectionConfig>,
    next_serial: u64,
}

impl View for ElevenLabsStreamingClient {
    type V = ClientView;

    closed spec fn view(&self) -> ClientView {
        ClientView {
            connection: self.connection,
            last_config: match self.last_config {
                Some(config) => Some(config@),
                None => None,
            },
            pending: match self.pending {
                Some(config) => Some(config@),
                None => None,
            },
            next_serial: self.next_serial,
        }
    }
}

impl ElevenLabsStreamingClient {
    #[verifier::type_invariant]
    spec fn well_formed(self) -> bool {
        self@.wf()
    }

    pub fn new() -> (client: Self)
        ensures
            client@ == ClientView::initial(),
            client@.wf(),
    {
        ElevenLabsStreamingClient {
            connection: None,
            last_config: None,
            pending: None,
            next_serial: 0,
        }
    }

    /// The serial number of the session, if there is one.
    pub fn session_serial(&self) -> (serial: Option<u64>)
        ensures
            serial == self@.session_serial(),
    {
        match self.connection {
            Some(c) => Some(c.serial),
            None => None,
        }
    }

    /// Whether a live session exists.
    pub fn is_connected(&self) -> (connected: bool)
        ensures
            connected == self@.is_connected(),
    {
        match self.connection {
            Some(c) => c.is_alive,
            None => false,
        }
    }

    /// Whether a commit is under way.
    pub fn is_committing(&self) -> (committing: bool)
        ensures
            committing == self@.is_committing(),
    {
        match self.connection {
            Some(c) => c.is_committing,
            None => false,
        }
    }

    /// Whether any audio went out since the transmit gate last opened.
    pub fn has_audio_since_open(&self) -> (sent: bool)
        ensures
            sent == self@.has_audio_since_open(),
    {
        match self.connection {
            Some(c) => c.gate.sent_since_open,
            None => false,
        }
    }

    pub fn phase(&self) -> (phase: SessionPhase)
        ensures
            phase == self@.phase(),
    {
        if self.pending.is_some() {
            return SessionPhase::Connecting;
        }
        match self.connection {
            None => SessionPhase::Disconnected,
            Some(c) => {
                if !c.is_alive {
                    SessionPhase::Disconnected
                } else if c.is_committing {
                    SessionPhase::Committing
                } else if c.gate.transmitting {
                    SessionPhase::GateOpen
                } else {
                    SessionPhase::GateClosed
                }
            },
        }
    }

    /// The configuration of the last successful connect.
    pub fn get_last_config(&self) -> (config: Option<(String, u32, String)>)
        ensures
            config_tuple_view(config) == self@.last_config,
    {
        match &self.last_config {
            Some(config) => Some(
                (config.api_key.clone(), config.sample_rate, config.language_code.clone()),
            ),
            None => None,
        }
    }

    /// Starts a connect. A live session, or a handshake in flight, turns it
    /// down; a session whose transport has ended is discarded. On success
    /// the transport performs the handshake that the request describes and
    /// reports through `handshake_finished`.
    pub fn connect(&mut self, api_key: String, sample_rate: u32, language_code: String) -> (result:
        Result<ConnectRequest, StreamingError>)
        ensures
            final(self)@.wf(),
            final(self)@ == old(self)@.after_connect(
                ConfigView { api_key: api_key@, sample_rate, language_code: language_code@ },
            ),
            old(self)@.connect_refused() <==> result == Err::<ConnectRequest, StreamingError>(
                StreamingError::AlreadyConnected,
            ),
            result matches Ok(request) ==> request.matches_config(
                ConfigView { api_key: api_key@, sample_rate, language_code: language_code@ },
            ),
            result is Ok || result == Err::<ConnectRequest, StreamingError>(
                StreamingError::AlreadyConnected,
            ),
    {
        proof {
            use_type_invariant(&*self);
        }
        if self.pending.is_some() || self.is_connected() {
            return Err(StreamingError::AlreadyConnected);
        }
        let config = ConnectionConfig::new(api_key, sample_rate, language_code);
        let request = ConnectRequest::for_config(&config);
        self.connection = None;
        self.pending = Some(config);
        Ok(request)
    }

    /// Starts a connect with the configuration of the last successful one.
    pub fn connect_with_last_config(&mut self) -> (result: Result<ConnectRequest, StreamingError>)
        ensures
            final(self)@.wf(),
            match old(self)@.last_config {
                None => {
                    &&& final(self)@ == old(self)@
                    &&& result == Err::<ConnectRequest, StreamingError>(
                        StreamingError::NoPreviousConfig,
                    )
                },
                Some(config) => {
                    &&& final(self)@ == old(self)@.after_connect(config)
                    &&& old(self)@.connect_refused() <==> result == Err::<
                        ConnectRequest,
                        StreamingError,
                    >(StreamingError::AlreadyConnected)
                    &&& result matches Ok(request) ==> request.matches_config(config)
                    &&& result is Ok || result == Err::<ConnectRequest, StreamingError>(
                        StreamingError::AlreadyConnected,
                    )
                },
            },
    {
        proof {
            use_type_invariant(&*self);
        }
        let config = match &self.last_config {
            Some(config) => config.duplicate(),
            None => {
                return Err(StreamingError::NoPreviousConfig);
            },
        };
        self.connect(config.api_key, config.sample_rate, config.language_code)
    }

    /// Takes the result of the handshake. An established session starts
    /// alive with its gate closed, and only then is the configuration kept
    /// for later reconnects. The tasks to start for the session are handed
    /// back.
    pub fn handshake_finished(&mut self, established: bool) -> (result: Result<
        Vec<SessionTask>,
        StreamingError,
    >)
        ensures
            final(self)@.wf(),
            final(self)@ == old(self)@.after_handshake(established),
            match result {
                Ok(tasks) => old(self)@.pending is Some && tasks@ == session_tasks(established),
                Err(e) => old(self)@.pending is None && e == StreamingError::NotConnecting,
            },
    {
        proof {
            use_type_invariant(&*self);
        }
        if self.pending.is_none() {
            return Err(StreamingError::NotConnecting);
        }
        let mut previous = Self::new();
        core::mem::swap(self, &mut previous);
        let ElevenLabsStreamingClient { connection, last_config, pending, next_serial } = previous;
        match pending {
            Some(config) if established => {
                let audio_format = AudioFormat::from_sample_rate(config.sample_rate);
                *self = ElevenLabsStreamingClient {
                    connection: Some(
                        StreamingConnection {
                            serial: next_serial,
                            gate: GateState::new(),
                            is_committing: false,
                            is_alive: true,
                            sample_rate: config.sample_rate,
                            audio_format,
                        },
                    ),
                    last_config: Some(config),
                    pending: None,
                    next_serial: if next_serial == u64::MAX {
                        0
                    } else {
                        next_serial + 1
                    },
                };
            },
            _ => {
                *self = ElevenLabsStreamingClient {
                    connection,
                    last_config,
                    pending: None,
                    next_serial,
                };
            },
        }
        let mut tasks: Vec<SessionTask> = Vec::new();
        if established {
            tasks.push(SessionTask::Reader);
            tasks.push(SessionTask::Keepalive { interval_secs: KEEPALIVE_INTERVAL_SECS });
        }
        assert(tasks@ =~= session_tasks(established));
        Ok(tasks)
    }

    /// Opens the transmit gate of the live session and forgets what was sent
    /// before.
    pub fn open_gate(&mut self) -> (result: Result<(), StreamingError>)
        ensures
            final(self)@.wf(),
            final(self)@ == old(self)@.after_open_gate(),
            result == match old(self)@.guard() {
                Some(e) => Err::<(), StreamingError>(e),
                None => Ok::<(), StreamingError>(()),
            },
    {
        proof {
            use_type_invariant(&*self);
        }
        let mut connection = match self.connection {
            Some(c) => c,
            None => {
                return Err(StreamingError::NotConnected);
            },
        };
        if !connection.is_alive {
            return Err(StreamingError::ConnectionDead);
        }
        connection.gate.open();
        self.connection = Some(connection);
        Ok(())
    }

    /// Closes the transmit gate of the live session. Nothing goes to the
    /// network.
    pub fn close_gate(&mut self) -> (result: Result<(), StreamingError>)
        ensures
            final(self)@.wf(),
            final(self)@ == old(self)@.after_close_gate(),
            result == match old(self)@.guard() {
                Some(e) => Err::<(), StreamingError>(e),
                None => Ok::<(), StreamingError>(()),
            },
    {
        proof {
            use_type_invariant(&*self);
        }
        let mut connection = match self.connection {
            Some(c) => c,
            None => {
                return Err(StreamingError::NotConnected);
            },
        };
        if !connection.is_alive {
            return Err(StreamingError::ConnectionDead);
        }
        connection.gate.close();
        self.connection = Some(connection);
        Ok(())
    }

    /// Takes one chunk of PCM16LE audio. While the transmit gate is closed
    /// the chunk is dropped and nothing is handed back; while it is open the
    /// chunk comes back encoded for the wire, without the commit flag.
    pub fn send_audio_chunk(&mut self, pcm_data: Vec<u8>) -> (result: Result<
        Option<AudioChunkMessage>,
        StreamingError,
    >)
        ensures
            final(self)@.wf(),
            final(self)@ == old(self)@.after_chunk(pcm_data@),
            chunk_result_view(result) == old(self)@.chunk_outcome(pcm_data@),
    {
        proof {
            use_type_invariant(&*self);
        }
        let mut connection = match self.connection {
            Some(c) => c,
            None => {
                return Err(StreamingError::NotConnected);
            },
        };
        if !connection.is_alive {
            return Err(StreamingError::ConnectionDead);
        }
        if !connection.gate.transmitting {
            return Ok(None);
        }
        let message = match AudioChunkMessage::encode(&pcm_data, connection.sample_rate, false) {
            Some(message) => message,
            None => {
                return Err(StreamingError::ChunkTooLarge);
            },
        };
        connection.gate.admit_chunk();
        self.connection = Some(connection);
        Ok(Some(message))
    }

    /// Closes the transmit gate and asks for the turn to be finalized. Where
    /// nothing was sent since the transmit gate opened, nothing goes out and
    /// the session stays as it is; otherwise the commit frame is handed back
    /// and the session is committing until `commit_wait_finished`.
    pub fn close_gate_and_commit(&mut self) -> (result: Result<CommitStep, StreamingError>)
        ensures
            final(self)@.wf(),
            final(self)@ == old(self)@.after_commit_request(),
            commit_result_view(result) == old(self)@.commit_outcome(),
    {
        proof {
            use_type_invariant(&*self);
        }
        let mut connection = match self.connection {
            Some(c) => c,
            None => {
                return Err(StreamingError::NotConnected);
            },
        };
        if !connection.is_alive {
            return Err(StreamingError::ConnectionDead);
        }
        connection.gate.close();
        connection.is_committing = connection.gate.sent_since_open;
        self.connection = Some(connection);
        if !connection.gate.sent_since_open {
            return Ok(CommitStep::Skipped);
        }
        Ok(
            CommitStep::Commit {
                message: AudioChunkMessage::commit_frame(connection.sample_rate),
                wait_secs: COMMIT_TIMEOUT_SECS,
            },
        )
    }

    /// Ends the turn once the wait for the committed transcript is over,
    /// whether it was acknowledged or timed out: the session is discarded
    /// and the steps of its shutdown are handed back in order.
    pub fn commit_wait_finished(&mut self, acknowledged: bool) -> (result: Result<
        Vec<TeardownStep>,
        StreamingError,
    >)
        ensures
            final(self)@.wf(),
            final(self)@ == old(self)@.without_connection(),
            match result {
                Ok(steps) => old(self)@.connection is Some && steps@ == teardown_after_commit(
                    acknowledged,
                ),
                Err(e) => old(self)@.connection is None && e == StreamingError::ConnectionMissing,
            },
    {
        proof {
            use_type_invariant(&*self);
        }
        if self.connection.is_none() {
            return Err(StreamingError::ConnectionMissing);
        }
        self.connection = None;
        let mut steps: Vec<TeardownStep> = Vec::new();
        if !acknowledged {
            steps.push(TeardownStep::ReportCommitTimeout);
        }
        steps.push(TeardownStep::AbortKeepalive);
        steps.push(TeardownStep::SendClose(CloseKind::ContextReset));
        steps.push(TeardownStep::AwaitReader { timeout_secs: READER_EXIT_TIMEOUT_SECS });
        assert(steps@ =~= teardown_after_commit(acknowledged));
        Ok(steps)
    }

    /// Takes the session down, whatever its state, and hands back the steps
    /// of the teardown in order; without a session there is nothing to do.
    pub fn disconnect(&mut self) -> (steps: Vec<TeardownStep>)
        ensures
            final(self)@.wf(),
            final(self)@ == old(self)@.without_connection(),
            steps@ == if old(self)@.connection is Some {
                teardown_on_disconnect()
            } else {
                Seq::<TeardownStep>::empty()
            },
    {
        proof {
            use_type_invariant(&*self);
        }
        let mut steps: Vec<TeardownStep> = Vec::new();
        if self.connection.is_some() {
            self.connection = None;
            steps.push(TeardownStep::CancelTasks);
            steps.push(TeardownStep::JoinReader);
            steps.push(TeardownStep::JoinKeepalive);
            steps.push(TeardownStep::SendClose(CloseKind::Plain));
            assert(steps@ =~= teardown_on_disconnect());
        }
        steps
    }

    /// Records that the transport of session `serial` has ended: the
    /// reader task calls this as it leaves. The session stays in place,
    /// dead, until the next connect or disconnect removes it. A reader that
    /// outlived its session changes nothing.
    pub fn connection_lost(&mut self, serial: u64)
        ensures
            final(self)@.wf(),
            final(self)@ == old(self)@.after_connection_lost(serial),
    {
        proof {
            use_type_invariant(&*self);
        }
        match self.connection {
            Some(c) => {
                if c.serial == serial {
                    let mut connection = c;
                    connection.is_alive = false;
                    self.connection = Some(connection);
                }
            },
            None => {},
        }
    }
}

} // verus!

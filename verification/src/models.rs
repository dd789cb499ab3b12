use vstd::prelude::*;

verus! {

/// An IPv4 address as four octets. Addresses configured for the discovery
/// engine (the interface to bind and the multicast group) are held in this
/// form; the surrounding process turns them into socket addresses.
#[derive(Clone, Copy, Debug, PartialEq, Eq, Structural)]
pub struct Ipv4 {
    pub a: u8,
    pub b: u8,
    pub c: u8,
    pub d: u8,
}

/// A discovered peer device. Two records describe the same device exactly
/// when their `ip` fields agree; every other field is descriptive.
#[derive(Clone, Debug)]
pub struct DeviceInfo {
    pub alias: String,
    pub device_type: String,
    pub device_model: Option<String>,
    /// Network address, assigned from the UDP envelope on receipt, never
    /// taken from the datagram payload.
    pub ip: String,
    pub port: u16,
    /// Last dotted-quad octet of `ip`, a short display disambiguator.
    pub ip_ending: Option<String>,
}

impl DeviceInfo {
    /// Device identity for registry purposes: equality of `ip` alone.
    pub open spec fn spec_same_address(self, other: DeviceInfo) -> bool {
        self.ip@ == other.ip@
    }

    /// Two records name the same device iff their addresses agree.
    pub fn same_address(&self, other: &DeviceInfo) -> (r: bool)
        ensures
            r == self.spec_same_address(*other),
    {
        self.ip == other.ip
    }

    /// A field-for-field copy whose value Verus can track.
    pub fn duplicate(&self) -> (r: DeviceInfo)
        ensures
            r == *self,
    {
        DeviceInfo {
            alias: self.alias.clone(),
            device_type: self.device_type.clone(),
            device_model: match &self.device_model {
                Some(m) => Some(m.clone()),
                None => None,
            },
            ip: self.ip.clone(),
            port: self.port,
            ip_ending: match &self.ip_ending {
                Some(e) => Some(e.clone()),
                None => None,
            },
        }
    }
}

impl Default for DeviceInfo {
    fn default() -> (r: Self)
        ensures
            r.alias@ == Seq::<char>::empty(),
            r.device_type@ == Seq::<char>::empty(),
            r.device_model is None,
            r.ip@ == Seq::<char>::empty(),
            r.port == 0,
            r.ip_ending is None,
    {
        DeviceInfo {
            alias: String::new(),
            device_type: String::new(),
            device_model: None,
            ip: String::new(),
            port: 0,
            ip_ending: None,
        }
    }
}

/// The discovery wire envelope: a device record together with whether the
/// datagram is a periodic announcement (as opposed to a unicast reply) and
/// the sender's per-process-run fingerprint. Two envelopes are from the same
/// process run exactly when their fingerprints agree.
#[derive(Clone, Debug)]
pub struct DeviceResponse {
    pub device_info: DeviceInfo,
    pub announcement: bool,
    pub fingerprint: String,
}

impl DeviceResponse {
    /// Sender identity: equality of `fingerprint` alone. Used only to
    /// recognise this process's own datagrams, never as an address.
    pub open spec fn spec_same_identity(self, other: DeviceResponse) -> bool {
        self.fingerprint@ == other.fingerprint@
    }

    /// Two envelopes come from the same process run iff the fingerprints agree.
    pub fn same_identity(&self, other: &DeviceResponse) -> (r: bool)
        ensures
            r == self.spec_same_identity(*other),
    {
        self.fingerprint == other.fingerprint
    }
}

impl vstd::std_specs::convert::FromSpecImpl<DeviceInfo> for DeviceResponse {
    // The envelope's exact value is not a spec-level function of the record
    // alone (the fingerprint is a fresh empty string); the `ensures` on
    // `from` below says everything there is to say.
    open spec fn obeys_from_spec() -> bool {
        false
    }

    open spec fn from_spec(v: DeviceInfo) -> Self {
        arbitrary()
    }
}

impl From<DeviceInfo> for DeviceResponse {
    /// Wraps a bare device record in an envelope that carries no fingerprint
    /// and is not an announcement.
    fn from(device: DeviceInfo) -> (r: Self)
        ensures
            r.device_info == device,
            r.announcement == false,
            r.fingerprint@ == Seq::<char>::empty(),
    {
        DeviceResponse { device_info: device, fingerprint: String::new(), announcement: false }
    }
}

/// The discovery engine's state: this device's own identity envelope, the
/// registry of discovered peers, and the multicast configuration. The socket
/// that carries the datagrams lives outside the crate.
#[derive(Clone, Debug)]
pub struct LocalSendDevice {
    /// This device's own record, announced on the multicast group. Its
    /// fingerprint is what the self-loopback filter compares against.
    pub this_device: DeviceResponse,
    /// The registry: every discovered peer, at most one entry per address.
    pub devices: Vec<DeviceInfo>,
    pub interface_addr: Ipv4,
    pub multicast_addr: Ipv4,
    pub multicast_port: u16,
}

/// The kind of file offered in a transfer, as carried on the wire.
#[derive(Clone, Copy, Debug, PartialEq, Eq, Structural)]
pub enum FileType {
    Image,
    Video,
    Pdf,
    Text,
    Other,
}

/// Progress of a transfer, at session level and per file.
/// `Finished` and `FinishedWithErrors` are terminal: no transition leaves them.
#[derive(Clone, Copy, Debug, PartialEq, Eq, Structural)]
pub enum ReceiveStatus {
    /// No transfer started.
    Waiting,
    /// Bytes flowing.
    Receiving,
    /// All files complete.
    Finished,
    /// Ended with at least one incomplete file.
    FinishedWithErrors,
}

/// One file offered in a send request. Immutable once a session is created.
#[derive(Clone, Debug)]
pub struct FileInfo {
    pub id: String,
    /// Declared total size in bytes.
    pub size: usize,
    pub file_name: String,
    pub file_type: FileType,
}

impl FileInfo {
    /// A field-for-field copy whose value Verus can track.
    pub fn duplicate(&self) -> (r: FileInfo)
        ensures
            r == *self,
    {
        FileInfo {
            id: self.id.clone(),
            size: self.size,
            file_name: self.file_name.clone(),
            file_type: self.file_type,
        }
    }
}

/// This device's answer to the coordinator's selection step, sent back to the
/// transport: the file ids the user accepted, or a refusal.
#[derive(Clone, Debug)]
pub enum ClientMessage {
    Allow(Vec<String>),
    Decline,
}

/// An inbound transfer-protocol event, produced by the transport.
#[derive(Clone, Debug)]
pub enum ServerMessage {
    SendRequest(SendRequest),
    /// A reported progress increment for one file: the file id and the bytes
    /// received since the last report. An increment, not an absolute position.
    SendFileRequest(String, usize),
    CancelSession,
}

/// A sending peer's offer: who is sending and which files are on offer.
/// The files are an id-keyed collection, held as a list whose ids are unique.
#[derive(Clone, Debug)]
pub struct SendRequest {
    pub device_info: DeviceInfo,
    pub files: Vec<FileInfo>,
}

impl SendRequest {
    /// No two offered files share an id.
    pub open spec fn wf(self) -> bool {
        forall|i: int, j: int|
            0 <= i < j < self.files@.len() ==> self.files@[i].id@ != self.files@[j].id@
    }
}

/// The registration record of the transfer protocol's HTTP surface.
#[derive(Clone, Debug)]
pub struct RegisterRequest {
    pub alias: String,
    pub version: String,
    pub device_model: String,
    pub device_type: String,
    pub fingerprint: String,
    pub port: u16,
    pub protocol: String,
    /// Whether the download API is active; absent means inactive.
    pub download: Option<bool>,
}

/// The per-file upload ticket of the transfer protocol's HTTP surface.
#[derive(Clone, Debug)]
pub struct SendInfo {
    pub file_id: String,
    pub token: String,
}

/// One negotiated, bounded file-transfer interaction between a sending peer
/// and this device. The files, their statuses and their byte counters are
/// three parallel lists keyed by position; file ids are unique, so a position
/// also stands for an id.
#[derive(Clone, Debug)]
pub struct ReceiveSession {
    pub sender: DeviceInfo,
    /// The files the user selected, immutable for the session's lifetime.
    pub files: Vec<FileInfo>,
    /// Per-file status, parallel to `files`.
    pub file_status: Vec<ReceiveStatus>,
    /// Per-file cumulative received bytes, parallel to `files`.
    pub received: Vec<usize>,
    pub destination_directory: String,
    /// Milliseconds since the UNIX epoch when the session was created;
    /// display-only, nothing is proved of it.
    pub start_time: u64,
    pub status: ReceiveStatus,
}

impl ReceiveSession {
    /// Structural soundness of a session: the three per-file lists run in
    /// parallel, ids are unique, no counter passes its file's declared size,
    /// a `Finished` file has all its bytes, and a `Waiting` file has none.
    pub open spec fn wf(self) -> bool {
        &&& self.file_status@.len() == self.files@.len()
        &&& self.received@.len() == self.files@.len()
        &&& (forall|i: int, j: int|
            0 <= i < j < self.files@.len() ==> self.files@[i].id@ != self.files@[j].id@)
        &&& (forall|i: int|
            0 <= i < self.files@.len() ==> self.received@[i] <= self.files@[i].size)
        &&& (forall|i: int|
            0 <= i < self.files@.len() ==> (self.file_status@[i] == ReceiveStatus::Finished
                ==> self.received@[i] == self.files@[i].size))
        &&& (forall|i: int|
            0 <= i < self.files@.len() ==> (self.file_status@[i] == ReceiveStatus::Waiting
                ==> self.received@[i] == 0))
    }

    /// A session that still occupies the coordinator's slot: well formed, not
    /// yet terminal, and no file has been marked as ended in error (error
    /// marks are placed only when a session is torn down).
    pub open spec fn live(self) -> bool {
        &&& self.wf()
        &&& (self.status == ReceiveStatus::Waiting || self.status == ReceiveStatus::Receiving)
        &&& (forall|i: int|
            0 <= i < self.files@.len()
                ==> self.file_status@[i] != ReceiveStatus::FinishedWithErrors)
    }

    /// All files have every declared byte.
    pub open spec fn all_files_finished(self) -> bool {
        forall|i: int|
            0 <= i < self.files@.len() ==> self.file_status@[i] == ReceiveStatus::Finished
    }

    /// A fresh session with no files yet: everything `Waiting`, stamped with
    /// the current time.
    pub fn new(sender: DeviceInfo, destination_directory: String) -> (r: Self)
        ensures
            r.sender == sender,
            r.destination_directory == destination_directory,
            r.files@ =~= Seq::<FileInfo>::empty(),
            r.file_status@ =~= Seq::<ReceiveStatus>::empty(),
            r.received@ =~= Seq::<usize>::empty(),
            r.status == ReceiveStatus::Waiting,
            r.wf(),
            r.live(),
    {
        ReceiveSession {
            sender,
            destination_directory,
            files: Vec::new(),
            file_status: Vec::new(),
            received: Vec::new(),
            start_time: now_millis(),
            status: ReceiveStatus::Waiting,
        }
    }
}

/// Relies on std::time::SystemTime::now: the wall clock, read once when a
/// session is created. The value depends on the machine's clock, so nothing
/// is promised of it; it is carried only for display.
#[verifier::external_body]
fn now_millis() -> u64 {
    match std::time::SystemTime::now().duration_since(std::time::SystemTime::UNIX_EPOCH) {
        Ok(d) => d.as_millis() as u64,
        Err(_) => 0,
    }
}

} // verus!

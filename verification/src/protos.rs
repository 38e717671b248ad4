//! Wire-level and session-level data types: device identities, announcements,
//! file metadata, transfer requests, and the per-session record the receive
//! controller keeps.

use crate::keyseq::{first_key_index, has_key, unique_keys};
use vstd::prelude::*;

verus! {

/// Category of an offered file, as carried on the wire.
#[derive(Clone, Copy, Debug, PartialEq, Eq, Structural)]
pub enum FileType {
    Image,
    Video,
    Pdf,
    Text,
    Other,
}

/// State of one file, and of the session as a whole, while receiving.
#[derive(Clone, Copy, Debug, PartialEq, Eq, Structural)]
pub enum ReceiveStatus {
    /// Waiting for the sender to start sending.
    Waiting,
    /// In an ongoing session, receiving bytes.
    Receiving,
    /// Everything received (a terminal state).
    Finished,
    /// Finished, but some bytes could not be received (a terminal state).
    FinishedWithErrors,
}

/// Whether a per-file or session status is terminal.
pub open spec fn is_terminal(s: ReceiveStatus) -> bool {
    s == ReceiveStatus::Finished || s == ReceiveStatus::FinishedWithErrors
}

/// Advertised identity of a peer.  `ip` and `port` are transport-derived:
/// they are never carried inside a datagram's payload but filled in from the
/// packet's source address.
#[derive(Debug)]
pub struct DeviceInfo {
    pub alias: String,
    pub device_type: String,
    pub device_model: Option<String>,
    pub ip: String,
    pub port: u16,
}

/// Mathematical image of a [`DeviceInfo`].
pub struct DeviceInfoView {
    pub alias: Seq<char>,
    pub device_type: Seq<char>,
    pub device_model: Option<Seq<char>>,
    pub ip: Seq<char>,
    pub port: u16,
}

impl View for DeviceInfo {
    type V = DeviceInfoView;

    open spec fn view(&self) -> DeviceInfoView {
        DeviceInfoView {
            alias: self.alias@,
            device_type: self.device_type@,
            device_model: match self.device_model {
                Some(m) => Some(m@),
                None => None,
            },
            ip: self.ip@,
            port: self.port,
        }
    }
}

impl DeviceInfo {
    /// Field-by-field copy; the views coincide.
    pub fn duplicate(&self) -> (r: DeviceInfo)
        ensures
            r@ == self@,
    {
        DeviceInfo {
            alias: self.alias.clone(),
            device_type: self.device_type.clone(),
            device_model: match &self.device_model {
                Some(m) => Some(m.clone()),
                None => None,
            },
            ip: self.ip.clone(),
            port: self.port,
        }
    }
}

impl PartialEq for DeviceInfo {
    /// Peer-table equality is by source address only: a changed alias from
    /// the same source is the same device.
    fn eq(&self, other: &Self) -> (r: bool) {
        self.ip == other.ip
    }
}

impl vstd::std_specs::cmp::PartialEqSpecImpl for DeviceInfo {
    open spec fn obeys_eq_spec() -> bool {
        true
    }

    open spec fn eq_spec(&self, other: &DeviceInfo) -> bool {
        self.ip@ == other.ip@
    }
}

impl Default for DeviceInfo {
    fn default() -> (d: Self)
        ensures
            d@.alias == Seq::<char>::empty(),
            d@.device_type == Seq::<char>::empty(),
            d@.device_model is None,
            d@.ip == Seq::<char>::empty(),
            d@.port == 0,
    {
        DeviceInfo {
            alias: String::new(),
            device_type: String::new(),
            device_model: None,
            ip: String::new(),
            port: 0,
        }
    }
}

/// Payload of one discovery datagram: a device identity together with the
/// announcement flag and the per-process fingerprint.
#[derive(Debug)]
pub struct DeviceResponse {
    pub device_info: DeviceInfo,
    pub announcement: bool,
    pub fingerprint: String,
}

/// Mathematical image of a [`DeviceResponse`].
pub struct DeviceResponseView {
    pub device_info: DeviceInfoView,
    pub announcement: bool,
    pub fingerprint: Seq<char>,
}

impl View for DeviceResponse {
    type V = DeviceResponseView;

    open spec fn view(&self) -> DeviceResponseView {
        DeviceResponseView {
            device_info: self.device_info@,
            announcement: self.announcement,
            fingerprint: self.fingerprint@,
        }
    }
}

impl DeviceResponse {
    /// Field-by-field copy; the views coincide.
    pub fn duplicate(&self) -> (r: DeviceResponse)
        ensures
            r@ == self@,
    {
        DeviceResponse {
            device_info: self.device_info.duplicate(),
            announcement: self.announcement,
            fingerprint: self.fingerprint.clone(),
        }
    }
}

impl PartialEq for DeviceResponse {
    /// Self-identity is by fingerprint: a process recognises its own packets
    /// whatever source address they looped back with.
    fn eq(&self, other: &Self) -> (r: bool) {
        self.fingerprint == other.fingerprint
    }
}

impl vstd::std_specs::cmp::PartialEqSpecImpl for DeviceResponse {
    open spec fn obeys_eq_spec() -> bool {
        true
    }

    open spec fn eq_spec(&self, other: &DeviceResponse) -> bool {
        self.fingerprint@ == other.fingerprint@
    }
}

impl From<DeviceInfo> for DeviceResponse {
    fn from(device: DeviceInfo) -> (r: Self)
        ensures
            r@.device_info == device@,
            r@.announcement == false,
            r@.fingerprint == Seq::<char>::empty(),
    {
        DeviceResponse {
            device_info: device,
            announcement: false,
            fingerprint: String::new(),
        }
    }
}

impl vstd::std_specs::convert::FromSpecImpl<DeviceInfo> for DeviceResponse {
    open spec fn obeys_from_spec() -> bool {
        false
    }

    open spec fn from_spec(device: DeviceInfo) -> DeviceResponse {
        arbitrary()
    }
}

/// Metadata of one offered file.
#[derive(Debug)]
pub struct FileInfo {
    pub id: String,
    /// Size in bytes.
    pub size: usize,
    pub file_name: String,
    pub file_type: FileType,
}

/// Mathematical image of a [`FileInfo`].
pub struct FileInfoView {
    pub id: Seq<char>,
    pub size: nat,
    pub file_name: Seq<char>,
    pub file_type: FileType,
}

impl View for FileInfo {
    type V = FileInfoView;

    open spec fn view(&self) -> FileInfoView {
        FileInfoView {
            id: self.id@,
            size: self.size as nat,
            file_name: self.file_name@,
            file_type: self.file_type,
        }
    }
}

impl FileInfo {
    /// Field-by-field copy; the views coincide.
    pub fn duplicate(&self) -> (r: FileInfo)
        ensures
            r@ == self@,
    {
        FileInfo {
            id: self.id.clone(),
            size: self.size,
            file_name: self.file_name.clone(),
            file_type: self.file_type,
        }
    }
}

/// One entry of a transfer request: the wire key of the file together with
/// its metadata.  On the wire the request's `files` member is a JSON object,
/// so the keys are unique; the key is normally the file's own `id`.
#[derive(Debug)]
pub struct FileOffer {
    pub file_id: String,
    pub info: FileInfo,
}

/// Mathematical image of a [`FileOffer`].
#[verifier::ext_equal]
pub struct FileOfferView {
    pub file_id: Seq<char>,
    pub info: FileInfoView,
}

impl View for FileOffer {
    type V = FileOfferView;

    open spec fn view(&self) -> FileOfferView {
        FileOfferView { file_id: self.file_id@, info: self.info@ }
    }
}

impl FileOffer {
    /// Field-by-field copy; the views coincide.
    pub fn duplicate(&self) -> (r: FileOffer)
        ensures
            r@ == self@,
    {
        FileOffer { file_id: self.file_id.clone(), info: self.info.duplicate() }
    }
}

/// The wire keys of a sequence of offers, in order.
pub open spec fn offer_ids(offers: Seq<FileOfferView>) -> Seq<Seq<char>> {
    offers.map_values(|o: FileOfferView| o.file_id)
}

/// A sequence of offers read as the map it stands for on the wire.
pub open spec fn offers_map(offers: Seq<FileOfferView>) -> Map<Seq<char>, FileInfoView> {
    Map::new(
        |k: Seq<char>| has_key(offer_ids(offers), k),
        |k: Seq<char>| offers[first_key_index(offer_ids(offers), k)].info,
    )
}

/// Body of a `send-request` call: the sender's identity and the offered
/// files, keyed by file id.
#[derive(Debug)]
pub struct SendRequest {
    pub device_info: DeviceInfo,
    pub files: Vec<FileOffer>,
}

/// Mathematical image of a [`SendRequest`].
#[verifier::ext_equal]
pub struct SendRequestView {
    pub device_info: DeviceInfoView,
    pub files: Seq<FileOfferView>,
}

impl View for SendRequest {
    type V = SendRequestView;

    open spec fn view(&self) -> SendRequestView {
        SendRequestView {
            device_info: self.device_info@,
            files: self.files@.map_values(|o: FileOffer| o@),
        }
    }
}

impl SendRequestView {
    /// The offered files as a map from file id to metadata.  A request read
    /// off the wire offers each id once (the `files` member is a JSON
    /// object); should an id repeat, its first occurrence counts.
    pub open spec fn files_map(self) -> Map<Seq<char>, FileInfoView> {
        offers_map(self.files)
    }
}

impl SendRequest {
    /// Field-by-field copy; the views coincide.
    pub fn duplicate(&self) -> (r: SendRequest)
        ensures
            r@ == self@,
    {
        let mut files: Vec<FileOffer> = Vec::new();
        let mut i: usize = 0;
        while i < self.files.len()
            invariant
                i <= self.files.len(),
                files@.len() == i,
                forall|j: int| 0 <= j < i ==> files@[j]@ == self.files@[j]@,
            decreases self.files.len() - i,
        {
            files.push(self.files[i].duplicate());
            i = i + 1;
        }
        let r = SendRequest { device_info: self.device_info.duplicate(), files };
        proof {
            assert(r@.files =~= self@.files);
            assert(r@ =~= self@);
        }
        r
    }
}

/// Query parameters of a `send` call: which file is being sent and the token
/// issued for it.
#[derive(Debug)]
pub struct SendInfo {
    pub file_id: String,
    pub token: String,
}

/// Mathematical image of a [`SendInfo`].
pub struct SendInfoView {
    pub file_id: Seq<char>,
    pub token: Seq<char>,
}

impl View for SendInfo {
    type V = SendInfoView;

    open spec fn view(&self) -> SendInfoView {
        SendInfoView { file_id: self.file_id@, token: self.token@ }
    }
}

/// What the front end answers to a transfer request.
#[derive(Debug)]
pub enum ClientMessage {
    /// Accept the files with these ids.
    Allow(Vec<String>),
    /// Refuse the transfer.
    Decline,
}

/// What the protocol handlers publish for the front end.
#[derive(Debug)]
pub enum ServerMessage {
    /// A sender asks to transfer these files; answer with a [`ClientMessage`].
    SendRequest(SendRequest),
    /// This many further bytes of the named file arrived (`0` marks the start
    /// of the file).
    SendFileRequest(String, usize),
    /// The session was cancelled; clear any progress display.
    CancelSession,
}

/// One accepted file of a live session: its wire key, its metadata, its
/// per-file state, and the capability token minted for it.
#[derive(Debug)]
pub struct AcceptedFile {
    pub file_id: String,
    pub info: FileInfo,
    pub status: ReceiveStatus,
    pub token: String,
}

/// Mathematical image of an [`AcceptedFile`].
#[verifier::ext_equal]
pub struct AcceptedFileView {
    pub file_id: Seq<char>,
    pub info: FileInfoView,
    pub status: ReceiveStatus,
    pub token: Seq<char>,
}

impl View for AcceptedFile {
    type V = AcceptedFileView;

    open spec fn view(&self) -> AcceptedFileView {
        AcceptedFileView {
            file_id: self.file_id@,
            info: self.info@,
            status: self.status,
            token: self.token@,
        }
    }
}

/// The ids of a sequence of accepted files, in order.
pub open spec fn accepted_ids(files: Seq<AcceptedFileView>) -> Seq<Seq<char>> {
    files.map_values(|f: AcceptedFileView| f.file_id)
}

/// The authoritative record of one receive session.
#[derive(Debug)]
pub struct ReceiveSession {
    pub sender: DeviceInfo,
    /// The accepted subset of the offered files, keyed by file id.  This one
    /// sequence carries what the protocol describes as three maps over the
    /// same keys: file id to metadata, to per-file status, and to token.
    pub files: Vec<AcceptedFile>,
    pub destination_directory: String,
    /// Timestamp of session creation, in milliseconds of the system clock.
    pub start_time: u64,
    /// Session-level rollup of the per-file states.
    pub status: ReceiveStatus,
}

/// Mathematical image of a [`ReceiveSession`].
#[verifier::ext_equal]
pub struct ReceiveSessionView {
    pub sender: DeviceInfoView,
    pub files: Seq<AcceptedFileView>,
    pub destination_directory: Seq<char>,
    pub start_time: u64,
    pub status: ReceiveStatus,
}

impl View for ReceiveSession {
    type V = ReceiveSessionView;

    open spec fn view(&self) -> ReceiveSessionView {
        ReceiveSessionView {
            sender: self.sender@,
            files: self.files@.map_values(|f: AcceptedFile| f@),
            destination_directory: self.destination_directory@,
            start_time: self.start_time,
            status: self.status,
        }
    }
}

impl ReceiveSessionView {
    /// A session is well formed when no file id occurs twice.
    pub open spec fn wf(self) -> bool {
        unique_keys(accepted_ids(self.files))
    }

    /// The accepted files as a map from file id to metadata.
    pub open spec fn files_map(self) -> Map<Seq<char>, FileInfoView> {
        Map::new(
            |k: Seq<char>| has_key(accepted_ids(self.files), k),
            |k: Seq<char>| self.files[first_key_index(accepted_ids(self.files), k)].info,
        )
    }

    /// The per-file states as a map from file id to status.  Its domain
    /// always equals the domain of [`Self::files_map`]: both maps are read
    /// off the same entries.
    pub open spec fn file_status_map(self) -> Map<Seq<char>, ReceiveStatus> {
        Map::new(
            |k: Seq<char>| has_key(accepted_ids(self.files), k),
            |k: Seq<char>| self.files[first_key_index(accepted_ids(self.files), k)].status,
        )
    }

    /// The issued tokens as a map from file id to token.
    pub open spec fn token_map(self) -> Map<Seq<char>, Seq<char>> {
        Map::new(
            |k: Seq<char>| has_key(accepted_ids(self.files), k),
            |k: Seq<char>| self.files[first_key_index(accepted_ids(self.files), k)].token,
        )
    }

    /// Every per-file state is terminal.
    pub open spec fn all_files_terminal(self) -> bool {
        forall|i: int| 0 <= i < self.files.len() ==> is_terminal(#[trigger] self.files[i].status)
    }

    /// `self` with the status of the file carrying `k` replaced by `st`;
    /// meaningful when `k` is one of the accepted ids.
    pub open spec fn with_file_status(self, k: Seq<char>, st: ReceiveStatus) -> ReceiveSessionView {
        let i = first_key_index(accepted_ids(self.files), k);
        let f = self.files[i];
        ReceiveSessionView {
            files: self.files.update(i, AcceptedFileView { status: st, ..f }),
            ..self
        }
    }
}

/// The three per-file maps of a session share one domain, always: metadata,
/// status and token are read off the same entries.
pub proof fn lemma_session_maps_share_domain(s: ReceiveSessionView)
    ensures
        s.files_map().dom() == s.file_status_map().dom(),
        s.files_map().dom() == s.token_map().dom(),
{
    assert(s.files_map().dom() =~= s.file_status_map().dom());
    assert(s.files_map().dom() =~= s.token_map().dom());
}

/// Updating one accepted file's status moves exactly that key of the status
/// map and leaves the ids, the metadata map and the token map untouched.
pub proof fn lemma_with_file_status_maps(s: ReceiveSessionView, k: Seq<char>, st: ReceiveStatus)
    requires
        has_key(accepted_ids(s.files), k),
    ensures
        accepted_ids(s.with_file_status(k, st).files) == accepted_ids(s.files),
        s.with_file_status(k, st).file_status_map() == s.file_status_map().insert(k, st),
        s.with_file_status(k, st).files_map() == s.files_map(),
        s.with_file_status(k, st).token_map() == s.token_map(),
        s.wf() ==> s.with_file_status(k, st).wf(),
{
    let ids = accepted_ids(s.files);
    let s2 = s.with_file_status(k, st);
    let i = first_key_index(ids, k);
    crate::keyseq::lemma_first_key_index(ids, k);
    assert(accepted_ids(s2.files) =~= ids);
    assert forall|k2: Seq<char>| has_key(ids, k2) implies {
        let j = first_key_index(ids, k2);
        &&& (j != i ==> s2.files[j] == s.files[j])
        &&& (j == i ==> k2 == k)
    } by {
        crate::keyseq::lemma_first_key_index(ids, k2);
    }
    assert(s2.file_status_map() =~= s.file_status_map().insert(k, st));
    assert(s2.files_map() =~= s.files_map());
    assert(s2.token_map() =~= s.token_map());
}

/// Timestamp for [`ReceiveSession::new`].  Relies on
/// `std::time::SystemTime::now`; nothing is assumed of the value.
#[verifier::external_body]
fn now_millis() -> u64 {
    match std::time::SystemTime::now().duration_since(std::time::UNIX_EPOCH) {
        Ok(d) => d.as_millis() as u64,
        Err(_) => 0,
    }
}

impl ReceiveSession {
    /// A fresh session for `sender`, with no files accepted yet.
    pub fn new(sender: DeviceInfo, destination_directory: String) -> (s: Self)
        ensures
            s@.sender == sender@,
            s@.files == Seq::<AcceptedFileView>::empty(),
            s@.destination_directory == destination_directory@,
            s@.status == ReceiveStatus::Waiting,
            s@.wf(),
    {
        let s = ReceiveSession {
            sender,
            destination_directory,
            files: Vec::new(),
            start_time: now_millis(),
            status: ReceiveStatus::Waiting,
        };
        proof {
            assert(s@.files =~= Seq::<AcceptedFileView>::empty());
        }
        s
    }
}

/// The state the protocol handlers share: the at-most-one live session and
/// the destination directory supplied at startup.  The two message queues
/// that connect the handlers to the front end live with the runtime, not
/// here; handlers append what they publish to an outbox vector instead.
#[derive(Debug)]
pub struct AppState {
    pub receive_session: Option<ReceiveSession>,
    pub destination_directory: String,
}

impl AppState {
    /// Fresh state with no live session.  Incoming files will be written
    /// under `destination_directory`.
    pub fn new(destination_directory: String) -> (s: Self)
        ensures
            s.receive_session is None,
            s.destination_directory@ == destination_directory@,
    {
        AppState { receive_session: None, destination_directory }
    }
}

} // verus!

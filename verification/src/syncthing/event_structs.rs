//! The event records of the sync daemon, as plain values.

use vstd::prelude::*;
use std::collections::HashMap;

verus! {

/// One event as delivered by the daemon's event feed.
#[allow(non_snake_case)]
#[derive(Debug)]
pub struct SyncthingEvent {
    /// The event's sequence number.
    pub id: u16,
    /// The event's global sequence number.
    pub globalID: u16,
    /// The name of the event's kind.
    pub event_type: String,
    /// When the event happened, as reported.
    pub time: String,
    /// The kind-specific payload.
    pub data: EventTypes,
}

impl Clone for SyncthingEvent {
    fn clone(&self) -> (r: Self)
        ensures
            r.id == self.id,
            r.globalID == self.globalID,
            r.event_type@ == self.event_type@,
            r.time@ == self.time@,
    {
        SyncthingEvent {
            id: self.id,
            globalID: self.globalID,
            event_type: self.event_type.clone(),
            time: self.time.clone(),
            data: self.data.clone(),
        }
    }
}

/// A folder's local index advanced.
#[derive(Debug, Clone, Default)]
pub struct LocalIndexUpdated {
    /// The folder concerned.
    pub folder: String,
    /// How many items changed.
    pub items: u16,
    /// The files concerned.
    pub filenames: Vec<String>,
    /// The folder's sequence number.
    pub sequence: u16,
    /// The record's version.
    pub version: u16,
}

/// A cluster configuration arrived from a device.
#[derive(Debug, Clone, Default)]
pub struct ClusterConfigReceived {
    /// The device it came from.
    pub device: String,
}

/// A device connected.
#[allow(non_snake_case)]
#[derive(Debug, Clone, Default)]
pub struct DeviceConnected {
    /// The remote address.
    pub addr: String,
    /// The device's id.
    pub id: String,
    /// The device's name.
    pub deviceName: String,
    /// The client software's name.
    pub clientName: String,
    /// The client software's version.
    pub clientVersion: String,
    /// The connection's kind.
    pub connection_type: String,
}

/// A device disconnected.
#[derive(Debug, Clone, Default)]
pub struct DeviceDisconnected {
    /// Why, as reported.
    pub error: String,
    /// The device's id.
    pub id: String,
}

/// A device was paused.
#[derive(Debug, Clone, Default)]
pub struct DevicePaused {
    /// The device concerned.
    pub device: String,
}

/// A device was resumed.
#[derive(Debug, Clone, Default)]
pub struct DeviceResumed {
    /// The device concerned.
    pub device: String,
}

/// Transfer progress of one file.
#[allow(non_snake_case)]
#[derive(Debug, Clone, Default)]
pub struct File {
    /// Blocks in total.
    pub total: u16,
    /// Blocks being pulled.
    pub pulling: u16,
    /// Blocks copied from the original.
    pub copiedFromOrigin: u16,
    /// Blocks reused.
    pub reused: u16,
    /// Blocks copied from elsewhere.
    pub copiedFromElsewhere: u16,
    /// Blocks pulled.
    pub pulled: u16,
    /// Bytes in total.
    pub bytesTotal: u16,
    /// Bytes done.
    pub bytesDone: u16,
}

/// Transfer progress by file name.
pub type DownloadProgress = HashMap<String, File>;

/// A failure report, as text.
pub type Failure = String;

/// Completion of a folder on a device.
#[allow(non_snake_case)]
#[derive(Debug, Clone, Default)]
pub struct FolderCompletion {
    /// Percent complete.
    pub completion: u16,
    /// The device concerned.
    pub device: String,
    /// The folder concerned.
    pub folder: String,
    /// Bytes known globally.
    pub globalBytes: u16,
    /// Items known globally.
    pub globalItems: u16,
    /// Bytes still needed.
    pub needBytes: u16,
    /// Deletions still needed.
    pub needDeletes: u16,
    /// Items still needed.
    pub needItems: u16,
    /// The remote's state.
    pub remoteState: String,
    /// The folder's sequence number.
    pub sequence: u16,
}

/// One internal error of the daemon.
#[derive(Debug, Clone, Default)]
pub struct SyncthingInternalError {
    /// The error, as text.
    pub error: String,
    /// The path concerned.
    pub path: String,
}

/// The errors of a folder.
#[derive(Debug, Clone, Default)]
pub struct FolderErrors {
    /// The errors.
    pub errors: Vec<SyncthingInternalError>,
    /// The folder concerned.
    pub folder: String,
}

/// A folder was paused.
#[derive(Debug, Clone, Default)]
pub struct FolderPaused {
    /// The folder's id.
    pub id: String,
    /// The folder's label.
    pub label: String,
}

/// A folder was resumed.
#[derive(Debug, Clone, Default)]
pub struct FolderResumed {
    /// The folder's id.
    pub id: String,
    /// The folder's label.
    pub label: String,
}

/// Scan progress of a folder.
#[derive(Debug, Clone, Default)]
pub struct FolderScanProgress {
    /// Bytes to scan.
    pub total: u16,
    /// Scan rate.
    pub rate: u16,
    /// Bytes scanned.
    pub current: u16,
    /// The folder concerned.
    pub folder: String,
}

/// A folder's summary changed.
#[derive(Debug, Clone, Default)]
pub struct FolderSummary {
    /// The folder concerned.
    pub folder: String,
    /// The new summary.
    pub summary: Summary,
}

/// The full summary of a folder.
#[allow(non_snake_case)]
#[derive(Debug, Clone, Default)]
pub struct Summary {
    /// The folder's error, as text.
    pub error: String,
    /// How many errors it has.
    pub errors: u16,
    /// Bytes known globally.
    pub globalBytes: u32,
    /// Deletions known globally.
    pub globalDeleted: u32,
    /// Directories known globally.
    pub globalDirectories: u8,
    /// Files known globally.
    pub globalFiles: u8,
    /// Symlinks known globally.
    pub globalSymlinks: u16,
    /// Items known globally.
    pub globalTotalItems: u32,
    /// Whether ignore patterns are set.
    pub ignorePatterns: bool,
    /// Bytes in sync.
    pub inSyncBytes: u32,
    /// Files in sync.
    pub inSyncFiles: u8,
    /// The invalid marker, as text.
    pub invalid: String,
    /// Bytes known locally.
    pub localBytes: u32,
    /// Deletions known locally.
    pub localDeleted: u32,
    /// Directories known locally.
    pub localDirectories: u8,
    /// Files known locally.
    pub localFiles: u8,
    /// Symlinks known locally.
    pub localSymlinks: u16,
    /// Items known locally.
    pub localTotalItems: u32,
    /// Bytes still needed.
    pub needBytes: u16,
    /// Deletions still needed.
    pub needDeletes: u16,
    /// Directories still needed.
    pub needDirectories: u16,
    /// Files still needed.
    pub needFiles: u16,
    /// Symlinks still needed.
    pub needSymlinks: u16,
    /// Items still needed.
    pub needTotalItems: u16,
    /// Pull errors seen.
    pub pullErrors: u16,
    /// Changed bytes on a receive-only folder.
    pub receiveOnlyChangedBytes: u16,
    /// Changed deletions on a receive-only folder.
    pub receiveOnlyChangedDeletes: u16,
    /// Changed directories on a receive-only folder.
    pub receiveOnlyChangedDirectories: u16,
    /// Changed files on a receive-only folder.
    pub receiveOnlyChangedFiles: u16,
    /// Changed symlinks on a receive-only folder.
    pub receiveOnlyChangedSymlinks: u16,
    /// Changed items on a receive-only folder.
    pub receiveOnlyTotalItems: u16,
    /// The folder's sequence number.
    pub sequence: u16,
    /// The folder's state, as text.
    pub state: String,
    /// When the state last changed.
    pub stateChanged: String,
    /// The record's version.
    pub version: u16,
    /// The watcher's error, as text.
    pub watchError: String,
}

/// A folder's filesystem watcher changed state.
#[derive(Debug, Clone, Default)]
pub struct FolderWatchStateChanged {
    /// The folder concerned.
    pub folder: String,
    /// The state left.
    pub from: String,
    /// The state entered.
    pub to: String,
}

/// An item finished syncing.
#[derive(Debug, Clone, Default)]
pub struct ItemFinished {
    /// What was done to it.
    pub action: String,
    /// The error, if the item failed.
    pub error: Option<String>,
    /// The folder concerned.
    pub folder: String,
    /// The item concerned.
    pub item: String,
    /// The item's kind.
    pub item_type: String,
}

/// An item started syncing.
#[derive(Debug, Clone, Default)]
pub struct ItemStarted {
    /// The item concerned.
    pub item: String,
    /// The folder concerned.
    pub folder: String,
    /// The item's kind.
    pub item_type: String,
    /// What is being done to it.
    pub action: String,
}

/// One address the daemon listens on.
#[allow(non_snake_case)]
#[derive(Debug, Clone, Default)]
pub struct ListenAddress {
    /// The fragment part.
    pub Fragment: String,
    /// The raw query part.
    pub RawQuery: String,
    /// The scheme.
    pub Scheme: String,
    /// The path part.
    pub Path: String,
    /// The raw path part.
    pub RawPath: String,
    /// The user part, if any.
    pub User: Option<String>,
    /// Whether a query is forced.
    pub ForceQuery: bool,
    /// The host part.
    pub Host: String,
    /// The opaque part.
    pub Opaque: String,
}

/// The set of listen addresses changed.
#[derive(Debug, Clone, Default)]
pub struct ListenAddressChanged {
    /// The address concerned.
    pub address: ListenAddress,
    /// The wan-side addresses.
    pub wan: Vec<ListenAddress>,
    /// The lan-side addresses.
    pub lan: Vec<ListenAddress>,
}

/// A local change was detected.
#[allow(non_snake_case)]
#[derive(Debug, Clone, Default)]
pub struct LocalChangeDetected {
    /// What was done.
    pub action: String,
    /// The folder's label.
    pub folder: String,
    /// The folder's id.
    pub folderID: String,
    /// The folder's label, again.
    pub label: String,
    /// The path concerned.
    pub path: String,
    /// The item's kind.
    pub item_type: String,
}

/// Someone tried to log in to the web interface.
#[allow(non_snake_case)]
#[derive(Debug, Clone, Default)]
pub struct LoginAttempt {
    /// Where from.
    pub remoteAddress: String,
    /// The name tried.
    pub username: String,
    /// Whether it worked.
    pub success: bool,
}

/// A device asks to be added.
#[allow(non_snake_case)]
#[derive(Debug, Clone, Default)]
pub struct DeviceAdd {
    /// The device's address.
    pub address: String,
    /// The device's id.
    pub deviceID: String,
    /// The device's name.
    pub name: String,
}

/// A pending device was removed.
#[allow(non_snake_case)]
#[derive(Debug, Clone, Default)]
pub struct DeviceRemove {
    /// The device's id.
    pub deviceID: String,
}

/// A folder asks to be added.
#[allow(non_snake_case)]
#[derive(Debug, Clone, Default)]
pub struct FolderAdd {
    /// The offering device.
    pub deviceID: String,
    /// The folder's id.
    pub folderID: String,
    /// The folder's label.
    pub folderLabel: String,
    /// Whether it is received encrypted.
    pub receiveEncrypted: String,
    /// Whether the remote is encrypted.
    pub remoteEncrypted: String,
}

/// A pending folder was removed, for one device.
#[allow(non_snake_case)]
#[derive(Debug, Clone, Default)]
pub struct FolderRemovePending {
    /// The device concerned.
    pub deviceID: String,
    /// The folder's id.
    pub folderID: String,
}

/// A pending folder was removed outright.
#[allow(non_snake_case)]
#[derive(Debug, Clone, Default)]
pub struct FolderRemoveNotPending {
    /// The folder's id.
    pub folderID: String,
}

/// Either way a pending folder can go away.
#[derive(Debug, Clone)]
pub enum FolderRemove {
    /// Removed for one device.
    FolderRemovePending(FolderRemovePending),
    /// Removed outright.
    FolderRemoveNotPending(FolderRemoveNotPending),
}

/// The set of pending folders changed.
#[derive(Debug, Clone, Default)]
pub struct PendingFoldersChanged {
    /// Folders now offered.
    pub added: Vec<FolderAdd>,
    /// Folders no longer offered.
    pub removed: Vec<FolderRemove>,
}

/// The set of pending devices changed.
#[derive(Debug, Clone, Default)]
pub struct PendingDevicesChanged {
    /// Devices now asking.
    pub added: Vec<DeviceAdd>,
    /// Devices no longer asking.
    pub removed: Vec<DeviceRemove>,
}

/// A remote change was detected.
#[allow(non_snake_case)]
#[derive(Debug, Clone, Default)]
pub struct RemoteChangeDetected {
    /// The item's kind.
    pub item_type: String,
    /// What was done.
    pub action: String,
    /// The folder's label.
    pub folder: String,
    /// The folder's id.
    pub folderID: String,
    /// The path concerned.
    pub path: String,
    /// The folder's label, again.
    pub label: String,
    /// Which device changed it.
    pub modifiedBy: String,
}

/// A remote device's index advanced.
#[derive(Debug, Clone, Default)]
pub struct RemoteIndexUpdated {
    /// The device concerned.
    pub device: String,
    /// The folder concerned.
    pub folder: String,
    /// How many items changed.
    pub items: u16,
}

/// The daemon is starting.
#[derive(Debug, Clone, Default)]
pub struct Starting {
    /// The daemon's home dir.
    pub home: String,
}

/// What state a folder is in.
#[derive(Debug, Clone, Copy, PartialEq, Eq, Structural)]
pub enum FolderState {
    /// Nothing is being transferred.
    Idle,
    /// A transfer is in flight.
    Syncing,
}

/// The payload of an event, by kind.
#[derive(Debug, Clone)]
pub enum EventTypes {
    /// A device connected.
    DeviceConnected(DeviceConnected),
    /// A device disconnected.
    DeviceDisconnected(DeviceDisconnected),
    /// A cluster configuration arrived.
    ClusterConfigReceived(ClusterConfigReceived),
    /// Transfer progress by file.
    DownloadProgress(DownloadProgress),
    /// A failure report.
    Failure(Failure),
    /// Completion of a folder on a device.
    FolderCompletion(FolderCompletion),
    /// The errors of a folder.
    FolderErrors(FolderErrors),
    /// A folder was paused.
    FolderPaused(FolderPaused),
    /// A folder was resumed.
    FolderResumed(FolderResumed),
    /// Scan progress of a folder.
    FolderScanProgress(FolderScanProgress),
    /// A folder's summary changed.
    FolderSummary(FolderSummary),
    /// A folder's watcher changed state.
    FolderWatchStateChanged(FolderWatchStateChanged),
    /// An item finished syncing.
    ItemFinished(ItemFinished),
    /// An item started syncing.
    ItemStarted(ItemStarted),
    /// The listen addresses changed.
    ListenAddressChanged(ListenAddressChanged),
    /// A local change was detected.
    LocalChangeDetected(LocalChangeDetected),
    /// A folder's local index advanced.
    LocalIndexUpdated(LocalIndexUpdated),
    /// A login was attempted.
    LoginAttempt(LoginAttempt),
    /// The pending devices changed.
    PendingDevicesChanged(PendingDevicesChanged),
    /// A remote change was detected.
    RemoteChangeDetected(RemoteChangeDetected),
    /// A remote device's index advanced.
    RemoteIndexUpdated(RemoteIndexUpdated),
    /// The daemon is starting.
    Starting(Starting),
}

/// The name of an event kind, as the feed writes it.
pub open spec fn event_type_name(e: EventTypes) -> Seq<char> {
    match e {
        EventTypes::DeviceConnected(_) => "DeviceConnected"@,
        EventTypes::DeviceDisconnected(_) => "DeviceDisconnected"@,
        EventTypes::ClusterConfigReceived(_) => "ClusterConfigReceived"@,
        EventTypes::DownloadProgress(_) => "DownloadProgress"@,
        EventTypes::Failure(_) => "Failure"@,
        EventTypes::FolderCompletion(_) => "FolderCompletion"@,
        EventTypes::FolderErrors(_) => "FolderErrors"@,
        EventTypes::FolderPaused(_) => "FolderPaused"@,
        EventTypes::FolderResumed(_) => "FolderResumed"@,
        EventTypes::FolderScanProgress(_) => "FolderScanProgress"@,
        EventTypes::FolderSummary(_) => "FolderSummary"@,
        EventTypes::FolderWatchStateChanged(_) => "FolderWatchStateChanged"@,
        EventTypes::ItemFinished(_) => "ItemFinished"@,
        EventTypes::ItemStarted(_) => "ItemStarted"@,
        EventTypes::ListenAddressChanged(_) => "ListenAddressChanged"@,
        EventTypes::LocalChangeDetected(_) => "LocalChangeDetected"@,
        EventTypes::LocalIndexUpdated(_) => "LocalIndexUpdated"@,
        EventTypes::LoginAttempt(_) => "LoginAttempt"@,
        EventTypes::PendingDevicesChanged(_) => "PendingDevicesChanged"@,
        EventTypes::RemoteChangeDetected(_) => "RemoteChangeDetected"@,
        EventTypes::RemoteIndexUpdated(_) => "RemoteIndexUpdated"@,
        EventTypes::Starting(_) => "Starting"@,
    }
}

impl EventTypes {
    /// The name of this event kind, as the feed writes it.
    pub fn kind_name(&self) -> (r: &'static str)
        ensures
            r@ == event_type_name(*self),
    {
        match self {
            EventTypes::DeviceConnected(_) => "DeviceConnected",
            EventTypes::DeviceDisconnected(_) => "DeviceDisconnected",
            EventTypes::ClusterConfigReceived(_) => "ClusterConfigReceived",
            EventTypes::DownloadProgress(_) => "DownloadProgress",
            EventTypes::Failure(_) => "Failure",
            EventTypes::FolderCompletion(_) => "FolderCompletion",
            EventTypes::FolderErrors(_) => "FolderErrors",
            EventTypes::FolderPaused(_) => "FolderPaused",
            EventTypes::FolderResumed(_) => "FolderResumed",
            EventTypes::FolderScanProgress(_) => "FolderScanProgress",
            EventTypes::FolderSummary(_) => "FolderSummary",
            EventTypes::FolderWatchStateChanged(_) => "FolderWatchStateChanged",
            EventTypes::ItemFinished(_) => "ItemFinished",
            EventTypes::ItemStarted(_) => "ItemStarted",
            EventTypes::ListenAddressChanged(_) => "ListenAddressChanged",
            EventTypes::LocalChangeDetected(_) => "LocalChangeDetected",
            EventTypes::LocalIndexUpdated(_) => "LocalIndexUpdated",
            EventTypes::LoginAttempt(_) => "LoginAttempt",
            EventTypes::PendingDevicesChanged(_) => "PendingDevicesChanged",
            EventTypes::RemoteChangeDetected(_) => "RemoteChangeDetected",
            EventTypes::RemoteIndexUpdated(_) => "RemoteIndexUpdated",
            EventTypes::Starting(_) => "Starting",
        }
    }
}

/// The folder state a summary's state text names, if any.
pub open spec fn folder_state_of(s: Seq<char>) -> Option<FolderState> {
    if s == "idle"@ {
        Some(FolderState::Idle)
    } else if s == "syncing"@ {
        Some(FolderState::Syncing)
    } else {
        None
    }
}

impl FolderState {
    /// Reads a folder state from its lower-case name.
    pub fn from_str(s: &str) -> (r: Option<FolderState>)
        ensures
            match r {
                Some(st) => folder_state_of(s@) == Some(st),
                None => folder_state_of(s@) is None,
            },
    {
        if crate::text::str_eq(s, "idle") {
            Some(FolderState::Idle)
        } else if crate::text::str_eq(s, "syncing") {
            Some(FolderState::Syncing)
        } else {
            None
        }
    }
}

} // verus!

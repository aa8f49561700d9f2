//! Enumerations and structures of the Compute API, with their wire names.

use std::collections::HashMap;

use vstd::prelude::*;
use vstd::string::StringExecFns;

use crate::common::protocol::Link;

verus! {

/// Whether two strings hold the same text.
fn same_text(a: &str, b: &str) -> (same: bool)
    ensures
        same == (a@ == b@),
{
    let x = a.as_bytes();
    let y = b.as_bytes();
    proof {
        vstd::utf8::encode_utf8_decode_utf8(a@);
        vstd::utf8::encode_utf8_decode_utf8(b@);
    }
    if x.len() != y.len() {
        return false;
    }
    let mut i: usize = 0;
    while i < x.len()
        invariant
            x@ == vstd::utf8::encode_utf8(a@),
            y@ == vstd::utf8::encode_utf8(b@),
            x.len() == y.len(),
            i <= x.len(),
            forall|j: int| 0 <= j < i ==> x@[j] == y@[j],
        decreases x.len() - i,
    {
        if x[i] != y[i] {
            return false;
        }
        i += 1;
    }
    assert(x@ =~= y@);
    true
}

/// Available sort keys.
#[non_exhaustive]
#[derive(Debug, Copy, Clone, PartialEq, Eq, Structural)]
pub enum ServerSortKey {
    AccessIpv4,
    AccessIpv6,
    AutoDiskConfig,
    AvailabilityZone,
    ConfigDrive,
    CreatedAt,
    DisplayDescription,
    DisplayName,
    Host,
    HostName,
    ImageRef,
    InstanceTypeId,
    KernelId,
    KeyName,
    LaunchIndex,
    LaunchedAt,
    LockedBy,
    Node,
    PowerState,
    Progress,
    ProjectId,
    RamdiskId,
    RootDeviceName,
    TaskState,
    TerminatedAt,
    UpdatedAt,
    UserId,
    Uuid,
    VmState,
}

impl ServerSortKey {
    /// The name under which the service knows this key.
    pub open spec fn wire_name(self) -> Seq<char> {
        match self {
            ServerSortKey::AccessIpv4 => "access_ip_v4"@,
            ServerSortKey::AccessIpv6 => "access_ip_v6"@,
            ServerSortKey::AutoDiskConfig => "auto_disk_config"@,
            ServerSortKey::AvailabilityZone => "availability_zone"@,
            ServerSortKey::ConfigDrive => "config_drive"@,
            ServerSortKey::CreatedAt => "created_at"@,
            ServerSortKey::DisplayDescription => "display_description"@,
            ServerSortKey::DisplayName => "display_name"@,
            ServerSortKey::Host => "host"@,
            ServerSortKey::HostName => "hostname"@,
            ServerSortKey::ImageRef => "image_ref"@,
            ServerSortKey::InstanceTypeId => "instance_type_id"@,
            ServerSortKey::KernelId => "kernel_id"@,
            ServerSortKey::KeyName => "key_name"@,
            ServerSortKey::LaunchIndex => "launch_index"@,
            ServerSortKey::LaunchedAt => "launched_at"@,
            ServerSortKey::LockedBy => "locked_by"@,
            ServerSortKey::Node => "node"@,
            ServerSortKey::PowerState => "power_state"@,
            ServerSortKey::Progress => "progress"@,
            ServerSortKey::ProjectId => "project_id"@,
            ServerSortKey::RamdiskId => "ramdisk_id"@,
            ServerSortKey::RootDeviceName => "root_device_name"@,
            ServerSortKey::TaskState => "task_state"@,
            ServerSortKey::TerminatedAt => "terminated_at"@,
            ServerSortKey::UpdatedAt => "updated_at"@,
            ServerSortKey::UserId => "user_id"@,
            ServerSortKey::Uuid => "uuid"@,
            ServerSortKey::VmState => "vm_state"@,
        }
    }

    /// The key that a wire name stands for, if it is the name of a key.
    pub open spec fn from_wire(name: Seq<char>) -> Option<ServerSortKey> {
        if exists|key: ServerSortKey| key.wire_name() == name {
            Some(choose|key: ServerSortKey| key.wire_name() == name)
        } else {
            None
        }
    }

    /// The name under which the service knows this key.
    pub fn as_str(&self) -> (name: &'static str)
        ensures
            name@ == self.wire_name(),
    {
        match *self {
            ServerSortKey::AccessIpv4 => "access_ip_v4",
            ServerSortKey::AccessIpv6 => "access_ip_v6",
            ServerSortKey::AutoDiskConfig => "auto_disk_config",
            ServerSortKey::AvailabilityZone => "availability_zone",
            ServerSortKey::ConfigDrive => "config_drive",
            ServerSortKey::CreatedAt => "created_at",
            ServerSortKey::DisplayDescription => "display_description",
            ServerSortKey::DisplayName => "display_name",
            ServerSortKey::Host => "host",
            ServerSortKey::HostName => "hostname",
            ServerSortKey::ImageRef => "image_ref",
            ServerSortKey::InstanceTypeId => "instance_type_id",
            ServerSortKey::KernelId => "kernel_id",
            ServerSortKey::KeyName => "key_name",
            ServerSortKey::LaunchIndex => "launch_index",
            ServerSortKey::LaunchedAt => "launched_at",
            ServerSortKey::LockedBy => "locked_by",
            ServerSortKey::Node => "node",
            ServerSortKey::PowerState => "power_state",
            ServerSortKey::Progress => "progress",
            ServerSortKey::ProjectId => "project_id",
            ServerSortKey::RamdiskId => "ramdisk_id",
            ServerSortKey::RootDeviceName => "root_device_name",
            ServerSortKey::TaskState => "task_state",
            ServerSortKey::TerminatedAt => "terminated_at",
            ServerSortKey::UpdatedAt => "updated_at",
            ServerSortKey::UserId => "user_id",
            ServerSortKey::Uuid => "uuid",
            ServerSortKey::VmState => "vm_state",
        }
    }
}

impl From<ServerSortKey> for String {
    /// The wire name of the key, as an owned string.
    fn from(key: ServerSortKey) -> (name: String)
        ensures
            name@ == key.wire_name(),
    {
        String::from_str(key.as_str())
    }
}

/// Two strings with the same text need not be the same value to the prover,
/// so the conversion is stated on `from` itself, over the text.
impl vstd::std_specs::convert::FromSpecImpl<ServerSortKey> for String {
    open spec fn obeys_from_spec() -> bool {
        false
    }

    open spec fn from_spec(key: ServerSortKey) -> String {
        arbitrary()
    }
}

/// All possible server statuses.
#[non_exhaustive]
#[derive(Debug, Copy, Clone, PartialEq, Eq, Structural)]
pub enum ServerStatus {
    Active,
    Building,
    Deleted,
    Error,
    HardRebooting,
    Migrating,
    Paused,
    Rebooting,
    Resizing,
    RevertingResize,
    ShutOff,
    Suspended,
    Rescuing,
    Shelved,
    ShelvedOffloaded,
    SoftDeleted,
    Unknown,
    UpdatingPassword,
    VerifyingResize,
}

impl ServerStatus {
    /// The text that stands for this status. Every status but
    /// [`ServerStatus::Unknown`] has the name that the service gives it;
    /// `Unknown` has a placeholder that the service never sends.
    pub open spec fn wire_name(self) -> Seq<char> {
        match self {
            ServerStatus::Active => "ACTIVE"@,
            ServerStatus::Building => "BUILD"@,
            ServerStatus::Deleted => "DELETED"@,
            ServerStatus::Error => "ERROR"@,
            ServerStatus::HardRebooting => "HARD_REBOOT"@,
            ServerStatus::Migrating => "MIGRATING"@,
            ServerStatus::Paused => "PAUSED"@,
            ServerStatus::Rebooting => "REBOOT"@,
            ServerStatus::Resizing => "RESIZE"@,
            ServerStatus::RevertingResize => "REVERT_RESIZE"@,
            ServerStatus::ShutOff => "SHUTOFF"@,
            ServerStatus::Suspended => "SUSPENDED"@,
            ServerStatus::Rescuing => "RESCUE"@,
            ServerStatus::Shelved => "SHELVED"@,
            ServerStatus::ShelvedOffloaded => "SHELVED_OFFLOADED"@,
            ServerStatus::SoftDeleted => "SOFT_DELETED"@,
            ServerStatus::Unknown => "<UNKNOWN>"@,
            ServerStatus::UpdatingPassword => "PASSWORD"@,
            ServerStatus::VerifyingResize => "VERIFY_RESIZE"@,
        }
    }

    /// Whether `s` reads, character by character, as the name of this
    /// status.
    pub open spec fn is_named(self, s: Seq<char>) -> bool {
        match self {
            ServerStatus::Active => {
                s.len() == 6 && s[0] == 'A' && s[1] == 'C' && s[2] == 'T' && s[3] == 'I'
                    && s[4] == 'V' && s[5] == 'E'
            },
            ServerStatus::Building => {
                s.len() == 5 && s[0] == 'B' && s[1] == 'U' && s[2] == 'I' && s[3] == 'L'
                    && s[4] == 'D'
            },
            ServerStatus::Deleted => {
                s.len() == 7 && s[0] == 'D' && s[1] == 'E' && s[2] == 'L' && s[3] == 'E'
                    && s[4] == 'T' && s[5] == 'E' && s[6] == 'D'
            },
            ServerStatus::Error => {
                s.len() == 5 && s[0] == 'E' && s[1] == 'R' && s[2] == 'R' && s[3] == 'O'
                    && s[4] == 'R'
            },
            ServerStatus::HardRebooting => {
                s.len() == 11 && s[0] == 'H' && s[1] == 'A' && s[2] == 'R'
                    && s[3] == 'D' && s[4] == '_' && s[5] == 'R' && s[6] == 'E' && s[7] == 'B'
                    && s[8] == 'O' && s[9] == 'O' && s[10] == 'T'
            },
            ServerStatus::Migrating => {
                s.len() == 9 && s[0] == 'M' && s[1] == 'I' && s[2] == 'G' && s[3] == 'R'
                    && s[4] == 'A' && s[5] == 'T' && s[6] == 'I' && s[7] == 'N' && s[8] == 'G'
            },
            ServerStatus::Paused => {
                s.len() == 6 && s[0] == 'P' && s[1] == 'A' && s[2] == 'U' && s[3] == 'S'
                    && s[4] == 'E' && s[5] == 'D'
            },
            ServerStatus::Rebooting => {
                s.len() == 6 && s[0] == 'R' && s[1] == 'E' && s[2] == 'B' && s[3] == 'O'
                    && s[4] == 'O' && s[5] == 'T'
            },
            ServerStatus::Resizing => {
                s.len() == 6 && s[0] == 'R' && s[1] == 'E' && s[2] == 'S' && s[3] == 'I'
                    && s[4] == 'Z' && s[5] == 'E'
            },
            ServerStatus::RevertingResize => {
                s.len() == 13 && s[0] == 'R' && s[1] == 'E' && s[2] == 'V'
                    && s[3] == 'E' && s[4] == 'R' && s[5] == 'T' && s[6] == '_' && s[7] == 'R'
                    && s[8] == 'E' && s[9] == 'S' && s[10] == 'I' && s[11] == 'Z'
                    && s[12] == 'E'
            },
            ServerStatus::ShutOff => {
                s.len() == 7 && s[0] == 'S' && s[1] == 'H' && s[2] == 'U' && s[3] == 'T'
                    && s[4] == 'O' && s[5] == 'F' && s[6] == 'F'
            },
            ServerStatus::Suspended => {
                s.len() == 9 && s[0] == 'S' && s[1] == 'U' && s[2] == 'S' && s[3] == 'P'
                    && s[4] == 'E' && s[5] == 'N' && s[6] == 'D' && s[7] == 'E' && s[8] == 'D'
            },
            ServerStatus::Rescuing => {
                s.len() == 6 && s[0] == 'R' && s[1] == 'E' && s[2] == 'S' && s[3] == 'C'
                    && s[4] == 'U' && s[5] == 'E'
            },
            ServerStatus::Shelved => {
                s.len() == 7 && s[0] == 'S' && s[1] == 'H' && s[2] == 'E' && s[3] == 'L'
                    && s[4] == 'V' && s[5] == 'E' && s[6] == 'D'
            },
            ServerStatus::ShelvedOffloaded => {
                s.len() == 17 && s[0] == 'S' && s[1] == 'H' && s[2] == 'E'
                    && s[3] == 'L' && s[4] == 'V' && s[5] == 'E' && s[6] == 'D' && s[7] == '_'
                    && s[8] == 'O' && s[9] == 'F' && s[10] == 'F' && s[11] == 'L'
                    && s[12] == 'O' && s[13] == 'A' && s[14] == 'D' && s[15] == 'E'
                    && s[16] == 'D'
            },
            ServerStatus::SoftDeleted => {
                s.len() == 12 && s[0] == 'S' && s[1] == 'O' && s[2] == 'F'
                    && s[3] == 'T' && s[4] == '_' && s[5] == 'D' && s[6] == 'E' && s[7] == 'L'
                    && s[8] == 'E' && s[9] == 'T' && s[10] == 'E' && s[11] == 'D'
            },
            ServerStatus::Unknown => {
                s.len() == 9 && s[0] == '<' && s[1] == 'U' && s[2] == 'N' && s[3] == 'K'
                    && s[4] == 'N' && s[5] == 'O' && s[6] == 'W' && s[7] == 'N' && s[8] == '>'
            },
            ServerStatus::UpdatingPassword => {
                s.len() == 8 && s[0] == 'P' && s[1] == 'A' && s[2] == 'S' && s[3] == 'S'
                    && s[4] == 'W' && s[5] == 'O' && s[6] == 'R' && s[7] == 'D'
            },
            ServerStatus::VerifyingResize => {
                s.len() == 13 && s[0] == 'V' && s[1] == 'E' && s[2] == 'R'
                    && s[3] == 'I' && s[4] == 'F' && s[5] == 'Y' && s[6] == '_' && s[7] == 'R'
                    && s[8] == 'E' && s[9] == 'S' && s[10] == 'I' && s[11] == 'Z'
                    && s[12] == 'E'
            },
        }
    }

    /// The status that a wire string stands for. Any string that is not the
    /// name of a known status stands for [`ServerStatus::Unknown`].
    pub open spec fn from_wire(s: Seq<char>) -> ServerStatus {
        if ServerStatus::Active.is_named(s) {
            ServerStatus::Active
        } else if ServerStatus::Building.is_named(s) {
            ServerStatus::Building
        } else if ServerStatus::Deleted.is_named(s) {
            ServerStatus::Deleted
        } else if ServerStatus::Error.is_named(s) {
            ServerStatus::Error
        } else if ServerStatus::HardRebooting.is_named(s) {
            ServerStatus::HardRebooting
        } else if ServerStatus::Migrating.is_named(s) {
            ServerStatus::Migrating
        } else if ServerStatus::Paused.is_named(s) {
            ServerStatus::Paused
        } else if ServerStatus::Rebooting.is_named(s) {
            ServerStatus::Rebooting
        } else if ServerStatus::Resizing.is_named(s) {
            ServerStatus::Resizing
        } else if ServerStatus::RevertingResize.is_named(s) {
            ServerStatus::RevertingResize
        } else if ServerStatus::ShutOff.is_named(s) {
            ServerStatus::ShutOff
        } else if ServerStatus::Suspended.is_named(s) {
            ServerStatus::Suspended
        } else if ServerStatus::Rescuing.is_named(s) {
            ServerStatus::Rescuing
        } else if ServerStatus::Shelved.is_named(s) {
            ServerStatus::Shelved
        } else if ServerStatus::ShelvedOffloaded.is_named(s) {
            ServerStatus::ShelvedOffloaded
        } else if ServerStatus::SoftDeleted.is_named(s) {
            ServerStatus::SoftDeleted
        } else if ServerStatus::UpdatingPassword.is_named(s) {
            ServerStatus::UpdatingPassword
        } else if ServerStatus::VerifyingResize.is_named(s) {
            ServerStatus::VerifyingResize
        } else {
            ServerStatus::Unknown
        }
    }

    /// The text that stands for this status.
    pub fn as_str(&self) -> (name: &'static str)
        ensures
            name@ == self.wire_name(),
    {
        match *self {
            ServerStatus::Active => "ACTIVE",
            ServerStatus::Building => "BUILD",
            ServerStatus::Deleted => "DELETED",
            ServerStatus::Error => "ERROR",
            ServerStatus::HardRebooting => "HARD_REBOOT",
            ServerStatus::Migrating => "MIGRATING",
            ServerStatus::Paused => "PAUSED",
            ServerStatus::Rebooting => "REBOOT",
            ServerStatus::Resizing => "RESIZE",
            ServerStatus::RevertingResize => "REVERT_RESIZE",
            ServerStatus::ShutOff => "SHUTOFF",
            ServerStatus::Suspended => "SUSPENDED",
            ServerStatus::Rescuing => "RESCUE",
            ServerStatus::Shelved => "SHELVED",
            ServerStatus::ShelvedOffloaded => "SHELVED_OFFLOADED",
            ServerStatus::SoftDeleted => "SOFT_DELETED",
            ServerStatus::Unknown => "<UNKNOWN>",
            ServerStatus::UpdatingPassword => "PASSWORD",
            ServerStatus::VerifyingResize => "VERIFY_RESIZE",
        }
    }

    /// The text that stands for this status, as an owned string.
    pub fn to_string(&self) -> (name: String)
        ensures
            name@ == self.wire_name(),
    {
        String::from_str(self.as_str())
    }
}

impl Default for ServerStatus {
    fn default() -> (status: ServerStatus)
        ensures
            status == ServerStatus::Unknown,
    {
        ServerStatus::Unknown
    }
}

/// Decodes a server status from its wire string. Never fails: a string that
/// names no known status decodes to [`ServerStatus::Unknown`], so that a
/// status added on the service side does not break the client.
pub fn de_server_status(s: &str) -> (status: ServerStatus)
    ensures
        status == ServerStatus::from_wire(s@),
{
    proof {
        assert forall|known: ServerStatus| #[trigger]
            known.is_named(s@) <==> s@ == known.wire_name() by {
            lemma_status_named_by_wire_name(known, s@);
        }
    }
    if same_text(s, "ACTIVE") {
        ServerStatus::Active
    } else if same_text(s, "BUILD") {
        ServerStatus::Building
    } else if same_text(s, "DELETED") {
        ServerStatus::Deleted
    } else if same_text(s, "ERROR") {
        ServerStatus::Error
    } else if same_text(s, "HARD_REBOOT") {
        ServerStatus::HardRebooting
    } else if same_text(s, "MIGRATING") {
        ServerStatus::Migrating
    } else if same_text(s, "PAUSED") {
        ServerStatus::Paused
    } else if same_text(s, "REBOOT") {
        ServerStatus::Rebooting
    } else if same_text(s, "RESIZE") {
        ServerStatus::Resizing
    } else if same_text(s, "REVERT_RESIZE") {
        ServerStatus::RevertingResize
    } else if same_text(s, "SHUTOFF") {
        ServerStatus::ShutOff
    } else if same_text(s, "SUSPENDED") {
        ServerStatus::Suspended
    } else if same_text(s, "RESCUE") {
        ServerStatus::Rescuing
    } else if same_text(s, "SHELVED") {
        ServerStatus::Shelved
    } else if same_text(s, "SHELVED_OFFLOADED") {
        ServerStatus::ShelvedOffloaded
    } else if same_text(s, "SOFT_DELETED") {
        ServerStatus::SoftDeleted
    } else if same_text(s, "PASSWORD") {
        ServerStatus::UpdatingPassword
    } else if same_text(s, "VERIFY_RESIZE") {
        ServerStatus::VerifyingResize
    } else {
        Default::default()
    }
}

/// Type of a server address.
#[derive(Clone, Copy, Debug, PartialEq, Eq, Structural)]
pub enum AddressType {
    Fixed,
    Floating,
    Unknown,
}

impl AddressType {
    /// The address type that a wire string stands for: `fixed`, `floating`,
    /// and for any other string [`AddressType::Unknown`].
    pub open spec fn from_wire(s: Seq<char>) -> AddressType {
        if s.len() == 5 && s[0] == 'f' && s[1] == 'i' && s[2] == 'x' && s[3] == 'e'
            && s[4] == 'd' {
            AddressType::Fixed
        } else if s.len() == 8 && s[0] == 'f' && s[1] == 'l' && s[2] == 'o' && s[3] == 'a'
            && s[4] == 't' && s[5] == 'i' && s[6] == 'n' && s[7] == 'g' {
            AddressType::Floating
        } else {
            AddressType::Unknown
        }
    }
}

impl Default for AddressType {
    fn default() -> (t: AddressType)
        ensures
            t == AddressType::Unknown,
    {
        AddressType::Unknown
    }
}

/// Decodes the type of an address from its wire string. Never fails: a
/// string that names no known type decodes to [`AddressType::Unknown`].
pub fn de_address_type(s: &str) -> (t: AddressType)
    ensures
        t == AddressType::from_wire(s@),
{
    proof {
        lemma_address_type_named_by_wire_name(s@);
    }
    if same_text(s, "fixed") {
        AddressType::Fixed
    } else if same_text(s, "floating") {
        AddressType::Floating
    } else {
        Default::default()
    }
}

/// An IP address, version 4 or version 6, as its octets in network order.
#[derive(Clone, Copy, Debug, PartialEq, Eq)]
pub enum IpAddress {
    V4([u8; 4]),
    V6([u8; 16]),
}

/// A point in time, together with the offset of the clock that recorded it.
#[derive(Clone, Copy, Debug, PartialEq, Eq)]
pub struct Timestamp {
    /// Whole seconds since the start of 1970 in UTC.
    pub seconds: i64,
    /// Nanoseconds past the whole second.
    pub nanoseconds: u32,
    /// Offset of the recording clock, in seconds east of UTC.
    pub offset: i32,
}

/// Address of a server.
#[derive(Clone, Debug, PartialEq, Eq)]
pub struct ServerAddress {
    /// IP (v4 of v6) address.
    pub addr: IpAddress,
    /// MAC address (if available).
    pub mac_addr: Option<String>,
    /// Address type (if known).
    pub addr_type: AddressType,
}

/// A reference to another resource.
#[derive(Clone, Debug, PartialEq, Eq)]
pub struct Ref {
    /// The identifier of the resource.
    pub id: String,
    /// Links to the resource.
    pub links: Vec<Link>,
}

/// A server in full.
#[allow(non_snake_case)]
#[derive(Clone, Debug, PartialEq, Eq)]
pub struct Server {
    /// The octets of the IPv4 address to reach the server at, if it has one.
    pub accessIPv4: Option<[u8; 4]>,
    /// The octets of the IPv6 address to reach the server at, if it has one.
    pub accessIPv6: Option<[u8; 16]>,
    /// The addresses of the server, by the name of their network.
    pub addresses: HashMap<String, Vec<ServerAddress>>,
    /// The availability zone that hosts the server.
    pub availability_zone: String,
    /// When the server was created.
    pub created: Timestamp,
    /// The identifier of the server.
    pub id: String,
    /// The image that the server was built from, if any.
    pub image: Option<Ref>,
    /// The name of the server.
    pub name: String,
    /// The status of the server.
    pub status: ServerStatus,
    /// The project that owns the server.
    pub tenant_id: String,
    /// When the server was last updated.
    pub updated: Timestamp,
    /// The user that owns the server.
    pub user_id: String,
}

/// A server as a listing names it.
#[derive(Clone, Debug, PartialEq, Eq)]
pub struct ServerSummary {
    /// The identifier of the server.
    pub id: String,
    /// The name of the server.
    pub name: String,
}

/// The envelope of a listing of servers.
#[derive(Clone, Debug, PartialEq, Eq)]
pub struct ServersRoot {
    /// The servers, in the order of the listing.
    pub servers: Vec<ServerSummary>,
}

/// The envelope of a detailed listing of servers.
#[derive(Clone, Debug, PartialEq, Eq)]
pub struct ServersDetailRoot {
    /// The servers, in the order of the listing.
    pub servers: Vec<Server>,
}

/// The envelope of a single server.
#[derive(Clone, Debug, PartialEq, Eq)]
pub struct ServerRoot {
    /// The server.
    pub server: Server,
}

/// The length and the characters of every status name.
proof fn lemma_status_names_spelled()
    ensures
        "ACTIVE"@.len() == 6,
        "ACTIVE"@[0] == 'A' && "ACTIVE"@[1] == 'C' && "ACTIVE"@[2] == 'T' && "ACTIVE"@[3] == 'I',
        "ACTIVE"@[4] == 'V' && "ACTIVE"@[5] == 'E',
        "BUILD"@.len() == 5,
        "BUILD"@[0] == 'B' && "BUILD"@[1] == 'U' && "BUILD"@[2] == 'I' && "BUILD"@[3] == 'L',
        "BUILD"@[4] == 'D',
        "DELETED"@.len() == 7,
        "DELETED"@[0] == 'D' && "DELETED"@[1] == 'E' && "DELETED"@[2] == 'L' && "DELETED"@[3] == 'E',
        "DELETED"@[4] == 'T' && "DELETED"@[5] == 'E' && "DELETED"@[6] == 'D',
        "ERROR"@.len() == 5,
        "ERROR"@[0] == 'E' && "ERROR"@[1] == 'R' && "ERROR"@[2] == 'R' && "ERROR"@[3] == 'O',
        "ERROR"@[4] == 'R',
        "HARD_REBOOT"@.len() == 11,
        "HARD_REBOOT"@[0] == 'H' && "HARD_REBOOT"@[1] == 'A' && "HARD_REBOOT"@[2] == 'R' && "HARD_REBOOT"@[3] == 'D',
        "HARD_REBOOT"@[4] == '_' && "HARD_REBOOT"@[5] == 'R' && "HARD_REBOOT"@[6] == 'E' && "HARD_REBOOT"@[7] == 'B',
        "HARD_REBOOT"@[8] == 'O' && "HARD_REBOOT"@[9] == 'O' && "HARD_REBOOT"@[10] == 'T',
        "MIGRATING"@.len() == 9,
        "MIGRATING"@[0] == 'M' && "MIGRATING"@[1] == 'I' && "MIGRATING"@[2] == 'G' && "MIGRATING"@[3] == 'R',
        "MIGRATING"@[4] == 'A' && "MIGRATING"@[5] == 'T' && "MIGRATING"@[6] == 'I' && "MIGRATING"@[7] == 'N',
        "MIGRATING"@[8] == 'G',
        "PAUSED"@.len() == 6,
        "PAUSED"@[0] == 'P' && "PAUSED"@[1] == 'A' && "PAUSED"@[2] == 'U' && "PAUSED"@[3] == 'S',
        "PAUSED"@[4] == 'E' && "PAUSED"@[5] == 'D',
        "REBOOT"@.len() == 6,
        "REBOOT"@[0] == 'R' && "REBOOT"@[1] == 'E' && "REBOOT"@[2] == 'B' && "REBOOT"@[3] == 'O',
        "REBOOT"@[4] == 'O' && "REBOOT"@[5] == 'T',
        "RESIZE"@.len() == 6,
        "RESIZE"@[0] == 'R' && "RESIZE"@[1] == 'E' && "RESIZE"@[2] == 'S' && "RESIZE"@[3] == 'I',
        "RESIZE"@[4] == 'Z' && "RESIZE"@[5] == 'E',
        "REVERT_RESIZE"@.len() == 13,
        "REVERT_RESIZE"@[0] == 'R' && "REVERT_RESIZE"@[1] == 'E' && "REVERT_RESIZE"@[2] == 'V' && "REVERT_RESIZE"@[3] == 'E',
        "REVERT_RESIZE"@[4] == 'R' && "REVERT_RESIZE"@[5] == 'T' && "REVERT_RESIZE"@[6] == '_' && "REVERT_RESIZE"@[7] == 'R',
        "REVERT_RESIZE"@[8] == 'E' && "REVERT_RESIZE"@[9] == 'S' && "REVERT_RESIZE"@[10] == 'I' && "REVERT_RESIZE"@[11] == 'Z',
        "REVERT_RESIZE"@[12] == 'E',
        "SHUTOFF"@.len() == 7,
        "SHUTOFF"@[0] == 'S' && "SHUTOFF"@[1] == 'H' && "SHUTOFF"@[2] == 'U' && "SHUTOFF"@[3] == 'T',
        "SHUTOFF"@[4] == 'O' && "SHUTOFF"@[5] == 'F' && "SHUTOFF"@[6] == 'F',
        "SUSPENDED"@.len() == 9,
        "SUSPENDED"@[0] == 'S' && "SUSPENDED"@[1] == 'U' && "SUSPENDED"@[2] == 'S' && "SUSPENDED"@[3] == 'P',
        "SUSPENDED"@[4] == 'E' && "SUSPENDED"@[5] == 'N' && "SUSPENDED"@[6] == 'D' && "SUSPENDED"@[7] == 'E',
        "SUSPENDED"@[8] == 'D',
        "RESCUE"@.len() == 6,
        "RESCUE"@[0] == 'R' && "RESCUE"@[1] == 'E' && "RESCUE"@[2] == 'S' && "RESCUE"@[3] == 'C',
        "RESCUE"@[4] == 'U' && "RESCUE"@[5] == 'E',
        "SHELVED"@.len() == 7,
        "SHELVED"@[0] == 'S' && "SHELVED"@[1] == 'H' && "SHELVED"@[2] == 'E' && "SHELVED"@[3] == 'L',
        "SHELVED"@[4] == 'V' && "SHELVED"@[5] == 'E' && "SHELVED"@[6] == 'D',
        "SHELVED_OFFLOADED"@.len() == 17,
        "SHELVED_OFFLOADED"@[0] == 'S' && "SHELVED_OFFLOADED"@[1] == 'H' && "SHELVED_OFFLOADED"@[2] == 'E' && "SHELVED_OFFLOADED"@[3] == 'L',
        "SHELVED_OFFLOADED"@[4] == 'V' && "SHELVED_OFFLOADED"@[5] == 'E' && "SHELVED_OFFLOADED"@[6] == 'D' && "SHELVED_OFFLOADED"@[7] == '_',
        "SHELVED_OFFLOADED"@[8] == 'O' && "SHELVED_OFFLOADED"@[9] == 'F' && "SHELVED_OFFLOADED"@[10] == 'F' && "SHELVED_OFFLOADED"@[11] == 'L',
        "SHELVED_OFFLOADED"@[12] == 'O' && "SHELVED_OFFLOADED"@[13] == 'A' && "SHELVED_OFFLOADED"@[14] == 'D' && "SHELVED_OFFLOADED"@[15] == 'E',
        "SHELVED_OFFLOADED"@[16] == 'D',
        "SOFT_DELETED"@.len() == 12,
        "SOFT_DELETED"@[0] == 'S' && "SOFT_DELETED"@[1] == 'O' && "SOFT_DELETED"@[2] == 'F' && "SOFT_DELETED"@[3] == 'T',
        "SOFT_DELETED"@[4] == '_' && "SOFT_DELETED"@[5] == 'D' && "SOFT_DELETED"@[6] == 'E' && "SOFT_DELETED"@[7] == 'L',
        "SOFT_DELETED"@[8] == 'E' && "SOFT_DELETED"@[9] == 'T' && "SOFT_DELETED"@[10] == 'E' && "SOFT_DELETED"@[11] == 'D',
        "PASSWORD"@.len() == 8,
        "PASSWORD"@[0] == 'P' && "PASSWORD"@[1] == 'A' && "PASSWORD"@[2] == 'S' && "PASSWORD"@[3] == 'S',
        "PASSWORD"@[4] == 'W' && "PASSWORD"@[5] == 'O' && "PASSWORD"@[6] == 'R' && "PASSWORD"@[7] == 'D',
        "VERIFY_RESIZE"@.len() == 13,
        "VERIFY_RESIZE"@[0] == 'V' && "VERIFY_RESIZE"@[1] == 'E' && "VERIFY_RESIZE"@[2] == 'R' && "VERIFY_RESIZE"@[3] == 'I',
        "VERIFY_RESIZE"@[4] == 'F' && "VERIFY_RESIZE"@[5] == 'Y' && "VERIFY_RESIZE"@[6] == '_' && "VERIFY_RESIZE"@[7] == 'R',
        "VERIFY_RESIZE"@[8] == 'E' && "VERIFY_RESIZE"@[9] == 'S' && "VERIFY_RESIZE"@[10] == 'I' && "VERIFY_RESIZE"@[11] == 'Z',
        "VERIFY_RESIZE"@[12] == 'E',
        "<UNKNOWN>"@.len() == 9,
        "<UNKNOWN>"@[0] == '<' && "<UNKNOWN>"@[1] == 'U' && "<UNKNOWN>"@[2] == 'N' && "<UNKNOWN>"@[3] == 'K',
        "<UNKNOWN>"@[4] == 'N' && "<UNKNOWN>"@[5] == 'O' && "<UNKNOWN>"@[6] == 'W' && "<UNKNOWN>"@[7] == 'N',
        "<UNKNOWN>"@[8] == '>',
{
    reveal_strlit("ACTIVE");
    reveal_strlit("BUILD");
    reveal_strlit("DELETED");
    reveal_strlit("ERROR");
    reveal_strlit("HARD_REBOOT");
    reveal_strlit("MIGRATING");
    reveal_strlit("PAUSED");
    reveal_strlit("REBOOT");
    reveal_strlit("RESIZE");
    reveal_strlit("REVERT_RESIZE");
    reveal_strlit("SHUTOFF");
    reveal_strlit("SUSPENDED");
    reveal_strlit("RESCUE");
    reveal_strlit("SHELVED");
    reveal_strlit("SHELVED_OFFLOADED");
    reveal_strlit("SOFT_DELETED");
    reveal_strlit("PASSWORD");
    reveal_strlit("VERIFY_RESIZE");
    reveal_strlit("<UNKNOWN>");
}

/// A string reads as the name of a status exactly if it is the wire name of
/// that status.
pub proof fn lemma_status_named_by_wire_name(status: ServerStatus, s: Seq<char>)
    ensures
        status.is_named(s) <==> s == status.wire_name(),
{
    lemma_status_names_spelled();
    if status.is_named(s) {
        assert(s =~= status.wire_name());
    }
}

/// A string decodes to a known address type exactly if it is the wire name
/// of that type.
pub proof fn lemma_address_type_named_by_wire_name(s: Seq<char>)
    ensures
        AddressType::from_wire(s) == AddressType::Fixed <==> s == "fixed"@,
        AddressType::from_wire(s) == AddressType::Floating <==> s == "floating"@,
{
    reveal_strlit("fixed");
    reveal_strlit("floating");
    if AddressType::from_wire(s) == AddressType::Fixed {
        assert(s =~= "fixed"@);
    }
    if AddressType::from_wire(s) == AddressType::Floating {
        assert(s =~= "floating"@);
    }
    assert("fixed"@.len() == 5 && "floating"@.len() == 8);
    assert("fixed"@[0] == 'f' && "fixed"@[1] == 'i' && "fixed"@[2] == 'x' && "fixed"@[3] == 'e'
        && "fixed"@[4] == 'd');
    assert("floating"@[0] == 'f' && "floating"@[1] == 'l' && "floating"@[2] == 'o'
        && "floating"@[3] == 'a' && "floating"@[4] == 't' && "floating"@[5] == 'i'
        && "floating"@[6] == 'n' && "floating"@[7] == 'g');
}

/// Naming a status and decoding the name gives the status back, for every
/// status: decoding is a left inverse of naming.
pub proof fn lemma_status_round_trip(status: ServerStatus)
    ensures
        ServerStatus::from_wire(status.wire_name()) == status,
{
    lemma_status_names_spelled();
}

/// Falling back is idempotent: naming what a string decoded to and decoding
/// that name gives the same status again, whether the string was recognized
/// or not.
pub proof fn lemma_status_decoding_is_idempotent(s: Seq<char>)
    ensures
        ServerStatus::from_wire(ServerStatus::from_wire(s).wire_name())
            == ServerStatus::from_wire(s),
{
    lemma_status_round_trip(ServerStatus::from_wire(s));
}

/// A string that decodes to a known status is the name of that status.
pub proof fn lemma_decoded_status_has_name(s: Seq<char>)
    requires
        ServerStatus::from_wire(s) != ServerStatus::Unknown,
    ensures
        ServerStatus::from_wire(s).wire_name() == s,
{
    lemma_status_named_by_wire_name(ServerStatus::from_wire(s), s);
}

/// Decoding falls back rather than failing: a string that is the name of no
/// status decodes to [`ServerStatus::Unknown`].
pub proof fn lemma_unrecognized_status_is_unknown(s: Seq<char>)
    requires
        forall|status: ServerStatus| #[trigger] status.wire_name() != s,
    ensures
        ServerStatus::from_wire(s) == ServerStatus::Unknown,
{
    if ServerStatus::from_wire(s) != ServerStatus::Unknown {
        lemma_decoded_status_has_name(s);
    }
}

/// The length and the characters of every sort key name.
proof fn lemma_sort_key_names_spelled()
    ensures
        "access_ip_v4"@.len() == 12,
        "access_ip_v4"@[0] == 'a' && "access_ip_v4"@[1] == 'c' && "access_ip_v4"@[2] == 'c' && "access_ip_v4"@[3] == 'e',
        "access_ip_v4"@[4] == 's' && "access_ip_v4"@[5] == 's' && "access_ip_v4"@[6] == '_' && "access_ip_v4"@[7] == 'i',
        "access_ip_v4"@[8] == 'p' && "access_ip_v4"@[9] == '_' && "access_ip_v4"@[10] == 'v' && "access_ip_v4"@[11] == '4',
        "access_ip_v6"@.len() == 12,
        "access_ip_v6"@[0] == 'a' && "access_ip_v6"@[1] == 'c' && "access_ip_v6"@[2] == 'c' && "access_ip_v6"@[3] == 'e',
        "access_ip_v6"@[4] == 's' && "access_ip_v6"@[5] == 's' && "access_ip_v6"@[6] == '_' && "access_ip_v6"@[7] == 'i',
        "access_ip_v6"@[8] == 'p' && "access_ip_v6"@[9] == '_' && "access_ip_v6"@[10] == 'v' && "access_ip_v6"@[11] == '6',
        "auto_disk_config"@.len() == 16,
        "auto_disk_config"@[0] == 'a' && "auto_disk_config"@[1] == 'u' && "auto_disk_config"@[2] == 't' && "auto_disk_config"@[3] == 'o',
        "auto_disk_config"@[4] == '_' && "auto_disk_config"@[5] == 'd' && "auto_disk_config"@[6] == 'i' && "auto_disk_config"@[7] == 's',
        "auto_disk_config"@[8] == 'k' && "auto_disk_config"@[9] == '_' && "auto_disk_config"@[10] == 'c' && "auto_disk_config"@[11] == 'o',
        "auto_disk_config"@[12] == 'n' && "auto_disk_config"@[13] == 'f' && "auto_disk_config"@[14] == 'i' && "auto_disk_config"@[15] == 'g',
        "availability_zone"@.len() == 17,
        "availability_zone"@[0] == 'a' && "availability_zone"@[1] == 'v' && "availability_zone"@[2] == 'a' && "availability_zone"@[3] == 'i',
        "availability_zone"@[4] == 'l' && "availability_zone"@[5] == 'a' && "availability_zone"@[6] == 'b' && "availability_zone"@[7] == 'i',
        "availability_zone"@[8] == 'l' && "availability_zone"@[9] == 'i' && "availability_zone"@[10] == 't' && "availability_zone"@[11] == 'y',
        "availability_zone"@[12] == '_' && "availability_zone"@[13] == 'z' && "availability_zone"@[14] == 'o' && "availability_zone"@[15] == 'n',
        "availability_zone"@[16] == 'e',
        "config_drive"@.len() == 12,
        "config_drive"@[0] == 'c' && "config_drive"@[1] == 'o' && "config_drive"@[2] == 'n' && "config_drive"@[3] == 'f',
        "config_drive"@[4] == 'i' && "config_drive"@[5] == 'g' && "config_drive"@[6] == '_' && "config_drive"@[7] == 'd',
        "config_drive"@[8] == 'r' && "config_drive"@[9] == 'i' && "config_drive"@[10] == 'v' && "config_drive"@[11] == 'e',
        "created_at"@.len() == 10,
        "created_at"@[0] == 'c' && "created_at"@[1] == 'r' && "created_at"@[2] == 'e' && "created_at"@[3] == 'a',
        "created_at"@[4] == 't' && "created_at"@[5] == 'e' && "created_at"@[6] == 'd' && "created_at"@[7] == '_',
        "created_at"@[8] == 'a' && "created_at"@[9] == 't',
        "display_description"@.len() == 19,
        "display_description"@[0] == 'd' && "display_description"@[1] == 'i' && "display_description"@[2] == 's' && "display_description"@[3] == 'p',
        "display_description"@[4] == 'l' && "display_description"@[5] == 'a' && "display_description"@[6] == 'y' && "display_description"@[7] == '_',
        "display_description"@[8] == 'd' && "display_description"@[9] == 'e' && "display_description"@[10] == 's' && "display_description"@[11] == 'c',
        "display_description"@[12] == 'r' && "display_description"@[13] == 'i' && "display_description"@[14] == 'p' && "display_description"@[15] == 't',
        "display_description"@[16] == 'i' && "display_description"@[17] == 'o' && "display_description"@[18] == 'n',
        "display_name"@.len() == 12,
        "display_name"@[0] == 'd' && "display_name"@[1] == 'i' && "display_name"@[2] == 's' && "display_name"@[3] == 'p',
        "display_name"@[4] == 'l' && "display_name"@[5] == 'a' && "display_name"@[6] == 'y' && "display_name"@[7] == '_',
        "display_name"@[8] == 'n' && "display_name"@[9] == 'a' && "display_name"@[10] == 'm' && "display_name"@[11] == 'e',
        "host"@.len() == 4,
        "host"@[0] == 'h' && "host"@[1] == 'o' && "host"@[2] == 's' && "host"@[3] == 't',
        "hostname"@.len() == 8,
        "hostname"@[0] == 'h' && "hostname"@[1] == 'o' && "hostname"@[2] == 's' && "hostname"@[3] == 't',
        "hostname"@[4] == 'n' && "hostname"@[5] == 'a' && "hostname"@[6] == 'm' && "hostname"@[7] == 'e',
        "image_ref"@.len() == 9,
        "image_ref"@[0] == 'i' && "image_ref"@[1] == 'm' && "image_ref"@[2] == 'a' && "image_ref"@[3] == 'g',
        "image_ref"@[4] == 'e' && "image_ref"@[5] == '_' && "image_ref"@[6] == 'r' && "image_ref"@[7] == 'e',
        "image_ref"@[8] == 'f',
        "instance_type_id"@.len() == 16,
        "instance_type_id"@[0] == 'i' && "instance_type_id"@[1] == 'n' && "instance_type_id"@[2] == 's' && "instance_type_id"@[3] == 't',
        "instance_type_id"@[4] == 'a' && "instance_type_id"@[5] == 'n' && "instance_type_id"@[6] == 'c' && "instance_type_id"@[7] == 'e',
        "instance_type_id"@[8] == '_' && "instance_type_id"@[9] == 't' && "instance_type_id"@[10] == 'y' && "instance_type_id"@[11] == 'p',
        "instance_type_id"@[12] == 'e' && "instance_type_id"@[13] == '_' && "instance_type_id"@[14] == 'i' && "instance_type_id"@[15] == 'd',
        "kernel_id"@.len() == 9,
        "kernel_id"@[0] == 'k' && "kernel_id"@[1] == 'e' && "kernel_id"@[2] == 'r' && "kernel_id"@[3] == 'n',
        "kernel_id"@[4] == 'e' && "kernel_id"@[5] == 'l' && "kernel_id"@[6] == '_' && "kernel_id"@[7] == 'i',
        "kernel_id"@[8] == 'd',
        "key_name"@.len() == 8,
        "key_name"@[0] == 'k' && "key_name"@[1] == 'e' && "key_name"@[2] == 'y' && "key_name"@[3] == '_',
        "key_name"@[4] == 'n' && "key_name"@[5] == 'a' && "key_name"@[6] == 'm' && "key_name"@[7] == 'e',
        "launch_index"@.len() == 12,
        "launch_index"@[0] == 'l' && "launch_index"@[1] == 'a' && "launch_index"@[2] == 'u' && "launch_index"@[3] == 'n',
        "launch_index"@[4] == 'c' && "launch_index"@[5] == 'h' && "launch_index"@[6] == '_' && "launch_index"@[7] == 'i',
        "launch_index"@[8] == 'n' && "launch_index"@[9] == 'd' && "launch_index"@[10] == 'e' && "launch_index"@[11] == 'x',
        "launched_at"@.len() == 11,
        "launched_at"@[0] == 'l' && "launched_at"@[1] == 'a' && "launched_at"@[2] == 'u' && "launched_at"@[3] == 'n',
        "launched_at"@[4] == 'c' && "launched_at"@[5] == 'h' && "launched_at"@[6] == 'e' && "launched_at"@[7] == 'd',
        "launched_at"@[8] == '_' && "launched_at"@[9] == 'a' && "launched_at"@[10] == 't',
        "locked_by"@.len() == 9,
        "locked_by"@[0] == 'l' && "locked_by"@[1] == 'o' && "locked_by"@[2] == 'c' && "locked_by"@[3] == 'k',
        "locked_by"@[4] == 'e' && "locked_by"@[5] == 'd' && "locked_by"@[6] == '_' && "locked_by"@[7] == 'b',
        "locked_by"@[8] == 'y',
        "node"@.len() == 4,
        "node"@[0] == 'n' && "node"@[1] == 'o' && "node"@[2] == 'd' && "node"@[3] == 'e',
        "power_state"@.len() == 11,
        "power_state"@[0] == 'p' && "power_state"@[1] == 'o' && "power_state"@[2] == 'w' && "power_state"@[3] == 'e',
        "power_state"@[4] == 'r' && "power_state"@[5] == '_' && "power_state"@[6] == 's' && "power_state"@[7] == 't',
        "power_state"@[8] == 'a' && "power_state"@[9] == 't' && "power_state"@[10] == 'e',
        "progress"@.len() == 8,
        "progress"@[0] == 'p' && "progress"@[1] == 'r' && "progress"@[2] == 'o' && "progress"@[3] == 'g',
        "progress"@[4] == 'r' && "progress"@[5] == 'e' && "progress"@[6] == 's' && "progress"@[7] == 's',
        "project_id"@.len() == 10,
        "project_id"@[0] == 'p' && "project_id"@[1] == 'r' && "project_id"@[2] == 'o' && "project_id"@[3] == 'j',
        "project_id"@[4] == 'e' && "project_id"@[5] == 'c' && "project_id"@[6] == 't' && "project_id"@[7] == '_',
        "project_id"@[8] == 'i' && "project_id"@[9] == 'd',
        "ramdisk_id"@.len() == 10,
        "ramdisk_id"@[0] == 'r' && "ramdisk_id"@[1] == 'a' && "ramdisk_id"@[2] == 'm' && "ramdisk_id"@[3] == 'd',
        "ramdisk_id"@[4] == 'i' && "ramdisk_id"@[5] == 's' && "ramdisk_id"@[6] == 'k' && "ramdisk_id"@[7] == '_',
        "ramdisk_id"@[8] == 'i' && "ramdisk_id"@[9] == 'd',
        "root_device_name"@.len() == 16,
        "root_device_name"@[0] == 'r' && "root_device_name"@[1] == 'o' && "root_device_name"@[2] == 'o' && "root_device_name"@[3] == 't',
        "root_device_name"@[4] == '_' && "root_device_name"@[5] == 'd' && "root_device_name"@[6] == 'e' && "root_device_name"@[7] == 'v',
        "root_device_name"@[8] == 'i' && "root_device_name"@[9] == 'c' && "root_device_name"@[10] == 'e' && "root_device_name"@[11] == '_',
        "root_device_name"@[12] == 'n' && "root_device_name"@[13] == 'a' && "root_device_name"@[14] == 'm' && "root_device_name"@[15] == 'e',
        "task_state"@.len() == 10,
        "task_state"@[0] == 't' && "task_state"@[1] == 'a' && "task_state"@[2] == 's' && "task_state"@[3] == 'k',
        "task_state"@[4] == '_' && "task_state"@[5] == 's' && "task_state"@[6] == 't' && "task_state"@[7] == 'a',
        "task_state"@[8] == 't' && "task_state"@[9] == 'e',
        "terminated_at"@.len() == 13,
        "terminated_at"@[0] == 't' && "terminated_at"@[1] == 'e' && "terminated_at"@[2] == 'r' && "terminated_at"@[3] == 'm',
        "terminated_at"@[4] == 'i' && "terminated_at"@[5] == 'n' && "terminated_at"@[6] == 'a' && "terminated_at"@[7] == 't',
        "terminated_at"@[8] == 'e' && "terminated_at"@[9] == 'd' && "terminated_at"@[10] == '_' && "terminated_at"@[11] == 'a',
        "terminated_at"@[12] == 't',
        "updated_at"@.len() == 10,
        "updated_at"@[0] == 'u' && "updated_at"@[1] == 'p' && "updated_at"@[2] == 'd' && "updated_at"@[3] == 'a',
        "updated_at"@[4] == 't' && "updated_at"@[5] == 'e' && "updated_at"@[6] == 'd' && "updated_at"@[7] == '_',
        "updated_at"@[8] == 'a' && "updated_at"@[9] == 't',
        "user_id"@.len() == 7,
        "user_id"@[0] == 'u' && "user_id"@[1] == 's' && "user_id"@[2] == 'e' && "user_id"@[3] == 'r',
        "user_id"@[4] == '_' && "user_id"@[5] == 'i' && "user_id"@[6] == 'd',
        "uuid"@.len() == 4,
        "uuid"@[0] == 'u' && "uuid"@[1] == 'u' && "uuid"@[2] == 'i' && "uuid"@[3] == 'd',
        "vm_state"@.len() == 8,
        "vm_state"@[0] == 'v' && "vm_state"@[1] == 'm' && "vm_state"@[2] == '_' && "vm_state"@[3] == 's',
        "vm_state"@[4] == 't' && "vm_state"@[5] == 'a' && "vm_state"@[6] == 't' && "vm_state"@[7] == 'e',
{
    reveal_strlit("access_ip_v4");
    reveal_strlit("access_ip_v6");
    reveal_strlit("auto_disk_config");
    reveal_strlit("availability_zone");
    reveal_strlit("config_drive");
    reveal_strlit("created_at");
    reveal_strlit("display_description");
    reveal_strlit("display_name");
    reveal_strlit("host");
    reveal_strlit("hostname");
    reveal_strlit("image_ref");
    reveal_strlit("instance_type_id");
    reveal_strlit("kernel_id");
    reveal_strlit("key_name");
    reveal_strlit("launch_index");
    reveal_strlit("launched_at");
    reveal_strlit("locked_by");
    reveal_strlit("node");
    reveal_strlit("power_state");
    reveal_strlit("progress");
    reveal_strlit("project_id");
    reveal_strlit("ramdisk_id");
    reveal_strlit("root_device_name");
    reveal_strlit("task_state");
    reveal_strlit("terminated_at");
    reveal_strlit("updated_at");
    reveal_strlit("user_id");
    reveal_strlit("uuid");
    reveal_strlit("vm_state");
}

/// No two sort keys share a wire name, so a wire name identifies its key.
pub proof fn lemma_sort_key_names_distinct(a: ServerSortKey, b: ServerSortKey)
    requires
        a.wire_name() == b.wire_name(),
    ensures
        a == b,
{
    lemma_sort_key_names_spelled();
}

/// Naming a sort key and reading the name back gives the key, for every
/// key: the wire name stands for the key that has it and for no other.
pub proof fn lemma_sort_key_round_trip(key: ServerSortKey)
    ensures
        ServerSortKey::from_wire(key.wire_name()) == Some(key),
{
    let name = key.wire_name();
    assert(exists|other: ServerSortKey| other.wire_name() == name);
    let found = choose|other: ServerSortKey| other.wire_name() == name;
    lemma_sort_key_names_distinct(found, key);
}

} // verus!

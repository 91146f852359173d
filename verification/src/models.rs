//! The two kinds of record that the cloud provider hands out, servers and
//! images, reduced to what the dashboard reads of them.

use vstd::prelude::*;
use vstd::string::*;

verus! {

/// Lifecycle state of a server.
#[derive(Debug, Clone, Copy, PartialEq, Eq, Structural)]
pub enum ServerStatus {
    Deleting,
    Initializing,
    Migrating,
    Off,
    Rebuilding,
    Running,
    Starting,
    Stopping,
    Unknown,
}

impl ServerStatus {
    /// The state's name, as it is shown to the user.
    pub open spec fn text(self) -> Seq<char> {
        match self {
            ServerStatus::Deleting => "Deleting"@,
            ServerStatus::Initializing => "Initializing"@,
            ServerStatus::Migrating => "Migrating"@,
            ServerStatus::Off => "Off"@,
            ServerStatus::Rebuilding => "Rebuilding"@,
            ServerStatus::Running => "Running"@,
            ServerStatus::Starting => "Starting"@,
            ServerStatus::Stopping => "Stopping"@,
            ServerStatus::Unknown => "Unknown"@,
        }
    }

    /// The state's name.
    pub fn to_string(&self) -> (s: String)
        ensures
            s@ == self.text(),
    {
        match self {
            ServerStatus::Deleting => String::from_str("Deleting"),
            ServerStatus::Initializing => String::from_str("Initializing"),
            ServerStatus::Migrating => String::from_str("Migrating"),
            ServerStatus::Off => String::from_str("Off"),
            ServerStatus::Rebuilding => String::from_str("Rebuilding"),
            ServerStatus::Running => String::from_str("Running"),
            ServerStatus::Starting => String::from_str("Starting"),
            ServerStatus::Stopping => String::from_str("Stopping"),
            ServerStatus::Unknown => String::from_str("Unknown"),
        }
    }
}

/// Whether an image can be used, is still being created, or is unavailable.
#[derive(Debug, Clone, Copy, PartialEq, Eq, Structural)]
pub enum ImageStatus {
    Available,
    Creating,
    Unavailable,
}

impl ImageStatus {
    /// The state's name, as it is shown to the user.
    pub open spec fn text(self) -> Seq<char> {
        match self {
            ImageStatus::Available => "Available"@,
            ImageStatus::Creating => "Creating"@,
            ImageStatus::Unavailable => "Unavailable"@,
        }
    }

    /// The state's name.
    pub fn to_string(&self) -> (s: String)
        ensures
            s@ == self.text(),
    {
        match self {
            ImageStatus::Available => String::from_str("Available"),
            ImageStatus::Creating => String::from_str("Creating"),
            ImageStatus::Unavailable => String::from_str("Unavailable"),
        }
    }
}

/// What an image is. Only snapshots take part in reconciliation.
#[derive(Debug, Clone, Copy, PartialEq, Eq, Structural)]
pub enum ImageType {
    App,
    Backup,
    Snapshot,
    System,
    Temporary,
}

/// The server that an image was taken from.
#[derive(Debug, PartialEq, Eq)]
pub struct CreatedFrom {
    pub id: i64,
    pub name: String,
}

/// What a [`CreatedFrom`] holds, as plain values.
pub struct CreatedFromView {
    pub id: i64,
    pub name: Seq<char>,
}

impl View for CreatedFrom {
    type V = CreatedFromView;

    open spec fn view(&self) -> CreatedFromView {
        CreatedFromView { id: self.id, name: self.name@ }
    }
}

impl Clone for CreatedFrom {
    fn clone(&self) -> (copy: Self)
        ensures
            copy == *self,
    {
        CreatedFrom { id: self.id, name: self.name.clone() }
    }
}

/// A server of the provider.
#[derive(Debug, PartialEq, Eq)]
pub struct Server {
    pub id: i64,
    pub name: String,
    pub status: ServerStatus,
    /// Description of the datacenter that hosts the server.
    pub datacenter: String,
    /// The public IPv4 address, where the server has one.
    pub ipv4: Option<String>,
}

/// What a [`Server`] holds, as plain values.
pub struct ServerView {
    pub id: i64,
    pub name: Seq<char>,
    pub status: ServerStatus,
    pub datacenter: Seq<char>,
    pub ipv4: Option<Seq<char>>,
}

impl View for Server {
    type V = ServerView;

    open spec fn view(&self) -> ServerView {
        ServerView {
            id: self.id,
            name: self.name@,
            status: self.status,
            datacenter: self.datacenter@,
            ipv4: match self.ipv4 {
                Some(ip) => Some(ip@),
                None => None,
            },
        }
    }
}

impl Clone for Server {
    fn clone(&self) -> (copy: Self)
        ensures
            copy == *self,
    {
        Server {
            id: self.id,
            name: self.name.clone(),
            status: self.status,
            datacenter: self.datacenter.clone(),
            ipv4: match &self.ipv4 {
                Some(ip) => Some(ip.clone()),
                None => None,
            },
        }
    }
}

/// A disk image of the provider.
#[derive(Debug, PartialEq, Eq)]
pub struct Image {
    pub id: i64,
    pub name: Option<String>,
    pub description: String,
    pub image_type: ImageType,
    pub status: ImageStatus,
    /// The server that the image was taken from, where it was taken from one.
    pub created_from: Option<CreatedFrom>,
    /// Id of the server that the image is bound to, if any.
    pub bound_to: Option<i64>,
}

/// What an [`Image`] holds, as plain values.
pub struct ImageView {
    pub id: i64,
    pub name: Option<Seq<char>>,
    pub description: Seq<char>,
    pub image_type: ImageType,
    pub status: ImageStatus,
    pub created_from: Option<CreatedFromView>,
    pub bound_to: Option<i64>,
}

impl View for Image {
    type V = ImageView;

    open spec fn view(&self) -> ImageView {
        ImageView {
            id: self.id,
            name: match self.name {
                Some(name) => Some(name@),
                None => None,
            },
            description: self.description@,
            image_type: self.image_type,
            status: self.status,
            created_from: match self.created_from {
                Some(source) => Some(source@),
                None => None,
            },
            bound_to: self.bound_to,
        }
    }
}

impl Clone for Image {
    fn clone(&self) -> (copy: Self)
        ensures
            copy == *self,
    {
        Image {
            id: self.id,
            name: match &self.name {
                Some(name) => Some(name.clone()),
                None => None,
            },
            description: self.description.clone(),
            image_type: self.image_type,
            status: self.status,
            created_from: match &self.created_from {
                Some(source) => Some(source.clone()),
                None => None,
            },
            bound_to: self.bound_to,
        }
    }
}

/// The views of a list of servers, in the list's order.
pub open spec fn server_views(servers: Seq<Server>) -> Seq<ServerView> {
    servers.map_values(|server: Server| server@)
}

/// The views of a list of images, in the list's order.
pub open spec fn image_views(images: Seq<Image>) -> Seq<ImageView> {
    images.map_values(|image: Image| image@)
}

} // verus!

//! The messages between the host and the plugin.
//!
//! Each travels as one line of JSON; these are the values it stands for.

use vstd::prelude::*;

verus! {

/// The version of the wire protocol that the plugin speaks.
pub const PROTOCOL_VERSION: u32 = 1;

/// The one kind of surface that the plugin takes.
pub const IOSURFACE: &'static str = "iosurface";

/// What the host tells the plugin.
#[derive(Debug, PartialEq, Eq)]
pub enum HostMessage {
    /// Get ready for frames of this size.
    Open {
        /// The kind of surface that frames come on.
        surface: String,
        /// The width of a frame.
        width: u32,
        /// The height of a frame.
        height: u32,
        /// The format of a pixel.
        format: String,
    },
    /// A frame is ready.
    Frame {
        /// The number of the frame.
        index: u64,
        /// The surface it is on.
        surface_id: u32,
        /// Its width.
        width: u32,
        /// Its height.
        height: u32,
    },
    /// Frames have another size from now on.
    Resize {
        /// The width of a frame.
        width: u32,
        /// The height of a frame.
        height: u32,
    },
    /// The plugin is no longer needed.
    Close,
    /// A message that the plugin has no use for.
    Unknown,
}

/// What a [`HostMessage`] says.
pub enum HostModel {
    /// Get ready for frames of this size.
    Open {
        /// The kind of surface that frames come on.
        surface: Seq<char>,
        /// The width of a frame.
        width: u32,
        /// The height of a frame.
        height: u32,
        /// The format of a pixel.
        format: Seq<char>,
    },
    /// A frame is ready.
    Frame {
        /// The number of the frame.
        index: u64,
        /// The surface it is on.
        surface_id: u32,
        /// Its width.
        width: u32,
        /// Its height.
        height: u32,
    },
    /// Frames have another size from now on.
    Resize {
        /// The width of a frame.
        width: u32,
        /// The height of a frame.
        height: u32,
    },
    /// The plugin is no longer needed.
    Close,
    /// A message that the plugin has no use for.
    Unknown,
}

impl View for HostMessage {
    type V = HostModel;

    open spec fn view(&self) -> HostModel {
        match *self {
            HostMessage::Open { surface, width, height, format } => HostModel::Open {
                surface: surface@,
                width,
                height,
                format: format@,
            },
            HostMessage::Frame { index, surface_id, width, height } => HostModel::Frame {
                index,
                surface_id,
                width,
                height,
            },
            HostMessage::Resize { width, height } => HostModel::Resize { width, height },
            HostMessage::Close => HostModel::Close,
            HostMessage::Unknown => HostModel::Unknown,
        }
    }
}

/// What the plugin tells the host.
#[derive(Debug, PartialEq, Eq)]
pub enum PluginMessage {
    /// Who the plugin is.
    Hello {
        /// The version of the wire protocol.
        v: u32,
        /// The kind of plugin.
        kind: String,
        /// Its name.
        name: String,
        /// The kinds of surfaces that it takes.
        surfaces: Vec<String>,
    },
    /// The plugin waits for frames.
    Ready {
        /// The name under which it shows them.
        server_name: String,
    },
    /// How the plugin is doing.
    Status {
        /// The number of clients that it reports.
        clients: u32,
        /// The number of lost frames that it reports.
        dropped: u64,
    },
}

/// What a [`PluginMessage`] says.
pub enum PluginModel {
    /// Who the plugin is.
    Hello {
        /// The version of the wire protocol.
        v: u32,
        /// The kind of plugin.
        kind: Seq<char>,
        /// Its name.
        name: Seq<char>,
        /// The kinds of surfaces that it takes.
        surfaces: Seq<Seq<char>>,
    },
    /// The plugin waits for frames.
    Ready {
        /// The name under which it shows them.
        server_name: Seq<char>,
    },
    /// How the plugin is doing.
    Status {
        /// The number of clients that it reports.
        clients: u32,
        /// The number of lost frames that it reports.
        dropped: u64,
    },
}

impl View for PluginMessage {
    type V = PluginModel;

    open spec fn view(&self) -> PluginModel {
        match *self {
            PluginMessage::Hello { v, kind, name, surfaces } => PluginModel::Hello {
                v,
                kind: kind@,
                name: name@,
                surfaces: surfaces@.map_values(|surface: String| surface@),
            },
            PluginMessage::Ready { server_name } => PluginModel::Ready { server_name: server_name@ },
            PluginMessage::Status { clients, dropped } => PluginModel::Status { clients, dropped },
        }
    }
}

/// The greeting: the first thing that the plugin says.
pub fn hello() -> (message: PluginMessage)
    ensures
        message@ == (PluginModel::Hello {
            v: PROTOCOL_VERSION,
            kind: "output"@,
            name: "syphon"@,
            surfaces: seq![IOSURFACE@],
        }),
        message matches PluginMessage::Hello { v, kind, name, surfaces } && {
            &&& v == 1
            &&& kind@ == "output"@
            &&& name@ == "syphon"@
            &&& surfaces@.len() == 1
            &&& surfaces@[0]@ == "iosurface"@
        },
{
    let mut surfaces: Vec<String> = Vec::new();
    surfaces.push(IOSURFACE.to_owned());
    assert(surfaces@.map_values(|surface: String| surface@) =~= seq![IOSURFACE@]);
    PluginMessage::Hello {
        v: PROTOCOL_VERSION,
        kind: "output".to_owned(),
        name: "syphon".to_owned(),
        surfaces,
    }
}

} // verus!

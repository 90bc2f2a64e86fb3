//! The notifications by which a server makes itself known to the system.

use vstd::prelude::*;

verus! {

/// The notification of a server that starts.
pub const SERVER_ANNOUNCE: &'static str = "info.v002.Syphon.ServerAnnounce";

/// The notification of a server that stops.
pub const SERVER_RETIRE: &'static str = "info.v002.Syphon.ServerRetire";

/// A value in the dictionary that describes a server.
#[derive(Debug)]
pub enum Field {
    /// A number.
    Number(u32),
    /// A text.
    Text(String),
    /// An array of dictionaries, each with one entry: a key and the text under it.
    Records(Vec<(String, String)>),
}

/// What a [`Field`] holds.
pub enum FieldModel {
    /// A number.
    Number(u32),
    /// A text.
    Text(Seq<char>),
    /// An array of dictionaries with one entry each.
    Records(Seq<(Seq<char>, Seq<char>)>),
}

impl View for Field {
    type V = FieldModel;

    open spec fn view(&self) -> FieldModel {
        match self {
            Field::Number(number) => FieldModel::Number(*number),
            Field::Text(text) => FieldModel::Text(text@),
            Field::Records(records) => FieldModel::Records(
                records@.map_values(|record: (String, String)| (record.0@, record.1@)),
            ),
        }
    }
}

/// A notification to post to the whole system.
#[derive(Debug)]
pub struct Notification {
    /// The name it is posted under.
    pub name: String,
    /// The object it is about: the server's identifier.
    pub object: String,
    /// The dictionary that goes with it, entry by entry.
    pub user_info: Vec<(String, Field)>,
    /// Whether it is delivered at once.
    pub deliver_immediately: bool,
}

/// What a [`Notification`] holds.
pub struct NotificationModel {
    /// The name it is posted under.
    pub name: Seq<char>,
    /// The object it is about.
    pub object: Seq<char>,
    /// The dictionary that goes with it.
    pub user_info: Seq<(Seq<char>, FieldModel)>,
    /// Whether it is delivered at once.
    pub deliver_immediately: bool,
}

impl View for Notification {
    type V = NotificationModel;

    open spec fn view(&self) -> NotificationModel {
        NotificationModel {
            name: self.name@,
            object: self.object@,
            user_info: self.user_info@.map_values(|entry: (String, Field)| (entry.0@, entry.1@)),
            deliver_immediately: self.deliver_immediately,
        }
    }
}

/// The dictionary that describes a server to its clients-to-be.
pub open spec fn description(uuid: Seq<char>, server_name: Seq<char>) -> Seq<
    (Seq<char>, FieldModel),
> {
    seq![
        ("SyphonServerDescriptionDictionaryVersionKey"@, FieldModel::Number(0)),
        ("SyphonServerDescriptionNameKey"@, FieldModel::Text(server_name)),
        ("SyphonServerDescriptionUUIDKey"@, FieldModel::Text(uuid)),
        ("SyphonServerDescriptionAppNameKey"@, FieldModel::Text("Karakuri"@)),
        (
            "SyphonServerDescriptionSurfacesKey"@,
            FieldModel::Records(seq![("SyphonSurfaceType"@, "SyphonSurfaceTypeIOSurface"@)]),
        ),
    ]
}

/// The notification `name` about the server with this identifier and name. It is delivered
/// at once.
pub open spec fn notification(
    name: Seq<char>,
    uuid: Seq<char>,
    server_name: Seq<char>,
) -> NotificationModel {
    NotificationModel {
        name,
        object: uuid,
        user_info: description(uuid, server_name),
        deliver_immediately: true,
    }
}

/// A notification about a server is posted under the name that was asked for, about the
/// identifier of that server and no other, at once, and with the server's own description,
/// whatever the identifier and the name are.
pub proof fn law_notification_is_the_one_asked_for(
    posted: Notification,
    name: Seq<char>,
    uuid: Seq<char>,
    server_name: Seq<char>,
)
    requires
        posted@ == notification(name, uuid, server_name),
    ensures
        posted.name@ == name,
        posted.object@ == uuid,
        posted.deliver_immediately,
        posted.user_info@.len() == 5,
        posted.user_info@[0].0@ == "SyphonServerDescriptionDictionaryVersionKey"@,
        posted.user_info@[0].1 == Field::Number(0),
        posted.user_info@[1].0@ == "SyphonServerDescriptionNameKey"@,
        posted.user_info@[1].1 matches Field::Text(shown) && shown@ == server_name,
        posted.user_info@[2].0@ == "SyphonServerDescriptionUUIDKey"@,
        posted.user_info@[2].1 matches Field::Text(identifier) && identifier@ == uuid,
        posted.user_info@[3].0@ == "SyphonServerDescriptionAppNameKey"@,
        posted.user_info@[3].1 matches Field::Text(application) && application@ == "Karakuri"@,
        posted.user_info@[4].0@ == "SyphonServerDescriptionSurfacesKey"@,
        posted.user_info@[4].1 matches Field::Records(surfaces) && surfaces@.len() == 1
            && surfaces@[0].0@ == "SyphonSurfaceType"@ && surfaces@[0].1@
            == "SyphonSurfaceTypeIOSurface"@,
{
    let entries = posted.user_info@;
    let seen = posted@.user_info;
    assert(seen == description(uuid, server_name));
    assert(seen.len() == entries.len());
    assert(seen[0] == (entries[0].0@, entries[0].1@));
    assert(seen[1] == (entries[1].0@, entries[1].1@));
    assert(seen[2] == (entries[2].0@, entries[2].1@));
    assert(seen[3] == (entries[3].0@, entries[3].1@));
    assert(seen[4] == (entries[4].0@, entries[4].1@));
    let surfaces = entries[4].1->Records_0@;
    let records = surfaces.map_values(|record: (String, String)| (record.0@, record.1@));
    assert(records == seq![("SyphonSurfaceType"@, "SyphonSurfaceTypeIOSurface"@)]);
    assert(records.len() == surfaces.len());
    assert(records[0] == (surfaces[0].0@, surfaces[0].1@));
}

/// A server's identifier and its name each stand in its description under their own key, and
/// what stands under the other keys is the same for every server.
pub proof fn law_description_carries_the_server(
    uuid: Seq<char>,
    server_name: Seq<char>,
    other_uuid: Seq<char>,
    other_name: Seq<char>,
)
    ensures
        ({
            let entries = description(uuid, server_name);
            let others = description(other_uuid, other_name);
            &&& entries.len() == 5
            &&& entries.contains(
                ("SyphonServerDescriptionNameKey"@, FieldModel::Text(server_name)),
            )
            &&& entries.contains(("SyphonServerDescriptionUUIDKey"@, FieldModel::Text(uuid)))
            &&& entries.contains(
                ("SyphonServerDescriptionAppNameKey"@, FieldModel::Text("Karakuri"@)),
            )
            &&& entries.contains(
                ("SyphonServerDescriptionDictionaryVersionKey"@, FieldModel::Number(0)),
            )
            &&& entries[0] == others[0]
            &&& entries[3] == others[3]
            &&& entries[4] == others[4]
        }),
{
    let entries = description(uuid, server_name);
    assert(entries[0].0 == "SyphonServerDescriptionDictionaryVersionKey"@);
    assert(entries[1].0 == "SyphonServerDescriptionNameKey"@);
    assert(entries[2].0 == "SyphonServerDescriptionUUIDKey"@);
    assert(entries[3].0 == "SyphonServerDescriptionAppNameKey"@);
}

/// No key occurs twice in a description, so nothing in it is lost when it becomes a
/// dictionary.
pub proof fn law_description_keys_are_distinct(
    uuid: Seq<char>,
    server_name: Seq<char>,
    i: int,
    j: int,
)
    requires
        0 <= i < j < description(uuid, server_name).len(),
    ensures
        description(uuid, server_name)[i].0 != description(uuid, server_name)[j].0,
{
    reveal_strlit("SyphonServerDescriptionDictionaryVersionKey");
    reveal_strlit("SyphonServerDescriptionNameKey");
    reveal_strlit("SyphonServerDescriptionUUIDKey");
    reveal_strlit("SyphonServerDescriptionAppNameKey");
    reveal_strlit("SyphonServerDescriptionSurfacesKey");
    let entries = description(uuid, server_name);
    assert(entries[0].0.len() == 43);
    assert(entries[1].0.len() == 30 && entries[1].0[23] == 'N');
    assert(entries[2].0.len() == 30 && entries[2].0[23] == 'U');
    assert(entries[3].0.len() == 33);
    assert(entries[4].0.len() == 34);
}

/// Two servers with different identifiers or names never describe themselves alike.
pub proof fn law_description_tells_servers_apart(
    uuid: Seq<char>,
    server_name: Seq<char>,
    other_uuid: Seq<char>,
    other_name: Seq<char>,
)
    requires
        description(uuid, server_name) == description(other_uuid, other_name),
    ensures
        uuid == other_uuid,
        server_name == other_name,
{
    let a = description(uuid, server_name);
    let b = description(other_uuid, other_name);
    assert(a[1] == b[1]);
    assert(a[2] == b[2]);
}

/// Makes the notification `notification_name` about a server.
pub fn broadcast_notification(notification_name: &str, uuid: &str, server_name: &str) -> (posted:
    Notification)
    ensures
        posted@ == notification(notification_name@, uuid@, server_name@),
        posted.name@ == notification_name@,
        posted.object@ == uuid@,
        posted.deliver_immediately,
        posted.user_info@.len() == 5,
        posted.user_info@[0].0@ == "SyphonServerDescriptionDictionaryVersionKey"@,
        posted.user_info@[0].1 == Field::Number(0),
        posted.user_info@[1].0@ == "SyphonServerDescriptionNameKey"@,
        posted.user_info@[1].1 matches Field::Text(shown) && shown@ == server_name@,
        posted.user_info@[2].0@ == "SyphonServerDescriptionUUIDKey"@,
        posted.user_info@[2].1 matches Field::Text(identifier) && identifier@ == uuid@,
        posted.user_info@[3].0@ == "SyphonServerDescriptionAppNameKey"@,
        posted.user_info@[3].1 matches Field::Text(application) && application@ == "Karakuri"@,
        posted.user_info@[4].0@ == "SyphonServerDescriptionSurfacesKey"@,
        posted.user_info@[4].1 matches Field::Records(surfaces) && surfaces@.len() == 1
            && surfaces@[0].0@ == "SyphonSurfaceType"@ && surfaces@[0].1@
            == "SyphonSurfaceTypeIOSurface"@,
{
    let mut surfaces: Vec<(String, String)> = Vec::new();
    surfaces.push(("SyphonSurfaceType".to_owned(), "SyphonSurfaceTypeIOSurface".to_owned()));

    let mut user_info: Vec<(String, Field)> = Vec::new();
    user_info.push(
        ("SyphonServerDescriptionDictionaryVersionKey".to_owned(), Field::Number(0)),
    );
    user_info.push(
        ("SyphonServerDescriptionNameKey".to_owned(), Field::Text(server_name.to_owned())),
    );
    user_info.push(("SyphonServerDescriptionUUIDKey".to_owned(), Field::Text(uuid.to_owned())));
    user_info.push(
        ("SyphonServerDescriptionAppNameKey".to_owned(), Field::Text("Karakuri".to_owned())),
    );
    user_info.push(
        ("SyphonServerDescriptionSurfacesKey".to_owned(), Field::Records(surfaces)),
    );

    let posted = Notification {
        name: notification_name.to_owned(),
        object: uuid.to_owned(),
        user_info,
        deliver_immediately: true,
    };
    proof {
        assert(surfaces@.map_values(|record: (String, String)| (record.0@, record.1@))
            =~= seq![("SyphonSurfaceType"@, "SyphonSurfaceTypeIOSurface"@)]);
        assert(posted@.user_info =~= description(uuid@, server_name@));
        law_notification_is_the_one_asked_for(posted, notification_name@, uuid@, server_name@);
    }
    posted
}

} // verus!

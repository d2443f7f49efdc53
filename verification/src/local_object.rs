//! Objects of the user without a server: what would be sent to one is answered at once.
use crate::ids::lower_hex;
use crate::text::{chars_of, opt_view, string_of, views};
use vstd::prelude::*;

verus! {

// ---------------------------------------------------------------------------------------------
// The time and identifiers
// ---------------------------------------------------------------------------------------------
/// A moment: seconds since the start of 1970, in UTC, and nanoseconds of the next.
#[derive(Clone, Copy, Debug, PartialEq, Eq, Structural)]
pub struct Moment {
    pub seconds: i64,
    pub nanos: u32,
}

/// Whether a moment is one that a clock shows.
pub open spec fn is_moment(moment: Moment) -> bool {
    moment.seconds >= 0 && moment.nanos < 1_000_000_000
}

/// This moment: `chrono::Utc::now`, of which the seconds and the nanoseconds since 1970 are handed
/// on. It reads the clock of the machine, which is taken to show no time before 1970; of what it
/// shows nothing more is claimed.
#[verifier::external_body]
fn utc_now() -> (r: Moment)
    ensures
        is_moment(r),
{
    let now = chrono::Utc::now();
    Moment { seconds: now.timestamp(), nanos: now.timestamp_subsec_nanos() }
}

/// A random UUID: `uuid::Uuid::new_v4`, written by the `Display` of its simple form, which gives 32
/// lower case hexadecimal digits. Which UUID it is, is chance.
#[verifier::external_body]
fn random_simple_uuid() -> (r: String)
    ensures
        r@.len() == 32,
        forall|i: int| 0 <= i < 32 ==> lower_hex(#[trigger] r@[i]),
{
    uuid::Uuid::new_v4().simple().to_string()
}

/// Whether a text has the form of the identifiers that are made here: 22 lower case hexadecimal
/// digits.
pub open spec fn synthetic_id(id: Seq<char>) -> bool {
    id.len() == 22 && forall|i: int| 0 <= i < 22 ==> lower_hex(#[trigger] id[i])
}

/// A new identifier of an object, as a server would give it.
pub fn synthetic_server_id() -> (r: String)
    ensures
        synthetic_id(r@),
{
    let uuid = random_simple_uuid();
    let chars = chars_of(uuid.as_str());
    let mut kept: Vec<char> = Vec::new();
    let mut i: usize = 0;
    while i < 22
        invariant
            i <= 22,
            chars@.len() == 32,
            kept@ == chars@.take(i as int),
            forall|k: int| 0 <= k < 32 ==> lower_hex(#[trigger] chars@[k]),
        decreases 22 - i,
    {
        kept.push(chars[i]);
        assert(kept@ =~= chars@.take(i + 1));
        i += 1;
    }
    string_of(&kept)
}

// ---------------------------------------------------------------------------------------------
// Objects
// ---------------------------------------------------------------------------------------------
/// The type of an object.
#[derive(Clone, Copy, Debug, PartialEq, Eq, Structural)]
pub enum ObjectIdType {
    Workflow,
    GenericStringObject,
    Notebook,
    Folder,
}

/// Who owns an object.
#[derive(Debug)]
pub enum Owner {
    /// The user of that identifier.
    User(String),
    /// The team of that identifier.
    Team(String),
}

/// The model of [`Owner`].
#[verifier::ext_equal]
pub enum OwnerView {
    User(Seq<char>),
    Team(Seq<char>),
}

impl View for Owner {
    type V = OwnerView;

    open spec fn view(&self) -> OwnerView {
        match self {
            Owner::User(x) => OwnerView::User(x@),
            Owner::Team(x) => OwnerView::Team(x@),
        }
    }
}

/// A request to create an object.
#[derive(Debug)]
pub struct CreateObjectRequest {
    /// The identifier that the client gave the object.
    pub client_id: String,
    pub owner: Owner,
}

/// The model of [`CreateObjectRequest`].
#[verifier::ext_equal]
pub struct CreateObjectRequestView {
    pub client_id: Seq<char>,
    pub owner: OwnerView,
}

impl View for CreateObjectRequest {
    type V = CreateObjectRequestView;

    open spec fn view(&self) -> CreateObjectRequestView {
        CreateObjectRequestView {
            client_id: self.client_id@,
            owner: self.owner@,
        }
    }
}

/// A revision of an object, and who made it.
#[derive(Debug)]
pub struct RevisionAndLastEditor {
    pub revision: Moment,
    pub last_editor_uid: Option<String>,
}

/// The model of [`RevisionAndLastEditor`].
#[verifier::ext_equal]
pub struct RevisionAndLastEditorView {
    pub revision: Moment,
    pub last_editor_uid: Option<Seq<char>>,
}

impl View for RevisionAndLastEditor {
    type V = RevisionAndLastEditorView;

    open spec fn view(&self) -> RevisionAndLastEditorView {
        RevisionAndLastEditorView {
            revision: self.revision,
            last_editor_uid: opt_view(self.last_editor_uid),
        }
    }
}

/// Who may do what with an object.
#[derive(Debug)]
pub struct ServerPermissions {
    pub space: Owner,
    pub guests: Vec<String>,
    pub anyone_link_sharing: Option<String>,
    pub permissions_last_updated_ts: Moment,
}

/// The model of [`ServerPermissions`].
#[verifier::ext_equal]
pub struct ServerPermissionsView {
    pub space: OwnerView,
    pub guests: Seq<Seq<char>>,
    pub anyone_link_sharing: Option<Seq<char>>,
    pub permissions_last_updated_ts: Moment,
}

impl View for ServerPermissions {
    type V = ServerPermissionsView;

    open spec fn view(&self) -> ServerPermissionsView {
        ServerPermissionsView {
            space: self.space@,
            guests: views(self.guests@),
            anyone_link_sharing: opt_view(self.anyone_link_sharing),
            permissions_last_updated_ts: self.permissions_last_updated_ts,
        }
    }
}

/// An object that was created.
#[derive(Debug)]
pub struct CreatedCloudObject {
    pub client_id: String,
    pub revision_and_editor: RevisionAndLastEditor,
    pub metadata_ts: Moment,
    pub server_id: String,
    pub id_type: ObjectIdType,
    pub creator_uid: Option<String>,
    pub permissions: ServerPermissions,
}

/// The model of [`CreatedCloudObject`].
#[verifier::ext_equal]
pub struct CreatedCloudObjectView {
    pub client_id: Seq<char>,
    pub revision_and_editor: RevisionAndLastEditorView,
    pub metadata_ts: Moment,
    pub server_id: Seq<char>,
    pub id_type: ObjectIdType,
    pub creator_uid: Option<Seq<char>>,
    pub permissions: ServerPermissionsView,
}

impl View for CreatedCloudObject {
    type V = CreatedCloudObjectView;

    open spec fn view(&self) -> CreatedCloudObjectView {
        CreatedCloudObjectView {
            client_id: self.client_id@,
            revision_and_editor: self.revision_and_editor@,
            metadata_ts: self.metadata_ts,
            server_id: self.server_id@,
            id_type: self.id_type,
            creator_uid: opt_view(self.creator_uid),
            permissions: self.permissions@,
        }
    }
}

/// The permissions of an object, and the profiles of its guests.
#[derive(Debug)]
pub struct ObjectPermissionsUpdateData {
    pub permissions: ServerPermissions,
    pub profiles: Vec<String>,
}

/// The model of [`ObjectPermissionsUpdateData`].
#[verifier::ext_equal]
pub struct ObjectPermissionsUpdateDataView {
    pub permissions: ServerPermissionsView,
    pub profiles: Seq<Seq<char>>,
}

impl View for ObjectPermissionsUpdateData {
    type V = ObjectPermissionsUpdateDataView;

    open spec fn view(&self) -> ObjectPermissionsUpdateDataView {
        ObjectPermissionsUpdateDataView {
            permissions: self.permissions@,
            profiles: views(self.profiles@),
        }
    }
}

/// What became of a change of permissions.
#[derive(Clone, Copy, Debug, PartialEq, Eq, Structural)]
pub enum ObjectPermissionUpdateResult {
    Success,
}

/// What is known about an object.
#[derive(Debug)]
pub struct ServerMetadata {
    pub uid: String,
    pub revision: Moment,
    pub metadata_last_updated_ts: Moment,
    pub trashed_ts: Option<Moment>,
    pub folder_id: Option<String>,
    pub is_welcome_object: bool,
    pub creator_uid: Option<String>,
    pub last_editor_uid: Option<String>,
    pub current_editor_uid: Option<String>,
}

/// The model of [`ServerMetadata`].
#[verifier::ext_equal]
pub struct ServerMetadataView {
    pub uid: Seq<char>,
    pub revision: Moment,
    pub metadata_last_updated_ts: Moment,
    pub trashed_ts: Option<Moment>,
    pub folder_id: Option<Seq<char>>,
    pub is_welcome_object: bool,
    pub creator_uid: Option<Seq<char>>,
    pub last_editor_uid: Option<Seq<char>>,
    pub current_editor_uid: Option<Seq<char>>,
}

impl View for ServerMetadata {
    type V = ServerMetadataView;

    open spec fn view(&self) -> ServerMetadataView {
        ServerMetadataView {
            uid: self.uid@,
            revision: self.revision,
            metadata_last_updated_ts: self.metadata_last_updated_ts,
            trashed_ts: self.trashed_ts,
            folder_id: opt_view(self.folder_id),
            is_welcome_object: self.is_welcome_object,
            creator_uid: opt_view(self.creator_uid),
            last_editor_uid: opt_view(self.last_editor_uid),
            current_editor_uid: opt_view(self.current_editor_uid),
        }
    }
}

/// An action on an object.
#[derive(Debug)]
pub struct ObjectAction {
    pub action_type: String,
    pub uid: String,
    pub hashed_sqlite_id: String,
    pub timestamp: Moment,
    pub processed_at_timestamp: Option<Moment>,
    pub data: Option<String>,
    pub pending: bool,
}

/// The model of [`ObjectAction`].
#[verifier::ext_equal]
pub struct ObjectActionView {
    pub action_type: Seq<char>,
    pub uid: Seq<char>,
    pub hashed_sqlite_id: Seq<char>,
    pub timestamp: Moment,
    pub processed_at_timestamp: Option<Moment>,
    pub data: Option<Seq<char>>,
    pub pending: bool,
}

impl View for ObjectAction {
    type V = ObjectActionView;

    open spec fn view(&self) -> ObjectActionView {
        ObjectActionView {
            action_type: self.action_type@,
            uid: self.uid@,
            hashed_sqlite_id: self.hashed_sqlite_id@,
            timestamp: self.timestamp,
            processed_at_timestamp: self.processed_at_timestamp,
            data: opt_view(self.data),
            pending: self.pending,
        }
    }
}

/// The actions on an object.
#[derive(Debug)]
pub struct ObjectActionHistory {
    pub uid: String,
    pub hashed_sqlite_id: String,
    pub latest_processed_at_timestamp: Moment,
    pub actions: Vec<ObjectAction>,
}

/// The model of [`ObjectActionHistory`].
#[verifier::ext_equal]
pub struct ObjectActionHistoryView {
    pub uid: Seq<char>,
    pub hashed_sqlite_id: Seq<char>,
    pub latest_processed_at_timestamp: Moment,
    pub actions: Seq<ObjectActionView>,
}

impl View for ObjectActionHistory {
    type V = ObjectActionHistoryView;

    open spec fn view(&self) -> ObjectActionHistoryView {
        ObjectActionHistoryView {
            uid: self.uid@,
            hashed_sqlite_id: self.hashed_sqlite_id@,
            latest_processed_at_timestamp: self.latest_processed_at_timestamp,
            actions: views(self.actions@),
        }
    }
}

/// A copy of an owner.
fn copy_owner(owner: &Owner) -> (r: Owner)
    ensures
        r@ == owner@,
{
    match owner {
        Owner::User(uid) => Owner::User(uid.clone()),
        Owner::Team(uid) => Owner::Team(uid.clone()),
    }
}

/// The owner of what has no other.
pub open spec fn the_local_owner() -> OwnerView {
    OwnerView::User("warpoca-local"@)
}

/// The owner of what has no other.
pub fn local_owner() -> (r: Owner)
    ensures
        r@ == the_local_owner(),
{
    Owner::User("warpoca-local".to_owned())
}

/// The permissions of what belongs to its owner alone.
pub open spec fn permissions_at(owner: OwnerView, now: Moment) -> ServerPermissionsView {
    ServerPermissionsView {
        space: owner,
        guests: Seq::empty(),
        anyone_link_sharing: None,
        permissions_last_updated_ts: now,
    }
}

/// The permissions of what belongs to its owner alone, at the given moment.
pub fn personal_permissions_at(owner: Owner, now: Moment) -> (r: ServerPermissions)
    ensures
        r@ == permissions_at(owner@, now),
{
    let guests: Vec<String> = Vec::new();
    assert(views(guests@) =~= Seq::<Seq<char>>::empty());
    ServerPermissions {
        space: owner,
        guests,
        anyone_link_sharing: None,
        permissions_last_updated_ts: now,
    }
}

/// Whether permissions are those of what belongs to its owner alone, at some moment.
pub open spec fn personal(owner: OwnerView, permissions: ServerPermissionsView) -> bool {
    &&& is_moment(permissions.permissions_last_updated_ts)
    &&& permissions == permissions_at(owner, permissions.permissions_last_updated_ts)
}

/// The permissions of what belongs to its owner alone.
pub fn personal_permissions(owner: Owner) -> (r: ServerPermissions)
    ensures
        personal(owner@, r@),
{
    personal_permissions_at(owner, utc_now())
}

/// A revision at a moment, by nobody in particular.
pub open spec fn revision_at(now: Moment) -> RevisionAndLastEditorView {
    RevisionAndLastEditorView { revision: now, last_editor_uid: None }
}

/// The object that is created at a moment, under an identifier.
pub open spec fn created_at(
    client_id: Seq<char>,
    id_type: ObjectIdType,
    server_id: Seq<char>,
    now: Moment,
    permissions: ServerPermissionsView,
) -> CreatedCloudObjectView {
    CreatedCloudObjectView {
        client_id,
        revision_and_editor: revision_at(now),
        metadata_ts: now,
        server_id,
        id_type,
        creator_uid: None,
        permissions,
    }
}

/// The object that is created at the given moment, under the given identifier.
pub fn created_cloud_object_at(
    client_id: String,
    id_type: ObjectIdType,
    server_id: String,
    now: Moment,
    permissions: ServerPermissions,
) -> (r: CreatedCloudObject)
    ensures
        r@ == created_at(client_id@, id_type, server_id@, now, permissions@),
{
    CreatedCloudObject {
        client_id,
        revision_and_editor: RevisionAndLastEditor { revision: now, last_editor_uid: None },
        metadata_ts: now,
        server_id,
        id_type,
        creator_uid: None,
        permissions,
    }
}

/// Whether an object is one that was created for its owner alone, under a fresh identifier and one
/// moment for all that happened to it.
pub open spec fn created(
    client_id: Seq<char>,
    id_type: ObjectIdType,
    owner: OwnerView,
    object: CreatedCloudObjectView,
) -> bool {
    &&& synthetic_id(object.server_id)
    &&& is_moment(object.metadata_ts)
    &&& personal(owner, object.permissions)
    &&& object == created_at(
        client_id,
        id_type,
        object.server_id,
        object.metadata_ts,
        object.permissions,
    )
}

/// Creates an object for its owner alone.
pub fn created_cloud_object(client_id: String, id_type: ObjectIdType, owner: Owner) -> (r:
    CreatedCloudObject)
    ensures
        created(client_id@, id_type, owner@, r@),
{
    let now = utc_now();
    let server_id = synthetic_server_id();
    created_cloud_object_at(client_id, id_type, server_id, now, personal_permissions(owner))
}

/// Creates the object that a request asks for.
pub fn created_object(
    request: CreateObjectRequest,
    id_type: ObjectIdType,
) -> (r: CreatedCloudObject)
    ensures
        created(request@.client_id, id_type, request@.owner, r@),
{
    created_cloud_object(request.client_id, id_type, request.owner)
}

/// Takes a change: it is a new revision.
pub fn update_success() -> (r: RevisionAndLastEditor)
    ensures
        is_moment(r.revision),
        r@ == revision_at(r.revision),
{
    RevisionAndLastEditor { revision: utc_now(), last_editor_uid: None }
}

/// What is known about an object at a moment.
pub open spec fn metadata_at(
    id: Seq<char>,
    folder_id: Option<Seq<char>>,
    now: Moment,
) -> ServerMetadataView {
    ServerMetadataView {
        uid: id,
        revision: now,
        metadata_last_updated_ts: now,
        trashed_ts: None,
        folder_id,
        is_welcome_object: false,
        creator_uid: None,
        last_editor_uid: None,
        current_editor_uid: None,
    }
}

/// What is known about an object at the given moment.
pub fn server_metadata_at(id: String, folder_id: Option<String>, now: Moment) -> (r: ServerMetadata)
    ensures
        r@ == metadata_at(id@, opt_view(folder_id), now),
{
    let r = ServerMetadata {
        uid: id,
        revision: now,
        metadata_last_updated_ts: now,
        trashed_ts: None,
        folder_id,
        is_welcome_object: false,
        creator_uid: None,
        last_editor_uid: None,
        current_editor_uid: None,
    };
    assert(r@ =~= metadata_at(id@, opt_view(folder_id), now));
    r
}

/// What is known about an object.
pub fn server_metadata(id: String, folder_id: Option<String>) -> (r: ServerMetadata)
    ensures
        is_moment(r.revision),
        r@ == metadata_at(id@, opt_view(folder_id), r.revision),
{
    server_metadata_at(id, folder_id, utc_now())
}

/// The history of an object with one action, which has been processed.
pub open spec fn history_at(
    uid: Seq<char>,
    hashed_sqlite_id: Seq<char>,
    action_type: Seq<char>,
    timestamp: Moment,
    data: Option<Seq<char>>,
    processed: Moment,
    latest: Moment,
) -> ObjectActionHistoryView {
    ObjectActionHistoryView {
        uid,
        hashed_sqlite_id,
        latest_processed_at_timestamp: latest,
        actions: seq![
            ObjectActionView {
                action_type,
                uid,
                hashed_sqlite_id,
                timestamp,
                processed_at_timestamp: Some(processed),
                data,
                pending: false,
            },
        ],
    }
}

/// The history of an object with one action, which was processed at the given moments.
pub fn action_history_at(
    uid: String,
    hashed_sqlite_id: String,
    action_type: String,
    timestamp: Moment,
    data: Option<String>,
    processed: Moment,
    latest: Moment,
) -> (r: ObjectActionHistory)
    ensures
        r@ == history_at(
            uid@,
            hashed_sqlite_id@,
            action_type@,
            timestamp,
            opt_view(data),
            processed,
            latest,
        ),
{
    let action = ObjectAction {
        action_type,
        uid: uid.clone(),
        hashed_sqlite_id: hashed_sqlite_id.clone(),
        timestamp,
        processed_at_timestamp: Some(processed),
        data,
        pending: false,
    };
    let actions = vec![action];
    assert(views(actions@) =~= seq![action@]);
    ObjectActionHistory {
        uid,
        hashed_sqlite_id,
        latest_processed_at_timestamp: latest,
        actions,
    }
}

// ---------------------------------------------------------------------------------------------
// The client
// ---------------------------------------------------------------------------------------------
/// The client of objects that has no server.
#[derive(Clone, Copy, Debug, PartialEq, Eq, Structural)]
pub struct LocalObjectClient;

impl LocalObjectClient {
    /// A client.
    pub fn new() -> (r: Self)
        ensures
            r == LocalObjectClient,
    {
        LocalObjectClient
    }

    /// Creates a workflow.
    pub fn create_workflow(&self, request: CreateObjectRequest) -> (r: CreatedCloudObject)
        ensures
            created(request@.client_id, ObjectIdType::Workflow, request@.owner, r@),
    {
        created_object(request, ObjectIdType::Workflow)
    }

    /// Creates a generic string object.
    pub fn create_generic_string_object(
        &self,
        request: CreateObjectRequest,
    ) -> (r: CreatedCloudObject)
        ensures
            created(request@.client_id, ObjectIdType::GenericStringObject, request@.owner, r@),
    {
        created_object(request, ObjectIdType::GenericStringObject)
    }

    /// Creates a notebook.
    pub fn create_notebook(&self, request: CreateObjectRequest) -> (r: CreatedCloudObject)
        ensures
            created(request@.client_id, ObjectIdType::Notebook, request@.owner, r@),
    {
        created_object(request, ObjectIdType::Notebook)
    }

    /// Creates a folder.
    pub fn create_folder(&self, request: CreateObjectRequest) -> (r: CreatedCloudObject)
        ensures
            created(request@.client_id, ObjectIdType::Folder, request@.owner, r@),
    {
        created_object(request, ObjectIdType::Folder)
    }

    /// Creates generic string objects for one owner, in the order of their identifiers.
    pub fn bulk_create_generic_string_objects(
        &self,
        owner: &Owner,
        client_ids: &Vec<String>,
    ) -> (r: Vec<
        CreatedCloudObject,
    >)
        ensures
            r@.len() == client_ids@.len(),
            forall|i: int|
                0 <= i < r@.len() ==> created(
                    client_ids@[i]@,
                    ObjectIdType::GenericStringObject,
                    owner@,
                    (#[trigger] r@[i])@,
                ),
    {
        let mut objects: Vec<CreatedCloudObject> = Vec::new();
        let mut i: usize = 0;
        while i < client_ids.len()
            invariant
                i <= client_ids.len(),
                objects@.len() == i,
                forall|k: int|
                    0 <= k < i ==> created(
                        client_ids@[k]@,
                        ObjectIdType::GenericStringObject,
                        owner@,
                        (#[trigger] objects@[k])@,
                    ),
            decreases client_ids.len() - i,
        {
            let object = created_cloud_object(
                client_ids[i].clone(),
                ObjectIdType::GenericStringObject,
                copy_owner(owner),
            );
            objects.push(object);
            i += 1;
        }
        objects
    }

    /// Takes a change of a workflow.
    pub fn update_workflow(
        &self,
        _workflow_id: &str,
        _data: &str,
        _revision: Option<Moment>,
    ) -> (r: RevisionAndLastEditor)
        ensures
            is_moment(r.revision),
            r@ == revision_at(r.revision),
    {
        update_success()
    }

    /// Takes a change of a notebook.
    pub fn update_notebook(
        &self,
        _notebook_id: &str,
        _title: Option<&str>,
        _data: Option<&str>,
        _revision: Option<Moment>,
    ) -> (r: RevisionAndLastEditor)
        ensures
            is_moment(r.revision),
            r@ == revision_at(r.revision),
    {
        update_success()
    }

    /// Takes a change of a folder.
    pub fn update_folder(&self, _folder_id: &str, _name: &str) -> (r: RevisionAndLastEditor)
        ensures
            is_moment(r.revision),
            r@ == revision_at(r.revision),
    {
        update_success()
    }

    /// Takes a change of a generic string object.
    pub fn update_generic_string_object(
        &self,
        _object_id: &str,
        _model: &str,
        _revision: Option<Moment>,
    ) -> (r: RevisionAndLastEditor)
        ensures
            is_moment(r.revision),
            r@ == revision_at(r.revision),
    {
        update_success()
    }

    /// Starts editing a notebook.
    pub fn grab_notebook_edit_access(&self, notebook_id: String) -> (r: ServerMetadata)
        ensures
            is_moment(r.revision),
            r@ == metadata_at(notebook_id@, None, r.revision),
    {
        server_metadata(notebook_id, None)
    }

    /// Stops editing a notebook.
    pub fn give_up_notebook_edit_access(&self, notebook_id: String) -> (r: ServerMetadata)
        ensures
            is_moment(r.revision),
            r@ == metadata_at(notebook_id@, None, r.revision),
    {
        server_metadata(notebook_id, None)
    }

    /// Takes an object out of the trash.
    pub fn untrash_object(&self, id: String) -> (r: ServerMetadata)
        ensures
            is_moment(r.revision),
            r@ == metadata_at(id@, None, r.revision),
    {
        server_metadata(id, None)
    }

    /// Fetches what has changed, which is nothing without a server.
    pub fn fetch_changed_objects(&self) -> (r: Vec<ServerMetadata>)
        ensures
            r@.len() == 0,
    {
        Vec::new()
    }

    /// Fetches an object, which there is no server to fetch from.
    pub fn fetch_single_cloud_object(&self, _id: &str) -> (r: Result<ServerMetadata, String>)
        ensures
            r matches Err(message) && message@
                == "WarpOCA local object store has no remote object fetch"@,
    {
        Err("WarpOCA local object store has no remote object fetch".to_owned())
    }

    /// Gives a notebook to another owner.
    pub fn transfer_notebook_owner(&self, _notebook_id: &str, _owner: &Owner) -> (r: bool)
        ensures
            r,
    {
        true
    }

    /// Gives a workflow to another owner.
    pub fn transfer_workflow_owner(&self, _workflow_id: &str, _owner: &Owner) -> (r: bool)
        ensures
            r,
    {
        true
    }

    /// Gives a generic string object to another owner.
    pub fn transfer_generic_string_object_owner(
        &self,
        _object_id: &str,
        _owner: &Owner,
    ) -> (r: bool)
        ensures
            r,
    {
        true
    }

    /// Puts an object into the trash.
    pub fn trash_object(&self, _id: &str) -> (r: bool)
        ensures
            r,
    {
        true
    }

    /// Moves an object to another folder.
    pub fn move_object(&self, _id: &str, _folder_id: Option<&str>, _owner: &Owner) -> (r: bool)
        ensures
            r,
    {
        true
    }

    /// Deletes an object: the identifiers of what was deleted.
    pub fn delete_object(&self, id: String) -> (r: Vec<String>)
        ensures
            views(r@) == seq![id@],
    {
        let deleted = vec![id];
        assert(views(deleted@) =~= seq![id@]);
        deleted
    }

    /// Leaves an object, which deletes it: the identifiers of what was deleted.
    pub fn leave_object(&self, id: String) -> (r: Vec<String>)
        ensures
            views(r@) == seq![id@],
    {
        self.delete_object(id)
    }

    /// Empties the trash, in which nothing is: the identifiers of what was deleted.
    pub fn empty_trash(&self, _owner: &Owner) -> (r: Vec<String>)
        ensures
            r@.len() == 0,
    {
        Vec::new()
    }

    /// Records an action on an object, as processed.
    pub fn record_object_action(
        &self,
        uid: String,
        hashed_sqlite_id: String,
        action_type: String,
        timestamp: Moment,
        data: Option<String>,
    ) -> (r: ObjectActionHistory)
        ensures
            exists|processed: Moment, latest: Moment|
                #![trigger history_at(uid@, hashed_sqlite_id@, action_type@, timestamp, opt_view(data), processed, latest)]
                is_moment(processed) && is_moment(latest) && r@ == history_at(
                    uid@,
                    hashed_sqlite_id@,
                    action_type@,
                    timestamp,
                    opt_view(data),
                    processed,
                    latest,
                ),
    {
        let latest = utc_now();
        let processed = utc_now();
        action_history_at(
            uid,
            hashed_sqlite_id,
            action_type,
            timestamp,
            data,
            processed,
            latest,
        )
    }

    /// Sets what a link to an object allows.
    pub fn set_object_link_permissions(&self, _object_id: &str, _access_level: &str) -> (r:
        ObjectPermissionUpdateResult)
        ensures
            r == ObjectPermissionUpdateResult::Success,
    {
        ObjectPermissionUpdateResult::Success
    }

    /// Takes a link to an object back.
    pub fn remove_object_link_permissions(&self, _object_id: &str) -> (r:
        ObjectPermissionUpdateResult)
        ensures
            r == ObjectPermissionUpdateResult::Success,
    {
        ObjectPermissionUpdateResult::Success
    }

    /// Adds guests to an object, which still belongs to the local user alone.
    pub fn add_object_guests(
        &self,
        _object_id: &str,
        _guest_emails: &Vec<String>,
        _access_level: &str,
    ) -> (r: ObjectPermissionsUpdateData)
        ensures
            personal(the_local_owner(), r@.permissions),
            r@.profiles.len() == 0,
    {
        ObjectPermissionsUpdateData {
            permissions: personal_permissions(local_owner()),
            profiles: Vec::new(),
        }
    }

    /// Changes guests of an object, which still belongs to the local user alone.
    pub fn update_object_guests(
        &self,
        _object_id: &str,
        _guest_emails: &Vec<String>,
        _access_level: &str,
    ) -> (r: ServerPermissions)
        ensures
            personal(the_local_owner(), r@),
    {
        personal_permissions(local_owner())
    }

    /// Removes a guest of an object, which still belongs to the local user alone.
    pub fn remove_object_guest(&self, _object_id: &str, _guest: &str) -> (r: ServerPermissions)
        ensures
            personal(the_local_owner(), r@),
    {
        personal_permissions(local_owner())
    }

    /// When tasks last ran in environments, which none did.
    pub fn fetch_environment_last_task_run_timestamps(&self) -> (r: Vec<(String, Moment)>)
        ensures
            r@.len() == 0,
    {
        Vec::new()
    }
}

/// An object that is created keeps the identifier and the kind that it was asked for with, belongs
/// to its owner alone, and has no editor and no creator; all its times are that of its creation.
pub proof fn lemma_what_is_created(
    client_id: Seq<char>,
    id_type: ObjectIdType,
    owner: OwnerView,
    object: CreatedCloudObjectView,
)
    requires
        created(client_id, id_type, owner, object),
    ensures
        object.client_id == client_id,
        object.id_type == id_type,
        object.permissions.space == owner,
        object.permissions.guests.len() == 0,
        object.permissions.anyone_link_sharing is None,
        object.revision_and_editor.last_editor_uid is None,
        object.revision_and_editor.revision == object.metadata_ts,
        object.creator_uid is None,
        object.server_id.len() == 22,
{
}

/// What is known of an object: the identifier and the folder that were given, and nothing else but
/// the time; it is not in the trash.
pub proof fn lemma_what_is_known(id: Seq<char>, folder_id: Option<Seq<char>>, now: Moment)
    ensures
        ({
            let known = metadata_at(id, folder_id, now);
            &&& known.uid == id
            &&& known.folder_id == folder_id
            &&& known.revision == now && known.metadata_last_updated_ts == now
            &&& known.trashed_ts is None
            &&& !known.is_welcome_object
            &&& known.creator_uid is None && known.last_editor_uid is None
                && known.current_editor_uid is None
        }),
        revision_at(now).revision == now,
        revision_at(now).last_editor_uid is None,
        the_local_owner() == OwnerView::User("warpoca-local"@),
{
}

/// An action is recorded as it was reported, as done; the history of the object is that one action.
pub proof fn lemma_what_is_recorded(
    uid: Seq<char>,
    hashed_sqlite_id: Seq<char>,
    action_type: Seq<char>,
    timestamp: Moment,
    data: Option<Seq<char>>,
    processed: Moment,
    latest: Moment,
)
    ensures
        ({
            let history = history_at(
                uid,
                hashed_sqlite_id,
                action_type,
                timestamp,
                data,
                processed,
                latest,
            );
            &&& history.uid == uid && history.hashed_sqlite_id == hashed_sqlite_id
            &&& history.latest_processed_at_timestamp == latest
            &&& history.actions.len() == 1
            &&& history.actions[0].action_type == action_type
            &&& history.actions[0].uid == uid
            &&& history.actions[0].hashed_sqlite_id == hashed_sqlite_id
            &&& history.actions[0].timestamp == timestamp
            &&& history.actions[0].processed_at_timestamp == Some(processed)
            &&& history.actions[0].data == data
            &&& !history.actions[0].pending
        }),
{
}

} // verus!

//! ActivityStreams and ActivityPub vocabulary: the known document types.
use vstd::prelude::*;

use crate::document::str_eq;
use crate::document::view::PropertyError;

verus! {

/// An ActivityPub document type.
#[derive(Debug, Clone, Copy, PartialEq, Eq, PartialOrd, Ord, Hash)]
pub enum DocumentType {
    /// \[Core type\] `Object`.
    Object,
    /// \[Core type\] `Link`.
    Link,
    /// \[Core type\] `Activity`.
    Activity,
    /// \[Core type\] `IntransitiveActivity`.
    IntransitiveActivity,
    /// \[Core type\] `Collection`.
    Collection,
    /// \[Core type\] `OrderedCollection`.
    OrderedCollection,
    /// \[Core type\] `CollectionPage`.
    CollectionPage,
    /// \[Core type\] `OrderedCollectionPage`.
    OrderedCollectionPage,
    /// \[Activity type\] `Accept`.
    Accept,
    /// \[Activity type\] `Add`.
    Add,
    /// \[Activity type\] `Announce`.
    Announce,
    /// \[Activity type\] `Arrive`.
    Arrive,
    /// \[Activity type\] `Block`.
    Block,
    /// \[Activity type\] `Create`.
    Create,
    /// \[Activity type\] `Delete`.
    Delete,
    /// \[Activity type\] `Dislike`.
    Dislike,
    /// \[Activity type\] `Flag`.
    Flag,
    /// \[Activity type\] `Follow`.
    Follow,
    /// \[Activity type\] `Ignore`.
    Ignore,
    /// \[Activity type\] `Invite`.
    Invite,
    /// \[Activity type\] `Join`.
    Join,
    /// \[Activity type\] `Leave`.
    Leave,
    /// \[Activity type\] `Like`.
    Like,
    /// \[Activity type\] `Listen`.
    Listen,
    /// \[Activity type\] `Move`.
    Move,
    /// \[Activity type\] `Offer`.
    Offer,
    /// \[Activity type\] `Question`.
    Question,
    /// \[Activity type\] `Reject`.
    Reject,
    /// \[Activity type\] `Read`.
    Read,
    /// \[Activity type\] `Remove`.
    Remove,
    /// \[Activity type\] `TentativeAccept`.
    TentativeAccept,
    /// \[Activity type\] `TentativeReject`.
    TentativeReject,
    /// \[Activity type\] `Travel`.
    Travel,
    /// \[Activity type\] `Undo`.
    Undo,
    /// \[Activity type\] `Update`.
    Update,
    /// \[Activity type\] `View`.
    View,
    /// \[Actor type\] `Application`.
    Application,
    /// \[Actor type\] `Group`.
    Group,
    /// \[Actor type\] `Organization`.
    Organization,
    /// \[Actor type\] `Person`.
    Person,
    /// \[Actor type\] `Service`.
    Service,
    /// \[Object type\] `Article`.
    Article,
    /// \[Object type\] `Audio`.
    Audio,
    /// \[Object type\] `Document`.
    Document,
    /// \[Object type\] `Event`.
    Event,
    /// \[Object type\] `Image`.
    Image,
    /// \[Object type\] `Note`.
    Note,
    /// \[Object type\] `Page`.
    Page,
    /// \[Object type\] `Place`.
    Place,
    /// \[Object type\] `Profile`.
    Profile,
    /// \[Object type\] `Relationship`.
    Relationship,
    /// \[Object type\] `Tombstone`.
    Tombstone,
    /// \[Object type\] `Video`.
    Video,
}

/// An error which indicates unknown document type.
#[derive(Default, Debug, Clone, Copy, PartialEq, Eq, PartialOrd, Ord, Hash)]
pub struct UnknownDocumentTypeError;

impl DocumentType {
    /// The canonical name of the type.
    pub open spec fn spec_name(self) -> Seq<char> {
        match self {
            DocumentType::Object => "Object"@,
            DocumentType::Link => "Link"@,
            DocumentType::Activity => "Activity"@,
            DocumentType::IntransitiveActivity => "IntransitiveActivity"@,
            DocumentType::Collection => "Collection"@,
            DocumentType::OrderedCollection => "OrderedCollection"@,
            DocumentType::CollectionPage => "CollectionPage"@,
            DocumentType::OrderedCollectionPage => "OrderedCollectionPage"@,
            DocumentType::Accept => "Accept"@,
            DocumentType::Add => "Add"@,
            DocumentType::Announce => "Announce"@,
            DocumentType::Arrive => "Arrive"@,
            DocumentType::Block => "Block"@,
            DocumentType::Create => "Create"@,
            DocumentType::Delete => "Delete"@,
            DocumentType::Dislike => "Dislike"@,
            DocumentType::Flag => "Flag"@,
            DocumentType::Follow => "Follow"@,
            DocumentType::Ignore => "Ignore"@,
            DocumentType::Invite => "Invite"@,
            DocumentType::Join => "Join"@,
            DocumentType::Leave => "Leave"@,
            DocumentType::Like => "Like"@,
            DocumentType::Listen => "Listen"@,
            DocumentType::Move => "Move"@,
            DocumentType::Offer => "Offer"@,
            DocumentType::Question => "Question"@,
            DocumentType::Reject => "Reject"@,
            DocumentType::Read => "Read"@,
            DocumentType::Remove => "Remove"@,
            DocumentType::TentativeAccept => "TentativeAccept"@,
            DocumentType::TentativeReject => "TentativeReject"@,
            DocumentType::Travel => "Travel"@,
            DocumentType::Undo => "Undo"@,
            DocumentType::Update => "Update"@,
            DocumentType::View => "View"@,
            DocumentType::Application => "Application"@,
            DocumentType::Group => "Group"@,
            DocumentType::Organization => "Organization"@,
            DocumentType::Person => "Person"@,
            DocumentType::Service => "Service"@,
            DocumentType::Article => "Article"@,
            DocumentType::Audio => "Audio"@,
            DocumentType::Document => "Document"@,
            DocumentType::Event => "Event"@,
            DocumentType::Image => "Image"@,
            DocumentType::Note => "Note"@,
            DocumentType::Page => "Page"@,
            DocumentType::Place => "Place"@,
            DocumentType::Profile => "Profile"@,
            DocumentType::Relationship => "Relationship"@,
            DocumentType::Tombstone => "Tombstone"@,
            DocumentType::Video => "Video"@,
        }
    }

    /// Returns the canonical name of the type.
    pub fn as_str(&self) -> (r: &'static str)
        ensures
            r@ == self.spec_name(),
    {
        match self {
            DocumentType::Object => "Object",
            DocumentType::Link => "Link",
            DocumentType::Activity => "Activity",
            DocumentType::IntransitiveActivity => "IntransitiveActivity",
            DocumentType::Collection => "Collection",
            DocumentType::OrderedCollection => "OrderedCollection",
            DocumentType::CollectionPage => "CollectionPage",
            DocumentType::OrderedCollectionPage => "OrderedCollectionPage",
            DocumentType::Accept => "Accept",
            DocumentType::Add => "Add",
            DocumentType::Announce => "Announce",
            DocumentType::Arrive => "Arrive",
            DocumentType::Block => "Block",
            DocumentType::Create => "Create",
            DocumentType::Delete => "Delete",
            DocumentType::Dislike => "Dislike",
            DocumentType::Flag => "Flag",
            DocumentType::Follow => "Follow",
            DocumentType::Ignore => "Ignore",
            DocumentType::Invite => "Invite",
            DocumentType::Join => "Join",
            DocumentType::Leave => "Leave",
            DocumentType::Like => "Like",
            DocumentType::Listen => "Listen",
            DocumentType::Move => "Move",
            DocumentType::Offer => "Offer",
            DocumentType::Question => "Question",
            DocumentType::Reject => "Reject",
            DocumentType::Read => "Read",
            DocumentType::Remove => "Remove",
            DocumentType::TentativeAccept => "TentativeAccept",
            DocumentType::TentativeReject => "TentativeReject",
            DocumentType::Travel => "Travel",
            DocumentType::Undo => "Undo",
            DocumentType::Update => "Update",
            DocumentType::View => "View",
            DocumentType::Application => "Application",
            DocumentType::Group => "Group",
            DocumentType::Organization => "Organization",
            DocumentType::Person => "Person",
            DocumentType::Service => "Service",
            DocumentType::Article => "Article",
            DocumentType::Audio => "Audio",
            DocumentType::Document => "Document",
            DocumentType::Event => "Event",
            DocumentType::Image => "Image",
            DocumentType::Note => "Note",
            DocumentType::Page => "Page",
            DocumentType::Place => "Place",
            DocumentType::Profile => "Profile",
            DocumentType::Relationship => "Relationship",
            DocumentType::Tombstone => "Tombstone",
            DocumentType::Video => "Video",
        }
    }

    /// Returns the canonical name of the type as an owned string.
    pub fn to_string(&self) -> (r: String)
        ensures
            r@ == self.spec_name(),
    {
        self.as_str().to_owned()
    }

    /// Returns the type whose canonical name is `s`.
    pub fn from_name(s: &str) -> (r: Result<DocumentType, UnknownDocumentTypeError>)
        ensures
            r matches Ok(t) ==> t.spec_name() == s@,
            r is Err <==> forall|t: DocumentType| t.spec_name() != s@,
    {
        if str_eq(s, "Object") {
            assert(DocumentType::Object.spec_name() == s@);
            return Ok(DocumentType::Object);
        }
        if str_eq(s, "Link") {
            assert(DocumentType::Link.spec_name() == s@);
            return Ok(DocumentType::Link);
        }
        if str_eq(s, "Activity") {
            assert(DocumentType::Activity.spec_name() == s@);
            return Ok(DocumentType::Activity);
        }
        if str_eq(s, "IntransitiveActivity") {
            assert(DocumentType::IntransitiveActivity.spec_name() == s@);
            return Ok(DocumentType::IntransitiveActivity);
        }
        if str_eq(s, "Collection") {
            assert(DocumentType::Collection.spec_name() == s@);
            return Ok(DocumentType::Collection);
        }
        if str_eq(s, "OrderedCollection") {
            assert(DocumentType::OrderedCollection.spec_name() == s@);
            return Ok(DocumentType::OrderedCollection);
        }
        if str_eq(s, "CollectionPage") {
            assert(DocumentType::CollectionPage.spec_name() == s@);
            return Ok(DocumentType::CollectionPage);
        }
        if str_eq(s, "OrderedCollectionPage") {
            assert(DocumentType::OrderedCollectionPage.spec_name() == s@);
            return Ok(DocumentType::OrderedCollectionPage);
        }
        if str_eq(s, "Accept") {
            assert(DocumentType::Accept.spec_name() == s@);
            return Ok(DocumentType::Accept);
        }
        if str_eq(s, "Add") {
            assert(DocumentType::Add.spec_name() == s@);
            return Ok(DocumentType::Add);
        }
        if str_eq(s, "Announce") {
            assert(DocumentType::Announce.spec_name() == s@);
            return Ok(DocumentType::Announce);
        }
        if str_eq(s, "Arrive") {
            assert(DocumentType::Arrive.spec_name() == s@);
            return Ok(DocumentType::Arrive);
        }
        if str_eq(s, "Block") {
            assert(DocumentType::Block.spec_name() == s@);
            return Ok(DocumentType::Block);
        }
        if str_eq(s, "Create") {
            assert(DocumentType::Create.spec_name() == s@);
            return Ok(DocumentType::Create);
        }
        if str_eq(s, "Delete") {
            assert(DocumentType::Delete.spec_name() == s@);
            return Ok(DocumentType::Delete);
        }
        if str_eq(s, "Dislike") {
            assert(DocumentType::Dislike.spec_name() == s@);
            return Ok(DocumentType::Dislike);
        }
        if str_eq(s, "Flag") {
            assert(DocumentType::Flag.spec_name() == s@);
            return Ok(DocumentType::Flag);
        }
        if str_eq(s, "Follow") {
            assert(DocumentType::Follow.spec_name() == s@);
            return Ok(DocumentType::Follow);
        }
        if str_eq(s, "Ignore") {
            assert(DocumentType::Ignore.spec_name() == s@);
            return Ok(DocumentType::Ignore);
        }
        if str_eq(s, "Invite") {
            assert(DocumentType::Invite.spec_name() == s@);
            return Ok(DocumentType::Invite);
        }
        if str_eq(s, "Join") {
            assert(DocumentType::Join.spec_name() == s@);
            return Ok(DocumentType::Join);
        }
        if str_eq(s, "Leave") {
            assert(DocumentType::Leave.spec_name() == s@);
            return Ok(DocumentType::Leave);
        }
        if str_eq(s, "Like") {
            assert(DocumentType::Like.spec_name() == s@);
            return Ok(DocumentType::Like);
        }
        if str_eq(s, "Listen") {
            assert(DocumentType::Listen.spec_name() == s@);
            return Ok(DocumentType::Listen);
        }
        if str_eq(s, "Move") {
            assert(DocumentType::Move.spec_name() == s@);
            return Ok(DocumentType::Move);
        }
        if str_eq(s, "Offer") {
            assert(DocumentType::Offer.spec_name() == s@);
            return Ok(DocumentType::Offer);
        }
        if str_eq(s, "Question") {
            assert(DocumentType::Question.spec_name() == s@);
            return Ok(DocumentType::Question);
        }
        if str_eq(s, "Reject") {
            assert(DocumentType::Reject.spec_name() == s@);
            return Ok(DocumentType::Reject);
        }
        if str_eq(s, "Read") {
            assert(DocumentType::Read.spec_name() == s@);
            return Ok(DocumentType::Read);
        }
        if str_eq(s, "Remove") {
            assert(DocumentType::Remove.spec_name() == s@);
            return Ok(DocumentType::Remove);
        }
        if str_eq(s, "TentativeAccept") {
            assert(DocumentType::TentativeAccept.spec_name() == s@);
            return Ok(DocumentType::TentativeAccept);
        }
        if str_eq(s, "TentativeReject") {
            assert(DocumentType::TentativeReject.spec_name() == s@);
            return Ok(DocumentType::TentativeReject);
        }
        if str_eq(s, "Travel") {
            assert(DocumentType::Travel.spec_name() == s@);
            return Ok(DocumentType::Travel);
        }
        if str_eq(s, "Undo") {
            assert(DocumentType::Undo.spec_name() == s@);
            return Ok(DocumentType::Undo);
        }
        if str_eq(s, "Update") {
            assert(DocumentType::Update.spec_name() == s@);
            return Ok(DocumentType::Update);
        }
        if str_eq(s, "View") {
            assert(DocumentType::View.spec_name() == s@);
            return Ok(DocumentType::View);
        }
        if str_eq(s, "Application") {
            assert(DocumentType::Application.spec_name() == s@);
            return Ok(DocumentType::Application);
        }
        if str_eq(s, "Group") {
            assert(DocumentType::Group.spec_name() == s@);
            return Ok(DocumentType::Group);
        }
        if str_eq(s, "Organization") {
            assert(DocumentType::Organization.spec_name() == s@);
            return Ok(DocumentType::Organization);
        }
        if str_eq(s, "Person") {
            assert(DocumentType::Person.spec_name() == s@);
            return Ok(DocumentType::Person);
        }
        if str_eq(s, "Service") {
            assert(DocumentType::Service.spec_name() == s@);
            return Ok(DocumentType::Service);
        }
        if str_eq(s, "Article") {
            assert(DocumentType::Article.spec_name() == s@);
            return Ok(DocumentType::Article);
        }
        if str_eq(s, "Audio") {
            assert(DocumentType::Audio.spec_name() == s@);
            return Ok(DocumentType::Audio);
        }
        if str_eq(s, "Document") {
            assert(DocumentType::Document.spec_name() == s@);
            return Ok(DocumentType::Document);
        }
        if str_eq(s, "Event") {
            assert(DocumentType::Event.spec_name() == s@);
            return Ok(DocumentType::Event);
        }
        if str_eq(s, "Image") {
            assert(DocumentType::Image.spec_name() == s@);
            return Ok(DocumentType::Image);
        }
        if str_eq(s, "Note") {
            assert(DocumentType::Note.spec_name() == s@);
            return Ok(DocumentType::Note);
        }
        if str_eq(s, "Page") {
            assert(DocumentType::Page.spec_name() == s@);
            return Ok(DocumentType::Page);
        }
        if str_eq(s, "Place") {
            assert(DocumentType::Place.spec_name() == s@);
            return Ok(DocumentType::Place);
        }
        if str_eq(s, "Profile") {
            assert(DocumentType::Profile.spec_name() == s@);
            return Ok(DocumentType::Profile);
        }
        if str_eq(s, "Relationship") {
            assert(DocumentType::Relationship.spec_name() == s@);
            return Ok(DocumentType::Relationship);
        }
        if str_eq(s, "Tombstone") {
            assert(DocumentType::Tombstone.spec_name() == s@);
            return Ok(DocumentType::Tombstone);
        }
        if str_eq(s, "Video") {
            assert(DocumentType::Video.spec_name() == s@);
            return Ok(DocumentType::Video);
        }
        proof {
            assert forall|t: DocumentType| t.spec_name() != s@ by {
                match t {
                    DocumentType::Object => {},
                    DocumentType::Link => {},
                    DocumentType::Activity => {},
                    DocumentType::IntransitiveActivity => {},
                    DocumentType::Collection => {},
                    DocumentType::OrderedCollection => {},
                    DocumentType::CollectionPage => {},
                    DocumentType::OrderedCollectionPage => {},
                    DocumentType::Accept => {},
                    DocumentType::Add => {},
                    DocumentType::Announce => {},
                    DocumentType::Arrive => {},
                    DocumentType::Block => {},
                    DocumentType::Create => {},
                    DocumentType::Delete => {},
                    DocumentType::Dislike => {},
                    DocumentType::Flag => {},
                    DocumentType::Follow => {},
                    DocumentType::Ignore => {},
                    DocumentType::Invite => {},
                    DocumentType::Join => {},
                    DocumentType::Leave => {},
                    DocumentType::Like => {},
                    DocumentType::Listen => {},
                    DocumentType::Move => {},
                    DocumentType::Offer => {},
                    DocumentType::Question => {},
                    DocumentType::Reject => {},
                    DocumentType::Read => {},
                    DocumentType::Remove => {},
                    DocumentType::TentativeAccept => {},
                    DocumentType::TentativeReject => {},
                    DocumentType::Travel => {},
                    DocumentType::Undo => {},
                    DocumentType::Update => {},
                    DocumentType::View => {},
                    DocumentType::Application => {},
                    DocumentType::Group => {},
                    DocumentType::Organization => {},
                    DocumentType::Person => {},
                    DocumentType::Service => {},
                    DocumentType::Article => {},
                    DocumentType::Audio => {},
                    DocumentType::Document => {},
                    DocumentType::Event => {},
                    DocumentType::Image => {},
                    DocumentType::Note => {},
                    DocumentType::Page => {},
                    DocumentType::Place => {},
                    DocumentType::Profile => {},
                    DocumentType::Relationship => {},
                    DocumentType::Tombstone => {},
                    DocumentType::Video => {},
                }
            }
        }
        Err(UnknownDocumentTypeError)
    }
}

impl core::str::FromStr for DocumentType {
    type Err = UnknownDocumentTypeError;

    fn from_str(s: &str) -> Result<DocumentType, UnknownDocumentTypeError> {
        DocumentType::from_name(s)
    }
}

impl From<UnknownDocumentTypeError> for PropertyError {
    fn from(e: UnknownDocumentTypeError) -> PropertyError {
        PropertyError::UnknownDocumentType
    }
}

impl vstd::std_specs::convert::FromSpecImpl<UnknownDocumentTypeError> for PropertyError {
    open spec fn obeys_from_spec() -> bool {
        true
    }

    open spec fn from_spec(v: UnknownDocumentTypeError) -> PropertyError {
        PropertyError::UnknownDocumentType
    }
}

} // verus!

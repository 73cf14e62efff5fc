//! Names of vocabulary properties, used as keys of map nodes.
use vstd::prelude::*;

verus! {

/// `attachment`.
pub const ATTACHMENT: &'static str = "attachment";

/// `attributedTo`.
pub const ATTRIBUTED_TO: &'static str = "attributedTo";

/// `audience`.
pub const AUDIENCE: &'static str = "audience";

/// `bcc`.
pub const BCC: &'static str = "bcc";

/// `bto`.
pub const BTO: &'static str = "bto";

/// `cc`.
pub const CC: &'static str = "cc";

/// `content`.
pub const CONTENT: &'static str = "content";

/// `context`.
pub const CONTEXT: &'static str = "context";

/// `duration`.
pub const DURATION: &'static str = "duration";

/// `endTime`.
pub const END_TIME: &'static str = "endTime";

/// `generator`.
pub const GENERATOR: &'static str = "generator";

/// `height`.
pub const HEIGHT: &'static str = "height";

/// `href`.
pub const HREF: &'static str = "href";

/// `hreflang`.
pub const HREFLANG: &'static str = "hreflang";

/// `icon`.
pub const ICON: &'static str = "icon";

/// `id`.
pub const ID: &'static str = "id";

/// `image`.
pub const IMAGE: &'static str = "image";

/// `inReplyTo`.
pub const IN_REPLY_TO: &'static str = "inReplyTo";

/// `location`.
pub const LOCATION: &'static str = "location";

/// `mediaType`.
pub const MEDIA_TYPE: &'static str = "mediaType";

/// `name`.
pub const NAME: &'static str = "name";

/// `preview`.
pub const PREVIEW: &'static str = "preview";

/// `published`.
pub const PUBLISHED: &'static str = "published";

/// `rel`.
pub const REL: &'static str = "rel";

/// `replies`.
pub const REPLIES: &'static str = "replies";

/// `startTime`.
pub const START_TIME: &'static str = "startTime";

/// `summary`.
pub const SUMMARY: &'static str = "summary";

/// `tag`.
pub const TAG: &'static str = "tag";

/// `to`.
pub const TO: &'static str = "to";

/// `type`.
pub const TYPE: &'static str = "type";

/// `updated`.
pub const UPDATED: &'static str = "updated";

/// `url`.
pub const URL: &'static str = "url";

/// `width`.
pub const WIDTH: &'static str = "width";

} // verus!

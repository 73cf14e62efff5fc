use rustivitypub::document::view::{IriView, PropertyError};
use rustivitypub::document::vocabulary::{DocumentType, UnknownDocumentTypeError};
use rustivitypub::document::{str_eq, JsonNumber, JsonObject, JsonValue};
use rustivitypub::iri::{IriParseError, ResolvedIri, ResolvedIriBuf};
use rustivitypub::{Iri, IriBuf};

#[test]
fn valid_iri_resolves_with_host() {
    let r = ResolvedIri::try_from_str("https://example.com/a").unwrap();
    assert_eq!(r.as_url().host_str(), Some("example.com"));
    assert_eq!(r.as_url().as_str(), "https://example.com/a");
    assert_eq!(r.as_iri().as_str(), "https://example.com/a");
    assert!(Iri::try_from_str("https://example.com/a").is_ok());
}

#[test]
fn invalid_iri_fails_with_parse_error() {
    assert!(matches!(Iri::try_from_str("not a url"), Err(IriParseError::Url(_))));
    assert!(matches!(ResolvedIri::try_from_str("not a url"), Err(IriParseError::Url(_))));
    assert!(IriBuf::try_from_string("not a url".to_string()).is_err());
    assert!(ResolvedIriBuf::try_from_string("not a url".to_string()).is_err());
    let v = IriView::new("not a url");
    assert!(matches!(v.to_iri(), Err(PropertyError::Iri(IriParseError::Url(_)))));
}

#[test]
fn unchecked_iri_resolves_like_checked() {
    let checked = ResolvedIri::try_from_str("https://example.com/a/../b?q=1").unwrap();
    let rewrapped = Iri::from_str_unchecked(checked.as_iri().as_str());
    let url = rewrapped.to_url();
    assert_eq!(url.as_str(), checked.as_url().as_str());
    assert_eq!(url.host_str(), checked.as_url().host_str());
    assert_eq!(url.as_str(), "https://example.com/b?q=1");

    let owned = IriBuf::from_string_unchecked(checked.as_iri().as_str().to_string());
    assert_eq!(owned.to_url().as_str(), checked.as_url().as_str());
}

#[test]
fn url_serialization_is_normalized() {
    let r = ResolvedIri::try_from_str("HTTPS://EXAMPLE.com").unwrap();
    assert_eq!(r.as_url().as_str(), "https://example.com/");
    assert_eq!(r.as_url().host_str(), Some("example.com"));
    assert_eq!(r.as_iri().as_str(), "HTTPS://EXAMPLE.com");
    let r = ResolvedIri::try_from_str("urn:isbn:0451450523").unwrap();
    assert_eq!(r.as_url().host_str(), None);
}

#[test]
fn owned_iris() {
    let b = IriBuf::try_from_string("https://ex.example/x".to_string()).unwrap();
    assert_eq!(b.as_str(), "https://ex.example/x");
    assert_eq!(b.as_iri().as_str(), "https://ex.example/x");
    assert_eq!(b.to_url().host_str(), Some("ex.example"));
    let i = Iri::try_from_str("https://ex.example/y").unwrap();
    assert_eq!(i.to_iri_buf().as_str(), "https://ex.example/y");

    let r = ResolvedIriBuf::try_from_string("https://ex.example/z".to_string()).unwrap();
    assert_eq!(r.as_iri().as_str(), "https://ex.example/z");
    assert_eq!(r.as_url().as_str(), "https://ex.example/z");
    let (iri, url) = r.into_inner();
    assert_eq!(iri.as_str(), "https://ex.example/z");
    assert_eq!(url.host_str(), Some("ex.example"));

    let borrowed = ResolvedIri::try_from_str("https://ex.example/w").unwrap();
    let owned = ResolvedIriBuf::from_resolved(borrowed);
    assert_eq!(owned.as_url().as_str(), "https://ex.example/w");
    let (iri, url) = ResolvedIri::try_from_str("https://ex.example/v").unwrap().into_inner();
    assert_eq!(iri.as_str(), "https://ex.example/v");
    assert_eq!(url.as_str(), "https://ex.example/v");
}

#[test]
fn iri_view_to_iri() {
    let v = IriView::new("https://ex.example/n");
    let r = v.to_iri().unwrap();
    assert_eq!(r.as_url().as_str(), "https://ex.example/n");
}

#[test]
fn document_type_names() {
    assert_eq!(DocumentType::from_name("Note"), Ok(DocumentType::Note));
    assert_eq!(DocumentType::from_name("OrderedCollectionPage"), Ok(DocumentType::OrderedCollectionPage));
    assert_eq!(DocumentType::from_name("Video"), Ok(DocumentType::Video));
    assert_eq!(DocumentType::from_name("note"), Err(UnknownDocumentTypeError));
    assert_eq!(DocumentType::from_name(""), Err(UnknownDocumentTypeError));
    assert_eq!(DocumentType::Note.as_str(), "Note");
    assert_eq!(DocumentType::TentativeAccept.as_str(), "TentativeAccept");
    assert_eq!(DocumentType::IntransitiveActivity.to_string(), "IntransitiveActivity".to_string());
    for t in [DocumentType::Object, DocumentType::Link, DocumentType::Person, DocumentType::Tombstone] {
        assert_eq!(DocumentType::from_name(t.as_str()), Ok(t));
    }
}

#[test]
fn error_descriptions() {
    assert_eq!(PropertyError::NoSuchProperty.description(), "Property not found");
    assert_eq!(PropertyError::TypeMismatch.description(), "Unexpected type of property");
    assert_eq!(PropertyError::UnknownDocumentType.description(), "Unknown document type");
    let e = Iri::try_from_str("no scheme").unwrap_err();
    let p: PropertyError = e.into();
    assert_eq!(p, PropertyError::Iri(e));
    assert_eq!(p.description(), "IRI parse error");
}

#[test]
fn json_object_insert_and_get() {
    let mut m = JsonObject::new();
    assert_eq!(m.len(), 0);
    assert_eq!(m.insert("a".to_string(), JsonValue::Null), None);
    assert_eq!(m.insert("b".to_string(), JsonValue::Bool(true)), None);
    assert_eq!(m.insert("a".to_string(), JsonValue::Bool(false)), Some(JsonValue::Null));
    assert_eq!(m.len(), 2);
    assert_eq!(m.get("a"), Some(&JsonValue::Bool(false)));
    assert_eq!(m.get("c"), None);
    assert_eq!(m.entry(0), ("a", &JsonValue::Bool(false)));
    assert_eq!(m.entry(1), ("b", &JsonValue::Bool(true)));
    let v = JsonValue::Object(m);
    assert_eq!(v.get("b"), Some(&JsonValue::Bool(true)));
    assert_eq!(JsonValue::Null.get("b"), None);
}

#[test]
fn json_number_as_u64() {
    assert_eq!(JsonNumber::PosInt(7).as_u64(), Some(7));
    assert_eq!(JsonNumber::NegInt(-7).as_u64(), None);
    assert_eq!(JsonNumber::Decimal("7.5".to_string()).as_u64(), None);
}

#[test]
fn string_comparison() {
    assert!(str_eq("abc", "abc"));
    assert!(!str_eq("abc", "abd"));
    assert!(!str_eq("abc", "ab"));
    assert!(str_eq("", ""));
    assert!(str_eq("héllo", "héllo"));
    assert!(!str_eq("héllo", "hello"));
}

#[test]
fn parse_from_str() {
    let t: DocumentType = "Person".parse().unwrap();
    assert_eq!(t, DocumentType::Person);
    assert_eq!("Nobody".parse::<DocumentType>(), Err(UnknownDocumentTypeError));
    let b: IriBuf = "https://ex.example/p".parse().unwrap();
    assert_eq!(b.as_str(), "https://ex.example/p");
    assert!("not a url".parse::<IriBuf>().is_err());
    let r: ResolvedIriBuf = "https://ex.example/q".parse().unwrap();
    assert_eq!(r.as_url().host_str(), Some("ex.example"));
    assert!("not a url".parse::<ResolvedIriBuf>().is_err());
}

#[test]
fn unknown_document_type_error_maps_to_property_error() {
    let e = DocumentType::from_name("Nothing").unwrap_err();
    assert_eq!(PropertyError::from(e), PropertyError::UnknownDocumentType);
}

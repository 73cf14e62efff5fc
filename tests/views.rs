use rustivitypub::document::view::fetch::property;
use rustivitypub::document::view::{
    ImageOrLinkView, LinkView, NaturalLanguageView, ObjectOrLinkView, ObjectView, PropertyError,
    SingleOrMultiJsonView, SingleOrMultiView, TryFromJsonValue,
};
use rustivitypub::document::{JsonNumber, JsonObject, JsonValue};

fn s(x: &str) -> JsonValue {
    JsonValue::String(x.to_string())
}

fn n(x: u64) -> JsonValue {
    JsonValue::Number(JsonNumber::PosInt(x))
}

fn obj(pairs: Vec<(&str, JsonValue)>) -> JsonValue {
    let mut m = JsonObject::new();
    for (k, v) in pairs {
        m.insert(k.to_string(), v);
    }
    JsonValue::Object(m)
}

#[test]
fn missing_property_gives_no_such_property() {
    let doc = obj(vec![("other", s("x"))]);
    let o = ObjectView::try_from_json_value(&doc).unwrap();
    let nsp = PropertyError::NoSuchProperty;
    assert_eq!(o.id().unwrap_err(), nsp);
    assert_eq!(o.type_raw().unwrap_err(), nsp);
    assert_eq!(o.attachment().unwrap_err(), nsp);
    assert_eq!(o.audience().unwrap_err(), nsp);
    assert_eq!(o.attributed_to().unwrap_err(), nsp);
    assert_eq!(o.bto().unwrap_err(), nsp);
    assert_eq!(o.content().unwrap_err(), nsp);
    assert_eq!(o.context().unwrap_err(), nsp);
    assert_eq!(o.end_time().unwrap_err(), nsp);
    assert_eq!(o.generator().unwrap_err(), nsp);
    assert_eq!(o.icon().unwrap_err(), nsp);
    assert_eq!(o.image().unwrap_err(), nsp);
    assert_eq!(o.in_reply_to().unwrap_err(), nsp);
    assert_eq!(o.location().unwrap_err(), nsp);
    assert_eq!(o.name().unwrap_err(), nsp);
    assert_eq!(o.media_type().unwrap_err(), nsp);
    assert_eq!(o.preview().unwrap_err(), nsp);
    assert_eq!(o.published().unwrap_err(), nsp);
    assert_eq!(o.replies().unwrap_err(), nsp);
    assert_eq!(o.start_time().unwrap_err(), nsp);
    assert_eq!(o.summary().unwrap_err(), nsp);
    assert_eq!(o.tag().unwrap_err(), nsp);
    assert_eq!(o.to().unwrap_err(), nsp);
    assert_eq!(o.updated().unwrap_err(), nsp);
    assert_eq!(o.url().unwrap_err(), nsp);
    assert_eq!(property::bcc(&doc).unwrap_err(), nsp);
    assert_eq!(property::cc(&doc).unwrap_err(), nsp);
    assert_eq!(property::duration(&doc).unwrap_err(), nsp);

    let l = LinkView::try_from_json_value(&doc).unwrap();
    assert_eq!(l.type_raw().unwrap_err(), nsp);
    assert_eq!(l.href().unwrap_err(), nsp);
    assert_eq!(l.height().unwrap_err(), nsp);
    assert_eq!(l.hreflang().unwrap_err(), nsp);
    assert_eq!(l.media_type().unwrap_err(), nsp);
    assert_eq!(l.name().unwrap_err(), nsp);
    assert_eq!(l.preview().unwrap_err(), nsp);
    assert_eq!(l.rel().unwrap_err(), nsp);
    assert_eq!(l.width().unwrap_err(), nsp);
}

#[test]
fn property_on_non_map_node_is_absent() {
    let node = s("https://ex.example/x");
    assert_eq!(property::type_raw(&node), Err(PropertyError::NoSuchProperty));
    assert_eq!(property::to(&node).unwrap_err(), PropertyError::NoSuchProperty);
}

#[test]
fn id_null_gives_none() {
    let doc = obj(vec![("id", JsonValue::Null)]);
    assert_eq!(property::id(&doc), Ok(None));
}

#[test]
fn id_absent_gives_no_such_property() {
    let doc = obj(vec![("type", s("Note"))]);
    assert_eq!(property::id(&doc), Err(PropertyError::NoSuchProperty));
}

#[test]
fn id_non_string_gives_type_mismatch() {
    let doc = obj(vec![("id", n(3))]);
    assert_eq!(property::id(&doc), Err(PropertyError::TypeMismatch));
    let doc = obj(vec![("id", JsonValue::Bool(true))]);
    assert_eq!(property::id(&doc), Err(PropertyError::TypeMismatch));
}

#[test]
fn single_or_multi_bare_node() {
    let node = s("a");
    let v = SingleOrMultiJsonView::new(&node);
    assert!(matches!(v, SingleOrMultiJsonView::Single(_)));
    assert_eq!(v.len(), 1);
    let mut it = v.iter();
    assert_eq!(it.len(), 1);
    assert_eq!(it.next(), Some(&node));
    assert_eq!(it.next(), None);
}

#[test]
fn single_or_multi_array_keeps_order() {
    let node = JsonValue::Array(vec![s("a"), s("b"), s("c")]);
    let v = SingleOrMultiJsonView::new(&node);
    assert_eq!(v.len(), 3);
    let mut it = v.iter();
    assert_eq!(it.size_hint(), (3, Some(3)));
    assert_eq!(it.next(), Some(&s("a")));
    assert_eq!(it.next(), Some(&s("b")));
    assert_eq!(it.len(), 1);
    assert_eq!(it.next(), Some(&s("c")));
    assert_eq!(it.next(), None);
}

#[test]
fn single_or_multi_empty_array() {
    let node = JsonValue::Array(vec![]);
    let v = SingleOrMultiJsonView::new(&node);
    assert!(matches!(v, SingleOrMultiJsonView::Multi(_)));
    assert_eq!(v.len(), 0);
    let mut it = v.iter();
    assert_eq!(it.len(), 0);
    assert_eq!(it.next(), None);
    assert_eq!(it.next_back(), None);
    assert_eq!(v.iter().count(), 0);
    assert_eq!(v.iter().last(), None);
}

#[test]
fn single_or_multi_reverse_order() {
    let node = JsonValue::Array(vec![s("a"), s("b"), s("c")]);
    let v = SingleOrMultiJsonView::new(&node);
    let mut forward = Vec::new();
    let mut it = v.iter();
    while let Some(x) = it.next() {
        forward.push(x);
    }
    let mut backward = Vec::new();
    let mut it = v.iter();
    while let Some(x) = it.next_back() {
        backward.push(x);
    }
    backward.reverse();
    assert_eq!(forward, backward);
    assert_eq!(forward, vec![&s("a"), &s("b"), &s("c")]);
}

#[test]
fn single_or_multi_both_ends_meet() {
    let node = JsonValue::Array(vec![s("a"), s("b"), s("c")]);
    let v = SingleOrMultiJsonView::new(&node);
    let mut it = v.iter();
    assert_eq!(it.next_back(), Some(&s("c")));
    assert_eq!(it.next(), Some(&s("a")));
    assert_eq!(it.next_back(), Some(&s("b")));
    assert_eq!(it.next(), None);
    assert_eq!(it.next_back(), None);
}

#[test]
fn single_or_multi_nth_last_count() {
    let node = JsonValue::Array(vec![s("a"), s("b"), s("c"), s("d")]);
    let v = SingleOrMultiJsonView::new(&node);
    let mut it = v.iter();
    assert_eq!(it.nth(1), Some(&s("b")));
    assert_eq!(it.len(), 2);
    assert_eq!(it.next(), Some(&s("c")));
    assert_eq!(it.nth(5), None);
    assert_eq!(it.len(), 0);
    assert_eq!(v.iter().last(), Some(&s("d")));
    assert_eq!(v.iter().count(), 4);
}

#[test]
fn single_or_multi_view_converts_each_item() {
    let node = JsonValue::Array(vec![
        s("https://ex.example/a"),
        obj(vec![("type", s("Note"))]),
        n(5),
        s("https://ex.example/b"),
        JsonValue::Null,
    ]);
    let v: SingleOrMultiView<ObjectOrLinkView> =
        SingleOrMultiView::try_from_json_value(&node).unwrap();
    let mut it = v.iter();
    assert_eq!(it.len(), 5);
    assert!(it.next().unwrap().is_ok());
    assert!(it.next().unwrap().is_ok());
    assert_eq!(it.next().unwrap().unwrap_err(), PropertyError::TypeMismatch);
    assert!(it.next().unwrap().is_ok());
    assert_eq!(it.next().unwrap().unwrap_err(), PropertyError::TypeMismatch);
    assert!(it.next().is_none());

    let mut it = v.iter();
    assert_eq!(it.next_back().unwrap().unwrap_err(), PropertyError::TypeMismatch);
    assert!(it.next_back().unwrap().is_ok());
    assert_eq!(it.nth(1).unwrap().unwrap().object_view().unwrap().type_raw(), Ok("Note"));
    assert_eq!(it.count(), 1);
    assert_eq!(v.iter().last().unwrap().unwrap_err(), PropertyError::TypeMismatch);
    assert_eq!(v.iter().size_hint(), (5, Some(5)));
}

#[test]
fn either_view_narrowing_is_repeatable() {
    let node = obj(vec![("type", s("Note"))]);
    let e1 = ObjectOrLinkView::try_from_json_value(&node).unwrap();
    let e2 = ObjectOrLinkView::try_from_json_value(&node).unwrap();
    let a = e1.object_view();
    let b = e1.object_view();
    let c = e2.object_view();
    assert!(a.is_ok());
    assert_eq!(a, b);
    assert_eq!(a, c);
    assert_eq!(a.unwrap().type_raw(), Ok("Note"));
    assert!(e1.link_view().is_ok());
    assert_eq!(node, obj(vec![("type", s("Note"))]));
}

#[test]
fn either_view_string_is_link_only() {
    let node = s("https://ex.example/u");
    let e = ObjectOrLinkView::try_from_json_value(&node).unwrap();
    assert_eq!(e.object_view(), Err(PropertyError::TypeMismatch));
    assert_eq!(e.object_view(), Err(PropertyError::TypeMismatch));
    let l = e.link_view().unwrap();
    let iri = l.href().unwrap().to_iri().unwrap();
    assert_eq!(iri.as_url().as_str(), "https://ex.example/u");
}

#[test]
fn either_view_rejects_other_nodes() {
    for node in [n(1), JsonValue::Null, JsonValue::Bool(false), JsonValue::Array(vec![])] {
        assert_eq!(
            ObjectOrLinkView::try_from_json_value(&node),
            Err(PropertyError::TypeMismatch)
        );
        assert_eq!(ObjectOrLinkView::validate_json_value(&node), Err(PropertyError::TypeMismatch));
        assert_eq!(
            ImageOrLinkView::try_from_json_value(&node),
            Err(PropertyError::TypeMismatch)
        );
    }
    assert_eq!(ObjectOrLinkView::validate_json_value(&s("x")), Ok(()));
}

#[test]
fn image_or_link_view_narrowing() {
    let doc = obj(vec![(
        "image",
        JsonValue::Array(vec![obj(vec![("type", s("Image"))]), s("https://ex.example/i.png")]),
    )]);
    let o = ObjectView::try_from_json_value(&doc).unwrap();
    let images = o.image().unwrap();
    let mut it = images.iter();
    let first = it.next().unwrap().unwrap();
    let image = first.image_view().unwrap();
    assert_eq!(image.object_view().type_raw(), Ok("Image"));
    assert_eq!(image.document_view().object_view().type_raw(), Ok("Image"));
    assert!(first.link_view().is_ok());
    let second = it.next().unwrap().unwrap();
    assert_eq!(second.image_view().unwrap_err(), PropertyError::TypeMismatch);
    assert_eq!(second.link_view().unwrap().href().unwrap().to_iri().unwrap().as_url().as_str(), "https://ex.example/i.png");
}

#[test]
fn lang_map_with_bad_value_yields_one_error() {
    let doc = obj(vec![("content", obj(vec![("en", s("hi")), ("fr", n(3)), ("ja", s("yo"))]))]);
    let content = property::content(&doc).unwrap();
    let map = match content {
        NaturalLanguageView::LangString(m) => m,
        NaturalLanguageView::String(_) => panic!("expected a language map"),
    };
    let mut it = map.iter();
    assert_eq!(it.len(), 3);
    assert_eq!(it.next(), Some(Ok(("en", "hi"))));
    assert_eq!(it.next(), Some(Err(PropertyError::TypeMismatch)));
    assert_eq!(it.next(), Some(Ok(("ja", "yo"))));
    assert_eq!(it.next(), None);
}

#[test]
fn lang_map_get_raw() {
    let m = obj(vec![("en", s("hi")), ("fr", n(3))]);
    let v = match NaturalLanguageView::try_from_json_value(&m).unwrap() {
        NaturalLanguageView::LangString(v) => v,
        NaturalLanguageView::String(_) => panic!("expected a language map"),
    };
    assert_eq!(v.get_raw("en"), Ok("hi"));
    assert_eq!(v.get_raw("fr"), Err(PropertyError::TypeMismatch));
    assert_eq!(v.get_raw("de"), Err(PropertyError::NoSuchProperty));
}

#[test]
fn natural_language_rejects_other_nodes() {
    assert_eq!(NaturalLanguageView::try_from_json_value(&n(1)), Err(PropertyError::TypeMismatch));
    assert_eq!(
        NaturalLanguageView::try_from_json_value(&s("hi")),
        Ok(NaturalLanguageView::String("hi"))
    );
}

#[test]
fn end_to_end_note() {
    let doc = obj(vec![
        ("id", s("https://ex.example/1")),
        ("type", s("Note")),
        ("content", s("hi")),
        ("to", s("https://ex.example/u")),
    ]);
    let o = ObjectView::try_from_json_value(&doc).unwrap();
    let id = o.id().unwrap().unwrap();
    assert_eq!(id.to_iri().unwrap().as_url().as_str(), "https://ex.example/1");
    assert_eq!(o.type_raw(), Ok("Note"));
    assert_eq!(o.content(), Ok(NaturalLanguageView::String("hi")));
    let to = o.to().unwrap();
    let mut it = to.iter();
    assert_eq!(it.len(), 1);
    let target = it.next().unwrap().unwrap();
    assert!(it.next().is_none());
    let href = target.link_view().unwrap().href().unwrap();
    let resolved = href.to_iri().unwrap();
    assert_eq!(resolved.as_url().as_str(), "https://ex.example/u");
    assert_eq!(resolved.as_iri().as_str(), "https://ex.example/u");
}

#[test]
fn href_of_string_and_map_links() {
    let link = s("https://ex.example/a");
    assert_eq!(property::href(&link).unwrap().to_iri().unwrap().as_url().as_str(), "https://ex.example/a");
    let link = obj(vec![("href", s("https://ex.example/b"))]);
    assert_eq!(property::href(&link).unwrap().to_iri().unwrap().as_url().as_str(), "https://ex.example/b");
    let link = obj(vec![("href", n(2))]);
    assert_eq!(property::href(&link), Err(PropertyError::TypeMismatch));
    assert_eq!(property::href(&n(2)), Err(PropertyError::TypeMismatch));
    assert_eq!(property::href(&obj(vec![])), Err(PropertyError::NoSuchProperty));
}

#[test]
fn link_dimensions() {
    let link = obj(vec![
        ("height", n(480)),
        ("width", JsonValue::Number(JsonNumber::NegInt(-3))),
    ]);
    let l = LinkView::try_from_json_value(&link).unwrap();
    assert_eq!(l.height(), Ok(480));
    assert_eq!(l.width(), Err(PropertyError::TypeMismatch));
    let link = obj(vec![("height", s("480")), ("width", JsonValue::Number(JsonNumber::Decimal("1.5".to_string())))]);
    let l = LinkView::try_from_json_value(&link).unwrap();
    assert_eq!(l.height(), Err(PropertyError::TypeMismatch));
    assert_eq!(l.width(), Err(PropertyError::TypeMismatch));
    let link = obj(vec![("width", JsonValue::Number(JsonNumber::PosInt(u64::MAX)))]);
    assert_eq!(LinkView::try_from_json_value(&link).unwrap().width(), Ok(u64::MAX));
}

#[test]
fn link_string_properties() {
    let link = obj(vec![
        ("type", s("Link")),
        ("hreflang", s("en")),
        ("mediaType", s("text/html")),
        ("name", s("A link")),
        ("rel", JsonValue::Array(vec![s("canonical"), s("preview"), n(1)])),
        ("preview", s("https://ex.example/p")),
    ]);
    let l = LinkView::try_from_json_value(&link).unwrap();
    assert_eq!(l.type_raw(), Ok("Link"));
    assert_eq!(l.hreflang().unwrap().raw_str(), "en");
    assert_eq!(l.media_type().unwrap().raw_str(), "text/html");
    assert_eq!(l.name(), Ok(NaturalLanguageView::String("A link")));
    let rel = l.rel().unwrap();
    let mut it = rel.iter();
    assert_eq!(it.next(), Some(Ok("canonical")));
    assert_eq!(it.next(), Some(Ok("preview")));
    assert_eq!(it.next(), Some(Err(PropertyError::TypeMismatch)));
    assert_eq!(it.next(), None);
    assert_eq!(l.preview().unwrap().iter().len(), 1);
}

#[test]
fn link_view_accepts_string_and_map_only() {
    assert!(LinkView::try_from_json_value(&s("x")).is_ok());
    assert!(LinkView::try_from_json_value(&obj(vec![])).is_ok());
    assert_eq!(LinkView::try_from_json_value(&n(1)), Err(PropertyError::TypeMismatch));
    assert_eq!(ObjectView::try_from_json_value(&s("x")), Err(PropertyError::TypeMismatch));
}

#[test]
fn datetime_and_duration_raw_strings() {
    let doc = obj(vec![
        ("published", s("2017-05-23T12:00:00Z")),
        ("updated", n(5)),
        ("startTime", s("12:00")),
        ("endTime", s("13:30")),
        ("duration", s("PT2H")),
        ("mediaType", s("text/plain")),
    ]);
    let o = ObjectView::try_from_json_value(&doc).unwrap();
    assert_eq!(o.published().unwrap().raw_str(), "2017-05-23T12:00:00Z");
    assert_eq!(o.updated(), Err(PropertyError::TypeMismatch));
    assert_eq!(o.start_time().unwrap().raw_str(), "12:00");
    assert_eq!(o.end_time().unwrap().raw_str(), "13:30");
    assert_eq!(property::duration(&doc).unwrap().raw_str(), "PT2H");
    assert_eq!(o.media_type().unwrap().raw_str(), "text/plain");
}

#[test]
fn object_collection_properties() {
    let doc = obj(vec![
        ("attachment", JsonValue::Array(vec![s("https://ex.example/a"), n(1)])),
        ("audience", s("https://ex.example/aud")),
        ("attributedTo", obj(vec![("type", s("Person"))])),
        ("bto", JsonValue::Array(vec![])),
        ("bcc", s("https://ex.example/bcc")),
        ("cc", JsonValue::Array(vec![s("https://ex.example/c1"), s("https://ex.example/c2")])),
        ("url", JsonValue::Array(vec![s("https://ex.example/u"), obj(vec![("href", s("https://ex.example/v"))])])),
        ("summary", obj(vec![("en", s("sum"))])),
    ]);
    let o = ObjectView::try_from_json_value(&doc).unwrap();
    let mut it = o.attachment().unwrap().iter();
    assert!(it.next().unwrap().is_ok());
    assert_eq!(it.next().unwrap().unwrap_err(), PropertyError::TypeMismatch);
    assert_eq!(o.audience().unwrap().iter().len(), 1);
    let who = o.attributed_to().unwrap().iter().next().unwrap().unwrap();
    assert_eq!(who.object_view().unwrap().type_raw(), Ok("Person"));
    assert_eq!(o.bto().unwrap().iter().len(), 0);
    assert_eq!(property::bcc(&doc).unwrap().iter().len(), 1);
    assert_eq!(property::cc(&doc).unwrap().iter().len(), 2);
    let urls = o.url().unwrap();
    let mut it = urls.iter();
    let u1 = it.next().unwrap().unwrap().href().unwrap().to_iri().unwrap();
    let u2 = it.next().unwrap().unwrap().href().unwrap().to_iri().unwrap();
    assert_eq!(u1.as_url().as_str(), "https://ex.example/u");
    assert_eq!(u2.as_url().as_str(), "https://ex.example/v");
    match o.summary().unwrap() {
        NaturalLanguageView::LangString(m) => assert_eq!(m.get_raw("en"), Ok("sum")),
        NaturalLanguageView::String(_) => panic!("expected a language map"),
    }
}

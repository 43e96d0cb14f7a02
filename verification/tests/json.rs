use std::fmt;
use std::sync::Arc;

use crust_node::json::{
    object_json, validate_json_object, validate_value, write_json, Json, JsonLimitError,
    JsonObject, JsonPolicy, LimitedWriter, ObjectKeys, ParseBudget,
};
use crust_node::media::{
    event_value, failure_value, load_result_value, loaded_track_value, map_adapter_error,
    share_data, track_value, validate_load_outcome, validate_media_track, AdapterError,
    AdapterErrorKind, LoadOutcome, MediaEvent, MediaTrack, PlayerError, PlaylistInfo,
    TrackEndReason, TrackMetadata,
};
use crust_node::text_map::TextMap;
use serde::de::{DeserializeSeed, Error, MapAccess, SeqAccess, Visitor};
use serde_json::Value;

struct Seed<'a> {
    budget: &'a mut ParseBudget,
    depth: usize,
}

impl<'de> DeserializeSeed<'de> for Seed<'_> {
    type Value = Json;

    fn deserialize<D>(self, deserializer: D) -> Result<Json, D::Error>
    where
        D: serde::Deserializer<'de>,
    {
        if self.budget.count(self.depth).is_err() {
            return Err(D::Error::custom("beyond the limits"));
        }
        deserializer.deserialize_any(Parts { budget: self.budget, depth: self.depth })
    }
}

struct Parts<'a> {
    budget: &'a mut ParseBudget,
    depth: usize,
}

impl<'de> Visitor<'de> for Parts<'_> {
    type Value = Json;

    fn expecting(&self, formatter: &mut fmt::Formatter<'_>) -> fmt::Result {
        formatter.write_str("a JSON value")
    }

    fn visit_bool<E>(self, value: bool) -> Result<Json, E> {
        Ok(Json::Bool(value))
    }

    fn visit_i64<E>(self, value: i64) -> Result<Json, E> {
        Ok(Json::Number(value.to_string()))
    }

    fn visit_u64<E>(self, value: u64) -> Result<Json, E> {
        Ok(Json::Number(value.to_string()))
    }

    fn visit_str<E>(self, value: &str) -> Result<Json, E> {
        Ok(Json::Text(value.to_owned()))
    }

    fn visit_unit<E>(self) -> Result<Json, E> {
        Ok(Json::Null)
    }

    fn visit_seq<A: SeqAccess<'de>>(self, mut sequence: A) -> Result<Json, A::Error> {
        let mut values = Vec::new();
        while let Some(value) =
            sequence.next_element_seed(Seed { budget: self.budget, depth: self.depth + 1 })?
        {
            values.push(value);
        }
        Ok(Json::List(values))
    }

    fn visit_map<A: MapAccess<'de>>(self, mut map: A) -> Result<Json, A::Error> {
        let mut values: TextMap<Json> = TextMap::new();
        let mut keys = ObjectKeys::new();
        while let Some(key) = map.next_key::<String>()? {
            if keys.take(key.clone()).is_err() {
                return Err(A::Error::custom("duplicate key"));
            }
            let value =
                map.next_value_seed(Seed { budget: self.budget, depth: self.depth + 1 })?;
            values.insert(key, value);
        }
        Ok(Json::Object(values))
    }
}

fn parse_bounded_json(bytes: &[u8], policy: JsonPolicy) -> Result<Json, JsonLimitError> {
    let mut budget = ParseBudget::new(policy);
    let mut deserializer = serde_json::Deserializer::from_slice(bytes);
    let value = Seed { budget: &mut budget, depth: 1 }
        .deserialize(&mut deserializer)
        .map_err(|_| JsonLimitError)?;
    deserializer.end().map_err(|_| JsonLimitError)?;
    Ok(value)
}

fn policy() -> JsonPolicy {
    JsonPolicy { max_retained_bytes: 24, max_depth: 3, max_elements: 5 }
}

fn wide() -> JsonPolicy {
    JsonPolicy { max_retained_bytes: 4_096, max_depth: 16, max_elements: 64 }
}

fn object(text: &str) -> JsonObject {
    match parse_bounded_json(text.as_bytes(), wide()) {
        Ok(Json::Object(object)) => object,
        _ => panic!("not an object: {text}"),
    }
}

fn parsed(text: &str) -> Value {
    serde_json::from_str(text).unwrap()
}

fn track(plugin_info: &str) -> MediaTrack {
    MediaTrack {
        encoded: "QAAA".to_owned(),
        metadata: TrackMetadata {
            identifier: "id".to_owned(),
            title: "A \"song\"\n".to_owned(),
            author: "someone".to_owned(),
            duration_ms: 1_000,
            seekable: true,
            stream: false,
            source_name: "youtube".to_owned(),
            uri: Some("https://example.invalid/".to_owned()),
            artwork_url: None,
            isrc: None,
        },
        plugin_info: Arc::new(object(plugin_info)),
    }
}

#[test]
fn parsing_rejects_duplicate_depth_and_element_ambiguity() {
    assert!(parse_bounded_json(br#"{"a":1,"a":2}"#, policy()).is_err());
    assert!(parse_bounded_json(br#"[[[0]]]"#, policy()).is_err());
    assert!(parse_bounded_json(br#"[0,1,2,3,4]"#, policy()).is_err());
    let value = parse_bounded_json(br#"{"a":[1,true]}"#, policy()).unwrap();
    let mut text = String::new();
    write_json(&value, &mut text);
    assert_eq!(text, r#"{"a":[1,true]}"#);
    match value {
        Json::Object(object) => assert_eq!(
            object.get("a"),
            Some(&Json::List(vec![Json::Number("1".to_owned()), Json::Bool(true)]))
        ),
        _ => panic!("an object was given"),
    }
}

#[test]
fn retained_object_is_checked_without_allocating_a_serialized_copy() {
    let accepted = object(r#"{"x": [1]}"#);
    assert!(validate_json_object(&accepted, policy()).is_ok());
    let rejected = object(r#"{"x": "012345678901234567890123"}"#);
    assert!(validate_json_object(&rejected, policy()).is_err());
}

#[test]
fn looser_limits_still_keep_the_object() {
    let kept = object(r#"{"x":[1,2],"y":null}"#);
    assert!(validate_json_object(&kept, policy()).is_ok());
    assert!(validate_json_object(&kept, wide()).is_ok());
    let deep = object(r#"{"x":[[1]]}"#);
    assert!(validate_json_object(&deep, policy()).is_err());
    assert!(validate_json_object(&deep, wide()).is_ok());
}

#[test]
fn values_are_counted_with_their_parts() {
    let mut budget = ParseBudget::new(policy());
    let list = Json::List(vec![Json::Null, Json::Bool(false)]);
    assert!(validate_value(&list, 1, &mut budget).is_ok());
    assert_eq!(budget.elements, 3);
    assert!(validate_value(&list, 1, &mut budget).is_err());
    let mut budget = ParseBudget::new(policy());
    assert!(validate_value(&list, 3, &mut budget).is_err());
}

#[test]
fn written_bytes_are_bounded() {
    let mut writer = LimitedWriter::new(4);
    assert_eq!(writer.write(b"abc"), Ok(3));
    assert_eq!(writer.write(b"de"), Err(JsonLimitError));
    assert_eq!(writer.write(b"d"), Ok(1));
    assert_eq!(writer.written, 4);
    assert_eq!(
        JsonLimitError.to_text(),
        "JSON exceeds the configured structural or retention limit"
    );
}

#[test]
fn keys_are_taken_once() {
    let mut keys = ObjectKeys::new();
    assert!(keys.take("a".to_owned()).is_ok());
    assert!(keys.take("b".to_owned()).is_ok());
    assert_eq!(keys.take("a".to_owned()), Err(JsonLimitError));
}

#[test]
fn texts_are_quoted_as_json() {
    let quoted = object("{\"k\\\"\":\"line\\n\\u0001 end\\\\\"}");
    assert_eq!(object_json(&quoted), "{\"k\\\"\":\"line\\n\\u0001 end\\\\\"}");
    let sorted = object(r#"{"b":1,"a":{"d":2,"c":3}}"#);
    assert_eq!(object_json(&sorted), r#"{"a":{"c":3,"d":2},"b":1}"#);
}

#[test]
fn maps_keep_one_value_for_each_key() {
    let mut map: TextMap<u8> = TextMap::new();
    assert_eq!(map.insert("b".to_owned(), 1), None);
    assert_eq!(map.insert("a".to_owned(), 2), None);
    assert_eq!(map.insert("b".to_owned(), 3), Some(1));
    assert_eq!(map.len(), 2);
    assert_eq!(map.get("b"), Some(&3));
    assert!(map.contains_key("a"));
    assert_eq!(map.find("b"), Some(1));
    assert_eq!(map.remove("a"), Some(2));
    assert_eq!(map.remove("a"), None);
    assert_eq!(map.drain(), vec![3]);
    assert_eq!(map.len(), 0);
}

#[test]
fn tracks_are_written_for_the_wire() {
    let track = track(r#"{"vendor":{"id":1}}"#);
    let value = parsed(&track_value(&track, 250, &Some(Arc::new(object(r#"{"mine":true}"#)))));
    assert_eq!(value["encoded"], "QAAA");
    assert_eq!(value["info"]["title"], "A \"song\"\n");
    assert_eq!(value["info"]["length"], 1_000);
    assert_eq!(value["info"]["position"], 250);
    assert_eq!(value["info"]["isSeekable"], true);
    assert_eq!(value["info"]["artworkUrl"], Value::Null);
    assert_eq!(value["pluginInfo"]["vendor"]["id"], 1);
    assert_eq!(value["userData"]["mine"], true);
    let loaded = parsed(&loaded_track_value(&track));
    assert_eq!(loaded["info"]["position"], 0);
    assert_eq!(loaded["userData"], parsed("{}"));
}

#[test]
fn load_results_tell_their_kind() {
    let single = parsed(&load_result_value(&LoadOutcome::Track(track("{}"))));
    assert_eq!(single["loadType"], "track");
    assert_eq!(single["data"]["encoded"], "QAAA");
    let search = parsed(&load_result_value(&LoadOutcome::Search(vec![track("{}"), track("{}")])));
    assert_eq!(search["loadType"], "search");
    assert_eq!(search["data"].as_array().unwrap().len(), 2);
    let playlist = LoadOutcome::Playlist {
        info: PlaylistInfo { name: "list".to_owned(), selected_track: None },
        plugin_info: Arc::new(object("{}")),
        tracks: vec![track("{}")],
    };
    let playlist = parsed(&load_result_value(&playlist));
    assert_eq!(playlist["loadType"], "playlist");
    assert_eq!(playlist["data"]["info"]["selectedTrack"], -1);
    let nothing = parsed(&load_result_value(&LoadOutcome::NoMatches));
    assert_eq!(nothing["loadType"], "empty");
}

#[test]
fn loaded_objects_are_held_to_the_limits() {
    let small = track("{}");
    let large = track(r#"{"x":"012345678901234567890123"}"#);
    assert!(validate_media_track(&small, policy()).is_ok());
    assert!(validate_media_track(&large, policy()).is_err());
    let search = LoadOutcome::Search(vec![track("{}"), large]);
    assert_eq!(validate_load_outcome(&search, policy()), Err(JsonLimitError));
    assert!(validate_load_outcome(&LoadOutcome::NoMatches, policy()).is_ok());
}

#[test]
fn events_are_written_for_the_wire() {
    let none = None;
    let start = parsed(&event_value("7", &MediaEvent::TrackStart(track("{}")), &none));
    assert_eq!(start["op"], "event");
    assert_eq!(start["type"], "TrackStartEvent");
    assert_eq!(start["guildId"], "7");
    let end = MediaEvent::TrackEnd { track: track("{}"), reason: TrackEndReason::Replaced };
    assert_eq!(parsed(&event_value("7", &end, &none))["reason"], "replaced");
    let stuck = MediaEvent::TrackStuck { track: track("{}"), threshold_ms: 10_000 };
    assert_eq!(parsed(&event_value("7", &stuck, &none))["thresholdMs"], 10_000);
    let error = MediaEvent::TrackError { track: track("{}"), message: "broken".to_owned() };
    let error = parsed(&event_value("7", &error, &none));
    assert_eq!(error["type"], "TrackExceptionEvent");
    assert_eq!(error["exception"]["message"], "broken");
    let failed = parsed(&failure_value("7", &track("{}"), "gone", &none));
    assert_eq!(failed["exception"]["message"], "gone");
}

#[test]
fn shared_data_is_the_same_data() {
    let data = Some(Arc::new(object(r#"{"k":1}"#)));
    let shared = share_data(&data);
    assert_eq!(shared, data);
    assert!(Arc::ptr_eq(shared.as_ref().unwrap(), data.as_ref().unwrap()));
    assert!(share_data(&None).is_none());
}

#[test]
fn media_errors_become_player_errors() {
    let of = |kind| map_adapter_error(AdapterError { kind, message: "told" });
    assert_eq!(of(AdapterErrorKind::Overloaded), PlayerError::Overloaded);
    assert_eq!(of(AdapterErrorKind::LoadFailed), PlayerError::Invalid("told"));
    assert_eq!(of(AdapterErrorKind::Shutdown), PlayerError::Media("told"));
    assert_eq!(PlayerError::Invalid("bad").to_text(), "bad");
}

use voice_skill::request::request_body::Cause;
use voice_skill::request::RequestType;
use voice_skill::string_map::StringMap;

fn all_types() -> Vec<(RequestType, &'static str)> {
    vec![
        (RequestType::AplUserEvent, "Alexa.Presentation.APL.UserEvent"),
        (RequestType::IntentRequest, "IntentRequest"),
        (RequestType::LaunchRequest, "LaunchRequest"),
        (RequestType::AudioPlayerPlaybackStarted, "AudioPlayer.PlaybackStarted"),
        (RequestType::AudioPlayerPlaybackFinished, "AudioPlayer.PlaybackFinished"),
        (RequestType::AudioPlayerPlaybackNearlyFinished, "AudioPlayer.PlaybackNearlyFinished"),
        (RequestType::AudioPlayerPlaybackStopped, "AudioPlayer.PlaybackStopped"),
        (RequestType::AudioPlayerPlaybackFailed, "AudioPlayer.PlaybackFailed"),
        (RequestType::PlaybackControllerNextCommandIssued, "PlaybackController.NextCommandIssued"),
        (
            RequestType::PlaybackControllerPreviousCommandIssued,
            "PlaybackController.PreviousCommandIssued",
        ),
        (RequestType::PlaybackControllerPlayCommandIssued, "PlaybackController.PlayCommandIssued"),
        (RequestType::PlaybackControllerPauseCommandIssued, "PlaybackController.PauseCommandIssued"),
        (RequestType::SessionEndedRequest, "SessionEndedRequest"),
        (RequestType::ConnectionsResponse, "Connections.Response"),
        (RequestType::CanFulfillIntentRequest, "CanFulfillIntentRequest"),
        (RequestType::DisplayElementSelected, "Display.ElementSelected"),
        (RequestType::SessionResumedRequest, "SessionResumedRequest"),
    ]
}

#[test]
fn every_tag_is_read_as_its_type() {
    for (kind, tag) in all_types() {
        assert_eq!(RequestType::from_str(tag), kind);
    }
}

#[test]
fn every_type_gives_its_tag() {
    for (kind, tag) in all_types() {
        assert_eq!(kind.as_str(), tag);
        assert_eq!(kind.to_string(), tag);
    }
}

#[test]
fn every_type_is_read_back_from_its_tag() {
    for (kind, _) in all_types() {
        assert_eq!(RequestType::from_str(&kind.to_string()), kind);
    }
}

#[test]
fn unknown_tag_is_read_as_session_end() {
    assert_eq!(RequestType::from_str("Nonsense"), RequestType::SessionEndedRequest);
    assert_eq!(RequestType::from_str(""), RequestType::SessionEndedRequest);
    assert_eq!(RequestType::from_str("intentrequest"), RequestType::SessionEndedRequest);
    assert_eq!(RequestType::from_str("IntentRequest "), RequestType::SessionEndedRequest);
}

fn pairs(map: &StringMap<String>) -> Vec<(String, String)> {
    let mut out = Vec::new();
    for i in 0..map.len() {
        out.push((map.key_at(i).clone(), map.value_at(i).clone()));
    }
    out
}

fn owned(list: &[(&str, &str)]) -> Vec<(String, String)> {
    list.iter().map(|(k, v)| (k.to_string(), v.to_string())).collect()
}

#[test]
fn cause_is_flattened_in_order() {
    let mut status: StringMap<String> = StringMap::new();
    status.insert("code".to_string(), "200".to_string());
    status.insert("message".to_string(), "OK".to_string());
    let mut result: StringMap<String> = StringMap::new();
    result.insert("outcome".to_string(), "done".to_string());
    let cause = Cause {
        cause_type: "ConnectionCompleted".to_string(),
        token: "tok".to_string(),
        status,
        result: Some(result),
    };
    let map = cause.to_hash_map();
    assert_eq!(
        pairs(&map),
        owned(&[
            ("cause_type", "ConnectionCompleted"),
            ("token", "tok"),
            ("status_code", "200"),
            ("status_message", "OK"),
            ("result_outcome", "done"),
        ])
    );
    assert_eq!(map.get("status_code"), Some(&"200".to_string()));
    assert_eq!(map.get("code"), None);
}

#[test]
fn cause_without_result_has_no_result_entries() {
    let mut status: StringMap<String> = StringMap::new();
    status.insert("code".to_string(), "500".to_string());
    let cause = Cause {
        cause_type: "ConnectionCompleted".to_string(),
        token: "tok".to_string(),
        status,
        result: None,
    };
    let map = cause.to_hash_map();
    assert_eq!(
        pairs(&map),
        owned(&[("cause_type", "ConnectionCompleted"), ("token", "tok"), ("status_code", "500")])
    );
}

#[test]
fn cause_with_empty_maps_keeps_type_and_token() {
    let cause = Cause {
        cause_type: "c".to_string(),
        token: "t".to_string(),
        status: StringMap::new(),
        result: Some(StringMap::new()),
    };
    let map = cause.to_hash_map();
    assert_eq!(pairs(&map), owned(&[("cause_type", "c"), ("token", "t")]));
}

#[test]
fn cause_keys_that_look_alike_stay_apart() {
    let mut status: StringMap<String> = StringMap::new();
    status.insert("token".to_string(), "s".to_string());
    status.insert("".to_string(), "empty".to_string());
    let mut result: StringMap<String> = StringMap::new();
    result.insert("token".to_string(), "r".to_string());
    let cause = Cause {
        cause_type: "c".to_string(),
        token: "t".to_string(),
        status,
        result: Some(result),
    };
    let map = cause.to_hash_map();
    assert_eq!(map.len(), 5);
    assert_eq!(map.get("token"), Some(&"t".to_string()));
    assert_eq!(map.get("status_token"), Some(&"s".to_string()));
    assert_eq!(map.get("status_"), Some(&"empty".to_string()));
    assert_eq!(map.get("result_token"), Some(&"r".to_string()));
}

#[test]
fn recognize_tells_known_tags_from_unknown_ones() {
    for (kind, tag) in all_types() {
        assert_eq!(RequestType::recognize(tag), Some(kind));
    }
    assert_eq!(RequestType::recognize("Nonsense"), None);
    assert_eq!(RequestType::recognize(""), None);
    assert_eq!(RequestType::recognize("SessionEndedRequest"), Some(RequestType::SessionEndedRequest));
    assert_eq!(
        RequestType::recognize("SessionResumedRequest"),
        Some(RequestType::SessionResumedRequest)
    );
}

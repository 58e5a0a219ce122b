use volkeys::events::Action;
use volkeys::volume::{
    extract_volume, mixer_op, notification_text, plan_dispatch, MixerOp, VOLUME_STEP,
};

#[test]
fn extracts_first_percentage_from_mixer_output() {
    let output = "Volume: front-left: 39321 /  60% / -13.30 dB,   front-right: 39321 /  60% / -13.31 dB";
    assert_eq!(extract_volume(output), Some("60".to_string()));
}

#[test]
fn extracts_whole_digit_run_before_percent_sign() {
    assert_eq!(extract_volume("100%"), Some("100".to_string()));
    assert_eq!(extract_volume("5%"), Some("5".to_string()));
    assert_eq!(extract_volume("abc12%def7%"), Some("12".to_string()));
}

#[test]
fn unparseable_output_yields_nothing() {
    assert_eq!(extract_volume(""), None);
    assert_eq!(extract_volume("no percentage here"), None);
    assert_eq!(extract_volume("%"), None);
    assert_eq!(extract_volume("a%"), None);
    assert_eq!(extract_volume("42"), None);
}

#[test]
fn each_action_maps_to_its_mixer_operation() {
    assert_eq!(mixer_op(Action::VolumeUp), MixerOp::Raise(VOLUME_STEP));
    assert_eq!(mixer_op(Action::VolumeDown), MixerOp::Lower(VOLUME_STEP));
    assert_eq!(mixer_op(Action::Mute), MixerOp::ToggleMute);
}

#[test]
fn volume_step_is_five_percent() {
    assert_eq!(VOLUME_STEP, 5);
}

#[test]
fn notification_embeds_parsed_volume() {
    let text = notification_text(Action::VolumeUp, &Some("55".to_string()));
    assert_eq!(text, "Volume: 55%".to_string());
}

#[test]
fn mute_notification_is_fixed() {
    let text = notification_text(Action::Mute, &None);
    assert_eq!(text, "Volume: Muted".to_string());
}

#[test]
fn failed_query_embeds_sentinel_and_still_adjusts_mixer() {
    let d = plan_dispatch(Action::VolumeUp, "");
    assert_eq!(d.mixer, MixerOp::Raise(VOLUME_STEP));
    assert!(d.notification.contains("INVALID"));
    assert_eq!(d.notification, "Volume: INVALID%".to_string());
}

#[test]
fn unparseable_query_embeds_sentinel() {
    let d = plan_dispatch(Action::VolumeDown, "no digits at all");
    assert_eq!(d.mixer, MixerOp::Lower(VOLUME_STEP));
    assert_eq!(d.notification, "Volume: INVALID%".to_string());
}

#[test]
fn successful_query_embeds_level_in_notification() {
    let d = plan_dispatch(Action::VolumeUp, "Volume: front-left: 45875 /  70% / -9.29 dB");
    assert_eq!(d.mixer, MixerOp::Raise(VOLUME_STEP));
    assert_eq!(d.notification, "Volume: 70%".to_string());
}

#[test]
fn mute_dispatch_toggles_and_notifies() {
    let d = plan_dispatch(Action::Mute, "whatever 30%");
    assert_eq!(d.mixer, MixerOp::ToggleMute);
    assert_eq!(d.notification, "Volume: Muted".to_string());
}

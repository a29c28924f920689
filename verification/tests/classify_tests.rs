use trackpad_rs::{classify, DeviceType};

#[test]
fn classify_is_repeatable() {
    for id in [-5, 0, 7, 112, 113, 128, 130, 200] {
        for builtin in [false, true] {
            assert_eq!(classify(builtin, id), classify(builtin, id));
        }
    }
}

#[test]
fn builtin_always_internal_trackpad() {
    for id in [-1, 0, 108, 112, 113, 128, 130, 999] {
        assert_eq!(classify(true, id), DeviceType::InternalTrackpad);
    }
}

#[test]
fn magic_mouse_family_ids() {
    assert_eq!(classify(false, 112), DeviceType::MagicMouse);
    assert_eq!(classify(false, 113), DeviceType::MagicMouse);
}

#[test]
fn external_trackpad_family_ids() {
    assert_eq!(classify(false, 128), DeviceType::ExternalTrackpad);
    assert_eq!(classify(false, 129), DeviceType::ExternalTrackpad);
    assert_eq!(classify(false, 130), DeviceType::ExternalTrackpad);
}

#[test]
fn unrecognized_ids_preserved_in_unknown() {
    for id in [-7, 0, 108, 111, 114, 127, 131, 255] {
        assert_eq!(classify(false, id), DeviceType::Unknown(id));
    }
}

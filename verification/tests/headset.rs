use psvr::backend::{button, button_from_readout, product_name, psvr_properties};
use psvr::info::{
    is_subset, ChromaticAberrationFactors, DisplayInfo, Distance, Visuals,
};
use psvr::input::{Button, ButtonState};
use psvr::math::{Scalar, Vector3};
use psvr::sensor::{Buttons, InertiaInstant, Readout, Status};

// Display information from what the OS reports for the PSVR.
fn example_psvr_physical_monitors() -> Vec<DisplayInfo> {
    vec![
        // How it appears on MacOS 10.14 Mojave with
        // display modes patched to 4:4:4:4 chroma subsampling.
        DisplayInfo {
            monitor_name: "SIE  HMD *08 (with EDID patch)".to_owned(),
            physical_size_millimeters: Some((160, 90)),
            supported_resolutions: vec![(1920, 1080)],
        },
    ]
}

fn display(size: Option<(u32, u32)>, resolutions: &[(u32, u32)]) -> DisplayInfo {
    DisplayInfo {
        monitor_name: String::new(),
        physical_size_millimeters: size,
        supported_resolutions: resolutions.to_vec(),
    }
}

fn readout_with(plus: bool, minus: bool, mute: bool) -> Readout {
    let still = InertiaInstant {
        gyroscope_raw: Vector3::new(0, 0, 0),
        accelerometer_raw: Vector3::new(0, 0, 0),
    };
    Readout {
        buttons: Buttons { plus, minus, mute },
        volume: 0,
        status: Status {
            worn: false,
            display_active: false,
            hdmi_disconnected: false,
            microphone_muted: false,
            headphone_connected: false,
            tick: false,
        },
        instants: [still, still],
    }
}

#[test]
fn matches_all_known_physical_monitors() {
    let properties = psvr_properties();

    for physical_monitor in example_psvr_physical_monitors() {
        assert_eq!(properties.display_info, physical_monitor);
    }
}

#[test]
fn doesnt_match_when_both_physical_sizes_inconsistent() {
    let properties = psvr_properties();

    for mut physical_monitor in example_psvr_physical_monitors() {
        physical_monitor.physical_size_millimeters = Some((200, 200));

        assert!(properties.display_info != physical_monitor);
    }
}

#[test]
fn displays_match_by_size_and_resolutions() {
    let a = display(Some((160, 90)), &[(1920, 1080)]);
    assert!(a == display(None, &[(1920, 1080), (1280, 720)]));
    assert!(a == display(Some((160, 90)), &[]));
    assert!(a != display(Some((160, 91)), &[(1920, 1080)]));
    assert!(a != display(Some((161, 90)), &[(1920, 1080)]));
    assert!(a != display(None, &[(1280, 720)]));
    assert!(a != display(None, &[(1920, 1081)]));
    assert!(display(None, &[(1, 2), (3, 4)]) != display(None, &[(1, 2), (5, 6)]));
    assert!(display(None, &[(1, 2), (3, 4)]) == display(None, &[(3, 4), (1, 2), (5, 6)]));
    assert!(display(None, &[]) == display(None, &[]));
}

#[test]
fn subset_of_resolutions() {
    assert!(is_subset(&[], &[]));
    assert!(is_subset(&[], &[(1, 1)]));
    assert!(is_subset(&[(1, 1), (1, 1)], &[(2, 2), (1, 1)]));
    assert!(!is_subset(&[(1, 1)], &[]));
    assert!(!is_subset(&[(1, 1), (1, 2)], &[(1, 1), (2, 1)]));
}

#[test]
fn physical_monitor_is_the_first_that_matches() {
    let hmd = psvr_properties().display_info;
    let monitors = vec![(640u32, 480u32), (1920, 1080), (1920, 1080), (800, 600)];
    let found = hmd.find_physical_monitor(&monitors[..], |m: &(u32, u32)| display(None, &[*m]));
    assert!(std::ptr::eq(&monitors[1], found.expect("the HMD is connected")));
    let none = hmd.find_physical_monitor(&monitors[..1], |m: &(u32, u32)| display(None, &[*m]));
    assert!(none.is_none());
    let empty: [(u32, u32); 0] = [];
    assert!(hmd.find_physical_monitor(&empty[..], |m: &(u32, u32)| display(None, &[*m])).is_none());
}

#[test]
fn psvr_properties_hold_the_optics() {
    let properties = psvr_properties();
    assert_eq!("SIE  HMD *08", properties.display_info.monitor_name);
    assert_eq!(Some((160, 90)), properties.display_info.physical_size_millimeters);
    assert_eq!(vec![(1920, 1080)], properties.display_info.supported_resolutions);
    let Visuals::LensBased {
        lens_separation,
        lens_to_eye_distance,
        screen_to_lens_distance,
        left,
        right,
    } = properties.visuals;
    assert_eq!(63_100, lens_separation.micrometers());
    assert_eq!(39_480, lens_to_eye_distance.micrometers());
    assert_eq!(35_400, screen_to_lens_distance.micrometers());
    for lens in [left, right] {
        assert_eq!((960, 1080), lens.resolution);
        assert_eq!(100_000, lens.field_of_view.horizontal.minimum_degrees.thousandths);
        assert_eq!(100_000, lens.field_of_view.horizontal.maximum_degrees.thousandths);
        assert_eq!(100_000, lens.field_of_view.horizontal.recommended_degrees.thousandths);
        assert_eq!(68_000, lens.field_of_view.vertical.minimum_degrees.thousandths);
        assert_eq!(68_000, lens.field_of_view.vertical.maximum_degrees.thousandths);
        assert_eq!(68_000, lens.field_of_view.vertical.recommended_degrees.thousandths);
        assert_eq!(
            vec![247, -145, 103, 795],
            lens.distortion_coefficients.iter().map(|c| c.thousandths).collect::<Vec<i32>>()
        );
        assert_eq!(ChromaticAberrationFactors::no_adjustments(), lens.chromatic_aberration_factors);
    }
    assert_eq!("PlayStation VR", product_name());
}

#[test]
fn no_adjustments_is_one_for_each_colour() {
    let factors = ChromaticAberrationFactors::no_adjustments();
    assert_eq!(Scalar::from_thousandths(1000), factors.red);
    assert_eq!(Scalar::from_thousandths(1000), factors.green);
    assert_eq!(Scalar::from_thousandths(1000), factors.blue);
}

#[test]
fn distances_convert_between_units() {
    assert_eq!(63_100, Distance::from_micrometers(63_100).micrometers());
    assert_eq!(63, Distance::from_micrometers(63_100).millimeters());
    assert_eq!(0, Distance::from_micrometers(999).millimeters());
    assert_eq!(5_000, Distance::from_millimeters(5).micrometers());
    assert_eq!(5, Distance::from_millimeters(5).millimeters());
    assert_eq!(Distance::from_micrometers(2_000), Distance::from_millimeters(2));
}

#[test]
fn button_states() {
    assert!(ButtonState::Pressed.is_pressed());
    assert!(!ButtonState::NotPressed.is_pressed());
    assert!(!ButtonState::NotPresent.is_pressed());
    assert!(ButtonState::Pressed.is_available());
    assert!(ButtonState::NotPressed.is_available());
    assert!(!ButtonState::NotPresent.is_available());
}

#[test]
fn buttons_follow_the_latest_readout() {
    for which in [Button::VolumeUp, Button::VolumeDown, Button::Mute] {
        assert_eq!(ButtonState::NotPressed, button(&None, which));
    }
    let latest = Some(readout_with(true, false, true));
    assert_eq!(ButtonState::Pressed, button(&latest, Button::VolumeUp));
    assert_eq!(ButtonState::NotPressed, button(&latest, Button::VolumeDown));
    assert_eq!(ButtonState::Pressed, button(&latest, Button::Mute));
    let latest = Some(readout_with(false, true, false));
    assert_eq!(ButtonState::NotPressed, button(&latest, Button::VolumeUp));
    assert_eq!(ButtonState::Pressed, button(&latest, Button::VolumeDown));
    assert_eq!(ButtonState::NotPressed, button(&latest, Button::Mute));
    assert_eq!(ButtonState::Pressed, button_from_readout(&latest, |r: &Readout| r.buttons.minus));
    assert_eq!(ButtonState::NotPressed, button_from_readout(&latest, |r: &Readout| r.buttons.mute));
    assert_eq!(ButtonState::NotPressed, button_from_readout(&None, |_: &Readout| true));
}

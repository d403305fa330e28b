//! What is specific to the PlayStation VR among head mounted devices: its
//! name, its optics and display, and its buttons.

use crate::info::{
    ChromaticAberrationFactors, DisplayInfo, Distance, FieldOfView, FieldOfViewAxis, Lens,
    Properties, Visuals,
};
use crate::client::{command_frame, power_on_frame, vr_mode_frame, vr_tracking_frame};
use crate::command::{EnableVrTracking, SetPower, SetVrMode};
use crate::input::{Button, ButtonState};
use crate::math::Scalar;
use crate::sensor::Readout;
use vstd::prelude::*;
use vstd::string::StringExecFns;

verus! {

pub const HMD_RESOLUTION_HORIZONTAL: u32 = 1920;

pub const HMD_RESOLUTION_VERTICAL: u32 = 1080;

/// One lens for left, one for right.
pub const LENS_RESOLUTION_HORIZONTAL: u32 = 960;

/// Both lens cover the full height of the display.
pub const LENS_RESOLUTION_VERTICAL: u32 = 1080;

/// The monitor name that the PSVR reports over HDMI.
pub open spec fn psvr_monitor_name() -> Seq<char> {
    "SIE  HMD *08"@
}

/// The product name of the PSVR.
pub open spec fn psvr_product_name() -> Seq<char> {
    "PlayStation VR"@
}

/// A field of view axis of one fixed angle, given in thousandths of a degree.
pub open spec fn fixed_axis(thousandths: i32) -> FieldOfViewAxis {
    FieldOfViewAxis {
        minimum_degrees: Scalar { thousandths },
        maximum_degrees: Scalar { thousandths },
        recommended_degrees: Scalar { thousandths },
    }
}

/// Whether `lens` is a lens of the PSVR: half the display wide, 100 by 68
/// degrees, with the four distortion coefficients 0.247, -0.145, 0.103 and
/// 0.795, and no chromatic adjustment.
pub open spec fn is_psvr_lens(lens: Lens) -> bool {
    &&& lens.resolution == (LENS_RESOLUTION_HORIZONTAL, LENS_RESOLUTION_VERTICAL)
    &&& lens.field_of_view == FieldOfView {
        horizontal: fixed_axis(100_000),
        vertical: fixed_axis(68_000),
    }
    &&& lens.distortion_coefficients@ == seq![
        Scalar { thousandths: 247 },
        Scalar { thousandths: -145i32 },
        Scalar { thousandths: 103 },
        Scalar { thousandths: 795 },
    ]
    &&& lens.chromatic_aberration_factors == ChromaticAberrationFactors {
        red: Scalar { thousandths: 1000 },
        green: Scalar { thousandths: 1000 },
        blue: Scalar { thousandths: 1000 },
    }
}

/// Whether `display` is the display of the PSVR: 160 by 90 millimeters, at
/// 1920 by 1080.
pub open spec fn is_psvr_display(display: DisplayInfo) -> bool {
    &&& display.monitor_name@ == psvr_monitor_name()
    &&& display.physical_size_millimeters == Some((160u32, 90u32))
    &&& display.supported_resolutions@ == seq![
        (HMD_RESOLUTION_HORIZONTAL, HMD_RESOLUTION_VERTICAL),
    ]
}

/// Whether `properties` are those of the PSVR: two PSVR lenses 63.1
/// millimeters apart, 39.48 millimeters from the eye and 35.4 from the
/// screen, before the PSVR display.
pub open spec fn is_psvr_properties(properties: Properties) -> bool {
    &&& is_psvr_display(properties.display_info)
    &&& properties.visuals matches Visuals::LensBased {
        lens_separation,
        lens_to_eye_distance,
        screen_to_lens_distance,
        left,
        right,
    }
    &&& lens_separation.as_micrometers() == 63_100
    &&& lens_to_eye_distance.as_micrometers() == 39_480
    &&& screen_to_lens_distance.as_micrometers() == 35_400
    &&& is_psvr_lens(left)
    &&& is_psvr_lens(right)
}

fn fixed_field_of_view_axis(thousandths: i32) -> (axis: FieldOfViewAxis)
    ensures
        axis == fixed_axis(thousandths),
{
    FieldOfViewAxis {
        minimum_degrees: Scalar::from_thousandths(thousandths),
        maximum_degrees: Scalar::from_thousandths(thousandths),
        recommended_degrees: Scalar::from_thousandths(thousandths),
    }
}

/// Gets the product name of the HMD.
pub fn product_name() -> (name: &'static str)
    ensures
        name@ == psvr_product_name(),
{
    "PlayStation VR"
}

/// The properties of the PSVR.
pub fn psvr_properties() -> (properties: Properties)
    ensures
        is_psvr_properties(properties),
{
    let mut distortion_coefficients: Vec<Scalar> = Vec::new();
    distortion_coefficients.push(Scalar::from_thousandths(247));
    distortion_coefficients.push(Scalar::from_thousandths(-145));
    distortion_coefficients.push(Scalar::from_thousandths(103));
    distortion_coefficients.push(Scalar::from_thousandths(795));
    assert(distortion_coefficients@ =~= seq![
        Scalar { thousandths: 247 },
        Scalar { thousandths: -145i32 },
        Scalar { thousandths: 103 },
        Scalar { thousandths: 795 },
    ]);

    let lens = Lens {
        resolution: (LENS_RESOLUTION_HORIZONTAL, LENS_RESOLUTION_VERTICAL),
        field_of_view: FieldOfView {
            horizontal: fixed_field_of_view_axis(100_000),
            vertical: fixed_field_of_view_axis(68_000),
        },
        distortion_coefficients,
        chromatic_aberration_factors: ChromaticAberrationFactors::no_adjustments(),
    };

    let visuals = Visuals::LensBased {
        left: lens.clone(),
        right: lens,
        // 63.1 millimeters.
        lens_separation: Distance::from_micrometers(63_100),
        // 39.48 millimeters.
        lens_to_eye_distance: Distance::from_micrometers(39_480),
        // 35.4 millimeters
        screen_to_lens_distance: Distance::from_micrometers(35_400),
    };

    let mut supported_resolutions: Vec<(u32, u32)> = Vec::new();
    supported_resolutions.push((HMD_RESOLUTION_HORIZONTAL, HMD_RESOLUTION_VERTICAL));
    assert(supported_resolutions@ =~= seq![
        (HMD_RESOLUTION_HORIZONTAL, HMD_RESOLUTION_VERTICAL),
    ]);

    Properties {
        display_info: DisplayInfo {
            monitor_name: String::from_str("SIE  HMD *08"),
            physical_size_millimeters: Some((160, 90)),
            supported_resolutions,
        },
        visuals,
    }
}

/// The state that a button has when `pressed` says whether the latest
/// readout, if there is one, has it down.
pub open spec fn button_state<F: Fn(&Readout) -> bool>(
    readout: Option<Readout>,
    f: F,
    state: ButtonState,
) -> bool {
    match readout {
        Some(readout) => {
            ||| state == ButtonState::Pressed && call_ensures(f, (&readout,), true)
            ||| state == ButtonState::NotPressed && call_ensures(f, (&readout,), false)
        },
        None => state == ButtonState::NotPressed,
    }
}

/// Gets the button state from a readout.
pub fn button_from_readout<F>(readout: &Option<Readout>, f: F) -> (state: ButtonState)
    where F: Fn(&Readout) -> bool
    requires
        readout matches Some(r) ==> call_requires(f, (&r,)),
    ensures
        button_state(*readout, f, state),
{
    match readout.as_ref() {
        Some(readout) => if f(readout) {
            ButtonState::Pressed
        } else {
            ButtonState::NotPressed
        },
        None => ButtonState::NotPressed,
    }
}

/// Whether a readout has the given button down.
pub open spec fn is_down(readout: Readout, button: Button) -> bool {
    match button {
        Button::VolumeUp => readout.buttons.plus,
        Button::VolumeDown => readout.buttons.minus,
        Button::Mute => readout.buttons.mute,
    }
}

/// Gets the state of a button from the latest readout of the sensors: not
/// pressed before the first readout, and as the readout says after it.
pub fn button(latest: &Option<Readout>, which: Button) -> (state: ButtonState)
    ensures
        state == match *latest {
            Some(readout) => if is_down(readout, which) {
                ButtonState::Pressed
            } else {
                ButtonState::NotPressed
            },
            None => ButtonState::NotPressed,
        },
{
    match which {
        Button::VolumeUp => button_from_readout(latest, plus_down),
        Button::VolumeDown => button_from_readout(latest, minus_down),
        Button::Mute => button_from_readout(latest, mute_down),
    }
}

fn plus_down(readout: &Readout) -> (down: bool)
    ensures
        down == readout.buttons.plus,
{
    readout.buttons.plus
}

fn minus_down(readout: &Readout) -> (down: bool)
    ensures
        down == readout.buttons.minus,
{
    readout.buttons.minus
}

fn mute_down(readout: &Readout) -> (down: bool)
    ensures
        down == readout.buttons.mute,
{
    readout.buttons.mute
}

/// The frames that power on the headset, in the order in which they are
/// sent: power on, VR mode, VR tracking. Sending stops at the first frame
/// that fails to go out.
pub fn power_on_frames() -> (frames: [[u8; 64]; 3])
    ensures
        frames@[0]@ == command_frame(&SetPower { on: true }),
        frames@[1]@ == command_frame(&SetVrMode { vr_mode: true }),
        frames@[2]@ == command_frame(&EnableVrTracking),
{
    [power_on_frame(), vr_mode_frame(), vr_tracking_frame()]
}

} // verus!

//! Category detection: an ordered waterfall of substring tests over the
//! lower-cased descriptions of a product.
//!
//! The order of the tests is part of the contract: a longer phrase is tried
//! before the shorter one it contains, and a description that names several
//! families belongs to the one that is tried first.

use crate::models::product::{attribute_value, ProductDetail, ProductView};
use crate::text::{
    chars_of, contains, eq_ignore_ascii_case, equal_ignoring_ascii_case, has_substring, lowercase,
    to_lowercase,
};
use vstd::prelude::*;

verus! {

/// The washer category named by a lower-cased family description; a flat washer where no shape is named.
pub open spec fn washer_key(family: Seq<char>) -> Seq<char> {
    if has_substring(family, "cup"@) {
        "cup_washer"@
    } else if has_substring(family, "curved"@) {
        "curved_washer"@
    } else if has_substring(family, "dished"@) {
        "dished_washer"@
    } else if has_substring(family, "domed"@) {
        "domed_washer"@
    } else if has_substring(family, "double clipped"@) || has_substring(family, "double-clipped"@) {
        "double_clipped_washer"@
    } else if has_substring(family, "clipped"@) {
        "clipped_washer"@
    } else if has_substring(family, "hillside"@) {
        "hillside_washer"@
    } else if has_substring(family, "notched"@) {
        "notched_washer"@
    } else if has_substring(family, "perforated"@) {
        "perforated_washer"@
    } else if has_substring(family, "pronged"@) {
        "pronged_washer"@
    } else if has_substring(family, "rectangular"@) {
        "rectangular_washer"@
    } else if has_substring(family, "sleeve"@) {
        "sleeve_washer"@
    } else if has_substring(family, "slotted"@) {
        "slotted_washer"@
    } else if has_substring(family, "spherical"@) {
        "spherical_washer"@
    } else if has_substring(family, "split"@) {
        "split_washer"@
    } else if has_substring(family, "square"@) {
        "square_washer"@
    } else if has_substring(family, "tab"@) {
        "tab_washer"@
    } else if has_substring(family, "tapered"@) {
        "tapered_washer"@
    } else if has_substring(family, "tooth"@) {
        "tooth_washer"@
    } else if has_substring(family, "wave"@) {
        "wave_washer"@
    } else if has_substring(family, "wedge"@) {
        "wedge_washer"@
    } else {
        "flat_washer"@
    }
}

/// Determines the washer category from the lower-cased family description.
pub fn determine_washer_type(family_lower: &str) -> (r: String)
    ensures
        r@ == washer_key(family_lower@),
{
    let text = chars_of(family_lower);
    let family = &text;
    if contains(family, "cup") {
        "cup_washer".to_string()
    } else if contains(family, "curved") {
        "curved_washer".to_string()
    } else if contains(family, "dished") {
        "dished_washer".to_string()
    } else if contains(family, "domed") {
        "domed_washer".to_string()
    } else if contains(family, "double clipped") || contains(family, "double-clipped") {
        "double_clipped_washer".to_string()
    } else if contains(family, "clipped") {
        "clipped_washer".to_string()
    } else if contains(family, "hillside") {
        "hillside_washer".to_string()
    } else if contains(family, "notched") {
        "notched_washer".to_string()
    } else if contains(family, "perforated") {
        "perforated_washer".to_string()
    } else if contains(family, "pronged") {
        "pronged_washer".to_string()
    } else if contains(family, "rectangular") {
        "rectangular_washer".to_string()
    } else if contains(family, "sleeve") {
        "sleeve_washer".to_string()
    } else if contains(family, "slotted") {
        "slotted_washer".to_string()
    } else if contains(family, "spherical") {
        "spherical_washer".to_string()
    } else if contains(family, "split") {
        "split_washer".to_string()
    } else if contains(family, "square") {
        "square_washer".to_string()
    } else if contains(family, "tab") {
        "tab_washer".to_string()
    } else if contains(family, "tapered") {
        "tapered_washer".to_string()
    } else if contains(family, "tooth") {
        "tooth_washer".to_string()
    } else if contains(family, "wave") {
        "wave_washer".to_string()
    } else if contains(family, "wedge") {
        "wedge_washer".to_string()
    } else {
        "flat_washer".to_string()
    }
}

/// The nut category named by a lower-cased family description: locking nuts by their kind first, then locknuts in general, then the named nuts, then the generic nut.
pub open spec fn nut_key(family: Seq<char>) -> Seq<char> {
    if has_substring(family, "cotter pin"@) && (has_substring(family, "locknut"@) || has_substring(family, "lock nut"@)) {
        "cotter_pin_locknut"@
    } else if has_substring(family, "distorted thread"@) && (has_substring(family, "locknut"@) || has_substring(family, "lock nut"@)) {
        "distorted_thread_locknut"@
    } else if has_substring(family, "flex-top"@) && (has_substring(family, "locknut"@) || has_substring(family, "lock nut"@)) {
        "flex_top_locknut"@
    } else if has_substring(family, "lock washer"@) && (has_substring(family, "locknut"@) || has_substring(family, "lock nut"@)) {
        "lock_washer_locknut"@
    } else if has_substring(family, "nylon insert"@) || has_substring(family, "nylon-insert"@) {
        "nylon_insert_locknut"@
    } else if has_substring(family, "serrations"@) && (has_substring(family, "locknut"@) || has_substring(family, "lock nut"@)) {
        "serrations_locknut"@
    } else if has_substring(family, "spring-stop"@) && (has_substring(family, "locknut"@) || has_substring(family, "lock nut"@)) {
        "spring_stop_locknut"@
    } else if has_substring(family, "steel insert"@) && (has_substring(family, "locknut"@) || has_substring(family, "lock nut"@)) {
        "steel_insert_locknut"@
    } else if has_substring(family, "locknut"@) || has_substring(family, "lock nut"@) {
        "generic_locknut"@
    } else if has_substring(family, "acorn nut"@) || has_substring(family, "acornnut"@) {
        "acorn_nut"@
    } else if has_substring(family, "barrel nut"@) {
        "barrel_nut"@
    } else if has_substring(family, "cage nut"@) {
        "cage_nut"@
    } else if has_substring(family, "castle nut"@) {
        "castle_nut"@
    } else if has_substring(family, "clinch nut"@) {
        "clinch_nut"@
    } else if has_substring(family, "coupling nut"@) {
        "coupling_nut"@
    } else if has_substring(family, "flange nut"@) || has_substring(family, "flangenut"@) {
        "flange_nut"@
    } else if has_substring(family, "hex nut"@) || has_substring(family, "hexnut"@) {
        "hex_nut"@
    } else if has_substring(family, "jam nut"@) {
        "jam_nut"@
    } else if has_substring(family, "knurled thumb nut"@) {
        "knurled_thumb_nut"@
    } else if has_substring(family, "machine screw nut"@) {
        "machine_screw_nut"@
    } else if has_substring(family, "panel nut"@) {
        "panel_nut"@
    } else if has_substring(family, "push on nut"@) || has_substring(family, "push-on nut"@) {
        "push_on_nut"@
    } else if has_substring(family, "rivet nut"@) {
        "rivet_nut"@
    } else if has_substring(family, "round nut"@) {
        "round_nut"@
    } else if has_substring(family, "screw mount"@) {
        "screw_mount_nut"@
    } else if has_substring(family, "snap in"@) || has_substring(family, "snap-in"@) {
        "snap_in_nut"@
    } else if has_substring(family, "socket nut"@) {
        "socket_nut"@
    } else if has_substring(family, "speed"@) {
        "speed_nut"@
    } else if has_substring(family, "square"@) {
        "square_nut"@
    } else if has_substring(family, "tamper resistant"@) || has_substring(family, "tamper-resistant"@) {
        "tamper_resistant_nut"@
    } else if has_substring(family, "threadless"@) {
        "threadless_nut"@
    } else if has_substring(family, "thumb"@) {
        "thumb_nut"@
    } else if has_substring(family, "tube end"@) {
        "tube_end_nut"@
    } else if has_substring(family, "twist close"@) || has_substring(family, "twist-close"@) {
        "twist_close_nut"@
    } else if has_substring(family, "weld"@) {
        "weld_nut"@
    } else if has_substring(family, "with pilot hole"@) {
        "with_pilot_hole_nut"@
    } else if has_substring(family, "wing nut"@) || has_substring(family, "wingnut"@) {
        "wing_nut"@
    } else if has_substring(family, "cap nut"@) || has_substring(family, "capnut"@) {
        "cap_nut"@
    } else {
        "generic_nut"@
    }
}

/// Determines the nut category from the lower-cased family description.
pub fn determine_nut_type(family_lower: &str) -> (r: String)
    ensures
        r@ == nut_key(family_lower@),
{
    let text = chars_of(family_lower);
    let family = &text;
    if contains(family, "cotter pin") && (contains(family, "locknut") || contains(family, "lock nut")) {
        "cotter_pin_locknut".to_string()
    } else if contains(family, "distorted thread") && (contains(family, "locknut") || contains(family, "lock nut")) {
        "distorted_thread_locknut".to_string()
    } else if contains(family, "flex-top") && (contains(family, "locknut") || contains(family, "lock nut")) {
        "flex_top_locknut".to_string()
    } else if contains(family, "lock washer") && (contains(family, "locknut") || contains(family, "lock nut")) {
        "lock_washer_locknut".to_string()
    } else if contains(family, "nylon insert") || contains(family, "nylon-insert") {
        "nylon_insert_locknut".to_string()
    } else if contains(family, "serrations") && (contains(family, "locknut") || contains(family, "lock nut")) {
        "serrations_locknut".to_string()
    } else if contains(family, "spring-stop") && (contains(family, "locknut") || contains(family, "lock nut")) {
        "spring_stop_locknut".to_string()
    } else if contains(family, "steel insert") && (contains(family, "locknut") || contains(family, "lock nut")) {
        "steel_insert_locknut".to_string()
    } else if contains(family, "locknut") || contains(family, "lock nut") {
        "generic_locknut".to_string()
    } else if contains(family, "acorn nut") || contains(family, "acornnut") {
        "acorn_nut".to_string()
    } else if contains(family, "barrel nut") {
        "barrel_nut".to_string()
    } else if contains(family, "cage nut") {
        "cage_nut".to_string()
    } else if contains(family, "castle nut") {
        "castle_nut".to_string()
    } else if contains(family, "clinch nut") {
        "clinch_nut".to_string()
    } else if contains(family, "coupling nut") {
        "coupling_nut".to_string()
    } else if contains(family, "flange nut") || contains(family, "flangenut") {
        "flange_nut".to_string()
    } else if contains(family, "hex nut") || contains(family, "hexnut") {
        "hex_nut".to_string()
    } else if contains(family, "jam nut") {
        "jam_nut".to_string()
    } else if contains(family, "knurled thumb nut") {
        "knurled_thumb_nut".to_string()
    } else if contains(family, "machine screw nut") {
        "machine_screw_nut".to_string()
    } else if contains(family, "panel nut") {
        "panel_nut".to_string()
    } else if contains(family, "push on nut") || contains(family, "push-on nut") {
        "push_on_nut".to_string()
    } else if contains(family, "rivet nut") {
        "rivet_nut".to_string()
    } else if contains(family, "round nut") {
        "round_nut".to_string()
    } else if contains(family, "screw mount") {
        "screw_mount_nut".to_string()
    } else if contains(family, "snap in") || contains(family, "snap-in") {
        "snap_in_nut".to_string()
    } else if contains(family, "socket nut") {
        "socket_nut".to_string()
    } else if contains(family, "speed") {
        "speed_nut".to_string()
    } else if contains(family, "square") {
        "square_nut".to_string()
    } else if contains(family, "tamper resistant") || contains(family, "tamper-resistant") {
        "tamper_resistant_nut".to_string()
    } else if contains(family, "threadless") {
        "threadless_nut".to_string()
    } else if contains(family, "thumb") {
        "thumb_nut".to_string()
    } else if contains(family, "tube end") {
        "tube_end_nut".to_string()
    } else if contains(family, "twist close") || contains(family, "twist-close") {
        "twist_close_nut".to_string()
    } else if contains(family, "weld") {
        "weld_nut".to_string()
    } else if contains(family, "with pilot hole") {
        "with_pilot_hole_nut".to_string()
    } else if contains(family, "wing nut") || contains(family, "wingnut") {
        "wing_nut".to_string()
    } else if contains(family, "cap nut") || contains(family, "capnut") {
        "cap_nut".to_string()
    } else {
        "generic_nut".to_string()
    }
}

/// The standoff category named by a lower-cased family description.
pub open spec fn standoff_key(family: Seq<char>) -> Seq<char> {
    if has_substring(family, "male-female"@) || has_substring(family, "male female"@) {
        "male_female_hex_standoff"@
    } else if has_substring(family, "female"@) && has_substring(family, "threaded"@) {
        "female_hex_standoff"@
    } else {
        "generic_standoff"@
    }
}

/// Determines the standoff category from the lower-cased family description.
pub fn determine_standoff_type(family_lower: &str) -> (r: String)
    ensures
        r@ == standoff_key(family_lower@),
{
    let text = chars_of(family_lower);
    let family = &text;
    if contains(family, "male-female") || contains(family, "male female") {
        "male_female_hex_standoff".to_string()
    } else if contains(family, "female") && contains(family, "threaded") {
        "female_hex_standoff".to_string()
    } else {
        "generic_standoff".to_string()
    }
}

/// The unthreaded spacer category named by a lower-cased family description.
pub open spec fn spacer_key(family: Seq<char>) -> Seq<char> {
    if has_substring(family, "aluminum"@) {
        "aluminum_unthreaded_spacer"@
    } else if has_substring(family, "stainless steel"@) || has_substring(family, "18-8"@) || has_substring(family, "316"@) {
        "stainless_steel_unthreaded_spacer"@
    } else if has_substring(family, "nylon"@) {
        "nylon_unthreaded_spacer"@
    } else {
        "unthreaded_spacer"@
    }
}

/// Determines the spacer category from the lower-cased family description.
pub fn determine_spacer_type(family_lower: &str) -> (r: String)
    ensures
        r@ == spacer_key(family_lower@),
{
    let text = chars_of(family_lower);
    let family = &text;
    if contains(family, "aluminum") {
        "aluminum_unthreaded_spacer".to_string()
    } else if contains(family, "stainless steel") || contains(family, "18-8") || contains(family, "316") {
        "stainless_steel_unthreaded_spacer".to_string()
    } else if contains(family, "nylon") {
        "nylon_unthreaded_spacer".to_string()
    } else {
        "unthreaded_spacer".to_string()
    }
}

/// The pin category named by a lower-cased family description.
pub open spec fn pin_key(family: Seq<char>) -> Seq<char> {
    if has_substring(family, "clevis pin with retaining ring groove"@) {
        "clevis_pin_with_retaining_ring_groove"@
    } else if has_substring(family, "clevis pin"@) {
        "clevis_pin"@
    } else {
        "generic_pin"@
    }
}

/// Determines the pin category from the lower-cased family description.
pub fn determine_pin_type(family_lower: &str) -> (r: String)
    ensures
        r@ == pin_key(family_lower@),
{
    let text = chars_of(family_lower);
    let family = &text;
    if contains(family, "clevis pin with retaining ring groove") {
        "clevis_pin_with_retaining_ring_groove".to_string()
    } else if contains(family, "clevis pin") {
        "clevis_pin".to_string()
    } else {
        "generic_pin".to_string()
    }
}

/// The shaft collar category named by a lower-cased family description.
pub open spec fn shaft_collar_key(family: Seq<char>) -> Seq<char> {
    if has_substring(family, "face-mount shaft collar"@) || has_substring(family, "face mount shaft collar"@) {
        "face_mount_shaft_collar"@
    } else if has_substring(family, "flange-mount shaft collar"@) || has_substring(family, "flange mount shaft collar"@) {
        "flange_mount_shaft_collar"@
    } else {
        "generic_shaft_collar"@
    }
}

/// Determines the shaft collar category from the lower-cased family description.
pub fn determine_shaft_collar_type(family_lower: &str) -> (r: String)
    ensures
        r@ == shaft_collar_key(family_lower@),
{
    let text = chars_of(family_lower);
    let family = &text;
    if contains(family, "face-mount shaft collar") || contains(family, "face mount shaft collar") {
        "face_mount_shaft_collar".to_string()
    } else if contains(family, "flange-mount shaft collar") || contains(family, "flange mount shaft collar") {
        "flange_mount_shaft_collar".to_string()
    } else {
        "generic_shaft_collar".to_string()
    }
}

/// The pulley category named by a lower-cased family description.
pub open spec fn pulley_key(family: Seq<char>) -> Seq<char> {
    if has_substring(family, "wire rope"@) {
        "wire_rope_pulley"@
    } else if has_substring(family, "rope"@) && !has_substring(family, "wire"@) {
        "rope_pulley"@
    } else if has_substring(family, "v-belt"@) || has_substring(family, "belt"@) {
        "v_belt_pulley"@
    } else if has_substring(family, "sheave"@) {
        "sheave"@
    } else {
        "pulley"@
    }
}

/// Determines the pulley category from the lower-cased family description.
pub fn determine_pulley_type(family_lower: &str) -> (r: String)
    ensures
        r@ == pulley_key(family_lower@),
{
    let text = chars_of(family_lower);
    let family = &text;
    if contains(family, "wire rope") {
        "wire_rope_pulley".to_string()
    } else if contains(family, "rope") && !contains(family, "wire") {
        "rope_pulley".to_string()
    } else if contains(family, "v-belt") || contains(family, "belt") {
        "v_belt_pulley".to_string()
    } else if contains(family, "sheave") {
        "sheave".to_string()
    } else {
        "pulley".to_string()
    }
}

/// The bearing category.
///
/// `family`, `category` and `description` are the lower-cased family
/// description, product category and detail description; `plain` is the
/// value of the specification `Plain Bearing Type` and `mount` the lower-cased
/// value of `Mounted Bearing Type`, each empty where the product has none.
/// Mounted bearings come first and are told apart by `mount`, a flange mount
/// further by a low-profile qualifier in either description.
pub open spec fn bearing_key(
    family: Seq<char>,
    category: Seq<char>,
    description: Seq<char>,
    plain: Seq<char>,
    mount: Seq<char>,
) -> Seq<char> {
    if has_substring(family, "mounted"@) || has_substring(category, "mounted"@) {
        if has_substring(mount, "two-bolt flange"@) || has_substring(mount, "flange"@) {
            if has_substring(family, "low-profile"@) || has_substring(family, "low profile"@) 
               || has_substring(description, "low-profile"@) || has_substring(description, "low profile"@) {
                "low_profile_flange_mounted_ball_bearing"@
            } else {
                "flange_mounted_ball_bearing"@
            }
        } else if has_substring(mount, "pillow"@) {
            "pillow_block_mounted_ball_bearing"@
        } else {
            "generic_mounted_bearing"@
        }
    } else if has_substring(family, "flanged"@) || equal_ignoring_ascii_case(plain, "Flanged"@) {
        if has_substring(family, "sleeve"@) || has_substring(family, "plain"@) {
            "flanged_sleeve_bearing"@
        } else {
            "flanged_bearing"@
        }
    } else if has_substring(family, "sleeve"@) || has_substring(family, "plain"@) {
        "sleeve_bearing"@
    } else if has_substring(family, "ball"@) {
        "ball_bearing"@
    } else if has_substring(family, "linear"@) {
        "linear_bearing"@
    } else if has_substring(family, "needle"@) {
        "needle_bearing"@
    } else if has_substring(family, "roller"@) {
        "roller_bearing"@
    } else {
        "generic_bearing"@
    }
}

/// Determines the bearing category from lower-cased descriptions and the two
/// bearing-type values, as [`bearing_key`] lays down.
pub fn classify_bearing(
    family_lower: &str,
    category_lower: &str,
    description_lower: &str,
    plain_type: &str,
    mount_type_lower: &str,
) -> (r: String)
    ensures
        r@ == bearing_key(
            family_lower@,
            category_lower@,
            description_lower@,
            plain_type@,
            mount_type_lower@,
        ),
{
    let family_text = chars_of(family_lower);
    let family = &family_text;
    let category_text = chars_of(category_lower);
    let category = &category_text;
    let description_text = chars_of(description_lower);
    let description = &description_text;
    let mount_text = chars_of(mount_type_lower);
    let mount = &mount_text;
    let plain = plain_type;
    if contains(family, "mounted") || contains(category, "mounted") {
        if contains(mount, "two-bolt flange") || contains(mount, "flange") {
            if contains(family, "low-profile") || contains(family, "low profile") 
               || contains(description, "low-profile") || contains(description, "low profile") {
                "low_profile_flange_mounted_ball_bearing".to_string()
            } else {
                "flange_mounted_ball_bearing".to_string()
            }
        } else if contains(mount, "pillow") {
            "pillow_block_mounted_ball_bearing".to_string()
        } else {
            "generic_mounted_bearing".to_string()
        }
    } else if contains(family, "flanged") || eq_ignore_ascii_case(plain, "Flanged") {
        if contains(family, "sleeve") || contains(family, "plain") {
            "flanged_sleeve_bearing".to_string()
        } else {
            "flanged_bearing".to_string()
        }
    } else if contains(family, "sleeve") || contains(family, "plain") {
        "sleeve_bearing".to_string()
    } else if contains(family, "ball") {
        "ball_bearing".to_string()
    } else if contains(family, "linear") {
        "linear_bearing".to_string()
    } else if contains(family, "needle") {
        "needle_bearing".to_string()
    } else if contains(family, "roller") {
        "roller_bearing".to_string()
    } else {
        "generic_bearing".to_string()
    }
}

/// The category of a product with the lower-cased family description
/// `family` and product category `category`: the key of the first test of
/// the waterfall that holds, `unknown` where none does.
///
/// Thread-forming screws come before the other screws, screws before
/// washers, then nuts, unthreaded spacers, standoffs, bearings, pins, shaft
/// collars and pulleys. `description`, `plain` and `mount` are what
/// [`bearing_key`] reads.
pub open spec fn classified(
    family: Seq<char>,
    category: Seq<char>,
    description: Seq<char>,
    plain: Seq<char>,
    mount: Seq<char>,
) -> Seq<char> {
    if has_substring(family, "thread-forming"@) || has_substring(family, "thread forming"@) {
        if has_substring(family, "button head"@) && has_substring(family, "screw"@) {
            "thread_forming_button_head_screw"@
        } else if has_substring(family, "high socket head"@) && has_substring(family, "screw"@) {
            "thread_forming_high_socket_head_screw"@
        } else if (has_substring(family, "low socket head"@) || has_substring(family, "low-profile socket head"@)) && has_substring(family, "screw"@) {
            "thread_forming_low_socket_head_screw"@
        } else if has_substring(family, "socket head"@) && has_substring(family, "screw"@) {
            "thread_forming_socket_head_screw"@
        } else if has_substring(family, "flat head"@) && has_substring(family, "screw"@) {
            "thread_forming_flat_head_screw"@
        } else if has_substring(family, "pan head"@) && has_substring(family, "screw"@) {
            "thread_forming_pan_head_screw"@
        } else if has_substring(family, "hex head"@) && has_substring(family, "screw"@) {
            "thread_forming_hex_head_screw"@
        } else if has_substring(family, "screw"@) {
            "thread_forming_screw"@
        } else {
            "thread_forming_screw"@
        }
    } else if has_substring(family, "button head"@) && has_substring(family, "screw"@) {
        "button_head_screw"@
    } else if has_substring(family, "high socket head"@) && has_substring(family, "screw"@) {
        "high_socket_head_screw"@
    } else if (has_substring(family, "low socket head"@) || has_substring(family, "low-profile socket head"@)) && has_substring(family, "screw"@) {
        "low_socket_head_screw"@
    } else if (has_substring(family, "ultra low socket head"@) || has_substring(family, "ultra low-profile socket head"@)) && has_substring(family, "screw"@) {
        "ultra_low_socket_head_screw"@
    } else if has_substring(family, "standard socket head"@) && has_substring(family, "screw"@) {
        "standard_socket_head_screw"@
    } else if has_substring(family, "socket head"@) && has_substring(family, "screw"@) {
        "socket_head_screw"@
    } else if has_substring(family, "narrow flat head"@) && has_substring(family, "screw"@) {
        "narrow_flat_head_screw"@
    } else if has_substring(family, "standard flat head"@) && has_substring(family, "screw"@) {
        "standard_flat_head_screw"@
    } else if has_substring(family, "undercut flat head"@) && has_substring(family, "screw"@) {
        "undercut_flat_head_screw"@
    } else if has_substring(family, "wide flat head"@) && has_substring(family, "screw"@) {
        "wide_flat_head_screw"@
    } else if has_substring(family, "flat head"@) && has_substring(family, "screw"@) {
        "flat_head_screw"@
    } else if has_substring(family, "pan head"@) && has_substring(family, "screw"@) {
        "pan_head_screw"@
    } else if has_substring(family, "hex head"@) && has_substring(family, "screw"@) {
        "hex_head_screw"@
    } else if has_substring(family, "standard oval head"@) && has_substring(family, "screw"@) {
        "standard_oval_head_screw"@
    } else if has_substring(family, "undercut oval head"@) && has_substring(family, "screw"@) {
        "undercut_oval_head_screw"@
    } else if has_substring(family, "oval head"@) && has_substring(family, "screw"@) {
        "oval_head_screw"@
    } else if has_substring(family, "square head"@) && has_substring(family, "screw"@) {
        "square_head_screw"@
    } else if has_substring(family, "binding head"@) && has_substring(family, "screw"@) {
        "binding_head_screw"@
    } else if has_substring(family, "carriage head"@) && has_substring(family, "screw"@) {
        "carriage_head_screw"@
    } else if has_substring(family, "cheese head"@) && has_substring(family, "screw"@) {
        "cheese_head_screw"@
    } else if has_substring(family, "fillister head"@) && has_substring(family, "screw"@) {
        "fillister_head_screw"@
    } else if has_substring(family, "pancake head"@) && has_substring(family, "screw"@) {
        "pancake_head_screw"@
    } else if has_substring(family, "round head"@) && has_substring(family, "screw"@) {
        "round_head_screw"@
    } else if has_substring(family, "truss head"@) && has_substring(family, "screw"@) {
        "truss_head_screw"@
    } else if has_substring(family, "rounded head"@) && has_substring(family, "screw"@) {
        "rounded_head_screw"@
    } else if has_substring(family, "12-point"@) && has_substring(family, "screw"@) {
        "12_point_head_screw"@
    } else if has_substring(family, "t-handle"@) && has_substring(family, "screw"@) {
        "t_handle_screw"@
    } else if has_substring(family, "t-slot"@) && has_substring(family, "screw"@) {
        "t_slot_screw"@
    } else if has_substring(family, "l-handle"@) && has_substring(family, "screw"@) {
        "l_handle_screw"@
    } else if has_substring(family, "domed"@) && has_substring(family, "screw"@) {
        "domed_head_screw"@
    } else if has_substring(family, "headless"@) && has_substring(family, "screw"@) {
        "headless_screw"@
    } else if has_substring(family, "pentagon"@) && has_substring(family, "screw"@) {
        "pentagon_head_screw"@
    } else if has_substring(family, "four arm thumb"@) && has_substring(family, "screw"@) {
        "four_arm_thumb_screw"@
    } else if has_substring(family, "hex thumb"@) && has_substring(family, "screw"@) {
        "hex_thumb_screw"@
    } else if has_substring(family, "multilobe thumb"@) && has_substring(family, "screw"@) {
        "multilobe_thumb_screw"@
    } else if has_substring(family, "rectangle thumb"@) && has_substring(family, "screw"@) {
        "rectangle_thumb_screw"@
    } else if has_substring(family, "round thumb"@) && has_substring(family, "screw"@) {
        "round_thumb_screw"@
    } else if has_substring(family, "spade thumb"@) && has_substring(family, "screw"@) {
        "spade_thumb_screw"@
    } else if has_substring(family, "two arm thumb"@) && has_substring(family, "screw"@) {
        "two_arm_thumb_screw"@
    } else if has_substring(family, "wing thumb"@) && has_substring(family, "screw"@) {
        "wing_thumb_screw"@
    } else if has_substring(family, "thumb"@) && has_substring(family, "screw"@) {
        "thumb_screw"@
    } else if has_substring(family, "captive panel"@) && has_substring(family, "screw"@) {
        "captive_panel_screw"@
    } else if has_substring(family, "hook"@) && has_substring(family, "screw"@) {
        "hook_screw"@
    } else if has_substring(family, "ring"@) && has_substring(family, "screw"@) {
        "ring_screw"@
    } else if has_substring(family, "eye"@) && has_substring(family, "screw"@) {
        "eye_screw"@
    } else if has_substring(family, "knob"@) && has_substring(family, "screw"@) {
        "knob_screw"@
    } else if has_substring(family, "threaded"@) && has_substring(family, "screw"@) {
        "threaded_screw"@
    } else if has_substring(family, "tee"@) && has_substring(family, "screw"@) {
        "tee_screw"@
    } else if has_substring(family, "screw"@) {
        "generic_screw"@
    } else if has_substring(family, "washer"@) {
        washer_key(family)
    } else if has_substring(category, "nuts"@) || has_substring(category, "nut"@) || has_substring(family, "nut"@) {
        nut_key(family)
    } else if has_substring(family, "unthreaded spacer"@) || (has_substring(category, "spacers"@) && has_substring(family, "spacer"@)) {
        spacer_key(family)
    } else if has_substring(category, "standoffs"@) || has_substring(category, "standoff"@) || 
              has_substring(family, "standoff"@) {
        standoff_key(family)
    } else if has_substring(category, "bearing"@) || has_substring(family, "bearing"@) {
        bearing_key(family, category, description, plain, mount)
    } else if has_substring(category, "pins"@) || has_substring(family, "pin"@) {
        pin_key(family)
    } else if has_substring(category, "shaft collars"@) || has_substring(family, "shaft collar"@) {
        shaft_collar_key(family)
    } else if has_substring(category, "pulleys"@) || has_substring(family, "pulley"@) || has_substring(family, "sheave"@) {
        pulley_key(family)
    } else {
        "unknown"@
    }
}

/// Classifies a product from its lower-cased descriptions and the two
/// bearing-type values, as [`classified`] lays down.
pub fn classify(
    family_lower: &str,
    category_lower: &str,
    description_lower: &str,
    plain_type: &str,
    mount_type_lower: &str,
) -> (r: String)
    ensures
        r@ == classified(
            family_lower@,
            category_lower@,
            description_lower@,
            plain_type@,
            mount_type_lower@,
        ),
{
    let family_text = chars_of(family_lower);
    let family = &family_text;
    let category_text = chars_of(category_lower);
    let category = &category_text;
    if contains(family, "thread-forming") || contains(family, "thread forming") {
        if contains(family, "button head") && contains(family, "screw") {
            "thread_forming_button_head_screw".to_string()
        } else if contains(family, "high socket head") && contains(family, "screw") {
            "thread_forming_high_socket_head_screw".to_string()
        } else if (contains(family, "low socket head") || contains(family, "low-profile socket head")) && contains(family, "screw") {
            "thread_forming_low_socket_head_screw".to_string()
        } else if contains(family, "socket head") && contains(family, "screw") {
            "thread_forming_socket_head_screw".to_string()
        } else if contains(family, "flat head") && contains(family, "screw") {
            "thread_forming_flat_head_screw".to_string()
        } else if contains(family, "pan head") && contains(family, "screw") {
            "thread_forming_pan_head_screw".to_string()
        } else if contains(family, "hex head") && contains(family, "screw") {
            "thread_forming_hex_head_screw".to_string()
        } else if contains(family, "screw") {
            "thread_forming_screw".to_string()
        } else {
            "thread_forming_screw".to_string()
        }
    } else if contains(family, "button head") && contains(family, "screw") {
        "button_head_screw".to_string()
    } else if contains(family, "high socket head") && contains(family, "screw") {
        "high_socket_head_screw".to_string()
    } else if (contains(family, "low socket head") || contains(family, "low-profile socket head")) && contains(family, "screw") {
        "low_socket_head_screw".to_string()
    } else if (contains(family, "ultra low socket head") || contains(family, "ultra low-profile socket head")) && contains(family, "screw") {
        "ultra_low_socket_head_screw".to_string()
    } else if contains(family, "standard socket head") && contains(family, "screw") {
        "standard_socket_head_screw".to_string()
    } else if contains(family, "socket head") && contains(family, "screw") {
        "socket_head_screw".to_string()
    } else if contains(family, "narrow flat head") && contains(family, "screw") {
        "narrow_flat_head_screw".to_string()
    } else if contains(family, "standard flat head") && contains(family, "screw") {
        "standard_flat_head_screw".to_string()
    } else if contains(family, "undercut flat head") && contains(family, "screw") {
        "undercut_flat_head_screw".to_string()
    } else if contains(family, "wide flat head") && contains(family, "screw") {
        "wide_flat_head_screw".to_string()
    } else if contains(family, "flat head") && contains(family, "screw") {
        "flat_head_screw".to_string()
    } else if contains(family, "pan head") && contains(family, "screw") {
        "pan_head_screw".to_string()
    } else if contains(family, "hex head") && contains(family, "screw") {
        "hex_head_screw".to_string()
    } else if contains(family, "standard oval head") && contains(family, "screw") {
        "standard_oval_head_screw".to_string()
    } else if contains(family, "undercut oval head") && contains(family, "screw") {
        "undercut_oval_head_screw".to_string()
    } else if contains(family, "oval head") && contains(family, "screw") {
        "oval_head_screw".to_string()
    } else if contains(family, "square head") && contains(family, "screw") {
        "square_head_screw".to_string()
    } else if contains(family, "binding head") && contains(family, "screw") {
        "binding_head_screw".to_string()
    } else if contains(family, "carriage head") && contains(family, "screw") {
        "carriage_head_screw".to_string()
    } else if contains(family, "cheese head") && contains(family, "screw") {
        "cheese_head_screw".to_string()
    } else if contains(family, "fillister head") && contains(family, "screw") {
        "fillister_head_screw".to_string()
    } else if contains(family, "pancake head") && contains(family, "screw") {
        "pancake_head_screw".to_string()
    } else if contains(family, "round head") && contains(family, "screw") {
        "round_head_screw".to_string()
    } else if contains(family, "truss head") && contains(family, "screw") {
        "truss_head_screw".to_string()
    } else if contains(family, "rounded head") && contains(family, "screw") {
        "rounded_head_screw".to_string()
    } else if contains(family, "12-point") && contains(family, "screw") {
        "12_point_head_screw".to_string()
    } else if contains(family, "t-handle") && contains(family, "screw") {
        "t_handle_screw".to_string()
    } else if contains(family, "t-slot") && contains(family, "screw") {
        "t_slot_screw".to_string()
    } else if contains(family, "l-handle") && contains(family, "screw") {
        "l_handle_screw".to_string()
    } else if contains(family, "domed") && contains(family, "screw") {
        "domed_head_screw".to_string()
    } else if contains(family, "headless") && contains(family, "screw") {
        "headless_screw".to_string()
    } else if contains(family, "pentagon") && contains(family, "screw") {
        "pentagon_head_screw".to_string()
    } else if contains(family, "four arm thumb") && contains(family, "screw") {
        "four_arm_thumb_screw".to_string()
    } else if contains(family, "hex thumb") && contains(family, "screw") {
        "hex_thumb_screw".to_string()
    } else if contains(family, "multilobe thumb") && contains(family, "screw") {
        "multilobe_thumb_screw".to_string()
    } else if contains(family, "rectangle thumb") && contains(family, "screw") {
        "rectangle_thumb_screw".to_string()
    } else if contains(family, "round thumb") && contains(family, "screw") {
        "round_thumb_screw".to_string()
    } else if contains(family, "spade thumb") && contains(family, "screw") {
        "spade_thumb_screw".to_string()
    } else if contains(family, "two arm thumb") && contains(family, "screw") {
        "two_arm_thumb_screw".to_string()
    } else if contains(family, "wing thumb") && contains(family, "screw") {
        "wing_thumb_screw".to_string()
    } else if contains(family, "thumb") && contains(family, "screw") {
        "thumb_screw".to_string()
    } else if contains(family, "captive panel") && contains(family, "screw") {
        "captive_panel_screw".to_string()
    } else if contains(family, "hook") && contains(family, "screw") {
        "hook_screw".to_string()
    } else if contains(family, "ring") && contains(family, "screw") {
        "ring_screw".to_string()
    } else if contains(family, "eye") && contains(family, "screw") {
        "eye_screw".to_string()
    } else if contains(family, "knob") && contains(family, "screw") {
        "knob_screw".to_string()
    } else if contains(family, "threaded") && contains(family, "screw") {
        "threaded_screw".to_string()
    } else if contains(family, "tee") && contains(family, "screw") {
        "tee_screw".to_string()
    } else if contains(family, "screw") {
        "generic_screw".to_string()
    } else if contains(family, "washer") {
        determine_washer_type(family_lower)
    } else if contains(category, "nuts") || contains(category, "nut") || contains(family, "nut") {
        determine_nut_type(family_lower)
    } else if contains(family, "unthreaded spacer") || (contains(category, "spacers") && contains(family, "spacer")) {
        determine_spacer_type(family_lower)
    } else if contains(category, "standoffs") || contains(category, "standoff") || 
              contains(family, "standoff") {
        determine_standoff_type(family_lower)
    } else if contains(category, "bearing") || contains(family, "bearing") {
        classify_bearing(
            family_lower,
            category_lower,
            description_lower,
            plain_type,
            mount_type_lower,
        )
    } else if contains(category, "pins") || contains(family, "pin") {
        determine_pin_type(family_lower)
    } else if contains(category, "shaft collars") || contains(family, "shaft collar") {
        determine_shaft_collar_type(family_lower)
    } else if contains(category, "pulleys") || contains(family, "pulley") || contains(family, "sheave") {
        determine_pulley_type(family_lower)
    } else {
        "unknown".to_string()
    }
}

/// The empty text.
pub open spec fn no_text() -> Seq<char> {
    Seq::<char>::empty()
}

/// The value of `Plain Bearing Type`, empty where the product has none.
pub open spec fn plain_bearing_type(p: ProductView) -> Seq<char> {
    match attribute_value(p.specifications, "Plain Bearing Type"@) {
        Some(v) => v,
        None => no_text(),
    }
}

/// The lower-cased value of `Mounted Bearing Type`, empty where the product
/// has none.
pub open spec fn mounted_bearing_type(p: ProductView) -> Seq<char> {
    match attribute_value(p.specifications, "Mounted Bearing Type"@) {
        Some(v) => lowercase(v),
        None => no_text(),
    }
}

/// The bearing category of a product.
pub open spec fn bearing_category_of(p: ProductView) -> Seq<char> {
    bearing_key(
        lowercase(p.family_description),
        lowercase(p.product_category),
        lowercase(p.detail_description),
        plain_bearing_type(p),
        mounted_bearing_type(p),
    )
}

/// The category of a product: its descriptions are lower-cased and then
/// classified.
pub open spec fn category_of(p: ProductView) -> Seq<char> {
    classified(
        lowercase(p.family_description),
        lowercase(p.product_category),
        lowercase(p.detail_description),
        plain_bearing_type(p),
        mounted_bearing_type(p),
    )
}

/// The value of `Plain Bearing Type`.
fn plain_type_of(product: &ProductDetail) -> (r: String)
    ensures
        r@ == plain_bearing_type(product@),
{
    match product.specification_value("Plain Bearing Type") {
        Some(v) => v.clone(),
        None => String::new(),
    }
}

/// The lower-cased value of `Mounted Bearing Type`.
fn mount_type_of(product: &ProductDetail) -> (r: String)
    ensures
        r@ == mounted_bearing_type(product@),
{
    match product.specification_value("Mounted Bearing Type") {
        Some(v) => to_lowercase(v.as_str()),
        None => String::new(),
    }
}

/// Determines the bearing category of a product.
pub fn determine_bearing_type(product: &ProductDetail) -> (r: String)
    ensures
        r@ == bearing_category_of(product@),
{
    let family = to_lowercase(product.family_description.as_str());
    let category = to_lowercase(product.product_category.as_str());
    let description = to_lowercase(product.detail_description.as_str());
    let plain = plain_type_of(product);
    let mount = mount_type_of(product);
    classify_bearing(
        family.as_str(),
        category.as_str(),
        description.as_str(),
        plain.as_str(),
        mount.as_str(),
    )
}

/// Determines the category of a product.
///
/// The result is the key under which the template registry holds the
/// product's naming template, or `unknown`.
pub fn determine_category(product: &ProductDetail) -> (r: String)
    ensures
        r@ == category_of(product@),
{
    let family = to_lowercase(product.family_description.as_str());
    let category = to_lowercase(product.product_category.as_str());
    let description = to_lowercase(product.detail_description.as_str());
    let plain = plain_type_of(product);
    let mount = mount_type_of(product);
    classify(
        family.as_str(),
        category.as_str(),
        description.as_str(),
        plain.as_str(),
        mount.as_str(),
    )
}

} // verus!

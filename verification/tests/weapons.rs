use cs2_gsi_webui::text::{chars_lt, chars_of, contains_chars, strip_repeated_prefix};
use cs2_gsi_webui::weapon::{classify_lowered, classify_weapon, weapon_class_of, WeaponClass};

#[test]
fn classifies_each_bucket() {
    assert_eq!(classify_weapon("weapon_ak47"), "rifle");
    assert_eq!(classify_weapon("weapon_m4a1_silencer"), "rifle");
    assert_eq!(classify_weapon("weapon_taser"), "rifle");
    assert_eq!(classify_weapon("weapon_awp"), "sniper");
    assert_eq!(classify_weapon("weapon_ssg08"), "sniper");
    assert_eq!(classify_weapon("weapon_nova"), "shotgun");
    assert_eq!(classify_weapon("weapon_sawedoff"), "shotgun");
    assert_eq!(classify_weapon("weapon_mp9"), "smg");
    assert_eq!(classify_weapon("weapon_bizon"), "smg");
    assert_eq!(classify_weapon("weapon_negev"), "mg");
    assert_eq!(classify_weapon("weapon_m249"), "mg");
    assert_eq!(classify_weapon("weapon_deagle"), "pistol");
    assert_eq!(classify_weapon("weapon_usp_silencer"), "pistol");
    assert_eq!(classify_weapon("weapon_hegrenade"), "grenade");
    assert_eq!(classify_weapon("weapon_inferno"), "grenade");
    assert_eq!(classify_weapon("weapon_molotov"), "grenade");
    assert_eq!(classify_weapon("weapon_c4"), "other");
    assert_eq!(classify_weapon(""), "other");
}

#[test]
fn knives_by_prefix_name_or_substring() {
    assert_eq!(classify_weapon("weapon_knife"), "knife");
    assert_eq!(classify_weapon("weapon_knife_karambit"), "knife");
    assert_eq!(classify_weapon("weapon_bayonet"), "knife");
    assert_eq!(classify_weapon("weapon_butterfly_knife"), "knife");
    assert_eq!(classify_weapon("weapon_knifegg"), "knife");
}

#[test]
fn case_does_not_matter() {
    assert_eq!(classify_weapon("WEAPON_AWP"), "sniper");
    assert_eq!(classify_weapon("Weapon_Knife_T"), "knife");
    assert_eq!(weapon_class_of("WEAPON_HEGRENADE"), WeaponClass::Grenade);
}

#[test]
fn lowered_input_is_taken_as_is() {
    assert_eq!(classify_lowered("weapon_awp"), WeaponClass::Sniper);
    assert_eq!(classify_lowered("WEAPON_AWP"), WeaponClass::Other);
}

#[test]
fn weapon_prefix_is_optional_and_repeatable() {
    assert_eq!(classify_weapon("awp"), "sniper");
    assert_eq!(classify_weapon("weapon_weapon_awp"), "sniper");
    assert_eq!(classify_weapon("weapon_"), "other");
    assert_eq!(classify_weapon("xweapon_awp"), "other");
}

#[test]
fn labels_of_buckets() {
    assert_eq!(WeaponClass::Smg.as_str(), "smg");
    assert_eq!(WeaponClass::Other.as_str(), "other");
}

#[test]
fn text_helpers() {
    let s = chars_of("weapon_weapon_ak47");
    let p = chars_of("weapon_");
    let stripped: String = strip_repeated_prefix(&s, &p).into_iter().collect();
    assert_eq!(stripped, "ak47");
    let empty = chars_of("");
    let kept: String = strip_repeated_prefix(&s, &empty).into_iter().collect();
    assert_eq!(kept, "weapon_weapon_ak47");
    assert!(contains_chars(&chars_of("butterfly_knife"), &chars_of("knife")));
    assert!(!contains_chars(&chars_of("kni"), &chars_of("knife")));
    assert!(chars_lt(&chars_of("CT"), &chars_of("SPEC")));
    assert!(chars_lt(&chars_of("SPEC"), &chars_of("T")));
    assert!(chars_lt(&chars_of("ab"), &chars_of("abc")));
    assert!(!chars_lt(&chars_of("abc"), &chars_of("abc")));
    assert!(!chars_lt(&chars_of("b"), &chars_of("abc")));
}

#[test]
fn prefix_law_on_ascii_names() {
    for s in ["awp", "knife_t", "hegrenade", "c4", "", "M4A1_SILENCER", "weapon_deagle"] {
        let base = classify_weapon(s);
        assert_eq!(classify_weapon(&format!("weapon_{}", s)), base);
        assert_eq!(classify_weapon(&format!("WEAPON_{}", s)), base);
    }
}

//! Classification of CS2 weapon class names (`weapon_*`) into the coarse
//! buckets the dashboard renders as badges.

use vstd::prelude::*;
use vstd::utf8::is_ascii_chars;

use crate::text::{
    chars_eq, chars_of, contains_chars, occurs_in, starts_with_chars, strip_repeated,
    strip_repeated_prefix,
};

verus! {

/// Coarse weapon bucket.
#[derive(Clone, Copy, Debug, PartialEq, Eq, Structural)]
pub enum WeaponClass {
    Knife,
    Grenade,
    Sniper,
    Shotgun,
    Smg,
    Mg,
    Pistol,
    Rifle,
    Other,
}

impl WeaponClass {
    /// The label the dashboard shows for the bucket.
    pub open spec fn label(self) -> Seq<char> {
        match self {
            WeaponClass::Knife => "knife"@,
            WeaponClass::Grenade => "grenade"@,
            WeaponClass::Sniper => "sniper"@,
            WeaponClass::Shotgun => "shotgun"@,
            WeaponClass::Smg => "smg"@,
            WeaponClass::Mg => "mg"@,
            WeaponClass::Pistol => "pistol"@,
            WeaponClass::Rifle => "rifle"@,
            WeaponClass::Other => "other"@,
        }
    }

    /// The label of the bucket.
    pub fn as_str(&self) -> (r: &'static str)
        ensures
            r@ == self.label(),
    {
        match self {
            WeaponClass::Knife => "knife",
            WeaponClass::Grenade => "grenade",
            WeaponClass::Sniper => "sniper",
            WeaponClass::Shotgun => "shotgun",
            WeaponClass::Smg => "smg",
            WeaponClass::Mg => "mg",
            WeaponClass::Pistol => "pistol",
            WeaponClass::Rifle => "rifle",
            WeaponClass::Other => "other",
        }
    }
}

/// The lowercase form of a string, as `str::to_lowercase` computes it
/// (the Unicode lowercase mapping, a function of the characters alone).
pub uninterp spec fn lowercase(s: Seq<char>) -> Seq<char>;

/// The ASCII lowercase of one character: `A`..=`Z` become `a`..=`z`, every
/// other character stays.
pub open spec fn ascii_lower_char(c: char) -> char {
    if 'A' <= c && c <= 'Z' {
        ((c as u32) + 32) as char
    } else {
        c
    }
}

/// The ASCII lowercase of a character sequence, character by character.
pub open spec fn ascii_lowercase(s: Seq<char>) -> Seq<char> {
    s.map_values(|c: char| ascii_lower_char(c))
}

/// Calls `str::to_lowercase`. The contract claims that the result's
/// characters are `lowercase` of the argument's characters, naming the
/// Unicode mapping rather than stating it, and that on an all-ASCII string
/// that mapping is the ASCII one: `A`..=`Z` lowered, everything else kept.
#[verifier::external_body]
fn lowercase_string(s: &str) -> (r: String)
    ensures
        r@ == lowercase(s@),
        is_ascii_chars(s@) ==> r@ == ascii_lowercase(s@),
{
    s.to_lowercase()
}

/// The class-name prefix that CS2 puts before weapon names.
pub open spec fn weapon_prefix() -> Seq<char> {
    "weapon_"@
}

pub open spec fn is_knife_name(t: Seq<char>) -> bool {
    "knife"@.is_prefix_of(t) || t == "bayonet"@ || occurs_in("knife"@, t)
}

pub open spec fn is_grenade_name(t: Seq<char>) -> bool {
    t == "hegrenade"@ || t == "inferno"@ || t == "molotov"@ || t == "incgrenade"@ || t
        == "decoy"@ || t == "flashbang"@ || t == "smokegrenade"@ || t == "frag"@ || t
        == "firebomb"@
}

pub open spec fn is_sniper_name(t: Seq<char>) -> bool {
    t == "awp"@ || t == "ssg08"@ || t == "scar20"@ || t == "g3sg1"@
}

pub open spec fn is_shotgun_name(t: Seq<char>) -> bool {
    t == "nova"@ || t == "xm1014"@ || t == "mag7"@ || t == "sawedoff"@
}

pub open spec fn is_smg_name(t: Seq<char>) -> bool {
    t == "mp9"@ || t == "mac10"@ || t == "mp7"@ || t == "ump45"@ || t == "p90"@ || t == "bizon"@
        || t == "mp5sd"@
}

pub open spec fn is_mg_name(t: Seq<char>) -> bool {
    t == "m249"@ || t == "negev"@
}

pub open spec fn is_pistol_name(t: Seq<char>) -> bool {
    t == "glock"@ || t == "usp_silencer"@ || t == "hkp2000"@ || t == "p250"@ || t
        == "fiveseven"@ || t == "tec9"@ || t == "cz75a"@ || t == "deagle"@ || t == "elite"@ || t
        == "revolver"@
}

pub open spec fn is_rifle_name(t: Seq<char>) -> bool {
    t == "ak47"@ || t == "m4a1"@ || t == "m4a4"@ || t == "m4a1_silencer"@ || t == "famas"@ || t
        == "galilar"@ || t == "aug"@ || t == "sg556"@ || t == "sg553"@ || t == "taser"@
}

/// The bucket of an already lowercased weapon name: leading `weapon_`
/// prefixes are dropped, then the name is matched against the known
/// weapons, knives first.
pub open spec fn weapon_class(lowered: Seq<char>) -> WeaponClass {
    let t = strip_repeated(lowered, weapon_prefix());
    if is_knife_name(t) {
        WeaponClass::Knife
    } else if is_grenade_name(t) {
        WeaponClass::Grenade
    } else if is_sniper_name(t) {
        WeaponClass::Sniper
    } else if is_shotgun_name(t) {
        WeaponClass::Shotgun
    } else if is_smg_name(t) {
        WeaponClass::Smg
    } else if is_mg_name(t) {
        WeaponClass::Mg
    } else if is_pistol_name(t) {
        WeaponClass::Pistol
    } else if is_rifle_name(t) {
        WeaponClass::Rifle
    } else {
        WeaponClass::Other
    }
}

/// Whether `t` spells the literal `lit`.
fn is(t: &Vec<char>, lit: &str) -> (r: bool)
    ensures
        r == (t@ == lit@),
{
    let l = chars_of(lit);
    chars_eq(t, &l)
}

fn knife_name(t: &Vec<char>) -> (r: bool)
    ensures
        r == is_knife_name(t@),
{
    let knife = chars_of("knife");
    starts_with_chars(t, &knife) || is(t, "bayonet") || contains_chars(t, &knife)
}

fn grenade_name(t: &Vec<char>) -> (r: bool)
    ensures
        r == is_grenade_name(t@),
{
    is(t, "hegrenade") || is(t, "inferno") || is(t, "molotov") || is(t, "incgrenade") || is(
        t,
        "decoy",
    ) || is(t, "flashbang") || is(t, "smokegrenade") || is(t, "frag") || is(t, "firebomb")
}

fn sniper_name(t: &Vec<char>) -> (r: bool)
    ensures
        r == is_sniper_name(t@),
{
    is(t, "awp") || is(t, "ssg08") || is(t, "scar20") || is(t, "g3sg1")
}

fn shotgun_name(t: &Vec<char>) -> (r: bool)
    ensures
        r == is_shotgun_name(t@),
{
    is(t, "nova") || is(t, "xm1014") || is(t, "mag7") || is(t, "sawedoff")
}

fn smg_name(t: &Vec<char>) -> (r: bool)
    ensures
        r == is_smg_name(t@),
{
    is(t, "mp9") || is(t, "mac10") || is(t, "mp7") || is(t, "ump45") || is(t, "p90") || is(
        t,
        "bizon",
    ) || is(t, "mp5sd")
}

fn mg_name(t: &Vec<char>) -> (r: bool)
    ensures
        r == is_mg_name(t@),
{
    is(t, "m249") || is(t, "negev")
}

fn pistol_name(t: &Vec<char>) -> (r: bool)
    ensures
        r == is_pistol_name(t@),
{
    is(t, "glock") || is(t, "usp_silencer") || is(t, "hkp2000") || is(t, "p250") || is(
        t,
        "fiveseven",
    ) || is(t, "tec9") || is(t, "cz75a") || is(t, "deagle") || is(t, "elite") || is(
        t,
        "revolver",
    )
}

fn rifle_name(t: &Vec<char>) -> (r: bool)
    ensures
        r == is_rifle_name(t@),
{
    is(t, "ak47") || is(t, "m4a1") || is(t, "m4a4") || is(t, "m4a1_silencer") || is(t, "famas")
        || is(t, "galilar") || is(t, "aug") || is(t, "sg556") || is(t, "sg553") || is(t, "taser")
}

/// The bucket of a weapon name that is already in lowercase.
pub fn classify_lowered(lowered: &str) -> (k: WeaponClass)
    ensures
        k == weapon_class(lowered@),
{
    let w = chars_of(lowered);
    let prefix = chars_of("weapon_");
    let t = strip_repeated_prefix(&w, &prefix);
    if knife_name(&t) {
        WeaponClass::Knife
    } else if grenade_name(&t) {
        WeaponClass::Grenade
    } else if sniper_name(&t) {
        WeaponClass::Sniper
    } else if shotgun_name(&t) {
        WeaponClass::Shotgun
    } else if smg_name(&t) {
        WeaponClass::Smg
    } else if mg_name(&t) {
        WeaponClass::Mg
    } else if pistol_name(&t) {
        WeaponClass::Pistol
    } else if rifle_name(&t) {
        WeaponClass::Rifle
    } else {
        WeaponClass::Other
    }
}

/// The bucket of a weapon class name, compared without regard to case.
pub fn weapon_class_of(weapon: &str) -> (k: WeaponClass)
    ensures
        k == weapon_class(lowercase(weapon@)),
        is_ascii_chars(weapon@) ==> k == weapon_class(ascii_lowercase(weapon@)),
{
    let lowered = lowercase_string(weapon);
    classify_lowered(lowered.as_str())
}

/// Classify a CS2 weapon class name (`weapon_*`) into the label of its
/// coarse bucket.
pub fn classify_weapon(weapon: &str) -> (r: &'static str)
    ensures
        r@ == weapon_class(lowercase(weapon@)).label(),
        is_ascii_chars(weapon@) ==> r@ == weapon_class(ascii_lowercase(weapon@)).label(),
{
    let k = weapon_class_of(weapon);
    k.as_str()
}

/// Leading `weapon_` prefixes do not change the bucket of a name.
pub proof fn lemma_weapon_prefix_ignored(name: Seq<char>)
    ensures
        weapon_class(weapon_prefix() + name) == weapon_class(name),
{
    let p = weapon_prefix();
    if p.len() > 0 {
        assert(p.is_prefix_of(p + name)) by {
            assert((p + name).subrange(0, p.len() as int) =~= p);
        }
        assert((p + name).skip(p.len() as int) =~= name);
    } else {
        assert(p + name =~= name);
    }
}

/// Distinct buckets carry distinct labels, so a bucket is recovered from
/// its label.
pub proof fn lemma_labels_distinct(a: WeaponClass, b: WeaponClass)
    ensures
        a != b ==> a.label() != b.label(),
{
    reveal_strlit("knife");
    reveal_strlit("grenade");
    reveal_strlit("sniper");
    reveal_strlit("shotgun");
    reveal_strlit("smg");
    reveal_strlit("mg");
    reveal_strlit("pistol");
    reveal_strlit("rifle");
    reveal_strlit("other");
    if a != b && a.label() == b.label() {
        assert(a.label().len() == b.label().len());
        assert(a.label()[0] == b.label()[0]);
        assert(a.label()[1] == b.label()[1]);
    }
}

/// For ASCII names, a leading `weapon_` or `WEAPON_` does not change the
/// bucket: with the ASCII lowercasing that `classify_weapon` applies to such
/// names, `classify_weapon("weapon_" + s) == classify_weapon(s)` and
/// `classify_weapon("WEAPON_" + s) == classify_weapon(s)`.
pub proof fn lemma_ascii_weapon_prefix_ignored(s: Seq<char>)
    requires
        is_ascii_chars(s),
    ensures
        is_ascii_chars("weapon_"@ + s),
        is_ascii_chars("WEAPON_"@ + s),
        weapon_class(ascii_lowercase("weapon_"@ + s)) == weapon_class(ascii_lowercase(s)),
        weapon_class(ascii_lowercase("WEAPON_"@ + s)) == weapon_class(ascii_lowercase(s)),
{
    reveal_strlit("weapon_");
    reveal_strlit("WEAPON_");
    let lo = "weapon_"@;
    let up = "WEAPON_"@;
    assert(ascii_lowercase(lo + s) =~= weapon_prefix() + ascii_lowercase(s)) by {
        assert forall|i: int| 0 <= i < lo.len() implies ascii_lower_char(lo[i]) == lo[i] by {}
    }
    assert(ascii_lowercase(up + s) =~= weapon_prefix() + ascii_lowercase(s)) by {
        assert(ascii_lower_char('W') == 'w');
        assert(ascii_lower_char('E') == 'e');
        assert(ascii_lower_char('A') == 'a');
        assert(ascii_lower_char('P') == 'p');
        assert(ascii_lower_char('O') == 'o');
        assert(ascii_lower_char('N') == 'n');
        assert(ascii_lower_char('_') == '_');
    }
    assert forall|i: int| 0 <= i < (lo + s).len() implies '\0' <= #[trigger] (lo + s)[i] <= '\u{7f}' by {
        if i >= lo.len() {
            assert((lo + s)[i] == s[i - lo.len()]);
        }
    }
    assert forall|i: int| 0 <= i < (up + s).len() implies '\0' <= #[trigger] (up + s)[i] <= '\u{7f}' by {
        if i >= up.len() {
            assert((up + s)[i] == s[i - up.len()]);
        }
    }
    lemma_weapon_prefix_ignored(ascii_lowercase(s));
}

} // verus!

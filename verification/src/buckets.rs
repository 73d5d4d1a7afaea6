//! Laws on the weapon buckets: which class names fall in which bucket.

use vstd::prelude::*;

use crate::text::{occurs_in, strip_repeated};
use crate::weapon::{is_knife_name, lemma_weapon_prefix_ignored, weapon_class, weapon_prefix, WeaponClass};

verus! {

/// A sequence with no `k` directly followed by `n` holds no `knife`.
proof fn lemma_no_knife(t: Seq<char>)
    requires
        forall|i: int| 0 <= i && i + 1 < t.len() ==> !(#[trigger] t[i] == 'k' && t[i + 1] == 'n'),
    ensures
        !occurs_in("knife"@, t),
        !"knife"@.is_prefix_of(t),
{
    reveal_strlit("knife");
    let p = "knife"@;
    if occurs_in(p, t) {
        let i = choose|i: int| 0 <= i && i + p.len() <= t.len() && #[trigger] t.subrange(i, i + p.len()) == p;
        assert(t.subrange(i, i + p.len())[0] == t[i]);
        assert(t.subrange(i, i + p.len())[1] == t[i + 1]);
    }
    if p.is_prefix_of(t) {
        assert(t.subrange(0, p.len() as int)[0] == t[0]);
        assert(t.subrange(0, p.len() as int)[1] == t[1]);
    }
}

/// A name that does not start with `weapon_`, is not `bayonet` and holds no
/// `knife` is matched as it is and is no knife.
proof fn lemma_plain_name(t: Seq<char>)
    requires
        t.len() > 0,
        t[0] != 'w',
        t != "bayonet"@,
        forall|i: int| 0 <= i && i + 1 < t.len() ==> !(#[trigger] t[i] == 'k' && t[i + 1] == 'n'),
    ensures
        strip_repeated(t, weapon_prefix()) == t,
        !is_knife_name(t),
{
    reveal_strlit("weapon_");
    if weapon_prefix().is_prefix_of(t) {
        assert(t.subrange(0, 7)[0] == t[0]);
    }
    lemma_no_knife(t);
}

/// Each of the grenade class names (hegrenade, inferno, molotov, incgrenade, decoy, flashbang, smokegrenade, frag, firebomb) falls in the
/// grenade bucket, with or without the `weapon_` prefix.
pub proof fn lemma_grenade_names(n: Seq<char>)
    requires
        n == "hegrenade"@ || n == "inferno"@ || n == "molotov"@ || n == "incgrenade"@ || n == "decoy"@ || n == "flashbang"@ || n == "smokegrenade"@ || n == "frag"@ || n == "firebomb"@,
    ensures
        weapon_class(n) == WeaponClass::Grenade,
        weapon_class(weapon_prefix() + n) == WeaponClass::Grenade,
{
    lemma_weapon_prefix_ignored(n);
    reveal_strlit("bayonet");
    reveal_strlit("hegrenade");
    reveal_strlit("inferno");
    reveal_strlit("molotov");
    reveal_strlit("incgrenade");
    reveal_strlit("decoy");
    reveal_strlit("flashbang");
    reveal_strlit("smokegrenade");
    reveal_strlit("frag");
    reveal_strlit("firebomb");
    reveal_strlit("awp");
    reveal_strlit("ssg08");
    reveal_strlit("scar20");
    reveal_strlit("g3sg1");
    reveal_strlit("nova");
    reveal_strlit("xm1014");
    reveal_strlit("mag7");
    reveal_strlit("sawedoff");
    reveal_strlit("mp9");
    reveal_strlit("mac10");
    reveal_strlit("mp7");
    reveal_strlit("ump45");
    reveal_strlit("p90");
    reveal_strlit("bizon");
    reveal_strlit("mp5sd");
    reveal_strlit("m249");
    reveal_strlit("negev");
    reveal_strlit("glock");
    reveal_strlit("usp_silencer");
    reveal_strlit("hkp2000");
    reveal_strlit("p250");
    reveal_strlit("fiveseven");
    reveal_strlit("tec9");
    reveal_strlit("cz75a");
    reveal_strlit("deagle");
    reveal_strlit("elite");
    reveal_strlit("revolver");
    reveal_strlit("ak47");
    reveal_strlit("m4a1");
    reveal_strlit("m4a4");
    reveal_strlit("m4a1_silencer");
    reveal_strlit("famas");
    reveal_strlit("galilar");
    reveal_strlit("aug");
    reveal_strlit("sg556");
    reveal_strlit("sg553");
    reveal_strlit("taser");
    if n == "hegrenade"@ {
        lemma_plain_name(n);
        assert(n[0] != "flashbang"@[0]);
        assert(n[0] != "fiveseven"@[0]);
    } else if n == "inferno"@ {
        lemma_plain_name(n);
        assert(n[0] != "molotov"@[0]);
        assert(n[0] != "hkp2000"@[0]);
        assert(n[0] != "galilar"@[0]);
    } else if n == "molotov"@ {
        lemma_plain_name(n);
        assert(n[0] != "inferno"@[0]);
        assert(n[0] != "hkp2000"@[0]);
        assert(n[0] != "galilar"@[0]);
    } else if n == "incgrenade"@ {
        lemma_plain_name(n);
    } else if n == "decoy"@ {
        lemma_plain_name(n);
        assert(n[0] != "ssg08"@[0]);
        assert(n[0] != "g3sg1"@[0]);
        assert(n[0] != "mac10"@[0]);
        assert(n[0] != "ump45"@[0]);
        assert(n[0] != "bizon"@[0]);
        assert(n[0] != "mp5sd"@[0]);
        assert(n[0] != "negev"@[0]);
        assert(n[0] != "glock"@[0]);
        assert(n[0] != "cz75a"@[0]);
        assert(n[0] != "elite"@[0]);
        assert(n[0] != "famas"@[0]);
        assert(n[0] != "sg556"@[0]);
        assert(n[0] != "sg553"@[0]);
        assert(n[0] != "taser"@[0]);
    } else if n == "flashbang"@ {
        lemma_plain_name(n);
        assert(n[0] != "hegrenade"@[0]);
        assert(n[1] != "fiveseven"@[1]);
    } else if n == "smokegrenade"@ {
        lemma_plain_name(n);
        assert(n[0] != "usp_silencer"@[0]);
    } else if n == "frag"@ {
        lemma_plain_name(n);
        assert(n[0] != "nova"@[0]);
        assert(n[0] != "mag7"@[0]);
        assert(n[0] != "m249"@[0]);
        assert(n[0] != "p250"@[0]);
        assert(n[0] != "tec9"@[0]);
        assert(n[0] != "ak47"@[0]);
        assert(n[0] != "m4a1"@[0]);
        assert(n[0] != "m4a4"@[0]);
    } else if n == "firebomb"@ {
        lemma_plain_name(n);
        assert(n[0] != "sawedoff"@[0]);
        assert(n[0] != "revolver"@[0]);
    }
}

/// Each of the sniper class names (awp, ssg08, scar20, g3sg1) falls in the
/// sniper bucket, with or without the `weapon_` prefix.
pub proof fn lemma_sniper_names(n: Seq<char>)
    requires
        n == "awp"@ || n == "ssg08"@ || n == "scar20"@ || n == "g3sg1"@,
    ensures
        weapon_class(n) == WeaponClass::Sniper,
        weapon_class(weapon_prefix() + n) == WeaponClass::Sniper,
{
    lemma_weapon_prefix_ignored(n);
    reveal_strlit("bayonet");
    reveal_strlit("hegrenade");
    reveal_strlit("inferno");
    reveal_strlit("molotov");
    reveal_strlit("incgrenade");
    reveal_strlit("decoy");
    reveal_strlit("flashbang");
    reveal_strlit("smokegrenade");
    reveal_strlit("frag");
    reveal_strlit("firebomb");
    reveal_strlit("awp");
    reveal_strlit("ssg08");
    reveal_strlit("scar20");
    reveal_strlit("g3sg1");
    reveal_strlit("nova");
    reveal_strlit("xm1014");
    reveal_strlit("mag7");
    reveal_strlit("sawedoff");
    reveal_strlit("mp9");
    reveal_strlit("mac10");
    reveal_strlit("mp7");
    reveal_strlit("ump45");
    reveal_strlit("p90");
    reveal_strlit("bizon");
    reveal_strlit("mp5sd");
    reveal_strlit("m249");
    reveal_strlit("negev");
    reveal_strlit("glock");
    reveal_strlit("usp_silencer");
    reveal_strlit("hkp2000");
    reveal_strlit("p250");
    reveal_strlit("fiveseven");
    reveal_strlit("tec9");
    reveal_strlit("cz75a");
    reveal_strlit("deagle");
    reveal_strlit("elite");
    reveal_strlit("revolver");
    reveal_strlit("ak47");
    reveal_strlit("m4a1");
    reveal_strlit("m4a4");
    reveal_strlit("m4a1_silencer");
    reveal_strlit("famas");
    reveal_strlit("galilar");
    reveal_strlit("aug");
    reveal_strlit("sg556");
    reveal_strlit("sg553");
    reveal_strlit("taser");
    if n == "awp"@ {
        lemma_plain_name(n);
        assert(n[0] != "mp9"@[0]);
        assert(n[0] != "mp7"@[0]);
        assert(n[0] != "p90"@[0]);
        assert(n[1] != "aug"@[1]);
    } else if n == "ssg08"@ {
        lemma_plain_name(n);
        assert(n[0] != "decoy"@[0]);
        assert(n[0] != "g3sg1"@[0]);
        assert(n[0] != "mac10"@[0]);
        assert(n[0] != "ump45"@[0]);
        assert(n[0] != "bizon"@[0]);
        assert(n[0] != "mp5sd"@[0]);
        assert(n[0] != "negev"@[0]);
        assert(n[0] != "glock"@[0]);
        assert(n[0] != "cz75a"@[0]);
        assert(n[0] != "elite"@[0]);
        assert(n[0] != "famas"@[0]);
        assert(n[1] != "sg556"@[1]);
        assert(n[1] != "sg553"@[1]);
        assert(n[0] != "taser"@[0]);
    } else if n == "scar20"@ {
        lemma_plain_name(n);
        assert(n[0] != "xm1014"@[0]);
        assert(n[0] != "deagle"@[0]);
    } else if n == "g3sg1"@ {
        lemma_plain_name(n);
        assert(n[0] != "decoy"@[0]);
        assert(n[0] != "ssg08"@[0]);
        assert(n[0] != "mac10"@[0]);
        assert(n[0] != "ump45"@[0]);
        assert(n[0] != "bizon"@[0]);
        assert(n[0] != "mp5sd"@[0]);
        assert(n[0] != "negev"@[0]);
        assert(n[1] != "glock"@[1]);
        assert(n[0] != "cz75a"@[0]);
        assert(n[0] != "elite"@[0]);
        assert(n[0] != "famas"@[0]);
        assert(n[0] != "sg556"@[0]);
        assert(n[0] != "sg553"@[0]);
        assert(n[0] != "taser"@[0]);
    }
}

/// Each of the shotgun class names (nova, xm1014, mag7, sawedoff) falls in the
/// shotgun bucket, with or without the `weapon_` prefix.
pub proof fn lemma_shotgun_names(n: Seq<char>)
    requires
        n == "nova"@ || n == "xm1014"@ || n == "mag7"@ || n == "sawedoff"@,
    ensures
        weapon_class(n) == WeaponClass::Shotgun,
        weapon_class(weapon_prefix() + n) == WeaponClass::Shotgun,
{
    lemma_weapon_prefix_ignored(n);
    reveal_strlit("bayonet");
    reveal_strlit("hegrenade");
    reveal_strlit("inferno");
    reveal_strlit("molotov");
    reveal_strlit("incgrenade");
    reveal_strlit("decoy");
    reveal_strlit("flashbang");
    reveal_strlit("smokegrenade");
    reveal_strlit("frag");
    reveal_strlit("firebomb");
    reveal_strlit("awp");
    reveal_strlit("ssg08");
    reveal_strlit("scar20");
    reveal_strlit("g3sg1");
    reveal_strlit("nova");
    reveal_strlit("xm1014");
    reveal_strlit("mag7");
    reveal_strlit("sawedoff");
    reveal_strlit("mp9");
    reveal_strlit("mac10");
    reveal_strlit("mp7");
    reveal_strlit("ump45");
    reveal_strlit("p90");
    reveal_strlit("bizon");
    reveal_strlit("mp5sd");
    reveal_strlit("m249");
    reveal_strlit("negev");
    reveal_strlit("glock");
    reveal_strlit("usp_silencer");
    reveal_strlit("hkp2000");
    reveal_strlit("p250");
    reveal_strlit("fiveseven");
    reveal_strlit("tec9");
    reveal_strlit("cz75a");
    reveal_strlit("deagle");
    reveal_strlit("elite");
    reveal_strlit("revolver");
    reveal_strlit("ak47");
    reveal_strlit("m4a1");
    reveal_strlit("m4a4");
    reveal_strlit("m4a1_silencer");
    reveal_strlit("famas");
    reveal_strlit("galilar");
    reveal_strlit("aug");
    reveal_strlit("sg556");
    reveal_strlit("sg553");
    reveal_strlit("taser");
    if n == "nova"@ {
        lemma_plain_name(n);
        assert(n[0] != "frag"@[0]);
        assert(n[0] != "mag7"@[0]);
        assert(n[0] != "m249"@[0]);
        assert(n[0] != "p250"@[0]);
        assert(n[0] != "tec9"@[0]);
        assert(n[0] != "ak47"@[0]);
        assert(n[0] != "m4a1"@[0]);
        assert(n[0] != "m4a4"@[0]);
    } else if n == "xm1014"@ {
        lemma_plain_name(n);
        assert(n[0] != "scar20"@[0]);
        assert(n[0] != "deagle"@[0]);
    } else if n == "mag7"@ {
        lemma_plain_name(n);
        assert(n[0] != "frag"@[0]);
        assert(n[0] != "nova"@[0]);
        assert(n[1] != "m249"@[1]);
        assert(n[0] != "p250"@[0]);
        assert(n[0] != "tec9"@[0]);
        assert(n[0] != "ak47"@[0]);
        assert(n[1] != "m4a1"@[1]);
        assert(n[1] != "m4a4"@[1]);
    } else if n == "sawedoff"@ {
        lemma_plain_name(n);
        assert(n[0] != "firebomb"@[0]);
        assert(n[0] != "revolver"@[0]);
    }
}

/// Each of the smg class names (mp9, mac10, mp7, ump45, p90, bizon, mp5sd) falls in the
/// smg bucket, with or without the `weapon_` prefix.
pub proof fn lemma_smg_names(n: Seq<char>)
    requires
        n == "mp9"@ || n == "mac10"@ || n == "mp7"@ || n == "ump45"@ || n == "p90"@ || n == "bizon"@ || n == "mp5sd"@,
    ensures
        weapon_class(n) == WeaponClass::Smg,
        weapon_class(weapon_prefix() + n) == WeaponClass::Smg,
{
    lemma_weapon_prefix_ignored(n);
    reveal_strlit("bayonet");
    reveal_strlit("hegrenade");
    reveal_strlit("inferno");
    reveal_strlit("molotov");
    reveal_strlit("incgrenade");
    reveal_strlit("decoy");
    reveal_strlit("flashbang");
    reveal_strlit("smokegrenade");
    reveal_strlit("frag");
    reveal_strlit("firebomb");
    reveal_strlit("awp");
    reveal_strlit("ssg08");
    reveal_strlit("scar20");
    reveal_strlit("g3sg1");
    reveal_strlit("nova");
    reveal_strlit("xm1014");
    reveal_strlit("mag7");
    reveal_strlit("sawedoff");
    reveal_strlit("mp9");
    reveal_strlit("mac10");
    reveal_strlit("mp7");
    reveal_strlit("ump45");
    reveal_strlit("p90");
    reveal_strlit("bizon");
    reveal_strlit("mp5sd");
    reveal_strlit("m249");
    reveal_strlit("negev");
    reveal_strlit("glock");
    reveal_strlit("usp_silencer");
    reveal_strlit("hkp2000");
    reveal_strlit("p250");
    reveal_strlit("fiveseven");
    reveal_strlit("tec9");
    reveal_strlit("cz75a");
    reveal_strlit("deagle");
    reveal_strlit("elite");
    reveal_strlit("revolver");
    reveal_strlit("ak47");
    reveal_strlit("m4a1");
    reveal_strlit("m4a4");
    reveal_strlit("m4a1_silencer");
    reveal_strlit("famas");
    reveal_strlit("galilar");
    reveal_strlit("aug");
    reveal_strlit("sg556");
    reveal_strlit("sg553");
    reveal_strlit("taser");
    if n == "mp9"@ {
        lemma_plain_name(n);
        assert(n[0] != "awp"@[0]);
        assert(n[2] != "mp7"@[2]);
        assert(n[0] != "p90"@[0]);
        assert(n[0] != "aug"@[0]);
    } else if n == "mac10"@ {
        lemma_plain_name(n);
        assert(n[0] != "decoy"@[0]);
        assert(n[0] != "ssg08"@[0]);
        assert(n[0] != "g3sg1"@[0]);
        assert(n[0] != "ump45"@[0]);
        assert(n[0] != "bizon"@[0]);
        assert(n[1] != "mp5sd"@[1]);
        assert(n[0] != "negev"@[0]);
        assert(n[0] != "glock"@[0]);
        assert(n[0] != "cz75a"@[0]);
        assert(n[0] != "elite"@[0]);
        assert(n[0] != "famas"@[0]);
        assert(n[0] != "sg556"@[0]);
        assert(n[0] != "sg553"@[0]);
        assert(n[0] != "taser"@[0]);
    } else if n == "mp7"@ {
        lemma_plain_name(n);
        assert(n[0] != "awp"@[0]);
        assert(n[2] != "mp9"@[2]);
        assert(n[0] != "p90"@[0]);
        assert(n[0] != "aug"@[0]);
    } else if n == "ump45"@ {
        lemma_plain_name(n);
        assert(n[0] != "decoy"@[0]);
        assert(n[0] != "ssg08"@[0]);
        assert(n[0] != "g3sg1"@[0]);
        assert(n[0] != "mac10"@[0]);
        assert(n[0] != "bizon"@[0]);
        assert(n[0] != "mp5sd"@[0]);
        assert(n[0] != "negev"@[0]);
        assert(n[0] != "glock"@[0]);
        assert(n[0] != "cz75a"@[0]);
        assert(n[0] != "elite"@[0]);
        assert(n[0] != "famas"@[0]);
        assert(n[0] != "sg556"@[0]);
        assert(n[0] != "sg553"@[0]);
        assert(n[0] != "taser"@[0]);
    } else if n == "p90"@ {
        lemma_plain_name(n);
        assert(n[0] != "awp"@[0]);
        assert(n[0] != "mp9"@[0]);
        assert(n[0] != "mp7"@[0]);
        assert(n[0] != "aug"@[0]);
    } else if n == "bizon"@ {
        lemma_plain_name(n);
        assert(n[0] != "decoy"@[0]);
        assert(n[0] != "ssg08"@[0]);
        assert(n[0] != "g3sg1"@[0]);
        assert(n[0] != "mac10"@[0]);
        assert(n[0] != "ump45"@[0]);
        assert(n[0] != "mp5sd"@[0]);
        assert(n[0] != "negev"@[0]);
        assert(n[0] != "glock"@[0]);
        assert(n[0] != "cz75a"@[0]);
        assert(n[0] != "elite"@[0]);
        assert(n[0] != "famas"@[0]);
        assert(n[0] != "sg556"@[0]);
        assert(n[0] != "sg553"@[0]);
        assert(n[0] != "taser"@[0]);
    } else if n == "mp5sd"@ {
        lemma_plain_name(n);
        assert(n[0] != "decoy"@[0]);
        assert(n[0] != "ssg08"@[0]);
        assert(n[0] != "g3sg1"@[0]);
        assert(n[1] != "mac10"@[1]);
        assert(n[0] != "ump45"@[0]);
        assert(n[0] != "bizon"@[0]);
        assert(n[0] != "negev"@[0]);
        assert(n[0] != "glock"@[0]);
        assert(n[0] != "cz75a"@[0]);
        assert(n[0] != "elite"@[0]);
        assert(n[0] != "famas"@[0]);
        assert(n[0] != "sg556"@[0]);
        assert(n[0] != "sg553"@[0]);
        assert(n[0] != "taser"@[0]);
    }
}

/// Each of the mg class names (m249, negev) falls in the
/// mg bucket, with or without the `weapon_` prefix.
pub proof fn lemma_mg_names(n: Seq<char>)
    requires
        n == "m249"@ || n == "negev"@,
    ensures
        weapon_class(n) == WeaponClass::Mg,
        weapon_class(weapon_prefix() + n) == WeaponClass::Mg,
{
    lemma_weapon_prefix_ignored(n);
    reveal_strlit("bayonet");
    reveal_strlit("hegrenade");
    reveal_strlit("inferno");
    reveal_strlit("molotov");
    reveal_strlit("incgrenade");
    reveal_strlit("decoy");
    reveal_strlit("flashbang");
    reveal_strlit("smokegrenade");
    reveal_strlit("frag");
    reveal_strlit("firebomb");
    reveal_strlit("awp");
    reveal_strlit("ssg08");
    reveal_strlit("scar20");
    reveal_strlit("g3sg1");
    reveal_strlit("nova");
    reveal_strlit("xm1014");
    reveal_strlit("mag7");
    reveal_strlit("sawedoff");
    reveal_strlit("mp9");
    reveal_strlit("mac10");
    reveal_strlit("mp7");
    reveal_strlit("ump45");
    reveal_strlit("p90");
    reveal_strlit("bizon");
    reveal_strlit("mp5sd");
    reveal_strlit("m249");
    reveal_strlit("negev");
    reveal_strlit("glock");
    reveal_strlit("usp_silencer");
    reveal_strlit("hkp2000");
    reveal_strlit("p250");
    reveal_strlit("fiveseven");
    reveal_strlit("tec9");
    reveal_strlit("cz75a");
    reveal_strlit("deagle");
    reveal_strlit("elite");
    reveal_strlit("revolver");
    reveal_strlit("ak47");
    reveal_strlit("m4a1");
    reveal_strlit("m4a4");
    reveal_strlit("m4a1_silencer");
    reveal_strlit("famas");
    reveal_strlit("galilar");
    reveal_strlit("aug");
    reveal_strlit("sg556");
    reveal_strlit("sg553");
    reveal_strlit("taser");
    if n == "m249"@ {
        lemma_plain_name(n);
        assert(n[0] != "frag"@[0]);
        assert(n[0] != "nova"@[0]);
        assert(n[1] != "mag7"@[1]);
        assert(n[0] != "p250"@[0]);
        assert(n[0] != "tec9"@[0]);
        assert(n[0] != "ak47"@[0]);
        assert(n[1] != "m4a1"@[1]);
        assert(n[1] != "m4a4"@[1]);
    } else if n == "negev"@ {
        lemma_plain_name(n);
        assert(n[0] != "decoy"@[0]);
        assert(n[0] != "ssg08"@[0]);
        assert(n[0] != "g3sg1"@[0]);
        assert(n[0] != "mac10"@[0]);
        assert(n[0] != "ump45"@[0]);
        assert(n[0] != "bizon"@[0]);
        assert(n[0] != "mp5sd"@[0]);
        assert(n[0] != "glock"@[0]);
        assert(n[0] != "cz75a"@[0]);
        assert(n[0] != "elite"@[0]);
        assert(n[0] != "famas"@[0]);
        assert(n[0] != "sg556"@[0]);
        assert(n[0] != "sg553"@[0]);
        assert(n[0] != "taser"@[0]);
    }
}

/// Each of the pistol class names (glock, usp_silencer, hkp2000, p250, fiveseven, tec9, cz75a, deagle, elite, revolver) falls in the
/// pistol bucket, with or without the `weapon_` prefix.
pub proof fn lemma_pistol_names(n: Seq<char>)
    requires
        n == "glock"@ || n == "usp_silencer"@ || n == "hkp2000"@ || n == "p250"@ || n == "fiveseven"@ || n == "tec9"@ || n == "cz75a"@ || n == "deagle"@ || n == "elite"@ || n == "revolver"@,
    ensures
        weapon_class(n) == WeaponClass::Pistol,
        weapon_class(weapon_prefix() + n) == WeaponClass::Pistol,
{
    lemma_weapon_prefix_ignored(n);
    reveal_strlit("bayonet");
    reveal_strlit("hegrenade");
    reveal_strlit("inferno");
    reveal_strlit("molotov");
    reveal_strlit("incgrenade");
    reveal_strlit("decoy");
    reveal_strlit("flashbang");
    reveal_strlit("smokegrenade");
    reveal_strlit("frag");
    reveal_strlit("firebomb");
    reveal_strlit("awp");
    reveal_strlit("ssg08");
    reveal_strlit("scar20");
    reveal_strlit("g3sg1");
    reveal_strlit("nova");
    reveal_strlit("xm1014");
    reveal_strlit("mag7");
    reveal_strlit("sawedoff");
    reveal_strlit("mp9");
    reveal_strlit("mac10");
    reveal_strlit("mp7");
    reveal_strlit("ump45");
    reveal_strlit("p90");
    reveal_strlit("bizon");
    reveal_strlit("mp5sd");
    reveal_strlit("m249");
    reveal_strlit("negev");
    reveal_strlit("glock");
    reveal_strlit("usp_silencer");
    reveal_strlit("hkp2000");
    reveal_strlit("p250");
    reveal_strlit("fiveseven");
    reveal_strlit("tec9");
    reveal_strlit("cz75a");
    reveal_strlit("deagle");
    reveal_strlit("elite");
    reveal_strlit("revolver");
    reveal_strlit("ak47");
    reveal_strlit("m4a1");
    reveal_strlit("m4a4");
    reveal_strlit("m4a1_silencer");
    reveal_strlit("famas");
    reveal_strlit("galilar");
    reveal_strlit("aug");
    reveal_strlit("sg556");
    reveal_strlit("sg553");
    reveal_strlit("taser");
    if n == "glock"@ {
        lemma_plain_name(n);
        assert(n[0] != "decoy"@[0]);
        assert(n[0] != "ssg08"@[0]);
        assert(n[1] != "g3sg1"@[1]);
        assert(n[0] != "mac10"@[0]);
        assert(n[0] != "ump45"@[0]);
        assert(n[0] != "bizon"@[0]);
        assert(n[0] != "mp5sd"@[0]);
        assert(n[0] != "negev"@[0]);
        assert(n[0] != "cz75a"@[0]);
        assert(n[0] != "elite"@[0]);
        assert(n[0] != "famas"@[0]);
        assert(n[0] != "sg556"@[0]);
        assert(n[0] != "sg553"@[0]);
        assert(n[0] != "taser"@[0]);
    } else if n == "usp_silencer"@ {
        lemma_plain_name(n);
        assert(n[0] != "smokegrenade"@[0]);
    } else if n == "hkp2000"@ {
        lemma_plain_name(n);
        assert(n[0] != "inferno"@[0]);
        assert(n[0] != "molotov"@[0]);
        assert(n[0] != "galilar"@[0]);
    } else if n == "p250"@ {
        lemma_plain_name(n);
        assert(n[0] != "frag"@[0]);
        assert(n[0] != "nova"@[0]);
        assert(n[0] != "mag7"@[0]);
        assert(n[0] != "m249"@[0]);
        assert(n[0] != "tec9"@[0]);
        assert(n[0] != "ak47"@[0]);
        assert(n[0] != "m4a1"@[0]);
        assert(n[0] != "m4a4"@[0]);
    } else if n == "fiveseven"@ {
        lemma_plain_name(n);
        assert(n[0] != "hegrenade"@[0]);
        assert(n[1] != "flashbang"@[1]);
    } else if n == "tec9"@ {
        lemma_plain_name(n);
        assert(n[0] != "frag"@[0]);
        assert(n[0] != "nova"@[0]);
        assert(n[0] != "mag7"@[0]);
        assert(n[0] != "m249"@[0]);
        assert(n[0] != "p250"@[0]);
        assert(n[0] != "ak47"@[0]);
        assert(n[0] != "m4a1"@[0]);
        assert(n[0] != "m4a4"@[0]);
    } else if n == "cz75a"@ {
        lemma_plain_name(n);
        assert(n[0] != "decoy"@[0]);
        assert(n[0] != "ssg08"@[0]);
        assert(n[0] != "g3sg1"@[0]);
        assert(n[0] != "mac10"@[0]);
        assert(n[0] != "ump45"@[0]);
        assert(n[0] != "bizon"@[0]);
        assert(n[0] != "mp5sd"@[0]);
        assert(n[0] != "negev"@[0]);
        assert(n[0] != "glock"@[0]);
        assert(n[0] != "elite"@[0]);
        assert(n[0] != "famas"@[0]);
        assert(n[0] != "sg556"@[0]);
        assert(n[0] != "sg553"@[0]);
        assert(n[0] != "taser"@[0]);
    } else if n == "deagle"@ {
        lemma_plain_name(n);
        assert(n[0] != "scar20"@[0]);
        assert(n[0] != "xm1014"@[0]);
    } else if n == "elite"@ {
        lemma_plain_name(n);
        assert(n[0] != "decoy"@[0]);
        assert(n[0] != "ssg08"@[0]);
        assert(n[0] != "g3sg1"@[0]);
        assert(n[0] != "mac10"@[0]);
        assert(n[0] != "ump45"@[0]);
        assert(n[0] != "bizon"@[0]);
        assert(n[0] != "mp5sd"@[0]);
        assert(n[0] != "negev"@[0]);
        assert(n[0] != "glock"@[0]);
        assert(n[0] != "cz75a"@[0]);
        assert(n[0] != "famas"@[0]);
        assert(n[0] != "sg556"@[0]);
        assert(n[0] != "sg553"@[0]);
        assert(n[0] != "taser"@[0]);
    } else if n == "revolver"@ {
        lemma_plain_name(n);
        assert(n[0] != "firebomb"@[0]);
        assert(n[0] != "sawedoff"@[0]);
    }
}

/// Each of the rifle class names (ak47, m4a1, m4a4, m4a1_silencer, famas, galilar, aug, sg556, sg553, taser) falls in the
/// rifle bucket, with or without the `weapon_` prefix.
pub proof fn lemma_rifle_names(n: Seq<char>)
    requires
        n == "ak47"@ || n == "m4a1"@ || n == "m4a4"@ || n == "m4a1_silencer"@ || n == "famas"@ || n == "galilar"@ || n == "aug"@ || n == "sg556"@ || n == "sg553"@ || n == "taser"@,
    ensures
        weapon_class(n) == WeaponClass::Rifle,
        weapon_class(weapon_prefix() + n) == WeaponClass::Rifle,
{
    lemma_weapon_prefix_ignored(n);
    reveal_strlit("bayonet");
    reveal_strlit("hegrenade");
    reveal_strlit("inferno");
    reveal_strlit("molotov");
    reveal_strlit("incgrenade");
    reveal_strlit("decoy");
    reveal_strlit("flashbang");
    reveal_strlit("smokegrenade");
    reveal_strlit("frag");
    reveal_strlit("firebomb");
    reveal_strlit("awp");
    reveal_strlit("ssg08");
    reveal_strlit("scar20");
    reveal_strlit("g3sg1");
    reveal_strlit("nova");
    reveal_strlit("xm1014");
    reveal_strlit("mag7");
    reveal_strlit("sawedoff");
    reveal_strlit("mp9");
    reveal_strlit("mac10");
    reveal_strlit("mp7");
    reveal_strlit("ump45");
    reveal_strlit("p90");
    reveal_strlit("bizon");
    reveal_strlit("mp5sd");
    reveal_strlit("m249");
    reveal_strlit("negev");
    reveal_strlit("glock");
    reveal_strlit("usp_silencer");
    reveal_strlit("hkp2000");
    reveal_strlit("p250");
    reveal_strlit("fiveseven");
    reveal_strlit("tec9");
    reveal_strlit("cz75a");
    reveal_strlit("deagle");
    reveal_strlit("elite");
    reveal_strlit("revolver");
    reveal_strlit("ak47");
    reveal_strlit("m4a1");
    reveal_strlit("m4a4");
    reveal_strlit("m4a1_silencer");
    reveal_strlit("famas");
    reveal_strlit("galilar");
    reveal_strlit("aug");
    reveal_strlit("sg556");
    reveal_strlit("sg553");
    reveal_strlit("taser");
    if n == "ak47"@ {
        lemma_plain_name(n);
        assert(n[0] != "frag"@[0]);
        assert(n[0] != "nova"@[0]);
        assert(n[0] != "mag7"@[0]);
        assert(n[0] != "m249"@[0]);
        assert(n[0] != "p250"@[0]);
        assert(n[0] != "tec9"@[0]);
        assert(n[0] != "m4a1"@[0]);
        assert(n[0] != "m4a4"@[0]);
    } else if n == "m4a1"@ {
        lemma_plain_name(n);
        assert(n[0] != "frag"@[0]);
        assert(n[0] != "nova"@[0]);
        assert(n[1] != "mag7"@[1]);
        assert(n[1] != "m249"@[1]);
        assert(n[0] != "p250"@[0]);
        assert(n[0] != "tec9"@[0]);
        assert(n[0] != "ak47"@[0]);
        assert(n[3] != "m4a4"@[3]);
    } else if n == "m4a4"@ {
        lemma_plain_name(n);
        assert(n[0] != "frag"@[0]);
        assert(n[0] != "nova"@[0]);
        assert(n[1] != "mag7"@[1]);
        assert(n[1] != "m249"@[1]);
        assert(n[0] != "p250"@[0]);
        assert(n[0] != "tec9"@[0]);
        assert(n[0] != "ak47"@[0]);
        assert(n[3] != "m4a1"@[3]);
    } else if n == "m4a1_silencer"@ {
        lemma_plain_name(n);
    } else if n == "famas"@ {
        lemma_plain_name(n);
        assert(n[0] != "decoy"@[0]);
        assert(n[0] != "ssg08"@[0]);
        assert(n[0] != "g3sg1"@[0]);
        assert(n[0] != "mac10"@[0]);
        assert(n[0] != "ump45"@[0]);
        assert(n[0] != "bizon"@[0]);
        assert(n[0] != "mp5sd"@[0]);
        assert(n[0] != "negev"@[0]);
        assert(n[0] != "glock"@[0]);
        assert(n[0] != "cz75a"@[0]);
        assert(n[0] != "elite"@[0]);
        assert(n[0] != "sg556"@[0]);
        assert(n[0] != "sg553"@[0]);
        assert(n[0] != "taser"@[0]);
    } else if n == "galilar"@ {
        lemma_plain_name(n);
        assert(n[0] != "inferno"@[0]);
        assert(n[0] != "molotov"@[0]);
        assert(n[0] != "hkp2000"@[0]);
    } else if n == "aug"@ {
        lemma_plain_name(n);
        assert(n[1] != "awp"@[1]);
        assert(n[0] != "mp9"@[0]);
        assert(n[0] != "mp7"@[0]);
        assert(n[0] != "p90"@[0]);
    } else if n == "sg556"@ {
        lemma_plain_name(n);
        assert(n[0] != "decoy"@[0]);
        assert(n[1] != "ssg08"@[1]);
        assert(n[0] != "g3sg1"@[0]);
        assert(n[0] != "mac10"@[0]);
        assert(n[0] != "ump45"@[0]);
        assert(n[0] != "bizon"@[0]);
        assert(n[0] != "mp5sd"@[0]);
        assert(n[0] != "negev"@[0]);
        assert(n[0] != "glock"@[0]);
        assert(n[0] != "cz75a"@[0]);
        assert(n[0] != "elite"@[0]);
        assert(n[0] != "famas"@[0]);
        assert(n[4] != "sg553"@[4]);
        assert(n[0] != "taser"@[0]);
    } else if n == "sg553"@ {
        lemma_plain_name(n);
        assert(n[0] != "decoy"@[0]);
        assert(n[1] != "ssg08"@[1]);
        assert(n[0] != "g3sg1"@[0]);
        assert(n[0] != "mac10"@[0]);
        assert(n[0] != "ump45"@[0]);
        assert(n[0] != "bizon"@[0]);
        assert(n[0] != "mp5sd"@[0]);
        assert(n[0] != "negev"@[0]);
        assert(n[0] != "glock"@[0]);
        assert(n[0] != "cz75a"@[0]);
        assert(n[0] != "elite"@[0]);
        assert(n[0] != "famas"@[0]);
        assert(n[4] != "sg556"@[4]);
        assert(n[0] != "taser"@[0]);
    } else if n == "taser"@ {
        lemma_plain_name(n);
        assert(n[0] != "decoy"@[0]);
        assert(n[0] != "ssg08"@[0]);
        assert(n[0] != "g3sg1"@[0]);
        assert(n[0] != "mac10"@[0]);
        assert(n[0] != "ump45"@[0]);
        assert(n[0] != "bizon"@[0]);
        assert(n[0] != "mp5sd"@[0]);
        assert(n[0] != "negev"@[0]);
        assert(n[0] != "glock"@[0]);
        assert(n[0] != "cz75a"@[0]);
        assert(n[0] != "elite"@[0]);
        assert(n[0] != "famas"@[0]);
        assert(n[0] != "sg556"@[0]);
        assert(n[0] != "sg553"@[0]);
    }
}

/// A name that does not start with `w` is matched as it is.
proof fn lemma_unprefixed(t: Seq<char>)
    requires
        t.len() > 0,
        t[0] != 'w',
    ensures
        strip_repeated(t, weapon_prefix()) == t,
{
    reveal_strlit("weapon_");
    if weapon_prefix().is_prefix_of(t) {
        assert(t.subrange(0, 7)[0] == t[0]);
    }
}

/// Knives: `bayonet`, and any name holding `knife` (at its start, or after
/// a part that does not start with `w`) falls in the knife bucket, with or
/// without the `weapon_` prefix.
pub proof fn lemma_knife_names(s: Seq<char>, u: Seq<char>)
    ensures
        weapon_class("bayonet"@) == WeaponClass::Knife,
        weapon_class(weapon_prefix() + "bayonet"@) == WeaponClass::Knife,
        weapon_class("knife"@ + u) == WeaponClass::Knife,
        weapon_class(weapon_prefix() + ("knife"@ + u)) == WeaponClass::Knife,
        s.len() > 0 && s[0] != 'w' ==> weapon_class(s + "knife"@ + u) == WeaponClass::Knife,
        s.len() > 0 && s[0] != 'w' ==> weapon_class(weapon_prefix() + (s + "knife"@ + u))
            == WeaponClass::Knife,
{
    reveal_strlit("bayonet");
    reveal_strlit("knife");
    let k = "knife"@;
    lemma_weapon_prefix_ignored("bayonet"@);
    lemma_unprefixed("bayonet"@);
    lemma_weapon_prefix_ignored(k + u);
    lemma_unprefixed(k + u);
    assert((k + u).subrange(0, k.len() as int) =~= k);
    if s.len() > 0 && s[0] != 'w' {
        let t = s + k + u;
        lemma_weapon_prefix_ignored(t);
        assert(t[0] == s[0]);
        lemma_unprefixed(t);
        assert(t.subrange(s.len() as int, (s.len() + k.len()) as int) =~= k);
        assert(occurs_in(k, t));
    }
}

} // verus!

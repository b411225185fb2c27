//! Content of the optional transient notification: the icon bucket (the
//! level rounded to a multiple of five), the proportional glyph bar (one
//! glyph per started block of fifteen percent), the summary and body
//! texts, and the icon file path. Rendering the notification is the
//! caller's work; failure there is best-effort and must not unwind an
//! already-applied brightness change.

use vstd::prelude::*;
use vstd::arithmetic::div_mod::{
    lemma_fundamental_div_mod, lemma_mod_bound, lemma_mod_multiples_basic,
};

use crate::numeric::{dec_str, u32_to_dec};

verus! {

/// Fixed notification identifier, so repeated invocations replace the
/// previous notification instead of stacking new ones.
pub const NOTIFICATION_ID: u32 = 987654321;

/// Display timeout of the notification, in milliseconds.
pub const NOTIFICATION_TIMEOUT_MS: u32 = 800;

/// The icon bucket of a level: the level rounded to a multiple of five.
pub open spec fn spec_icon_bucket(level: int) -> int {
    ((level + 2) / 5) * 5
}

/// The glyph count of a level: one glyph per started block of fifteen
/// percent, none at all for level zero.
pub open spec fn spec_glyph_count(level: int) -> int {
    (level + 14) / 15
}

/// Law: the icon bucket is a multiple of five within two of the level,
/// which makes it the multiple of five nearest to the level (the upper
/// one when the level sits exactly between two).
pub proof fn lemma_icon_bucket_nearest(level: int)
    requires
        0 <= level,
    ensures
        spec_icon_bucket(level) % 5 == 0,
        level - 2 <= spec_icon_bucket(level) <= level + 2,
{
    lemma_fundamental_div_mod(level + 2, 5);
    lemma_mod_bound(level + 2, 5);
    lemma_mod_multiples_basic((level + 2) / 5, 5);
}

/// Law: the glyph count is the level divided by fifteen, rounded up.
pub proof fn lemma_glyph_count_is_ceil(level: int)
    requires
        0 <= level,
    ensures
        15 * spec_glyph_count(level) >= level,
        15 * spec_glyph_count(level) < level + 15,
{
    lemma_fundamental_div_mod(level + 14, 15);
    lemma_mod_bound(level + 14, 15);
}

/// Rounds the level to its icon bucket.
pub fn icon_bucket(level: u32) -> (r: u32)
    requires
        level <= 100,
    ensures
        r == spec_icon_bucket(level as int),
{
    ((level + 2) / 5) * 5
}

/// Counts the indicator glyphs for the level.
pub fn glyph_count(level: u32) -> (r: u32)
    requires
        level <= 100,
    ensures
        r == spec_glyph_count(level as int),
{
    (level + 14) / 15
}

/// The proportional indicator: the bar glyph repeated once per started
/// block of fifteen percent.
pub open spec fn spec_indicator(level: int) -> Seq<char> {
    Seq::new(spec_glyph_count(level) as nat, |i: int| '•')
}

/// Builds the proportional indicator bar.
pub fn indicator_bar(level: u32) -> (r: String)
    requires
        level <= 100,
    ensures
        r@ == spec_indicator(level as int),
{
    let count = glyph_count(level);
    let mut r = String::new();
    let mut k: u32 = 0;
    while k < count
        invariant
            k <= count,
            count == spec_glyph_count(level as int),
            r@.len() == k,
            forall|i: int| 0 <= i < k ==> r@[i] == '•',
        decreases count - k,
    {
        proof {
            reveal_strlit("•");
        }
        r.append("•");
        k += 1;
    }
    proof {
        assert(r@ =~= spec_indicator(level as int));
    }
    r
}

/// The notification summary: the percentage, a percent sign, a space,
/// and the proportional indicator bar.
pub open spec fn spec_summary(level: int) -> Seq<char> {
    dec_str(level as nat) + "% "@ + spec_indicator(level)
}

/// Builds the notification summary text.
pub fn summary_text(level: u32) -> (r: String)
    requires
        level <= 100,
    ensures
        r@ == spec_summary(level as int),
{
    let mut r = u32_to_dec(level);
    r.append("% ");
    let bar = indicator_bar(level);
    r.append(bar.as_str());
    proof {
        assert(r@ =~= spec_summary(level as int));
    }
    r
}

/// The icon file path: under the home directory, the icon named after
/// the icon bucket.
pub open spec fn spec_icon_path(home: Seq<char>, level: int) -> Seq<char> {
    home + "/.config/dunst/icons/vol/vol-"@ + dec_str(spec_icon_bucket(level) as nat) + ".svg"@
}

/// Builds the icon file path from the home directory and the level.
pub fn icon_path(home: &str, level: u32) -> (r: String)
    requires
        level <= 100,
    ensures
        r@ == spec_icon_path(home@, level as int),
{
    let mut r = String::from_str(home);
    r.append("/.config/dunst/icons/vol/vol-");
    let bucket = icon_bucket(level);
    let digits = u32_to_dec(bucket);
    r.append(digits.as_str());
    r.append(".svg");
    proof {
        assert(r@ =~= spec_icon_path(home@, level as int));
    }
    r
}

/// Everything the desktop notification displays.
pub struct NotificationContent {
    pub summary: String,
    pub body: String,
    pub icon: String,
}

/// Assembles the notification content for a device and a brightness
/// level, with the home directory given explicitly by the caller.
pub fn notification_content(device: &str, level: u32, home: &str) -> (r: NotificationContent)
    requires
        level <= 100,
    ensures
        r.summary@ == spec_summary(level as int),
        r.body@ == device@,
        r.icon@ == spec_icon_path(home@, level as int),
{
    NotificationContent {
        summary: summary_text(level),
        body: String::from_str(device),
        icon: icon_path(home, level),
    }
}

} // verus!

//! Icon names used by the shell.

use vstd::prelude::*;

verus! {

pub const RADIOWAVES_X: &'static str = "radiowaves-x";

pub const RADIOWAVES_1: &'static str = "radiowaves-1";

pub const RADIOWAVES_2: &'static str = "radiowaves-2";

pub const RADIOWAVES_3: &'static str = "radiowaves-3";

pub const RADIOWAVES_4: &'static str = "radiowaves-4";

pub const RADIOWAVES_NO: &'static str = "radiowaves-no";

pub const RADIOWAVES_QUESTION: &'static str = "radiowaves-question";

pub const LAN: &'static str = "lan";

pub const LAN_QUESTION: &'static str = "lan-question";

pub const BLUETOOTH: &'static str = "bluetooth";

pub const BLUETOOTH_DOTS: &'static str = "bluetooth-dots";

pub const BLUETOOTH_X: &'static str = "bluetooth-x";

pub const BLUETOOTH_NO: &'static str = "bluetooth-no";

/// Wifi radio switched off, or connected through a device kind the shell
/// has no icon for.
pub const NETWORK_WIFI_DISABLED: &'static str = RADIOWAVES_X;

/// Wifi radio on, but no connection.
pub const NETWORK_WIFI_DISCONNECTED: &'static str = RADIOWAVES_NO;

/// Connected over wifi without a full route to the internet.
pub const NETWORK_WIFI_NO_ROUTE: &'static str = RADIOWAVES_QUESTION;

/// A wifi connection is being activated.
pub const NETWORK_WIFI_CONNECTING: &'static str = "network-wireless-acquiring-symbolic";

/// Connected over ethernet with a full route.
pub const NETWORK_WIRED_CONNECTED: &'static str = LAN;

/// Connected over ethernet without a full route to the internet.
pub const NETWORK_WIRED_NO_ROUTE: &'static str = LAN_QUESTION;

/// An ethernet connection is being activated.
pub const NETWORK_WIRED_CONNECTING: &'static str = "network-wired-acquiring-symbolic";

/// Wifi signal icons from the weakest signal to the strongest.
pub const NETWORK_WIFI_ICON_NAMES: [&'static str; 4] = [RADIOWAVES_4, RADIOWAVES_3, RADIOWAVES_2, RADIOWAVES_1];

/// Index into a list of `count` icons (ordered from empty to full) for a
/// percentage: the percentage, capped at 100, scaled to `0..=count - 1` and
/// rounded half up.
pub open spec fn percentage_icon_index(percentage: int, count: int) -> int {
    let p = if percentage > 100 { 100 } else if percentage < 0 { 0 } else { percentage };
    (p * (count - 1) + 50) / 100
}

/// Picks the icon for `percentage` (0 to 100) from `icons`, which are
/// ordered from empty to full.
pub fn percentage_to_icon_from_list(percentage: u8, icons: &[&'static str]) -> (icon: &'static str)
    requires
        icons@.len() > 0,
    ensures
        0 <= percentage_icon_index(percentage as int, icons@.len() as int) < icons@.len(),
        icon == icons@[percentage_icon_index(percentage as int, icons@.len() as int)],
{
    let p: u128 = if percentage > 100 { 100 } else { percentage as u128 };
    let count = icons.len() as u128;
    proof {
        assert(p * (count - 1) <= 100 * (count - 1)) by (nonlinear_arith)
            requires
                p <= 100,
                count >= 1,
        ;
        assert((p * (count - 1) + 50) / 100 <= count - 1) by (nonlinear_arith)
            requires
                p * (count - 1) <= 100 * (count - 1),
                count >= 1,
        ;
    }
    let index = (p * (count - 1) + 50) / 100;
    icons[index as usize]
}

} // verus!

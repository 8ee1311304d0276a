//! What the portal's pages decide: the colour theme, which navigation link
//! is active, and the classes and texts that follow from them.
use vstd::prelude::*;

use crate::text::{chars_of, copy_string, str_eq};
use crate::web::proxy_client::has_prefix;

verus! {

/// The colour theme the user picked.
#[derive(Debug, Clone, Copy, PartialEq, Eq, Structural)]
pub enum Theme {
    Light,
    Dark,
    System,
}

/// Whether the page is dark: as picked, or as the operating system prefers
/// when the user left it to the system.
pub fn should_be_dark(theme: Theme, os_is_dark: bool) -> (r: bool)
    ensures
        r == match theme {
            Theme::Dark => true,
            Theme::Light => false,
            Theme::System => os_is_dark,
        },
{
    match theme {
        Theme::Dark => true,
        Theme::Light => false,
        Theme::System => os_is_dark,
    }
}

/// The classes every theme button has.
pub const THEME_BUTTON_BASE: &'static str =
    "flex-1 py-1.5 text-center rounded-sm transition-all focus:outline-none text-sm";
/// The classes of the button of the theme in use.
pub const THEME_BUTTON_ON: &'static str =
    "bg-white dark:bg-[#4d5358] shadow-sm text-black dark:text-white";
/// The classes of the buttons of the other themes.
pub const THEME_BUTTON_OFF: &'static str =
    "text-gray-500 hover:text-gray-700 dark:text-gray-400 dark:hover:text-gray-200";

/// The classes of the button of theme `button` while `current` is in use.
pub fn theme_button_class(current: Theme, button: Theme) -> (r: String)
    ensures
        r@ == THEME_BUTTON_BASE@ + " "@ + (if current == button {
            THEME_BUTTON_ON@
        } else {
            THEME_BUTTON_OFF@
        }),
{
    let state = if current == button {
        THEME_BUTTON_ON
    } else {
        THEME_BUTTON_OFF
    };
    copy_string(THEME_BUTTON_BASE).concat(" ").concat(state)
}

/// The link to `target` is the page at `path`: the home link only on the
/// home page itself, any other on every page below it.
pub open spec fn link_active(path: Seq<char>, target: Seq<char>) -> bool {
    if target == "/"@ {
        path == "/"@
    } else {
        path.len() >= target.len() && path.take(target.len() as int) == target
    }
}

/// Whether the link to `target` is the page at `path`.
pub fn is_link_active(path: &str, target: &str) -> (r: bool)
    ensures
        r == link_active(path@, target@),
{
    if str_eq(target, "/") {
        str_eq(path, "/")
    } else {
        let p = chars_of(path);
        has_prefix(p.as_slice(), target)
    }
}

/// The classes every navigation link has.
pub const NAV_LINK_BASE: &'static str =
    "flex items-center px-6 py-2.5 dark:hover:bg-[#4d5358] hover:bg-[#c6c6c6] transition-colors border-l-4";

/// The classes of the navigation link to `target` on the page at `path`:
/// the active one is marked with a blue border.
pub fn nav_link_class(path: &str, target: &str) -> (r: String)
    ensures
        r@ == NAV_LINK_BASE@ + (if link_active(path@, target@) {
            " border-[#4589ff]"@
        } else {
            " border-transparent"@
        }),
{
    let border = if is_link_active(path, target) {
        " border-[#4589ff]"
    } else {
        " border-transparent"
    };
    copy_string(NAV_LINK_BASE).concat(border)
}

/// The classes of the side panel, shown or slid away.
pub fn sidebar_class(is_open: bool) -> (r: String)
    ensures
        r@ == "bg-[#f4f4f4] dark:bg-[#343a3f] fixed inset-y-0 left-0 z-50 flex flex-col w-64 shadow-xl transition-transform "@
            + (if is_open {
            "translate-x-0"@
        } else {
            "-translate-x-full"@
        }),
{
    let transform = if is_open {
        "translate-x-0"
    } else {
        "-translate-x-full"
    };
    copy_string(
        "bg-[#f4f4f4] dark:bg-[#343a3f] fixed inset-y-0 left-0 z-50 flex flex-col w-64 shadow-xl transition-transform ",
    ).concat(transform)
}

/// The path shown on the page-not-found page for the unmatched part `any`
/// of the route.
pub fn not_found_path(any: Option<&str>) -> (r: String)
    ensures
        r@ == "/"@ + match any {
            Some(a) => a@,
            None => Seq::<char>::empty(),
        },
{
    match any {
        Some(a) => copy_string("/").concat(a),
        None => copy_string("/"),
    }
}

} // verus!

//! The pages a host user interface can show.  Only the identity of a
//! page and its labels live here; rendering belongs to the host.

use vstd::prelude::*;

verus! {

/// One page of the host user interface.
#[derive(Clone, Copy, Debug, PartialEq, Eq, Structural)]
pub enum Page {
    /// The greeting page shown on first start.
    Welcome,
    /// Desktop appearance: color scheme and wallpaper.
    Desktop,
    /// The synchronization services.
    Services,
    /// General application settings.
    Settings,
}

impl Default for Page {
    fn default() -> (r: Self)
        ensures
            r == Page::Welcome,
    {
        Page::Welcome
    }
}

impl Page {
    /// The title shown for this page.
    pub fn title(&self) -> (r: &'static str)
        ensures
            self == Page::Welcome ==> r@ == "Welcome"@,
            self == Page::Desktop ==> r@ == "Desktop"@,
            self == Page::Services ==> r@ == "Services"@,
            self == Page::Settings ==> r@ == "Settings"@,
    {
        match self {
            Page::Welcome => "Welcome",
            Page::Desktop => "Desktop",
            Page::Services => "Services",
            Page::Settings => "Settings",
        }
    }

    /// The name of the icon shown beside this page.
    pub fn icon_name(&self) -> (r: &'static str)
        ensures
            self == Page::Welcome ==> r@ == "face-smile-big-symbolic"@,
            self == Page::Desktop ==> r@ == "computer-symbolic"@,
            self == Page::Services ==> r@ == "network-server-symbolic"@,
            self == Page::Settings ==> r@ == "preferences-system-symbolic"@,
    {
        match self {
            Page::Welcome => "face-smile-big-symbolic",
            Page::Desktop => "computer-symbolic",
            Page::Services => "network-server-symbolic",
            Page::Settings => "preferences-system-symbolic",
        }
    }
}

} // verus!

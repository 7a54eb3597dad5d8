//! The bottom tab bar of the phone layout.

use vstd::prelude::*;
use crate::i18n::PhoneText;

verus! {

/// One full-screen view of the phone layout.
#[derive(Clone, Copy, Debug, PartialEq, Eq, Structural)]
pub enum PhoneTab {
    Servers,
    Terminal,
    Files,
    Monitor,
}

/// The tabs in bar order.
pub const PHONE_TABS: [PhoneTab; 4] = [
    PhoneTab::Servers,
    PhoneTab::Terminal,
    PhoneTab::Files,
    PhoneTab::Monitor,
];

/// The icon name of a tab.
pub open spec fn spec_tab_icon(tab: PhoneTab) -> Seq<char> {
    match tab {
        PhoneTab::Servers => "sessions"@,
        PhoneTab::Terminal => "connect"@,
        PhoneTab::Files => "folder"@,
        PhoneTab::Monitor => "monitor"@,
    }
}

impl PhoneTab {
    /// The icon name of the tab.
    pub fn icon(self) -> (r: &'static str)
        ensures
            r@ == spec_tab_icon(self),
    {
        match self {
            PhoneTab::Servers => "sessions",
            PhoneTab::Terminal => "connect",
            PhoneTab::Files => "folder",
            PhoneTab::Monitor => "monitor",
        }
    }

    /// The localized label of the tab.
    pub fn label(self, t: &PhoneText) -> (r: &'static str)
        ensures
            r == match self {
                PhoneTab::Servers => t.tab_servers,
                PhoneTab::Terminal => t.tab_terminal,
                PhoneTab::Files => t.tab_files,
                PhoneTab::Monitor => t.tab_monitor,
            },
    {
        match self {
            PhoneTab::Servers => t.tab_servers,
            PhoneTab::Terminal => t.tab_terminal,
            PhoneTab::Files => t.tab_files,
            PhoneTab::Monitor => t.tab_monitor,
        }
    }

    /// Terminal, files and monitor all show the current session, so only the
    /// server list can be shown without one.
    pub fn requires_session(self) -> (r: bool)
        ensures
            r == (self != PhoneTab::Servers),
    {
        !matches!(self, PhoneTab::Servers)
    }
}

/// The tab shown for a selected tab.
pub open spec fn spec_resolved_tab(tab: PhoneTab, has_session: bool) -> PhoneTab {
    if tab != PhoneTab::Servers && !has_session {
        PhoneTab::Servers
    } else {
        tab
    }
}

/// The tab actually shown: without a session, a tab that needs one falls
/// back to the server list.
pub fn resolved_tab(tab: PhoneTab, has_session: bool) -> (r: PhoneTab)
    ensures
        r == spec_resolved_tab(tab, has_session),
{
    if tab.requires_session() && !has_session {
        PhoneTab::Servers
    } else {
        tab
    }
}

/// After a new connection the user lands on its terminal.
pub fn tab_after_connect() -> (r: PhoneTab)
    ensures
        r == PhoneTab::Terminal,
{
    PhoneTab::Terminal
}

/// Every tab is shown once a session exists; without one every tab falls back
/// to the server list; and resolving twice changes nothing.
pub proof fn law_resolved_tab_is_always_renderable(tab: PhoneTab, has_session: bool)
    ensures
        has_session ==> spec_resolved_tab(tab, has_session) == tab,
        !has_session ==> spec_resolved_tab(tab, has_session) == PhoneTab::Servers,
        spec_resolved_tab(spec_resolved_tab(tab, has_session), has_session) == spec_resolved_tab(tab, has_session),
{
}

} // verus!
